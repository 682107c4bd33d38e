use vstd::prelude::*;

use crate::text::{lemma_replace_absent, lemma_starts_with_prefix, starts_with, from_chars, replace_chars, replace_all, to_chars, trim, trim_start_char, trim_start_matching, trim_ws};

verus! {

/// What the setup screen sends: the presenter's name, social handles and accent colour.
pub struct InjectPayload {
    pub name: String,
    pub instagram: String,
    pub youtube: String,
    pub accent_color: String,
}

/// HTML of the "Starting soon" overlay, shown before the stream begins.
/// Placeholders: `{{NAME}}`, `{{INSTAGRAM}}`, `{{YOUTUBE}}`, `{{ACCENT}}`.
pub const TMPL_INICIANDO: &'static str = r####"<!DOCTYPE html><html><head><meta charset="UTF-8"><style>*{margin:0;padding:0;box-sizing:border-box}html,body{width:1920px;height:1080px;overflow:hidden;font-family:'Segoe UI',system-ui,sans-serif;background:#080810;color:#fff}.o{position:absolute;border-radius:50%;filter:blur(100px)}.o1{width:800px;height:800px;background:rgba(99,102,241,.3);top:-200px;left:-200px;animation:f1 10s ease-in-out infinite}.o2{width:500px;height:500px;background:rgba(129,140,248,.2);bottom:-150px;right:-100px;animation:f2 12s ease-in-out infinite}@keyframes f1{0%,100%{transform:translate(0,0)}50%{transform:translate(100px,80px)}}@keyframes f2{0%,100%{transform:translate(0,0)}50%{transform:translate(-80px,-60px)}}.glow{position:absolute;inset:0;background:radial-gradient(ellipse 55% 50% at 50% 40%,rgba(99,102,241,.18) 0%,transparent 65%);animation:br 5s ease-in-out infinite}@keyframes br{0%,100%{opacity:.6}50%{opacity:1}}.grid{position:absolute;inset:0;background-image:linear-gradient(rgba(99,102,241,.05) 1px,transparent 1px),linear-gradient(90deg,rgba(99,102,241,.05) 1px,transparent 1px);background-size:70px 70px}.c{position:absolute;inset:0;display:flex;flex-direction:column;align-items:center;justify-content:center;gap:28px}.badge{display:inline-flex;align-items:center;gap:10px;background:rgba(99,102,241,.15);border:1px solid rgba(99,102,241,.45);border-radius:100px;padding:10px 28px;font-size:15px;font-weight:600;letter-spacing:.25em;text-transform:uppercase;color:#818cf8}.dot{width:10px;height:10px;border-radius:50%;background:{{ACCENT}};animation:bk 1.4s ease-in-out infinite}@keyframes bk{0%,100%{opacity:1}50%{opacity:.1}}h1{font-size:108px;font-weight:900;letter-spacing:-3px;line-height:1.05;text-align:center;background:linear-gradient(135deg,#fff 0%,#a5b4fc 100%);-webkit-background-clip:text;-webkit-text-fill-color:transparent;background-clip:text}.sub{font-size:26px;color:rgba(255,255,255,.4);letter-spacing:.1em}.ln{width:150px;height:2px;background:linear-gradient(90deg,transparent,{{ACCENT}},transparent)}.bot{position:absolute;bottom:0;left:0;right:0;height:130px;display:flex;align-items:center;justify-content:center;gap:48px;background:linear-gradient(transparent,rgba(0,0,0,.85))}.h{display:flex;align-items:center;gap:10px;font-size:22px;font-weight:500;color:rgba(255,255,255,.65)}.hi{color:{{ACCENT}}}.dv{width:4px;height:4px;border-radius:50%;background:rgba(255,255,255,.25)}</style></head><body><div class="o o1"></div><div class="o o2"></div><div class="grid"></div><div class="glow"></div><div class="c"><div class="badge"><span class="dot"></span>AO VIVO EM BREVE</div><h1>Come&ccedil;ando<br>em breve</h1><div class="ln"></div><p class="sub">Aguarde um momento&hellip;</p></div><div class="bot"><div class="h"><span class="hi">&#9670;</span>&nbsp;@{{INSTAGRAM}}</div><div class="dv"></div><div class="h"><span class="hi">&#9670;</span>&nbsp;{{YOUTUBE}}</div><div class="dv"></div><div class="h" style="color:#818cf8;font-weight:700">{{NAME}}</div></div></body></html>"####;

/// HTML of the "Be right back" overlay, shown during a pause.
/// Placeholders: `{{NAME}}`, `{{INSTAGRAM}}`, `{{YOUTUBE}}`, `{{ACCENT}}`.
pub const TMPL_BRB: &'static str = r####"<!DOCTYPE html><html><head><meta charset="UTF-8"><style>*{margin:0;padding:0;box-sizing:border-box}html,body{width:1920px;height:1080px;overflow:hidden;font-family:'Segoe UI',system-ui,sans-serif;background:#080810;color:#fff}.orb{position:absolute;border-radius:50%;filter:blur(100px);width:700px;height:700px;background:rgba(99,102,241,.28);top:50%;left:50%;transform:translate(-50%,-50%);animation:pulse 5s ease-in-out infinite}@keyframes pulse{0%,100%{opacity:.6;transform:translate(-50%,-50%) scale(1)}50%{opacity:1;transform:translate(-50%,-50%) scale(1.12)}}.grid{position:absolute;inset:0;background-image:linear-gradient(rgba(99,102,241,.05) 1px,transparent 1px),linear-gradient(90deg,rgba(99,102,241,.05) 1px,transparent 1px);background-size:70px 70px}.c{position:absolute;inset:0;display:flex;flex-direction:column;align-items:center;justify-content:center;gap:24px}.icon{font-size:80px;animation:bob 2s ease-in-out infinite}@keyframes bob{0%,100%{transform:translateY(0)}50%{transform:translateY(-14px)}}h1{font-size:112px;font-weight:900;letter-spacing:-3px;background:linear-gradient(135deg,#fff 0%,#a5b4fc 100%);-webkit-background-clip:text;-webkit-text-fill-color:transparent;background-clip:text}.sub{font-size:27px;color:rgba(255,255,255,.4);letter-spacing:.08em}.dots{display:flex;gap:12px;margin-top:6px}.d{width:12px;height:12px;border-radius:50%;background:{{ACCENT}};animation:sp 1.4s ease-in-out infinite}.d:nth-child(2){animation-delay:.2s}.d:nth-child(3){animation-delay:.4s}@keyframes sp{0%,80%,100%{transform:scale(.5);opacity:.3}40%{transform:scale(1);opacity:1}}.bot{position:absolute;bottom:0;left:0;right:0;height:100px;display:flex;align-items:center;justify-content:center;gap:40px;background:linear-gradient(transparent,rgba(0,0,0,.8));font-size:21px;color:rgba(255,255,255,.5);font-weight:500}.sep{color:rgba(255,255,255,.2)}</style></head><body><div class="orb"></div><div class="grid"></div><div class="c"><div class="icon">&#9749;</div><h1>Voltando j&aacute;!</h1><p class="sub">Pequena pausa&hellip;</p><div class="dots"><div class="d"></div><div class="d"></div><div class="d"></div></div></div><div class="bot"><span>@{{INSTAGRAM}}</span><span class="sep">&nbsp;/&nbsp;</span><span>{{YOUTUBE}}</span></div></body></html>"####;

/// HTML of the Closing overlay with the presenter's social handles.
/// Placeholders: `{{NAME}}`, `{{INSTAGRAM}}`, `{{YOUTUBE}}`, `{{ACCENT}}`.
pub const TMPL_ENCERRAMENTO: &'static str = r####"<!DOCTYPE html><html><head><meta charset="UTF-8"><style>*{margin:0;padding:0;box-sizing:border-box}html,body{width:1920px;height:1080px;overflow:hidden;font-family:'Segoe UI',system-ui,sans-serif;background:#080810;color:#fff}.o1{position:absolute;border-radius:50%;filter:blur(100px);width:900px;height:900px;background:rgba(99,102,241,.22);top:50%;left:50%;transform:translate(-50%,-55%);animation:br 6s ease-in-out infinite}.o2{position:absolute;border-radius:50%;filter:blur(100px);width:400px;height:400px;background:rgba(168,85,247,.18);bottom:-100px;left:200px}@keyframes br{0%,100%{opacity:.55}50%{opacity:1}}.grid{position:absolute;inset:0;background-image:linear-gradient(rgba(99,102,241,.05) 1px,transparent 1px),linear-gradient(90deg,rgba(99,102,241,.05) 1px,transparent 1px);background-size:70px 70px}.c{position:absolute;inset:0;display:flex;flex-direction:column;align-items:center;justify-content:center;gap:20px}.wave{font-size:78px;animation:wv 2.5s ease-in-out infinite}@keyframes wv{0%,100%{transform:rotate(0)}25%{transform:rotate(22deg)}75%{transform:rotate(-16deg)}}h1{font-size:102px;font-weight:900;letter-spacing:-3px;background:linear-gradient(135deg,#fff 30%,#a5b4fc 100%);-webkit-background-clip:text;-webkit-text-fill-color:transparent;background-clip:text}.sub{font-size:27px;color:rgba(255,255,255,.45);max-width:800px;text-align:center;line-height:1.5}.cards{display:flex;gap:24px;margin-top:12px}.card{background:rgba(99,102,241,.15);border:1px solid rgba(99,102,241,.4);border-radius:16px;padding:16px 36px;text-align:center}.plat{font-size:13px;letter-spacing:.15em;text-transform:uppercase;color:#818cf8;margin-bottom:4px}.handle{font-size:25px;font-weight:700}.cta{font-size:16px;letter-spacing:.1em;text-transform:uppercase;color:rgba(255,255,255,.3);margin-top:6px}</style></head><body><div class="o1"></div><div class="o2"></div><div class="grid"></div><div class="c"><div class="wave">&#128075;</div><h1>Obrigado!</h1><p class="sub">Foi &oacute;timo ter voc&ecirc;s aqui. Sigam para mais conte&uacute;do!</p><div class="cards"><div class="card"><div class="plat">Instagram</div><div class="handle">@{{INSTAGRAM}}</div></div><div class="card"><div class="plat">YouTube</div><div class="handle">{{YOUTUBE}}</div></div></div><p class="cta">At&eacute; a pr&oacute;xima &#10024;</p></div></body></html>"####;

/// HTML of the Lower-third name strip, laid over the camera and screen scenes.
/// Placeholders: `{{NAME}}`, `{{INSTAGRAM}}`, `{{YOUTUBE}}`, `{{ACCENT}}`.
pub const TMPL_LOWER_THIRD: &'static str = r####"<!DOCTYPE html><html><head><meta charset="UTF-8"><style>*{margin:0;padding:0;box-sizing:border-box}html,body{width:1920px;height:1080px;overflow:hidden;background:transparent}.lt{position:absolute;bottom:0;left:0;right:0;height:104px;display:flex;align-items:center;padding:0 64px;background:linear-gradient(90deg,rgba(5,5,15,.96) 0%,rgba(5,5,15,.92) 55%,transparent 100%);border-top:3px solid {{ACCENT}};animation:si .7s cubic-bezier(.16,1,.3,1) both}@keyframes si{from{transform:translateY(100%);opacity:0}to{transform:translateY(0);opacity:1}}.bar{width:5px;height:64px;background:{{ACCENT}};border-radius:3px;margin-right:22px;flex-shrink:0}.info{display:flex;flex-direction:column;gap:5px;flex:1;font-family:'Segoe UI',system-ui,sans-serif}.name{font-size:32px;font-weight:700;color:#fff;letter-spacing:-.5px}.social{font-size:19px;color:rgba(255,255,255,.55)}.logo{width:110px;height:62px;border:2px dashed rgba(255,255,255,.15);border-radius:10px;display:flex;align-items:center;justify-content:center;color:rgba(255,255,255,.2);font-size:10px;letter-spacing:.1em;text-align:center;line-height:1.5;font-family:'Segoe UI',system-ui,sans-serif}</style></head><body><div class="lt"><div class="bar"></div><div class="info"><div class="name">{{NAME}}</div><div class="social">@{{INSTAGRAM}}&nbsp;&middot;&nbsp;{{YOUTUBE}}</div></div><div class="logo">SEU<br>LOGO</div></div></body></html>"####;

/// The Instagram handle as it is shown: trimmed, without leading `@`s.
pub open spec fn instagram_handle(instagram: Seq<char>) -> Seq<char> {
    trim_start_char(trim_ws(instagram), '@')
}

/// The template with its placeholders filled in from the payload: `{{NAME}}` by the
/// trimmed name, `{{INSTAGRAM}}` by the handle, `{{YOUTUBE}}` by the trimmed YouTube
/// name and `{{ACCENT}}` by the accent colour as given, in that order.
pub open spec fn rendered(
    tmpl: Seq<char>,
    name: Seq<char>,
    instagram: Seq<char>,
    youtube: Seq<char>,
    accent: Seq<char>,
) -> Seq<char> {
    replace_all(
        replace_all(
            replace_all(
                replace_all(tmpl, "{{NAME}}"@, trim_ws(name)),
                "{{INSTAGRAM}}"@,
                instagram_handle(instagram),
            ),
            "{{YOUTUBE}}"@,
            trim_ws(youtube),
        ),
        "{{ACCENT}}"@,
        accent,
    )
}

/// `rendered` for a payload.
pub open spec fn rendered_for(tmpl: Seq<char>, payload: &InjectPayload) -> Seq<char> {
    rendered(
        tmpl,
        payload.name@,
        payload.instagram@,
        payload.youtube@,
        payload.accent_color@,
    )
}

/// Fills the placeholders of an overlay template from the payload.
pub fn render_tmpl(tmpl: &str, payload: &InjectPayload) -> (html: String)
    ensures
        html@ == rendered_for(tmpl@, payload),
{
    proof {
        reveal_strlit("{{NAME}}");
        reveal_strlit("{{INSTAGRAM}}");
        reveal_strlit("{{YOUTUBE}}");
        reveal_strlit("{{ACCENT}}");
    }
    let instagram = trim_start_matching(&trim(&to_chars(payload.instagram.as_str())), '@');
    let name = trim(&to_chars(payload.name.as_str()));
    let youtube = trim(&to_chars(payload.youtube.as_str()));
    let accent = to_chars(payload.accent_color.as_str());
    let t = to_chars(tmpl);
    let t = replace_chars(&t, &to_chars("{{NAME}}"), &name);
    let t = replace_chars(&t, &to_chars("{{INSTAGRAM}}"), &instagram);
    let t = replace_chars(&t, &to_chars("{{YOUTUBE}}"), &youtube);
    let t = replace_chars(&t, &to_chars("{{ACCENT}}"), &accent);
    from_chars(&t)
}

/// One overlay page to be written into the overlay directory.
pub struct OverlayFile {
    pub file_name: String,
    pub html: String,
}

/// The four overlay pages, rendered for the payload: `iniciando.html`, `brb.html`,
/// `encerramento.html` and `lower-third.html`, each from its template.
pub fn overlay_files(payload: &InjectPayload) -> (files: Vec<OverlayFile>)
    ensures
        files@.len() == 4,
        files@[0].file_name@ == "iniciando.html"@,
        files@[0].html@ == rendered_for(TMPL_INICIANDO@, payload),
        files@[1].file_name@ == "brb.html"@,
        files@[1].html@ == rendered_for(TMPL_BRB@, payload),
        files@[2].file_name@ == "encerramento.html"@,
        files@[2].html@ == rendered_for(TMPL_ENCERRAMENTO@, payload),
        files@[3].file_name@ == "lower-third.html"@,
        files@[3].html@ == rendered_for(TMPL_LOWER_THIRD@, payload),
{
    let mut files: Vec<OverlayFile> = Vec::new();
    files.push(OverlayFile { file_name: "iniciando.html".to_string(), html: render_tmpl(TMPL_INICIANDO, payload) });
    files.push(OverlayFile { file_name: "brb.html".to_string(), html: render_tmpl(TMPL_BRB, payload) });
    files.push(OverlayFile {
        file_name: "encerramento.html".to_string(),
        html: render_tmpl(TMPL_ENCERRAMENTO, payload),
    });
    files.push(OverlayFile {
        file_name: "lower-third.html".to_string(),
        html: render_tmpl(TMPL_LOWER_THIRD, payload),
    });
    files
}

/// A template with no `{{` is rendered unchanged, whatever the payload: only the
/// placeholders are ever replaced.
pub proof fn law_plain_template_unchanged(
    tmpl: Seq<char>,
    name: Seq<char>,
    instagram: Seq<char>,
    youtube: Seq<char>,
    accent: Seq<char>,
)
    requires
        forall|i: int| 0 <= i < tmpl.len() ==> !#[trigger] starts_with(tmpl.skip(i), "{{"@),
    ensures
        rendered(tmpl, name, instagram, youtube, accent) == tmpl,
{
    reveal_strlit("{{");
    reveal_strlit("{{NAME}}");
    reveal_strlit("{{INSTAGRAM}}");
    reveal_strlit("{{YOUTUBE}}");
    reveal_strlit("{{ACCENT}}");
    assert("{{NAME}}"@.take(2) =~= "{{"@);
    assert(starts_with("{{NAME}}"@, "{{"@));
    assert("{{INSTAGRAM}}"@.take(2) =~= "{{"@);
    assert(starts_with("{{INSTAGRAM}}"@, "{{"@));
    assert("{{YOUTUBE}}"@.take(2) =~= "{{"@);
    assert(starts_with("{{YOUTUBE}}"@, "{{"@));
    assert("{{ACCENT}}"@.take(2) =~= "{{"@);
    assert(starts_with("{{ACCENT}}"@, "{{"@));
    assert forall|i: int| 0 <= i < tmpl.len() implies !#[trigger] starts_with(tmpl.skip(i), "{{NAME}}"@) by {
        if starts_with(tmpl.skip(i), "{{NAME}}"@) {
            lemma_starts_with_prefix(tmpl.skip(i), "{{NAME}}"@, "{{"@);
        }
    }
    lemma_replace_absent(tmpl, "{{NAME}}"@, trim_ws(name));
    assert forall|i: int| 0 <= i < tmpl.len() implies !#[trigger] starts_with(tmpl.skip(i), "{{INSTAGRAM}}"@) by {
        if starts_with(tmpl.skip(i), "{{INSTAGRAM}}"@) {
            lemma_starts_with_prefix(tmpl.skip(i), "{{INSTAGRAM}}"@, "{{"@);
        }
    }
    lemma_replace_absent(tmpl, "{{INSTAGRAM}}"@, instagram_handle(instagram));
    assert forall|i: int| 0 <= i < tmpl.len() implies !#[trigger] starts_with(tmpl.skip(i), "{{YOUTUBE}}"@) by {
        if starts_with(tmpl.skip(i), "{{YOUTUBE}}"@) {
            lemma_starts_with_prefix(tmpl.skip(i), "{{YOUTUBE}}"@, "{{"@);
        }
    }
    lemma_replace_absent(tmpl, "{{YOUTUBE}}"@, trim_ws(youtube));
    assert forall|i: int| 0 <= i < tmpl.len() implies !#[trigger] starts_with(tmpl.skip(i), "{{ACCENT}}"@) by {
        if starts_with(tmpl.skip(i), "{{ACCENT}}"@) {
            lemma_starts_with_prefix(tmpl.skip(i), "{{ACCENT}}"@, "{{"@);
        }
    }
    lemma_replace_absent(tmpl, "{{ACCENT}}"@, accent);
}

} // verus!
