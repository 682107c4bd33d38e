use autorec_turbo::overlay::{
    overlay_files, render_tmpl, InjectPayload, TMPL_BRB, TMPL_ENCERRAMENTO, TMPL_INICIANDO,
    TMPL_LOWER_THIRD,
};

fn payload(name: &str, instagram: &str, youtube: &str, accent: &str) -> InjectPayload {
    InjectPayload {
        name: name.to_string(),
        instagram: instagram.to_string(),
        youtube: youtube.to_string(),
        accent_color: accent.to_string(),
    }
}

#[test]
fn placeholders_are_filled_and_trimmed() {
    let p = payload("  Ana Souza ", " @@ana ", " AnaTV\n", "#f00");
    let r = render_tmpl("{{NAME}}|@{{INSTAGRAM}}|{{YOUTUBE}}|{{ACCENT}}", &p);
    assert_eq!(r, "Ana Souza|@ana|AnaTV|#f00");
}

#[test]
fn every_occurrence_is_replaced() {
    let p = payload("N", "i", "y", "c");
    assert_eq!(render_tmpl("{{ACCENT}}-{{ACCENT}}-{{NAME}}{{NAME}}", &p), "c-c-NN");
}

#[test]
fn accent_is_not_trimmed() {
    let p = payload("N", "i", "y", " #0f0 ");
    assert_eq!(render_tmpl("[{{ACCENT}}]", &p), "[ #0f0 ]");
}

#[test]
fn later_placeholder_in_earlier_value_is_filled() {
    let p = payload("{{ACCENT}}", "i", "y", "red");
    assert_eq!(render_tmpl("{{NAME}}", &p), "red");
}

#[test]
fn text_without_placeholders_is_kept() {
    let p = payload("N", "i", "y", "c");
    assert_eq!(render_tmpl("plain {{ text }}", &p), "plain {{ text }}");
}

#[test]
fn four_overlay_pages() {
    let p = payload("Ana", "@ana", "AnaTV", "#123456");
    let files = overlay_files(&p);
    assert_eq!(files.len(), 4);
    assert_eq!(files[0].file_name, "iniciando.html");
    assert_eq!(files[1].file_name, "brb.html");
    assert_eq!(files[2].file_name, "encerramento.html");
    assert_eq!(files[3].file_name, "lower-third.html");
    assert_eq!(files[0].html, render_tmpl(TMPL_INICIANDO, &p));
    assert_eq!(files[1].html, render_tmpl(TMPL_BRB, &p));
    assert_eq!(files[2].html, render_tmpl(TMPL_ENCERRAMENTO, &p));
    assert_eq!(files[3].html, render_tmpl(TMPL_LOWER_THIRD, &p));
    for f in &files {
        assert!(!f.html.contains("{{"));
    }
    assert!(files[3].html.contains("<div class=\"name\">Ana</div>"));
    assert!(files[3].html.contains("@ana&nbsp;&middot;&nbsp;AnaTV"));
    assert!(files[0].html.contains("background:#123456;"));
}

#[test]
fn agrees_with_std_replace_and_trim() {
    let cases = [
        ("\u{2003}Ana\u{a0}", "\u{3000}@@@x\u{85}", "\t\u{2029}yt ", "  "),
        ("", "", "", ""),
        ("@", "@", "@", "@"),
        ("{{NAME}}", "{{YOUTUBE}}", "{{ACCENT}}", "{{NAME}}"),
    ];
    for (n, i, y, a) in cases {
        let p = payload(n, i, y, a);
        for t in [TMPL_INICIANDO, TMPL_LOWER_THIRD, "{{NAME}}{{INSTAGRAM}}{{YOUTUBE}}{{ACCENT}}{{NAME}}", "{{{{NAME}}}}"] {
            let expected = t
                .replace("{{NAME}}", n.trim())
                .replace("{{INSTAGRAM}}", i.trim().trim_start_matches('@'))
                .replace("{{YOUTUBE}}", y.trim())
                .replace("{{ACCENT}}", a);
            assert_eq!(render_tmpl(t, &p), expected);
        }
    }
}
