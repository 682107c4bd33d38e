use vstd::prelude::*;
use vstd::string::*;

use crate::color::{color_fields_splittable, hex_to_obs_color, obs_color_of};
use crate::system::Platform;

verus! {

/// One source placed in a scene. Positions and bounds are whole pixels of the 1920x1080
/// canvas, scales are percentages (100 is the source's own size) and the rotation is in
/// degrees.
pub struct SceneItem {
    pub source_name: String,
    pub item_id: u32,
    pub pos_x: u32,
    pub pos_y: u32,
    pub scale_x_pct: u32,
    pub scale_y_pct: u32,
    pub visible: bool,
    pub align: u32,
    pub blend_method: u32,
    pub blend_type: u32,
    pub bounds_x: u32,
    pub bounds_y: u32,
    pub bounds_align: u32,
    pub bounds_type: u32,
    pub crop_bottom: u32,
    pub crop_left: u32,
    pub crop_right: u32,
    pub crop_top: u32,
    pub locked: bool,
    pub rot_deg: u32,
    pub scale_filter: u32,
}

/// The value of one setting of a source.
pub enum SettingValue {
    Text(String),
    Int(i64),
    Flag(bool),
    /// A rate such as frames per second, as `numerator / denominator`.
    Fraction { numerator: i64, denominator: i64 },
}

/// One setting of a source: a key and its value.
pub struct Setting {
    pub key: String,
    pub value: SettingValue,
}

/// The fields OBS stores for every source besides its name and settings. The volume and
/// the balance are percentages (a balance of 50 is centred).
pub struct SourceHeader {
    /// OBS's kind of source, stored as both `id` and `versioned_id`.
    pub kind: String,
    pub deinterlace_field_order: u32,
    pub deinterlace_mode: u32,
    pub enabled: bool,
    pub flags: u32,
    pub mixers: u32,
    pub monitoring_type: u32,
    pub muted: bool,
    /// `prev_ver`; none is stored as null.
    pub prev_ver: Option<u32>,
    pub push_to_mute_delay: u32,
    pub push_to_talk_delay: u32,
    pub sync: u32,
    pub volume_pct: u32,
    /// The balance, for the sources that store one.
    pub balance_pct: Option<u32>,
}

/// An audio device source (microphone or desktop audio).
pub struct AudioSource {
    /// Position of the source among the audio devices.
    pub index: usize,
    pub name: String,
    /// The header; its kind is OBS's kind of input, such as `coreaudio_input_capture`.
    pub header: SourceHeader,
    /// The device captured.
    pub device_id: String,
}

/// How a text source is drawn.
pub struct TextStyle {
    pub custom_width: u32,
    pub drop_shadow: bool,
    pub font_face: String,
    pub font_flags: u32,
    pub font_size: u32,
    pub font_style: String,
    pub from_file: bool,
    pub outline: bool,
    pub word_wrap: bool,
}

/// A source of the scene collection.
pub enum Source {
    /// A local HTML page shown full-canvas; `settings` are those besides the file.
    Browser { name: String, local_file: String, header: SourceHeader, settings: Vec<Setting> },
    /// The default camera, named `Webcam`.
    Webcam { header: SourceHeader, settings: Vec<Setting> },
    /// Capture of the main display, named `Captura de Tela`.
    Display { header: SourceHeader, settings: Vec<Setting> },
    /// Capture of a window, named `Captura de Janela`.
    Window { header: SourceHeader, settings: Vec<Setting> },
    /// A FreeType text source drawn in `color` (ABGR).
    Text { name: String, text: String, color: u32, header: SourceHeader, style: TextStyle },
    /// A scene made of items; `id_counter` is the id the next item would get.
    Scene {
        name: String,
        items: Vec<SceneItem>,
        id_counter: usize,
        header: SourceHeader,
        custom_size: bool,
    },
}

/// OBS's `prev_ver` for the audio, text and scene sources.
pub const OBS_PREV_VER: u32 = 503316481;

/// The header holds what OBS stores for a source of `kind`: enabled, not muted, at full
/// volume, with no deinterlacing, flags, monitoring, push delays or sync offset, and the
/// given mixers, `prev_ver` and balance.
pub open spec fn header_is(
    h: SourceHeader,
    kind: Seq<char>,
    mixers: u32,
    prev_ver: Option<u32>,
    balance_pct: Option<u32>,
) -> bool {
    &&& h.kind@ == kind
    &&& h.deinterlace_field_order == 0
    &&& h.deinterlace_mode == 0
    &&& h.enabled
    &&& h.flags == 0
    &&& h.mixers == mixers
    &&& h.monitoring_type == 0
    &&& !h.muted
    &&& h.prev_ver == prev_ver
    &&& h.push_to_mute_delay == 0
    &&& h.push_to_talk_delay == 0
    &&& h.sync == 0
    &&& h.volume_pct == 100
    &&& h.balance_pct == balance_pct
}

fn source_header(kind: &str, mixers: u32, prev_ver: Option<u32>, balance_pct: Option<u32>) -> (h: SourceHeader)
    ensures
        header_is(h, kind@, mixers, prev_ver, balance_pct),
{
    SourceHeader {
        kind: kind.to_string(),
        deinterlace_field_order: 0,
        deinterlace_mode: 0,
        enabled: true,
        flags: 0,
        mixers,
        monitoring_type: 0,
        muted: false,
        prev_ver,
        push_to_mute_delay: 0,
        push_to_talk_delay: 0,
        sync: 0,
        volume_pct: 100,
        balance_pct,
    }
}

/// The cross-fade between scenes.
pub struct Transition {
    pub id: String,
    pub name: String,
    pub duration_ms: u32,
}

/// An OBS scene collection.
pub struct SceneCollection {
    pub name: String,
    pub current_scene: String,
    pub current_program_scene: String,
    pub aux_audio: AudioSource,
    pub desktop_audio: AudioSource,
    pub scene_order: Vec<String>,
    pub sources: Vec<Source>,
    pub transition: Transition,
}

/// OBS's input kinds for microphone, desktop audio, camera and screen capture.
pub struct CaptureKinds {
    pub audio_input: &'static str,
    pub audio_output: &'static str,
    pub webcam: &'static str,
    pub screen: &'static str,
}

/// OBS's microphone input kind on the platform.
pub open spec fn audio_input_kind(platform: Platform) -> Seq<char> {
    match platform {
        Platform::MacOs => "coreaudio_input_capture"@,
        Platform::Windows => "wasapi_input_capture"@,
        Platform::Linux => "pulse_input_capture"@,
    }
}

/// OBS's desktop-audio input kind on the platform.
pub open spec fn audio_output_kind(platform: Platform) -> Seq<char> {
    match platform {
        Platform::MacOs => "coreaudio_output_capture"@,
        Platform::Windows => "wasapi_output_capture"@,
        Platform::Linux => "pulse_output_capture"@,
    }
}

/// OBS's camera input kind on the platform.
pub open spec fn webcam_kind(platform: Platform) -> Seq<char> {
    match platform {
        Platform::MacOs => "av_capture_input_v2"@,
        Platform::Windows => "dshow_input"@,
        Platform::Linux => "v4l2_input"@,
    }
}

/// OBS's screen capture input kind on the platform.
pub open spec fn screen_kind(platform: Platform) -> Seq<char> {
    match platform {
        Platform::MacOs => "display_capture"@,
        Platform::Windows => "monitor_capture"@,
        Platform::Linux => "xshm_input"@,
    }
}

/// The capture input kinds that OBS offers on each platform.
pub fn capture_kinds(platform: Platform) -> (k: CaptureKinds)
    ensures
        k.audio_input@ == audio_input_kind(platform),
        k.audio_output@ == audio_output_kind(platform),
        k.webcam@ == webcam_kind(platform),
        k.screen@ == screen_kind(platform),
{
    match platform {
        Platform::MacOs => CaptureKinds {
            audio_input: "coreaudio_input_capture",
            audio_output: "coreaudio_output_capture",
            webcam: "av_capture_input_v2",
            screen: "display_capture",
        },
        Platform::Windows => CaptureKinds {
            audio_input: "wasapi_input_capture",
            audio_output: "wasapi_output_capture",
            webcam: "dshow_input",
            screen: "monitor_capture",
        },
        Platform::Linux => CaptureKinds {
            audio_input: "pulse_input_capture",
            audio_output: "pulse_output_capture",
            webcam: "v4l2_input",
            screen: "xshm_input",
        },
    }
}

/// An audio device source.
pub fn make_audio_source(id: usize, name: &str, obs_id: &str) -> (s: AudioSource)
    ensures
        audio_is(s, id, name@, obs_id@),
{
    AudioSource {
        index: id,
        name: name.to_string(),
        header: source_header(obs_id, 255, Some(OBS_PREV_VER), Some(50)),
        device_id: "default".to_string(),
    }
}

/// The audio source has that index, name and kind, captures the default device, and
/// goes to all mixers, centred.
pub open spec fn audio_is(s: AudioSource, index: usize, name: Seq<char>, kind: Seq<char>) -> bool {
    &&& s.index == index
    &&& s.name@ == name
    &&& header_is(s.header, kind, 255, Some(OBS_PREV_VER), Some(50))
    &&& s.device_id@ == "default"@
}

/// The setting holds text `v` under `key`.
pub open spec fn text_is(st: Setting, key: Seq<char>, v: Seq<char>) -> bool {
    st.key@ == key && (st.value matches SettingValue::Text(t) && t@ == v)
}

/// The setting holds the number `n` under `key`.
pub open spec fn int_is(st: Setting, key: Seq<char>, n: int) -> bool {
    st.key@ == key && (st.value matches SettingValue::Int(i) && i == n)
}

/// The setting holds the flag `b` under `key`.
pub open spec fn flag_is(st: Setting, key: Seq<char>, b: bool) -> bool {
    st.key@ == key && (st.value matches SettingValue::Flag(f) && f == b)
}

/// The setting holds the rate `num / den` under `key`.
pub open spec fn fraction_is(st: Setting, key: Seq<char>, num: int, den: int) -> bool {
    st.key@ == key && (st.value matches SettingValue::Fraction { numerator, denominator }
        && numerator == num && denominator == den)
}

/// The camera's settings on the platform: no device chosen yet, and on macOS 30 frames
/// per second with OBS's default format and preset.
pub open spec fn webcam_settings_are(st: Seq<Setting>, platform: Platform) -> bool {
    match platform {
        Platform::MacOs => {
            &&& st.len() == 6
            &&& text_is(st[0], "device"@, ""@)
            &&& text_is(st[1], "device_name"@, ""@)
            &&& fraction_is(st[2], "frame_rate"@, 30, 1)
            &&& int_is(st[3], "input_format"@, -1)
            &&& int_is(st[4], "preset"@, -1)
            &&& text_is(st[5], "resolution"@, ""@)
        },
        Platform::Windows => {
            &&& st.len() == 3
            &&& text_is(st[0], "video_device_id"@, ""@)
            &&& text_is(st[1], "last_resolution"@, ""@)
            &&& int_is(st[2], "fps"@, 0)
        },
        Platform::Linux => {
            &&& st.len() == 3
            &&& text_is(st[0], "device_id"@, ""@)
            &&& int_is(st[1], "pixelformat"@, 0)
            &&& text_is(st[2], "resolution"@, ""@)
        },
    }
}

/// The display capture's settings on the platform: the first display (none to choose on
/// Linux), with the cursor shown.
pub open spec fn display_settings_are(st: Seq<Setting>, platform: Platform) -> bool {
    match platform {
        Platform::MacOs => st.len() == 2 && int_is(st[0], "display"@, 0) && flag_is(st[1], "show_cursor"@, true),
        Platform::Windows => st.len() == 2 && int_is(st[0], "monitor"@, 0) && flag_is(st[1], "show_cursor"@, true),
        Platform::Linux => st.len() == 1 && flag_is(st[0], "show_cursor"@, true),
    }
}

/// The window capture's settings on the platform: no window chosen yet, with the cursor
/// shown.
pub open spec fn window_settings_are(st: Seq<Setting>, platform: Platform) -> bool {
    &&& st.len() == 2
    &&& (if platform == Platform::Windows { text_is(st[0], "window"@, ""@) } else { text_is(st[0], "owner_name"@, ""@) })
    &&& flag_is(st[1], "show_cursor"@, true)
}

fn text_setting(key: &str, v: &str) -> (st: Setting)
    ensures
        text_is(st, key@, v@),
{
    Setting { key: key.to_string(), value: SettingValue::Text(v.to_string()) }
}

fn int_setting(key: &str, n: i64) -> (st: Setting)
    ensures
        int_is(st, key@, n as int),
{
    Setting { key: key.to_string(), value: SettingValue::Int(n) }
}

fn flag_setting(key: &str, b: bool) -> (st: Setting)
    ensures
        flag_is(st, key@, b),
{
    Setting { key: key.to_string(), value: SettingValue::Flag(b) }
}

/// The camera's settings on the platform.
pub fn webcam_settings(platform: Platform) -> (st: Vec<Setting>)
    ensures
        webcam_settings_are(st@, platform),
{
    let mut st: Vec<Setting> = Vec::new();
    match platform {
        Platform::MacOs => {
            st.push(text_setting("device", ""));
            st.push(text_setting("device_name", ""));
            st.push(Setting {
                key: "frame_rate".to_string(),
                value: SettingValue::Fraction { numerator: 30, denominator: 1 },
            });
            st.push(int_setting("input_format", -1));
            st.push(int_setting("preset", -1));
            st.push(text_setting("resolution", ""));
        },
        Platform::Windows => {
            st.push(text_setting("video_device_id", ""));
            st.push(text_setting("last_resolution", ""));
            st.push(int_setting("fps", 0));
        },
        Platform::Linux => {
            st.push(text_setting("device_id", ""));
            st.push(int_setting("pixelformat", 0));
            st.push(text_setting("resolution", ""));
        },
    }
    st
}

/// The display capture's settings on the platform.
pub fn display_settings(platform: Platform) -> (st: Vec<Setting>)
    ensures
        display_settings_are(st@, platform),
{
    let mut st: Vec<Setting> = Vec::new();
    match platform {
        Platform::MacOs => st.push(int_setting("display", 0)),
        Platform::Windows => st.push(int_setting("monitor", 0)),
        Platform::Linux => {},
    }
    st.push(flag_setting("show_cursor", true));
    st
}

/// The window capture's settings on the platform.
pub fn window_settings(platform: Platform) -> (st: Vec<Setting>)
    ensures
        window_settings_are(st@, platform),
{
    let mut st: Vec<Setting> = Vec::new();
    match platform {
        Platform::Windows => st.push(text_setting("window", "")),
        _ => st.push(text_setting("owner_name", "")),
    }
    st.push(flag_setting("show_cursor", true));
    st
}

/// The header of a camera, display or window capture of kind `kind`: no mixers, no
/// `prev_ver` and no balance.
pub open spec fn capture_header_is(h: SourceHeader, kind: Seq<char>) -> bool {
    header_is(h, kind, 0, None, None)
}

/// The camera source, with the platform's camera settings.
pub fn make_webcam_source(obs_id: &str, platform: Platform) -> (s: Source)
    ensures
        s matches Source::Webcam { header, settings } && capture_header_is(header, obs_id@) && webcam_settings_are(
            settings@,
            platform,
        ),
{
    Source::Webcam { header: source_header(obs_id, 0, None, None), settings: webcam_settings(platform) }
}

/// The display capture source, with the platform's display settings.
pub fn make_display_source(obs_id: &str, platform: Platform) -> (s: Source)
    ensures
        s matches Source::Display { header, settings } && capture_header_is(header, obs_id@) && display_settings_are(
            settings@,
            platform,
        ),
{
    Source::Display { header: source_header(obs_id, 0, None, None), settings: display_settings(platform) }
}

/// The window capture source, with the platform's window settings.
pub fn make_window_source(obs_id: &str, platform: Platform) -> (s: Source)
    ensures
        s matches Source::Window { header, settings } && capture_header_is(header, obs_id@) && window_settings_are(
            settings@,
            platform,
        ),
{
    Source::Window { header: source_header(obs_id, 0, None, None), settings: window_settings(platform) }
}

/// The text style OBS gets: 900 pixels wide, bold 40-point Helvetica Neue with a drop
/// shadow, no outline, no word wrap, text not read from a file.
pub open spec fn text_style_is(st: TextStyle) -> bool {
    &&& st.custom_width == 900
    &&& st.drop_shadow
    &&& st.font_face@ == "Helvetica Neue"@
    &&& st.font_flags == 1
    &&& st.font_size == 40
    &&& st.font_style@ == "Bold"@
    &&& !st.from_file
    &&& !st.outline
    &&& !st.word_wrap
}

/// A text source whose colour is given as `#RRGGBB`.
pub fn make_text_source(name: &str, text: &str, color_hex: &str) -> (s: Source)
    requires
        color_fields_splittable(color_hex.spec_bytes()),
    ensures
        s matches Source::Text { name: n, text: t, color: c, header, style } && n@ == name@ && t@
            == text@ && c == obs_color_of(color_hex.spec_bytes()) && header_is(
            header,
            "text_ft2_source_v2"@,
            0,
            Some(OBS_PREV_VER),
            Some(50),
        ) && text_style_is(style),
{
    let color = hex_to_obs_color(color_hex);
    let style = TextStyle {
        custom_width: 900,
        drop_shadow: true,
        font_face: "Helvetica Neue".to_string(),
        font_flags: 1,
        font_size: 40,
        font_style: "Bold".to_string(),
        from_file: false,
        outline: false,
        word_wrap: false,
    };
    Source::Text {
        name: name.to_string(),
        text: text.to_string(),
        color,
        header: source_header("text_ft2_source_v2", 0, Some(OBS_PREV_VER), Some(50)),
        style,
    }
}

/// The item's fields besides its source, id, position, scale and visibility hold OBS's
/// defaults: centred alignment (5), normal blending, no bounds, no crop, unlocked, no
/// rotation, default scale filter.
pub open spec fn item_defaults(item: SceneItem) -> bool {
    &&& item.align == 5
    &&& item.blend_method == 0
    &&& item.blend_type == 0
    &&& item.bounds_x == 0
    &&& item.bounds_y == 0
    &&& item.bounds_align == 0
    &&& item.bounds_type == 0
    &&& item.crop_bottom == 0
    &&& item.crop_left == 0
    &&& item.crop_right == 0
    &&& item.crop_top == 0
    &&& !item.locked
    &&& item.rot_deg == 0
    &&& item.scale_filter == 0
}

/// A scene item.
pub fn scene_item(
    source_name: &str,
    item_id: u32,
    pos_x: u32,
    pos_y: u32,
    scale_x_pct: u32,
    scale_y_pct: u32,
    visible: bool,
) -> (item: SceneItem)
    ensures
        item.source_name@ == source_name@,
        item.item_id == item_id,
        item.pos_x == pos_x,
        item.pos_y == pos_y,
        item.scale_x_pct == scale_x_pct,
        item.scale_y_pct == scale_y_pct,
        item.visible == visible,
        item_defaults(item),
{
    SceneItem {
        source_name: source_name.to_string(),
        item_id,
        pos_x,
        pos_y,
        scale_x_pct,
        scale_y_pct,
        visible,
        align: 5,
        blend_method: 0,
        blend_type: 0,
        bounds_x: 0,
        bounds_y: 0,
        bounds_align: 0,
        bounds_type: 0,
        crop_bottom: 0,
        crop_left: 0,
        crop_right: 0,
        crop_top: 0,
        locked: false,
        rot_deg: 0,
        scale_filter: 0,
    }
}

/// The header of a scene.
pub open spec fn scene_header_is(h: SourceHeader) -> bool {
    header_is(h, "scene"@, 0, Some(OBS_PREV_VER), Some(50))
}

/// A scene holding `items`; the next item id is one past their number.
pub fn make_scene(name: &str, items: Vec<SceneItem>) -> (s: Source)
    requires
        items@.len() < usize::MAX,
    ensures
        s matches Source::Scene { name: n, items: its, id_counter: c, header, custom_size } && n@
            == name@ && its@ == items@ && c == items@.len() + 1 && scene_header_is(header)
            && !custom_size,
{
    let c = items.len() + 1;
    Source::Scene {
        name: name.to_string(),
        items,
        id_counter: c,
        header: source_header("scene", 0, Some(OBS_PREV_VER), Some(50)),
        custom_size: false,
    }
}

/// `file` is a plain file name: not empty, not `.` or `..`, with no separator and no
/// drive colon.
pub open spec fn is_plain_file_name(file: Seq<char>) -> bool {
    &&& file.len() > 0
    &&& file != seq!['.']
    &&& file != seq!['.', '.']
    &&& forall|i: int| 0 <= i < file.len() ==> file[i] != '/' && file[i] != '\\' && file[i] != ':'
}

/// `dir` is a bare Windows drive such as `C:`.
pub open spec fn is_bare_drive(dir: Seq<char>) -> bool {
    &&& dir.len() == 2
    &&& dir[1] == ':'
    &&& (('a' <= dir[0] && dir[0] <= 'z') || ('A' <= dir[0] && dir[0] <= 'Z'))
}

/// `dir` may carry a Windows verbatim prefix (`\\?\`, with either slash), under which
/// Windows normalises the whole path when joining.
pub open spec fn may_be_verbatim(dir: Seq<char>) -> bool {
    &&& dir.len() >= 4
    &&& (dir[0] == '/' || dir[0] == '\\')
    &&& (dir[1] == '/' || dir[1] == '\\')
    &&& dir[2] == '?'
    &&& (dir[3] == '/' || dir[3] == '\\')
}

/// `dir` and a plain `file` joined the Unix way: `/` between them unless the directory is
/// empty or already ends in `/`.
pub open spec fn unix_join(dir: Seq<char>, file: Seq<char>) -> Seq<char> {
    if dir.len() == 0 || dir.last() == '/' {
        dir + file
    } else {
        dir + seq!['/'] + file
    }
}

/// `dir` and a plain `file` joined the Windows way: `\` between them unless the
/// directory is empty, already ends in `/` or `\`, or is a bare drive.
pub open spec fn windows_join(dir: Seq<char>, file: Seq<char>) -> Seq<char> {
    if dir.len() == 0 || dir.last() == '/' || dir.last() == '\\' || is_bare_drive(dir) {
        dir + file
    } else {
        dir + seq!['\\'] + file
    }
}

/// `p` ends with `file`.
pub open spec fn ends_with(p: Seq<char>, file: Seq<char>) -> bool {
    p.len() >= file.len() && p.subrange(p.len() - file.len(), p.len() as int) == file
}

/// `p` is what `Path::join` makes of `dir` and a plain `file` on a Unix-like platform or
/// on Windows; under a Windows verbatim prefix only the file name at the end is known.
pub open spec fn is_overlay_path(p: Seq<char>, dir: Seq<char>, file: Seq<char>) -> bool {
    ||| p == unix_join(dir, file)
    ||| (!may_be_verbatim(dir) && p == windows_join(dir, file))
    ||| (may_be_verbatim(dir) && ends_with(p, file))
}

/// `std::path::Path::join` of a plain file name onto `dir`, followed by a conversion back
/// to a string, which loses nothing for a path made from a string. `PathBuf::push`
/// adjoins a relative name after the directory with the platform's separator between
/// them, unless the directory is empty or already ends in a separator (on Windows `/`
/// and `\` both count, and a bare drive such as `C:` takes no separator). Which
/// platform's rule applies depends on the machine the code is built for, and is left
/// open. Under a Windows verbatim prefix (`\\?\`) the whole path is normalised, and the
/// contract then only says that the result ends with the file name.
#[verifier::external_body]
fn overlay_file_path(dir: &str, file: &str) -> (p: String)
    requires
        is_plain_file_name(file@),
    ensures
        is_overlay_path(p@, dir@, file@),
{
    std::path::Path::new(dir).join(file).to_string_lossy().into_owned()
}

/// Name of the installed scene collection.
pub const COLLECTION_NAME: &'static str = "AutoREC Turbo";

/// Scene shown before the stream starts.
pub const SCENE_STARTING: &'static str = "\u{1F3AC} Iniciando";

/// Camera scene.
pub const SCENE_CAMERA: &'static str = "\u{1F4F8} C\u{E2}mera";

/// Screen scene.
pub const SCENE_SCREEN: &'static str = "\u{1F5A5}\u{FE0F} Tela";

/// Screen with the camera in a corner.
pub const SCENE_CAMERA_SCREEN: &'static str = "\u{1F3A5} C\u{E2}mera + Tela";

/// Pause scene.
pub const SCENE_BRB: &'static str = "\u{2615} BRB";

/// Closing scene.
pub const SCENE_CLOSING: &'static str = "\u{1F44B} Encerramento";

/// Browser source of the starting overlay.
pub const OVERLAY_STARTING: &'static str = "Overlay: Iniciando";

/// Browser source of the pause overlay.
pub const OVERLAY_BRB: &'static str = "Overlay: BRB";

/// Browser source of the closing overlay.
pub const OVERLAY_CLOSING: &'static str = "Overlay: Encerramento";

/// Browser source of the name strip.
pub const LOWER_THIRD: &'static str = "Lower Third";

/// Name of the camera source.
pub const WEBCAM_NAME: &'static str = "Webcam";

/// Name of the display capture source.
pub const SCREEN_NAME: &'static str = "Captura de Tela";

/// Name of the window capture source.
pub const WINDOW_NAME: &'static str = "Captura de Janela";

/// Name of the microphone source.
pub const MIC_NAME: &'static str = "Microfone";

/// Name of the desktop audio source.
pub const DESKTOP_AUDIO_NAME: &'static str = "\u{C1}udio do Sistema";

/// The item shows the named source with the given id, position and scale, visible.
pub open spec fn item_is(
    item: SceneItem,
    name: Seq<char>,
    id: u32,
    x: u32,
    y: u32,
    sx: u32,
    sy: u32,
) -> bool {
    &&& item.source_name@ == name
    &&& item.item_id == id
    &&& item.pos_x == x
    &&& item.pos_y == y
    &&& item.scale_x_pct == sx
    &&& item.scale_y_pct == sy
    &&& item.visible
    &&& item_defaults(item)
}

/// The item shows the named source full-canvas at the origin, visible.
pub open spec fn full_item_is(item: SceneItem, name: Seq<char>, id: u32) -> bool {
    item_is(item, name, id, 0, 0, 100, 100)
}

/// The source is a scene of that name with `n` items.
pub open spec fn scene_named(s: Source, name: Seq<char>, n: nat) -> bool {
    s matches Source::Scene { name: sn, items, id_counter, header, custom_size } && sn@ == name
        && items@.len() == n && id_counter == n + 1 && scene_header_is(header) && !custom_size
}

/// The `i`-th item of a scene source.
pub open spec fn scene_item_at(s: Source, i: int) -> SceneItem
    recommends
        s is Scene,
{
    match s {
        Source::Scene { items, .. } => items@[i],
        _ => arbitrary(),
    }
}

/// Style sheet that makes an overlay page's background transparent.
pub const BROWSER_CSS: &'static str = "body{background-color:rgba(0,0,0,0);margin:0;overflow:hidden}";

/// The settings of an overlay page besides its file: a local file rendered at 1920x1080
/// and 30 fps with a transparent background, restarted when shown, kept running when
/// hidden, with audio not rerouted and the default page-control level.
pub open spec fn browser_settings_are(st: Seq<Setting>) -> bool {
    &&& st.len() == 11
    &&& text_is(st[0], "css"@, BROWSER_CSS@)
    &&& int_is(st[1], "fps"@, 30)
    &&& flag_is(st[2], "fps_custom"@, false)
    &&& int_is(st[3], "height"@, 1080)
    &&& flag_is(st[4], "is_local_file"@, true)
    &&& flag_is(st[5], "reroute_audio"@, false)
    &&& flag_is(st[6], "restart_when_active"@, true)
    &&& flag_is(st[7], "shutdown"@, false)
    &&& text_is(st[8], "url"@, ""@)
    &&& int_is(st[9], "webpage_control_level"@, 1)
    &&& int_is(st[10], "width"@, 1920)
}

/// The settings of an overlay page besides its file.
pub fn browser_settings() -> (st: Vec<Setting>)
    ensures
        browser_settings_are(st@),
{
    let mut st: Vec<Setting> = Vec::new();
    st.push(text_setting("css", BROWSER_CSS));
    st.push(int_setting("fps", 30));
    st.push(flag_setting("fps_custom", false));
    st.push(int_setting("height", 1080));
    st.push(flag_setting("is_local_file", true));
    st.push(flag_setting("reroute_audio", false));
    st.push(flag_setting("restart_when_active", true));
    st.push(flag_setting("shutdown", false));
    st.push(text_setting("url", ""));
    st.push(int_setting("webpage_control_level", 1));
    st.push(int_setting("width", 1920));
    st
}

/// The source is a browser source of that name showing `file` from `dir`.
pub open spec fn browser_is(s: Source, name: Seq<char>, dir: Seq<char>, file: Seq<char>) -> bool {
    s matches Source::Browser { name: n, local_file: f, header, settings } && n@ == name
        && is_overlay_path(f@, dir, file) && header_is(header, "browser_source"@, 0, None, None)
        && browser_settings_are(settings@)
}

/// A browser source showing an overlay page.
fn browser_source(name: &str, overlay_dir: &str, file: &str) -> (s: Source)
    requires
        is_plain_file_name(file@),
    ensures
        browser_is(s, name@, overlay_dir@, file@),
{
    Source::Browser {
        name: name.to_string(),
        local_file: overlay_file_path(overlay_dir, file),
        header: source_header("browser_source", 0, None, None),
        settings: browser_settings(),
    }
}

/// The collection is the one the configurator installs: see `build_scene_collection`.
pub open spec fn is_standard_collection(c: SceneCollection, dir: Seq<char>, platform: Platform) -> bool {
    &&& c.name@ == COLLECTION_NAME@
    &&& c.current_scene@ == SCENE_STARTING@
    &&& c.current_program_scene@ == SCENE_STARTING@
    &&& audio_is(c.aux_audio, 0, MIC_NAME@, audio_input_kind(platform))
    &&& audio_is(c.desktop_audio, 1, DESKTOP_AUDIO_NAME@, audio_output_kind(platform))
    &&& c.scene_order@.len() == 6
    &&& c.scene_order@[0]@ == SCENE_STARTING@
    &&& c.scene_order@[1]@ == SCENE_CAMERA@
    &&& c.scene_order@[2]@ == SCENE_SCREEN@
    &&& c.scene_order@[3]@ == SCENE_CAMERA_SCREEN@
    &&& c.scene_order@[4]@ == SCENE_BRB@
    &&& c.scene_order@[5]@ == SCENE_CLOSING@
    &&& c.sources@.len() == 12
    &&& browser_is(c.sources@[0], OVERLAY_STARTING@, dir, "iniciando.html"@)
    &&& browser_is(c.sources@[1], OVERLAY_BRB@, dir, "brb.html"@)
    &&& browser_is(c.sources@[2], OVERLAY_CLOSING@, dir, "encerramento.html"@)
    &&& browser_is(c.sources@[3], LOWER_THIRD@, dir, "lower-third.html"@)
    &&& (c.sources@[4] matches Source::Webcam { header, settings } && capture_header_is(header, webcam_kind(platform))
        && webcam_settings_are(settings@, platform))
    &&& (c.sources@[5] matches Source::Display { header, settings } && capture_header_is(header, screen_kind(platform))
        && display_settings_are(settings@, platform))
    &&& scene_named(c.sources@[6], SCENE_STARTING@, 1)
    &&& full_item_is(scene_item_at(c.sources@[6], 0), OVERLAY_STARTING@, 1)
    &&& scene_named(c.sources@[7], SCENE_CAMERA@, 2)
    &&& full_item_is(scene_item_at(c.sources@[7], 0), WEBCAM_NAME@, 1)
    &&& full_item_is(scene_item_at(c.sources@[7], 1), LOWER_THIRD@, 2)
    &&& scene_named(c.sources@[8], SCENE_SCREEN@, 2)
    &&& full_item_is(scene_item_at(c.sources@[8], 0), SCREEN_NAME@, 1)
    &&& full_item_is(scene_item_at(c.sources@[8], 1), LOWER_THIRD@, 2)
    &&& scene_named(c.sources@[9], SCENE_CAMERA_SCREEN@, 3)
    &&& full_item_is(scene_item_at(c.sources@[9], 0), SCREEN_NAME@, 1)
    &&& item_is(scene_item_at(c.sources@[9], 1), WEBCAM_NAME@, 2, 1556, 862, 25, 25)
    &&& full_item_is(scene_item_at(c.sources@[9], 2), LOWER_THIRD@, 3)
    &&& scene_named(c.sources@[10], SCENE_BRB@, 1)
    &&& full_item_is(scene_item_at(c.sources@[10], 0), OVERLAY_BRB@, 1)
    &&& scene_named(c.sources@[11], SCENE_CLOSING@, 1)
    &&& full_item_is(scene_item_at(c.sources@[11], 0), OVERLAY_CLOSING@, 1)
    &&& c.transition.id@ == "fade_transition"@
    &&& c.transition.name@ == "Fade"@
    &&& c.transition.duration_ms == 300
}

/// Builds the scene collection: four overlay browser sources (`iniciando.html`,
/// `brb.html`, `encerramento.html`, `lower-third.html` in `overlay_dir`), the camera and
/// the display capture with the platform's input kinds, and six scenes (starting,
/// camera, screen, camera over screen, pause, closing) in that order, with the starting
/// scene current, microphone and desktop audio, and a 300 ms fade between scenes.
pub fn build_scene_collection(overlay_dir: &str, platform: Platform) -> (c: SceneCollection)
    ensures
        is_standard_collection(c, overlay_dir@, platform),
{
    proof {
        reveal_strlit("iniciando.html");
        reveal_strlit("brb.html");
        reveal_strlit("encerramento.html");
        reveal_strlit("lower-third.html");
        assert(is_plain_file_name("iniciando.html"@));
        assert("brb.html"@.len() == 8 && seq!['.'].len() == 1 && seq!['.', '.'].len() == 2);
        assert(is_plain_file_name("brb.html"@));
        assert(is_plain_file_name("encerramento.html"@));
        assert(is_plain_file_name("lower-third.html"@));
    }
    let kinds = capture_kinds(platform);
    let mut sources: Vec<Source> = Vec::new();
    sources.push(browser_source(OVERLAY_STARTING, overlay_dir, "iniciando.html"));
    sources.push(browser_source(OVERLAY_BRB, overlay_dir, "brb.html"));
    sources.push(browser_source(OVERLAY_CLOSING, overlay_dir, "encerramento.html"));
    sources.push(browser_source(LOWER_THIRD, overlay_dir, "lower-third.html"));
    sources.push(make_webcam_source(kinds.webcam, platform));
    sources.push(make_display_source(kinds.screen, platform));

    let mut start_items: Vec<SceneItem> = Vec::new();
    start_items.push(scene_item(OVERLAY_STARTING, 1, 0, 0, 100, 100, true));
    sources.push(make_scene(SCENE_STARTING, start_items));

    let mut cam_items: Vec<SceneItem> = Vec::new();
    cam_items.push(scene_item(WEBCAM_NAME, 1, 0, 0, 100, 100, true));
    cam_items.push(scene_item(LOWER_THIRD, 2, 0, 0, 100, 100, true));
    sources.push(make_scene(SCENE_CAMERA, cam_items));

    let mut screen_items: Vec<SceneItem> = Vec::new();
    screen_items.push(scene_item(SCREEN_NAME, 1, 0, 0, 100, 100, true));
    screen_items.push(scene_item(LOWER_THIRD, 2, 0, 0, 100, 100, true));
    sources.push(make_scene(SCENE_SCREEN, screen_items));

    let mut pip_items: Vec<SceneItem> = Vec::new();
    pip_items.push(scene_item(SCREEN_NAME, 1, 0, 0, 100, 100, true));
    pip_items.push(scene_item(WEBCAM_NAME, 2, 1556, 862, 25, 25, true));
    pip_items.push(scene_item(LOWER_THIRD, 3, 0, 0, 100, 100, true));
    sources.push(make_scene(SCENE_CAMERA_SCREEN, pip_items));

    let mut brb_items: Vec<SceneItem> = Vec::new();
    brb_items.push(scene_item(OVERLAY_BRB, 1, 0, 0, 100, 100, true));
    sources.push(make_scene(SCENE_BRB, brb_items));

    let mut end_items: Vec<SceneItem> = Vec::new();
    end_items.push(scene_item(OVERLAY_CLOSING, 1, 0, 0, 100, 100, true));
    sources.push(make_scene(SCENE_CLOSING, end_items));

    let mut order: Vec<String> = Vec::new();
    order.push(SCENE_STARTING.to_string());
    order.push(SCENE_CAMERA.to_string());
    order.push(SCENE_SCREEN.to_string());
    order.push(SCENE_CAMERA_SCREEN.to_string());
    order.push(SCENE_BRB.to_string());
    order.push(SCENE_CLOSING.to_string());

    SceneCollection {
        name: COLLECTION_NAME.to_string(),
        current_scene: SCENE_STARTING.to_string(),
        current_program_scene: SCENE_STARTING.to_string(),
        aux_audio: make_audio_source(0, MIC_NAME, kinds.audio_input),
        desktop_audio: make_audio_source(1, DESKTOP_AUDIO_NAME, kinds.audio_output),
        scene_order: order,
        sources,
        transition: Transition {
            id: "fade_transition".to_string(),
            name: "Fade".to_string(),
            duration_ms: 300,
        },
    }
}

/// The name OBS knows a source by.
pub open spec fn source_name(s: Source) -> Seq<char> {
    match s {
        Source::Browser { name, .. } => name@,
        Source::Webcam { .. } => WEBCAM_NAME@,
        Source::Display { .. } => SCREEN_NAME@,
        Source::Window { .. } => WINDOW_NAME@,
        Source::Text { name, .. } => name@,
        Source::Scene { name, .. } => name@,
    }
}

/// The items of a scene; none for any other source.
pub open spec fn items_of(s: Source) -> Seq<SceneItem> {
    match s {
        Source::Scene { items, .. } => items@,
        _ => Seq::empty(),
    }
}

impl Source {
    /// The name OBS knows the source by.
    pub fn name(&self) -> (n: String)
        ensures
            n@ == source_name(*self),
    {
        match self {
            Source::Browser { name, .. } => name.clone(),
            Source::Webcam { .. } => WEBCAM_NAME.to_string(),
            Source::Display { .. } => SCREEN_NAME.to_string(),
            Source::Window { .. } => WINDOW_NAME.to_string(),
            Source::Text { name, .. } => name.clone(),
            Source::Scene { name, .. } => name.clone(),
        }
    }
}

/// The installed collection hangs together: every item of every scene shows a source of
/// the collection that is not itself a scene, the scene order lists exactly the scene
/// sources in their order, and the current scene is the first of them.
pub proof fn law_standard_collection_is_consistent(c: SceneCollection, dir: Seq<char>, platform: Platform)
    requires
        is_standard_collection(c, dir, platform),
    ensures
        forall|s: int, i: int|
            0 <= s < c.sources@.len() && 0 <= i < items_of(c.sources@[s]).len() ==> exists|t: int|
                0 <= t < c.sources@.len() && !(c.sources@[t] is Scene) && source_name(c.sources@[t])
                    == #[trigger] items_of(c.sources@[s])[i].source_name@,
        forall|k: int|
            0 <= k < c.scene_order@.len() ==> c.sources@[c.sources@.len() - c.scene_order@.len() + k] is Scene
                && source_name(c.sources@[c.sources@.len() - c.scene_order@.len() + k])
                == #[trigger] c.scene_order@[k]@,
        forall|t: int| 0 <= t < c.sources@.len() - c.scene_order@.len() ==> !(c.sources@[t] is Scene),
        c.current_scene@ == c.scene_order@[0]@,
{
    let src = c.sources@;
    assert(source_name(src[0]) == OVERLAY_STARTING@);
    assert(source_name(src[1]) == OVERLAY_BRB@);
    assert(source_name(src[2]) == OVERLAY_CLOSING@);
    assert(source_name(src[3]) == LOWER_THIRD@);
    assert(source_name(src[4]) == WEBCAM_NAME@);
    assert(source_name(src[5]) == SCREEN_NAME@);
    assert forall|s: int, i: int|
        0 <= s < src.len() && 0 <= i < items_of(src[s]).len() implies exists|t: int|
            0 <= t < src.len() && !(src[t] is Scene) && source_name(src[t])
                == #[trigger] items_of(src[s])[i].source_name@ by {
        assert(s >= 6);
        assert(items_of(src[s])[i] == scene_item_at(src[s], i));
        let nm = items_of(src[s])[i].source_name@;
        if nm == OVERLAY_STARTING@ {
            assert(source_name(src[0]) == nm);
        } else if nm == OVERLAY_BRB@ {
            assert(source_name(src[1]) == nm);
        } else if nm == OVERLAY_CLOSING@ {
            assert(source_name(src[2]) == nm);
        } else if nm == LOWER_THIRD@ {
            assert(source_name(src[3]) == nm);
        } else if nm == WEBCAM_NAME@ {
            assert(source_name(src[4]) == nm);
        } else {
            assert(source_name(src[5]) == nm);
        }
    }
}


/// Whatever platform's rule joined it, an overlay path ends with its page's file name.
proof fn lemma_overlay_path_ends_with_file(p: Seq<char>, dir: Seq<char>, file: Seq<char>)
    requires
        is_overlay_path(p, dir, file),
    ensures
        ends_with(p, file),
{
    if p == unix_join(dir, file) || (!may_be_verbatim(dir) && p == windows_join(dir, file)) {
        assert(p.subrange(p.len() - file.len(), p.len() as int) =~= file);
    }
}

proof fn lemma_browser_page(s: Source, dir: Seq<char>, file: Seq<char>)
    requires
        s matches Source::Browser { local_file, .. } && is_overlay_path(local_file@, dir, file),
    ensures
        s matches Source::Browser { local_file, .. } && ends_with(local_file@, file),
{
    match s {
        Source::Browser { local_file, .. } => {
            lemma_overlay_path_ends_with_file(local_file@, dir, file);
        },
        _ => {},
    }
}

/// Some scene named `scene` holds an item that shows a browser source whose page file
/// is `file`.
pub open spec fn scene_shows_page(src: Seq<Source>, scene: Seq<char>, file: Seq<char>) -> bool {
    exists|s: int, i: int, t: int|
        #![trigger src[s], items_of(src[s])[i], src[t]]
        0 <= s < src.len() && 0 <= t < src.len() && src[s] is Scene && source_name(src[s]) == scene
            && 0 <= i < items_of(src[s]).len() && items_of(src[s])[i].source_name@ == source_name(
            src[t],
        ) && (src[t] matches Source::Browser { local_file, .. } && ends_with(local_file@, file))
}

proof fn lemma_scene_shows(c: SceneCollection, s: int, i: int, t: int, scene: Seq<char>, file: Seq<char>)
    requires
        0 <= s < c.sources@.len(),
        0 <= t < c.sources@.len(),
        c.sources@[s] is Scene,
        source_name(c.sources@[s]) == scene,
        0 <= i < items_of(c.sources@[s]).len(),
        items_of(c.sources@[s])[i].source_name@ == source_name(c.sources@[t]),
        c.sources@[t] matches Source::Browser { local_file, .. } && ends_with(local_file@, file),
    ensures
        scene_shows_page(c.sources@, scene, file),
{
    let src = c.sources@;
    assert(src[s] == src[s] && items_of(src[s])[i] == items_of(src[s])[i] && src[t] == src[t]);
}

/// Each scene shows the overlay page that belongs to it: the starting, pause and closing
/// scenes show the pages `iniciando.html`, `brb.html` and `encerramento.html`, the three
/// camera and screen scenes show the name strip `lower-third.html`; and every overlay
/// page of the collection is shown by some scene.
pub proof fn law_scenes_show_their_pages(c: SceneCollection, dir: Seq<char>, platform: Platform)
    requires
        is_standard_collection(c, dir, platform),
    ensures
        scene_shows_page(c.sources@, SCENE_STARTING@, "iniciando.html"@),
        scene_shows_page(c.sources@, SCENE_BRB@, "brb.html"@),
        scene_shows_page(c.sources@, SCENE_CLOSING@, "encerramento.html"@),
        scene_shows_page(c.sources@, SCENE_CAMERA@, "lower-third.html"@),
        scene_shows_page(c.sources@, SCENE_SCREEN@, "lower-third.html"@),
        scene_shows_page(c.sources@, SCENE_CAMERA_SCREEN@, "lower-third.html"@),
        forall|t: int|
            0 <= t < c.sources@.len() && #[trigger] c.sources@[t] is Browser ==> exists|s: int, i: int|
                0 <= s < c.sources@.len() && c.sources@[s] is Scene && 0 <= i < items_of(
                    c.sources@[s],
                ).len() && #[trigger] items_of(c.sources@[s])[i].source_name@ == source_name(
                    c.sources@[t],
                ),
{
    let src = c.sources@;
    let pages = seq!["iniciando.html"@, "brb.html"@, "encerramento.html"@, "lower-third.html"@];
    lemma_browser_page(src[0], dir, pages[0]);
    lemma_browser_page(src[1], dir, pages[1]);
    lemma_browser_page(src[2], dir, pages[2]);
    lemma_browser_page(src[3], dir, pages[3]);
    assert(items_of(src[6])[0] == scene_item_at(src[6], 0));
    assert(items_of(src[7])[1] == scene_item_at(src[7], 1));
    assert(items_of(src[8])[1] == scene_item_at(src[8], 1));
    assert(items_of(src[9])[2] == scene_item_at(src[9], 2));
    assert(items_of(src[10])[0] == scene_item_at(src[10], 0));
    assert(items_of(src[11])[0] == scene_item_at(src[11], 0));
    lemma_scene_shows(c, 6, 0, 0, SCENE_STARTING@, pages[0]);
    lemma_scene_shows(c, 10, 0, 1, SCENE_BRB@, pages[1]);
    lemma_scene_shows(c, 11, 0, 2, SCENE_CLOSING@, pages[2]);
    lemma_scene_shows(c, 7, 1, 3, SCENE_CAMERA@, pages[3]);
    lemma_scene_shows(c, 8, 1, 3, SCENE_SCREEN@, pages[3]);
    lemma_scene_shows(c, 9, 2, 3, SCENE_CAMERA_SCREEN@, pages[3]);
    assert forall|t: int| 0 <= t < src.len() && #[trigger] src[t] is Browser implies exists|s: int, i: int|
        0 <= s < src.len() && src[s] is Scene && 0 <= i < items_of(src[s]).len()
            && #[trigger] items_of(src[s])[i].source_name@ == source_name(src[t]) by {
        assert(t < 4);
        if t == 0 {
            assert(items_of(src[6])[0].source_name@ == source_name(src[0]));
        } else if t == 1 {
            assert(items_of(src[10])[0].source_name@ == source_name(src[1]));
        } else if t == 2 {
            assert(items_of(src[11])[0].source_name@ == source_name(src[2]));
        } else {
            assert(items_of(src[7])[1].source_name@ == source_name(src[3]));
        }
    }
}

} // verus!
