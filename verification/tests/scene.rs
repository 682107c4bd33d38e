use autorec_turbo::scene::{
    build_scene_collection, capture_kinds, make_audio_source, make_display_source, make_scene,
    make_text_source, make_webcam_source, make_window_source, scene_item, webcam_settings,
    display_settings, window_settings, SceneItem, Setting, SettingValue, Source,
};
use autorec_turbo::system::Platform;

fn item(s: &Source, i: usize) -> &SceneItem {
    match s {
        Source::Scene { items, .. } => &items[i],
        _ => panic!("not a scene"),
    }
}

fn scene_name(s: &Source) -> &str {
    match s {
        Source::Scene { name, .. } => name,
        _ => panic!("not a scene"),
    }
}

#[test]
fn collection_on_macos() {
    let c = build_scene_collection("/tmp/ov", Platform::MacOs);
    assert_eq!(c.name, "AutoREC Turbo");
    assert_eq!(c.current_scene, "\u{1F3AC} Iniciando");
    assert_eq!(c.current_program_scene, "\u{1F3AC} Iniciando");
    assert_eq!(c.aux_audio.index, 0);
    assert_eq!(c.aux_audio.name, "Microfone");
    assert_eq!(c.aux_audio.header.kind, "coreaudio_input_capture");
    assert_eq!(c.desktop_audio.index, 1);
    assert_eq!(c.desktop_audio.name, "\u{C1}udio do Sistema");
    assert_eq!(c.desktop_audio.header.kind, "coreaudio_output_capture");
    assert_eq!(c.sources.len(), 12);
    match &c.sources[0] {
        Source::Browser { name, local_file, .. } => {
            assert_eq!(name, "Overlay: Iniciando");
            assert_eq!(local_file, "/tmp/ov/iniciando.html");
        }
        _ => panic!("expected a browser source"),
    }
    match &c.sources[3] {
        Source::Browser { name, local_file, .. } => {
            assert_eq!(name, "Lower Third");
            assert_eq!(local_file, "/tmp/ov/lower-third.html");
        }
        _ => panic!("expected a browser source"),
    }
    match &c.sources[4] {
        Source::Webcam { header, settings } => {
            assert_eq!(header.kind, "av_capture_input_v2");
            assert_eq!(settings.len(), 6);
        }
        _ => panic!("expected the camera"),
    }
    match &c.sources[5] {
        Source::Display { header, .. } => assert_eq!(header.kind, "display_capture"),
        _ => panic!("expected the display"),
    }
    let order: Vec<&str> = c.scene_order.iter().map(|s| s.as_str()).collect();
    assert_eq!(
        order,
        vec![
            "\u{1F3AC} Iniciando",
            "\u{1F4F8} C\u{E2}mera",
            "\u{1F5A5}\u{FE0F} Tela",
            "\u{1F3A5} C\u{E2}mera + Tela",
            "\u{2615} BRB",
            "\u{1F44B} Encerramento"
        ]
    );
    for (k, name) in order.iter().enumerate() {
        assert_eq!(scene_name(&c.sources[6 + k]), *name);
    }
    let pip = item(&c.sources[9], 1);
    assert_eq!(pip.source_name, "Webcam");
    assert_eq!((pip.item_id, pip.pos_x, pip.pos_y), (2, 1556, 862));
    assert_eq!((pip.scale_x_pct, pip.scale_y_pct), (25, 25));
    assert!(pip.visible);
    assert_eq!(item(&c.sources[9], 2).source_name, "Lower Third");
    match &c.sources[9] {
        Source::Scene { id_counter, .. } => assert_eq!(*id_counter, 4),
        _ => panic!("not a scene"),
    }
    assert_eq!(c.transition.id, "fade_transition");
    assert_eq!(c.transition.name, "Fade");
    assert_eq!(c.transition.duration_ms, 300);
}

#[test]
fn capture_kinds_per_platform() {
    let w = capture_kinds(Platform::Windows);
    assert_eq!((w.audio_input, w.audio_output, w.webcam, w.screen),
        ("wasapi_input_capture", "wasapi_output_capture", "dshow_input", "monitor_capture"));
    let l = capture_kinds(Platform::Linux);
    assert_eq!((l.audio_input, l.audio_output, l.webcam, l.screen),
        ("pulse_input_capture", "pulse_output_capture", "v4l2_input", "xshm_input"));
}

#[test]
fn sources_are_built_from_their_arguments() {
    let a = make_audio_source(3, "Mic", "kind");
    assert_eq!((a.index, a.name.as_str(), a.header.kind.as_str()), (3, "Mic", "kind"));
    assert_eq!(a.device_id, "default");
    assert_eq!((a.header.mixers, a.header.muted, a.header.volume_pct), (255, false, 100));
    assert_eq!((a.header.prev_ver, a.header.balance_pct), (Some(503316481), Some(50)));
    assert!(a.header.enabled);
    assert!(matches!(make_webcam_source("w", Platform::Linux), Source::Webcam { .. }));
    assert!(matches!(make_display_source("d", Platform::Linux), Source::Display { .. }));
    match make_window_source("win", Platform::Windows) {
        Source::Window { header, settings } => {
            assert_eq!(header.kind, "win");
            assert_eq!((header.mixers, header.prev_ver, header.balance_pct), (0, None, None));
            assert_eq!(settings[0].key, "window");
            assert!(matches!(&settings[0].value, SettingValue::Text(t) if t.is_empty()));
            assert_eq!(settings[1].key, "show_cursor");
            assert!(matches!(settings[1].value, SettingValue::Flag(true)));
        }
        _ => panic!("expected a window source"),
    }
    match make_text_source("Title", "Hello", "#FF8800") {
        Source::Text { name, text, color, header, style } => {
            assert_eq!(header.kind, "text_ft2_source_v2");
            assert_eq!((style.custom_width, style.font_size, style.font_flags), (900, 40, 1));
            assert_eq!((style.font_face.as_str(), style.font_style.as_str()), ("Helvetica Neue", "Bold"));
            assert!(style.drop_shadow && !style.outline && !style.word_wrap && !style.from_file);
            assert_eq!(name, "Title");
            assert_eq!(text, "Hello");
            assert_eq!(color, 0xFF0088FF);
        }
        _ => panic!("expected a text source"),
    }
    let it = scene_item("S", 7, 1, 2, 50, 75, false);
    assert_eq!((it.item_id, it.pos_x, it.pos_y, it.scale_x_pct, it.scale_y_pct, it.visible), (7, 1, 2, 50, 75, false));
    match make_scene("Sc", vec![it]) {
        Source::Scene { name, items, id_counter, header, custom_size } => {
            assert_eq!(header.kind, "scene");
            assert!(!custom_size);
            assert_eq!(name, "Sc");
            assert_eq!(items.len(), 1);
            assert_eq!(id_counter, 2);
        }
        _ => panic!("expected a scene"),
    }
}

#[test]
fn scene_items_name_existing_sources() {
    for platform in [Platform::MacOs, Platform::Windows, Platform::Linux] {
        let c = build_scene_collection("C:\\ov", platform);
        let plain: Vec<String> = c
            .sources
            .iter()
            .filter(|s| !matches!(s, Source::Scene { .. }))
            .map(|s| s.name())
            .collect();
        for s in &c.sources {
            if let Source::Scene { items, .. } = s {
                for it in items {
                    assert!(plain.contains(&it.source_name));
                }
            }
        }
        let scenes: Vec<String> = c
            .sources
            .iter()
            .filter(|s| matches!(s, Source::Scene { .. }))
            .map(|s| s.name())
            .collect();
        assert_eq!(scenes, c.scene_order);
        assert_eq!(c.current_scene, c.scene_order[0]);
    }
}

fn keys(st: &[Setting]) -> Vec<&str> {
    st.iter().map(|s| s.key.as_str()).collect()
}

#[test]
fn camera_settings_per_platform() {
    let mac = webcam_settings(Platform::MacOs);
    assert_eq!(keys(&mac), vec!["device", "device_name", "frame_rate", "input_format", "preset", "resolution"]);
    assert!(matches!(mac[2].value, SettingValue::Fraction { numerator: 30, denominator: 1 }));
    assert!(matches!(mac[3].value, SettingValue::Int(-1)));
    assert!(matches!(mac[4].value, SettingValue::Int(-1)));
    let win = webcam_settings(Platform::Windows);
    assert_eq!(keys(&win), vec!["video_device_id", "last_resolution", "fps"]);
    assert!(matches!(win[2].value, SettingValue::Int(0)));
    let lin = webcam_settings(Platform::Linux);
    assert_eq!(keys(&lin), vec!["device_id", "pixelformat", "resolution"]);
    assert!(matches!(lin[1].value, SettingValue::Int(0)));
}

#[test]
fn display_and_window_settings_per_platform() {
    assert_eq!(keys(&display_settings(Platform::MacOs)), vec!["display", "show_cursor"]);
    assert_eq!(keys(&display_settings(Platform::Windows)), vec!["monitor", "show_cursor"]);
    assert_eq!(keys(&display_settings(Platform::Linux)), vec!["show_cursor"]);
    assert!(matches!(display_settings(Platform::Linux)[0].value, SettingValue::Flag(true)));
    assert_eq!(keys(&window_settings(Platform::MacOs)), vec!["owner_name", "show_cursor"]);
    assert_eq!(keys(&window_settings(Platform::Linux)), vec!["owner_name", "show_cursor"]);
    assert_eq!(keys(&window_settings(Platform::Windows)), vec!["window", "show_cursor"]);
}

#[test]
fn overlay_paths_follow_the_directory() {
    let c = build_scene_collection("/tmp/ov/", Platform::Linux);
    match &c.sources[1] {
        Source::Browser { local_file, .. } => assert_eq!(local_file, "/tmp/ov/brb.html"),
        _ => panic!("expected a browser source"),
    }
    let c = build_scene_collection("", Platform::Linux);
    match &c.sources[2] {
        Source::Browser { local_file, .. } => assert_eq!(local_file, "encerramento.html"),
        _ => panic!("expected a browser source"),
    }
}

#[test]
fn scene_items_carry_obs_defaults() {
    let it = scene_item("S", 7, 1, 2, 50, 75, true);
    assert_eq!((it.align, it.blend_method, it.blend_type, it.bounds_align, it.bounds_type), (5, 0, 0, 0, 0));
    assert_eq!((it.bounds_x, it.bounds_y, it.rot_deg, it.scale_filter), (0, 0, 0, 0));
    assert_eq!((it.crop_bottom, it.crop_left, it.crop_right, it.crop_top), (0, 0, 0, 0));
    assert!(!it.locked);
}

#[test]
fn overlay_pages_carry_browser_settings() {
    let c = build_scene_collection("/tmp/ov", Platform::Linux);
    match &c.sources[0] {
        Source::Browser { header, settings, .. } => {
            assert_eq!(header.kind, "browser_source");
            assert_eq!((header.mixers, header.prev_ver, header.volume_pct), (0, None, 100));
            assert_eq!(
                keys(settings),
                vec!["css", "fps", "fps_custom", "height", "is_local_file", "reroute_audio",
                    "restart_when_active", "shutdown", "url", "webpage_control_level", "width"]
            );
            assert!(matches!(&settings[0].value,
                SettingValue::Text(t) if t == "body{background-color:rgba(0,0,0,0);margin:0;overflow:hidden}"));
            assert!(matches!(settings[3].value, SettingValue::Int(1080)));
            assert!(matches!(settings[10].value, SettingValue::Int(1920)));
        }
        _ => panic!("expected a browser source"),
    }
}
