use autorec_turbo::ini::set_ini_value;

#[test]
fn empty_text_gets_new_section() {
    let r = set_ini_value(String::new(), "Basic", "Profile", "AutoREC Turbo");
    assert_eq!(r, "\n[Basic]\nProfile=AutoREC Turbo");
}

#[test]
fn existing_key_is_replaced() {
    let r = set_ini_value("[Basic]\nProfile=Old\nOther=1".to_string(), "Basic", "Profile", "New");
    assert_eq!(r, "[Basic]\nProfile=New\nOther=1");
}

#[test]
fn missing_key_goes_after_header() {
    let r = set_ini_value("[Basic]\nA=1\n[Other]\nB=2".to_string(), "Basic", "Profile", "X");
    assert_eq!(r, "[Basic]\nProfile=X\nA=1\n[Other]\nB=2");
}

#[test]
fn key_of_another_section_is_left_alone() {
    let r = set_ini_value("[Other]\nProfile=1".to_string(), "Basic", "Profile", "X");
    assert_eq!(r, "[Other]\nProfile=1\n\n[Basic]\nProfile=X");
}

#[test]
fn longer_key_with_same_start_does_not_match() {
    let r = set_ini_value("[Basic]\nProfileDir=D".to_string(), "Basic", "Profile", "X");
    assert_eq!(r, "[Basic]\nProfile=X\nProfileDir=D");
}

#[test]
fn crlf_lines_are_rejoined_with_lf() {
    let r = set_ini_value("[Basic]\r\nProfile=Old\r\n".to_string(), "Basic", "Profile", "New");
    assert_eq!(r, "[Basic]\nProfile=New");
}

#[test]
fn padded_header_still_counts() {
    let r = set_ini_value("  [Basic]  \nK=1".to_string(), "Basic", "K", "2");
    assert_eq!(r, "  [Basic]  \nK=2");
}

#[test]
fn key_after_later_bracket_line_is_outside() {
    let r = set_ini_value("[Basic]\n[Video]\nK=1".to_string(), "Basic", "K", "2");
    assert_eq!(r, "[Basic]\nK=2\n[Video]\nK=1");
}

#[test]
fn last_header_receives_inserted_key() {
    let r = set_ini_value("[Basic]\nA=1\n[Basic]\nB=2".to_string(), "Basic", "K", "v");
    assert_eq!(r, "[Basic]\nA=1\n[Basic]\nK=v\nB=2");
}

#[test]
fn first_matching_line_only_is_replaced() {
    let r = set_ini_value("[Basic]\nK=1\nK=2".to_string(), "Basic", "K", "3");
    assert_eq!(r, "[Basic]\nK=3\nK=2");
}

#[test]
fn value_set_is_read_back_in_its_section() {
    let r = set_ini_value("[Other]\nK=0\n[Basic]\nX=1\n".to_string(), "Basic", "K", "42");
    let mut in_basic = false;
    let mut found = None;
    for line in r.lines() {
        if line.trim() == "[Basic]" {
            in_basic = true;
            continue;
        }
        if line.starts_with('[') {
            in_basic = false;
            continue;
        }
        if in_basic && line.starts_with("K=") {
            found = Some(line["K=".len()..].to_string());
            break;
        }
    }
    assert_eq!(found.as_deref(), Some("42"));
}

/// The same edit written with the standard library's string methods.
fn std_model_set(content: &str, section: &str, key: &str, value: &str) -> String {
    let header = format!("[{}]", section);
    let key_line = format!("{}={}", key, value);
    let prefix = format!("{}=", key);
    let mut lines: Vec<String> = content.lines().map(|l| l.to_string()).collect();
    let mut in_section = false;
    let mut updated = false;
    let mut section_idx = None;
    for (i, line) in lines.iter_mut().enumerate() {
        if line.trim() == header {
            in_section = true;
            section_idx = Some(i);
            continue;
        }
        if in_section {
            if line.starts_with('[') {
                in_section = false;
                continue;
            }
            if line.starts_with(&prefix) {
                *line = key_line.clone();
                updated = true;
                break;
            }
        }
    }
    if !updated {
        match section_idx {
            Some(idx) => lines.insert(idx + 1, key_line),
            None => {
                lines.push(String::new());
                lines.push(header);
                lines.push(key_line);
            }
        }
    }
    lines.join("\n")
}

#[test]
fn agrees_with_std_string_methods() {
    let contents = [
        "",
        "\n",
        "\n\n",
        "x\r",
        "[Basic]\r",
        "[Basic]\r\r\nK=1\r\n",
        "\u{a0}[Basic]\u{3000}\nK=1",
        "[Basic]\n K=1\nK=2\n",
        "[Basic]\n[Basic ]\nK=1",
        "[Other]\n[Basic]\n\n[Basic]\nZ=9\n\n",
        "K=0\n[Basic]\nJ=1\n[x\nK=1",
        "[Basic]\nK=\u{e9}\u{e9}\n",
    ];
    for c in contents {
        for (k, v) in [("K", "v"), ("J", ""), ("", "empty key"), ("K", "a\u{2028}b")] {
            assert_eq!(set_ini_value(c.to_string(), "Basic", k, v), std_model_set(c, "Basic", k, v), "content {:?}", c);
        }
    }
}

#[test]
fn keys_of_other_sections_keep_their_values() {
    let before = "[Other]\nK=0\nProfile=7\n[Basic]\nX=1";
    let r = set_ini_value(before.to_string(), "Basic", "Profile", "New");
    assert_eq!(r, "[Other]\nK=0\nProfile=7\n[Basic]\nProfile=New\nX=1");
}

#[test]
fn setting_the_same_value_twice_changes_nothing() {
    for before in ["", "[Basic]\nA=1", "[Other]\nB=2\n", "[Basic]\nProfile=Old\nA=1\n"] {
        let once = set_ini_value(before.to_string(), "Basic", "Profile", "X");
        let twice = set_ini_value(once.clone(), "Basic", "Profile", "X");
        assert_eq!(twice, once);
    }
}

#[test]
fn blank_line_at_the_end_is_lost_on_the_second_set() {
    let once = set_ini_value("[Basic]\n\n".to_string(), "Basic", "Profile", "X");
    assert_eq!(once, "[Basic]\nProfile=X\n");
    let twice = set_ini_value(once.clone(), "Basic", "Profile", "X");
    assert_eq!(twice, "[Basic]\nProfile=X");
}

#[test]
fn key_with_leading_blank_keeps_other_entries() {
    let r = set_ini_value("[A]\nX=1\n[B]\nY=2".to_string(), "B", " K", "v");
    assert_eq!(r, "[A]\nX=1\n[B]\n K=v\nY=2");
}
