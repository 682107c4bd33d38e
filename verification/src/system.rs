use vstd::prelude::*;
use vstd::string::*;

use crate::ini::{
    ends_in_blank_line, ini_value, ini_with_value, is_header_line, key_line, key_starts_plainly,
    lemma_plain_key_opens_no_section,
    law_set_value_keeps_other_entries, law_set_value_keeps_other_keys, law_set_value_reads_back,
    lemma_set_keeps_unindented, lemma_set_output_shape, lemma_set_unchanged, no_equals,
    no_indented_lines, opens_bracket, section_header, set_ini_value,
};
use crate::text::{is_white_space, lemma_trim_unchanged, no_cr, no_newline};
use crate::text::{
    find, find_line_with, find_word_with_prefix, first_line_with, first_word_with_prefix,
    find_from, from_chars, lines_of, split_lines, sub_chars, to_chars, trim, trim_char,
    trim_matching, trim_ws, views, word_end, word_len,
};

verus! {

/// The operating system the configurator runs on.
#[derive(Clone, Copy, PartialEq, Eq, Structural)]
pub enum Platform {
    MacOs,
    Windows,
    Linux,
}

/// The user directory that OBS's configuration hangs from.
#[derive(Clone, Copy, PartialEq, Eq, Structural)]
pub enum BaseDir {
    /// The user's home directory.
    Home,
    /// The per-user application data directory.
    Data,
}

/// Where OBS keeps its configuration on each platform: a base directory and a path under it.
pub fn obs_config_location(platform: Platform) -> (loc: (BaseDir, &'static str))
    ensures
        platform == Platform::MacOs ==> loc.0 == BaseDir::Home && loc.1@
            == "Library/Application Support/obs-studio"@,
        platform == Platform::Windows ==> loc.0 == BaseDir::Data && loc.1@ == "obs-studio"@,
        platform == Platform::Linux ==> loc.0 == BaseDir::Home && loc.1@ == ".config/obs-studio"@,
{
    match platform {
        Platform::MacOs => (BaseDir::Home, "Library/Application Support/obs-studio"),
        Platform::Windows => (BaseDir::Data, "obs-studio"),
        Platform::Linux => (BaseDir::Home, ".config/obs-studio"),
    }
}

/// The path, under the same base directory as the configuration, of the backup taken
/// at `timestamp`: the configuration directory's path followed by `-backup-` and the
/// timestamp.
pub fn obs_backup_location(platform: Platform, timestamp: &str) -> (loc: (BaseDir, String))
    ensures
        loc.0 == (if platform == Platform::Windows { BaseDir::Data } else { BaseDir::Home }),
        platform == Platform::MacOs ==> loc.1@ == "Library/Application Support/obs-studio-backup-"@
            + timestamp@,
        platform == Platform::Windows ==> loc.1@ == "obs-studio-backup-"@ + timestamp@,
        platform == Platform::Linux ==> loc.1@ == ".config/obs-studio-backup-"@ + timestamp@,
{
    match platform {
        Platform::MacOs => (
            BaseDir::Home,
            "Library/Application Support/obs-studio-backup-".to_string().concat(timestamp),
        ),
        Platform::Windows => (BaseDir::Data, "obs-studio-backup-".to_string().concat(timestamp)),
        Platform::Linux => (BaseDir::Home, ".config/obs-studio-backup-".to_string().concat(timestamp)),
    }
}

/// The label that `ioreg` puts before the hardware serial number.
pub const SERIAL_MARKER: &'static str = "IOPlatformSerialNumber";

/// Separator between a label and its value in `ioreg` output.
pub const IOREG_SEPARATOR: &'static str = " = ";

/// Serial reported when none can be read.
pub const UNKNOWN_SERIAL: &'static str = "unknown-mac";

/// The serial number in the output of `ioreg -rd1 -c IOPlatformExpertDevice`: on the
/// first line that mentions `IOPlatformSerialNumber`, the text after the first ` = `,
/// trimmed and without surrounding double quotes; `unknown-mac` when there is no such
/// line or it has no ` = `.
pub open spec fn ioreg_serial(stdout: Seq<char>) -> Seq<char> {
    let ls = lines_of(stdout);
    match first_line_with(ls, SERIAL_MARKER@, 0) {
        Some(i) => match find_from(ls[i], IOREG_SEPARATOR@, 0) {
            Some(j) => trim_char(trim_ws(ls[i].skip(j + IOREG_SEPARATOR@.len())), '"'),
            None => UNKNOWN_SERIAL@,
        },
        None => UNKNOWN_SERIAL@,
    }
}

/// Reads the hardware serial number out of `ioreg`'s output.
pub fn serial_from_ioreg(stdout: &str) -> (serial: String)
    ensures
        serial@ == ioreg_serial(stdout@),
{
    let text = to_chars(stdout);
    let lines = split_lines(&text);
    let ghost ls = views(lines@);
    let marker = to_chars(SERIAL_MARKER);
    let sep = to_chars(IOREG_SEPARATOR);
    proof {
        reveal_strlit(" = ");
    }
    assert(sep@.len() == 3);
    match find_line_with(&lines, &marker) {
        Some(i) => {
            assert(ls[i as int] == lines@[i as int]@);
            match find(&lines[i], &sep, 0) {
                Some(j) => {
                    let line_len = lines[i].len();
                    let rest = sub_chars(&lines[i], j + 3, line_len);
                    assert(rest@ =~= ls[i as int].skip(j + IOREG_SEPARATOR@.len()));
                    let value = trim_matching(&trim(&rest), '"');
                    from_chars(&value)
                },
                None => UNKNOWN_SERIAL.to_string(),
            }
        },
        None => UNKNOWN_SERIAL.to_string(),
    }
}

/// Where mounted disk images appear on macOS.
pub const VOLUMES_PREFIX: &'static str = "/Volumes/";

/// The mount point in the output of `hdiutil attach`: on the first line that mentions
/// `/Volumes/`, the first white-space-separated word that begins with `/Volumes/`.
pub open spec fn dmg_mount_point(stdout: Seq<char>) -> Option<Seq<char>> {
    let ls = lines_of(stdout);
    match first_line_with(ls, VOLUMES_PREFIX@, 0) {
        Some(i) => match first_word_with_prefix(ls[i], VOLUMES_PREFIX@, 0) {
            Some(j) => Some(ls[i].subrange(j, j + word_len(ls[i].skip(j)))),
            None => None,
        },
        None => None,
    }
}

/// Reads the mount point of a freshly attached disk image out of `hdiutil`'s output.
pub fn mount_point_from_hdiutil(stdout: &str) -> (mount: Option<String>)
    ensures
        match mount {
            Some(m) => dmg_mount_point(stdout@) == Some(m@),
            None => dmg_mount_point(stdout@) is None,
        },
{
    let text = to_chars(stdout);
    let lines = split_lines(&text);
    let ghost ls = views(lines@);
    let prefix = to_chars(VOLUMES_PREFIX);
    match find_line_with(&lines, &prefix) {
        Some(i) => {
            assert(ls[i as int] == lines@[i as int]@);
            match find_word_with_prefix(&lines[i], &prefix) {
                Some(j) => {
                    let k = word_end(&lines[i], j);
                    let word = sub_chars(&lines[i], j, k);
                    Some(from_chars(&word))
                },
                None => None,
            }
        },
        None => None,
    }
}

/// Name of the profile and of the scene collection that the configurator installs.
pub const PROFILE_NAME: &'static str = "AutoREC Turbo";

/// `basic.ini` of the installed profile, up to the recording folder.
pub const PROFILE_INI_HEAD: &'static str = "[General]\nName=AutoREC Turbo\n\n[Video]\nBaseCX=1920\nBaseCY=1080\nOutputCX=1920\nOutputCY=1080\nFPSType=1\nFPSNum=60\nFPSDen=1\nColorFormat=NV12\nColorSpace=709\nColorRange=Partial\n\n[Output]\nMode=Simple\n\n[SimpleOutput]\nFilePath=";

/// `basic.ini` of the installed profile, after the recording folder.
pub const PROFILE_INI_TAIL: &'static str = "\nFileFormat=%CCYY-%MM-%DD %hh-%mm-%ss\nRecFormat2=mkv\nVBitrate=6000\nRecQuality=Small\nRecEncoder=obs_x264\nRecEncoderID=obs_x264\n\n[Audio]\nSampleRate=44100\nChannelSetup=Stereo\n";

/// The output profile (1080p, 60 fps, simple MKV recording) that records into `videos_path`.
pub fn build_profile_ini(videos_path: &str) -> (ini: String)
    ensures
        ini@ == PROFILE_INI_HEAD@ + videos_path@ + PROFILE_INI_TAIL@,
{
    PROFILE_INI_HEAD.to_string().concat(videos_path).concat(PROFILE_INI_TAIL)
}

/// `global.ini` after the installed profile and scene collection are made the active ones:
/// `Profile`, `ProfileDir`, `SceneCollection` and `SceneCollectionFile` of `[Basic]`
/// set to `AutoREC Turbo`, in that order.
pub open spec fn global_ini_activated(existing: Seq<char>) -> Seq<char> {
    ini_with_value(
        ini_with_value(
            ini_with_value(
                ini_with_value(existing, "Basic"@, "Profile"@, PROFILE_NAME@),
                "Basic"@,
                "ProfileDir"@,
                PROFILE_NAME@,
            ),
            "Basic"@,
            "SceneCollection"@,
            PROFILE_NAME@,
        ),
        "Basic"@,
        "SceneCollectionFile"@,
        PROFILE_NAME@,
    )
}

/// Activates the installed profile and scene collection in the text of `global.ini`
/// (empty when there is no such file yet).
pub fn activate_in_global_ini(existing: String) -> (updated: String)
    ensures
        updated@ == global_ini_activated(existing@),
{
    let a = set_ini_value(existing, "Basic", "Profile", PROFILE_NAME);
    let b = set_ini_value(a, "Basic", "ProfileDir", PROFILE_NAME);
    let c = set_ini_value(b, "Basic", "SceneCollection", PROFILE_NAME);
    set_ini_value(c, "Basic", "SceneCollectionFile", PROFILE_NAME)
}

/// The facts about `[Basic]`, the profile name and a key name that the INI laws ask for.
proof fn lemma_activation_key_ok(key: Seq<char>)
    requires
        key.len() > 0,
        no_newline(key),
        no_equals(key),
        !is_white_space(key[0]),
        key[0] != '[',
    ensures
        no_newline("Basic"@),
        no_newline(PROFILE_NAME@),
        no_cr("Basic"@),
        no_cr(PROFILE_NAME@),
        key_starts_plainly(key),
        !(PROFILE_NAME@.len() > 0 && PROFILE_NAME@.last() == '\r'),
        !opens_bracket(key_line(key, PROFILE_NAME@)),
        !is_header_line(key_line(key, PROFILE_NAME@), section_header("Basic"@)),
{
    reveal_strlit("Basic");
    reveal_strlit("AutoREC Turbo");
    let kl = key_line(key, PROFILE_NAME@);
    assert(kl[0] == key[0]);
    assert(kl.last() == 'o');
    lemma_trim_unchanged(kl);
    assert(section_header("Basic"@)[0] == '[');
}

/// Activating the profile in `global.ini` makes all four settings read back as the
/// installed profile and collection, whatever the file held before: in `[Basic]`,
/// `Profile`, `ProfileDir`, `SceneCollection` and `SceneCollectionFile` are all
/// `AutoREC Turbo`.
pub proof fn law_activation_reads_back(existing: Seq<char>)
    ensures
        ini_value(global_ini_activated(existing), "Basic"@, "Profile"@) == Some(PROFILE_NAME@),
        ini_value(global_ini_activated(existing), "Basic"@, "ProfileDir"@) == Some(PROFILE_NAME@),
        ini_value(global_ini_activated(existing), "Basic"@, "SceneCollection"@) == Some(PROFILE_NAME@),
        ini_value(global_ini_activated(existing), "Basic"@, "SceneCollectionFile"@) == Some(PROFILE_NAME@),
{
    reveal_strlit("Profile");
    reveal_strlit("ProfileDir");
    reveal_strlit("SceneCollection");
    reveal_strlit("SceneCollectionFile");
    let b = "Basic"@;
    let n = PROFILE_NAME@;
    let k1 = "Profile"@;
    let k2 = "ProfileDir"@;
    let k3 = "SceneCollection"@;
    let k4 = "SceneCollectionFile"@;
    lemma_activation_key_ok(k1);
    lemma_activation_key_ok(k2);
    lemma_activation_key_ok(k3);
    lemma_activation_key_ok(k4);
    assert(k1 != k2 && k1 != k3 && k1 != k4 && k2 != k3 && k2 != k4 && k3 != k4) by {
        assert(k1.len() != k2.len());
        assert(k1.len() != k3.len());
        assert(k1.len() != k4.len());
        assert(k2.len() != k3.len());
        assert(k2.len() != k4.len());
        assert(k3.len() != k4.len());
    }
    let c1 = ini_with_value(existing, b, k1, n);
    let c2 = ini_with_value(c1, b, k2, n);
    let c3 = ini_with_value(c2, b, k3, n);
    let c4 = ini_with_value(c3, b, k4, n);
    law_set_value_reads_back(existing, b, k1, n);
    law_set_value_reads_back(c1, b, k2, n);
    law_set_value_reads_back(c2, b, k3, n);
    law_set_value_reads_back(c3, b, k4, n);
    law_set_value_keeps_other_keys(c1, b, k2, n, k1);
    law_set_value_keeps_other_keys(c2, b, k3, n, k1);
    law_set_value_keeps_other_keys(c2, b, k3, n, k2);
    law_set_value_keeps_other_keys(c3, b, k4, n, k1);
    law_set_value_keeps_other_keys(c3, b, k4, n, k2);
    law_set_value_keeps_other_keys(c3, b, k4, n, k3);
}


/// One of the four `[Basic]` settings that activation writes.
pub open spec fn is_activation_key(section: Seq<char>, key: Seq<char>) -> bool {
    section == "Basic"@ && (key == "Profile"@ || key == "ProfileDir"@ || key == "SceneCollection"@
        || key == "SceneCollectionFile"@)
}

/// The four activation keys satisfy what the INI laws ask of a key.
proof fn lemma_activation_keys_ok()
    ensures
        no_newline("Profile"@) && no_equals("Profile"@) && key_starts_plainly("Profile"@),
        no_newline("ProfileDir"@) && no_equals("ProfileDir"@) && key_starts_plainly("ProfileDir"@),
        no_newline("SceneCollection"@) && no_equals("SceneCollection"@) && key_starts_plainly(
            "SceneCollection"@,
        ),
        no_newline("SceneCollectionFile"@) && no_equals("SceneCollectionFile"@) && key_starts_plainly(
            "SceneCollectionFile"@,
        ),
        no_cr("Profile"@) && no_cr("ProfileDir"@) && no_cr("SceneCollection"@) && no_cr(
            "SceneCollectionFile"@,
        ),
        !opens_bracket(key_line("Profile"@, PROFILE_NAME@)),
        !opens_bracket(key_line("ProfileDir"@, PROFILE_NAME@)),
        !opens_bracket(key_line("SceneCollection"@, PROFILE_NAME@)),
        !opens_bracket(key_line("SceneCollectionFile"@, PROFILE_NAME@)),
        !is_header_line(key_line("Profile"@, PROFILE_NAME@), section_header("Basic"@)),
        !is_header_line(key_line("ProfileDir"@, PROFILE_NAME@), section_header("Basic"@)),
        !is_header_line(key_line("SceneCollection"@, PROFILE_NAME@), section_header("Basic"@)),
        !is_header_line(key_line("SceneCollectionFile"@, PROFILE_NAME@), section_header("Basic"@)),
        no_newline("Basic"@) && no_newline(PROFILE_NAME@) && no_cr("Basic"@) && no_cr(PROFILE_NAME@),
{
    reveal_strlit("Profile");
    reveal_strlit("ProfileDir");
    reveal_strlit("SceneCollection");
    reveal_strlit("SceneCollectionFile");
    lemma_activation_key_ok("Profile"@);
    lemma_activation_key_ok("ProfileDir"@);
    lemma_activation_key_ok("SceneCollection"@);
    lemma_activation_key_ok("SceneCollectionFile"@);
}

/// Activating the profile in `global.ini` leaves every other setting as it was: for any
/// section and key other than the four `[Basic]` settings it writes, a reader finds in
/// the activated text what it found before. This holds when no line of `global.ini`
/// begins with white space, the other key holds no `=`, and its value does not end
/// with a carriage return.
pub proof fn law_activation_keeps_other_settings(existing: Seq<char>, section: Seq<char>, key: Seq<char>)
    requires
        no_indented_lines(existing),
        no_equals(key),
        !is_activation_key(section, key),
        ini_value(existing, section, key) matches Some(w) ==> !(w.len() > 0 && w.last() == '\r'),
    ensures
        ini_value(global_ini_activated(existing), section, key) == ini_value(existing, section, key),
{
    lemma_activation_keys_ok();
    lemma_plain_key_opens_no_section("Profile"@);
    lemma_plain_key_opens_no_section("ProfileDir"@);
    lemma_plain_key_opens_no_section("SceneCollection"@);
    lemma_plain_key_opens_no_section("SceneCollectionFile"@);
    let b = "Basic"@;
    let n = PROFILE_NAME@;
    let c1 = ini_with_value(existing, b, "Profile"@, n);
    let c2 = ini_with_value(c1, b, "ProfileDir"@, n);
    let c3 = ini_with_value(c2, b, "SceneCollection"@, n);
    law_set_value_keeps_other_entries(existing, b, "Profile"@, n, section, key);
    lemma_set_keeps_unindented(existing, b, "Profile"@, n);
    law_set_value_keeps_other_entries(c1, b, "ProfileDir"@, n, section, key);
    lemma_set_keeps_unindented(c1, b, "ProfileDir"@, n);
    law_set_value_keeps_other_entries(c2, b, "SceneCollection"@, n, section, key);
    lemma_set_keeps_unindented(c2, b, "SceneCollection"@, n);
    law_set_value_keeps_other_entries(c3, b, "SceneCollectionFile"@, n, section, key);
}

/// Activating the profile a second time changes nothing: activation applied to its own
/// result gives that result back. This holds when `global.ini` holds no carriage return
/// and does not end with an empty line.
pub proof fn law_activation_twice(existing: Seq<char>)
    requires
        no_cr(existing),
        !ends_in_blank_line(existing),
    ensures
        global_ini_activated(global_ini_activated(existing)) == global_ini_activated(existing),
{
    lemma_activation_keys_ok();
    let b = "Basic"@;
    let n = PROFILE_NAME@;
    let c1 = ini_with_value(existing, b, "Profile"@, n);
    let c2 = ini_with_value(c1, b, "ProfileDir"@, n);
    let c3 = ini_with_value(c2, b, "SceneCollection"@, n);
    let a = global_ini_activated(existing);
    lemma_set_output_shape(existing, b, "Profile"@, n);
    lemma_set_output_shape(c1, b, "ProfileDir"@, n);
    lemma_set_output_shape(c2, b, "SceneCollection"@, n);
    lemma_set_output_shape(c3, b, "SceneCollectionFile"@, n);
    law_activation_reads_back(existing);
    lemma_set_unchanged(a, b, "Profile"@, n);
    lemma_set_unchanged(a, b, "ProfileDir"@, n);
    lemma_set_unchanged(a, b, "SceneCollection"@, n);
    lemma_set_unchanged(a, b, "SceneCollectionFile"@, n);
}

} // verus!
