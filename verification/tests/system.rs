use autorec_turbo::system::{
    activate_in_global_ini, build_profile_ini, mount_point_from_hdiutil, obs_backup_location,
    obs_config_location, serial_from_ioreg, BaseDir, Platform,
};

#[test]
fn serial_is_read_from_ioreg() {
    let out = "+-o J314sAP  <class IOPlatformExpertDevice>\n    {\n      \"IOPlatformUUID\" = \"1234\"\n      \"IOPlatformSerialNumber\" = \"C02XK0AAJGH6\"\n    }\n";
    assert_eq!(serial_from_ioreg(out), "C02XK0AAJGH6");
}

#[test]
fn serial_without_output_is_unknown() {
    assert_eq!(serial_from_ioreg(""), "unknown-mac");
    assert_eq!(serial_from_ioreg("nothing here\n"), "unknown-mac");
}

#[test]
fn serial_line_without_separator_is_unknown() {
    assert_eq!(serial_from_ioreg("IOPlatformSerialNumber:X\nIOPlatformSerialNumber = Y"), "unknown-mac");
}

#[test]
fn serial_keeps_text_after_first_separator() {
    assert_eq!(serial_from_ioreg("\"IOPlatformSerialNumber\" = \"A = B\"\r\n"), "A = B");
}

#[test]
fn mount_point_is_first_volumes_word() {
    let out = "/dev/disk4          \tGUID_partition_scheme\t\n/dev/disk4s1        \tApple_HFS                      \t/Volumes/OBS-Studio\n";
    assert_eq!(mount_point_from_hdiutil(out), Some("/Volumes/OBS-Studio".to_string()));
}

#[test]
fn mount_point_stops_at_white_space() {
    let out = "/dev/disk4s1\tApple_HFS\t/Volumes/OBS Studio 31\n";
    assert_eq!(mount_point_from_hdiutil(out), Some("/Volumes/OBS".to_string()));
}

#[test]
fn no_mount_point_without_volume_word() {
    assert_eq!(mount_point_from_hdiutil("/dev/disk4\n"), None);
    assert_eq!(mount_point_from_hdiutil("x/Volumes/OBS\n/Volumes/Other"), None);
}

#[test]
fn profile_ini_records_into_folder() {
    let ini = build_profile_ini("/Users/ana/Movies");
    assert!(ini.starts_with("[General]\nName=AutoREC Turbo\n\n[Video]\nBaseCX=1920\n"));
    assert!(ini.contains("\n[SimpleOutput]\nFilePath=/Users/ana/Movies\nFileFormat=%CCYY-%MM-%DD %hh-%mm-%ss\n"));
    assert!(ini.ends_with("[Audio]\nSampleRate=44100\nChannelSetup=Stereo\n"));
    assert_eq!(ini.matches("FPSNum=60").count(), 1);
}

#[test]
fn global_ini_activates_profile() {
    let r = activate_in_global_ini(String::new());
    assert_eq!(
        r,
        "\n[Basic]\nSceneCollectionFile=AutoREC Turbo\nSceneCollection=AutoREC Turbo\nProfileDir=AutoREC Turbo\nProfile=AutoREC Turbo"
    );
}

#[test]
fn global_ini_keeps_other_settings() {
    let existing = "[General]\nLanguage=pt-BR\n\n[Basic]\nProfile=Untitled\nProfileDir=Untitled\nSceneCollection=Untitled\nSceneCollectionFile=Untitled\n".to_string();
    let r = activate_in_global_ini(existing);
    assert_eq!(
        r,
        "[General]\nLanguage=pt-BR\n\n[Basic]\nProfile=AutoREC Turbo\nProfileDir=AutoREC Turbo\nSceneCollection=AutoREC Turbo\nSceneCollectionFile=AutoREC Turbo"
    );
}

#[test]
fn config_locations_per_platform() {
    let (b, p) = obs_config_location(Platform::MacOs);
    assert!(b == BaseDir::Home && p == "Library/Application Support/obs-studio");
    let (b, p) = obs_config_location(Platform::Windows);
    assert!(b == BaseDir::Data && p == "obs-studio");
    let (b, p) = obs_config_location(Platform::Linux);
    assert!(b == BaseDir::Home && p == ".config/obs-studio");
}

#[test]
fn backup_locations_carry_timestamp() {
    let (b, p) = obs_backup_location(Platform::MacOs, "20240102_030405");
    assert!(b == BaseDir::Home);
    assert_eq!(p, "Library/Application Support/obs-studio-backup-20240102_030405");
    let (b, p) = obs_backup_location(Platform::Windows, "T");
    assert!(b == BaseDir::Data);
    assert_eq!(p, "obs-studio-backup-T");
    let (_, p) = obs_backup_location(Platform::Linux, "T");
    assert_eq!(p, ".config/obs-studio-backup-T");
}

#[test]
fn activating_twice_changes_nothing() {
    let existing = "[General]\nLanguage=pt-BR\n\n[Basic]\nProfile=Untitled\n".to_string();
    let once = activate_in_global_ini(existing);
    let twice = activate_in_global_ini(once.clone());
    assert_eq!(twice, once);
}

#[test]
fn activation_leaves_other_sections_alone() {
    let existing = "[Video]\nProfile=keep\n[Basic]\nConfigOpen=1".to_string();
    let r = activate_in_global_ini(existing);
    assert!(r.starts_with("[Video]\nProfile=keep\n[Basic]\n"));
    assert!(r.ends_with("\nConfigOpen=1"));
}
