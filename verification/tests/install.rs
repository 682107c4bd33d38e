use autorec_turbo::install::{
    install_step, DirEntryInfo, InstallEffect, InstallEvent, InstallState, InstallStep,
};
use autorec_turbo::system::Platform;

fn start(p: Platform) -> InstallState {
    InstallState::Start { platform: p, installer_path: "C:\\Temp\\obs-installer.exe".to_string() }
}

fn step(s: InstallState, e: InstallEvent) -> InstallStep {
    install_step(s, e)
}

fn is_run(e: &InstallEffect, program: &str, args: &[&str]) -> bool {
    match e {
        InstallEffect::Run { program: p, args: a } => p == program && a.iter().map(|x| x.as_str()).eq(args.iter().copied()),
        _ => false,
    }
}

#[test]
fn already_installed_ends_at_once() {
    let s = step(start(Platform::MacOs), InstallEvent::Nothing);
    assert!(matches!(s.effect, InstallEffect::CheckObsInstalled));
    let s = step(s.next, InstallEvent::ObsInstalled(true));
    assert_eq!(s.logs, vec!["OBS j\u{e1} est\u{e1} instalado.".to_string()]);
    assert!(matches!(s.effect, InstallEffect::Done(Ok(()))));
    assert!(matches!(s.next, InstallState::Finished));
}

#[test]
fn macos_homebrew_success() {
    let s = step(start(Platform::MacOs), InstallEvent::Nothing);
    let s = step(s.next, InstallEvent::ObsInstalled(false));
    match &s.effect {
        InstallEffect::Probe { program, args } => {
            assert_eq!(program, "brew");
            assert_eq!(args, &vec!["--version".to_string()]);
        }
        _ => panic!("expected a probe"),
    }
    let s = step(s.next, InstallEvent::Probed(true));
    assert!(is_run(&s.effect, "brew", &["install", "--cask", "obs"]));
    assert_eq!(s.logs, vec!["Instalando OBS via Homebrew...".to_string()]);
    let s = step(s.next, InstallEvent::Exited(Ok(true)));
    assert_eq!(s.logs, vec!["OBS instalado com sucesso via Homebrew!".to_string()]);
    assert!(matches!(s.effect, InstallEffect::Done(Ok(()))));
}

#[test]
fn macos_disk_image_path() {
    let s = step(start(Platform::MacOs), InstallEvent::Nothing);
    let s = step(s.next, InstallEvent::ObsInstalled(false));
    let s = step(s.next, InstallEvent::Probed(true));
    let s = step(s.next, InstallEvent::Exited(Ok(false)));
    assert_eq!(s.logs.len(), 2);
    assert_eq!(s.logs[0], "Homebrew falhou. Tentando download direto...");
    assert!(is_run(&s.effect, "curl", &["-L", "-o", "/tmp/obs-installer.dmg",
        "https://github.com/obsproject/obs-studio/releases/download/31.0.3/OBS-31.0.3-macOS-Universal.dmg"]));
    let s = step(s.next, InstallEvent::Exited(Ok(true)));
    assert_eq!(s.logs, vec!["Montando imagem do instalador...".to_string()]);
    assert!(matches!(&s.effect, InstallEffect::Capture { program, .. } if program == "hdiutil"));
    let out = "/dev/disk4s1\tApple_HFS\t/Volumes/OBS\n".to_string();
    let s = step(s.next, InstallEvent::Captured(Ok((true, out))));
    assert!(matches!(&s.effect, InstallEffect::ListDir { dir } if dir == "/Volumes/OBS"));
    let entries = vec![
        DirEntryInfo { path: "/Volumes/OBS/.background".to_string(), extension: None },
        DirEntryInfo { path: "/Volumes/OBS/OBS.app".to_string(), extension: Some("app".to_string()) },
    ];
    let s = step(s.next, InstallEvent::Listed(Ok(entries)));
    assert!(is_run(&s.effect, "cp", &["-R", "/Volumes/OBS/OBS.app", "/Applications/OBS.app"]));
    assert_eq!(s.logs, vec!["Copiando OBS para /Applications...".to_string()]);
    let s = step(s.next, InstallEvent::Exited(Ok(true)));
    assert!(matches!(&s.effect, InstallEffect::RunIgnored { program, args }
        if program == "hdiutil" && args == &vec!["detach".to_string(), "/Volumes/OBS".to_string(), "-quiet".to_string()]));
    let s = step(s.next, InstallEvent::Nothing);
    assert!(matches!(&s.effect, InstallEffect::RemoveFile { path } if path == "/tmp/obs-installer.dmg"));
    let s = step(s.next, InstallEvent::Nothing);
    assert_eq!(s.logs, vec!["OBS instalado com sucesso!".to_string()]);
    assert!(matches!(s.effect, InstallEffect::Done(Ok(()))));
}

#[test]
fn macos_failures() {
    let s = step(InstallState::Downloading, InstallEvent::Exited(Ok(false)));
    assert!(matches!(&s.effect, InstallEffect::Done(Err(m))
        if m == "Falha ao baixar OBS. Verifique sua conex\u{e3}o e tente novamente."));
    let s = step(InstallState::Attaching, InstallEvent::Captured(Ok((true, "nothing\n".to_string()))));
    assert!(matches!(&s.effect, InstallEffect::Done(Err(m))
        if m == "N\u{e3}o foi poss\u{ed}vel localizar o volume montado do OBS."));
    let s = step(InstallState::Attaching, InstallEvent::Captured(Ok((false, String::new()))));
    assert!(matches!(&s.effect, InstallEffect::Done(Err(m)) if m == "Falha ao montar o DMG do OBS."));
    let s = step(InstallState::FindingApp { mount_point: "/Volumes/X".to_string() }, InstallEvent::Listed(Ok(vec![])));
    assert!(matches!(&s.effect, InstallEffect::Done(Err(m)) if m == "OBS.app n\u{e3}o encontrado dentro do DMG."));
    let s = step(InstallState::RemovingImage { copied: false }, InstallEvent::Nothing);
    assert!(matches!(&s.effect, InstallEffect::Done(Err(m))
        if m == "Falha ao copiar OBS para /Applications. Tente instalar manualmente."));
    let s = step(InstallState::BrewInstalling, InstallEvent::Exited(Err("no brew".to_string())));
    assert!(matches!(&s.effect, InstallEffect::Done(Err(m)) if m == "no brew"));
}

#[test]
fn windows_installer_path() {
    let s = step(start(Platform::Windows), InstallEvent::Nothing);
    let s = step(s.next, InstallEvent::ObsInstalled(false));
    assert_eq!(s.logs, vec!["Baixando OBS Studio...".to_string()]);
    assert!(is_run(&s.effect, "powershell", &["-NoProfile", "-Command",
        "Invoke-WebRequest -Uri 'https://github.com/obsproject/obs-studio/releases/download/31.0.3/OBS-31.0.3-Windows-Installer.exe' -OutFile 'C:\\Temp\\obs-installer.exe'"]));
    let s = step(s.next, InstallEvent::Exited(Ok(true)));
    assert!(is_run(&s.effect, "C:\\Temp\\obs-installer.exe", &["/S"]));
    let s = step(s.next, InstallEvent::Exited(Ok(false)));
    assert!(matches!(&s.effect, InstallEffect::RemoveFile { path } if path == "C:\\Temp\\obs-installer.exe"));
    let s = step(s.next, InstallEvent::Nothing);
    assert!(matches!(&s.effect, InstallEffect::Done(Err(m)) if m == "Falha ao instalar OBS. Tente instalar manualmente."));
}

#[test]
fn linux_falls_back_to_flatpak() {
    let s = step(start(Platform::Linux), InstallEvent::Nothing);
    let s = step(s.next, InstallEvent::ObsInstalled(false));
    assert!(matches!(&s.effect, InstallEffect::Probe { program, args } if program == "which" && args == &vec!["apt-get".to_string()]));
    let s = step(s.next, InstallEvent::Probed(true));
    assert!(is_run(&s.effect, "pkexec", &["apt-get", "install", "-y", "obs-studio"]));
    let s = step(s.next, InstallEvent::Exited(Ok(false)));
    assert_eq!(s.logs, vec!["apt-get falhou. Tentando Flatpak...".to_string()]);
    let s = step(s.next, InstallEvent::Probed(true));
    assert!(is_run(&s.effect, "flatpak", &["install", "--noninteractive", "-y", "flathub", "com.obsproject.Studio"]));
    let s = step(s.next, InstallEvent::Exited(Ok(true)));
    assert_eq!(s.logs, vec!["OBS instalado via Flatpak com sucesso!".to_string()]);
    assert!(matches!(s.effect, InstallEffect::Done(Ok(()))));
}

#[test]
fn linux_without_package_managers_fails() {
    let s = step(InstallState::CheckingApt, InstallEvent::Probed(false));
    let s = step(s.next, InstallEvent::Probed(false));
    match s.effect {
        InstallEffect::Done(Err(m)) => assert!(m.starts_with("N\u{e3}o foi poss\u{ed}vel instalar o OBS automaticamente.")),
        _ => panic!("expected failure"),
    }
}

#[test]
fn each_effect_is_answered_by_what_the_next_state_waits_for() {
    let s = step(start(Platform::Linux), InstallEvent::Nothing);
    assert!(matches!(s.effect, InstallEffect::CheckObsInstalled));
    assert!(matches!(s.next, InstallState::CheckingInstalled { .. }));
    let s = step(s.next, InstallEvent::ObsInstalled(false));
    assert!(matches!(s.effect, InstallEffect::Probe { .. }));
    assert!(matches!(s.next, InstallState::CheckingApt));
    let s = step(s.next, InstallEvent::Probed(true));
    assert!(matches!(s.effect, InstallEffect::Run { .. }));
    assert!(matches!(s.next, InstallState::AptInstalling));
    let s = step(s.next, InstallEvent::Exited(Ok(true)));
    assert!(matches!(s.effect, InstallEffect::Done(Ok(()))));
    assert!(matches!(s.next, InstallState::Finished));
}
