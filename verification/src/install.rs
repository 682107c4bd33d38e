use vstd::prelude::*;
use vstd::string::*;

use crate::system::{dmg_mount_point, mount_point_from_hdiutil, Platform};

verus! {

// ---------------------------------------------------------------------------
// Messages, programs and locations.
// ---------------------------------------------------------------------------

pub const MSG_ALREADY_INSTALLED: &'static str = "OBS j\u{e1} est\u{e1} instalado.";
pub const MSG_BREW_INSTALLING: &'static str = "Instalando OBS via Homebrew...";
pub const MSG_BREW_DONE: &'static str = "OBS instalado com sucesso via Homebrew!";
pub const MSG_BREW_FAILED: &'static str = "Homebrew falhou. Tentando download direto...";
pub const MSG_MAC_DOWNLOADING: &'static str = "Baixando OBS Studio (isso pode levar alguns minutos)...";
pub const MSG_MAC_DOWNLOAD_FAILED: &'static str = "Falha ao baixar OBS. Verifique sua conex\u{e3}o e tente novamente.";
pub const MSG_MOUNTING: &'static str = "Montando imagem do instalador...";
pub const MSG_MOUNT_FAILED: &'static str = "Falha ao montar o DMG do OBS.";
pub const MSG_NO_VOLUME: &'static str = "N\u{e3}o foi poss\u{ed}vel localizar o volume montado do OBS.";
pub const MSG_NO_APP: &'static str = "OBS.app n\u{e3}o encontrado dentro do DMG.";
pub const MSG_COPYING: &'static str = "Copiando OBS para /Applications...";
pub const MSG_COPY_FAILED: &'static str = "Falha ao copiar OBS para /Applications. Tente instalar manualmente.";
pub const MSG_INSTALLED: &'static str = "OBS instalado com sucesso!";
pub const MSG_WIN_DOWNLOADING: &'static str = "Baixando OBS Studio...";
pub const MSG_WIN_DOWNLOAD_FAILED: &'static str = "Falha ao baixar OBS. Verifique sua conex\u{e3}o.";
pub const MSG_WIN_INSTALLING: &'static str = "Instalando OBS Studio (aguarde)...";
pub const MSG_WIN_INSTALL_FAILED: &'static str = "Falha ao instalar OBS. Tente instalar manualmente.";
pub const MSG_APT_INSTALLING: &'static str = "Instalando OBS via apt-get...";
pub const MSG_APT_FAILED: &'static str = "apt-get falhou. Tentando Flatpak...";
pub const MSG_FLATPAK_INSTALLING: &'static str = "Instalando OBS via Flatpak (Flathub)...";
pub const MSG_FLATPAK_DONE: &'static str = "OBS instalado via Flatpak com sucesso!";
pub const MSG_LINUX_MANUAL: &'static str = "N\u{e3}o foi poss\u{ed}vel instalar o OBS automaticamente. Instale manualmente:\n  Ubuntu/Debian: sudo apt-get install obs-studio\n  Flatpak: flatpak install flathub com.obsproject.Studio";

/// Disk image of OBS for macOS.
pub const MAC_DMG_URL: &'static str = "https://github.com/obsproject/obs-studio/releases/download/31.0.3/OBS-31.0.3-macOS-Universal.dmg";
/// Installer of OBS for Windows.
pub const WIN_INSTALLER_URL: &'static str = "https://github.com/obsproject/obs-studio/releases/download/31.0.3/OBS-31.0.3-Windows-Installer.exe";
/// Where the macOS disk image is downloaded to.
pub const MAC_DMG_PATH: &'static str = "/tmp/obs-installer.dmg";
/// Where OBS is copied to on macOS.
pub const MAC_APP_TARGET: &'static str = "/Applications/OBS.app";

// ---------------------------------------------------------------------------
// The machine.
// ---------------------------------------------------------------------------

/// Where an installation stands.
pub enum InstallState {
    /// Nothing done yet; `installer_path` is where the Windows installer is downloaded to.
    Start { platform: Platform, installer_path: String },
    /// Asked whether OBS is already installed.
    CheckingInstalled { platform: Platform, installer_path: String },
    /// macOS: asked whether Homebrew is available.
    CheckingBrew,
    /// macOS: `brew install --cask obs` is running.
    BrewInstalling,
    /// macOS: the disk image is downloading.
    Downloading,
    /// macOS: the disk image is being attached.
    Attaching,
    /// macOS: the attached volume is being listed.
    FindingApp { mount_point: String },
    /// macOS: OBS.app is being copied.
    Copying { mount_point: String },
    /// macOS: the volume is being detached; `copied` tells whether the copy succeeded.
    Detaching { copied: bool },
    /// macOS: the disk image is being removed.
    RemovingImage { copied: bool },
    /// Windows: the installer is downloading.
    WinDownloading { installer_path: String },
    /// Windows: the installer is running silently.
    WinInstalling { installer_path: String },
    /// Windows: the installer is being removed; `installed` tells whether it succeeded.
    WinRemoving { installed: bool },
    /// Linux: asked whether apt-get is available.
    CheckingApt,
    /// Linux: apt-get is installing OBS.
    AptInstalling,
    /// Linux: asked whether Flatpak is available.
    CheckingFlatpak,
    /// Linux: Flatpak is installing OBS.
    FlatpakInstalling,
    /// The installation has ended.
    Finished,
}

/// One entry of a listed directory: its path and its extension, if any.
pub struct DirEntryInfo {
    pub path: String,
    pub extension: Option<String>,
}

/// What the outside world did.
pub enum InstallEvent {
    /// Nothing to report (the machine is starting, or the last effect reports nothing).
    Nothing,
    /// Whether OBS is already installed.
    ObsInstalled(bool),
    /// Whether a probe command ran and succeeded.
    Probed(bool),
    /// A command ran and succeeded or not; `Err` when it could not be started.
    Exited(Result<bool, String>),
    /// A command ran: whether it succeeded and what it printed; `Err` when it could not be started.
    Captured(Result<(bool, String), String>),
    /// The entries of a directory, in the order listed; `Err` when it could not be read.
    Listed(Result<Vec<DirEntryInfo>, String>),
}

/// What the outside world is to do next.
pub enum InstallEffect {
    /// Tell whether OBS is installed.
    CheckObsInstalled,
    /// Run the command and tell whether it ran and succeeded.
    Probe { program: String, args: Vec<String> },
    /// Run the command and tell whether it succeeded.
    Run { program: String, args: Vec<String> },
    /// Run the command and tell whether it succeeded and what it printed.
    Capture { program: String, args: Vec<String> },
    /// List the directory.
    ListDir { dir: String },
    /// Run the command and ignore how it went.
    RunIgnored { program: String, args: Vec<String> },
    /// Remove the file and ignore how it went.
    RemoveFile { path: String },
    /// The installation ended so.
    Done(Result<(), String>),
}

/// The progress messages to emit, the effect to perform, and the state to wait in.
pub struct InstallStep {
    pub logs: Vec<String>,
    pub effect: InstallEffect,
    pub next: InstallState,
}

/// The texts of a sequence of strings.
pub open spec fn strs(v: Seq<String>) -> Seq<Seq<char>> {
    v.map_values(|s: String| s@)
}

/// A step that emits exactly these messages.
pub open spec fn logs_are(step: InstallStep, logs: Seq<Seq<char>>) -> bool {
    strs(step.logs@) == logs
}

/// The effect runs the command and waits for its exit status.
pub open spec fn runs(e: InstallEffect, program: Seq<char>, args: Seq<Seq<char>>) -> bool {
    e matches InstallEffect::Run { program: p, args: a } && p@ == program && strs(a@) == args
}

/// The effect probes with the command.
pub open spec fn probes(e: InstallEffect, program: Seq<char>, args: Seq<Seq<char>>) -> bool {
    e matches InstallEffect::Probe { program: p, args: a } && p@ == program && strs(a@) == args
}

/// The effect runs the command and captures its output.
pub open spec fn captures(e: InstallEffect, program: Seq<char>, args: Seq<Seq<char>>) -> bool {
    e matches InstallEffect::Capture { program: p, args: a } && p@ == program && strs(a@) == args
}

/// The effect runs the command and ignores how it went.
pub open spec fn runs_ignored(e: InstallEffect, program: Seq<char>, args: Seq<Seq<char>>) -> bool {
    e matches InstallEffect::RunIgnored { program: p, args: a } && p@ == program && strs(a@) == args
}

/// The effect ends the installation successfully.
pub open spec fn succeeds(e: InstallEffect) -> bool {
    e matches InstallEffect::Done(Ok(()))
}

/// The effect ends the installation with this message.
pub open spec fn fails_with(e: InstallEffect, msg: Seq<char>) -> bool {
    e matches InstallEffect::Done(Err(m)) && m@ == msg
}

/// Steps left at most before the installation ends from this state.
pub open spec fn steps_left(s: InstallState) -> nat {
    match s {
        InstallState::Start { .. } => 20,
        InstallState::CheckingInstalled { .. } => 19,
        InstallState::CheckingBrew => 15,
        InstallState::BrewInstalling => 14,
        InstallState::Downloading => 13,
        InstallState::Attaching => 12,
        InstallState::FindingApp { .. } => 11,
        InstallState::Copying { .. } => 10,
        InstallState::Detaching { .. } => 9,
        InstallState::RemovingImage { .. } => 8,
        InstallState::WinDownloading { .. } => 13,
        InstallState::WinInstalling { .. } => 12,
        InstallState::WinRemoving { .. } => 11,
        InstallState::CheckingApt => 15,
        InstallState::AptInstalling => 14,
        InstallState::CheckingFlatpak => 13,
        InstallState::FlatpakInstalling => 12,
        InstallState::Finished => 0,
    }
}

/// The event answers the effect that the state waits on.
pub open spec fn event_fits(s: InstallState, e: InstallEvent) -> bool {
    match s {
        InstallState::Start { .. } => e is Nothing,
        InstallState::CheckingInstalled { .. } => e is ObsInstalled,
        InstallState::CheckingBrew => e is Probed,
        InstallState::BrewInstalling => e is Exited,
        InstallState::Downloading => e is Exited,
        InstallState::Attaching => e is Captured,
        InstallState::FindingApp { .. } => e is Listed,
        InstallState::Copying { .. } => e is Exited,
        InstallState::Detaching { .. } => e is Nothing,
        InstallState::RemovingImage { .. } => e is Nothing,
        InstallState::WinDownloading { .. } => e is Exited,
        InstallState::WinInstalling { .. } => e is Exited,
        InstallState::WinRemoving { .. } => e is Nothing,
        InstallState::CheckingApt => e is Probed,
        InstallState::AptInstalling => e is Exited,
        InstallState::CheckingFlatpak => e is Probed,
        InstallState::FlatpakInstalling => e is Exited,
        InstallState::Finished => false,
    }
}

/// The state waits on what this effect brings back: each waiting state is entered together
/// with the one effect whose outcome it is waiting for.
pub open spec fn awaits(s: InstallState, e: InstallEffect) -> bool {
    match s {
        InstallState::Start { .. } => false,
        InstallState::CheckingInstalled { .. } => e is CheckObsInstalled,
        InstallState::CheckingBrew => e is Probe,
        InstallState::BrewInstalling => e is Run,
        InstallState::Downloading => e is Run,
        InstallState::Attaching => e is Capture,
        InstallState::FindingApp { .. } => e is ListDir,
        InstallState::Copying { .. } => e is Run,
        InstallState::Detaching { .. } => e is RunIgnored,
        InstallState::RemovingImage { .. } => e is RemoveFile,
        InstallState::WinDownloading { .. } => e is Run,
        InstallState::WinInstalling { .. } => e is Run,
        InstallState::WinRemoving { .. } => e is RemoveFile,
        InstallState::CheckingApt => e is Probe,
        InstallState::AptInstalling => e is Run,
        InstallState::CheckingFlatpak => e is Probe,
        InstallState::FlatpakInstalling => e is Run,
        InstallState::Finished => e is Done,
    }
}

/// The event is the kind of answer that performing the effect brings back.
pub open spec fn answers(e: InstallEffect, ev: InstallEvent) -> bool {
    match e {
        InstallEffect::CheckObsInstalled => ev is ObsInstalled,
        InstallEffect::Probe { .. } => ev is Probed,
        InstallEffect::Run { .. } => ev is Exited,
        InstallEffect::Capture { .. } => ev is Captured,
        InstallEffect::ListDir { .. } => ev is Listed,
        InstallEffect::RunIgnored { .. } => ev is Nothing,
        InstallEffect::RemoveFile { .. } => ev is Nothing,
        InstallEffect::Done(_) => false,
    }
}

/// Answering the effect of a step is always an event that the next state accepts: a loop
/// that performs each effect and hands back its answer meets `install_step`'s
/// precondition at every step, from the start until the installation is done.
pub proof fn law_answer_fits_next_state(s: InstallState, e: InstallEffect, ev: InstallEvent)
    requires
        awaits(s, e),
        answers(e, ev),
    ensures
        event_fits(s, ev),
{
}

/// The first listed entry whose extension is `app`, from position `i` on.
pub open spec fn first_app(entries: Seq<DirEntryInfo>, i: int) -> Option<int>
    decreases entries.len() - i,
{
    if i < 0 || i >= entries.len() {
        None
    } else if entries[i].extension matches Some(x) && x@ == "app"@ {
        Some(i)
    } else {
        first_app(entries, i + 1)
    }
}

/// The entry's extension is exactly the three letters `a`, `p`, `p`.
pub open spec fn is_app_bundle(e: DirEntryInfo) -> bool {
    e.extension matches Some(x) && x@ == seq!['a', 'p', 'p']
}

proof fn lemma_first_app_from(entries: Seq<DirEntryInfo>, k: int)
    requires
        0 <= k <= entries.len(),
    ensures
        match first_app(entries, k) {
            Some(i) => k <= i < entries.len() && is_app_bundle(entries[i]) && forall|j: int|
                k <= j < i ==> !#[trigger] is_app_bundle(entries[j]),
            None => forall|j: int| k <= j < entries.len() ==> !#[trigger] is_app_bundle(entries[j]),
        },
    decreases entries.len() - k,
{
    reveal_strlit("app");
    assert("app"@ =~= seq!['a', 'p', 'p']);
    if k < entries.len() {
        lemma_first_app_from(entries, k + 1);
    }
}

/// The entry copied as OBS out of the disk image is the first listed entry whose
/// extension is `app`: `first_app` finds an entry exactly when one has that extension,
/// the entry it finds has it, and no entry listed before it does.
pub proof fn law_first_app_is_first_app_bundle(entries: Seq<DirEntryInfo>)
    ensures
        match first_app(entries, 0) {
            Some(i) => 0 <= i < entries.len() && is_app_bundle(entries[i]) && forall|j: int|
                0 <= j < i ==> !#[trigger] is_app_bundle(entries[j]),
            None => forall|j: int| 0 <= j < entries.len() ==> !#[trigger] is_app_bundle(entries[j]),
        },
{
    lemma_first_app_from(entries, 0);
}

fn one(a: &str) -> (v: Vec<String>)
    ensures
        strs(v@) == seq![a@],
{
    let mut v = Vec::new();
    v.push(a.to_string());
    assert(strs(v@) =~= seq![a@]);
    v
}

fn three(a: &str, b: &str, c: &str) -> (v: Vec<String>)
    ensures
        strs(v@) == seq![a@, b@, c@],
{
    let mut v = Vec::new();
    v.push(a.to_string());
    v.push(b.to_string());
    v.push(c.to_string());
    assert(strs(v@) =~= seq![a@, b@, c@]);
    v
}

fn four(a: &str, b: &str, c: &str, d: &str) -> (v: Vec<String>)
    ensures
        strs(v@) == seq![a@, b@, c@, d@],
{
    let mut v = Vec::new();
    v.push(a.to_string());
    v.push(b.to_string());
    v.push(c.to_string());
    v.push(d.to_string());
    assert(strs(v@) =~= seq![a@, b@, c@, d@]);
    v
}

fn five(a: &str, b: &str, c: &str, d: &str, e: &str) -> (v: Vec<String>)
    ensures
        strs(v@) == seq![a@, b@, c@, d@, e@],
{
    let mut v = Vec::new();
    v.push(a.to_string());
    v.push(b.to_string());
    v.push(c.to_string());
    v.push(d.to_string());
    v.push(e.to_string());
    assert(strs(v@) =~= seq![a@, b@, c@, d@, e@]);
    v
}

fn no_logs() -> (v: Vec<String>)
    ensures
        strs(v@) == Seq::<Seq<char>>::empty(),
{
    let v = Vec::new();
    assert(strs(v@) =~= Seq::<Seq<char>>::empty());
    v
}

fn done(r: Result<(), String>) -> (s: InstallStep)
    ensures
        s.effect == InstallEffect::Done(r),
        s.next is Finished,
        strs(s.logs@) == Seq::<Seq<char>>::empty(),
{
    InstallStep { logs: no_logs(), effect: InstallEffect::Done(r), next: InstallState::Finished }
}

fn fail(msg: &str) -> (s: InstallStep)
    ensures
        fails_with(s.effect, msg@),
        s.next is Finished,
        strs(s.logs@) == Seq::<Seq<char>>::empty(),
{
    done(Err(msg.to_string()))
}

fn succeed_with(msg: &str) -> (s: InstallStep)
    ensures
        succeeds(s.effect),
        s.next is Finished,
        strs(s.logs@) == seq![msg@],
{
    InstallStep { logs: one(msg), effect: InstallEffect::Done(Ok(())), next: InstallState::Finished }
}

/// The PowerShell command that downloads the Windows installer to `path`.
pub open spec fn win_download_command(path: Seq<char>) -> Seq<char> {
    "Invoke-WebRequest -Uri '"@ + WIN_INSTALLER_URL@ + "' -OutFile '"@ + path + "'"@
}

/// The step that downloads the macOS disk image, after the given messages.
fn mac_download(first: Option<&str>) -> (s: InstallStep)
    ensures
        runs(s.effect, "curl"@, seq!["-L"@, "-o"@, MAC_DMG_PATH@, MAC_DMG_URL@]),
        s.next is Downloading,
        first matches Some(m) ==> logs_are(s, seq![m@, MSG_MAC_DOWNLOADING@]),
        first is None ==> logs_are(s, seq![MSG_MAC_DOWNLOADING@]),
{
    let mut logs: Vec<String> = Vec::new();
    match first {
        Some(m) => logs.push(m.to_string()),
        None => {},
    }
    let ghost before = logs@;
    logs.push(MSG_MAC_DOWNLOADING.to_string());
    match first {
        Some(m) => {
            assert(strs(logs@) =~= seq![m@, MSG_MAC_DOWNLOADING@]);
        },
        None => {
            assert(strs(logs@) =~= seq![MSG_MAC_DOWNLOADING@]);
        },
    }
    InstallStep {
        logs,
        effect: InstallEffect::Run { program: "curl".to_string(), args: four("-L", "-o", MAC_DMG_PATH, MAC_DMG_URL) },
        next: InstallState::Downloading,
    }
}

/// The step that asks whether Flatpak is available, after the given messages.
fn probe_flatpak(first: Option<&str>) -> (s: InstallStep)
    ensures
        probes(s.effect, "which"@, seq!["flatpak"@]),
        s.next is CheckingFlatpak,
        first matches Some(m) ==> logs_are(s, seq![m@]),
        first is None ==> logs_are(s, Seq::empty()),
{
    let logs = match first {
        Some(m) => one(m),
        None => no_logs(),
    };
    InstallStep {
        logs,
        effect: InstallEffect::Probe { program: "which".to_string(), args: one("flatpak") },
        next: InstallState::CheckingFlatpak,
    }
}

/// The position of the first entry with extension `app`.
fn find_app(entries: &Vec<DirEntryInfo>) -> (r: Option<usize>)
    ensures
        match r {
            Some(i) => first_app(entries@, 0) == Some(i as int) && i < entries@.len(),
            None => first_app(entries@, 0) is None,
        },
{
    let mut i: usize = 0;
    while i < entries.len()
        invariant
            i <= entries@.len(),
            first_app(entries@, 0) == first_app(entries@, i as int),
        decreases entries@.len() - i,
    {
        match &entries[i].extension {
            Some(x) => {
                if crate::text::chars_eq(&crate::text::to_chars(x.as_str()), &crate::text::to_chars("app")) {
                    return Some(i);
                }
            },
            None => {},
        }
        i = i + 1;
    }
    None
}

/// The state waits for whether OBS is installed, with this platform and installer path.
pub open spec fn is_checking_installed(s: InstallState, platform: Platform, path: Seq<char>) -> bool {
    s matches InstallState::CheckingInstalled { platform: p, installer_path: i } && p == platform && i@ == path
}

/// The state waits for the Windows installer to download to `path`.
pub open spec fn is_win_downloading(s: InstallState, path: Seq<char>) -> bool {
    s matches InstallState::WinDownloading { installer_path: i } && i@ == path
}

/// The state waits for the Windows installer at `path` to run.
pub open spec fn is_win_installing(s: InstallState, path: Seq<char>) -> bool {
    s matches InstallState::WinInstalling { installer_path: i } && i@ == path
}

/// The state waits for the listing of the volume mounted at `mount`.
pub open spec fn is_finding_app(s: InstallState, mount: Seq<char>) -> bool {
    s matches InstallState::FindingApp { mount_point: m } && m@ == mount
}

/// The state waits for OBS.app to be copied out of the volume mounted at `mount`.
pub open spec fn is_copying(s: InstallState, mount: Seq<char>) -> bool {
    s matches InstallState::Copying { mount_point: m } && m@ == mount
}

/// The effect lists the directory.
pub open spec fn lists(e: InstallEffect, dir: Seq<char>) -> bool {
    e matches InstallEffect::ListDir { dir: d } && d@ == dir
}

/// The effect removes the file.
pub open spec fn removes(e: InstallEffect, path: Seq<char>) -> bool {
    e matches InstallEffect::RemoveFile { path: p } && p@ == path
}

/// Decides the next step of the OBS installation from where it stands and what the
/// last effect brought. OBS already installed ends it at once. On macOS Homebrew is
/// tried first, then the disk image is downloaded, attached, OBS.app copied to
/// /Applications, the image detached and removed. On Windows the installer is
/// downloaded, run silently and removed. On Linux apt-get is tried, then Flatpak.
/// A command that cannot be started ends the installation with its error.
pub fn install_step(state: InstallState, event: InstallEvent) -> (step: InstallStep)
    requires
        event_fits(state, event),
    ensures
        steps_left(step.next) < steps_left(state),
        step.effect is Done <==> step.next is Finished,
        awaits(step.next, step.effect),
        succeeds(step.effect) ==> {
            ||| event == InstallEvent::ObsInstalled(true)
            ||| (event == InstallEvent::Exited(Ok(true)) && (state is BrewInstalling
                || state is AptInstalling || state is FlatpakInstalling))
            ||| state == (InstallState::RemovingImage { copied: true })
            ||| state == (InstallState::WinRemoving { installed: true })
        },
        state is Start ==> step.effect is CheckObsInstalled && logs_are(step, Seq::empty())
            && is_checking_installed(step.next, state->Start_platform, state->Start_installer_path@),
        state is CheckingInstalled && event == InstallEvent::ObsInstalled(true) ==> succeeds(step.effect)
            && logs_are(step, seq![MSG_ALREADY_INSTALLED@]),
        is_checking_installed(state, Platform::MacOs, state->CheckingInstalled_installer_path@) && event
            == InstallEvent::ObsInstalled(false) ==> probes(step.effect, "brew"@, seq!["--version"@])
            && step.next is CheckingBrew && logs_are(step, Seq::empty()),
        is_checking_installed(state, Platform::Windows, state->CheckingInstalled_installer_path@) && event
            == InstallEvent::ObsInstalled(false) ==> runs(
            step.effect,
            "powershell"@,
            seq!["-NoProfile"@, "-Command"@, win_download_command(state->CheckingInstalled_installer_path@)],
        ) && logs_are(step, seq![MSG_WIN_DOWNLOADING@]) && is_win_downloading(
            step.next,
            state->CheckingInstalled_installer_path@,
        ),
        is_checking_installed(state, Platform::Linux, state->CheckingInstalled_installer_path@) && event
            == InstallEvent::ObsInstalled(false) ==> probes(step.effect, "which"@, seq!["apt-get"@])
            && step.next is CheckingApt && logs_are(step, Seq::empty()),
        state is CheckingBrew && event == InstallEvent::Probed(true) ==> runs(
            step.effect,
            "brew"@,
            seq!["install"@, "--cask"@, "obs"@],
        ) && step.next is BrewInstalling && logs_are(step, seq![MSG_BREW_INSTALLING@]),
        state is CheckingBrew && event == InstallEvent::Probed(false) ==> runs(
            step.effect,
            "curl"@,
            seq!["-L"@, "-o"@, MAC_DMG_PATH@, MAC_DMG_URL@],
        ) && step.next is Downloading && logs_are(step, seq![MSG_MAC_DOWNLOADING@]),
        state is BrewInstalling && event == InstallEvent::Exited(Ok(true)) ==> succeeds(step.effect)
            && logs_are(step, seq![MSG_BREW_DONE@]),
        state is BrewInstalling && event == InstallEvent::Exited(Ok(false)) ==> runs(
            step.effect,
            "curl"@,
            seq!["-L"@, "-o"@, MAC_DMG_PATH@, MAC_DMG_URL@],
        ) && step.next is Downloading && logs_are(step, seq![MSG_BREW_FAILED@, MSG_MAC_DOWNLOADING@]),
        state is Downloading && event == InstallEvent::Exited(Ok(false)) ==> fails_with(
            step.effect,
            MSG_MAC_DOWNLOAD_FAILED@,
        ) && logs_are(step, Seq::empty()),
        state is Downloading && event == InstallEvent::Exited(Ok(true)) ==> captures(
            step.effect,
            "hdiutil"@,
            seq!["attach"@, MAC_DMG_PATH@, "-nobrowse"@],
        ) && step.next is Attaching && logs_are(step, seq![MSG_MOUNTING@]),
        event matches InstallEvent::Captured(Ok((false, _))) ==> (state is Attaching ==> fails_with(
            step.effect,
            MSG_MOUNT_FAILED@,
        ) && logs_are(step, Seq::empty())),
        event matches InstallEvent::Captured(Ok((true, out))) ==> (state is Attaching ==> logs_are(
            step,
            Seq::empty(),
        ) && match dmg_mount_point(out@) {
            None => fails_with(step.effect, MSG_NO_VOLUME@),
            Some(m) => lists(step.effect, m) && is_finding_app(step.next, m),
        }),
        event matches InstallEvent::Listed(Ok(entries)) ==> (state is FindingApp ==> match first_app(
            entries@,
            0,
        ) {
            None => fails_with(step.effect, MSG_NO_APP@) && logs_are(step, Seq::empty()),
            Some(i) => runs(step.effect, "cp"@, seq!["-R"@, entries@[i].path@, MAC_APP_TARGET@])
                && logs_are(step, seq![MSG_COPYING@]) && is_copying(
                step.next,
                state->FindingApp_mount_point@,
            ),
        }),
        event matches InstallEvent::Exited(Ok(ok)) ==> (state is Copying ==> runs_ignored(
            step.effect,
            "hdiutil"@,
            seq!["detach"@, state->Copying_mount_point@, "-quiet"@],
        ) && step.next == (InstallState::Detaching { copied: ok }) && logs_are(step, Seq::empty())),
        state is Detaching ==> removes(step.effect, MAC_DMG_PATH@) && step.next
            == (InstallState::RemovingImage { copied: state->Detaching_copied }) && logs_are(
            step,
            Seq::empty(),
        ),
        state == (InstallState::RemovingImage { copied: true }) ==> succeeds(step.effect) && logs_are(
            step,
            seq![MSG_INSTALLED@],
        ),
        state == (InstallState::RemovingImage { copied: false }) ==> fails_with(
            step.effect,
            MSG_COPY_FAILED@,
        ) && logs_are(step, Seq::empty()),
        state is WinDownloading && event == InstallEvent::Exited(Ok(false)) ==> fails_with(
            step.effect,
            MSG_WIN_DOWNLOAD_FAILED@,
        ) && logs_are(step, Seq::empty()),
        state is WinDownloading && event == InstallEvent::Exited(Ok(true)) ==> runs(
            step.effect,
            state->WinDownloading_installer_path@,
            seq!["/S"@],
        ) && logs_are(step, seq![MSG_WIN_INSTALLING@]) && is_win_installing(
            step.next,
            state->WinDownloading_installer_path@,
        ),
        event matches InstallEvent::Exited(Ok(ok)) ==> (state is WinInstalling ==> removes(
            step.effect,
            state->WinInstalling_installer_path@,
        ) && step.next == (InstallState::WinRemoving { installed: ok }) && logs_are(
            step,
            Seq::empty(),
        )),
        state == (InstallState::WinRemoving { installed: true }) ==> succeeds(step.effect) && logs_are(
            step,
            seq![MSG_INSTALLED@],
        ),
        state == (InstallState::WinRemoving { installed: false }) ==> fails_with(
            step.effect,
            MSG_WIN_INSTALL_FAILED@,
        ) && logs_are(step, Seq::empty()),
        state is CheckingApt && event == InstallEvent::Probed(true) ==> runs(
            step.effect,
            "pkexec"@,
            seq!["apt-get"@, "install"@, "-y"@, "obs-studio"@],
        ) && step.next is AptInstalling && logs_are(step, seq![MSG_APT_INSTALLING@]),
        state is CheckingApt && event == InstallEvent::Probed(false) ==> probes(
            step.effect,
            "which"@,
            seq!["flatpak"@],
        ) && step.next is CheckingFlatpak && logs_are(step, Seq::empty()),
        state is AptInstalling && event == InstallEvent::Exited(Ok(true)) ==> succeeds(step.effect)
            && logs_are(step, seq![MSG_INSTALLED@]),
        state is AptInstalling && event == InstallEvent::Exited(Ok(false)) ==> probes(
            step.effect,
            "which"@,
            seq!["flatpak"@],
        ) && step.next is CheckingFlatpak && logs_are(step, seq![MSG_APT_FAILED@]),
        state is CheckingFlatpak && event == InstallEvent::Probed(true) ==> runs(
            step.effect,
            "flatpak"@,
            seq!["install"@, "--noninteractive"@, "-y"@, "flathub"@, "com.obsproject.Studio"@],
        ) && step.next is FlatpakInstalling && logs_are(step, seq![MSG_FLATPAK_INSTALLING@]),
        state is CheckingFlatpak && event == InstallEvent::Probed(false) ==> fails_with(
            step.effect,
            MSG_LINUX_MANUAL@,
        ) && logs_are(step, Seq::empty()),
        state is FlatpakInstalling && event == InstallEvent::Exited(Ok(true)) ==> succeeds(step.effect)
            && logs_are(step, seq![MSG_FLATPAK_DONE@]),
        state is FlatpakInstalling && event == InstallEvent::Exited(Ok(false)) ==> fails_with(
            step.effect,
            MSG_LINUX_MANUAL@,
        ) && logs_are(step, Seq::empty()),
        event matches InstallEvent::Exited(Err(e)) ==> fails_with(step.effect, e@) && logs_are(
            step,
            Seq::empty(),
        ),
        event matches InstallEvent::Captured(Err(e)) ==> fails_with(step.effect, e@) && logs_are(
            step,
            Seq::empty(),
        ),
        event matches InstallEvent::Listed(Err(e)) ==> fails_with(step.effect, e@) && logs_are(
            step,
            Seq::empty(),
        ),
{
    match state {
        InstallState::Start { platform, installer_path } => InstallStep {
            logs: no_logs(),
            effect: InstallEffect::CheckObsInstalled,
            next: InstallState::CheckingInstalled { platform, installer_path },
        },
        InstallState::CheckingInstalled { platform, installer_path } => {
            let installed = match event {
                InstallEvent::ObsInstalled(b) => b,
                _ => false,
            };
            if installed {
                return succeed_with(MSG_ALREADY_INSTALLED);
            }
            match platform {
                Platform::MacOs => InstallStep {
                    logs: no_logs(),
                    effect: InstallEffect::Probe { program: "brew".to_string(), args: one("--version") },
                    next: InstallState::CheckingBrew,
                },
                Platform::Windows => {
                    let cmd = "Invoke-WebRequest -Uri '".to_string().concat(WIN_INSTALLER_URL).concat(
                        "' -OutFile '",
                    ).concat(installer_path.as_str()).concat("'");
                    let mut args = Vec::new();
                    args.push("-NoProfile".to_string());
                    args.push("-Command".to_string());
                    args.push(cmd);
                    assert(strs(args@) =~= seq!["-NoProfile"@, "-Command"@, win_download_command(installer_path@)]);
                    InstallStep {
                        logs: one(MSG_WIN_DOWNLOADING),
                        effect: InstallEffect::Run { program: "powershell".to_string(), args },
                        next: InstallState::WinDownloading { installer_path },
                    }
                },
                Platform::Linux => InstallStep {
                    logs: no_logs(),
                    effect: InstallEffect::Probe { program: "which".to_string(), args: one("apt-get") },
                    next: InstallState::CheckingApt,
                },
            }
        },
        InstallState::CheckingBrew => {
            if let InstallEvent::Probed(true) = event {
                InstallStep {
                    logs: one(MSG_BREW_INSTALLING),
                    effect: InstallEffect::Run {
                        program: "brew".to_string(),
                        args: three("install", "--cask", "obs"),
                    },
                    next: InstallState::BrewInstalling,
                }
            } else {
                mac_download(None)
            }
        },
        InstallState::BrewInstalling => match event {
            InstallEvent::Exited(Err(e)) => done(Err(e)),
            InstallEvent::Exited(Ok(true)) => succeed_with(MSG_BREW_DONE),
            _ => mac_download(Some(MSG_BREW_FAILED)),
        },
        InstallState::Downloading => match event {
            InstallEvent::Exited(Err(e)) => done(Err(e)),
            InstallEvent::Exited(Ok(true)) => InstallStep {
                logs: one(MSG_MOUNTING),
                effect: InstallEffect::Capture {
                    program: "hdiutil".to_string(),
                    args: three("attach", MAC_DMG_PATH, "-nobrowse"),
                },
                next: InstallState::Attaching,
            },
            _ => fail(MSG_MAC_DOWNLOAD_FAILED),
        },
        InstallState::Attaching => match event {
            InstallEvent::Captured(Err(e)) => done(Err(e)),
            InstallEvent::Captured(Ok((true, out))) => match mount_point_from_hdiutil(out.as_str()) {
                Some(m) => InstallStep {
                    logs: no_logs(),
                    effect: InstallEffect::ListDir { dir: m.clone() },
                    next: InstallState::FindingApp { mount_point: m },
                },
                None => fail(MSG_NO_VOLUME),
            },
            _ => fail(MSG_MOUNT_FAILED),
        },
        InstallState::FindingApp { mount_point } => match event {
            InstallEvent::Listed(Ok(entries)) => match find_app(&entries) {
                Some(i) => {
                    let src = entries[i].path.clone();
                    let mut args = Vec::new();
                    args.push("-R".to_string());
                    args.push(src);
                    args.push(MAC_APP_TARGET.to_string());
                    assert(strs(args@) =~= seq!["-R"@, entries@[i as int].path@, MAC_APP_TARGET@]);
                    InstallStep {
                        logs: one(MSG_COPYING),
                        effect: InstallEffect::Run { program: "cp".to_string(), args },
                        next: InstallState::Copying { mount_point },
                    }
                },
                None => fail(MSG_NO_APP),
            },
            InstallEvent::Listed(Err(e)) => done(Err(e)),
            _ => fail(MSG_NO_APP),
        },
        InstallState::Copying { mount_point } => match event {
            InstallEvent::Exited(Ok(ok)) => InstallStep {
                logs: no_logs(),
                effect: InstallEffect::RunIgnored {
                    program: "hdiutil".to_string(),
                    args: three("detach", mount_point.as_str(), "-quiet"),
                },
                next: InstallState::Detaching { copied: ok },
            },
            InstallEvent::Exited(Err(e)) => done(Err(e)),
            _ => fail(MSG_COPY_FAILED),
        },
        InstallState::Detaching { copied } => InstallStep {
            logs: no_logs(),
            effect: InstallEffect::RemoveFile { path: MAC_DMG_PATH.to_string() },
            next: InstallState::RemovingImage { copied },
        },
        InstallState::RemovingImage { copied } => {
            if copied {
                succeed_with(MSG_INSTALLED)
            } else {
                fail(MSG_COPY_FAILED)
            }
        },
        InstallState::WinDownloading { installer_path } => match event {
            InstallEvent::Exited(Err(e)) => done(Err(e)),
            InstallEvent::Exited(Ok(true)) => InstallStep {
                logs: one(MSG_WIN_INSTALLING),
                effect: InstallEffect::Run { program: installer_path.clone(), args: one("/S") },
                next: InstallState::WinInstalling { installer_path },
            },
            _ => fail(MSG_WIN_DOWNLOAD_FAILED),
        },
        InstallState::WinInstalling { installer_path } => match event {
            InstallEvent::Exited(Ok(ok)) => InstallStep {
                logs: no_logs(),
                effect: InstallEffect::RemoveFile { path: installer_path },
                next: InstallState::WinRemoving { installed: ok },
            },
            InstallEvent::Exited(Err(e)) => done(Err(e)),
            _ => fail(MSG_WIN_INSTALL_FAILED),
        },
        InstallState::WinRemoving { installed } => {
            if installed {
                succeed_with(MSG_INSTALLED)
            } else {
                fail(MSG_WIN_INSTALL_FAILED)
            }
        },
        InstallState::CheckingApt => {
            if let InstallEvent::Probed(true) = event {
                InstallStep {
                    logs: one(MSG_APT_INSTALLING),
                    effect: InstallEffect::Run {
                        program: "pkexec".to_string(),
                        args: four("apt-get", "install", "-y", "obs-studio"),
                    },
                    next: InstallState::AptInstalling,
                }
            } else {
                probe_flatpak(None)
            }
        },
        InstallState::AptInstalling => match event {
            InstallEvent::Exited(Err(e)) => done(Err(e)),
            InstallEvent::Exited(Ok(true)) => succeed_with(MSG_INSTALLED),
            _ => probe_flatpak(Some(MSG_APT_FAILED)),
        },
        InstallState::CheckingFlatpak => {
            if let InstallEvent::Probed(true) = event {
                InstallStep {
                    logs: one(MSG_FLATPAK_INSTALLING),
                    effect: InstallEffect::Run {
                        program: "flatpak".to_string(),
                        args: five("install", "--noninteractive", "-y", "flathub", "com.obsproject.Studio"),
                    },
                    next: InstallState::FlatpakInstalling,
                }
            } else {
                fail(MSG_LINUX_MANUAL)
            }
        },
        InstallState::FlatpakInstalling => match event {
            InstallEvent::Exited(Err(e)) => done(Err(e)),
            InstallEvent::Exited(Ok(true)) => succeed_with(MSG_FLATPAK_DONE),
            _ => fail(MSG_LINUX_MANUAL),
        },
        InstallState::Finished => vstd::pervasive::unreached(),
    }
}

} // verus!
