//! Starting, stopping and reporting on the daemon process, and registering it
//! as a login-time service.

use vstd::prelude::*;
use crate::config::{alfred_dir, alfred_dir_of, join_path, joined, DaemonConfig};
use crate::text::{decimal, parse_u32, parsed_u32, to_decimal, trim, trimmed, views};

verus! {

/// Why a lifecycle command failed.
#[derive(Clone, Debug)]
pub enum LifecycleError {
    /// No daemon executable was found in any of the places searched.
    BinaryNotFound,
    /// There is no PID record.
    NoPidRecord,
    /// The PID record does not hold a process id.
    InvalidPid,
    /// This platform has no service support.
    Unsupported,
    /// The platform's service manager refused the service; its own words.
    ServiceManager(String),
}

pub open spec fn lifecycle_message(e: LifecycleError) -> Seq<char> {
    match e {
        LifecycleError::BinaryNotFound => BINARY_NOT_FOUND@,
        LifecycleError::NoPidRecord => "No PID file found"@,
        LifecycleError::InvalidPid => "Invalid PID"@,
        LifecycleError::Unsupported => UNSUPPORTED@,
        LifecycleError::ServiceManager(m) => m@,
    }
}

pub const BINARY_NOT_FOUND: &'static str = "Could not find alferd binary.
Make sure it's installed in the same directory as alfred or in your PATH.";

pub const UNSUPPORTED: &'static str = "Windows services are not yet supported.
Run 'alfred daemon start' manually for now.";

impl LifecycleError {
    /// The human-readable cause.
    pub fn message(&self) -> (r: String)
        ensures
            r@ == lifecycle_message(*self),
    {
        match self {
            LifecycleError::BinaryNotFound => String::from_str(BINARY_NOT_FOUND),
            LifecycleError::NoPidRecord => String::from_str("No PID file found"),
            LifecycleError::InvalidPid => String::from_str("Invalid PID"),
            LifecycleError::Unsupported => String::from_str(UNSUPPORTED),
            LifecycleError::ServiceManager(m) => m.clone(),
        }
    }
}

/// What `daemon start` does.
#[derive(PartialEq, Eq, Structural, Clone, Copy, Debug)]
pub enum StartPlan {
    /// A daemon already answers: report success and spawn nothing.
    AlreadyRunning,
    /// Launch the daemon executable in the background.
    Launch,
}

pub open spec fn start_plan(reachable: bool) -> StartPlan {
    if reachable {
        StartPlan::AlreadyRunning
    } else {
        StartPlan::Launch
    }
}

/// Decides what `daemon start` does, given whether a daemon answers.
pub fn start(reachable: bool) -> (r: StartPlan)
    ensures
        r == start_plan(reachable),
{
    if reachable {
        StartPlan::AlreadyRunning
    } else {
        StartPlan::Launch
    }
}

/// Two starts in a row while the daemon answers both report success and neither
/// spawns a process.
pub proof fn lemma_start_idempotent(first_probe: bool, second_probe: bool)
    requires
        first_probe,
        second_probe,
    ensures
        start_plan(first_probe) == StartPlan::AlreadyRunning,
        start_plan(second_probe) == StartPlan::AlreadyRunning,
{
}

/// Installed locations searched after the caller's directory and the search path.
pub open spec fn well_known_paths(home: Seq<char>) -> Seq<Seq<char>> {
    seq!["/usr/local/bin/alferd"@, "/usr/bin/alferd"@, joined(home, ".cargo/bin/alferd"@)]
}

/// The places to look for the daemon executable, best first: beside the calling
/// executable (in `exe_dir`), what a search of `PATH` printed (`path_lookup`,
/// trimmed, when not empty), then the well-known install locations.
pub open spec fn candidate_paths(
    exe_dir: Option<Seq<char>>,
    path_lookup: Option<Seq<char>>,
    home: Seq<char>,
) -> Seq<Seq<char>> {
    let first = match exe_dir {
        Some(d) => seq![joined(d, "alferd"@)],
        None => seq![],
    };
    let second = match path_lookup {
        Some(p) => if trimmed(p).len() > 0 {
            seq![trimmed(p)]
        } else {
            seq![]
        },
        None => seq![],
    };
    first + second + well_known_paths(home)
}

pub open spec fn opt_seq(o: Option<String>) -> Option<Seq<char>> {
    match o {
        Some(s) => Some(s@),
        None => None,
    }
}

/// Lists where to look for the daemon executable, in order.
pub fn daemon_binary_candidates(
    exe_dir: &Option<String>,
    path_lookup: &Option<String>,
    home: &str,
) -> (r: Vec<String>)
    ensures
        views(r@) == candidate_paths(opt_seq(*exe_dir), opt_seq(*path_lookup), home@),
{
    let mut out: Vec<String> = Vec::new();
    let ghost first: Seq<Seq<char>> = seq![];
    match exe_dir {
        Some(d) => {
            let c = join_path(d.as_str(), "alferd");
            out.push(c);
            proof {
                first = seq![c@];
            }
        },
        None => {},
    }
    assert(views(out@) =~= first);
    let ghost second: Seq<Seq<char>> = seq![];
    match path_lookup {
        Some(p) => {
            let t = trim(p.as_str());
            if t.unicode_len() > 0 {
                proof {
                    second = seq![t@];
                }
                out.push(t);
            }
        },
        None => {},
    }
    assert(views(out@) =~= first + second);
    let a = String::from_str("/usr/local/bin/alferd");
    let b = String::from_str("/usr/bin/alferd");
    let c = join_path(home, ".cargo/bin/alferd");
    out.push(a);
    out.push(b);
    out.push(c);
    assert(views(out@) =~= first + second + well_known_paths(home@));
    out
}

/// The first candidate that is present; `present[i]` says whether `candidates[i]` exists.
pub open spec fn first_present(candidates: Seq<Seq<char>>, present: Seq<bool>) -> Option<Seq<char>>
    decreases candidates.len(),
{
    if candidates.len() == 0 || present.len() == 0 {
        None
    } else if present[0] {
        Some(candidates[0])
    } else {
        first_present(candidates.drop_first(), present.drop_first())
    }
}

/// Picks the daemon executable: the first candidate that exists.
pub fn find_alferd_binary(candidates: &Vec<String>, present: &Vec<bool>) -> (r: Result<
    String,
    LifecycleError,
>)
    ensures
        match first_present(views(candidates@), present@) {
            Some(p) => r is Ok && r.unwrap()@ == p,
            None => r matches Err(LifecycleError::BinaryNotFound),
        },
{
    let n = if candidates.len() < present.len() {
        candidates.len()
    } else {
        present.len()
    };
    let mut i: usize = 0;
    assert(views(candidates@).subrange(0, candidates@.len() as int) =~= views(candidates@));
    assert(present@.subrange(0, present@.len() as int) =~= present@);
    while i < n
        invariant
            n <= candidates@.len(),
            n <= present@.len(),
            n == candidates@.len() || n == present@.len(),
            i <= n,
            first_present(views(candidates@), present@) == first_present(
                views(candidates@).subrange(i as int, candidates@.len() as int),
                present@.subrange(i as int, present@.len() as int),
            ),
        decreases n - i,
    {
        let ghost c = views(candidates@).subrange(i as int, candidates@.len() as int);
        let ghost p = present@.subrange(i as int, present@.len() as int);
        assert(c[0] == candidates@[i as int]@);
        if present[i] {
            return Ok(candidates[i].clone());
        }
        assert(c.drop_first() =~= views(candidates@).subrange(i + 1, candidates@.len() as int));
        assert(p.drop_first() =~= present@.subrange(i + 1, present@.len() as int));
        i += 1;
    }
    Err(LifecycleError::BinaryNotFound)
}

/// The process id a PID record holds: its text, trimmed, read as a decimal number.
pub open spec fn pid_of(record: Option<Seq<char>>) -> Option<u32> {
    match record {
        Some(t) => parsed_u32(trimmed(t)),
        None => None,
    }
}

/// Reads the process id out of the PID record's text (`None` when there is no record).
pub fn read_pid(record: &Option<String>) -> (r: Result<u32, LifecycleError>)
    ensures
        match record {
            None => r matches Err(LifecycleError::NoPidRecord),
            Some(t) => match parsed_u32(trimmed(t@)) {
                Some(p) => r == Ok::<u32, LifecycleError>(p),
                None => r matches Err(LifecycleError::InvalidPid),
            },
        },
{
    match record {
        None => Err(LifecycleError::NoPidRecord),
        Some(t) => match parse_u32(trim(t.as_str()).as_str()) {
            Some(p) => Ok(p),
            None => Err(LifecycleError::InvalidPid),
        },
    }
}

/// A PID record written by `pid_record` reads back as the same process id.
pub proof fn lemma_pid_record_round_trip(pid: u32)
    ensures
        pid_of(Some(decimal(pid as nat))) == Some(pid),
{
    let d = decimal(pid as nat);
    crate::text::lemma_decimal_reads_back(pid as nat);
    assert(crate::text::is_digit(d[0]));
    assert(crate::text::is_digit(d[d.len() - 1]));
    crate::text::lemma_trim_keeps_digits(d);
    assert(crate::text::unsigned_digits(d) == d);
}

/// The text the daemon writes into its PID record.
pub fn pid_record(pid: u32) -> (r: String)
    ensures
        r@ == decimal(pid as nat),
{
    to_decimal(pid as u64)
}

/// How a successful `daemon stop` ended.
#[derive(PartialEq, Eq, Structural, Clone, Copy, Debug)]
pub enum StopOutcome {
    /// No daemon answered; there was nothing to stop.
    AlreadyStopped,
    /// The daemon was asked or forced to stop.
    Stopped,
}

/// Where `daemon stop` stands.
#[derive(Debug)]
pub enum StopPhase {
    /// Finding out whether a daemon answers.
    Probing,
    /// A `shutdown` request is on its way.
    ShuttingDown,
    /// Reading the PID record after the daemon did not acknowledge.
    ReadingPid,
    /// A termination signal is on its way to the recorded process.
    Signalling,
    /// Removing the PID record; the result to report afterwards.
    Cleaning(Result<StopOutcome, LifecycleError>),
    Done,
}

/// What the caller observed after the last action.
#[derive(Debug)]
pub enum StopEvent {
    Probed { reachable: bool },
    Acknowledged(bool),
    PidRead(Result<u32, LifecycleError>),
    Signalled,
    Cleaned,
}

/// What the caller does next.
#[derive(Debug)]
pub enum StopAction {
    SendShutdown,
    ReadPid,
    Signal(u32),
    RemovePid,
    Finish(Result<StopOutcome, LifecycleError>),
}

/// Whether `event` answers the action that led to `phase`.
pub open spec fn event_fits(phase: StopPhase, event: StopEvent) -> bool {
    match phase {
        StopPhase::Probing => event is Probed,
        StopPhase::ShuttingDown => event is Acknowledged,
        StopPhase::ReadingPid => event is PidRead,
        StopPhase::Signalling => event is Signalled,
        StopPhase::Cleaning(_) => event is Cleaned,
        StopPhase::Done => false,
    }
}

/// One step of `daemon stop`. A daemon that does not answer is already stopped.
/// One that answers is sent `shutdown`; if that is not acknowledged, the process
/// named by the PID record is signalled. The PID record is removed on every path
/// that reached a daemon, also when it could not be read.
pub open spec fn stop_step(phase: StopPhase, event: StopEvent) -> (StopPhase, StopAction) {
    match (phase, event) {
        (StopPhase::Probing, StopEvent::Probed { reachable }) => if reachable {
            (StopPhase::ShuttingDown, StopAction::SendShutdown)
        } else {
            (StopPhase::Done, StopAction::Finish(Ok(StopOutcome::AlreadyStopped)))
        },
        (StopPhase::ShuttingDown, StopEvent::Acknowledged(ack)) => if ack {
            (StopPhase::Cleaning(Ok(StopOutcome::Stopped)), StopAction::RemovePid)
        } else {
            (StopPhase::ReadingPid, StopAction::ReadPid)
        },
        (StopPhase::ReadingPid, StopEvent::PidRead(res)) => match res {
            Ok(pid) => (StopPhase::Signalling, StopAction::Signal(pid)),
            Err(e) => (StopPhase::Cleaning(Err(e)), StopAction::RemovePid),
        },
        (StopPhase::Signalling, StopEvent::Signalled) => (
            StopPhase::Cleaning(Ok(StopOutcome::Stopped)),
            StopAction::RemovePid,
        ),
        (StopPhase::Cleaning(res), StopEvent::Cleaned) => (StopPhase::Done, StopAction::Finish(res)),
        _ => (StopPhase::Done, StopAction::Finish(Ok(StopOutcome::Stopped))),
    }
}

/// Advances `daemon stop` from `phase` by what was observed; starts at `Probing`.
pub fn stop(phase: StopPhase, event: StopEvent) -> (r: (StopPhase, StopAction))
    requires
        event_fits(phase, event),
    ensures
        r == stop_step(phase, event),
{
    match (phase, event) {
        (StopPhase::Probing, StopEvent::Probed { reachable }) => if reachable {
            (StopPhase::ShuttingDown, StopAction::SendShutdown)
        } else {
            (StopPhase::Done, StopAction::Finish(Ok(StopOutcome::AlreadyStopped)))
        },
        (StopPhase::ShuttingDown, StopEvent::Acknowledged(ack)) => if ack {
            (StopPhase::Cleaning(Ok(StopOutcome::Stopped)), StopAction::RemovePid)
        } else {
            (StopPhase::ReadingPid, StopAction::ReadPid)
        },
        (StopPhase::ReadingPid, StopEvent::PidRead(res)) => match res {
            Ok(pid) => (StopPhase::Signalling, StopAction::Signal(pid)),
            Err(e) => (StopPhase::Cleaning(Err(e)), StopAction::RemovePid),
        },
        (StopPhase::Signalling, StopEvent::Signalled) => (
            StopPhase::Cleaning(Ok(StopOutcome::Stopped)),
            StopAction::RemovePid,
        ),
        (StopPhase::Cleaning(res), StopEvent::Cleaned) => (StopPhase::Done, StopAction::Finish(res)),
        _ => (StopPhase::Done, StopAction::Finish(Ok(StopOutcome::Stopped))),
    }
}

/// `daemon stop` on a daemon that does not answer reports it already stopped, with
/// no error. On one that answers it first sends `shutdown`; an acknowledged shutdown,
/// and a signal to the recorded process otherwise, both end in `Stopped` once the
/// PID record is removed.
pub proof fn lemma_stop_outcomes(pid: u32)
    ensures
        stop_step(StopPhase::Probing, StopEvent::Probed { reachable: false }) == (
            StopPhase::Done,
            StopAction::Finish(Ok(StopOutcome::AlreadyStopped)),
        ),
        stop_step(StopPhase::Probing, StopEvent::Probed { reachable: true }).1
            == StopAction::SendShutdown,
        ({
            let s1 = stop_step(StopPhase::Probing, StopEvent::Probed { reachable: true }).0;
            let s2 = stop_step(s1, StopEvent::Acknowledged(true));
            &&& s2.1 == StopAction::RemovePid
            &&& stop_step(s2.0, StopEvent::Cleaned).1 == StopAction::Finish(
                Ok(StopOutcome::Stopped),
            )
        }),
        ({
            let s1 = stop_step(StopPhase::Probing, StopEvent::Probed { reachable: true }).0;
            let s2 = stop_step(s1, StopEvent::Acknowledged(false));
            let s3 = stop_step(s2.0, StopEvent::PidRead(Ok(pid)));
            let s4 = stop_step(s3.0, StopEvent::Signalled);
            &&& s2.1 == StopAction::ReadPid
            &&& s3.1 == StopAction::Signal(pid)
            &&& s4.1 == StopAction::RemovePid
            &&& stop_step(s4.0, StopEvent::Cleaned).1 == StopAction::Finish(
                Ok(StopOutcome::Stopped),
            )
        }),
{
}

/// The idle timeout as `daemon status` shows it.
pub open spec fn idle_timeout_text(minutes: u32) -> Seq<char> {
    if minutes > 0 {
        decimal(minutes as nat) + " minutes"@
    } else {
        "disabled"@
    }
}

/// What `daemon status` reports: three facts found independently, and the
/// configured port and idle timeout.
#[derive(Clone, Debug)]
pub struct StatusReport {
    pub running: bool,
    /// The recorded process id, shown only while a daemon answers.
    pub pid: Option<u32>,
    pub port: u16,
    pub idle_timeout: String,
    pub service_installed: bool,
}

/// Gathers the report of `daemon status`.
pub fn status(reachable: bool, pid: Option<u32>, config: &DaemonConfig, service_installed: bool) -> (r:
    StatusReport)
    ensures
        r.running == reachable,
        r.pid == (if reachable {
            pid
        } else {
            None
        }),
        r.port == config.port,
        r.idle_timeout@ == idle_timeout_text(config.idle_timeout_minutes),
        r.service_installed == service_installed,
{
    let idle_timeout = if config.idle_timeout_minutes > 0 {
        let mut t = to_decimal(config.idle_timeout_minutes as u64);
        t.append(" minutes");
        t
    } else {
        String::from_str("disabled")
    };
    StatusReport {
        running: reachable,
        pid: if reachable {
            pid
        } else {
            None
        },
        port: config.port,
        idle_timeout,
        service_installed,
    }
}

/// The operating systems a service can be registered on.
#[derive(PartialEq, Eq, Structural, Clone, Copy, Debug)]
pub enum Platform {
    /// A launch agent of launchd.
    MacOs,
    /// A user unit of systemd.
    Linux,
    /// No service support.
    Windows,
}

pub open spec fn descriptor_path_of(platform: Platform, home: Seq<char>) -> Option<Seq<char>> {
    match platform {
        Platform::MacOs => Some(joined(home, "Library/LaunchAgents/com.alfred.daemon.plist"@)),
        Platform::Linux => Some(joined(home, ".config/systemd/user/alfred.service"@)),
        Platform::Windows => None,
    }
}

/// Where the service descriptor of `platform` lives.
pub fn service_descriptor_path(platform: Platform, home: &str) -> (r: Option<String>)
    ensures
        opt_seq(r) == descriptor_path_of(platform, home@),
{
    match platform {
        Platform::MacOs => Some(join_path(home, "Library/LaunchAgents/com.alfred.daemon.plist")),
        Platform::Linux => Some(join_path(home, ".config/systemd/user/alfred.service")),
        Platform::Windows => None,
    }
}

/// Whether the service is installed, given whether its descriptor file exists.
pub fn is_service_installed(platform: Platform, descriptor_exists: bool) -> (r: bool)
    ensures
        r == (platform != Platform::Windows && descriptor_exists),
{
    match platform {
        Platform::Windows => false,
        _ => descriptor_exists,
    }
}

pub const PLIST_HEAD: &'static str = "<?xml version=\"1.0\" encoding=\"UTF-8\"?>
<!DOCTYPE plist PUBLIC \"-//Apple//DTD PLIST 1.0//EN\" \"http://www.apple.com/DTDs/PropertyList-1.0.dtd\">
<plist version=\"1.0\">
<dict>
    <key>Label</key>
    <string>com.alfred.daemon</string>
    <key>ProgramArguments</key>
    <array>
        <string>";

pub const PLIST_OUT: &'static str = "</string>
    </array>
    <key>RunAtLoad</key>
    <true/>
    <key>KeepAlive</key>
    <false/>
    <key>StandardOutPath</key>
    <string>";

pub const PLIST_ERR: &'static str = "/alferd.log</string>
    <key>StandardErrorPath</key>
    <string>";

pub const PLIST_TAIL: &'static str = "/alferd.error.log</string>
</dict>
</plist>
";

pub const UNIT_HEAD: &'static str = "[Unit]
Description=Alfred AI Daemon
After=network.target

[Service]
Type=simple
ExecStart=";

pub const UNIT_TAIL: &'static str = "
Restart=on-failure
RestartSec=5

[Install]
WantedBy=default.target
";

pub open spec fn plist_text(exec_path: Seq<char>, log_dir: Seq<char>) -> Seq<char> {
    PLIST_HEAD@ + exec_path + PLIST_OUT@ + log_dir + PLIST_ERR@ + log_dir + PLIST_TAIL@
}

/// The launch-agent descriptor that runs `exec_path` at login, logging into `log_dir`.
pub fn launchd_plist(exec_path: &str, log_dir: &str) -> (r: String)
    ensures
        r@ == plist_text(exec_path@, log_dir@),
{
    let mut t = String::from_str(PLIST_HEAD);
    t.append(exec_path);
    t.append(PLIST_OUT);
    t.append(log_dir);
    t.append(PLIST_ERR);
    t.append(log_dir);
    t.append(PLIST_TAIL);
    t
}

pub open spec fn unit_text(exec_path: Seq<char>) -> Seq<char> {
    UNIT_HEAD@ + exec_path + UNIT_TAIL@
}

/// The systemd user unit that runs `exec_path`.
pub fn systemd_unit(exec_path: &str) -> (r: String)
    ensures
        r@ == unit_text(exec_path@),
{
    let mut t = String::from_str(UNIT_HEAD);
    t.append(exec_path);
    t.append(UNIT_TAIL);
    t
}

/// Views of the words of each command.
pub open spec fn command_views(cmds: Seq<Vec<String>>) -> Seq<Seq<Seq<char>>> {
    cmds.map_values(|c: Vec<String>| views(c@))
}

fn push_word(v: &mut Vec<String>, w: &str)
    ensures
        views(final(v)@) == views(old(v)@).push(w@),
{
    let s = String::from_str(w);
    v.push(s);
    assert(views(v@) =~= views(old(v)@).push(w@));
}

fn push_command(cmds: &mut Vec<Vec<String>>, c: Vec<String>)
    ensures
        command_views(final(cmds)@) == command_views(old(cmds)@).push(views(c@)),
{
    let ghost cv = views(c@);
    cmds.push(c);
    assert(command_views(cmds@) =~= command_views(old(cmds)@).push(cv));
}

fn systemctl_user(a: &str, b: &str, c: &str, three: bool) -> (r: Vec<String>)
    ensures
        three ==> views(r@) == seq!["systemctl"@, "--user"@, a@, b@, c@],
        !three ==> views(r@) == seq!["systemctl"@, "--user"@, a@],
{
    let mut v: Vec<String> = Vec::new();
    push_word(&mut v, "systemctl");
    push_word(&mut v, "--user");
    push_word(&mut v, a);
    if three {
        push_word(&mut v, b);
        push_word(&mut v, c);
        assert(views(v@) =~= seq!["systemctl"@, "--user"@, a@, b@, c@]);
    } else {
        assert(views(v@) =~= seq!["systemctl"@, "--user"@, a@]);
    }
    v
}

fn launchctl(verb: &str, path: &str) -> (r: Vec<String>)
    ensures
        views(r@) == seq!["launchctl"@, verb@, "-w"@, path@],
{
    let mut v: Vec<String> = Vec::new();
    push_word(&mut v, "launchctl");
    push_word(&mut v, verb);
    push_word(&mut v, "-w");
    push_word(&mut v, path);
    assert(views(v@) =~= seq!["launchctl"@, verb@, "-w"@, path@]);
    v
}

/// How to register the service: write `content` to `descriptor_path`, run the
/// `prepare` commands whatever they report, then run `activate`, whose failure
/// fails the installation.
#[derive(Clone, Debug)]
pub struct InstallPlan {
    pub descriptor_path: String,
    pub content: String,
    pub prepare: Vec<Vec<String>>,
    pub activate: Vec<String>,
}

pub open spec fn plist_of(home: Seq<char>) -> Seq<char> {
    joined(home, "Library/LaunchAgents/com.alfred.daemon.plist"@)
}

pub open spec fn unit_of(home: Seq<char>) -> Seq<char> {
    joined(home, ".config/systemd/user/alfred.service"@)
}

/// Plans registering `exec_path` as a login-time service of `platform`.
pub fn install(platform: Platform, exec_path: &str, home: &str) -> (r: Result<
    InstallPlan,
    LifecycleError,
>)
    ensures
        platform == Platform::Windows <==> (r matches Err(LifecycleError::Unsupported)),
        platform == Platform::MacOs ==> (r matches Ok(p) && p.descriptor_path@ == plist_of(home@)
            && p.content@ == plist_text(exec_path@, alfred_dir_of(home@)) && p.prepare@.len() == 0
            && views(p.activate@) == seq!["launchctl"@, "load"@, "-w"@, plist_of(home@)]),
        platform == Platform::Linux ==> (r matches Ok(p) && p.descriptor_path@ == unit_of(home@)
            && p.content@ == unit_text(exec_path@) && command_views(p.prepare@) == seq![
            seq!["systemctl"@, "--user"@, "daemon-reload"@],
        ] && views(p.activate@) == seq![
            "systemctl"@,
            "--user"@,
            "enable"@,
            "--now"@,
            "alfred"@,
        ]),
{
    match platform {
        Platform::MacOs => {
            let path = join_path(home, "Library/LaunchAgents/com.alfred.daemon.plist");
            let content = launchd_plist(exec_path, alfred_dir(home).as_str());
            let activate = launchctl("load", path.as_str());
            Ok(InstallPlan { descriptor_path: path, content, prepare: Vec::new(), activate })
        },
        Platform::Linux => {
            let path = join_path(home, ".config/systemd/user/alfred.service");
            let content = systemd_unit(exec_path);
            let mut prepare: Vec<Vec<String>> = Vec::new();
            push_command(&mut prepare, systemctl_user("daemon-reload", "", "", false));
            let activate = systemctl_user("enable", "--now", "alfred", true);
            assert(command_views(prepare@) =~~= seq![
                seq!["systemctl"@, "--user"@, "daemon-reload"@],
            ]);
            Ok(InstallPlan { descriptor_path: path, content, prepare, activate })
        },
        Platform::Windows => Err(LifecycleError::Unsupported),
    }
}

pub open spec fn activation_prefix(platform: Platform) -> Seq<char> {
    match platform {
        Platform::MacOs => "Failed to load launchd service: "@,
        _ => "Failed to enable systemd service: "@,
    }
}

/// The outcome of the activating command of an installation on `platform`.
pub fn activation_result(platform: Platform, success: bool, stderr: &str) -> (r: Result<
    (),
    LifecycleError,
>)
    ensures
        success ==> r is Ok,
        !success ==> (r matches Err(LifecycleError::ServiceManager(e)) && e@ == activation_prefix(
            platform,
        ) + stderr@),
{
    if success {
        Ok(())
    } else {
        let mut m = match platform {
            Platform::MacOs => String::from_str("Failed to load launchd service: "),
            _ => String::from_str("Failed to enable systemd service: "),
        };
        m.append(stderr);
        Err(LifecycleError::ServiceManager(m))
    }
}

/// How to remove the service: run `before` (whatever it reports), delete the
/// descriptor, then run `after` (whatever it reports).
#[derive(Clone, Debug)]
pub enum UninstallPlan {
    /// No descriptor is there; report that the service is not installed.
    NotInstalled,
    Remove { descriptor_path: String, before: Vec<Vec<String>>, after: Vec<Vec<String>> },
}

/// Plans removing the service of `platform`, given whether it is installed.
pub fn uninstall(platform: Platform, installed: bool, home: &str) -> (r: Result<
    UninstallPlan,
    LifecycleError,
>)
    ensures
        platform == Platform::Windows <==> (r matches Err(LifecycleError::Unsupported)),
        platform != Platform::Windows && !installed ==> (r matches Ok(UninstallPlan::NotInstalled)),
        platform == Platform::MacOs && installed ==> (r matches Ok(
            UninstallPlan::Remove { descriptor_path, before, after },
        ) && descriptor_path@ == plist_of(home@) && command_views(before@) == seq![
            seq!["launchctl"@, "unload"@, "-w"@, plist_of(home@)],
        ] && after@.len() == 0),
        platform == Platform::Linux && installed ==> (r matches Ok(
            UninstallPlan::Remove { descriptor_path, before, after },
        ) && descriptor_path@ == unit_of(home@) && command_views(before@) == seq![
            seq!["systemctl"@, "--user"@, "disable"@, "--now"@, "alfred"@],
        ] && command_views(after@) == seq![seq!["systemctl"@, "--user"@, "daemon-reload"@]]),
{
    match platform {
        Platform::Windows => Err(LifecycleError::Unsupported),
        _ => {
            if !installed {
                return Ok(UninstallPlan::NotInstalled);
            }
            match platform {
                Platform::MacOs => {
                    let path = join_path(home, "Library/LaunchAgents/com.alfred.daemon.plist");
                    let mut before: Vec<Vec<String>> = Vec::new();
                    push_command(&mut before, launchctl("unload", path.as_str()));
                    assert(command_views(before@) =~~= seq![
                        seq!["launchctl"@, "unload"@, "-w"@, plist_of(home@)],
                    ]);
                    Ok(UninstallPlan::Remove { descriptor_path: path, before, after: Vec::new() })
                },
                _ => {
                    let path = join_path(home, ".config/systemd/user/alfred.service");
                    let mut before: Vec<Vec<String>> = Vec::new();
                    push_command(&mut before, systemctl_user("disable", "--now", "alfred", true));
                    let mut after: Vec<Vec<String>> = Vec::new();
                    push_command(&mut after, systemctl_user("daemon-reload", "", "", false));
                    assert(command_views(before@) =~~= seq![
                        seq!["systemctl"@, "--user"@, "disable"@, "--now"@, "alfred"@],
                    ]);
                    assert(command_views(after@) =~~= seq![
                        seq!["systemctl"@, "--user"@, "daemon-reload"@],
                    ]);
                    Ok(UninstallPlan::Remove { descriptor_path: path, before, after })
                },
            }
        },
    }
}

} // verus!
