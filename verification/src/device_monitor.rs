//! Reading the device listing, and the supervisor of the mirroring process.
//!
//! The supervisor decides; the program around it runs the commands. It holds
//! the id of the one process it has launched, tells its caller which process
//! to terminate and what to launch, and is told what came of it.

use std::path::PathBuf;
use vstd::prelude::*;
use vstd::string::StringExecFns;
use crate::text::chars_of;
use crate::text::find;
use crate::text::find_char;
use crate::text::has_prefix;
use crate::text::is_space;
use crate::text::lemma_find_char_bounds;
use crate::text::lemma_skip_spaces_bounds;
use crate::text::lemma_skip_visible_bounds;
use crate::text::lemma_trim_end_bounds;
use crate::text::skip_spaces;
use crate::text::skip_token;
use crate::text::skip_visible;
use crate::text::skip_whitespace;
use crate::text::starts_with;
use crate::text::string_of;
use crate::text::trim_end;
use crate::text::trim_trailing;
use crate::tui::devices_view;
use crate::tui::DeviceInfo;
use crate::tui::DeviceView;

verus! {

/// `std::path::PathBuf`, carried through unread.
#[verifier::external_type_specification]
#[verifier::external_body]
pub struct ExPathBuf(PathBuf);

/// `Path::join`: the path of `name` below `dir`. Nothing is claimed of the
/// result, whose separator depends on the platform.
#[verifier::external_body]
fn join_path(dir: &PathBuf, name: &str) -> PathBuf {
    dir.join(name)
}

/// Seconds after which a run of the listing command is given up.
pub const QUERY_TIMEOUT_SECS: u64 = 2;

/// Where the programs are looked for.
#[derive(Debug, Clone, Copy, PartialEq, Eq, Structural)]
pub enum ScrcpyDirectory {
    /// The `scrcpy` folder of the working directory.
    Current,
    /// The `scrcpy` folder of the user's home.
    Home,
    /// The `scrcpy` folder of the system's program files.
    ProgramFiles,
}

/// The folder in which the programs are looked for: the first that exists
/// of the working directory's, the home's (when the home is known) and the
/// system's; the working directory's when none exists.
pub fn choose_scrcpy_directory(
    current_exists: bool,
    home_exists: Option<bool>,
    program_files_exists: bool,
) -> (choice: ScrcpyDirectory)
    ensures
        choice == if current_exists {
            ScrcpyDirectory::Current
        } else if home_exists == Some(true) {
            ScrcpyDirectory::Home
        } else if program_files_exists {
            ScrcpyDirectory::ProgramFiles
        } else {
            ScrcpyDirectory::Current
        },
{
    if current_exists {
        return ScrcpyDirectory::Current;
    }
    match home_exists {
        Some(exists) => {
            if exists {
                return ScrcpyDirectory::Home;
            }
        },
        None => {},
    }
    if program_files_exists {
        ScrcpyDirectory::ProgramFiles
    } else {
        ScrcpyDirectory::Current
    }
}

/// The status token of a device that is ready.
pub open spec fn ready_marker() -> Seq<char> {
    seq!['d', 'e', 'v', 'i', 'c', 'e']
}

/// The display name given to every device.
pub open spec fn device_name() -> Seq<char> {
    "Android设备"@
}

/// The status text given to every listed device.
pub open spec fn connected_status() -> Seq<char> {
    "已连接"@
}

/// The id of the device that the line `s[from..to)` reports as ready.
///
/// The line is trimmed. If it holds a tab, the id is what stands before the
/// first tab, and the device is ready when the rest, trimmed, begins with
/// the marker. Without a tab the line is split at white space: the id is the
/// first token, and the device is ready when the second token is the marker.
pub open spec fn line_device(s: Seq<char>, from: int, to: int) -> Option<Seq<char>> {
    let a = skip_spaces(s, from, to);
    let b = trim_end(s, a, to);
    if a >= b {
        None
    } else {
        let tab = find_char(s, '\t', a, b);
        if tab < b {
            let status = skip_spaces(s, tab + 1, b);
            if has_prefix(s, status, b, ready_marker()) {
                Some(s.subrange(a, tab))
            } else {
                None
            }
        } else {
            let id_end = skip_visible(s, a, b);
            let status = skip_spaces(s, id_end, b);
            let status_end = skip_visible(s, status, b);
            if status < b && s.subrange(status, status_end) == ready_marker() {
                Some(s.subrange(a, id_end))
            } else {
                None
            }
        }
    }
}

/// The id of a listed device is never empty, begins with a visible
/// character and holds no tab.
pub proof fn lemma_line_device_id(s: Seq<char>, from: int, to: int)
    requires
        0 <= from <= to <= s.len(),
        line_device(s, from, to) is Some,
    ensures
        line_device(s, from, to)->0.len() > 0,
        !is_space(line_device(s, from, to)->0[0]),
        forall|k: int|
            0 <= k < line_device(s, from, to)->0.len() ==> line_device(s, from, to)->0[k] != '\t',
{
    let a = skip_spaces(s, from, to);
    lemma_skip_spaces_bounds(s, from, to);
    let b = trim_end(s, a, to);
    lemma_trim_end_bounds(s, a, to);
    let tab = find_char(s, '\t', a, b);
    lemma_find_char_bounds(s, '\t', a, b);
    assert(is_space('\t'));
    if tab < b {
        assert(s.subrange(a, tab)[0] == s[a]);
    } else {
        let id_end = skip_visible(s, a, b);
        lemma_skip_visible_bounds(s, a, b);
        assert(s.subrange(a, id_end)[0] == s[a]);
    }
}

/// The ids of the ready devices on the lines of `s` from index `from` on,
/// a line ending at a line feed or at the end of the text.
pub open spec fn devices_from(s: Seq<char>, from: int) -> Seq<Seq<char>>
    decreases s.len() - from,
{
    if from < 0 || from >= s.len() {
        Seq::empty()
    } else {
        proof {
            lemma_find_char_bounds(s, '\n', from, s.len() as int);
        }
        let end = find_char(s, '\n', from, s.len() as int);
        let rest = if end < s.len() {
            devices_from(s, end + 1)
        } else {
            Seq::empty()
        };
        match line_device(s, from, end) {
            Some(id) => seq![id] + rest,
            None => rest,
        }
    }
}

/// The ids of the ready devices in a listing: those of every line but the
/// first, which is the header.
pub open spec fn listed_ids(s: Seq<char>) -> Seq<Seq<char>> {
    devices_from(s, find_char(s, '\n', 0, s.len() as int) + 1)
}

/// The record of the ready device `id`.
pub open spec fn ready_device(id: Seq<char>) -> DeviceView {
    DeviceView { id, name: device_name(), status: connected_status() }
}

/// The records of the ready devices `ids`.
pub open spec fn listing(ids: Seq<Seq<char>>) -> Seq<DeviceView> {
    Seq::new(ids.len(), |i: int| ready_device(ids[i]))
}

/// The range of the id on the line `chars[from..to)`, if that line reports a
/// ready device.
pub fn parse_line(chars: &Vec<char>, from: usize, to: usize) -> (r: Option<(usize, usize)>)
    requires
        from <= to <= chars@.len(),
    ensures
        match r {
            Some((a, b)) => from <= a <= b <= to && line_device(chars@, from as int, to as int)
                == Some(chars@.subrange(a as int, b as int)),
            None => line_device(chars@, from as int, to as int) is None,
        },
{
    let marker: Vec<char> = vec!['d', 'e', 'v', 'i', 'c', 'e'];
    assert(marker@ =~= ready_marker());
    let a = skip_whitespace(chars, from, to);
    let b = trim_trailing(chars, a, to);
    if a >= b {
        return None;
    }
    let tab = find(chars, '\t', a, b);
    if tab < b {
        let status = skip_whitespace(chars, tab + 1, b);
        if starts_with(chars, status, b, &marker) {
            Some((a, tab))
        } else {
            None
        }
    } else {
        let id_end = skip_token(chars, a, b);
        let status = skip_whitespace(chars, id_end, b);
        let status_end = skip_token(chars, status, b);
        if status < b && status_end - status == marker.len() && starts_with(
            chars,
            status,
            status_end,
            &marker,
        ) {
            Some((a, id_end))
        } else {
            assert(chars@.subrange(status as int, status_end as int).len() == status_end - status);
            None
        }
    }
}

/// The ready devices of a listing, in the order of their lines.
pub fn parse_devices(output: &str) -> (devices: Vec<DeviceInfo>)
    ensures
        devices_view(devices@) == listing(listed_ids(output@)),
{
    let chars = chars_of(output);
    let n: usize = chars.len();
    let mut devices: Vec<DeviceInfo> = Vec::new();
    let mut pos: usize = find(&chars, '\n', 0, n);
    let ghost mut seen: Seq<Seq<char>> = Seq::empty();
    assert(devices_view(devices@) =~= listing(seen));
    while pos < n
        invariant
            chars@ == output@,
            n == chars@.len(),
            pos <= n,
            devices_view(devices@) == listing(seen),
            seen + devices_from(chars@, pos + 1) == listed_ids(chars@),
        decreases n - pos,
    {
        let start: usize = pos + 1;
        let end: usize = find(&chars, '\n', start, n);
        let ghost rest = devices_from(chars@, end + 1);
        let ghost before = seen;
        match parse_line(&chars, start, end) {
            Some((a, b)) => {
                let device = DeviceInfo {
                    id: string_of(&chars, a, b),
                    name: String::from_str("Android设备"),
                    status: String::from_str("已连接"),
                };
                let ghost earlier = devices@;
                devices.push(device);
                proof {
                    seen = before.push(chars@.subrange(a as int, b as int));
                    assert(devices_view(devices@) =~= listing(seen)) by {
                        assert(devices_view(earlier) == listing(before));
                        assert(devices_view(earlier).len() == earlier.len());
                        assert(listing(before).len() == before.len());
                        assert(listing(seen).len() == seen.len());
                        assert(devices_view(devices@).len() == devices@.len());
                        assert forall|i: int| 0 <= i < devices@.len() implies devices_view(
                            devices@,
                        )[i] == listing(seen)[i] by {
                            if i < earlier.len() {
                                assert(devices_view(earlier)[i] == listing(before)[i]);
                            }
                        }
                    }
                }
            },
            None => {},
        }
        proof {
            if start < n {
                assert(seen + rest =~= before + devices_from(chars@, start as int));
            } else {
                assert(rest =~= Seq::<Seq<char>>::empty());
                assert(seen + rest =~= before + devices_from(chars@, start as int));
            }
        }
        pos = end;
    }
    assert(seen + devices_from(chars@, pos + 1) =~= seen);
    devices
}

/// Why a device query gave no listing.
#[derive(Debug)]
pub enum QueryError {
    /// The listing command did not finish in time.
    Timeout,
    /// The listing command could not be run; the text is the system's reason.
    LaunchFailed(String),
    /// The listing command finished with a failure status.
    CommandFailed,
    /// The listing command is not installed.
    NotInstalled,
}

/// What became of one run of the listing command.
#[derive(Debug)]
pub enum QueryOutcome {
    /// It did not finish in time.
    TimedOut,
    /// It could not be run; the text is the system's reason.
    NotLaunched(String),
    /// It finished, with this status and this standard output.
    Finished { success: bool, output: String },
    /// It was not run, because the command is not installed.
    NotInstalled,
}

impl QueryError {
    /// The error as the text shown to the user.
    pub open spec fn text(&self) -> Seq<char> {
        match self {
            QueryError::Timeout => "adb devices 命令超时"@,
            QueryError::LaunchFailed(reason) => "执行adb命令失败: "@ + reason@,
            QueryError::CommandFailed => "adb devices 命令执行失败"@,
            QueryError::NotInstalled => "ADB未找到，请确保scrcpy已正确安装"@,
        }
    }

    /// The error as the text shown to the user.
    pub fn message(&self) -> (out: String)
        ensures
            out@ == self.text(),
    {
        match self {
            QueryError::Timeout => String::from_str("adb devices 命令超时"),
            QueryError::LaunchFailed(reason) => {
                let mut out = String::from_str("执行adb命令失败: ");
                out.append(reason.as_str());
                out
            },
            QueryError::CommandFailed => String::from_str("adb devices 命令执行失败"),
            QueryError::NotInstalled => String::from_str("ADB未找到，请确保scrcpy已正确安装"),
        }
    }
}

/// What a non-blocking poll of the held process reported.
#[derive(Debug, Clone, Copy, PartialEq, Eq, Structural)]
pub enum WaitOutcome {
    /// The process has exited.
    Exited,
    /// The process is still alive.
    Running,
    /// The poll itself failed.
    Failed,
}

/// One thing that can happen to the supervisor.
pub enum SupervisorStep {
    /// A start was planned.
    Start,
    /// The launch succeeded and gave this process.
    Spawned(u32),
    /// The launch failed.
    SpawnFailed,
    /// The held process was polled.
    Polled(WaitOutcome),
    /// A stop was asked for.
    Stop,
}

/// The process that a step takes out of the supervisor's hands: terminated
/// and waited for on a start or a stop, found gone on a poll.
pub open spec fn reaped_by(held: Option<u32>, step: SupervisorStep) -> Option<u32> {
    match step {
        SupervisorStep::Start | SupervisorStep::Stop => held,
        SupervisorStep::Polled(outcome) => if outcome == WaitOutcome::Running {
            None
        } else {
            held
        },
        SupervisorStep::Spawned(_) | SupervisorStep::SpawnFailed => None,
    }
}

/// The process that the supervisor holds after a step. A launch is recorded
/// only while nothing is held.
pub open spec fn held_after(held: Option<u32>, step: SupervisorStep) -> Option<u32> {
    match step {
        SupervisorStep::Start | SupervisorStep::Stop => None,
        SupervisorStep::Polled(outcome) => if outcome == WaitOutcome::Running {
            held
        } else {
            None
        },
        SupervisorStep::Spawned(process) => if held is None {
            Some(process)
        } else {
            held
        },
        SupervisorStep::SpawnFailed => held,
    }
}

/// The launched processes that are still alive after a step, given those
/// alive before it.
pub open spec fn live_after(live: Set<u32>, held: Option<u32>, step: SupervisorStep) -> Set<u32> {
    let kept = match reaped_by(held, step) {
        Some(process) => live.remove(process),
        None => live,
    };
    match step {
        SupervisorStep::Spawned(process) => if held is None {
            kept.insert(process)
        } else {
            kept
        },
        _ => kept,
    }
}

/// The held process after a run of steps.
pub open spec fn held_after_all(held: Option<u32>, steps: Seq<SupervisorStep>) -> Option<u32>
    decreases steps.len(),
{
    if steps.len() == 0 {
        held
    } else {
        held_after(held_after_all(held, steps.drop_last()), steps.last())
    }
}

/// The live processes after a run of steps.
pub open spec fn live_after_all(live: Set<u32>, held: Option<u32>, steps: Seq<SupervisorStep>) -> Set<
    u32,
>
    decreases steps.len(),
{
    if steps.len() == 0 {
        live
    } else {
        live_after(
            live_after_all(live, held, steps.drop_last()),
            held_after_all(held, steps.drop_last()),
            steps.last(),
        )
    }
}

/// The processes that a supervisor holding `held` accounts for.
pub open spec fn held_set(held: Option<u32>) -> Set<u32> {
    match held {
        Some(process) => set![process],
        None => Set::empty(),
    }
}

/// Whatever run of starts, launches, polls and stops a fresh supervisor goes
/// through, the launched processes still alive are exactly the one it holds,
/// if any: never more than one.
pub proof fn lemma_at_most_one_process(steps: Seq<SupervisorStep>)
    ensures
        live_after_all(Set::empty(), None, steps) == held_set(held_after_all(None, steps)),
        live_after_all(Set::empty(), None, steps).finite(),
        live_after_all(Set::empty(), None, steps).len() <= 1,
    decreases steps.len(),
{
    let held = held_after_all(None, steps);
    let live = live_after_all(Set::empty(), None, steps);
    if steps.len() > 0 {
        lemma_at_most_one_process(steps.drop_last());
        assert(live =~= held_set(held));
    }
    match held {
        Some(process) => {
            assert(held_set(held) =~= Set::empty().insert(process));
        },
        None => {},
    }
}

/// The arguments of the mirroring program: the device selection, if any.
pub open spec fn launch_args(device_id: Option<Seq<char>>) -> Seq<Seq<char>> {
    match device_id {
        Some(id) => seq!["-s"@, id],
        None => Seq::empty(),
    }
}

/// A list of strings as plain text.
pub open spec fn strings_view(strings: Seq<String>) -> Seq<Seq<char>> {
    Seq::new(strings.len(), |i: int| strings[i]@)
}

/// The text of a failed launch, `reason` being the system's words.
pub open spec fn spawn_failure_text(reason: Seq<char>) -> Seq<char> {
    "启动scrcpy失败: "@ + reason
}

/// What the caller has to do to start the mirroring program.
#[derive(Debug)]
pub struct LaunchPlan {
    /// The process to terminate and wait for before the launch.
    pub replaced: Option<u32>,
    /// The arguments of the mirroring program.
    pub args: Vec<String>,
}

/// The supervisor of the mirroring process.
pub struct DeviceMonitor {
    pub adb_exe: PathBuf,
    pub scrcpy_exe: PathBuf,
    /// The id of the one process launched and not yet seen to be gone.
    pub scrcpy_process: Option<u32>,
}

impl DeviceMonitor {
    /// A supervisor for the programs in `scrcpy_dir`, holding no process.
    /// The programs are `adb.exe` and `scrcpy.exe` below that folder; how
    /// their paths are written is the platform's matter.
    pub fn new(scrcpy_dir: &PathBuf) -> (monitor: Self)
        ensures
            monitor.scrcpy_process is None,
    {
        let adb_exe = join_path(scrcpy_dir, "adb.exe");
        let scrcpy_exe = join_path(scrcpy_dir, "scrcpy.exe");
        Self::with_programs(adb_exe, scrcpy_exe)
    }

    /// A supervisor for the two programs at the given paths, holding no
    /// process.
    pub fn with_programs(adb_exe: PathBuf, scrcpy_exe: PathBuf) -> (monitor: Self)
        ensures
            monitor.adb_exe == adb_exe,
            monitor.scrcpy_exe == scrcpy_exe,
            monitor.scrcpy_process is None,
    {
        DeviceMonitor { adb_exe, scrcpy_exe, scrcpy_process: None }
    }

    /// Whether the mirroring program can be used: both it and the listing
    /// command have to be present.
    pub fn is_scrcpy_available(&self, scrcpy_present: bool, adb_present: bool) -> (r: bool)
        ensures
            r == (scrcpy_present && adb_present),
    {
        scrcpy_present && adb_present
    }

    /// The devices that one run of the listing command reported, or why it
    /// reported none.
    pub fn check_devices(&self, outcome: QueryOutcome) -> (r: Result<Vec<DeviceInfo>, QueryError>)
        ensures
            match outcome {
                QueryOutcome::TimedOut => r matches Err(QueryError::Timeout),
                QueryOutcome::NotLaunched(reason) => r matches Err(QueryError::LaunchFailed(text))
                    && text == reason,
                QueryOutcome::Finished { success, output } => if success {
                    r matches Ok(devices) && devices_view(devices@) == listing(
                        listed_ids(output@),
                    )
                } else {
                    r matches Err(QueryError::CommandFailed)
                },
                QueryOutcome::NotInstalled => r matches Err(QueryError::NotInstalled),
            },
    {
        match outcome {
            QueryOutcome::TimedOut => Err(QueryError::Timeout),
            QueryOutcome::NotLaunched(reason) => Err(QueryError::LaunchFailed(reason)),
            QueryOutcome::Finished { success, output } => {
                if !success {
                    return Err(QueryError::CommandFailed);
                }
                Ok(parse_devices(output.as_str()))
            },
            QueryOutcome::NotInstalled => Err(QueryError::NotInstalled),
        }
    }

    /// Plans a start: whatever process is held is given up, to be terminated
    /// and waited for before the launch, and the arguments select the device.
    pub fn start_scrcpy(&mut self, device_id: Option<&str>) -> (plan: LaunchPlan)
        ensures
            plan.replaced == reaped_by(old(self).scrcpy_process, SupervisorStep::Start),
            plan.replaced == old(self).scrcpy_process,
            final(self).scrcpy_process == held_after(
                old(self).scrcpy_process,
                SupervisorStep::Start,
            ),
            final(self).scrcpy_process is None,
            strings_view(plan.args@) == launch_args(
                match device_id {
                    Some(id) => Some(id@),
                    None => None,
                },
            ),
            final(self).adb_exe == old(self).adb_exe,
            final(self).scrcpy_exe == old(self).scrcpy_exe,
    {
        let replaced = self.stop_scrcpy();
        let mut args: Vec<String> = Vec::new();
        match device_id {
            Some(id) => {
                args.push(String::from_str("-s"));
                args.push(String::from_str(id));
                assert(strings_view(args@) =~= launch_args(Some(id@)));
            },
            None => {
                assert(strings_view(args@) =~= launch_args(None));
            },
        }
        LaunchPlan { replaced, args }
    }

    /// Records what came of the launch: the new process is held, or the
    /// failure is reported with the system's reason.
    pub fn finish_start(&mut self, spawned: Result<u32, String>) -> (r: Result<(), String>)
        requires
            old(self).scrcpy_process is None,
        ensures
            match spawned {
                Ok(process) => {
                    &&& r is Ok
                    &&& final(self).scrcpy_process == Some(process)
                    &&& final(self).scrcpy_process == held_after(
                        old(self).scrcpy_process,
                        SupervisorStep::Spawned(process),
                    )
                },
                Err(reason) => {
                    &&& r matches Err(text) && text@ == spawn_failure_text(reason@)
                    &&& final(self).scrcpy_process is None
                    &&& final(self).scrcpy_process == held_after(
                        old(self).scrcpy_process,
                        SupervisorStep::SpawnFailed,
                    )
                },
            },
            final(self).adb_exe == old(self).adb_exe,
            final(self).scrcpy_exe == old(self).scrcpy_exe,
    {
        match spawned {
            Ok(process) => {
                self.scrcpy_process = Some(process);
                Ok(())
            },
            Err(reason) => {
                let mut text = String::from_str("启动scrcpy失败: ");
                text.append(reason.as_str());
                Err(text)
            },
        }
    }

    /// Whether the held process is still alive, given what a poll of it
    /// reported. A process that has exited, or whose poll failed, is let go.
    /// With no process held the answer is no, whatever `outcome` says.
    pub fn is_scrcpy_running(&mut self, outcome: WaitOutcome) -> (running: bool)
        ensures
            running == (old(self).scrcpy_process is Some && outcome == WaitOutcome::Running),
            final(self).scrcpy_process == held_after(
                old(self).scrcpy_process,
                SupervisorStep::Polled(outcome),
            ),
            running == (final(self).scrcpy_process is Some),
            final(self).adb_exe == old(self).adb_exe,
            final(self).scrcpy_exe == old(self).scrcpy_exe,
    {
        if self.scrcpy_process.is_some() {
            match outcome {
                WaitOutcome::Running => true,
                WaitOutcome::Exited => {
                    self.scrcpy_process = None;
                    false
                },
                WaitOutcome::Failed => {
                    self.scrcpy_process = None;
                    false
                },
            }
        } else {
            false
        }
    }

    /// Gives up the held process, which the caller terminates and waits for.
    /// With no process held nothing changes and there is nothing to do.
    pub fn stop_scrcpy(&mut self) -> (to_stop: Option<u32>)
        ensures
            to_stop == old(self).scrcpy_process,
            to_stop == reaped_by(old(self).scrcpy_process, SupervisorStep::Stop),
            final(self).scrcpy_process is None,
            final(self).scrcpy_process == held_after(old(self).scrcpy_process, SupervisorStep::Stop),
            old(self).scrcpy_process is None ==> *final(self) == *old(self),
            final(self).adb_exe == old(self).adb_exe,
            final(self).scrcpy_exe == old(self).scrcpy_exe,
    {
        self.scrcpy_process.take()
    }
}

} // verus!
