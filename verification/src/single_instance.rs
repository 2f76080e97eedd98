//! Single-instance arbitration: the name that instances contend for, and
//! what an attempt to take it means.

use vstd::prelude::*;
use vstd::string::StringExecFns;
use crate::text::chars_of;
use crate::text::contains;
use crate::text::find;
use crate::text::find_char;
use crate::text::occurs;

verus! {

/// What the system reported of an attempt to create the named token.
#[derive(Debug, Clone, Copy, PartialEq, Eq, Structural)]
pub struct MutexAttempt {
    /// No token was handed out.
    pub handle_is_null: bool,
    /// A token of that name existed before the attempt.
    pub already_exists: bool,
}

/// Why this process is not the one instance.
#[derive(Debug, Clone, Copy, PartialEq, Eq, Structural)]
pub enum InstanceError {
    /// The application name cannot be made into a token name.
    InvalidName,
    /// The system handed out no token.
    CreateFailed,
    /// Another instance holds the token.
    AlreadyRunning,
}

/// The proof that this process is the one instance.
#[derive(Debug)]
pub struct SingleInstanceGuard {
    pub mutex_name: String,
}

/// The system-wide token name of an application: it depends on the
/// application's name alone.
pub open spec fn mutex_name_text(app_name: Seq<char>) -> Seq<char> {
    "Global\\"@ + app_name
}

/// Whether a name can be handed to the system: it holds no NUL character.
pub open spec fn is_valid_name(name: Seq<char>) -> bool {
    find_char(name, '\0', 0, name.len() as int) == name.len()
}

/// What an attempt means: without a token it failed; with a token that
/// existed before, another instance is running; otherwise the token is ours.
pub open spec fn attempt_result(attempt: MutexAttempt) -> Option<InstanceError> {
    if attempt.handle_is_null {
        Some(InstanceError::CreateFailed)
    } else if attempt.already_exists {
        Some(InstanceError::AlreadyRunning)
    } else {
        None
    }
}

impl InstanceError {
    /// The error as the text shown to the user.
    pub open spec fn text(&self) -> Seq<char> {
        match self {
            InstanceError::InvalidName => "创建互斥量名称失败"@,
            InstanceError::CreateFailed => "创建命名互斥量失败"@,
            InstanceError::AlreadyRunning => "应用程序已在运行"@,
        }
    }

    /// The error as the text shown to the user.
    pub fn message(&self) -> (out: String)
        ensures
            out@ == self.text(),
    {
        match self {
            InstanceError::InvalidName => String::from_str("创建互斥量名称失败"),
            InstanceError::CreateFailed => String::from_str("创建命名互斥量失败"),
            InstanceError::AlreadyRunning => String::from_str("应用程序已在运行"),
        }
    }
}

impl SingleInstanceGuard {
    /// The token name for which the instances of `app_name` contend.
    pub fn mutex_name(app_name: &str) -> (r: Result<String, InstanceError>)
        ensures
            is_valid_name(mutex_name_text(app_name@)) ==> (r matches Ok(name) && name@
                == mutex_name_text(app_name@)),
            !is_valid_name(mutex_name_text(app_name@)) ==> r matches Err(
                InstanceError::InvalidName,
            ),
    {
        let mut name = String::from_str("Global\\");
        name.append(app_name);
        let chars = chars_of(name.as_str());
        if find(&chars, '\0', 0, chars.len()) < chars.len() {
            return Err(InstanceError::InvalidName);
        }
        Ok(name)
    }

    /// The guard of the one instance of `app_name`, given what the system
    /// reported of the attempt to create its token.
    pub fn new(app_name: &str, attempt: MutexAttempt) -> (r: Result<Self, InstanceError>)
        ensures
            !is_valid_name(mutex_name_text(app_name@)) ==> r matches Err(
                InstanceError::InvalidName,
            ),
            is_valid_name(mutex_name_text(app_name@)) ==> match attempt_result(attempt) {
                Some(error) => r matches Err(e) && e == error,
                None => r matches Ok(guard) && guard.mutex_name@ == mutex_name_text(app_name@),
            },
    {
        let name = match Self::mutex_name(app_name) {
            Ok(name) => name,
            Err(error) => {
                return Err(error);
            },
        };
        if attempt.handle_is_null {
            return Err(InstanceError::CreateFailed);
        }
        if attempt.already_exists {
            return Err(InstanceError::AlreadyRunning);
        }
        Ok(SingleInstanceGuard { mutex_name: name })
    }

    /// Whether another instance is running: when its token could be opened,
    /// or when creating the token found it in existence.
    pub fn is_already_running(existing_opened: bool, attempt: MutexAttempt) -> (r: bool)
        ensures
            r == (existing_opened || (!attempt.handle_is_null && attempt.already_exists)),
    {
        if existing_opened {
            return true;
        }
        if attempt.handle_is_null {
            return false;
        }
        attempt.already_exists
    }
}

/// Of two attempts on one name, the one that finds the token in existence
/// is refused and the one that creates it is admitted: whenever the system
/// creates the token for exactly one of them, exactly one holds it.
pub proof fn lemma_one_holder(first: MutexAttempt, second: MutexAttempt)
    requires
        !first.handle_is_null,
        !second.handle_is_null,
        first.already_exists != second.already_exists,
    ensures
        (attempt_result(first) is None) != (attempt_result(second) is None),
        attempt_result(first) is Some ==> attempt_result(first) == Some(
            InstanceError::AlreadyRunning,
        ),
        attempt_result(second) is Some ==> attempt_result(second) == Some(
            InstanceError::AlreadyRunning,
        ),
{
}

/// What the program does once the arbitration is settled.
#[derive(Debug, Clone, Copy, PartialEq, Eq, Structural)]
pub enum StartupAction {
    /// This is the one instance: go on.
    Proceed,
    /// Another instance is running: bring its window forward, then leave
    /// as after a normal run.
    ActivateExisting,
    /// The arbitration itself failed: leave with an error.
    Abort,
}

/// What follows from the outcome of the arbitration.
pub open spec fn action_for(error: Option<InstanceError>) -> StartupAction {
    match error {
        None => StartupAction::Proceed,
        Some(InstanceError::AlreadyRunning) => StartupAction::ActivateExisting,
        Some(_) => StartupAction::Abort,
    }
}

/// The exit code with which the program leaves after an action that ends
/// it: zero when it handed over to the running instance.
pub open spec fn exit_code_for(action: StartupAction) -> int {
    if action == StartupAction::Abort {
        1
    } else {
        0
    }
}

/// What the program does after an arbitration that ended in `error`, or in
/// a guard when `error` is `None`.
pub fn startup_action(error: Option<InstanceError>) -> (action: StartupAction)
    ensures
        action == action_for(error),
{
    match error {
        None => StartupAction::Proceed,
        Some(InstanceError::AlreadyRunning) => StartupAction::ActivateExisting,
        Some(_) => StartupAction::Abort,
    }
}

/// The exit code that goes with an action: zero unless the arbitration
/// itself failed.
pub fn exit_code(action: StartupAction) -> (code: i32)
    ensures
        code == exit_code_for(action),
{
    match action {
        StartupAction::Abort => 1,
        _ => 0,
    }
}

/// A top-level window as the enumeration shows it.
pub struct WindowView {
    pub handle: u64,
    pub process: u32,
    pub title: Seq<char>,
}

/// Whether a title is one that the program gives its window.
pub open spec fn is_known_title(title: Seq<char>) -> bool {
    occurs(title, "SCRCPY 智能启动器"@) || occurs(title, "scrcpy-launcher"@)
}

/// Whether a window belongs to the running instance: by its process, when
/// that is known, or by its title.
pub open spec fn window_matches(target: Option<u32>, window: WindowView) -> bool {
    target == Some(window.process) || is_known_title(window.title)
}

/// The first window at or after `from` that belongs to the running
/// instance.
pub open spec fn first_match(target: Option<u32>, windows: Seq<WindowView>, from: int) -> Option<
    u64,
>
    decreases windows.len() - from,
{
    if from < 0 || from >= windows.len() {
        None
    } else if window_matches(target, windows[from]) {
        Some(windows[from].handle)
    } else {
        first_match(target, windows, from + 1)
    }
}

/// What a search has found once it has been shown one more window: what it
/// had found before, or else this window if it matches.
pub open spec fn found_next(target: Option<u32>, found: Option<u64>, window: WindowView) -> Option<
    u64,
> {
    if found is None && window_matches(target, window) {
        Some(window.handle)
    } else {
        found
    }
}

/// What a search has found once it has been shown `windows` in order: what
/// it had found before, or else the first window that matches.
pub open spec fn found_after(
    target: Option<u32>,
    found: Option<u64>,
    windows: Seq<WindowView>,
) -> Option<u64>
    decreases windows.len(),
{
    if windows.len() == 0 {
        found
    } else {
        found_next(target, found_after(target, found, windows.drop_last()), windows.last())
    }
}

/// A fresh search that is shown every window in turn ends with the first
/// one that belongs to the running instance, and with nothing when none
/// does.
pub proof fn lemma_search_finds_first(target: Option<u32>, windows: Seq<WindowView>)
    ensures
        found_after(target, None, windows) == first_match(target, windows, 0),
{
    lemma_search_from(target, windows, 0);
    assert(windows.subrange(0, windows.len() as int) =~= windows);
}

proof fn lemma_search_from(target: Option<u32>, windows: Seq<WindowView>, from: int)
    requires
        0 <= from <= windows.len(),
    ensures
        found_after(target, None, windows.subrange(from, windows.len() as int)) == first_match(
            target,
            windows,
            from,
        ),
    decreases windows.len() - from,
{
    let tail = windows.subrange(from, windows.len() as int);
    if from < windows.len() {
        lemma_search_from(target, windows, from + 1);
        lemma_found_after_first(target, tail);
        assert(tail.drop_first() =~= windows.subrange(from + 1, windows.len() as int));
    }
}

proof fn lemma_found_after_first(target: Option<u32>, windows: Seq<WindowView>)
    requires
        windows.len() > 0,
    ensures
        found_after(target, None, windows) == if window_matches(target, windows[0]) {
            Some(windows[0].handle)
        } else {
            found_after(target, None, windows.drop_first())
        },
    decreases windows.len(),
{
    reveal_with_fuel(found_after, 3);
    if windows.len() > 1 {
        lemma_found_after_first(target, windows.drop_last());
        assert(windows.drop_last().drop_first() =~= windows.drop_first().drop_last());
        assert(windows.drop_last()[0] == windows[0]);
        assert(windows.drop_first().last() == windows.last());
    } else {
        assert(windows.drop_last().len() == 0);
        assert(windows.drop_first().len() == 0);
    }
}

/// One step of bringing a window forward.
#[derive(Debug, Clone, Copy, PartialEq, Eq, Structural)]
pub enum WindowAction {
    /// Restore the minimized window.
    Restore(u64),
    /// Put the window in the foreground.
    Foreground(u64),
}

/// The steps that bring the found window forward: none without a window.
pub open spec fn activation_steps(found: Option<u64>, minimized: bool) -> Seq<WindowAction> {
    match found {
        None => Seq::empty(),
        Some(handle) => if minimized {
            seq![WindowAction::Restore(handle), WindowAction::Foreground(handle)]
        } else {
            seq![WindowAction::Foreground(handle)]
        },
    }
}

/// The search for the window of the running instance, handed to the
/// enumeration of windows and shown each window in turn.
#[derive(Debug)]
pub struct WindowSearch {
    /// The process of the running instance, when it is known.
    pub target_process: Option<u32>,
    /// The window found so far.
    pub found: Option<u64>,
}

impl WindowSearch {
    /// A search that has found nothing yet.
    pub fn new(target_process: Option<u32>) -> (search: Self)
        ensures
            search.target_process == target_process,
            search.found is None,
    {
        WindowSearch { target_process, found: None }
    }

    /// Whether a title is one that the program gives its window.
    pub fn known_title(title: &str) -> (r: bool)
        ensures
            r == is_known_title(title@),
    {
        let chars = chars_of(title);
        let heading = chars_of("SCRCPY 智能启动器");
        let name = chars_of("scrcpy-launcher");
        contains(&chars, &heading) || contains(&chars, &name)
    }

    /// Shows the search one window. Returns whether the enumeration is to
    /// go on: it stops at the first window found.
    pub fn visit(&mut self, handle: u64, process: u32, title: &str) -> (go_on: bool)
        ensures
            final(self).target_process == old(self).target_process,
            final(self).found == found_next(
                old(self).target_process,
                old(self).found,
                (WindowView { handle, process, title: title@ }),
            ),
            go_on == (final(self).found is None),
    {
        if self.found.is_some() {
            return false;
        }
        let by_process = match self.target_process {
            Some(target) => target == process,
            None => false,
        };
        if by_process || Self::known_title(title) {
            self.found = Some(handle);
            false
        } else {
            true
        }
    }

    /// The steps that bring the found window forward, `minimized` saying
    /// whether it is minimized. Without a window there is nothing to do.
    pub fn activation(&self, minimized: bool) -> (steps: Vec<WindowAction>)
        ensures
            steps@ == activation_steps(self.found, minimized),
    {
        let mut steps: Vec<WindowAction> = Vec::new();
        match self.found {
            None => {},
            Some(handle) => {
                if minimized {
                    steps.push(WindowAction::Restore(handle));
                }
                steps.push(WindowAction::Foreground(handle));
            },
        }
        assert(steps@ =~= activation_steps(self.found, minimized));
        steps
    }
}

} // verus!
