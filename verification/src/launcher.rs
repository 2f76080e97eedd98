//! Setting the program up before monitoring begins: whether the mirroring
//! program is downloaded, updated or used as it is.

use vstd::prelude::*;

verus! {

/// Where the setup stands.
#[derive(Debug, Clone, Copy, PartialEq, Eq, Structural)]
pub enum SetupState {
    /// Nothing has been looked at yet.
    Start,
    /// The user has been asked whether to download the missing program.
    AskedDownload,
    /// The latest version is being looked up.
    CheckingUpdate,
    /// The user has been asked whether to update the program.
    AskedUpdate,
    /// The program is being downloaded.
    Downloading,
    /// The setup is over.
    Finished,
}

/// What the setup is told.
#[derive(Debug, Clone, Copy, PartialEq, Eq, Structural)]
pub enum SetupEvent {
    /// Whether the programs were found.
    Looked { available: bool },
    /// Whether the latest version differs from the local one.
    Checked { update_needed: bool },
    /// What the user answered.
    Answered { yes: bool },
    /// The download went through.
    Downloaded,
}

/// What the setup asks its caller to do.
#[derive(Debug, Clone, Copy, PartialEq, Eq, Structural)]
pub enum SetupAction {
    /// Ask the user whether to download the missing program.
    AskDownload,
    /// Look the latest version up.
    CheckUpdate,
    /// Ask the user whether to update the program.
    AskUpdate,
    /// Download the latest version of the missing program.
    Download,
    /// Download the latest version over the present one.
    Update,
    /// Go on with the program as it is, the update having been declined.
    SkipUpdate,
    /// Go on with the program as it is.
    Continue,
    /// Give up: the program is missing and the user declined the download.
    Abort,
    /// Nothing: the event does not belong to this state.
    Ignore,
}

/// The user's notice that goes with an action, empty where there is none.
pub open spec fn action_text(action: SetupAction) -> Seq<char> {
    match action {
        SetupAction::AskDownload => "是否从GitHub下载最新版本的scrcpy？"@,
        SetupAction::CheckUpdate => "找到scrcpy，检查是否需要更新..."@,
        SetupAction::AskUpdate => "发现新版本，是否更新？"@,
        SetupAction::Download => "正在从GitHub下载最新版本..."@,
        SetupAction::Update => "正在更新到最新版本..."@,
        SetupAction::SkipUpdate => "跳过更新，使用当前版本"@,
        SetupAction::Abort => "用户取消下载，程序无法继续运行"@,
        SetupAction::Continue | SetupAction::Ignore => ""@,
    }
}

/// The step of the setup: the state that follows and what is to be done.
///
/// A missing program is downloaded if the user agrees, and the setup is
/// given up if not. A program that is present is checked against the latest
/// version; when they differ, it is updated if the user agrees and used as
/// it is if not. An event that does not belong to the state changes
/// nothing.
pub open spec fn setup_step(state: SetupState, event: SetupEvent) -> (SetupState, SetupAction) {
    match (state, event) {
        (SetupState::Start, SetupEvent::Looked { available }) => if available {
            (SetupState::CheckingUpdate, SetupAction::CheckUpdate)
        } else {
            (SetupState::AskedDownload, SetupAction::AskDownload)
        },
        (SetupState::AskedDownload, SetupEvent::Answered { yes }) => if yes {
            (SetupState::Downloading, SetupAction::Download)
        } else {
            (SetupState::Finished, SetupAction::Abort)
        },
        (SetupState::CheckingUpdate, SetupEvent::Checked { update_needed }) => if update_needed {
            (SetupState::AskedUpdate, SetupAction::AskUpdate)
        } else {
            (SetupState::Finished, SetupAction::Continue)
        },
        (SetupState::AskedUpdate, SetupEvent::Answered { yes }) => if yes {
            (SetupState::Downloading, SetupAction::Update)
        } else {
            (SetupState::Finished, SetupAction::SkipUpdate)
        },
        (SetupState::Downloading, SetupEvent::Downloaded) => (
            SetupState::Finished,
            SetupAction::Continue,
        ),
        _ => (state, SetupAction::Ignore),
    }
}

/// Whether an action asks for a download.
pub open spec fn downloads(action: SetupAction) -> bool {
    action == SetupAction::Download || action == SetupAction::Update
}

/// Nothing is downloaded unless the user has just agreed to it.
pub proof fn lemma_download_needs_consent(state: SetupState, event: SetupEvent)
    requires
        downloads(setup_step(state, event).1),
    ensures
        event == (SetupEvent::Answered { yes: true }),
        state == SetupState::AskedDownload || state == SetupState::AskedUpdate,
{
}

impl SetupState {
    /// Takes one step of the setup.
    pub fn step(self, event: SetupEvent) -> (r: (SetupState, SetupAction))
        ensures
            r == setup_step(self, event),
    {
        match (self, event) {
            (SetupState::Start, SetupEvent::Looked { available }) => if available {
                (SetupState::CheckingUpdate, SetupAction::CheckUpdate)
            } else {
                (SetupState::AskedDownload, SetupAction::AskDownload)
            },
            (SetupState::AskedDownload, SetupEvent::Answered { yes }) => if yes {
                (SetupState::Downloading, SetupAction::Download)
            } else {
                (SetupState::Finished, SetupAction::Abort)
            },
            (SetupState::CheckingUpdate, SetupEvent::Checked { update_needed }) => {
                if update_needed {
                    (SetupState::AskedUpdate, SetupAction::AskUpdate)
                } else {
                    (SetupState::Finished, SetupAction::Continue)
                }
            },
            (SetupState::AskedUpdate, SetupEvent::Answered { yes }) => if yes {
                (SetupState::Downloading, SetupAction::Update)
            } else {
                (SetupState::Finished, SetupAction::SkipUpdate)
            },
            (SetupState::Downloading, SetupEvent::Downloaded) => (
                SetupState::Finished,
                SetupAction::Continue,
            ),
            _ => (self, SetupAction::Ignore),
        }
    }
}

impl SetupAction {
    /// The user's notice that goes with the action, empty where there is
    /// none.
    pub fn text(&self) -> (out: &'static str)
        ensures
            out@ == action_text(*self),
    {
        match self {
            SetupAction::AskDownload => "是否从GitHub下载最新版本的scrcpy？",
            SetupAction::CheckUpdate => "找到scrcpy，检查是否需要更新...",
            SetupAction::AskUpdate => "发现新版本，是否更新？",
            SetupAction::Download => "正在从GitHub下载最新版本...",
            SetupAction::Update => "正在更新到最新版本...",
            SetupAction::SkipUpdate => "跳过更新，使用当前版本",
            SetupAction::Abort => "用户取消下载，程序无法继续运行",
            SetupAction::Continue => "",
            SetupAction::Ignore => "",
        }
    }
}

} // verus!
