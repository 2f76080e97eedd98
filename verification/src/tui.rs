//! The application state shown by the interface and the events folded into it.

use std::time::SystemTime;
use std::time::UNIX_EPOCH;
use vstd::prelude::*;
use vstd::string::StringExecFns;
use crate::text::clock_text;
use crate::text::format_clock;
use crate::ui::status_line;
use crate::ui::TerminalUI;

verus! {

/// Severity of a log line.
#[derive(Debug, Clone, Copy, PartialEq, Eq, Structural)]
pub enum LogLevel {
    Info,
    Success,
    Warning,
    Error,
    Device,
    Download,
    Launch,
}

/// One line of the log feed.
#[derive(Debug, Clone)]
pub struct LogEntry {
    pub timestamp: String,
    pub level: LogLevel,
    pub message: String,
}

/// A device that the listing reported as ready.
#[derive(Debug, Clone)]
pub struct DeviceInfo {
    pub id: String,
    pub name: String,
    pub status: String,
}

/// Local and remote version, as shown in the update notice.
#[derive(Debug, Clone)]
pub struct VersionInfo {
    pub local: String,
    pub remote: String,
    pub needs_update: bool,
}

/// What the monitor tells the interface.
#[derive(Debug)]
pub enum TuiMessage {
    Log(LogLevel, String),
    Status(String),
    UpdateDevices(Vec<DeviceInfo>),
    Quit,
}

/// The state that the interface renders.
#[derive(Debug, Clone)]
pub struct AppState {
    pub status: String,
    pub logs: Vec<LogEntry>,
    pub devices: Vec<DeviceInfo>,
    pub version_info: Option<VersionInfo>,
    pub should_quit: bool,
}

/// A device as plain text.
pub struct DeviceView {
    pub id: Seq<char>,
    pub name: Seq<char>,
    pub status: Seq<char>,
}

impl View for DeviceInfo {
    type V = DeviceView;

    open spec fn view(&self) -> DeviceView {
        DeviceView { id: self.id@, name: self.name@, status: self.status@ }
    }
}

/// A list of devices as plain text.
pub open spec fn devices_view(devices: Seq<DeviceInfo>) -> Seq<DeviceView> {
    Seq::new(devices.len(), |i: int| devices[i]@)
}

/// A message as plain text.
pub enum MessageView {
    Log(LogLevel, Seq<char>),
    Status(Seq<char>),
    UpdateDevices(Seq<DeviceView>),
    Quit,
}

impl View for TuiMessage {
    type V = MessageView;

    open spec fn view(&self) -> MessageView {
        match self {
            TuiMessage::Log(level, text) => MessageView::Log(*level, text@),
            TuiMessage::Status(text) => MessageView::Status(text@),
            TuiMessage::UpdateDevices(devices) => MessageView::UpdateDevices(devices_view(devices@)),
            TuiMessage::Quit => MessageView::Quit,
        }
    }
}

/// A list of messages as plain text.
pub open spec fn messages_view(messages: Seq<TuiMessage>) -> Seq<MessageView> {
    Seq::new(messages.len(), |i: int| messages[i]@)
}

/// A key as the interface reads it.
#[derive(Debug, Clone, Copy, PartialEq, Eq, Structural)]
pub enum Key {
    /// A character key, and whether the control key was held with it.
    Char(char, bool),
    /// The escape key.
    Esc,
    /// Any other key.
    Other,
}

/// Whether a key asks the interface to quit: `q`, escape, or `c` with the
/// control key.
pub open spec fn is_quit_key(key: Key) -> bool {
    match key {
        Key::Char(c, control) => c == 'q' || (c == 'c' && control),
        Key::Esc => true,
        Key::Other => false,
    }
}

/// Whether a key asks the interface to quit.
pub fn quits(key: Key) -> (r: bool)
    ensures
        r == is_quit_key(key),
{
    match key {
        Key::Char(c, control) => c == 'q' || (c == 'c' && control),
        Key::Esc => true,
        Key::Other => false,
    }
}

/// The icon shown with a log line of this level.
pub open spec fn level_icon(level: LogLevel) -> Seq<char> {
    match level {
        LogLevel::Info => "ℹ️"@,
        LogLevel::Success => "✅"@,
        LogLevel::Warning => "⚠️"@,
        LogLevel::Error => "❌"@,
        LogLevel::Device => "📱"@,
        LogLevel::Download => "📥"@,
        LogLevel::Launch => "🚀"@,
    }
}

/// A device as a line of the device list.
pub open spec fn device_line(device: DeviceView) -> Seq<char> {
    "📱 "@ + device.name + " - "@ + device.id + " ("@ + device.status + ")"@
}

impl LogLevel {
    /// The icon shown with a log line of this level.
    pub fn icon(&self) -> (icon: &'static str)
        ensures
            icon@ == level_icon(*self),
    {
        match self {
            LogLevel::Info => "ℹ️",
            LogLevel::Success => "✅",
            LogLevel::Warning => "⚠️",
            LogLevel::Error => "❌",
            LogLevel::Device => "📱",
            LogLevel::Download => "📥",
            LogLevel::Launch => "🚀",
        }
    }
}

impl LogEntry {
    /// The entry as a line of the log panel.
    pub fn line(&self) -> (out: String)
        ensures
            out@ == status_line(self.timestamp@, level_icon(self.level), self.message@),
    {
        TerminalUI::format_status(
            self.timestamp.as_str(),
            self.level.icon(),
            self.message.as_str(),
        )
    }
}

impl DeviceInfo {
    /// The device as a line of the device list.
    pub fn line(&self) -> (out: String)
        ensures
            out@ == device_line(self@),
    {
        let mut out = String::from_str("📱 ");
        out.append(self.name.as_str());
        out.append(" - ");
        out.append(self.id.as_str());
        out.append(" (");
        out.append(self.status.as_str());
        out.append(")");
        out
    }
}

/// The number of log lines that the state keeps.
pub const MAX_LOGS: usize = 100;

/// The log after one append: when it has grown past the cap, the oldest line
/// leaves.
pub open spec fn retained<T>(logs: Seq<T>) -> Seq<T> {
    if logs.len() > MAX_LOGS {
        logs.drop_first()
    } else {
        logs
    }
}

/// The log after `more` has been appended to it line by line.
pub open spec fn append_all<T>(logs: Seq<T>, more: Seq<T>) -> Seq<T>
    decreases more.len(),
{
    if more.len() == 0 {
        logs
    } else {
        append_all(retained(logs.push(more[0])), more.drop_first())
    }
}

/// The last `MAX_LOGS` items of `all`, or all of it when it is shorter.
pub open spec fn most_recent<T>(all: Seq<T>) -> Seq<T> {
    if all.len() <= MAX_LOGS {
        all
    } else {
        all.subrange(all.len() - MAX_LOGS, all.len() as int)
    }
}

/// Appending any number of lines to a log within the cap leaves exactly the
/// most recent `MAX_LOGS` of all lines, oldest first, in the order in which
/// they were appended.
pub proof fn lemma_log_retention<T>(logs: Seq<T>, more: Seq<T>)
    requires
        logs.len() <= MAX_LOGS,
    ensures
        append_all(logs, more) == most_recent(logs + more),
    decreases more.len(),
{
    if more.len() == 0 {
        assert(logs + more =~= logs);
    } else {
        let next = retained(logs.push(more[0]));
        lemma_log_retention(next, more.drop_first());
        let all = logs + more;
        let rest = next + more.drop_first();
        if logs.len() < MAX_LOGS {
            assert(rest =~= all);
        } else {
            assert(rest =~= all.drop_first());
            assert(most_recent(rest) =~= most_recent(all));
        }
    }
}

/// The wall-clock time of day shown in the log, eight hours ahead of UTC,
/// for a moment `secs` seconds after the Unix epoch.
pub open spec fn timestamp_text(secs: int) -> Seq<char> {
    clock_text(((secs / 3600) % 24 + 8) % 24, (secs / 60) % 60, secs % 60)
}

/// Whether `text` is the timestamp of some moment.
pub open spec fn is_timestamp(text: Seq<char>) -> bool {
    exists|secs: u64| text == timestamp_text(secs as int)
}

/// The text that the state shows before anything has been reported.
pub open spec fn initial_status() -> Seq<char> {
    "初始化中..."@
}

/// `SystemTime::now().duration_since(UNIX_EPOCH)`, in whole seconds: the
/// reading of the system clock. Nothing is claimed of the value. A clock set
/// before the epoch reads as zero.
#[verifier::external_body]
pub(crate) fn unix_seconds() -> u64 {
    match SystemTime::now().duration_since(UNIX_EPOCH) {
        Ok(elapsed) => elapsed.as_secs(),
        Err(_) => 0,
    }
}

/// The timestamp of the moment `secs` seconds after the Unix epoch.
pub fn format_timestamp(secs: u64) -> (out: String)
    ensures
        out@ == timestamp_text(secs as int),
{
    let hours: u64 = (secs / 3600) % 24;
    let minutes: u64 = (secs / 60) % 60;
    let seconds: u64 = secs % 60;
    format_clock((hours + 8) % 24, minutes, seconds)
}

/// The timestamp of the present moment.
pub fn get_timestamp() -> (out: String)
    ensures
        is_timestamp(out@),
{
    let secs = unix_seconds();
    format_timestamp(secs)
}

impl Default for AppState {
    fn default() -> (state: Self)
        ensures
            state.status@ == initial_status(),
            state.logs@.len() == 0,
            state.devices@.len() == 0,
            state.version_info is None,
            !state.should_quit,
    {
        AppState {
            status: String::from_str("初始化中..."),
            logs: Vec::new(),
            devices: Vec::new(),
            version_info: None,
            should_quit: false,
        }
    }
}

impl AppState {
    /// Whether the log is within its cap.
    pub open spec fn wf(&self) -> bool {
        self.logs@.len() <= MAX_LOGS
    }

    /// Appends a line with the given timestamp; past the cap the oldest line
    /// is evicted.
    pub fn add_log_at(&mut self, timestamp: String, level: LogLevel, message: String)
        ensures
            final(self).logs@ == retained(
                old(self).logs@.push((LogEntry { timestamp, level, message })),
            ),
            old(self).wf() ==> final(self).wf(),
            final(self).status == old(self).status,
            final(self).devices == old(self).devices,
            final(self).version_info == old(self).version_info,
            final(self).should_quit == old(self).should_quit,
    {
        self.logs.push(LogEntry { timestamp, level, message });
        if self.logs.len() > MAX_LOGS {
            let _ = self.logs.remove(0);
        }
        assert(self.logs@ =~= retained(
            old(self).logs@.push((LogEntry { timestamp, level, message })),
        ));
    }

    /// Appends a line stamped with the present time; past the cap the oldest
    /// line is evicted.
    pub fn add_log(&mut self, level: LogLevel, message: String)
        ensures
            final(self).logs@.len() > 0,
            final(self).logs@.last().level == level,
            final(self).logs@.last().message == message,
            is_timestamp(final(self).logs@.last().timestamp@),
            final(self).logs@ == retained(old(self).logs@.push(final(self).logs@.last())),
            old(self).wf() ==> final(self).wf(),
            final(self).status == old(self).status,
            final(self).devices == old(self).devices,
            final(self).version_info == old(self).version_info,
            final(self).should_quit == old(self).should_quit,
    {
        let timestamp = get_timestamp();
        self.add_log_at(timestamp, level, message);
    }

    /// Replaces the status line.
    pub fn set_status(&mut self, status: String)
        ensures
            final(self).status == status,
            final(self).logs == old(self).logs,
            final(self).devices == old(self).devices,
            final(self).version_info == old(self).version_info,
            final(self).should_quit == old(self).should_quit,
    {
        self.status = status;
    }

    /// Replaces the device list.
    pub fn update_devices(&mut self, devices: Vec<DeviceInfo>)
        ensures
            final(self).devices == devices,
            final(self).status == old(self).status,
            final(self).logs == old(self).logs,
            final(self).version_info == old(self).version_info,
            final(self).should_quit == old(self).should_quit,
    {
        self.devices = devices;
    }

    /// Folds one message into the state, stamping a log line with
    /// `timestamp`. Returns whether the message was the last one: after
    /// `Quit` the consumer stops draining.
    pub fn apply_message_at(&mut self, message: TuiMessage, timestamp: String) -> (done: bool)
        ensures
            done == (message is Quit),
            old(self).wf() ==> final(self).wf(),
            final(self).version_info == old(self).version_info,
            match message {
                TuiMessage::Log(level, text) => {
                    &&& final(self).logs@ == retained(
                        old(self).logs@.push((LogEntry { timestamp, level, message: text })),
                    )
                    &&& final(self).status == old(self).status
                    &&& final(self).devices == old(self).devices
                    &&& final(self).should_quit == old(self).should_quit
                },
                TuiMessage::Status(text) => {
                    &&& final(self).status == text
                    &&& final(self).logs == old(self).logs
                    &&& final(self).devices == old(self).devices
                    &&& final(self).should_quit == old(self).should_quit
                },
                TuiMessage::UpdateDevices(devices) => {
                    &&& final(self).devices == devices
                    &&& final(self).status == old(self).status
                    &&& final(self).logs == old(self).logs
                    &&& final(self).should_quit == old(self).should_quit
                },
                TuiMessage::Quit => {
                    &&& final(self).should_quit
                    &&& final(self).status == old(self).status
                    &&& final(self).logs == old(self).logs
                    &&& final(self).devices == old(self).devices
                },
            },
    {
        match message {
            TuiMessage::Log(level, text) => {
                self.add_log_at(timestamp, level, text);
                false
            },
            TuiMessage::Status(text) => {
                self.set_status(text);
                false
            },
            TuiMessage::UpdateDevices(devices) => {
                self.update_devices(devices);
                false
            },
            TuiMessage::Quit => {
                self.should_quit = true;
                true
            },
        }
    }

    /// Folds one message into the state, stamping a log line with the
    /// present time. Returns whether the message was `Quit`.
    pub fn apply_message(&mut self, message: TuiMessage) -> (done: bool)
        ensures
            done == (message is Quit),
            old(self).wf() ==> final(self).wf(),
            final(self).version_info == old(self).version_info,
            match message {
                TuiMessage::Log(level, text) => {
                    &&& final(self).logs@.len() > 0
                    &&& final(self).logs@.last().level == level
                    &&& final(self).logs@.last().message == text
                    &&& is_timestamp(final(self).logs@.last().timestamp@)
                    &&& final(self).logs@ == retained(
                        old(self).logs@.push(final(self).logs@.last()),
                    )
                    &&& final(self).status == old(self).status
                    &&& final(self).devices == old(self).devices
                    &&& final(self).should_quit == old(self).should_quit
                },
                TuiMessage::Status(text) => {
                    &&& final(self).status == text
                    &&& final(self).logs == old(self).logs
                    &&& final(self).devices == old(self).devices
                    &&& final(self).should_quit == old(self).should_quit
                },
                TuiMessage::UpdateDevices(devices) => {
                    &&& final(self).devices == devices
                    &&& final(self).status == old(self).status
                    &&& final(self).logs == old(self).logs
                    &&& final(self).should_quit == old(self).should_quit
                },
                TuiMessage::Quit => {
                    &&& final(self).should_quit
                    &&& final(self).status == old(self).status
                    &&& final(self).logs == old(self).logs
                    &&& final(self).devices == old(self).devices
                },
            },
    {
        match message {
            TuiMessage::Log(level, text) => {
                self.add_log(level, text);
                false
            },
            TuiMessage::Status(text) => {
                self.set_status(text);
                false
            },
            TuiMessage::UpdateDevices(devices) => {
                self.update_devices(devices);
                false
            },
            TuiMessage::Quit => {
                self.should_quit = true;
                true
            },
        }
    }
}

} // verus!
