//! The monitor's reconciliation: what each poll cycle does with the device
//! listing, the state of the mirroring process and the clock.
//!
//! A cycle is a short exchange. The caller counts the cycle in, queries the
//! devices and hands the outcome to [`MonitorState::observe_query`]. Each
//! answer is a batch of messages for the interface and the next thing to do:
//! poll the process, look for the programs, launch, stop, or nothing. What
//! came of it goes back in through the function named after it. A cycle
//! whose query overran its bound ends when it has been counted in, and the
//! next one begins at once.

use vstd::prelude::*;
use vstd::string::StringExecFns;
use crate::device_monitor::QueryError;
use crate::tui::devices_view;
use crate::tui::messages_view;
use crate::tui::DeviceInfo;
use crate::tui::DeviceView;
use crate::tui::LogLevel;
use crate::tui::MessageView;
use crate::tui::TuiMessage;

verus! {

/// Cycles polled at the fastest rate after startup.
pub const FAST_CYCLES: u64 = 50;

/// Every how many cycles the device list is sent though nothing changed.
pub const HEARTBEAT_CYCLES: u64 = 10;

/// Seconds between two notices that the monitor is waiting for a device.
pub const WAITING_NOTICE_SECS: u64 = 60;

/// Milliseconds after which the query of a cycle is given up and the cycle
/// skipped.
pub const QUERY_BOUND_MS: u64 = 50;

/// Milliseconds between cycles right after startup.
pub const FAST_INTERVAL_MS: u64 = 100;

/// Milliseconds between cycles while a device is mirrored.
pub const STEADY_INTERVAL_MS: u64 = 250;

/// Milliseconds between cycles while waiting for a device.
pub const WAITING_INTERVAL_MS: u64 = 150;

/// What the caller does next in the cycle.
#[derive(Debug, Clone, Copy, PartialEq, Eq, Structural)]
pub enum NextAction {
    /// Nothing: the cycle is over.
    Done,
    /// Poll the mirroring process and report through `after_poll`.
    PollProcess,
    /// Look for the programs and report through `after_availability`.
    CheckAvailability,
    /// Launch the mirroring program for the leading device and report
    /// through `after_spawn`.
    Spawn,
    /// Stop the mirroring process; the cycle is over.
    StopProcess,
}

/// The answer to one report: messages for the interface, in the order in
/// which they are sent, and what to do next.
#[derive(Debug)]
pub struct CycleStep {
    pub messages: Vec<TuiMessage>,
    pub next: NextAction,
}

/// What the monitor remembers from cycle to cycle.
#[derive(Debug)]
pub struct MonitorState {
    /// The leading device of the last successful launch.
    pub last_device_id: Option<String>,
    /// Whether the mirroring process is believed to be running.
    pub scrcpy_started: bool,
    /// The number of devices in the last listing.
    pub last_device_count: usize,
    /// The number of cycles begun.
    pub consecutive_checks: u64,
    /// The clock reading, in seconds, of the last waiting notice.
    pub last_status_update: u64,
    /// Whether the last listing differed in length from the one before.
    pub device_count_changed: bool,
}

/// The monitor's memory as plain values.
pub struct MonitorView {
    pub last_device_id: Option<Seq<char>>,
    pub scrcpy_started: bool,
    pub last_device_count: nat,
    pub consecutive_checks: nat,
    pub last_status_update: nat,
    pub device_count_changed: bool,
}

/// An answer as plain values, with the memory it leaves.
pub struct StepView {
    pub state: MonitorView,
    pub messages: Seq<MessageView>,
    pub next: NextAction,
}

impl View for MonitorState {
    type V = MonitorView;

    open spec fn view(&self) -> MonitorView {
        MonitorView {
            last_device_id: match self.last_device_id {
                Some(id) => Some(id@),
                None => None,
            },
            scrcpy_started: self.scrcpy_started,
            last_device_count: self.last_device_count as nat,
            consecutive_checks: self.consecutive_checks as nat,
            last_status_update: self.last_status_update as nat,
            device_count_changed: self.device_count_changed,
        }
    }
}

/// The status line while the monitor runs.
pub open spec fn monitoring_status_text() -> Seq<char> {
    "监控设备连接..."@
}

/// The log line that opens the monitoring.
pub open spec fn monitoring_started_text() -> Seq<char> {
    "开始监控Android设备连接"@
}

/// The warning that the mirroring process has ended and is started again.
pub open spec fn restarting_text() -> Seq<char> {
    "检测到scrcpy进程已结束，正在自动重启..."@
}

/// The log line that announces a device.
pub open spec fn discovery_text(device: DeviceView) -> Seq<char> {
    "发现设备: "@ + device.name + " ("@ + device.id + ")"@
}

/// The log line that announces a launch.
pub open spec fn launching_text() -> Seq<char> {
    "正在启动scrcpy..."@
}

/// The log line of a successful launch for the device of this name.
pub open spec fn launched_text(name: Seq<char>) -> Seq<char> {
    "成功启动scrcpy连接设备: "@ + name
}

/// The log line of a failed launch, `reason` being why it failed.
pub open spec fn launch_failed_text(reason: Seq<char>) -> Seq<char> {
    "启动scrcpy失败: "@ + reason
}

/// The log line that says that the programs were not found.
pub open spec fn unavailable_text() -> Seq<char> {
    "scrcpy或adb未找到，请确保scrcpy已正确安装"@
}

/// The warning that the device of this id has gone away.
pub open spec fn disconnected_text(id: Seq<char>) -> Seq<char> {
    "设备已断开连接: "@ + id
}

/// The notice that the monitor is waiting for a device.
pub open spec fn waiting_text() -> Seq<char> {
    "等待设备连接中..."@
}

/// The messages sent when monitoring begins.
pub open spec fn startup_view() -> Seq<MessageView> {
    seq![
        MessageView::Status(monitoring_status_text()),
        MessageView::Log(LogLevel::Info, monitoring_started_text()),
    ]
}

/// One discovery line for each of the first `count` devices, in order.
pub open spec fn discovery_logs(devices: Seq<DeviceView>, count: int) -> Seq<MessageView>
    decreases count,
{
    if count <= 0 {
        Seq::empty()
    } else {
        discovery_logs(devices, count - 1).push(
            MessageView::Log(LogLevel::Device, discovery_text(devices[count - 1])),
        )
    }
}

/// Whether the waiting notice is due at clock reading `now`.
pub open spec fn notice_due(state: MonitorView, now: nat) -> bool {
    now >= state.last_status_update + WAITING_NOTICE_SECS
}

/// The launch decision, taken with devices present once the state of the
/// process is settled. The process is started when none is believed running,
/// when the leading device is not the remembered one, or when the number of
/// devices changed; the devices are announced only in the last two cases.
pub open spec fn launch_spec(
    state: MonitorView,
    devices: Seq<DeviceView>,
    messages: Seq<MessageView>,
) -> StepView {
    let fresh = state.last_device_id != Some(devices[0].id) || state.device_count_changed;
    if !state.scrcpy_started || fresh {
        let announced = if fresh {
            messages + discovery_logs(devices, devices.len() as int)
        } else {
            messages
        };
        StepView {
            state,
            messages: announced.push(MessageView::Log(LogLevel::Launch, launching_text())),
            next: NextAction::CheckAvailability,
        }
    } else {
        StepView { state, messages, next: NextAction::Done }
    }
}

/// What a listing does to the monitor.
pub open spec fn observe_spec(state: MonitorView, devices: Seq<DeviceView>, now: nat) -> StepView {
    let changed = devices.len() != state.last_device_count;
    let messages = if changed || state.consecutive_checks % (HEARTBEAT_CYCLES as nat) == 0 {
        Seq::<MessageView>::empty().push(MessageView::UpdateDevices(devices))
    } else {
        Seq::<MessageView>::empty()
    };
    let seen = MonitorView {
        last_device_count: devices.len(),
        device_count_changed: changed,
        ..state
    };
    if devices.len() > 0 {
        if state.scrcpy_started {
            StepView { state: seen, messages, next: NextAction::PollProcess }
        } else {
            launch_spec(seen, devices, messages)
        }
    } else {
        let parted = if state.scrcpy_started && state.last_device_id is Some {
            messages.push(
                MessageView::Log(LogLevel::Warning, disconnected_text(state.last_device_id->0)),
            )
        } else {
            messages
        };
        let due = notice_due(state, now);
        StepView {
            state: MonitorView {
                scrcpy_started: false,
                last_device_id: if state.scrcpy_started {
                    None
                } else {
                    state.last_device_id
                },
                last_status_update: if due {
                    now
                } else {
                    state.last_status_update
                },
                ..seen
            },
            messages: if due {
                parted.push(MessageView::Log(LogLevel::Info, waiting_text()))
            } else {
                parted
            },
            next: if state.scrcpy_started {
                NextAction::StopProcess
            } else {
                NextAction::Done
            },
        }
    }
}

/// What the poll of the process does to the monitor: a process believed
/// running and found gone is reported and no longer believed running, then
/// the launch decision is taken.
pub open spec fn after_poll_spec(state: MonitorView, running: bool, devices: Seq<DeviceView>) -> StepView {
    if devices.len() == 0 {
        StepView { state, messages: Seq::empty(), next: NextAction::Done }
    } else if state.scrcpy_started && !running {
        launch_spec(
            MonitorView { scrcpy_started: false, ..state },
            devices,
            Seq::<MessageView>::empty().push(
                MessageView::Log(LogLevel::Warning, restarting_text()),
            ),
        )
    } else {
        launch_spec(state, devices, Seq::empty())
    }
}

/// What the search for the programs does to the cycle.
pub open spec fn after_availability_spec(
    state: MonitorView,
    available: bool,
    devices: Seq<DeviceView>,
) -> StepView {
    if devices.len() == 0 {
        StepView { state, messages: Seq::empty(), next: NextAction::Done }
    } else if available {
        StepView { state, messages: Seq::empty(), next: NextAction::Spawn }
    } else {
        StepView {
            state,
            messages: Seq::<MessageView>::empty().push(
                MessageView::Log(LogLevel::Error, unavailable_text()),
            ),
            next: NextAction::Done,
        }
    }
}

/// What the launch does to the monitor. `failure` is the reason of a failed
/// launch, `None` after a successful one.
pub open spec fn after_spawn_spec(
    state: MonitorView,
    failure: Option<Seq<char>>,
    devices: Seq<DeviceView>,
) -> StepView {
    if devices.len() == 0 {
        StepView { state, messages: Seq::empty(), next: NextAction::Done }
    } else {
        match failure {
            None => StepView {
                state: MonitorView {
                    scrcpy_started: true,
                    last_device_id: Some(devices[0].id),
                    ..state
                },
                messages: Seq::<MessageView>::empty().push(
                    MessageView::Log(LogLevel::Success, launched_text(devices[0].name)),
                ),
                next: NextAction::Done,
            },
            Some(reason) => StepView {
                state: MonitorView { scrcpy_started: false, ..state },
                messages: Seq::<MessageView>::empty().push(
                    MessageView::Log(LogLevel::Error, launch_failed_text(reason)),
                ),
                next: NextAction::Done,
            },
        }
    }
}

/// The pause before the next cycle, in milliseconds: the fastest rate during
/// the first cycles, the slowest while a device is mirrored, and the one in
/// between while waiting for a device.
pub open spec fn interval_spec(state: MonitorView) -> nat {
    if state.consecutive_checks < FAST_CYCLES {
        FAST_INTERVAL_MS as nat
    } else if state.scrcpy_started && state.last_device_count > 0 {
        STEADY_INTERVAL_MS as nat
    } else {
        WAITING_INTERVAL_MS as nat
    }
}

/// Whether the memory is consistent: a process is believed running only
/// while the device it was launched for is remembered.
pub open spec fn consistent(state: MonitorView) -> bool {
    state.scrcpy_started ==> state.last_device_id is Some
}

/// Every report leaves a consistent memory consistent, whatever it says.
pub proof fn lemma_reports_keep_consistency(
    state: MonitorView,
    devices: Seq<DeviceView>,
    now: nat,
    running: bool,
    available: bool,
    failure: Option<Seq<char>>,
)
    requires
        consistent(state),
    ensures
        consistent(observe_spec(state, devices, now).state),
        consistent(after_poll_spec(state, running, devices).state),
        consistent(after_availability_spec(state, available, devices).state),
        consistent(after_spawn_spec(state, failure, devices).state),
{
}

/// A process that is found gone while its device stays attached is started
/// again in the same cycle: the listing asks for a poll, and the poll that
/// reports the process gone leads straight to the launch, with a warning and
/// no new announcement of the device.
pub proof fn lemma_restart_after_exit(state: MonitorView, devices: Seq<DeviceView>, now: nat)
    requires
        devices.len() > 0,
        state.scrcpy_started,
        state.last_device_id == Some(devices[0].id),
        state.last_device_count == devices.len(),
    ensures
        observe_spec(state, devices, now).next == NextAction::PollProcess,
        ({
            let polled = after_poll_spec(observe_spec(state, devices, now).state, false, devices);
            &&& polled.next == NextAction::CheckAvailability
            &&& !polled.state.scrcpy_started
            &&& polled.messages == seq![
                MessageView::Log(LogLevel::Warning, restarting_text()),
                MessageView::Log(LogLevel::Launch, launching_text()),
            ]
            &&& after_availability_spec(polled.state, true, devices).next == NextAction::Spawn
        }),
{
    let polled = after_poll_spec(observe_spec(state, devices, now).state, false, devices);
    assert(polled.messages =~= seq![
        MessageView::Log(LogLevel::Warning, restarting_text()),
        MessageView::Log(LogLevel::Launch, launching_text()),
    ]);
}

/// When the devices go away while a process is believed running, the
/// process is to be stopped and the remembered device is forgotten; any
/// device that is listed afterwards, the same one included, is announced
/// anew and launched for.
pub proof fn lemma_disconnect_reset(
    state: MonitorView,
    now: nat,
    devices: Seq<DeviceView>,
    later: nat,
)
    requires
        state.scrcpy_started,
        devices.len() > 0,
    ensures
        ({
            let parted = observe_spec(state, Seq::empty(), now);
            let back = observe_spec(parted.state, devices, later);
            &&& parted.next == NextAction::StopProcess
            &&& parted.state.last_device_id is None
            &&& !parted.state.scrcpy_started
            &&& back.next == NextAction::CheckAvailability
            &&& back.messages == (seq![MessageView::UpdateDevices(devices)] + discovery_logs(
                devices,
                devices.len() as int,
            )).push(MessageView::Log(LogLevel::Launch, launching_text()))
        }),
{
    let parted = observe_spec(state, Seq::empty(), now);
    let back = observe_spec(parted.state, devices, later);
    assert(Seq::<MessageView>::empty().push(MessageView::UpdateDevices(devices))
        =~= seq![MessageView::UpdateDevices(devices)]);
}

/// A launch that failed is tried again: with the device still listed, the
/// next listing leads to the launch without a poll.
pub proof fn lemma_retry_after_failed_spawn(
    state: MonitorView,
    reason: Seq<char>,
    devices: Seq<DeviceView>,
    now: nat,
)
    requires
        devices.len() > 0,
    ensures
        ({
            let failed = after_spawn_spec(state, Some(reason), devices);
            &&& !failed.state.scrcpy_started
            &&& observe_spec(failed.state, devices, now).next == NextAction::CheckAvailability
        }),
{
}

/// The waiting notice is throttled: once it has been sent, no listing
/// within the following `WAITING_NOTICE_SECS` seconds sends it again.
pub proof fn lemma_waiting_notice_throttled(state: MonitorView, now: nat, later: nat)
    requires
        notice_due(state, now),
        later < now + WAITING_NOTICE_SECS,
    ensures
        ({
            let first = observe_spec(state, Seq::empty(), now);
            let second = observe_spec(first.state, Seq::empty(), later);
            &&& first.messages.len() > 0
            &&& first.messages.last() == MessageView::Log(LogLevel::Info, waiting_text())
            &&& first.state.last_status_update == now
            &&& second.state.last_status_update == now
            &&& forall|i: int|
                0 <= i < second.messages.len() ==> second.messages[i] != MessageView::Log(
                    LogLevel::Info,
                    waiting_text(),
                )
        }),
{
    let first = observe_spec(state, Seq::empty(), now);
    let second = observe_spec(first.state, Seq::empty(), later);
    assert(!first.state.scrcpy_started);
}

/// Appends a log line to a batch of messages.
pub fn push_log(messages: &mut Vec<TuiMessage>, level: LogLevel, text: String)
    ensures
        messages_view(final(messages)@) == messages_view(old(messages)@).push(
            MessageView::Log(level, text@),
        ),
{
    messages.push(TuiMessage::Log(level, text));
    assert(messages_view(messages@) =~= messages_view(old(messages)@).push(
        MessageView::Log(level, text@),
    ));
}

/// `head` followed by `tail`.
pub fn join2(head: &str, tail: &str) -> (out: String)
    ensures
        out@ == head@ + tail@,
{
    let mut out = String::from_str(head);
    out.append(tail);
    out
}

/// A copy of a device record.
pub fn clone_device(device: &DeviceInfo) -> (out: DeviceInfo)
    ensures
        out@ == device@,
{
    DeviceInfo {
        id: device.id.clone(),
        name: device.name.clone(),
        status: device.status.clone(),
    }
}

/// A copy of a device list.
pub fn clone_devices(devices: &Vec<DeviceInfo>) -> (out: Vec<DeviceInfo>)
    ensures
        devices_view(out@) == devices_view(devices@),
{
    let mut out: Vec<DeviceInfo> = Vec::new();
    let mut i: usize = 0;
    while i < devices.len()
        invariant
            i <= devices@.len(),
            out@.len() == i,
            forall|k: int| 0 <= k < i ==> out@[k]@ == devices@[k]@,
        decreases devices@.len() - i,
    {
        out.push(clone_device(&devices[i]));
        i = i + 1;
    }
    assert(devices_view(out@) =~= devices_view(devices@));
    out
}

/// The messages sent when monitoring begins: the status line and a first
/// log line.
pub fn startup_messages() -> (messages: Vec<TuiMessage>)
    ensures
        messages_view(messages@) == startup_view(),
{
    let mut messages: Vec<TuiMessage> = Vec::new();
    messages.push(TuiMessage::Status(String::from_str("监控设备连接...")));
    messages.push(TuiMessage::Log(LogLevel::Info, String::from_str("开始监控Android设备连接")));
    assert(messages_view(messages@) =~= startup_view());
    messages
}

impl MonitorState {
    /// The memory of a monitor that starts at clock reading `now_secs`.
    pub fn new(now_secs: u64) -> (state: Self)
        ensures
            state@ == (MonitorView {
                last_device_id: None,
                scrcpy_started: false,
                last_device_count: 0,
                consecutive_checks: 0,
                last_status_update: now_secs as nat,
                device_count_changed: false,
            }),
    {
        MonitorState {
            last_device_id: None,
            scrcpy_started: false,
            last_device_count: 0,
            consecutive_checks: 0,
            last_status_update: now_secs,
            device_count_changed: false,
        }
    }

    /// Counts a cycle in. A cycle whose query overran its bound ends here,
    /// with no pause before the next.
    pub fn begin_cycle(&mut self)
        requires
            old(self).consecutive_checks < u64::MAX,
        ensures
            final(self)@ == (MonitorView {
                consecutive_checks: old(self)@.consecutive_checks + 1,
                ..old(self)@
            }),
    {
        self.consecutive_checks = self.consecutive_checks + 1;
    }

    /// The pause before the next cycle, in milliseconds.
    pub fn next_interval(&self) -> (millis: u64)
        ensures
            millis == interval_spec(self@),
    {
        if self.consecutive_checks < FAST_CYCLES {
            FAST_INTERVAL_MS
        } else if self.scrcpy_started && self.last_device_count > 0 {
            STEADY_INTERVAL_MS
        } else {
            WAITING_INTERVAL_MS
        }
    }

    /// Whether the leading device differs from the remembered one.
    fn leading_device_changed(&self, devices: &Vec<DeviceInfo>) -> (changed: bool)
        requires
            devices@.len() > 0,
        ensures
            changed == (self@.last_device_id != Some(devices@[0]@.id)),
    {
        match &self.last_device_id {
            Some(last) => !(*last == devices[0].id),
            None => true,
        }
    }

    /// Takes the launch decision, adding its messages to `messages`.
    fn decide_launch(&self, devices: &Vec<DeviceInfo>, messages: Vec<TuiMessage>) -> (step:
        CycleStep)
        requires
            devices@.len() > 0,
        ensures
            messages_view(step.messages@) == launch_spec(
                self@,
                devices_view(devices@),
                messages_view(messages@),
            ).messages,
            step.next == launch_spec(
                self@,
                devices_view(devices@),
                messages_view(messages@),
            ).next,
    {
        let mut messages = messages;
        let ghost given = messages_view(messages@);
        let ghost views = devices_view(devices@);
        let fresh = self.leading_device_changed(devices) || self.device_count_changed;
        if !self.scrcpy_started || fresh {
            if fresh {
                let mut i: usize = 0;
                assert(messages_view(messages@) =~= given + discovery_logs(views, 0));
                while i < devices.len()
                    invariant
                        i <= devices@.len(),
                        views == devices_view(devices@),
                        messages_view(messages@) == given + discovery_logs(views, i as int),
                    decreases devices@.len() - i,
                {
                    let device = &devices[i];
                    let mut text = String::from_str("发现设备: ");
                    text.append(device.name.as_str());
                    text.append(" (");
                    text.append(device.id.as_str());
                    text.append(")");
                    assert(text@ == discovery_text(views[i as int]));
                    push_log(&mut messages, LogLevel::Device, text);
                    i = i + 1;
                    assert(messages_view(messages@) =~= given + discovery_logs(views, i as int));
                }
            }
            push_log(&mut messages, LogLevel::Launch, String::from_str("正在启动scrcpy..."));
            CycleStep { messages, next: NextAction::CheckAvailability }
        } else {
            CycleStep { messages, next: NextAction::Done }
        }
    }

    /// Takes in the listing of a cycle, at clock reading `now_secs`.
    ///
    /// The device list is sent on when its length changed or on every
    /// heartbeat cycle. With devices present, a process believed running is
    /// to be polled; otherwise the launch decision is taken at once. With no
    /// device, a process believed running is to be stopped, the remembered
    /// device is forgotten, and the waiting notice is sent when it is due.
    pub fn observe(&mut self, devices: &Vec<DeviceInfo>, now_secs: u64) -> (step: CycleStep)
        ensures
            final(self)@ == observe_spec(
                old(self)@,
                devices_view(devices@),
                now_secs as nat,
            ).state,
            messages_view(step.messages@) == observe_spec(
                old(self)@,
                devices_view(devices@),
                now_secs as nat,
            ).messages,
            step.next == observe_spec(old(self)@, devices_view(devices@), now_secs as nat).next,
    {
        let mut messages: Vec<TuiMessage> = Vec::new();
        let count: usize = devices.len();
        let changed = count != self.last_device_count;
        assert(messages_view(messages@) =~= Seq::<MessageView>::empty());
        if changed || self.consecutive_checks % HEARTBEAT_CYCLES == 0 {
            let copy = clone_devices(devices);
            messages.push(TuiMessage::UpdateDevices(copy));
            assert(messages_view(messages@) =~= Seq::<MessageView>::empty().push(
                MessageView::UpdateDevices(devices_view(devices@)),
            ));
        }
        self.last_device_count = count;
        self.device_count_changed = changed;
        if count > 0 {
            if self.scrcpy_started {
                CycleStep { messages, next: NextAction::PollProcess }
            } else {
                self.decide_launch(devices, messages)
            }
        } else {
            let was_started = self.scrcpy_started;
            if was_started {
                match &self.last_device_id {
                    Some(id) => {
                        let text = join2("设备已断开连接: ", id.as_str());
                        push_log(&mut messages, LogLevel::Warning, text);
                    },
                    None => {},
                }
                self.scrcpy_started = false;
                self.last_device_id = None;
            }
            if now_secs >= self.last_status_update && now_secs - self.last_status_update
                >= WAITING_NOTICE_SECS {
                push_log(&mut messages, LogLevel::Info, String::from_str("等待设备连接中..."));
                self.last_status_update = now_secs;
            }
            CycleStep {
                messages,
                next: if was_started {
                    NextAction::StopProcess
                } else {
                    NextAction::Done
                },
            }
        }
    }

    /// Takes in what the query of a cycle gave, at clock reading `now_secs`.
    ///
    /// A listing is observed. A query that failed is an observation of
    /// nothing: no device is seen and none is missed, nothing is sent,
    /// started or stopped, and the next cycle asks again.
    pub fn observe_query(
        &mut self,
        result: &Result<Vec<DeviceInfo>, QueryError>,
        now_secs: u64,
    ) -> (step: CycleStep)
        ensures
            match result {
                Ok(devices) => {
                    &&& final(self)@ == observe_spec(
                        old(self)@,
                        devices_view(devices@),
                        now_secs as nat,
                    ).state
                    &&& messages_view(step.messages@) == observe_spec(
                        old(self)@,
                        devices_view(devices@),
                        now_secs as nat,
                    ).messages
                    &&& step.next == observe_spec(
                        old(self)@,
                        devices_view(devices@),
                        now_secs as nat,
                    ).next
                },
                Err(_) => {
                    &&& *final(self) == *old(self)
                    &&& step.messages@.len() == 0
                    &&& step.next == NextAction::Done
                },
            },
    {
        match result {
            Ok(devices) => self.observe(devices, now_secs),
            Err(_) => CycleStep { messages: Vec::new(), next: NextAction::Done },
        }
    }

    /// Takes in the poll of the process, `running` saying whether it is
    /// still alive. With no device in `devices` nothing is done.
    pub fn after_poll(&mut self, running: bool, devices: &Vec<DeviceInfo>) -> (step: CycleStep)
        ensures
            final(self)@ == after_poll_spec(old(self)@, running, devices_view(devices@)).state,
            messages_view(step.messages@) == after_poll_spec(
                old(self)@,
                running,
                devices_view(devices@),
            ).messages,
            step.next == after_poll_spec(old(self)@, running, devices_view(devices@)).next,
    {
        let mut messages: Vec<TuiMessage> = Vec::new();
        assert(messages_view(messages@) =~= Seq::<MessageView>::empty());
        if devices.len() == 0 {
            return CycleStep { messages, next: NextAction::Done };
        }
        if self.scrcpy_started && !running {
            push_log(
                &mut messages,
                LogLevel::Warning,
                String::from_str("检测到scrcpy进程已结束，正在自动重启..."),
            );
            self.scrcpy_started = false;
        }
        self.decide_launch(devices, messages)
    }

    /// Takes in whether the programs were found. With no device in
    /// `devices` nothing is done.
    pub fn after_availability(&self, available: bool, devices: &Vec<DeviceInfo>) -> (step:
        CycleStep)
        ensures
            messages_view(step.messages@) == after_availability_spec(
                self@,
                available,
                devices_view(devices@),
            ).messages,
            step.next == after_availability_spec(self@, available, devices_view(devices@)).next,
    {
        let mut messages: Vec<TuiMessage> = Vec::new();
        assert(messages_view(messages@) =~= Seq::<MessageView>::empty());
        if devices.len() == 0 {
            CycleStep { messages, next: NextAction::Done }
        } else if available {
            CycleStep { messages, next: NextAction::Spawn }
        } else {
            push_log(
                &mut messages,
                LogLevel::Error,
                String::from_str("scrcpy或adb未找到，请确保scrcpy已正确安装"),
            );
            CycleStep { messages, next: NextAction::Done }
        }
    }

    /// Takes in what came of the launch: on success the process is believed
    /// running and the leading device is remembered; on failure it is not
    /// believed running, so that the next cycle tries again. With no device
    /// in `devices` nothing is done.
    pub fn after_spawn(&mut self, outcome: &Result<(), String>, devices: &Vec<DeviceInfo>) -> (step:
        CycleStep)
        ensures
            final(self)@ == after_spawn_spec(
                old(self)@,
                match outcome {
                    Ok(_) => None,
                    Err(reason) => Some(reason@),
                },
                devices_view(devices@),
            ).state,
            messages_view(step.messages@) == after_spawn_spec(
                old(self)@,
                match outcome {
                    Ok(_) => None,
                    Err(reason) => Some(reason@),
                },
                devices_view(devices@),
            ).messages,
            step.next == NextAction::Done,
    {
        let mut messages: Vec<TuiMessage> = Vec::new();
        assert(messages_view(messages@) =~= Seq::<MessageView>::empty());
        if devices.len() == 0 {
            return CycleStep { messages, next: NextAction::Done };
        }
        match outcome {
            Ok(_) => {
                let text = join2("成功启动scrcpy连接设备: ", devices[0].name.as_str());
                push_log(&mut messages, LogLevel::Success, text);
                self.scrcpy_started = true;
                self.last_device_id = Some(devices[0].id.clone());
            },
            Err(reason) => {
                let text = join2("启动scrcpy失败: ", reason.as_str());
                push_log(&mut messages, LogLevel::Error, text);
                self.scrcpy_started = false;
            },
        }
        CycleStep { messages, next: NextAction::Done }
    }
}

} // verus!
