use scrcpy_launcher::device_monitor::QueryError;
use scrcpy_launcher::monitor::startup_messages;
use scrcpy_launcher::monitor::CycleStep;
use scrcpy_launcher::monitor::MonitorState;
use scrcpy_launcher::monitor::NextAction;
use scrcpy_launcher::tui::DeviceInfo;
use scrcpy_launcher::tui::LogLevel;
use scrcpy_launcher::TuiMessage;

fn device(id: &str) -> DeviceInfo {
    DeviceInfo { id: id.to_string(), name: "Android设备".to_string(), status: "已连接".to_string() }
}

fn logs(step: &CycleStep) -> Vec<(LogLevel, String)> {
    let mut out = Vec::new();
    for message in &step.messages {
        if let TuiMessage::Log(level, text) = message {
            out.push((*level, text.clone()));
        }
    }
    out
}

fn updates(step: &CycleStep) -> usize {
    step.messages.iter().filter(|m| matches!(m, TuiMessage::UpdateDevices(_))).count()
}

/// Runs a cycle that ends in a successful launch.
fn connect(state: &mut MonitorState, devices: &Vec<DeviceInfo>, now: u64) {
    state.begin_cycle();
    let step = state.observe(devices, now);
    assert_eq!(step.next, NextAction::CheckAvailability);
    let step = state.after_availability(true, devices);
    assert_eq!(step.next, NextAction::Spawn);
    let step = state.after_spawn(&Ok(()), devices);
    assert_eq!(step.next, NextAction::Done);
}

#[test]
fn monitoring_begins_with_status_and_log() {
    let messages = startup_messages();
    assert_eq!(messages.len(), 2);
    assert!(matches!(&messages[0], TuiMessage::Status(text) if text == "监控设备连接..."));
    assert!(matches!(&messages[1], TuiMessage::Log(LogLevel::Info, text) if text == "开始监控Android设备连接"));
}

#[test]
fn first_device_is_announced_and_launched() {
    let mut state = MonitorState::new(0);
    let devices = vec![device("ABC123"), device("DEF456")];
    state.begin_cycle();
    let step = state.observe(&devices, 1);
    assert_eq!(step.next, NextAction::CheckAvailability);
    assert_eq!(updates(&step), 1);
    match &step.messages[0] {
        TuiMessage::UpdateDevices(sent) => {
            assert_eq!(sent.len(), 2);
            assert_eq!(sent[0].id, "ABC123");
            assert_eq!(sent[1].id, "DEF456");
        }
        other => panic!("unexpected: {:?}", other),
    }
    assert_eq!(
        logs(&step),
        vec![
            (LogLevel::Device, "发现设备: Android设备 (ABC123)".to_string()),
            (LogLevel::Device, "发现设备: Android设备 (DEF456)".to_string()),
            (LogLevel::Launch, "正在启动scrcpy...".to_string()),
        ]
    );
    let step = state.after_availability(true, &devices);
    assert_eq!(step.next, NextAction::Spawn);
    assert!(step.messages.is_empty());
    let step = state.after_spawn(&Ok(()), &devices);
    assert_eq!(logs(&step), vec![(LogLevel::Success, "成功启动scrcpy连接设备: Android设备".to_string())]);
    assert!(state.scrcpy_started);
    assert_eq!(state.last_device_id, Some("ABC123".to_string()));
    assert_eq!(state.last_device_count, 2);
}

#[test]
fn steady_device_with_live_process_does_nothing() {
    let mut state = MonitorState::new(0);
    let devices = vec![device("ABC123")];
    connect(&mut state, &devices, 1);
    state.begin_cycle();
    let step = state.observe(&devices, 2);
    assert_eq!(step.next, NextAction::PollProcess);
    assert!(step.messages.is_empty());
    let step = state.after_poll(true, &devices);
    assert_eq!(step.next, NextAction::Done);
    assert!(step.messages.is_empty());
    assert!(state.scrcpy_started);
}

#[test]
fn process_that_ended_is_restarted_while_the_device_stays() {
    let mut state = MonitorState::new(0);
    let devices = vec![device("ABC123")];
    connect(&mut state, &devices, 1);
    state.begin_cycle();
    let step = state.observe(&devices, 2);
    assert_eq!(step.next, NextAction::PollProcess);
    let step = state.after_poll(false, &devices);
    assert_eq!(step.next, NextAction::CheckAvailability);
    assert_eq!(
        logs(&step),
        vec![
            (LogLevel::Warning, "检测到scrcpy进程已结束，正在自动重启...".to_string()),
            (LogLevel::Launch, "正在启动scrcpy...".to_string()),
        ]
    );
    assert!(!state.scrcpy_started);
    assert_eq!(state.after_availability(true, &devices).next, NextAction::Spawn);
    let _ = state.after_spawn(&Ok(()), &devices);
    assert!(state.scrcpy_started);
}

#[test]
fn disconnect_stops_the_process_and_forgets_the_device() {
    let mut state = MonitorState::new(0);
    let devices = vec![device("ABC123")];
    connect(&mut state, &devices, 1);

    state.begin_cycle();
    let none: Vec<DeviceInfo> = Vec::new();
    let step = state.observe(&none, 2);
    assert_eq!(step.next, NextAction::StopProcess);
    assert_eq!(logs(&step), vec![(LogLevel::Warning, "设备已断开连接: ABC123".to_string())]);
    assert_eq!(updates(&step), 1);
    assert!(!state.scrcpy_started);
    assert_eq!(state.last_device_id, None);

    state.begin_cycle();
    let step = state.observe(&devices, 3);
    assert_eq!(step.next, NextAction::CheckAvailability);
    assert_eq!(
        logs(&step),
        vec![
            (LogLevel::Device, "发现设备: Android设备 (ABC123)".to_string()),
            (LogLevel::Launch, "正在启动scrcpy...".to_string()),
        ]
    );
}

#[test]
fn failed_launch_is_tried_again_next_cycle() {
    let mut state = MonitorState::new(0);
    let devices = vec![device("ABC123")];
    state.begin_cycle();
    let _ = state.observe(&devices, 1);
    let _ = state.after_availability(true, &devices);
    let step = state.after_spawn(&Err("启动scrcpy失败: denied".to_string()), &devices);
    assert_eq!(logs(&step), vec![(LogLevel::Error, "启动scrcpy失败: 启动scrcpy失败: denied".to_string())]);
    assert!(!state.scrcpy_started);
    assert_eq!(state.last_device_id, None);

    state.begin_cycle();
    let step = state.observe(&devices, 2);
    assert_eq!(step.next, NextAction::CheckAvailability);
    assert_eq!(updates(&step), 0);
    assert_eq!(
        logs(&step),
        vec![
            (LogLevel::Device, "发现设备: Android设备 (ABC123)".to_string()),
            (LogLevel::Launch, "正在启动scrcpy...".to_string()),
        ]
    );
}

#[test]
fn missing_programs_are_reported() {
    let mut state = MonitorState::new(0);
    let devices = vec![device("ABC123")];
    state.begin_cycle();
    let _ = state.observe(&devices, 1);
    let step = state.after_availability(false, &devices);
    assert_eq!(step.next, NextAction::Done);
    assert_eq!(
        logs(&step),
        vec![(LogLevel::Error, "scrcpy或adb未找到，请确保scrcpy已正确安装".to_string())]
    );
    assert!(!state.scrcpy_started);
}

#[test]
fn changed_leading_device_restarts_with_announcement() {
    let mut state = MonitorState::new(0);
    connect(&mut state, &vec![device("ABC123")], 1);
    let devices = vec![device("XYZ999")];
    state.begin_cycle();
    let step = state.observe(&devices, 2);
    assert_eq!(step.next, NextAction::PollProcess);
    let step = state.after_poll(true, &devices);
    assert_eq!(step.next, NextAction::CheckAvailability);
    assert_eq!(
        logs(&step),
        vec![
            (LogLevel::Device, "发现设备: Android设备 (XYZ999)".to_string()),
            (LogLevel::Launch, "正在启动scrcpy...".to_string()),
        ]
    );
}

#[test]
fn changed_device_count_restarts_with_announcement() {
    let mut state = MonitorState::new(0);
    connect(&mut state, &vec![device("ABC123")], 1);
    let devices = vec![device("ABC123"), device("XYZ999")];
    state.begin_cycle();
    let step = state.observe(&devices, 2);
    assert_eq!(updates(&step), 1);
    assert_eq!(step.next, NextAction::PollProcess);
    let step = state.after_poll(true, &devices);
    assert_eq!(step.next, NextAction::CheckAvailability);
    assert_eq!(logs(&step).len(), 3);
}

#[test]
fn device_list_is_sent_on_change_and_on_heartbeat() {
    let mut state = MonitorState::new(0);
    let none: Vec<DeviceInfo> = Vec::new();
    let mut sent = Vec::new();
    for cycle in 1..=30u64 {
        state.begin_cycle();
        let step = state.observe(&none, 1);
        if updates(&step) > 0 {
            sent.push(cycle);
        }
    }
    assert_eq!(sent, vec![10, 20, 30]);
    state.begin_cycle();
    let step = state.observe(&vec![device("ABC123")], 1);
    assert_eq!(updates(&step), 1);
}

#[test]
fn waiting_notice_comes_once_a_minute() {
    let mut state = MonitorState::new(100);
    let none: Vec<DeviceInfo> = Vec::new();
    let mut noticed = Vec::new();
    for now in 100..=290u64 {
        state.begin_cycle();
        let step = state.observe(&none, now);
        assert_eq!(step.next, NextAction::Done);
        for (level, text) in logs(&step) {
            assert_eq!(level, LogLevel::Info);
            assert_eq!(text, "等待设备连接中...");
            noticed.push(now);
        }
    }
    assert_eq!(noticed, vec![160, 220, 280]);
}

#[test]
fn clock_that_went_back_sends_no_notice() {
    let mut state = MonitorState::new(500);
    let none: Vec<DeviceInfo> = Vec::new();
    state.begin_cycle();
    let step = state.observe(&none, 10);
    assert!(logs(&step).is_empty());
    assert_eq!(state.last_status_update, 500);
}

#[test]
fn interval_follows_the_three_tiers() {
    let mut state = MonitorState::new(0);
    let devices = vec![device("ABC123")];
    for _ in 0..49 {
        state.begin_cycle();
        assert_eq!(state.next_interval(), 100);
    }
    state.begin_cycle();
    assert_eq!(state.consecutive_checks, 50);
    assert_eq!(state.next_interval(), 150);
    let _ = state.observe(&devices, 1);
    assert_eq!(state.next_interval(), 150);
    let _ = state.after_availability(true, &devices);
    let _ = state.after_spawn(&Ok(()), &devices);
    assert_eq!(state.next_interval(), 250);
    state.begin_cycle();
    let none: Vec<DeviceInfo> = Vec::new();
    let _ = state.observe(&none, 2);
    assert_eq!(state.next_interval(), 150);
}

#[test]
fn reports_without_a_device_change_nothing() {
    let mut state = MonitorState::new(0);
    let none: Vec<DeviceInfo> = Vec::new();
    let step = state.after_poll(false, &none);
    assert_eq!(step.next, NextAction::Done);
    assert!(step.messages.is_empty());
    let step = state.after_availability(true, &none);
    assert_eq!(step.next, NextAction::Done);
    let step = state.after_spawn(&Ok(()), &none);
    assert_eq!(step.next, NextAction::Done);
    assert!(!state.scrcpy_started);
    assert_eq!(state.last_device_id, None);
}

#[test]
fn failed_query_changes_nothing() {
    let mut state = MonitorState::new(0);
    let devices = vec![device("ABC123")];
    connect(&mut state, &devices, 1);
    for _ in 0..9 {
        state.begin_cycle();
        let step = state.observe_query(&Err(QueryError::Timeout), 1_000);
        assert_eq!(step.next, NextAction::Done);
        assert!(step.messages.is_empty());
    }
    assert_eq!(state.consecutive_checks, 10);
    assert!(state.scrcpy_started);
    assert_eq!(state.last_device_id, Some("ABC123".to_string()));
    assert_eq!(state.last_device_count, 1);
    assert_eq!(state.last_status_update, 0);

    state.begin_cycle();
    let step = state.observe_query(&Ok(devices), 1_001);
    assert_eq!(step.next, NextAction::PollProcess);
}
