use scrcpy_launcher::TuiMessage;
use scrcpy_launcher::single_instance::InstanceError;
use scrcpy_launcher::single_instance::MutexAttempt;
use scrcpy_launcher::single_instance::SingleInstanceGuard;
use scrcpy_launcher::single_instance::StartupAction;
use scrcpy_launcher::single_instance::WindowAction;
use scrcpy_launcher::single_instance::WindowSearch;
use scrcpy_launcher::single_instance::exit_code;
use scrcpy_launcher::single_instance::startup_action;
use scrcpy_launcher::text::chars_of;
use scrcpy_launcher::text::format_clock;
use scrcpy_launcher::text::is_whitespace;
use scrcpy_launcher::text::string_of;
use scrcpy_launcher::tui::AppState;
use scrcpy_launcher::tui::Key;
use scrcpy_launcher::tui::quits;
use scrcpy_launcher::tui::DeviceInfo;
use scrcpy_launcher::tui::LogEntry;
use scrcpy_launcher::tui::LogLevel;
use scrcpy_launcher::tui::format_timestamp;
use scrcpy_launcher::tui::get_timestamp;
use scrcpy_launcher::ui::TerminalUI;

fn is_clock(text: &str) -> bool {
    let chars: Vec<char> = text.chars().collect();
    chars.len() == 8
        && chars[2] == ':'
        && chars[5] == ':'
        && [0, 1, 3, 4, 6, 7].iter().all(|i| chars[*i].is_ascii_digit())
}

#[test]
fn state_starts_empty() {
    let state = AppState::default();
    assert_eq!(state.status, "初始化中...");
    assert!(state.logs.is_empty());
    assert!(state.devices.is_empty());
    assert!(state.version_info.is_none());
    assert!(!state.should_quit);
}

#[test]
fn log_keeps_the_most_recent_hundred() {
    let mut state = AppState::default();
    for i in 0..150 {
        state.add_log(LogLevel::Info, format!("line {}", i));
    }
    assert_eq!(state.logs.len(), 100);
    for (k, entry) in state.logs.iter().enumerate() {
        assert_eq!(entry.message, format!("line {}", k + 50));
        assert_eq!(entry.level, LogLevel::Info);
        assert!(is_clock(&entry.timestamp));
    }
}

#[test]
fn log_at_the_cap_evicts_exactly_one() {
    let mut state = AppState::default();
    for i in 0..100 {
        state.add_log_at("00:00:00".to_string(), LogLevel::Device, format!("line {}", i));
    }
    assert_eq!(state.logs.len(), 100);
    assert_eq!(state.logs[0].message, "line 0");
    state.add_log_at("00:00:01".to_string(), LogLevel::Error, "last".to_string());
    assert_eq!(state.logs.len(), 100);
    assert_eq!(state.logs[0].message, "line 1");
    assert_eq!(state.logs[99].message, "last");
    assert_eq!(state.logs[99].timestamp, "00:00:01");
    assert_eq!(state.logs[99].level, LogLevel::Error);
}

#[test]
fn messages_fold_into_the_state() {
    let mut state = AppState::default();
    assert!(!state.apply_message(TuiMessage::Status("ready".to_string())));
    assert_eq!(state.status, "ready");
    let device = DeviceInfo {
        id: "ABC123".to_string(),
        name: "Android设备".to_string(),
        status: "已连接".to_string(),
    };
    assert!(!state.apply_message(TuiMessage::UpdateDevices(vec![device])));
    assert_eq!(state.devices.len(), 1);
    assert_eq!(state.devices[0].id, "ABC123");
    assert!(!state.apply_message(TuiMessage::Log(LogLevel::Launch, "go".to_string())));
    assert_eq!(state.logs.len(), 1);
    assert_eq!(state.logs[0].message, "go");
    assert_eq!(state.logs[0].level, LogLevel::Launch);
    assert!(is_clock(&state.logs[0].timestamp));
    assert!(!state.should_quit);
    assert!(state.apply_message(TuiMessage::Quit));
    assert!(state.should_quit);
    assert_eq!(state.status, "ready");
    assert_eq!(state.logs.len(), 1);
}

#[test]
fn messages_fold_with_a_given_timestamp() {
    let mut state = AppState::default();
    let done = state.apply_message_at(
        TuiMessage::Log(LogLevel::Warning, "careful".to_string()),
        "12:34:56".to_string(),
    );
    assert!(!done);
    assert_eq!(state.logs[0].timestamp, "12:34:56");
    assert_eq!(state.logs[0].message, "careful");
    assert!(state.apply_message_at(TuiMessage::Quit, "12:34:57".to_string()));
    assert!(state.should_quit);
}

#[test]
fn timestamps_are_eight_hours_ahead_and_wrap() {
    assert_eq!(format_timestamp(0), "08:00:00");
    assert_eq!(format_timestamp(3_661), "09:01:01");
    assert_eq!(format_timestamp(16 * 3600 + 5 * 60 + 7), "00:05:07");
    assert_eq!(format_timestamp(86_399), "07:59:59");
    assert_eq!(format_timestamp(1_700_000_000), "06:13:20");
    assert!(is_clock(&get_timestamp()));
}

#[test]
fn terminal_timestamps_do_not_wrap() {
    assert_eq!(TerminalUI::format_timestamp(0), "08:00:00");
    assert_eq!(TerminalUI::format_timestamp(16 * 3600 + 5 * 60 + 7), "24:05:07");
    assert_eq!(TerminalUI::format_timestamp(86_399), "31:59:59");
    assert!(is_clock(&TerminalUI::get_timestamp()));
}

#[test]
fn clock_is_written_with_two_digits_each() {
    assert_eq!(format_clock(0, 0, 0), "00:00:00");
    assert_eq!(format_clock(9, 10, 59), "09:10:59");
    assert_eq!(format_clock(99, 99, 99), "99:99:99");
}

#[test]
fn terminal_lines_carry_their_icons() {
    assert_eq!(TerminalUI::format_status("08:00:00", "✅", "done"), "[08:00:00] ✅ done");
    let cases = vec![
        (TerminalUI::print_success("m"), "✅"),
        (TerminalUI::print_error("m"), "❌"),
        (TerminalUI::print_warning("m"), "⚠️"),
        (TerminalUI::print_info("m"), "ℹ️"),
        (TerminalUI::print_progress("m"), "📊"),
        (TerminalUI::print_device("m"), "📱"),
        (TerminalUI::print_download("m"), "📥"),
        (TerminalUI::print_file("m"), "📁"),
        (TerminalUI::print_version("m"), "📦"),
        (TerminalUI::print_network("m"), "🌐"),
        (TerminalUI::print_launch("m"), "🚀"),
        (TerminalUI::print_stop("m"), "🛑"),
        (TerminalUI::print_tip("m"), "💡"),
        (TerminalUI::print_search("m"), "🔍"),
        (TerminalUI::print_lock("m"), "🔒"),
        (TerminalUI::print_status("->", "m"), "->"),
    ];
    for (line, icon) in cases {
        assert!(line.starts_with('['));
        assert!(is_clock(&line[1..9]));
        assert_eq!(&line[9..], format!("] {} m", icon));
    }
}

#[test]
fn characters_go_in_and_out_of_strings() {
    let chars = chars_of("a设b");
    assert_eq!(chars, vec!['a', '设', 'b']);
    assert_eq!(string_of(&chars, 1, 3), "设b");
    assert_eq!(string_of(&chars, 2, 2), "");
    assert!(is_whitespace(' '));
    assert!(is_whitespace('\t'));
    assert!(is_whitespace('\u{2028}'));
    assert!(!is_whitespace('a'));
    assert!(!is_whitespace('\u{200b}'));
    for code in 0..0x3100u32 {
        if let Some(c) = char::from_u32(code) {
            assert_eq!(is_whitespace(c), c.is_whitespace());
        }
    }
}

#[test]
fn token_name_depends_on_the_application_name_alone() {
    assert_eq!(
        SingleInstanceGuard::mutex_name("scrcpy-launcher"),
        Ok("Global\\scrcpy-launcher".to_string())
    );
    assert_eq!(SingleInstanceGuard::mutex_name("a\0b"), Err(InstanceError::InvalidName));
}

#[test]
fn of_two_contenders_one_holds_the_token() {
    let first = MutexAttempt { handle_is_null: false, already_exists: false };
    let second = MutexAttempt { handle_is_null: false, already_exists: true };
    let winner = SingleInstanceGuard::new("scrcpy-launcher", first).unwrap();
    assert_eq!(winner.mutex_name, "Global\\scrcpy-launcher");
    match SingleInstanceGuard::new("scrcpy-launcher", second) {
        Err(error) => {
            assert_eq!(error, InstanceError::AlreadyRunning);
            assert_eq!(error.message(), "应用程序已在运行");
        }
        Ok(_) => panic!("two holders"),
    }
}

#[test]
fn failed_token_creation_is_its_own_error() {
    let failed = MutexAttempt { handle_is_null: true, already_exists: true };
    match SingleInstanceGuard::new("scrcpy-launcher", failed) {
        Err(error) => {
            assert_eq!(error, InstanceError::CreateFailed);
            assert_eq!(error.message(), "创建命名互斥量失败");
        }
        Ok(_) => panic!("no token was handed out"),
    }
    let fine = MutexAttempt { handle_is_null: false, already_exists: false };
    match SingleInstanceGuard::new("bad\0name", fine) {
        Err(error) => {
            assert_eq!(error, InstanceError::InvalidName);
            assert_eq!(error.message(), "创建互斥量名称失败");
        }
        Ok(_) => panic!("name holds a NUL"),
    }
}

#[test]
fn running_instance_is_detected() {
    let created = MutexAttempt { handle_is_null: false, already_exists: false };
    let existed = MutexAttempt { handle_is_null: false, already_exists: true };
    let failed = MutexAttempt { handle_is_null: true, already_exists: true };
    assert!(SingleInstanceGuard::is_already_running(true, created));
    assert!(SingleInstanceGuard::is_already_running(false, existed));
    assert!(!SingleInstanceGuard::is_already_running(false, created));
    assert!(!SingleInstanceGuard::is_already_running(false, failed));
}

#[test]
fn answers_that_confirm() {
    for yes in ["y", "Y", " yes \n", "YES", "Yes\r\n", "是", "确定", "\t确定 "] {
        assert!(TerminalUI::is_affirmative(yes), "{:?}", yes);
    }
    for no in ["", "n", "no", "yes please", "ye", "yy", "否", "\n"] {
        assert!(!TerminalUI::is_affirmative(no), "{:?}", no);
    }
    assert!(TerminalUI::is_yes("yes"));
    assert!(!TerminalUI::is_yes("YES"));
    assert!(!TerminalUI::is_yes(" y"));
    assert_eq!(TerminalUI::trim("  a b \r\n"), "a b");
    assert_eq!(TerminalUI::trim(" \t "), "");
    assert_eq!(TerminalUI::confirmation_prompt("继续？"), "❓ 继续？ (y/N): ");
}

#[test]
fn progress_bar_fills_from_the_left() {
    assert_eq!(TerminalUI::progress_bar(0, 0), format!("▌{}", "░".repeat(39)));
    assert_eq!(TerminalUI::progress_bar(20, 50), format!("{}▌{}", "█".repeat(20), "░".repeat(19)));
    assert_eq!(TerminalUI::progress_bar(40, 100), "█".repeat(40));
    assert_eq!(TerminalUI::progress_bar(39, 99), format!("{}▌", "█".repeat(39)));
    assert_eq!(TerminalUI::progress_bar(10, 100), format!("{}{}", "█".repeat(10), "░".repeat(30)));
}

#[test]
fn log_and_device_lines_are_formatted() {
    let entry = LogEntry {
        timestamp: "08:00:00".to_string(),
        level: LogLevel::Warning,
        message: "careful".to_string(),
    };
    assert_eq!(entry.line(), "[08:00:00] ⚠️ careful");
    let icons = [
        (LogLevel::Info, "ℹ️"),
        (LogLevel::Success, "✅"),
        (LogLevel::Warning, "⚠️"),
        (LogLevel::Error, "❌"),
        (LogLevel::Device, "📱"),
        (LogLevel::Download, "📥"),
        (LogLevel::Launch, "🚀"),
    ];
    for (level, icon) in icons {
        assert_eq!(level.icon(), icon);
    }
    let device = DeviceInfo {
        id: "ABC123".to_string(),
        name: "Android设备".to_string(),
        status: "已连接".to_string(),
    };
    assert_eq!(device.line(), "📱 Android设备 - ABC123 (已连接)");
}

#[test]
fn startup_follows_the_arbitration() {
    assert_eq!(startup_action(None), StartupAction::Proceed);
    assert_eq!(startup_action(Some(InstanceError::AlreadyRunning)), StartupAction::ActivateExisting);
    assert_eq!(startup_action(Some(InstanceError::CreateFailed)), StartupAction::Abort);
    assert_eq!(startup_action(Some(InstanceError::InvalidName)), StartupAction::Abort);
    assert_eq!(exit_code(StartupAction::ActivateExisting), 0);
    assert_eq!(exit_code(StartupAction::Proceed), 0);
    assert_eq!(exit_code(StartupAction::Abort), 1);
}

#[test]
fn window_search_stops_at_the_first_match() {
    let mut search = WindowSearch::new(Some(77));
    assert!(search.visit(1, 5, "Editor"));
    assert!(search.visit(2, 6, "Terminal"));
    assert!(!search.visit(3, 77, "anything"));
    assert_eq!(search.found, Some(3));
    assert!(!search.visit(4, 77, "scrcpy-launcher"));
    assert_eq!(search.found, Some(3));
    assert_eq!(search.activation(true), vec![WindowAction::Restore(3), WindowAction::Foreground(3)]);
    assert_eq!(search.activation(false), vec![WindowAction::Foreground(3)]);

    let mut by_title = WindowSearch::new(None);
    assert!(by_title.visit(1, 5, "Editor"));
    assert!(!by_title.visit(9, 6, "🚀 SCRCPY 智能启动器 v1.0"));
    assert_eq!(by_title.found, Some(9));
}

#[test]
fn window_search_without_a_match_does_nothing() {
    let mut search = WindowSearch::new(Some(77));
    assert!(search.visit(1, 5, "Editor"));
    assert!(search.visit(2, 6, "SCRCPY"));
    assert_eq!(search.found, None);
    assert!(search.activation(true).is_empty());
    assert!(search.activation(false).is_empty());
}

#[test]
fn keys_that_quit() {
    assert!(quits(Key::Char('q', false)));
    assert!(quits(Key::Char('q', true)));
    assert!(quits(Key::Esc));
    assert!(quits(Key::Char('c', true)));
    assert!(!quits(Key::Char('c', false)));
    assert!(!quits(Key::Char('Q', false)));
    assert!(!quits(Key::Other));
}
