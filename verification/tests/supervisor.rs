use scrcpy_launcher::device_monitor::DeviceMonitor;
use scrcpy_launcher::device_monitor::WaitOutcome;
use std::path::PathBuf;

fn fresh() -> DeviceMonitor {
    DeviceMonitor::new(&PathBuf::from("scrcpy"))
}

#[test]
fn new_supervisor_holds_nothing_and_knows_its_programs() {
    let monitor = fresh();
    assert_eq!(monitor.scrcpy_process, None);
    assert_eq!(monitor.adb_exe, PathBuf::from("scrcpy").join("adb.exe"));
    assert_eq!(monitor.scrcpy_exe, PathBuf::from("scrcpy").join("scrcpy.exe"));
}

#[test]
fn supervisor_keeps_the_paths_it_is_given() {
    let monitor =
        DeviceMonitor::with_programs(PathBuf::from("tools/adb"), PathBuf::from("bin/scrcpy"));
    assert_eq!(monitor.adb_exe, PathBuf::from("tools/adb"));
    assert_eq!(monitor.scrcpy_exe, PathBuf::from("bin/scrcpy"));
    assert_eq!(monitor.scrcpy_process, None);
}

#[test]
fn programs_follow_the_folder() {
    let here = DeviceMonitor::new(&PathBuf::from("a"));
    let there = DeviceMonitor::new(&PathBuf::from("b"));
    assert_ne!(here.adb_exe, there.adb_exe);
    assert_ne!(here.scrcpy_exe, there.scrcpy_exe);
    assert_ne!(here.adb_exe, here.scrcpy_exe);
    assert_eq!(here.adb_exe.file_name().and_then(|n| n.to_str()), Some("adb.exe"));
    assert_eq!(here.scrcpy_exe.file_name().and_then(|n| n.to_str()), Some("scrcpy.exe"));
    assert_eq!(here.adb_exe.parent(), Some(PathBuf::from("a").as_path()));
}

#[test]
fn stop_twice_with_nothing_held_does_nothing() {
    let mut monitor = fresh();
    assert_eq!(monitor.stop_scrcpy(), None);
    assert_eq!(monitor.scrcpy_process, None);
    assert_eq!(monitor.stop_scrcpy(), None);
    assert_eq!(monitor.scrcpy_process, None);
}

#[test]
fn stop_gives_up_the_held_process_once() {
    let mut monitor = fresh();
    let _ = monitor.start_scrcpy(None);
    assert!(monitor.finish_start(Ok(41)).is_ok());
    assert_eq!(monitor.stop_scrcpy(), Some(41));
    assert_eq!(monitor.stop_scrcpy(), None);
}

#[test]
fn start_replaces_the_held_process() {
    let mut monitor = fresh();
    let plan = monitor.start_scrcpy(Some("ABC123"));
    assert_eq!(plan.replaced, None);
    assert_eq!(plan.args, vec!["-s".to_string(), "ABC123".to_string()]);
    assert!(monitor.finish_start(Ok(7)).is_ok());
    assert_eq!(monitor.scrcpy_process, Some(7));

    let plan = monitor.start_scrcpy(None);
    assert_eq!(plan.replaced, Some(7));
    assert!(plan.args.is_empty());
    assert_eq!(monitor.scrcpy_process, None);
    assert!(monitor.finish_start(Ok(8)).is_ok());
    assert_eq!(monitor.scrcpy_process, Some(8));
}

#[test]
fn failed_launch_is_reported_and_nothing_is_held() {
    let mut monitor = fresh();
    let _ = monitor.start_scrcpy(Some("ABC123"));
    assert_eq!(
        monitor.finish_start(Err("not found".to_string())),
        Err("启动scrcpy失败: not found".to_string())
    );
    assert_eq!(monitor.scrcpy_process, None);
}

#[test]
fn poll_lets_go_of_a_process_that_is_gone() {
    let mut monitor = fresh();
    assert!(!monitor.is_scrcpy_running(WaitOutcome::Running));
    assert_eq!(monitor.scrcpy_process, None);

    let _ = monitor.start_scrcpy(None);
    let _ = monitor.finish_start(Ok(3));
    assert!(monitor.is_scrcpy_running(WaitOutcome::Running));
    assert_eq!(monitor.scrcpy_process, Some(3));
    assert!(!monitor.is_scrcpy_running(WaitOutcome::Exited));
    assert_eq!(monitor.scrcpy_process, None);

    let _ = monitor.start_scrcpy(None);
    let _ = monitor.finish_start(Ok(4));
    assert!(!monitor.is_scrcpy_running(WaitOutcome::Failed));
    assert_eq!(monitor.scrcpy_process, None);
}

#[test]
fn never_more_than_one_process_alive() {
    let mut monitor = fresh();
    let mut alive: Vec<u32> = Vec::new();
    let mut next: u32 = 100;
    for round in 0..40u32 {
        match round % 4 {
            0 | 1 => {
                let plan = monitor.start_scrcpy(None);
                if let Some(gone) = plan.replaced {
                    alive.retain(|p| *p != gone);
                }
                assert!(alive.is_empty());
                if round % 3 == 0 {
                    let _ = monitor.finish_start(Err("x".to_string()));
                } else {
                    next += 1;
                    alive.push(next);
                    let _ = monitor.finish_start(Ok(next));
                }
            }
            2 => {
                let outcome = if round % 8 == 2 { WaitOutcome::Exited } else { WaitOutcome::Running };
                let held = monitor.scrcpy_process;
                if !monitor.is_scrcpy_running(outcome) {
                    if let Some(gone) = held {
                        alive.retain(|p| *p != gone);
                    }
                }
            }
            _ => {
                if let Some(gone) = monitor.stop_scrcpy() {
                    alive.retain(|p| *p != gone);
                }
            }
        }
        assert!(alive.len() <= 1);
        assert_eq!(alive.first().copied(), monitor.scrcpy_process);
    }
}

#[test]
fn programs_are_available_only_together() {
    let monitor = fresh();
    assert!(monitor.is_scrcpy_available(true, true));
    assert!(!monitor.is_scrcpy_available(true, false));
    assert!(!monitor.is_scrcpy_available(false, true));
    assert!(!monitor.is_scrcpy_available(false, false));
}
