use ptt_hook::callback::{edge_signal, key_edge, KeyEdge, PttSignal};
use ptt_hook::controller::{InstallStep, KeyState, PttHook, StartStep, WorkerPhase, DISABLED_KEY};
use ptt_hook::win32::{pump_continues, KBDLLHOOKSTRUCT, MSG, WM_KEYDOWN, WM_KEYUP, WM_SYSKEYDOWN, WM_SYSKEYUP};

const SPACE: i32 = 0x20;
const KEY_A: i32 = 0x41;

fn event(h: &mut PttHook, w_param: usize, vk: i32) -> Option<PttSignal> {
    h.on_key_event(0, w_param, &KBDLLHOOKSTRUCT::for_key(vk as u32))
}

/// Drives a fresh hook through a successful start of `key` on thread `tid`.
fn started(key: i32, tid: u32) -> PttHook {
    let mut h = PttHook::new(true);
    assert_eq!(h.start(key), StartStep::SpawnWorker);
    assert_eq!(h.worker_installed(tid, true), InstallStep::Pump);
    h
}

#[test]
fn space_press_repeats_and_release() {
    let mut h = started(SPACE, 7);
    assert_eq!(event(&mut h, WM_KEYDOWN, SPACE), Some(PttSignal::KeyDown));
    for _ in 0..9 {
        assert_eq!(event(&mut h, WM_KEYDOWN, SPACE), None);
    }
    assert_eq!(event(&mut h, WM_KEYUP, SPACE), Some(PttSignal::KeyUp));
    assert_eq!(event(&mut h, WM_KEYUP, SPACE), None);
}

#[test]
fn second_start_swaps_key_without_new_worker() {
    let mut h = started(SPACE, 7);
    assert_eq!(h.start(KEY_A), StartStep::Finished(true));
    assert!(h.is_running());
    assert_eq!(h.owning_thread(), Some(7));
    assert_eq!(event(&mut h, WM_KEYDOWN, SPACE), None);
    assert_eq!(event(&mut h, WM_KEYDOWN, KEY_A), Some(PttSignal::KeyDown));
    assert_eq!(event(&mut h, WM_KEYUP, SPACE), None);
    assert_eq!(event(&mut h, WM_KEYUP, KEY_A), Some(PttSignal::KeyUp));
}

#[test]
fn stop_without_worker_changes_nothing() {
    let mut h = PttHook::new(true);
    let before = h;
    assert_eq!(h.stop(), None);
    assert_eq!(h, before);
    assert_eq!(h.stop(), None);
    assert_eq!(h, before);
}

#[test]
fn episodes_counted_once_each() {
    let mut h = started(SPACE, 3);
    let script = [
        WM_KEYDOWN, WM_KEYDOWN, WM_KEYDOWN, WM_KEYUP, WM_KEYDOWN, WM_SYSKEYDOWN, WM_KEYUP, WM_KEYUP, WM_SYSKEYDOWN,
        WM_SYSKEYUP,
    ];
    let mut downs = 0;
    let mut ups = 0;
    for w in script {
        match event(&mut h, w, SPACE) {
            Some(PttSignal::KeyDown) => downs += 1,
            Some(PttSignal::KeyUp) => ups += 1,
            None => {}
        }
    }
    assert_eq!(downs, 3);
    assert_eq!(ups, 3);
}

#[test]
fn other_keys_and_codes_are_ignored() {
    let mut h = started(SPACE, 3);
    assert_eq!(event(&mut h, WM_KEYDOWN, KEY_A), None);
    assert_eq!(h.on_key_event(-1, WM_KEYDOWN, &KBDLLHOOKSTRUCT::for_key(SPACE as u32)), None);
    assert!(!h.pressed);
    assert_eq!(event(&mut h, 0x0102, SPACE), None);
    assert_eq!(event(&mut h, WM_KEYDOWN, SPACE), Some(PttSignal::KeyDown));
    assert!(h.pressed);
}

#[test]
fn disabled_key_matches_nothing() {
    let mut h = started(DISABLED_KEY, 3);
    assert_eq!(event(&mut h, WM_KEYDOWN, 0), None);
    assert!(!h.pressed);
    let mut n = started(-5, 3);
    assert_eq!(n.on_key_event(0, WM_KEYDOWN, &KBDLLHOOKSTRUCT::for_key((-5i32) as u32)), None);
}

#[test]
fn stop_then_start_reacts_to_new_key_only() {
    let mut h = started(SPACE, 9);
    assert_eq!(event(&mut h, WM_KEYDOWN, SPACE), Some(PttSignal::KeyDown));
    assert_eq!(h.stop(), Some(9));
    assert_eq!(h.configured_key, DISABLED_KEY);
    assert!(!h.pressed);
    assert_eq!(event(&mut h, WM_KEYUP, SPACE), None);
    assert_eq!(h.start(KEY_A), StartStep::AwaitWorker);
    assert_eq!(event(&mut h, WM_KEYUP, SPACE), None);
    assert_eq!(event(&mut h, WM_KEYDOWN, SPACE), None);
    h.worker_exited(9);
    assert_eq!(h.start(KEY_A), StartStep::SpawnWorker);
    assert_eq!(h.worker_installed(12, true), InstallStep::Pump);
    assert_eq!(h.owning_thread(), Some(12));
    assert_eq!(event(&mut h, WM_KEYDOWN, SPACE), None);
    assert_eq!(event(&mut h, WM_KEYDOWN, KEY_A), Some(PttSignal::KeyDown));
}

#[test]
fn worker_exit_allows_fresh_worker() {
    let mut h = started(SPACE, 9);
    assert_eq!(h.stop(), Some(9));
    assert_eq!(h.stop(), Some(9));
    h.worker_exited(9);
    assert!(!h.is_running());
    assert_eq!(h.stop(), None);
    assert_eq!(h.start(KEY_A), StartStep::SpawnWorker);
    assert_eq!(h.worker_installed(11, true), InstallStep::Pump);
    assert_eq!(h.stop(), Some(11));
}

#[test]
fn failed_install_leaves_no_worker() {
    let mut h = PttHook::new(true);
    assert_eq!(h.start(SPACE), StartStep::SpawnWorker);
    assert_eq!(h.worker_installed(4, false), InstallStep::Exit);
    assert!(!h.is_running());
    assert_eq!(h.worker, WorkerPhase::Idle);
    assert_eq!(h.stop(), None);
    assert_eq!(h.start(SPACE), StartStep::SpawnWorker);
}

#[test]
fn unsupported_platform_start_fails_without_change() {
    let mut h = PttHook::new(false);
    let before = h;
    assert_eq!(h.start(SPACE), StartStep::Finished(false));
    assert_eq!(h, before);
    assert_eq!(h.stop(), None);
}

#[test]
fn query_reports_key_state() {
    let h = started(SPACE, 1);
    assert_eq!(h.check_key_pressed(i16::MIN), KeyState::Pressed);
    assert_eq!(h.check_key_pressed(-32767), KeyState::Pressed);
    assert_eq!(h.check_key_pressed(0), KeyState::NotPressed);
    assert_eq!(h.check_key_pressed(1), KeyState::NotPressed);
    assert_eq!(KeyState::Pressed.code(), 1);
    assert_eq!(KeyState::NotPressed.code(), 0);
    assert_eq!(KeyState::Unsupported.code(), -1);
}

#[test]
fn query_unsupported_whatever_the_hook() {
    let mut h = PttHook::new(false);
    assert_eq!(h.check_key_pressed(i16::MIN), KeyState::Unsupported);
    assert_eq!(h.start(SPACE), StartStep::Finished(false));
    assert_eq!(h.check_key_pressed(i16::MIN), KeyState::Unsupported);
    let on = started(SPACE, 2);
    assert_eq!(on.check_key_pressed(i16::MIN), KeyState::Pressed);
    assert_eq!(h.check_key_pressed(0).code(), -1);
}

#[test]
fn classify_and_signal() {
    assert_eq!(key_edge(0, WM_SYSKEYDOWN, 0x41, KEY_A), Some(KeyEdge::Down));
    assert_eq!(key_edge(0, WM_SYSKEYUP, 0x41, KEY_A), Some(KeyEdge::Up));
    assert_eq!(key_edge(0, WM_KEYUP, 0x42, KEY_A), None);
    assert_eq!(key_edge(-1, WM_KEYUP, 0x41, KEY_A), None);
    assert!(KeyEdge::Down.pressed_after());
    assert!(!KeyEdge::Up.pressed_after());
    assert_eq!(edge_signal(KeyEdge::Down, false), Some(PttSignal::KeyDown));
    assert_eq!(edge_signal(KeyEdge::Down, true), None);
    assert_eq!(edge_signal(KeyEdge::Up, true), Some(PttSignal::KeyUp));
    assert_eq!(edge_signal(KeyEdge::Up, false), None);
    assert_eq!(PttSignal::KeyDown.event_name(), "ptt-hook-down");
    assert_eq!(PttSignal::KeyUp.event_name(), "ptt-hook-up");
}

#[test]
fn pump_and_records() {
    assert!(pump_continues(1));
    assert!(!pump_continues(0));
    assert!(!pump_continues(-1));
    let m = MSG::empty();
    assert_eq!((m.hwnd, m.message, m.w_param, m.l_param, m.time, m.pt_x, m.pt_y), (0, 0, 0, 0, 0, 0, 0));
    let k = KBDLLHOOKSTRUCT::for_key(0x20);
    assert_eq!((k.vk_code, k.scan_code, k.flags, k.time, k.extra_info), (0x20, 0, 0, 0, 0));
}

#[test]
fn concurrent_starts_ask_for_one_worker() {
    let mut h = PttHook::new(true);
    assert_eq!(h.start(SPACE), StartStep::SpawnWorker);
    assert_eq!(h.start(KEY_A), StartStep::AwaitWorker);
    assert_eq!(h.configured_key, KEY_A);
    assert_eq!(h.worker_installed(5, true), InstallStep::Pump);
    assert_eq!(h.start(KEY_A), StartStep::Finished(true));
    assert_eq!(h.owning_thread(), Some(5));
    assert_eq!(event(&mut h, WM_KEYDOWN, KEY_A), Some(PttSignal::KeyDown));
}

#[test]
fn stop_during_install_removes_hook_at_once() {
    let mut h = PttHook::new(true);
    assert_eq!(h.start(SPACE), StartStep::SpawnWorker);
    assert_eq!(h.stop(), None);
    assert_eq!(h.worker, WorkerPhase::Installing { quit_requested: true });
    assert_eq!(h.worker_installed(6, true), InstallStep::Unhook);
    assert_eq!(h.owning_thread(), Some(6));
    h.worker_exited(6);
    assert_eq!(h.worker, WorkerPhase::Idle);
}

#[test]
fn start_after_stop_during_install_keeps_worker() {
    let mut h = PttHook::new(true);
    assert_eq!(h.start(SPACE), StartStep::SpawnWorker);
    assert_eq!(h.stop(), None);
    assert_eq!(h.start(KEY_A), StartStep::AwaitWorker);
    assert_eq!(h.worker_installed(6, true), InstallStep::Pump);
    assert_eq!(event(&mut h, WM_KEYDOWN, KEY_A), Some(PttSignal::KeyDown));
}

#[test]
fn exit_of_other_thread_changes_nothing() {
    let mut h = started(SPACE, 8);
    let before = h;
    h.worker_exited(3);
    assert_eq!(h, before);
    assert_eq!(h.worker_installed(3, true), InstallStep::Unhook);
    assert_eq!(h, before);
    assert_eq!(h.worker_installed(3, false), InstallStep::Exit);
    assert_eq!(h, before);
}
