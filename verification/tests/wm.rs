use loom_wm::protocol::node_protocol::{NodeHints, NodeProtocolHandler};
use loom_wm::protocol::{ProtocolError, LOOM_PROTOCOL_VERSION};
use loom_wm::wm::backend::{Backend, BackendType};
use loom_wm::wm::input::keysyms;
use loom_wm::wm::input::{
    execute_action, InputHandler, KeyAction, KeyPattern, Keybindings, ModifiersState,
};
use loom_wm::wm::output::{refresh_millihertz, select_mode};
use loom_wm::wm::perf::{saturating_nanos, FrameStats, ScopedTimer, TARGET_FRAME_TIME_60FPS};
use loom_wm::wm::security::{
    is_valid_app_id, is_valid_buffer_size, is_valid_title, MAX_APP_ID_LENGTH, MAX_BUFFER_SIZE,
    MAX_CLIENTS, MAX_TITLE_LENGTH,
};
use loom_wm::wm::types::{LogicalPoint, LogicalSize, Rect, SurfaceFlags};
use loom_wm::wm::{Compositor, CoreError, FrameTimer, SessionState, WindowFlags};
use std::time::{Duration, Instant};

fn nanos(duration: Duration) -> u64 {
    duration.as_nanos() as u64
}

#[test]
fn test_valid_buffer_size() {
    // Normal HD buffer
    assert!(is_valid_buffer_size(1920, 1080, 4));

    // 4K buffer
    assert!(is_valid_buffer_size(3840, 2160, 4));

    // 8K buffer
    assert!(is_valid_buffer_size(7680, 4320, 4));

    // Too wide
    assert!(!is_valid_buffer_size(20000, 1080, 4));

    // Too tall
    assert!(!is_valid_buffer_size(1920, 20000, 4));

    // Too much memory
    assert!(!is_valid_buffer_size(16384, 16384, 4));
}

#[test]
fn test_buffer_size_at_the_limit() {
    assert_eq!(MAX_BUFFER_SIZE, 256 * 1024 * 1024);
    assert!(is_valid_buffer_size(16384, 16384, 1));
    assert!(!is_valid_buffer_size(16384, 16384, 2));
    assert!(is_valid_buffer_size(16384, 4096, 4));
    assert!(!is_valid_buffer_size(16384, 4097, 4));
    assert!(!is_valid_buffer_size(16385, 1, 1));
    assert!(is_valid_buffer_size(0, 0, u32::MAX));
    assert!(!is_valid_buffer_size(16384, 16384, u32::MAX));
}

#[test]
fn test_valid_title() {
    assert!(is_valid_title("Normal Title"));
    assert!(is_valid_title(&"a".repeat(MAX_TITLE_LENGTH)));
    assert!(!is_valid_title(&"a".repeat(MAX_TITLE_LENGTH + 1)));
}

#[test]
fn test_title_length_is_in_bytes() {
    assert!(is_valid_title(&"é".repeat(MAX_TITLE_LENGTH / 2)));
    assert!(!is_valid_title(&"é".repeat(MAX_TITLE_LENGTH / 2 + 1)));
}

#[test]
fn test_valid_app_id() {
    assert!(is_valid_app_id("org.example.App"));
    assert!(is_valid_app_id("firefox"));
    assert!(!is_valid_app_id(&"a".repeat(MAX_APP_ID_LENGTH + 1)));
    assert!(!is_valid_app_id("app\nid")); // newline not allowed
    assert!(!is_valid_app_id("app\x00id")); // null not allowed
}

#[test]
fn test_app_id_characters() {
    assert!(is_valid_app_id(""));
    assert!(is_valid_app_id("app id ~!"));
    assert!(is_valid_app_id(&"a".repeat(MAX_APP_ID_LENGTH)));
    assert!(!is_valid_app_id("app\x7fid"));
    assert!(!is_valid_app_id("äpp"));
    assert!(!is_valid_app_id("app\tid"));
}

#[test]
fn test_rect_contains() {
    let rect = Rect::new(10, 20, 100, 50);
    assert!(rect.contains(10, 20));
    assert!(rect.contains(50, 40));
    assert!(rect.contains(109, 69));
    assert!(!rect.contains(9, 20));
    assert!(!rect.contains(110, 20));
    assert!(!rect.contains(10, 70));
}

#[test]
fn test_rect_intersects() {
    let a = Rect::new(0, 0, 100, 100);
    let b = Rect::new(50, 50, 100, 100);
    let c = Rect::new(200, 200, 10, 10);

    assert!(a.intersects(&b));
    assert!(b.intersects(&a));
    assert!(!a.intersects(&c));
    assert!(!c.intersects(&a));
}

#[test]
fn test_rect_intersection() {
    let a = Rect::new(0, 0, 100, 100);
    let b = Rect::new(50, 50, 100, 100);

    let intersection = a.intersection(&b).unwrap();
    assert_eq!(intersection.x, 50);
    assert_eq!(intersection.y, 50);
    assert_eq!(intersection.width, 50);
    assert_eq!(intersection.height, 50);
}

#[test]
fn test_rect_union_and_edges() {
    let a = Rect::new(0, 0, 100, 100);
    let b = Rect::new(50, -20, 100, 30);
    assert_eq!(a.union(&b), Rect::new(0, -20, 150, 120));
    assert_eq!(b.union(&a), a.union(&b));
    assert_eq!(a.intersection(&Rect::new(100, 0, 5, 5)), None);
    assert_eq!(a.intersection(&a), Some(a));
    // The far edge saturates at the end of the range.
    let wide = Rect::new(i32::MAX - 10, 0, 100, 10);
    assert!(wide.contains(i32::MAX - 1, 5));
    assert!(!wide.contains(i32::MAX, 5));
    // Rectangles at both ends of the range are bounded by all of it.
    let left = Rect::new(i32::MIN, 0, 10, 10);
    let right = Rect::new(i32::MAX - 10, 0, 10, 10);
    assert_eq!(left.union(&right), Rect::new(i32::MIN, 0, u32::MAX, 10));
    assert_eq!(Rect::default(), Rect::new(0, 0, 0, 0));
}

#[test]
fn test_rect_with_a_width_beyond_the_signed_range() {
    // The width counts as the signed number with the same bits: -1.
    let odd = Rect::new(10, 0, u32::MAX, 10);
    assert!(!odd.contains(10, 5));
    let other = Rect::new(0, 0, 100, 100);
    assert!(odd.intersects(&other));
    assert_eq!(odd.intersection(&other), Some(Rect::new(10, 0, u32::MAX, 10)));
}

#[test]
fn test_window_flags() {
    let mut flags = WindowFlags::visible() | WindowFlags::focused();
    assert!(flags.contains(WindowFlags::visible()));
    assert!(flags.contains(WindowFlags::focused()));
    assert!(!flags.contains(WindowFlags::maximized()));

    flags.insert(WindowFlags::maximized());
    assert!(flags.contains(WindowFlags::maximized()));

    flags.remove(WindowFlags::focused());
    assert!(!flags.contains(WindowFlags::focused()));
}

#[test]
fn test_flag_bits() {
    assert_eq!(WindowFlags::visible().bits(), WindowFlags::VISIBLE);
    assert_eq!(WindowFlags::VISIBLE, 0b0000_0001);
    assert_eq!(WindowFlags::URGENT, 0b1000_0000);
    assert_eq!((WindowFlags::moving() | WindowFlags::urgent()).bits(), 0b1100_0000);
    assert!(WindowFlags::default().is_empty());
    assert!(WindowFlags::all().contains(WindowFlags::resizing() | WindowFlags::minimized()));
    assert!(WindowFlags::from_bits(6).contains(WindowFlags::fullscreen()));
    assert!(WindowFlags::empty().contains(WindowFlags::empty()));
    let mut surface = SurfaceFlags::from_bits_truncate(0xF1);
    assert_eq!(surface.bits(), SurfaceFlags::DAMAGED);
    surface.insert(SurfaceFlags::from_bits_truncate(SurfaceFlags::OPAQUE));
    assert!(surface.contains(SurfaceFlags::from_bits_truncate(SurfaceFlags::OPAQUE)));
    surface.remove(SurfaceFlags::from_bits_truncate(SurfaceFlags::DAMAGED));
    assert_eq!(surface.bits(), SurfaceFlags::OPAQUE);
    assert_eq!(SurfaceFlags::default(), SurfaceFlags::empty());
}

#[test]
fn test_points_and_sizes() {
    let point = LogicalPoint::new(-3, 4);
    assert_eq!((point.x, point.y), (-3, 4));
    assert_eq!(LogicalPoint::default(), LogicalPoint::new(0, 0));
    assert_eq!(LogicalSize::new(1920, 1080).area(), 2_073_600);
    assert_eq!(LogicalSize::new(u32::MAX, u32::MAX).area(), 18_446_744_065_119_617_025);
    assert_eq!(LogicalSize::default().area(), 0);
}

#[test]
fn test_logo_q_quits() {
    let keybindings = Keybindings::new();
    let modifiers = ModifiersState { logo: true, ..Default::default() };

    let action = keybindings.process(keysyms::KEY_q, modifiers);
    assert_eq!(action, Some(KeyAction::Quit));
}

#[test]
fn test_ctrl_alt_backspace_quits() {
    let keybindings = Keybindings::new();
    let modifiers = ModifiersState { ctrl: true, alt: true, ..Default::default() };

    let action = keybindings.process(keysyms::KEY_BackSpace, modifiers);
    assert_eq!(action, Some(KeyAction::Quit));
}

#[test]
fn test_alt_tab_focuses_next() {
    let keybindings = Keybindings::new();
    let modifiers = ModifiersState { alt: true, ..Default::default() };

    let action = keybindings.process(keysyms::KEY_Tab, modifiers);
    assert_eq!(action, Some(KeyAction::FocusNext));
}

#[test]
fn test_no_match_returns_none() {
    let keybindings = Keybindings::new();
    let modifiers = ModifiersState::default();

    let action = keybindings.process(keysyms::KEY_a, modifiers);
    assert_eq!(action, None);
}

#[test]
fn test_first_matching_binding_decides() {
    let mut keybindings = Keybindings::default();
    assert_eq!(keybindings.len(), 6);
    let everything = ModifiersState { ctrl: true, alt: true, shift: true, logo: true };
    // Further modifiers do not matter, so Alt+Tab comes before Alt+Shift+Tab.
    assert_eq!(keybindings.process(keysyms::KEY_Tab, everything), Some(KeyAction::FocusNext));
    assert_eq!(keybindings.process(keysyms::KEY_w, everything), Some(KeyAction::CloseFocused));
    assert_eq!(keybindings.process(keysyms::KEY_f, everything), Some(KeyAction::ToggleFullscreen));
    assert_eq!(keybindings.process(keysyms::KEY_q, ModifiersState::default()), None);
    keybindings.add(keysyms::KEY_q, ModifiersState::default(), KeyAction::FocusPrev);
    keybindings.add(keysyms::KEY_a, ModifiersState::default(), KeyAction::NoAction);
    assert_eq!(keybindings.len(), 8);
    assert_eq!(keybindings.process(keysyms::KEY_q, everything), Some(KeyAction::Quit));
    assert_eq!(
        keybindings.process(keysyms::KEY_q, ModifiersState::default()),
        Some(KeyAction::FocusPrev)
    );
    assert_eq!(keybindings.process(keysyms::KEY_a, everything), Some(KeyAction::NoAction));
    keybindings.clear();
    assert_eq!(keybindings.len(), 0);
    assert_eq!(keybindings.process(keysyms::KEY_q, everything), None);
}

#[test]
fn test_more_bindings_than_fit_inline() {
    let mut keybindings = Keybindings::new();
    for keysym in 0..100u32 {
        keybindings.add(0x1000 + keysym, ModifiersState::default(), KeyAction::FocusNext);
    }
    assert_eq!(keybindings.len(), 106);
    assert_eq!(
        keybindings.process(0x1000 + 99, ModifiersState::default()),
        Some(KeyAction::FocusNext)
    );
    assert_eq!(keybindings.process(0x1000 + 100, ModifiersState::default()), None);
}

#[test]
fn test_key_pattern_matches() {
    let pattern = KeyPattern::new(
        keysyms::KEY_Return,
        ModifiersState { ctrl: true, shift: true, ..Default::default() },
        KeyAction::Quit,
    );
    assert_eq!(pattern.keysym, 0xff0d);
    assert!(pattern.matches(0xff0d, ModifiersState { ctrl: true, shift: true, ..Default::default() }));
    assert!(pattern.matches(0xff0d, ModifiersState { ctrl: true, shift: true, alt: true, logo: true }));
    assert!(!pattern.matches(0xff0d, ModifiersState { ctrl: true, ..Default::default() }));
    assert!(!pattern.matches(0xff0e, ModifiersState { ctrl: true, shift: true, ..Default::default() }));
    assert_eq!((keysyms::KEY_q, keysyms::KEY_w, keysyms::KEY_f, keysyms::KEY_a), (0x71, 0x77, 0x66, 0x61));
    assert_eq!((keysyms::KEY_Tab, keysyms::KEY_BackSpace), (0xff09, 0xff08));
}

#[test]
fn test_frame_timer_basic() {
    let mut timer = FrameTimer::new();

    // Record some frame times
    timer.record_frame_time(nanos(Duration::from_millis(16)));
    timer.record_frame_time(nanos(Duration::from_millis(17)));
    timer.record_frame_time(nanos(Duration::from_millis(15)));

    let stats = timer.stats();
    assert_eq!(stats.min_frame_time, nanos(Duration::from_millis(15)));
    assert_eq!(stats.max_frame_time, nanos(Duration::from_millis(17)));
    let fps = 1_000_000_000.0 / stats.avg_frame_time as f64;
    assert!(fps > 58.0 && fps < 67.0);
}

#[test]
fn test_stutter_detection() {
    let mut timer = FrameTimer::new();

    // Normal frame - should not stutter
    let is_stutter = timer.record_frame_time(nanos(Duration::from_millis(16)));
    assert!(!is_stutter);

    // Stuttering frame (> 2x target)
    let is_stutter = timer.record_frame_time(nanos(Duration::from_millis(50)));
    assert!(is_stutter);

    assert_eq!(timer.stats().stutter_count, 1);
}

#[test]
fn test_ring_buffer_overflow() {
    let mut timer = FrameTimer::new();

    // Fill the buffer and overflow
    for i in 0..150 {
        timer.record_frame_time(nanos(Duration::from_millis(16 + (i % 3) as u64)));
    }

    let stats = timer.stats();
    assert!(stats.avg_frame_time >= nanos(Duration::from_millis(16)));
    assert!(stats.avg_frame_time <= nanos(Duration::from_millis(18)));
}

#[test]
fn test_begin_end_frame() {
    let mut timer = FrameTimer::new();

    timer.begin_frame();
    let start = Instant::now();
    while start.elapsed() < Duration::from_millis(5) {}
    timer.end_frame();

    let stats = timer.stats();
    assert!(stats.last_frame_time >= nanos(Duration::from_millis(5)));
}

#[test]
fn test_frame_stats_exact_values() {
    let mut timer = FrameTimer::with_target(10);
    assert_eq!(timer.stats(), FrameStats::default());
    assert_eq!(FrameStats::default().min_frame_time, u64::MAX);
    assert!(!timer.record_frame_time(20));
    assert!(timer.record_frame_time(21));
    assert!(!timer.record_frame_time(4));
    let stats = timer.stats();
    assert_eq!(
        stats,
        FrameStats {
            last_frame_time: 4,
            avg_frame_time: 15,
            min_frame_time: 4,
            max_frame_time: 21,
            stutter_count: 1,
        }
    );
    timer.set_target_frame_time(1);
    assert_eq!(timer.target_frame_time(), 1);
    assert!(timer.record_frame_time(3));
    assert_eq!(timer.stats().stutter_count, 2);
    timer.reset();
    assert_eq!(timer.stats(), FrameStats::default());
    assert_eq!(timer.target_frame_time(), 1);
    assert_eq!(FrameTimer::default().target_frame_time(), TARGET_FRAME_TIME_60FPS);
    assert_eq!(TARGET_FRAME_TIME_60FPS, nanos(Duration::from_micros(16_667)));
}

#[test]
fn test_frame_history_keeps_the_latest_120() {
    let mut timer = FrameTimer::with_target(u64::MAX);
    for time in 1..=120u64 {
        timer.record_frame_time(time);
    }
    let stats = timer.stats();
    assert_eq!((stats.min_frame_time, stats.max_frame_time, stats.last_frame_time), (1, 120, 120));
    assert_eq!(stats.avg_frame_time, 60);
    for time in 121..=130u64 {
        timer.record_frame_time(time);
    }
    let stats = timer.stats();
    assert_eq!((stats.min_frame_time, stats.max_frame_time, stats.last_frame_time), (11, 130, 130));
    assert_eq!(stats.avg_frame_time, 70);
    assert_eq!(stats.stutter_count, 0);
    // The greatest times do not overflow the sum.
    for _ in 0..120 {
        timer.record_frame_time(u64::MAX);
    }
    assert_eq!(timer.stats().avg_frame_time, u64::MAX);
}

#[test]
fn test_scoped_timer() {
    let timer = ScopedTimer::new("render");
    assert_eq!(timer.name(), "render");
    assert_eq!(timer.threshold(), nanos(Duration::from_millis(1)));
    assert!(!timer.exceeded(1_000_000));
    assert!(timer.exceeded(1_000_001));
    let first = timer.elapsed();
    let second = timer.elapsed();
    assert!(second >= first);
    let custom = ScopedTimer::with_threshold("layout", 5);
    assert_eq!((custom.name(), custom.threshold()), ("layout", 5));
    assert!(custom.exceeded(6));
}

#[test]
fn test_session_clients() {
    let mut session = SessionState::new();
    assert!(session.is_running());
    assert_eq!(session.client_count(), 0);
    session.client_disconnected();
    assert_eq!(session.client_count(), 0);
    for _ in 0..MAX_CLIENTS {
        assert!(session.can_accept_client());
        session.client_connected();
    }
    assert_eq!(session.client_count(), 256);
    assert!(!session.can_accept_client());
    session.client_disconnected();
    assert_eq!(session.client_count(), 255);
    assert!(session.can_accept_client());
    assert!(SessionState::can_create_surface(99, 9_999));
    assert!(!SessionState::can_create_surface(100, 0));
    assert!(!SessionState::can_create_surface(0, 10_000));
}

#[test]
fn test_only_quit_stops_the_session() {
    let mut session = SessionState::new();
    for action in [
        KeyAction::NoAction,
        KeyAction::CloseFocused,
        KeyAction::FocusNext,
        KeyAction::FocusPrev,
        KeyAction::ToggleFullscreen,
    ] {
        session.execute_action(action);
        assert!(session.is_running());
        assert!(execute_action(true, action));
        assert!(!execute_action(false, action));
    }
    session.execute_action(KeyAction::Quit);
    assert!(!session.is_running());
    session.execute_action(KeyAction::FocusNext);
    assert!(!session.is_running());
    let mut session = SessionState::new();
    session.request_close();
    assert!(!session.is_running());
}

#[test]
fn test_backend_autodetect() {
    assert!(matches!(BackendType::autodetect(true, false, true, true), Ok(BackendType::Winit)));
    assert!(matches!(BackendType::autodetect(false, true, true, true), Ok(BackendType::Winit)));
    assert!(matches!(BackendType::autodetect(false, false, true, true), Ok(BackendType::Drm)));
    assert!(matches!(BackendType::autodetect(true, true, true, false), Ok(BackendType::Drm)));
    assert!(matches!(BackendType::autodetect(false, false, false, true), Err(CoreError::NoBackendAvailable)));
    assert!(matches!(BackendType::autodetect(true, false, false, true), Ok(BackendType::Winit)));
    assert!(matches!(BackendType::autodetect(true, true, false, false), Err(CoreError::NoBackendAvailable)));
    assert!(matches!(Backend::autodetect(true, false), Ok(Backend::Winit)));
    assert!(matches!(Backend::autodetect(false, true), Ok(Backend::Winit)));
    assert!(matches!(Backend::autodetect(false, false), Ok(Backend::Drm)));
}

#[test]
fn test_scaffolding() {
    let mut compositor = Compositor::new().expect("a compositor");
    assert!(compositor.run().is_ok());
    let _ = InputHandler::new();
    let _ = NodeProtocolHandler::default();
    assert_eq!(LOOM_PROTOCOL_VERSION, 1);
}

#[test]
fn test_node_hints() {
    let hints = NodeHints::new();
    assert!(hints.label.is_none() && !hints.groupable && hints.content_type.is_none());
    assert!(hints.suggested_connections.is_empty());
    let hints = NodeHints::default().with_label("editor").groupable();
    assert_eq!(hints.label.as_deref(), Some("editor"));
    assert!(hints.groupable);
    assert!(hints.content_type.is_none());
}

#[test]
fn test_core_and_protocol_error_messages() {
    assert_eq!(
        CoreError::BackendInit("no gpu".to_string()).message(),
        "Failed to initialize backend: no gpu"
    );
    assert_eq!(CoreError::Renderer("r".to_string()).message(), "Failed to create renderer: r");
    assert_eq!(CoreError::Session("s".to_string()).message(), "Session error: s");
    assert_eq!(CoreError::Input("i".to_string()).message(), "Input error: i");
    assert_eq!(
        CoreError::NoBackendAvailable.message(),
        "No backend available - compile with 'drm' or 'winit' feature"
    );
    assert_eq!(CoreError::EventLoop("e".to_string()).message(), "Event loop error: e");
    assert_eq!(
        ProtocolError::NotSupported("loom_canvas_v1".to_string()).message(),
        "Protocol not supported: loom_canvas_v1"
    );
    assert_eq!(ProtocolError::InvalidRequest("q".to_string()).message(), "Invalid request: q");
}

#[test]
fn test_select_mode() {
    assert_eq!(select_mode(&[]), None);
    assert_eq!(select_mode(&[false]), Some(0));
    assert_eq!(select_mode(&[false, false, false]), Some(0));
    assert_eq!(select_mode(&[false, true, true]), Some(1));
    assert_eq!(select_mode(&[true, false]), Some(0));
    assert_eq!(select_mode(&[false, false, true]), Some(2));
    assert_eq!(refresh_millihertz(60), 60_000);
    assert_eq!(refresh_millihertz(0), 0);
    assert_eq!(refresh_millihertz(2_147_483), 2_147_483_000);
    assert_eq!(refresh_millihertz(2_147_484), 2_147_484u32.wrapping_mul(1000) as i32);
    assert_eq!(refresh_millihertz(u32::MAX), u32::MAX.wrapping_mul(1000) as i32);
}

#[test]
fn test_saturating_nanos() {
    assert_eq!(saturating_nanos(0), 0);
    assert_eq!(saturating_nanos(16_667_000), 16_667_000);
    assert_eq!(saturating_nanos(u64::MAX as u128), u64::MAX);
    assert_eq!(saturating_nanos(u64::MAX as u128 + 1), u64::MAX);
    assert_eq!(saturating_nanos(u128::MAX), u64::MAX);
    assert_eq!(saturating_nanos(Duration::from_millis(5).as_nanos()), 5_000_000);
}

#[test]
fn test_begin_frame_at_a_reading() {
    let mut timer = FrameTimer::with_target(1_000_000);
    timer.record_frame_time(7);
    let start = Instant::now();
    while start.elapsed() < Duration::from_millis(3) {}
    // A frame that began at `start` has taken the time since then.
    timer.begin_frame_at(start);
    assert!(timer.end_frame());
    let stats = timer.stats();
    assert!(stats.last_frame_time >= nanos(Duration::from_millis(3)));
    assert_eq!(stats.min_frame_time, 7);
}
