use kernel_core::bringup::{init, BringupAssets};
use kernel_core::event::{Event, EventOption, KeyEvent, K_BKSP, K_F1, K_F2};
use kernel_core::machine::RedrawAction;
use kernel_core::time::Duration;

fn session_up() -> kernel_core::machine::Kernel {
    let assets = BringupAssets {
        ram_pages: 1024,
        rtc_time: Duration { secs: 7, nanos: 0 },
        pci_items: Vec::new(),
        cursor_present: true,
        schemes_listing: None,
        apps_listing: None,
        background_present: true,
    };
    init(0x1000, assets).0
}

fn key_press(character: char, scancode: usize) -> Event {
    KeyEvent { character, scancode, pressed: true }.to_event()
}

#[test]
fn key_event_converts_totally() {
    let e = key_press('a', 0x1E);
    assert_eq!(e.code, 'k');
    match e.to_option() {
        EventOption::Key(ke) => {
            assert_eq!(ke.character, 'a');
            assert_eq!(ke.scancode, 0x1E);
            assert!(ke.pressed);
        }
        EventOption::Unknown(_) => panic!("a key event must convert to the key variant"),
    }
    let m = Event { code: 'm', a: 3, b: 4, c: 5 };
    match m.to_option() {
        EventOption::Unknown(u) => assert_eq!(u, m),
        EventOption::Key(_) => panic!("a mouse event is opaque to the core"),
    }
}

#[test]
fn event_reaches_session_outside_debug_mode() {
    let mut k = session_up();
    assert!(!k.debug_draw);
    let e = key_press('x', 0x2D);
    k.push_event(e);
    let delivered = k.event_task_step();
    assert_eq!(delivered, vec![e]);
}

#[test]
fn f1_then_f2_toggle_debug_mode() {
    let mut k = session_up();
    assert!(!k.debug_draw);

    k.push_event(key_press('\0', K_F1));
    let delivered = k.event_task_step();
    // the toggle is consumed, not delivered
    assert!(delivered.is_empty());
    assert!(k.debug_draw);
    assert!(k.debug_redraw);

    k.session.redraw = false;
    k.push_event(key_press('\0', K_F2));
    let delivered = k.event_task_step();
    assert!(delivered.is_empty());
    assert!(!k.debug_draw);
    assert!(k.session.redraw);
}

#[test]
fn debug_mode_consumes_events() {
    let mut k = session_up();
    k.push_event(key_press('\0', K_F1));
    k.push_event(key_press('q', 0x10));
    let delivered = k.event_task_step();
    // the session sees neither the toggle nor the keystroke after it
    assert!(delivered.is_empty());
    assert_eq!(k.cmd, vec!['q']);
}

#[test]
fn command_submission_publishes_line() {
    let mut k = session_up();
    k.debug_draw = true;
    k.push_event(key_press('l', 0x26));
    k.push_event(key_press('s', 0x1F));
    k.push_event(key_press('\n', 0x1C));
    let delivered = k.event_task_step();
    assert!(delivered.is_empty());
    assert_eq!(k.debug_command, vec!['l', 's', '\n']);
    assert!(k.cmd.is_empty());
}

#[test]
fn backspace_edits_the_accumulator() {
    let mut k = session_up();
    k.debug_draw = true;
    k.push_event(key_press('a', 0x1E));
    k.push_event(key_press('b', 0x30));
    k.push_event(key_press('\0', K_BKSP));
    k.event_task_step();
    assert_eq!(k.cmd, vec!['a']);
    // the backspace is echoed to the serial mirror
    assert_eq!(k.log.last(), Some(&'\u{8}'));
    // backspace on an empty accumulator does nothing
    k.push_event(key_press('\0', K_BKSP));
    k.push_event(key_press('\0', K_BKSP));
    k.event_task_step();
    assert!(k.cmd.is_empty());
}

#[test]
fn released_keys_do_not_edit_the_command() {
    let mut k = session_up();
    k.debug_draw = true;
    k.push_event(KeyEvent { character: 'z', scancode: 0x2C, pressed: false }.to_event());
    let delivered = k.event_task_step();
    assert!(delivered.is_empty());
    assert!(k.cmd.is_empty());
}

#[test]
fn idle_halts_only_when_nothing_is_interrupted() {
    let mut k = session_up();
    assert!(k.idle_step());
    k.contexts.contexts[2].interrupted = true;
    assert!(!k.idle_step());
    k.contexts.contexts[2].interrupted = false;
    assert!(k.idle_step());
}

#[test]
fn redraw_follows_the_framebuffer_owner() {
    let mut k = session_up();
    // the session owns the framebuffer after bring-up; its flag was set by
    // the loaded cursor and background
    assert!(k.session.redraw);
    assert_eq!(k.redraw_step(), RedrawAction::SessionRedraw { dirty: true });
    assert!(!k.session.redraw);
    assert_eq!(k.redraw_step(), RedrawAction::SessionRedraw { dirty: false });
    // the debug console owns it while draw is set
    k.debug_draw = true;
    k.debug_redraw = true;
    assert_eq!(k.redraw_step(), RedrawAction::FlipDebug);
    assert!(!k.debug_redraw);
    assert_eq!(k.redraw_step(), RedrawAction::Nothing);
}

#[test]
fn voluntary_yield_is_round_robin() {
    let mut k = session_up();
    assert_eq!(k.contexts.current, 0);
    k.yield_now(false);
    assert_eq!(k.contexts.current, 1);
    k.yield_now(false);
    assert_eq!(k.contexts.current, 2);
    for _ in 0..4 {
        k.yield_now(false);
    }
    assert_eq!(k.contexts.current, 0);
}

#[test]
fn preemptive_yield_marks_interrupted() {
    let mut k = session_up();
    assert!(!k.contexts.contexts[0].interrupted);
    k.yield_now(true);
    assert!(k.contexts.contexts[0].interrupted);
    assert_eq!(k.contexts.current, 1);
    k.yield_now(false);
    assert!(!k.contexts.contexts[1].interrupted);
}
