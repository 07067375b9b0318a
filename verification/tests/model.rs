use winecho::text::utf16_units;
use winecho::win::{classify, decide, main_window, Action, ControlKind, Event, Win, BTN, EDT};
use winecho::win::{WM_COMMAND, WM_CREATE, WM_DESTROY};

fn edit_index(w: &Win) -> usize {
    w.get_dlg_item(EDT).expect("the assembled window has an edit control")
}

#[test]
fn startup_invariant() {
    let w = main_window();
    assert_eq!(w.controls.len(), 2);
    assert_eq!(w.controls[0].kind, ControlKind::Button);
    assert_eq!(w.controls[0].id, BTN);
    assert_eq!(w.controls[1].kind, ControlKind::Edit);
    assert_eq!(w.controls[1].id, EDT);
    assert!(w.visible);
    assert!(w.painted);
    assert!(w.user_data_set);
    assert_eq!(w.quit_code, None);
    assert!(w.dialogs.is_empty());
}

#[test]
fn assembled_controls_carry_their_setup() {
    let w = main_window();
    assert_eq!(w.title, utf16_units("My_window"));
    assert_eq!(w.width, 600);
    assert_eq!(w.height, 500);
    let b = &w.controls[0];
    assert_eq!((b.x, b.y, b.width, b.height), (5, 5, 80, 32));
    assert_eq!(b.text, utf16_units("Click button"));
    let e = &w.controls[1];
    assert_eq!((e.x, e.y, e.width, e.height), (5, 60, 160, 52));
    assert_eq!(e.text, utf16_units("What's wrong?"));
}

#[test]
fn echo_of_initial_text() {
    let mut w = main_window();
    let r = w.procedures(BTN);
    assert_eq!(r, 1);
    assert_eq!(w.dialogs.len(), 1);
    assert_eq!(w.dialogs[0].title, utf16_units("Message"));
    assert_eq!(w.dialogs[0].body, utf16_units("What's wrong?"));
}

#[test]
fn echo_of_typed_text() {
    let mut w = main_window();
    let i = edit_index(&w);
    w.set_control_text(i, utf16_units("hello world"));
    w.procedures(BTN);
    assert_eq!(w.dialogs.len(), 1);
    assert_eq!(w.dialogs[0].body, utf16_units("hello world"));
}

#[test]
fn echo_of_empty_text() {
    let mut w = main_window();
    let i = edit_index(&w);
    w.set_control_text(i, Vec::new());
    w.procedures(BTN);
    assert_eq!(w.dialogs.len(), 1);
    assert_eq!(w.dialogs[0].body, Vec::<u16>::new());
}

#[test]
fn echo_keeps_whitespace_exactly() {
    let mut w = main_window();
    let i = edit_index(&w);
    w.set_control_text(i, utf16_units("  two\twords  "));
    w.procedures(BTN);
    assert_eq!(w.dialogs[0].body, utf16_units("  two\twords  "));
}

#[test]
fn unrecognized_command_is_a_noop() {
    let mut w = main_window();
    let before = w.clone();
    for id in [0u32, EDT, 3, 500, u32::MAX] {
        let r = w.procedures(id);
        assert_eq!(r, 1);
    }
    assert_eq!(w, before);
    assert!(w.dialogs.is_empty());
}

#[test]
fn other_events_are_a_noop() {
    let mut w = main_window();
    let before = w.clone();
    w.windowproc(Event::Other);
    assert_eq!(w, before);
}

#[test]
fn destroy_posts_quit_zero() {
    let mut w = main_window();
    w.windowproc(Event::Destroy);
    assert_eq!(w.quit_code, Some(0));
}

#[test]
fn loop_returns_zero_after_destroy() {
    let mut w = main_window();
    let events = vec![Event::Other, Event::Destroy];
    let exit = w.win_loop(&events);
    assert_eq!(exit, 0);
    assert_eq!(w.quit_code, Some(0));
}

#[test]
fn no_event_after_destroy_is_processed() {
    let mut w = main_window();
    let events = vec![Event::Destroy, Event::Command { id: BTN }];
    let exit = w.win_loop(&events);
    assert_eq!(exit, 0);
    assert!(w.dialogs.is_empty());
}

#[test]
fn events_before_destroy_are_processed() {
    let mut w = main_window();
    let events = vec![Event::Command { id: BTN }, Event::Destroy, Event::Command { id: BTN }];
    let exit = w.win_loop(&events);
    assert_eq!(exit, 0);
    assert_eq!(w.dialogs.len(), 1);
    assert_eq!(w.dialogs[0].body, utf16_units("What's wrong?"));
}

#[test]
fn loop_returns_at_once_on_posted_quit() {
    let mut w = main_window();
    w.windowproc(Event::Destroy);
    let exit = w.win_loop(&Vec::new());
    assert_eq!(exit, 0);
}

#[test]
fn reread_without_edit_is_identical() {
    let w = main_window();
    let i = edit_index(&w);
    let len = w.get_window_text_length(i);
    let first = w.get_window_text(i, len + 1);
    let second = w.get_window_text(i, len + 1);
    assert_eq!(first, second);
}

#[test]
fn length_prefetch_reads_whole_text() {
    let w = main_window();
    let i = edit_index(&w);
    let len = w.get_window_text_length(i);
    assert_eq!(len, utf16_units("What's wrong?").len());
    let buf = w.get_window_text(i, len + 1);
    assert_eq!(buf.len(), len + 1);
    assert_eq!(buf[..len], utf16_units("What's wrong?")[..]);
    assert_eq!(buf[len], 0);
}

#[test]
fn short_buffer_truncates() {
    let mut w = main_window();
    let i = edit_index(&w);
    w.set_control_text(i, utf16_units("abc"));
    assert_eq!(w.get_window_text(i, 3), vec![97u16, 98, 0]);
    assert_eq!(w.get_window_text(i, 1), vec![0u16]);
    assert_eq!(w.get_window_text(i, 0), Vec::<u16>::new());
}

#[test]
fn button_press_without_edit_shows_empty_dialog() {
    let mut w = Win::new("bare", 100, 100);
    assert_eq!(w.get_dlg_item(EDT), None);
    w.procedures(BTN);
    assert_eq!(w.dialogs.len(), 1);
    assert_eq!(w.dialogs[0].body, Vec::<u16>::new());
}

#[test]
fn controls_are_added_as_given() {
    let mut w = Win::new("bare", 100, 100);
    assert!(w.controls.is_empty());
    w.add_button("Go", 1, 2, 3, 4, BTN);
    w.add_edit("start", 5, 6, 7, 8, EDT);
    assert_eq!(w.controls.len(), 2);
    assert_eq!(w.controls[0].kind, ControlKind::Button);
    assert_eq!(w.controls[0].text, utf16_units("Go"));
    assert_eq!(w.controls[1].kind, ControlKind::Edit);
    assert_eq!(w.controls[1].text, utf16_units("start"));
}

#[test]
fn classify_sorts_messages() {
    assert_eq!(classify(WM_CREATE, 0), Event::Create);
    assert_eq!(classify(WM_DESTROY, 0), Event::Destroy);
    assert_eq!(classify(WM_COMMAND, 5), Event::Command { id: 5 });
    // e.g. a paint message
    assert_eq!(classify(0x000F, 0), Event::Other);
}

#[test]
fn decide_names_the_callback_action() {
    assert_eq!(decide(Event::Create), Action::StoreUserData);
    assert_eq!(decide(Event::Destroy), Action::PostQuit);
    assert_eq!(decide(Event::Command { id: BTN }), Action::EchoEditText);
    assert_eq!(decide(Event::Command { id: EDT }), Action::Ignore);
    assert_eq!(decide(Event::Other), Action::Ignore);
}
