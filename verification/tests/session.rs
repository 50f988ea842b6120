use console_session::Color;
use console_session::Command;
use console_session::Console;
use console_session::ConsoleHost;

#[test]
fn acquire_records_one_init() {
    let mut host = ConsoleHost::new(false);
    let session = Console::new(&mut host).unwrap();
    assert!(host.is_active());
    assert_eq!(host.trace().len(), 1);
    assert_eq!(host.trace()[0], Command::Init);
    session.release(&mut host, false);
}

#[test]
fn second_acquire_fails_release_reopens() {
    let mut host = ConsoleHost::new(false);
    let s1 = Console::new(&mut host).unwrap();
    let err = Console::new(&mut host).unwrap_err();
    assert_eq!(err.message(), "Only one instance of Console can exist at once!");
    // The failed attempt left the first session's state untouched.
    assert!(host.is_active());
    assert_eq!(host.trace().len(), 1);
    s1.release(&mut host, false);
    assert!(!host.is_active());
    let s2 = Console::new(&mut host);
    assert!(s2.is_ok());
    s2.unwrap().release(&mut host, false);
}

#[test]
fn normal_release_resets_exactly_once() {
    let mut host = ConsoleHost::new(false);
    let session = Console::new(&mut host).unwrap();
    session.release(&mut host, false);
    let resets = host.trace().iter().filter(|c| **c == Command::Reset).count();
    assert_eq!(resets, 1);
}

#[test]
fn hook_restores_and_unwinding_release_does_not_repeat() {
    let mut host = ConsoleHost::new(true);
    let session = Console::new(&mut host).unwrap();
    assert!(host.hook_installed());
    // The process faults: the hook restores the terminal first.
    host.fault_restore();
    assert_eq!(host.trace().last(), Some(&Command::Reset));
    // The session's own teardown runs during unwinding and adds nothing.
    session.release(&mut host, true);
    let resets = host.trace().iter().filter(|c| **c == Command::Reset).count();
    assert_eq!(resets, 1);
    assert!(!host.is_active());
}

#[test]
fn disabled_hook_leaves_restore_to_the_release_path() {
    let mut host = ConsoleHost::new(false);
    let session = Console::new(&mut host).unwrap();
    assert!(!host.hook_installed());
    host.fault_restore();
    // Nothing installed, so nothing happened.
    assert_eq!(host.trace().len(), 1);
    session.release(&mut host, true);
    let resets = host.trace().iter().filter(|c| **c == Command::Reset).count();
    assert_eq!(resets, 1);
}

#[test]
fn fault_restore_without_active_session_is_a_no_op() {
    let mut host = ConsoleHost::new(true);
    let session = Console::new(&mut host).unwrap();
    session.release(&mut host, false);
    let before = host.trace().len();
    host.fault_restore();
    assert_eq!(host.trace().len(), before);
}

#[test]
fn read_sentinels_mean_no_event() {
    let mut host = ConsoleHost::new(false);
    let session = Console::new(&mut host).unwrap();
    assert_eq!(session.get_key(-1), None);
    assert_eq!(session.get_mouse_pos_clicked(-1, -1), None);
    assert_eq!(session.get_mouse_pos_clicked(-1, 3), None);
    assert_eq!(session.get_mouse_pos_clicked(3, -1), None);
    session.release(&mut host, false);
}

#[test]
fn reads_report_events() {
    let mut host = ConsoleHost::new(false);
    let session = Console::new(&mut host).unwrap();
    assert_eq!(session.get_key(97).unwrap().code(), 97);
    assert_eq!(session.get_mouse_pos_clicked(4, 7), Some((4, 7)));
    assert!(session.has_input(1));
    assert!(session.has_input(-3));
    assert!(!session.has_input(0));
    assert_eq!(session.get_console_size(80, 25), (80, 25));
    session.release(&mut host, false);
}

#[test]
fn draw_text_records_the_exact_bytes() {
    let mut host = ConsoleHost::new(false);
    let session = Console::new(&mut host).unwrap();
    let r = session.draw_text(&mut host, b"abc".to_vec());
    assert!(r.is_ok());
    assert_eq!(host.trace()[1], Command::DrawText(b"abc".to_vec()));
    session.release(&mut host, false);
}

#[test]
fn draw_text_with_embedded_null_fails_fast() {
    let mut host = ConsoleHost::new(false);
    let session = Console::new(&mut host).unwrap();
    let r = session.draw_text(&mut host, b"abc\0def".to_vec());
    assert!(r.is_err());
    assert_eq!(
        r.unwrap_err().message(),
        "Text with an embedded null byte cannot be drawn!"
    );
    // Nothing was drawn: no prefix slipped through.
    assert_eq!(host.trace().len(), 1);
    session.release(&mut host, false);
}

#[test]
fn inverted_colors_match_swapped_set_color() {
    let mut host_a = ConsoleHost::new(false);
    let a = Console::new(&mut host_a).unwrap();
    a.set_color_invertible(&mut host_a, Color::Red, Color::Blue, true);

    let mut host_b = ConsoleHost::new(false);
    let b = Console::new(&mut host_b).unwrap();
    b.set_color(&mut host_b, Color::Blue, Color::Red);

    assert_eq!(host_a.trace(), host_b.trace());
    assert_eq!(host_a.trace()[1], Command::SetColor(1, 4));

    a.release(&mut host_a, false);
    b.release(&mut host_b, false);
}

#[test]
fn uninverted_colors_match_plain_set_color() {
    let mut host_a = ConsoleHost::new(false);
    let a = Console::new(&mut host_a).unwrap();
    a.set_color_invertible(&mut host_a, Color::Red, Color::Blue, false);

    let mut host_b = ConsoleHost::new(false);
    let b = Console::new(&mut host_b).unwrap();
    b.set_color(&mut host_b, Color::Red, Color::Blue);

    assert_eq!(host_a.trace(), host_b.trace());
    assert_eq!(host_a.trace()[1], Command::SetColor(4, 1));

    a.release(&mut host_a, false);
    b.release(&mut host_b, false);
}

#[test]
fn negative_cursor_coordinates_reach_no_primitive() {
    let mut host = ConsoleHost::new(false);
    let session = Console::new(&mut host).unwrap();
    session.set_cursor_pos(&mut host, -1, 5);
    session.set_cursor_pos(&mut host, 5, -1);
    session.set_cursor_pos(&mut host, -2, -7);
    assert_eq!(host.trace().len(), 1);
    session.set_cursor_pos(&mut host, 3, 4);
    assert_eq!(host.trace()[1], Command::SetCursorPos(3, 4));
    session.release(&mut host, false);
}

#[test]
fn styling_and_repaint_record_their_commands() {
    let mut host = ConsoleHost::new(false);
    let session = Console::new(&mut host).unwrap();
    session.repaint(&mut host);
    session.reset_color(&mut host);
    session.set_underline(&mut host, true);
    session.set_underline(&mut host, false);
    assert_eq!(host.trace()[1], Command::ClearScreen);
    assert_eq!(host.trace()[2], Command::ResetColor);
    assert_eq!(host.trace()[3], Command::SetUnderline(true));
    assert_eq!(host.trace()[4], Command::SetUnderline(false));
    session.release(&mut host, false);
}
