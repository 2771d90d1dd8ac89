use arith_drill::game::Game;
use arith_drill::transport::{frame_line, read_action, FrameEvent, ReadAction, MAX_LINE_LEN};

#[test]
fn read_policy_delivers_skips_and_ends() {
    match read_action(FrameEvent::Frame(String::from("7"))) {
        ReadAction::Deliver(line) => assert_eq!(line, "7"),
        ReadAction::ReadOn => panic!("a decoded frame must be delivered"),
    }
    assert!(matches!(read_action(FrameEvent::Malformed), ReadAction::ReadOn));
    match read_action(FrameEvent::Closed) {
        ReadAction::Deliver(line) => assert_eq!(line, ""),
        ReadAction::ReadOn => panic!("a closed stream must yield the sentinel"),
    }
}

#[test]
fn outgoing_frames_carry_the_carriage_return_marker() {
    assert_eq!(frame_line("New game"), "New game\r");
    assert_eq!(frame_line(""), "\r");
    assert_eq!(MAX_LINE_LEN, 128);
}

#[test]
fn empty_address_selects_console_mode() {
    let g = Game::new("");
    assert!(!g.is_network());
    assert_eq!(g.address(), "");
}

#[test]
fn non_empty_address_selects_network_mode() {
    let g = Game::new("127.0.0.1:8080");
    assert!(g.is_network());
    assert_eq!(g.address(), "127.0.0.1:8080");
}
