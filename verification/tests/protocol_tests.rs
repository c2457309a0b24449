use texture_sharing::protocol::{
    child_can_handle_packet, parent_can_handle_packet,
    child_on_message, child_render_request, parent_on_message, parent_render_notice, ChildAction, Message,
    ParentAction,
};

#[test]
fn from_u8_maps_numbers_to_messages() {
    assert_eq!(Message::from_u8(0), Some(Message::QUIT));
    assert_eq!(Message::from_u8(1), Some(Message::PARENT_RENDER));
    assert_eq!(Message::from_u8(2), Some(Message::CHILD_RENDER));
}

#[test]
fn from_u8_rejects_other_numbers() {
    assert_eq!(Message::from_u8(3), None);
    assert_eq!(Message::from_u8(72), None);
    assert_eq!(Message::from_u8(255), None);
}

#[test]
fn to_u8_round_trips() {
    for m in [Message::QUIT, Message::PARENT_RENDER, Message::CHILD_RENDER] {
        assert_eq!(Message::from_u8(m.to_u8()), Some(m));
    }
    assert_eq!(Message::CHILD_RENDER.to_u8(), 2);
}

#[test]
fn render_request_carries_low_byte_of_surface_id() {
    assert_eq!(child_render_request(7), vec![2, 7]);
    assert_eq!(child_render_request(0x1234), vec![2, 0x34]);
    assert_eq!(child_render_request(256), vec![2, 0]);
}

#[test]
fn render_notice_is_parent_render() {
    assert_eq!(parent_render_notice(), vec![1]);
}

#[test]
fn request_reaches_child_as_render_order() {
    let request = child_render_request(0x0102_0305);
    match child_on_message(&request) {
        ChildAction::Render { surface_id, reply } => {
            assert_eq!(surface_id, 0x05);
            assert_eq!(reply, parent_render_notice());
        }
        other => panic!("unexpected action {:?}", other),
    }
}

#[test]
fn notice_reaches_parent_as_redraw() {
    let notice = parent_render_notice();
    assert_eq!(parent_on_message(&notice), ParentAction::Redraw(Message::PARENT_RENDER));
}

#[test]
fn parent_exits_on_quit_and_redraws_otherwise() {
    assert_eq!(parent_on_message(&[0]), ParentAction::Exit);
    assert_eq!(parent_on_message(&[2, 9]), ParentAction::Redraw(Message::CHILD_RENDER));
    assert_eq!(parent_on_message(&[1, 200, 3]), ParentAction::Redraw(Message::PARENT_RENDER));
}

#[test]
fn child_exits_on_quit_and_ignores_parent_render() {
    assert!(matches!(child_on_message(&[0]), ChildAction::Exit));
    assert!(matches!(child_on_message(&[1]), ChildAction::Ignore));
    assert!(matches!(child_on_message(&[0, 5]), ChildAction::Exit));
}

#[test]
fn packet_checks_follow_the_wire_format() {
    assert!(!parent_can_handle_packet(&[]));
    assert!(!parent_can_handle_packet(&[3]));
    assert!(parent_can_handle_packet(&[2]));
    assert!(!child_can_handle_packet(&[]));
    assert!(!child_can_handle_packet(&[9, 1]));
    assert!(!child_can_handle_packet(&[2]));
    assert!(child_can_handle_packet(&[2, 4]));
    assert!(child_can_handle_packet(&[1]));
    assert!(child_can_handle_packet(b"\x00HEllo"));
}
