use ws_script::failure::Failure;
use ws_script::frame::{read_text, Event, Frame};

#[test]
fn text_frame_is_the_awaited_text() {
    let event = Event::Received(Frame::Text("hello".to_string()));
    assert_eq!(read_text(event), Some(Ok("hello".to_string())));
}

#[test]
fn empty_text_frame_is_a_text() {
    let event = Event::Received(Frame::Text(String::new()));
    assert_eq!(read_text(event), Some(Ok(String::new())));
}

#[test]
fn ping_and_pong_are_passed_over() {
    assert_eq!(read_text(Event::Received(Frame::Ping)), None);
    assert_eq!(read_text(Event::Received(Frame::Pong)), None);
}

#[test]
fn binary_frame_ends_the_wait() {
    let event = Event::Received(Frame::Binary(vec![1, 2, 3]));
    assert_eq!(read_text(event), Some(Err(Failure::BinaryUnsupported)));
    let event = Event::Received(Frame::Binary(vec![]));
    assert_eq!(read_text(event), Some(Err(Failure::BinaryUnsupported)));
}

#[test]
fn close_frame_ends_the_wait() {
    assert_eq!(read_text(Event::Received(Frame::Close)), Some(Err(Failure::ConnectionClosed)));
}

#[test]
fn failed_read_ends_the_wait() {
    assert_eq!(read_text(Event::ReadFailed), Some(Err(Failure::ReadFailed)));
}

#[test]
fn send_outcomes_are_no_reads() {
    assert_eq!(read_text(Event::Sent), None);
    assert_eq!(read_text(Event::SendFailed), None);
}
