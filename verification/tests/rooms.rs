use wspc::rooms::JoinedRooms;

#[test]
fn new_connection_is_in_no_room() {
    let rooms = JoinedRooms::new();
    assert!(rooms.is_empty());
    assert!(!rooms.contains("lobby"));
}

#[test]
fn join_and_leave() {
    let mut rooms = JoinedRooms::new();
    assert!(!rooms.join("lobby".to_string()));
    assert!(rooms.contains("lobby"));
    assert!(!rooms.is_empty());
    assert!(rooms.join("lobby".to_string()));
    assert!(!rooms.join("games".to_string()));
    assert!(rooms.leave("lobby"));
    assert!(!rooms.contains("lobby"));
    assert!(rooms.contains("games"));
    assert!(!rooms.leave("lobby"));
}

#[test]
fn leaving_a_room_not_joined_changes_nothing() {
    let mut rooms = JoinedRooms::new();
    rooms.join("a".to_string());
    assert!(!rooms.leave("b"));
    assert!(rooms.contains("a"));
    assert_eq!(rooms.into_names(), vec!["a".to_string()]);
}

#[test]
fn rooms_left_at_the_end_are_those_joined_and_not_left() {
    let mut rooms = JoinedRooms::new();
    rooms.join("a".to_string());
    rooms.join("b".to_string());
    rooms.join("c".to_string());
    rooms.leave("b");
    rooms.join("a".to_string());
    rooms.join("b".to_string());
    rooms.leave("c");
    let mut names = rooms.into_names();
    names.sort();
    assert_eq!(names, vec!["a".to_string(), "b".to_string()]);
}

#[test]
fn joining_twice_keeps_one_entry() {
    let mut rooms = JoinedRooms::new();
    rooms.join("x".to_string());
    rooms.join("x".to_string());
    assert_eq!(rooms.into_names().len(), 1);
}

use wspc::session::{Writer, WriterAction, WriterEvent};

#[test]
fn writer_joins_leaves_and_stops() {
    let mut w = Writer::new();
    assert!(!w.listens_to_rooms());
    assert!(matches!(w.step(WriterEvent::Join("a".to_string())), WriterAction::EnterRoom(ref n) if n == "a"));
    assert!(w.listens_to_rooms());
    assert!(matches!(w.step(WriterEvent::Join("b".to_string())), WriterAction::EnterRoom(_)));
    assert!(matches!(w.step(WriterEvent::Send), WriterAction::Write));
    assert!(matches!(w.step(WriterEvent::RoomMessage), WriterAction::Forward));
    assert!(matches!(w.step(WriterEvent::RoomLagged), WriterAction::ReportLag));
    assert!(matches!(w.step(WriterEvent::Leave("a".to_string())), WriterAction::ExitRoom(ref n) if n == "a"));
    assert!(matches!(w.step(WriterEvent::Close), WriterAction::CloseAndStop));
    assert_eq!(w.rooms_to_leave(), vec!["b".to_string()]);
}

#[test]
fn writer_stops_when_requests_or_rooms_end() {
    let mut w = Writer::new();
    assert!(matches!(w.step(WriterEvent::CommandsEnded), WriterAction::Stop));
    assert!(matches!(w.step(WriterEvent::RoomsEnded), WriterAction::Stop));
    assert!(w.rooms_to_leave().is_empty());
}
