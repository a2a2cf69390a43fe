//! The decisions of a connection's writer task: what each event it learns
//! of asks it to do, and which rooms it is in.

use vstd::prelude::*;

use crate::rooms::JoinedRooms;

verus! {

/// What the writer task of a connection learns next.
pub enum WriterEvent {
    /// A handler asks to join room `name`.
    Join(String),
    /// A handler asks to leave room `name`.
    Leave(String),
    /// A handler asks to write a frame.
    Send,
    /// A handler asks to close the connection.
    Close,
    /// No handler can ask for anything any more.
    CommandsEnded,
    /// A message arrived from one of the joined rooms.
    RoomMessage,
    /// The connection fell behind in a room and missed messages.
    RoomLagged,
    /// No joined room can deliver any more.
    RoomsEnded,
}

/// What the writer task does about an event.
pub enum WriterAction {
    /// Put the connection in room `name`, listen to it, acknowledge.
    EnterRoom(String),
    /// Take the connection out of room `name`, stop listening to it,
    /// acknowledge.
    ExitRoom(String),
    /// Write the frame to the socket.
    Write,
    /// Write the room's message to the socket.
    Forward,
    /// Report the missed messages.
    ReportLag,
    /// Close the socket, acknowledge, and stop.
    CloseAndStop,
    /// Stop.
    Stop,
}

/// The state of a connection's writer task: the rooms it is in.
pub struct Writer {
    joined: JoinedRooms,
}

/// Whether `action` ends the writer task.
pub open spec fn stops(action: WriterAction) -> bool {
    action is CloseAndStop || action is Stop
}

impl View for Writer {
    type V = Set<Seq<char>>;

    closed spec fn view(&self) -> Set<Seq<char>> {
        self.joined@
    }
}

impl Writer {
    pub closed spec fn wf(&self) -> bool {
        self.joined.wf()
    }

    /// A new connection, in no room.
    pub fn new() -> (r: Self)
        ensures
            r.wf(),
            r@ == Set::<Seq<char>>::empty(),
    {
        Writer { joined: JoinedRooms::new() }
    }

    /// Whether messages of rooms are awaited: only while the connection is
    /// in some room.
    pub fn listens_to_rooms(&self) -> (r: bool)
        requires
            self.wf(),
        ensures
            r == (self@ != Set::<Seq<char>>::empty()),
    {
        !self.joined.is_empty()
    }

    /// Decides what to do about `event`. Joining and leaving change the
    /// rooms the connection is in; a close, or the end of handler requests
    /// or of room messages, stops the task; nothing else changes the rooms.
    pub fn step(&mut self, event: WriterEvent) -> (action: WriterAction)
        requires
            old(self).wf(),
        ensures
            final(self).wf(),
            match event {
                WriterEvent::Join(name) => action == WriterAction::EnterRoom(name) && final(self)@
                    == old(self)@.insert(name@),
                WriterEvent::Leave(name) => action == WriterAction::ExitRoom(name) && final(self)@
                    == old(self)@.remove(name@),
                WriterEvent::Send => action is Write && final(self)@ == old(self)@,
                WriterEvent::Close => action is CloseAndStop && final(self)@ == old(self)@,
                WriterEvent::CommandsEnded => action is Stop && final(self)@ == old(self)@,
                WriterEvent::RoomMessage => action is Forward && final(self)@ == old(self)@,
                WriterEvent::RoomLagged => action is ReportLag && final(self)@ == old(self)@,
                WriterEvent::RoomsEnded => action is Stop && final(self)@ == old(self)@,
            },
    {
        match event {
            WriterEvent::Join(name) => {
                let entry = name.clone();
                let _ = self.joined.join(entry);
                WriterAction::EnterRoom(name)
            },
            WriterEvent::Leave(name) => {
                let _ = self.joined.leave(name.as_str());
                WriterAction::ExitRoom(name)
            },
            WriterEvent::Send => WriterAction::Write,
            WriterEvent::Close => WriterAction::CloseAndStop,
            WriterEvent::CommandsEnded => WriterAction::Stop,
            WriterEvent::RoomMessage => WriterAction::Forward,
            WriterEvent::RoomLagged => WriterAction::ReportLag,
            WriterEvent::RoomsEnded => WriterAction::Stop,
        }
    }

    /// The rooms to take the connection out of once the task stops: those
    /// it is in, each once.
    pub fn rooms_to_leave(self) -> (r: Vec<String>)
        requires
            self.wf(),
        ensures
            crate::rooms::texts(r@).to_set() == self@,
            crate::rooms::texts(r@).no_duplicates(),
    {
        self.joined.into_names()
    }
}

} // verus!
