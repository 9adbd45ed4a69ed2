//! The input stage: window events in, input messages out.
//!
//! Button presses and crossings of the window border are forwarded at once.
//! Cursor motion and window resizes are only recorded, and reported at most
//! once per pass by `finalize`.
use crate::input::message::{ElementState, InputMessage, Point, Size, WindowEvent};
use crate::utility::bounded_spsc::{BoundedFifo, FifoState, Overflow, PushError};
use vstd::prelude::*;

verus! {

/// What the input stage remembers between events.
pub struct InputState {
    /// Where the cursor was last seen.
    pub cursor_pos: Point,
    /// The size that the window was last seen to have.
    pub window_size: Size,
    /// The cursor position of the last `CursorMoved` message.
    pub last_cursor_pos: Point,
    /// The size of the last `WindowResized` message.
    pub last_window_size: Size,
}

impl InputState {
    /// The message that `event` is forwarded as, if it is forwarded.
    pub open spec fn message_for(self, event: WindowEvent) -> Option<InputMessage> {
        match event {
            WindowEvent::MouseInput { state: ElementState::Pressed, button } => Some(
                InputMessage::CursorPressed { button, pos: self.cursor_pos },
            ),
            WindowEvent::MouseInput { state: ElementState::Released, button } => Some(
                InputMessage::CursorReleased { button, pos: self.cursor_pos },
            ),
            WindowEvent::CursorEntered => Some(InputMessage::CursorEntered),
            WindowEvent::CursorLeft => Some(InputMessage::CursorLeft),
            _ => None,
        }
    }

    /// The state after `event` was seen.
    pub open spec fn record(self, event: WindowEvent) -> InputState {
        match event {
            WindowEvent::CursorMoved { position } => InputState { cursor_pos: position, ..self },
            WindowEvent::Resized(size) => InputState { window_size: size, ..self },
            _ => self,
        }
    }

    pub open spec fn cursor_moved(self) -> bool {
        self.cursor_pos != self.last_cursor_pos
    }

    pub open spec fn window_resized(self) -> bool {
        self.window_size != self.last_window_size
    }

    /// The message that reports where the cursor is now.
    pub open spec fn motion(self) -> InputMessage {
        InputMessage::CursorMoved {
            pos: self.cursor_pos,
            delta: self.cursor_pos.offset_from(self.last_cursor_pos),
        }
    }

    /// What is due at the end of a pass: the cursor motion first, if the
    /// cursor moved since it was last reported, then the new window size, if
    /// it changed since it was last reported.
    pub open spec fn due(self) -> Seq<InputMessage> {
        let motion = if self.cursor_moved() {
            seq![self.motion()]
        } else {
            Seq::empty()
        };
        let resize = if self.window_resized() {
            seq![InputMessage::WindowResized(self.window_size)]
        } else {
            Seq::empty()
        };
        motion + resize
    }

    /// The state once everything that was due has been reported.
    pub open spec fn settled(self) -> InputState {
        InputState {
            last_cursor_pos: self.cursor_pos,
            last_window_size: self.window_size,
            ..self
        }
    }

    /// Whether `out` refuses to take `messages` as a whole.
    pub open spec fn refused(out: FifoState<InputMessage>, messages: Seq<InputMessage>) -> bool {
        messages.len() > 0 && (out.closed || (out.overflow == Overflow::Reject
            && out.pending.len() + messages.len() > out.capacity))
    }

    /// At most two messages are due, and none is due twice: once the state
    /// has settled, nothing is due until the cursor or the window changes.
    pub proof fn lemma_due_once(self)
        ensures
            self.due().len() <= 2,
            self.settled().due().len() == 0,
            self.settled().settled() == self.settled(),
    {
    }

    /// Motion is coalesced: however many cursor events are recorded in a
    /// pass, one message is due for them, and it reports the last position.
    pub proof fn lemma_motion_coalesced(self, a: Point, b: Point)
        ensures
            self.record(WindowEvent::CursorMoved { position: a }).record(
                WindowEvent::CursorMoved { position: b },
            ) == self.record(WindowEvent::CursorMoved { position: b }),
    {
    }
}

/// Turns window events into input messages.
pub struct InputServer {
    last_cursor_pos: Point,
    last_window_size: Size,
    cursor_pos: Point,
    window_size: Size,
}

impl View for InputServer {
    type V = InputState;

    closed spec fn view(&self) -> InputState {
        InputState {
            cursor_pos: self.cursor_pos,
            window_size: self.window_size,
            last_cursor_pos: self.last_cursor_pos,
            last_window_size: self.last_window_size,
        }
    }
}

impl InputServer {
    /// A server that has seen nothing yet: the cursor at the origin of a
    /// window without extent, and both reported as such.
    pub fn new() -> (server: InputServer)
        ensures
            server@ == (InputState {
                cursor_pos: Point { x: 0, y: 0 },
                window_size: Size { width: 0, height: 0 },
                last_cursor_pos: Point { x: 0, y: 0 },
                last_window_size: Size { width: 0, height: 0 },
            }),
    {
        InputServer {
            last_cursor_pos: Point { x: 0, y: 0 },
            last_window_size: Size { width: 0, height: 0 },
            cursor_pos: Point { x: 0, y: 0 },
            window_size: Size { width: 0, height: 0 },
        }
    }

    pub fn cursor_pos(&self) -> (pos: Point)
        ensures
            pos == self@.cursor_pos,
    {
        self.cursor_pos
    }

    pub fn window_size(&self) -> (size: Size)
        ensures
            size == self@.window_size,
    {
        self.window_size
    }

    /// The message that `event` is forwarded as, if it is forwarded.
    pub fn message_for(&self, event: WindowEvent) -> (message: Option<InputMessage>)
        ensures
            message == self@.message_for(event),
    {
        match event {
            WindowEvent::MouseInput { state, button } => match state {
                ElementState::Pressed => Some(
                    InputMessage::CursorPressed { button, pos: self.cursor_pos },
                ),
                ElementState::Released => Some(
                    InputMessage::CursorReleased { button, pos: self.cursor_pos },
                ),
            },
            WindowEvent::CursorEntered => Some(InputMessage::CursorEntered),
            WindowEvent::CursorLeft => Some(InputMessage::CursorLeft),
            _ => None,
        }
    }

    /// Takes one window event.
    ///
    /// An event that is forwarded is pushed onto `out`, and the result is
    /// that of the push: on `Err` the message comes back and nothing has
    /// changed. Cursor motion and resizes are recorded for `finalize`. Any
    /// other event is ignored.
    pub fn push(&mut self, event: WindowEvent, out: &mut BoundedFifo<InputMessage>) -> (r: Result<
        (),
        PushError<InputMessage>,
    >)
        requires
            old(out).wf(),
        ensures
            final(out).wf(),
            final(self)@ == old(self)@.record(event),
            match old(self)@.message_for(event) {
                Some(message) => {
                    &&& final(out)@ == old(out)@.push(message)
                    &&& r == match old(out)@.push_result(message) {
                        Ok(_) => Ok::<(), PushError<InputMessage>>(()),
                        Err(e) => Err(e),
                    }
                },
                None => *final(out) == *old(out) && r is Ok,
            },
            r is Err ==> *final(out) == *old(out),
    {
        match self.message_for(event) {
            Some(message) => match out.push(message) {
                Ok(_) => Ok(()),
                Err(e) => Err(e),
            },
            None => {
                match event {
                    WindowEvent::CursorMoved { position } => {
                        self.cursor_pos = position;
                    },
                    WindowEvent::Resized(size) => {
                        self.window_size = size;
                    },
                    _ => {},
                }
                Ok(())
            },
        }
    }

    /// Ends a pass: reports the cursor motion and the window resize that
    /// were recorded since the last pass, each at most once.
    ///
    /// The messages that are due go to `out` together or not at all. If `out`
    /// is closed, or rejects on overflow and has no room for all of them, the
    /// first of them comes back in the error, nothing has changed, and the
    /// same messages are due again in the next pass.
    pub fn finalize(&mut self, out: &mut BoundedFifo<InputMessage>) -> (r: Result<
        (),
        PushError<InputMessage>,
    >)
        requires
            old(out).wf(),
        ensures
            final(out).wf(),
            r is Err <==> InputState::refused(old(out)@, old(self)@.due()),
            r is Err ==> {
                &&& *final(out) == *old(out)
                &&& *final(self) == *old(self)
                &&& r == Err::<(), PushError<InputMessage>>(
                    if old(out)@.closed {
                        PushError::Closed(old(self)@.due()[0])
                    } else {
                        PushError::Full(old(self)@.due()[0])
                    },
                )
            },
            r is Ok ==> {
                &&& final(self)@ == old(self)@.settled()
                &&& final(out)@ == old(out)@.push_all(old(self)@.due())
            },
    {
        let moved = self.cursor_pos != self.last_cursor_pos;
        let resized = self.window_size != self.last_window_size;
        let ghost due = self@.due();
        let ghost before = out@;
        if !moved && !resized {
            assert(due =~= Seq::<InputMessage>::empty());
            assert(self@.settled() == self@);
            return Ok(());
        }
        let motion = InputMessage::CursorMoved {
            pos: self.cursor_pos,
            delta: self.cursor_pos.delta_from(self.last_cursor_pos),
        };
        let resize = InputMessage::WindowResized(self.window_size);
        let needed: usize = if moved && resized { 2 } else { 1 };
        let first = if moved { motion } else { resize };
        assert(due.len() == needed && due[0] == first);
        if out.is_closed() {
            return Err(PushError::Closed(first));
        }
        match out.overflow() {
            Overflow::Reject => {
                if out.capacity() - out.len() < needed {
                    return Err(PushError::Full(first));
                }
            },
            Overflow::Drop => {},
        }
        let _ = out.push(first);
        if moved && resized {
            let _ = out.push(resize);
            assert(due =~= seq![first, resize]);
            assert(due.drop_first() =~= seq![resize]);
            assert(due.drop_first().drop_first() =~= Seq::<InputMessage>::empty());
            assert(before.push_all(due) == before.push(first).push(resize)) by {
                reveal_with_fuel(FifoState::push_all, 3);
            }
        } else {
            assert(due =~= seq![first]);
            assert(due.drop_first() =~= Seq::<InputMessage>::empty());
            assert(before.push_all(due) == before.push(first)) by {
                reveal_with_fuel(FifoState::push_all, 2);
            }
        }
        self.last_cursor_pos = self.cursor_pos;
        self.last_window_size = self.window_size;
        Ok(())
    }
}

} // verus!
