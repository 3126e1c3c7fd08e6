//! What the scene layer decides without looking at the scene: how window
//! events become input events, and how the event queues turn over between
//! frames.

use vstd::prelude::*;
use crate::api::{Action, Event};

verus! {

/// Whether an input begins, ends or goes on.
#[derive(Debug, Clone, Copy, PartialEq, Eq, Structural)]
pub enum InputType {
    Begin,
    End,
    /// Neither: the key is held.
    Neither,
}

/// A movement that the user asks for.
#[derive(Debug, Clone, Copy, PartialEq, Eq, Structural)]
pub enum InputEvent {
    Up(InputType),
    Down(InputType),
    Left(InputType),
    Right(InputType),
    Forward(InputType),
    Backward(InputType),
    /// No movement.
    Nothing,
}

/// The window events of the current frame.
#[derive(Debug, Default)]
pub struct PlatformEvents(pub Vec<Event>);

/// The input events that are being collected for the next frame.
#[derive(Debug, Default)]
pub struct InputEventsWrite(pub Vec<InputEvent>);

/// The input events that the systems of the current frame read.
#[derive(Debug, Default)]
pub struct InputEventsRead(pub Vec<InputEvent>);

/// What an entity is drawn with: the numbers of its vertex array and of its
/// material.
#[derive(Debug, Clone, Copy, PartialEq, Eq, Structural)]
pub struct Render {
    pub va: u32,
    pub material: u32,
}

/// Turns key events into input events.
#[derive(Debug, Clone, Copy, PartialEq, Eq, Structural)]
pub struct ControlsSystem;

/// Turns input events into the velocity of the camera.
#[derive(Debug, Clone, Copy, PartialEq, Eq, Structural)]
pub struct CameraMoveSystem;

/// An axis of movement.
#[derive(Debug, Clone, Copy, PartialEq, Eq, Structural)]
pub enum Axis {
    X,
    Y,
    Z,
}

/// A system that does nothing.
#[derive(Debug, Clone, Copy, PartialEq, Eq, Structural)]
pub struct EmptySystem;

/// Number of entries that the event log of the information overlay keeps.
pub const LOG_LENGTH: usize = 9;

/// How a key action reads as an input.
pub open spec fn input_type(action: Action) -> InputType {
    match action {
        Action::Press => InputType::Begin,
        Action::Release => InputType::End,
        Action::Repeat => InputType::Neither,
    }
}

/// The movement that a key stands for: space is up, C down, A left, D right,
/// W forward and S backward, by their platform key codes. Other keys stand
/// for none.
pub open spec fn key_input(code: u32, action: Action) -> InputEvent {
    if code == 65 {
        InputEvent::Up(input_type(action))
    } else if code == 54 {
        InputEvent::Down(input_type(action))
    } else if code == 38 {
        InputEvent::Left(input_type(action))
    } else if code == 40 {
        InputEvent::Right(input_type(action))
    } else if code == 25 {
        InputEvent::Forward(input_type(action))
    } else if code == 39 {
        InputEvent::Backward(input_type(action))
    } else {
        InputEvent::Nothing
    }
}

/// The input events that `events` give rise to, in their order: one for each
/// key event whose key stands for a movement.
pub open spec fn inputs_of(events: Seq<Event>) -> Seq<InputEvent>
    decreases events.len(),
{
    if events.len() == 0 {
        Seq::empty()
    } else {
        let before = inputs_of(events.drop_last());
        match events.last() {
            Event::Key(code, action) => if key_input(code, action) is Nothing {
                before
            } else {
                before.push(key_input(code, action))
            },
            _ => before,
        }
    }
}

/// The factor that an input scales the speed with: an input that ends stops
/// the movement, any other keeps it at full speed.
pub open spec fn multiplier(input: InputType) -> i8 {
    match input {
        InputType::End => 0,
        _ => 1,
    }
}

/// The velocity that an input event sets: the axis, and the speed along it
/// as a signed factor of the full speed. Up, right and backward are the
/// positive directions.
pub open spec fn velocity_of(event: InputEvent) -> Option<(Axis, i8)> {
    match event {
        InputEvent::Up(input) => Some((Axis::Y, multiplier(input))),
        InputEvent::Down(input) => Some((Axis::Y, (-multiplier(input)) as i8)),
        InputEvent::Left(input) => Some((Axis::X, (-multiplier(input)) as i8)),
        InputEvent::Right(input) => Some((Axis::X, multiplier(input))),
        InputEvent::Forward(input) => Some((Axis::Z, (-multiplier(input)) as i8)),
        InputEvent::Backward(input) => Some((Axis::Z, multiplier(input))),
        InputEvent::Nothing => None,
    }
}

/// The log after `event` was entered: the newest event first, and no more
/// than [`LOG_LENGTH`] of them.
pub open spec fn logged(log: Seq<Event>, event: Event) -> Seq<Event> {
    if log.len() + 1 > LOG_LENGTH {
        log.insert(0, event).remove(LOG_LENGTH as int)
    } else {
        log.insert(0, event)
    }
}

/// Computes [`input_type`].
pub fn action_to_type(action: &Action) -> (input: InputType)
    ensures
        input == input_type(*action),
{
    match action {
        Action::Press => InputType::Begin,
        Action::Release => InputType::End,
        Action::Repeat => InputType::Neither,
    }
}

/// Computes [`key_input`].
pub fn key_to_input(code: u32, action: &Action) -> (input: InputEvent)
    ensures
        input == key_input(code, *action),
{
    match code {
        65 => InputEvent::Up(action_to_type(action)),
        54 => InputEvent::Down(action_to_type(action)),
        38 => InputEvent::Left(action_to_type(action)),
        40 => InputEvent::Right(action_to_type(action)),
        25 => InputEvent::Forward(action_to_type(action)),
        39 => InputEvent::Backward(action_to_type(action)),
        _ => InputEvent::Nothing,
    }
}

/// Computes [`multiplier`].
pub fn type_to_multiplier(input: &InputType) -> (factor: i8)
    ensures
        factor == multiplier(*input),
{
    match input {
        InputType::Begin => 1,
        InputType::End => 0,
        _ => 1,
    }
}

impl CameraMoveSystem {
    /// The velocity that `event` sets. Computes [`velocity_of`].
    pub fn velocity_change(&self, event: &InputEvent) -> (change: Option<(Axis, i8)>)
        ensures
            change == velocity_of(*event),
    {
        match event {
            InputEvent::Up(input) => Some((Axis::Y, type_to_multiplier(input))),
            InputEvent::Down(input) => Some((Axis::Y, -type_to_multiplier(input))),
            InputEvent::Left(input) => Some((Axis::X, -type_to_multiplier(input))),
            InputEvent::Right(input) => Some((Axis::X, type_to_multiplier(input))),
            InputEvent::Forward(input) => Some((Axis::Z, -type_to_multiplier(input))),
            InputEvent::Backward(input) => Some((Axis::Z, type_to_multiplier(input))),
            InputEvent::Nothing => None,
        }
    }
}

impl ControlsSystem {
    /// Appends to `input` the input events that the window events of the
    /// frame give rise to.
    pub fn run(&mut self, platform: &PlatformEvents, input: &mut InputEventsWrite)
        ensures
            final(input).0@ == old(input).0@ + inputs_of(platform.0@),
    {
        let mut i: usize = 0;
        proof {
            assert(input.0@ =~= old(input).0@ + inputs_of(platform.0@.take(0)));
        }
        while i < platform.0.len()
            invariant
                i <= platform.0.len(),
                input.0@ == old(input).0@ + inputs_of(platform.0@.take(i as int)),
            decreases platform.0.len() - i,
        {
            proof {
                assert(platform.0@.take(i + 1).drop_last() =~= platform.0@.take(i as int));
            }
            if let Event::Key(code, action) = &platform.0[i] {
                let event = key_to_input(*code, action);
                if let InputEvent::Nothing = event {
                } else {
                    input.0.push(event);
                    proof {
                        assert(input.0@ =~= old(input).0@ + inputs_of(platform.0@.take(i + 1)));
                    }
                }
            }
            i += 1;
        }
        proof {
            assert(platform.0@.take(platform.0.len() as int) =~= platform.0@);
        }
    }
}

/// Starts a frame: the window events of the frame replace those of the last
/// one, and the input events collected so far become the ones to read,
/// leaving none collected.
pub fn begin_frame(
    events: &Vec<Event>,
    platform: &mut PlatformEvents,
    write: &mut InputEventsWrite,
    read: &mut InputEventsRead,
)
    ensures
        final(platform).0@ == events@,
        final(read).0@ == old(write).0@,
        final(write).0@ == Seq::<InputEvent>::empty(),
{
    platform.0.clear();
    let mut i: usize = 0;
    while i < events.len()
        invariant
            i <= events.len(),
            platform.0@ == events@.take(i as int),
        decreases events.len() - i,
    {
        platform.0.push(events[i]);
        proof {
            assert(events@.take(i + 1) =~= events@.take(i as int).push(events@[i as int]));
        }
        i += 1;
    }
    proof {
        assert(events@.take(events.len() as int) =~= events@);
    }
    read.0.clear();
    read.0.append(&mut write.0);
    proof {
        assert(read.0@ =~= old(write).0@);
    }
}

/// Enters `event` at the front of the event log and drops the oldest entry
/// where the log grows beyond [`LOG_LENGTH`].
pub fn log_event(log: &mut Vec<Event>, event: Event)
    requires
        old(log).len() < usize::MAX,
    ensures
        final(log)@ == logged(old(log)@, event),
{
    log.insert(0, event);
    if log.len() > LOG_LENGTH {
        log.remove(LOG_LENGTH);
    }
}

} // verus!
