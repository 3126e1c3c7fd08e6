//! What the platform layer decides about the events of a window: which of
//! them the engine gets to see, and which of them closes the window.

use vstd::prelude::*;
use crate::api::{Action, Event};

verus! {

/// The key code of the escape key.
pub const KEY_ESCAPE: i32 = 256;

/// An event of the window, reduced to what the engine looks at.
#[derive(Debug, Clone, Copy, PartialEq, Eq, Structural)]
pub enum WindowInput {
    /// The framebuffer was resized to this width and height.
    FramebufferSize(i32, i32),
    /// A key, with its key code and its scancode, was pressed, released or
    /// is held.
    Key(i32, i32, Action),
    /// Anything else.
    Other,
}

/// The engine event that a window event stands for. A key is known by its
/// scancode, taken as an unsigned number.
pub open spec fn event_of(input: WindowInput) -> Event {
    match input {
        WindowInput::FramebufferSize(w, h) => Event::Resize(w, h),
        WindowInput::Key(_, scancode, action) => Event::Key(scancode as u32, action),
        WindowInput::Other => Event::Unhandled,
    }
}

/// Whether the window event asks for the window to be closed: the escape
/// key was pressed.
pub open spec fn closes(input: WindowInput) -> bool {
    input matches WindowInput::Key(key, _, action) && key == KEY_ESCAPE && action == Action::Press
}

/// The engine events that `inputs` give rise to, in their order: one for
/// each window event that is not unhandled.
pub open spec fn events_of(inputs: Seq<WindowInput>) -> Seq<Event>
    decreases inputs.len(),
{
    if inputs.len() == 0 {
        Seq::empty()
    } else if event_of(inputs.last()) is Unhandled {
        events_of(inputs.drop_last())
    } else {
        events_of(inputs.drop_last()).push(event_of(inputs.last()))
    }
}

/// Whether one of `inputs` asks for the window to be closed.
pub open spec fn any_closes(inputs: Seq<WindowInput>) -> bool {
    exists|i: int| 0 <= i < inputs.len() && closes(#[trigger] inputs[i])
}

/// Computes [`event_of`].
pub fn translate(input: &WindowInput) -> (event: Event)
    ensures
        event == event_of(*input),
{
    match input {
        WindowInput::FramebufferSize(w, h) => Event::Resize(*w, *h),
        WindowInput::Key(_, scancode, action) => Event::Key(
            #[verifier::truncate]
            (*scancode as u32),
            *action,
        ),
        WindowInput::Other => Event::Unhandled,
    }
}

/// Computes [`closes`].
pub fn handle_window_event(input: &WindowInput) -> (close: bool)
    ensures
        close == closes(*input),
{
    match input {
        WindowInput::Key(key, _, action) => *key == KEY_ESCAPE && matches!(action, Action::Press),
        _ => false,
    }
}

/// Goes through the window events of a frame: returns the engine events
/// they give rise to, and whether the window is to be closed.
pub fn poll_events(inputs: &Vec<WindowInput>) -> (polled: (Vec<Event>, bool))
    ensures
        polled.0@ == events_of(inputs@),
        polled.1 == any_closes(inputs@),
{
    let mut events: Vec<Event> = Vec::new();
    let mut close = false;
    let mut i: usize = 0;
    while i < inputs.len()
        invariant
            i <= inputs.len(),
            events@ == events_of(inputs@.take(i as int)),
            close == any_closes(inputs@.take(i as int)),
        decreases inputs.len() - i,
    {
        let ghost before = inputs@.take(i as int);
        let ghost now = inputs@.take(i + 1);
        proof {
            assert(now.drop_last() =~= before);
            assert(now.last() == inputs@[i as int]);
        }
        let event = translate(&inputs[i]);
        if let Event::Unhandled = event {
        } else {
            events.push(event);
        }
        let closing = handle_window_event(&inputs[i]);
        proof {
            if any_closes(before) {
                let j = choose|j: int| 0 <= j < before.len() && closes(#[trigger] before[j]);
                assert(now[j] == before[j]);
            }
            if closing {
                assert(closes(now[i as int]));
            }
            if any_closes(now) {
                let j = choose|j: int| 0 <= j < now.len() && closes(#[trigger] now[j]);
                if j < i {
                    assert(before[j] == now[j]);
                }
            }
        }
        close = close || closing;
        i += 1;
    }
    proof {
        assert(inputs@.take(inputs.len() as int) =~= inputs@);
    }
    (events, close)
}

} // verus!
