//! # UI
//!
//! Maps input events to the actions of the browser, and keeps track of the
//! shift keys, which select the step of a navigation.

use vstd::prelude::*;

verus! {

/// The step of a navigation while no shift key is held.
pub const STEP: usize = 1;

/// The step of a navigation while a shift key is held.
pub const SHIFT_STEP: usize = 10;

/// Which of the two shift keys are held down.
#[derive(Clone, Copy, Debug, PartialEq, Eq, Structural)]
pub struct State {
    pub left_shift: bool,
    pub right_shift: bool,
}

/// A key, by its role in the browser.
#[derive(Clone, Copy, Debug, PartialEq, Eq, Structural)]
pub enum Key {
    LeftShift,
    RightShift,
    /// The key that shows a later image.
    Next,
    /// The key that shows an earlier image.
    Prev,
    /// The key that shows the first image.
    First,
    /// The key that shows the last image.
    Last,
    /// The key that moves the image shown to the destination folder.
    Move,
    /// Any other key.
    Other,
}

/// An input event, as far as the browser tells events apart.
#[derive(Clone, Copy, Debug, PartialEq, Eq, Structural)]
pub enum Event {
    /// The user asked the application to quit.
    Quit,
    /// The window was closed.
    WindowClose,
    /// The window changed its size.
    WindowResized,
    /// A part of the window that was hidden became visible.
    WindowExposed,
    KeyDown(Key),
    KeyUp(Key),
    /// Any other event.
    Other,
}

/// What the browser is to do in answer to an event.
#[derive(Clone, Copy, Debug, PartialEq, Eq, Structural)]
pub enum Action {
    Quit,
    ReRender,
    /// Go forward by the given number of images.
    Next(usize),
    /// Go back by the given number of images.
    Prev(usize),
    Move,
    First,
    Last,
    Noop,
}

impl State {
    /// The number of images that one navigation passes over.
    pub open spec fn step(self) -> usize {
        if self.left_shift || self.right_shift {
            SHIFT_STEP
        } else {
            STEP
        }
    }

    /// The state after an event: a shift key is held from the moment it goes
    /// down to the moment it goes up, and no other event changes the state.
    pub open spec fn after(self, event: Event) -> State {
        match event {
            Event::KeyDown(Key::LeftShift) => State { left_shift: true, ..self },
            Event::KeyDown(Key::RightShift) => State { right_shift: true, ..self },
            Event::KeyUp(Key::LeftShift) => State { left_shift: false, ..self },
            Event::KeyUp(Key::RightShift) => State { right_shift: false, ..self },
            _ => self,
        }
    }

    /// The action that an event stands for in this state. Every event
    /// stands for exactly one action; an event without a meaning of its own
    /// stands for `Noop`.
    pub open spec fn action(self, event: Event) -> Action {
        match event {
            Event::Quit | Event::WindowClose => Action::Quit,
            Event::WindowResized | Event::WindowExposed => Action::ReRender,
            Event::KeyDown(Key::Next) => Action::Next(self.step()),
            Event::KeyDown(Key::Prev) => Action::Prev(self.step()),
            Event::KeyDown(Key::First) => Action::First,
            Event::KeyDown(Key::Last) => Action::Last,
            Event::KeyDown(Key::Move) => Action::Move,
            _ => Action::Noop,
        }
    }

    /// The state in which no shift key is held.
    pub fn new() -> (state: State)
        ensures
            state == (State { left_shift: false, right_shift: false }),
    {
        State { left_shift: false, right_shift: false }
    }

    /// The step of a navigation in this state.
    pub fn step_size(&self) -> (step: usize)
        ensures
            step == self.step(),
    {
        if self.left_shift || self.right_shift {
            SHIFT_STEP
        } else {
            STEP
        }
    }
}

/// Updates the shift keys by the event and returns the action that the
/// event stands for.
pub fn event_action(state: &mut State, event: &Event) -> (action: Action)
    ensures
        *final(state) == old(state).after(*event),
        action == old(state).action(*event),
{
    match *event {
        Event::Quit | Event::WindowClose => Action::Quit,
        Event::WindowResized | Event::WindowExposed => Action::ReRender,
        Event::KeyDown(key) => match key {
            Key::LeftShift => {
                state.left_shift = true;
                Action::Noop
            },
            Key::RightShift => {
                state.right_shift = true;
                Action::Noop
            },
            Key::Next => Action::Next(state.step_size()),
            Key::Prev => Action::Prev(state.step_size()),
            Key::First => Action::First,
            Key::Last => Action::Last,
            Key::Move => Action::Move,
            Key::Other => Action::Noop,
        },
        Event::KeyUp(key) => {
            match key {
                Key::LeftShift => {
                    state.left_shift = false;
                },
                Key::RightShift => {
                    state.right_shift = false;
                },
                _ => {},
            }
            Action::Noop
        },
        Event::Other => Action::Noop,
    }
}

/// A navigation passes over ten images exactly while a shift key is held,
/// and over one image otherwise.
pub proof fn lemma_step_follows_shift(state: State)
    ensures
        state.step() == 10 <==> state.left_shift || state.right_shift,
        state.step() == 1 <==> !state.left_shift && !state.right_shift,
{
}

/// Only the shift keys change the state, and an event that changes the
/// state stands for no action.
pub proof fn lemma_modifiers_only_by_shift(state: State, event: Event)
    ensures
        state.after(event) != state ==> state.action(event) == Action::Noop,
        state.after(event) != state ==> (event matches Event::KeyDown(k) && (k == Key::LeftShift || k
            == Key::RightShift)) || (event matches Event::KeyUp(k) && (k == Key::LeftShift || k
            == Key::RightShift)),
        state.action(event) != Action::Noop ==> state.after(event) == state,
{
}

} // verus!
