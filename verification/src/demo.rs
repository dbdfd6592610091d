//! The example application state and callback types used by the demo
//! program and the tests: a mock recording application whose browser UI
//! shows a recording flag, a counter and a name.

use vstd::prelude::*;

use crate::change_tracker::Trackable;

verus! {

/// The state shared between the server and every connected browser.
#[derive(Clone, Debug)]
pub struct Shared {
    /// Is the application recording?
    pub is_recording: bool,
    /// A counter the application updates on its own.
    pub counter: usize,
    /// A name set from the browser.
    pub name: String,
}

/// The mathematical value of a [`Shared`] state.
pub struct SharedView {
    /// Is the application recording?
    pub is_recording: bool,
    /// The counter value.
    pub counter: int,
    /// The name.
    pub name: Seq<char>,
}

impl View for Shared {
    type V = SharedView;

    open spec fn view(&self) -> SharedView {
        SharedView { is_recording: self.is_recording, counter: self.counter as int, name: self.name@ }
    }
}

impl Trackable for Shared {
    fn clone_value(&self) -> (r: Self)
        ensures
            r@ == self@,
    {
        Shared {
            is_recording: self.is_recording,
            counter: self.counter,
            name: self.name.clone(),
        }
    }

    fn same_value(&self, other: &Self) -> (r: bool)
        ensures
            r == (self@ == other@),
    {
        self.is_recording == other.is_recording && self.counter == other.counter && self.name
            == other.name
    }
}

/// The commands a browser can send back to the demo application.
#[derive(Clone, Debug)]
pub enum Callback {
    /// Start or stop recording.
    SetIsRecording(bool),
    /// Set the name.
    SetName(String),
}

} // verus!
