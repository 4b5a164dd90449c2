//! The name of an event.
use vstd::prelude::*;

verus! {

/// The name of an event as a workflow writes it.
#[derive(Debug)]
pub struct EventName(pub String);

impl EventName {
    pub fn new(s: String) -> (name: EventName)
        ensures
            name.0 == s,
    {
        EventName(s)
    }

    /// The name that holds the text `value`.
    pub fn of(value: &str) -> (name: EventName)
        ensures
            name.0@ == value@,
    {
        EventName::new(String::from_str(value))
    }

    pub fn to_string(&self) -> (shown: String)
        ensures
            shown@ == self.0@,
    {
        self.0.clone()
    }
}

} // verus!
