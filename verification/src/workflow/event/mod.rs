//! Events as values of their own: an event by its name, with the types of
//! activity it answers to.
pub mod activity;
pub mod bodies;
pub mod event;
pub mod name;

pub use self::activity::{ActivityType, ActivityTypes};
pub use self::event::Event;
pub use self::name::EventName;
use vstd::prelude::*;

verus! {

/// Why a name or a type of activity was refused.
#[derive(Debug)]
pub enum Error {
    CannotUseStringDeclaration(EventName),
    DoesNotAcceptType(EventName, ActivityType),
    UnknownEvent(EventName),
}

impl Error {
    /// What an error is shown as.
    pub open spec fn text(self) -> Seq<char> {
        match self {
            Error::CannotUseStringDeclaration(event) => "Cannot use string only declaration for "@
                + event.0@,
            Error::DoesNotAcceptType(event, activity) => event.0@ + " does not accept activity "@
                + activity.0@,
            Error::UnknownEvent(event) => "Possum doesn't know about event "@ + event.0@,
        }
    }

    pub fn to_string(&self) -> (shown: String)
        ensures
            shown@ == self.text(),
    {
        match self {
            Error::CannotUseStringDeclaration(evt) => String::from_str(
                "Cannot use string only declaration for ",
            ).concat(evt.0.as_str()),
            Error::DoesNotAcceptType(evt, act) => evt.0.clone().concat(
                " does not accept activity ",
            ).concat(act.0.as_str()),
            Error::UnknownEvent(evt) => String::from_str("Possum doesn't know about event ").concat(
                evt.0.as_str(),
            ),
        }
    }
}

} // verus!
