//! What a change of the watched source file asks of the engine.

use vstd::prelude::*;

verus! {

/// What has happened to the watched file.
#[derive(Debug, PartialEq, Eq)]
pub enum FileEvent {
    /// The content of the file has changed.
    Write,
    /// The file is gone.
    Remove,
    /// The file has the given path now.
    Rename(String),
}

impl FileEvent {
    /// Whether the engine knows what to do about the event: only a change of
    /// the content is handled.
    pub open spec fn is_handled(&self) -> bool {
        self is Write
    }

    pub fn handled(&self) -> (handled: bool)
        ensures
            handled == self.is_handled(),
    {
        match self {
            FileEvent::Write => true,
            _ => false,
        }
    }
}

/// Whether the source is to be loaded again: it is when its content has
/// changed, and it is not when nothing has happened.
pub fn refresh(event: Option<FileEvent>) -> (reload: bool)
    requires
        event matches Some(change) ==> change.is_handled(),
    ensures
        reload == event is Some,
{
    match event {
        Some(_) => true,
        None => false,
    }
}

} // verus!
