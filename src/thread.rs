//! The thread context a frame runs on: its single pending-exception slot.
use crate::value::Value;
use vstd::prelude::*;

verus! {

pub struct JavaThread {
    exception: Option<Value>,
}

impl View for JavaThread {
    type V = Option<Value>;

    closed spec fn view(&self) -> Option<Value> {
        self.exception
    }
}

impl JavaThread {
    /// A thread with no pending exception.
    pub fn new() -> (t: JavaThread)
        ensures
            t@ is None,
    {
        JavaThread { exception: None }
    }

    /// The pending exception, if any.
    pub fn exception(&self) -> (r: Option<Value>)
        ensures
            r == self@,
    {
        self.exception
    }

    pub fn is_exception_occurred(&self) -> (r: bool)
        ensures
            r == self@ is Some,
    {
        self.exception.is_some()
    }

    /// Records `ex` as the pending exception.
    pub fn throw_ext(&mut self, ex: Value)
        ensures
            final(self)@ == Some(ex),
    {
        self.exception = Some(ex);
    }

    /// Clears the pending exception.
    pub fn clear_ext(&mut self)
        ensures
            final(self)@ is None,
    {
        self.exception = None;
    }
}

} // verus!
