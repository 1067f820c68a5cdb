use vstd::prelude::*;
use crate::event::{InputEvent, RECORD_SIZE};
use crate::descriptor::DESCRIPTOR_SIZE;

verus! {

/// One call that the caller makes on the control handle.
#[derive(Clone, Copy, Debug, PartialEq, Eq, Structural)]
pub enum Request {
    /// Enable an event class.
    EnableKind(u16),
    /// Enable a key or button code.
    EnableKey(u16),
    /// Enable a relative axis code.
    EnableRelative(u16),
    /// Enable an absolute axis code.
    EnableAbsolute(u16),
    /// Write the device descriptor.
    WriteDescriptor,
    /// Create the device from the registered capabilities and descriptor.
    Create,
    /// Write one event record, stamped with the time of its writing.
    Emit(InputEvent),
    /// Destroy the device.
    Destroy,
}

/// Errors of the library.
#[derive(Clone, Copy, Debug, PartialEq, Eq, Structural)]
pub enum Error {
    /// A request on the control handle failed with this error number.
    Sys(i32),
    /// A write on the control handle took fewer bytes than it was given.
    ShortWrite,
    /// The device name holds a zero byte.
    InteriorNul,
    /// The device name with its terminator does not fit the name buffer.
    NameTooLong,
    /// An axis range was set while no absolute axis was selected.
    NoAxisSelected,
}

impl Error {
    /// A description of the error.
    pub fn message(&self) -> (r: String) {
        match self {
            Error::Sys(_) => "a request on the control handle failed".to_string(),
            Error::ShortWrite => "short write on the control handle".to_string(),
            Error::InteriorNul => "the device name holds a zero byte".to_string(),
            Error::NameTooLong => "the device name is too long".to_string(),
            Error::NoAxisSelected => "no absolute axis is selected".to_string(),
        }
    }
}

/// The number of bytes a write request must take, if it is a write.
pub open spec fn write_size(req: Request) -> Option<nat> {
    match req {
        Request::WriteDescriptor => Some(DESCRIPTOR_SIZE as nat),
        Request::Emit(_) => Some(RECORD_SIZE as nat),
        _ => None,
    }
}

/// The error that the outcome of `req` means, if any: an error number is
/// passed on as it is, and a write that took fewer or more bytes than the
/// request holds is a short write.
pub open spec fn outcome_error(req: Request, outcome: Result<usize, i32>) -> Option<Error> {
    match outcome {
        Err(e) => Some(Error::Sys(e)),
        Ok(n) => match write_size(req) {
            Some(size) => if n as nat == size {
                None
            } else {
                Some(Error::ShortWrite)
            },
            None => None,
        },
    }
}

/// A sequence of requests issued one after the other, which stops at the
/// first that fails.
pub struct Session {
    /// The requests, in the order in which they are issued.
    pub plan: Vec<Request>,
    /// How many requests have succeeded.
    pub done: usize,
    /// The failure that ended the session early, if any.
    pub failure: Option<Error>,
}

/// `new` is `old` after the outcome of its pending request was taken.
pub open spec fn recorded(old: Session, new: Session, outcome: Result<usize, i32>) -> bool {
    &&& new.wf()
    &&& new.plan@ == old.plan@
    &&& new.failure == outcome_error(old.plan@[old.done as int], outcome)
    &&& new.done == if new.failure is None {
        old.done + 1
    } else {
        old.done as int
    }
}

impl Session {
    pub open spec fn wf(&self) -> bool {
        self.done <= self.plan.len()
    }

    /// The request to issue next, if the session is still running.
    pub open spec fn next(&self) -> Option<Request> {
        if self.failure is None && self.done < self.plan.len() {
            Some(self.plan@[self.done as int])
        } else {
            None
        }
    }

    /// Every request has been issued and has succeeded.
    pub open spec fn succeeded(&self) -> bool {
        self.failure is None && self.done == self.plan.len()
    }

    /// A session that has issued nothing yet.
    pub fn new(plan: Vec<Request>) -> (r: Session)
        ensures
            r.wf(),
            r.plan@ == plan@,
            r.done == 0,
            r.failure is None,
    {
        Session { plan, done: 0, failure: None }
    }

    /// The request to issue next, or `None` once the session has ended.
    pub fn pending(&self) -> (r: Option<Request>)
        requires
            self.wf(),
        ensures
            r == self.next(),
    {
        if self.failure.is_none() && self.done < self.plan.len() {
            Some(self.plan[self.done])
        } else {
            None
        }
    }

    /// Takes the outcome of the pending request: a count of bytes taken,
    /// or an error number.
    pub fn record(&mut self, outcome: Result<usize, i32>)
        requires
            old(self).wf(),
            old(self).next() is Some,
        ensures
            recorded(*old(self), *final(self), outcome),
    {
        let req = self.plan[self.done];
        let failure = match outcome {
            Err(e) => Some(Error::Sys(e)),
            Ok(n) => match req {
                Request::WriteDescriptor => if n == DESCRIPTOR_SIZE {
                    None
                } else {
                    Some(Error::ShortWrite)
                },
                Request::Emit(_) => if n == RECORD_SIZE {
                    None
                } else {
                    Some(Error::ShortWrite)
                },
                _ => None,
            },
        };
        if failure.is_none() {
            self.done = self.done + 1;
        }
        self.failure = failure;
    }

    /// How the session ended.
    pub fn result(&self) -> (r: Result<(), Error>)
        requires
            self.wf(),
            self.next() is None,
        ensures
            r is Ok <==> self.succeeded(),
            r is Err ==> self.failure == Some(r->Err_0),
    {
        match self.failure {
            Some(e) => Err(e),
            None => Ok(()),
        }
    }
}

} // verus!
