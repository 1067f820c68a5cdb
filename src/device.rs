use vstd::prelude::*;
use crate::event::{EV_SYN, Event, InputEvent, SYN_REPORT, input_event, is_axis, is_button};
use crate::request::{Request, Session};

verus! {

/// A session that writes the records `evs`, in order.
pub open spec fn emits(s: Session, evs: Seq<InputEvent>) -> bool {
    &&& s.wf()
    &&& s.plan@ == evs.map_values(|e: InputEvent| Request::Emit(e))
    &&& s.done == 0
    &&& s.failure is None
}

fn emit_one(e: InputEvent) -> (r: Session)
    ensures
        emits(r, seq![e]),
{
    let mut plan: Vec<Request> = Vec::new();
    plan.push(Request::Emit(e));
    assert(plan@ =~= seq![e].map_values(|e: InputEvent| Request::Emit(e)));
    Session::new(plan)
}

/// The virtual device, which owns its control handle.
pub struct Device {
    /// The control handle.
    pub fd: i32,
}

impl Device {
    /// The device of the control handle `fd`.
    pub fn new(fd: i32) -> (r: Device)
        ensures
            r.fd == fd,
    {
        Device { fd }
    }

    /// Write one record of class `kind`, code `code` and value `value`.
    pub fn write(&self, kind: u16, code: u16, value: i32) -> (r: Session)
        ensures
            emits(r, seq![InputEvent { kind, code, value }]),
    {
        emit_one(InputEvent { kind, code, value })
    }

    /// Write the barrier that closes the current input frame.
    pub fn synchronize(&self) -> (r: Session)
        ensures
            emits(r, seq![InputEvent { kind: EV_SYN, code: SYN_REPORT, value: 0 }]),
    {
        self.write(EV_SYN, SYN_REPORT, 0)
    }

    /// Send an event with the given value.
    pub fn send(&self, event: Event, value: i32) -> (r: Session)
        ensures
            emits(r, seq![input_event(event, value)]),
    {
        self.write(event.kind(), event.code(), value)
    }

    /// Send a press of a key or button.
    pub fn press(&self, event: &Event) -> (r: Session)
        requires
            is_button(*event),
        ensures
            emits(r, seq![input_event(*event, 1)]),
    {
        self.write(event.kind(), event.code(), 1)
    }

    /// Send a release of a key or button.
    pub fn release(&self, event: &Event) -> (r: Session)
        requires
            is_button(*event),
        ensures
            emits(r, seq![input_event(*event, 0)]),
    {
        self.write(event.kind(), event.code(), 0)
    }

    /// Send a press and then a release of a key or button.
    pub fn click(&self, event: &Event) -> (r: Session)
        requires
            is_button(*event),
        ensures
            emits(r, seq![input_event(*event, 1), input_event(*event, 0)]),
    {
        let mut plan: Vec<Request> = Vec::new();
        plan.push(Request::Emit(InputEvent { kind: event.kind(), code: event.code(), value: 1 }));
        plan.push(Request::Emit(InputEvent { kind: event.kind(), code: event.code(), value: 0 }));
        assert(plan@ =~= seq![input_event(*event, 1), input_event(*event, 0)].map_values(
            |e: InputEvent| Request::Emit(e),
        ));
        Session::new(plan)
    }

    /// Give up the device: the request that destroys it. The device is
    /// consumed, so no request can follow on it.
    pub fn teardown(self) -> (r: Request)
        ensures
            r == Request::Destroy,
    {
        Request::Destroy
    }

    /// Send a relative or absolute position.
    pub fn position(&self, event: &Event, value: i32) -> (r: Session)
        requires
            is_axis(*event),
        ensures
            emits(r, seq![input_event(*event, value)]),
    {
        self.write(event.kind(), event.code(), value)
    }
}

} // verus!
