use vstd::prelude::*;
use vstd::string::StringSliceAdditionalSpecFns;
use crate::descriptor::{Descriptor, NAME_SIZE, descriptor_bytes};
use crate::device::Device;
use crate::event::{
    ABS_CNT, Capability, EV_KEY, Event, class_codes, class_event, enumeration, is_enumeration,
    kind_of, lemma_enumeration,
};
use crate::request::{Error, Request, Session, recorded};

verus! {

/// The request that enables the code of `e` within its class.
pub open spec fn code_request(e: Event) -> Request {
    match e {
        Event::Keyboard(c) => Request::EnableKey(c),
        Event::Controller(c) => Request::EnableKey(c),
        Event::Relative(c) => Request::EnableRelative(c),
        Event::Absolute(c) => Request::EnableAbsolute(c),
    }
}

/// The registration of one event: its class, then its code.
pub open spec fn single_plan(e: Event) -> Seq<Request> {
    seq![Request::EnableKind(kind_of(e)), code_request(e)]
}

/// The registrations of each code of `codes`, in order, in the keyboard
/// class (`keyboard`) or the controller class.
pub open spec fn codes_plan(keyboard: bool, codes: Seq<u16>) -> Seq<Request>
    decreases codes.len(),
{
    if codes.len() == 0 {
        Seq::empty()
    } else {
        codes_plan(keyboard, codes.drop_last()) + single_plan(class_event(keyboard, codes.last()))
    }
}

/// The registrations that enabling `cap` issues, in order.
pub open spec fn registration_plan(cap: Capability) -> Seq<Request> {
    match cap {
        Capability::All => codes_plan(true, enumeration(true)) + codes_plan(false, enumeration(false)),
        Capability::AllKeyboard => codes_plan(true, enumeration(true)),
        Capability::AllController => codes_plan(false, enumeration(false)),
        Capability::Single(e) => single_plan(e),
    }
}

/// The absolute axis selected once `cap` has been enabled.
pub open spec fn selected_axis(cap: Capability) -> Option<u16> {
    match cap {
        Capability::Single(Event::Absolute(a)) => Some(a),
        _ => None,
    }
}

/// The name buffer `old` after `b` and its terminator are copied to its
/// start.
pub open spec fn name_buffer(old: Seq<u8>, b: Seq<u8>) -> Seq<u8> {
    Seq::new(
        old.len(),
        |i: int|
            if i < b.len() {
                b[i]
            } else if i == b.len() {
                0u8
            } else {
                old[i]
            },
    )
}

fn push_single(plan: &mut Vec<Request>, e: Event)
    ensures
        final(plan)@ == old(plan)@ + single_plan(e),
{
    plan.push(Request::EnableKind(e.kind()));
    let code = e.code();
    let req = match e {
        Event::Keyboard(_) => Request::EnableKey(code),
        Event::Controller(_) => Request::EnableKey(code),
        Event::Relative(_) => Request::EnableRelative(code),
        Event::Absolute(_) => Request::EnableAbsolute(code),
    };
    plan.push(req);
    assert(final(plan)@ =~= old(plan)@ + single_plan(e));
}

fn push_class(plan: &mut Vec<Request>, keyboard: bool)
    ensures
        final(plan)@ == old(plan)@ + codes_plan(keyboard, enumeration(keyboard)),
{
    let codes = class_codes(keyboard);
    let mut i: usize = 0;
    while i < codes.len()
        invariant
            i <= codes.len(),
            plan@ == old(plan)@ + codes_plan(keyboard, codes@.take(i as int)),
        decreases codes.len() - i,
    {
        let e = if keyboard {
            Event::Keyboard(codes[i])
        } else {
            Event::Controller(codes[i])
        };
        push_single(plan, e);
        proof {
            let s = codes@.take(i + 1);
            assert(s.drop_last() =~= codes@.take(i as int));
            assert(plan@ =~= old(plan)@ + codes_plan(keyboard, s));
        }
        i = i + 1;
    }
    assert(codes@.take(codes.len() as int) =~= codes@);
}

/// The registrations that enabling `value` issues, in order.
pub fn registrations(value: Capability) -> (r: Vec<Request>)
    ensures
        r@ == registration_plan(value),
{
    let mut plan: Vec<Request> = Vec::new();
    match value {
        Capability::All => {
            push_class(&mut plan, true);
            push_class(&mut plan, false);
        },
        Capability::AllKeyboard => push_class(&mut plan, true),
        Capability::AllController => push_class(&mut plan, false),
        Capability::Single(e) => push_single(&mut plan, e),
    }
    assert(plan@ =~= registration_plan(value));
    plan
}

proof fn lemma_codes_plan(keyboard: bool, codes: Seq<u16>)
    ensures
        codes_plan(keyboard, codes).len() == 2 * codes.len(),
        forall|i: int|
            0 <= i < codes.len() ==> {
                &&& #[trigger] codes_plan(keyboard, codes)[2 * i] == Request::EnableKind(EV_KEY)
                &&& codes_plan(keyboard, codes)[2 * i + 1] == Request::EnableKey(codes[i])
            },
    decreases codes.len(),
{
    if codes.len() > 0 {
        let prefix = codes.drop_last();
        lemma_codes_plan(keyboard, prefix);
        let p = codes_plan(keyboard, prefix);
        let full = codes_plan(keyboard, codes);
        assert forall|i: int| 0 <= i < codes.len() implies {
            &&& #[trigger] full[2 * i] == Request::EnableKind(EV_KEY)
            &&& full[2 * i + 1] == Request::EnableKey(codes[i])
        } by {
            if i < prefix.len() {
                assert(full[2 * i] == p[2 * i]);
                assert(full[2 * i + 1] == p[2 * i + 1]);
                assert(prefix[i] == codes[i]);
            }
        }
    }
}

/// Enabling every keyboard key registers, for each code of the keyboard
/// enumeration in increasing order, the key class and then that code: each
/// keyboard code once, and no other code.
pub proof fn lemma_keyboard_registrations()
    ensures
        is_enumeration(true, enumeration(true)),
        registration_plan(Capability::AllKeyboard).len() == 2 * enumeration(true).len(),
        forall|i: int|
            0 <= i < enumeration(true).len() ==> {
                &&& #[trigger] registration_plan(Capability::AllKeyboard)[2 * i]
                    == Request::EnableKind(EV_KEY)
                &&& registration_plan(Capability::AllKeyboard)[2 * i + 1] == Request::EnableKey(
                    enumeration(true)[i],
                )
            },
{
    lemma_enumeration(true);
    lemma_codes_plan(true, enumeration(true));
}

/// Enabling every controller button registers, for each code of the
/// controller enumeration in increasing order, the key class and then that
/// code: each controller code once, and no other code.
pub proof fn lemma_controller_registrations()
    ensures
        is_enumeration(false, enumeration(false)),
        registration_plan(Capability::AllController).len() == 2 * enumeration(false).len(),
        forall|i: int|
            0 <= i < enumeration(false).len() ==> {
                &&& #[trigger] registration_plan(Capability::AllController)[2 * i]
                    == Request::EnableKind(EV_KEY)
                &&& registration_plan(Capability::AllController)[2 * i + 1]
                    == Request::EnableKey(enumeration(false)[i])
            },
{
    lemma_enumeration(false);
    lemma_codes_plan(false, enumeration(false));
}

/// Only an absolute event selects an axis: after any other capability is
/// enabled, range setters have no axis to write to.
pub proof fn lemma_only_absolute_selects(cap: Capability)
    ensures
        selected_axis(cap) is Some <==> cap matches Capability::Single(Event::Absolute(_)),
        cap matches Capability::Single(Event::Absolute(a)) ==> selected_axis(cap) == Some(a),
{
}

/// On a zeroed descriptor with axis `a` selected, setting its largest value
/// to 10, its smallest to -10, its noise filter to 1 and its dead zone to 0
/// leaves exactly those values at `a` and zero at every other axis.
pub proof fn lemma_axis_ranges(b0: Builder, b1: Builder, b2: Builder, b3: Builder, b4: Builder, a: u16)
    requires
        b0.def.is_zeroed(),
        b0.abs == Some(a),
        a < ABS_CNT,
        b0.with_range(Range::Max, a as int, 10, b1),
        b1.with_range(Range::Min, a as int, -10i32, b2),
        b2.with_range(Range::Fuzz, a as int, 1, b3),
        b3.with_range(Range::Flat, a as int, 0, b4),
    ensures
        b4.abs == Some(a),
        b4.def.wf(),
        b4.def.absmax@[a as int] == 10,
        b4.def.absmin@[a as int] == -10,
        b4.def.absfuzz@[a as int] == 1,
        b4.def.absflat@[a as int] == 0,
        forall|i: int|
            0 <= i < ABS_CNT && i != a ==> b4.def.absmax@[i] == 0 && b4.def.absmin@[i] == 0
                && b4.def.absfuzz@[i] == 0 && b4.def.absflat@[i] == 0,
{
}

/// Which axis table of the descriptor a range setter writes.
#[derive(Clone, Copy, Debug, PartialEq, Eq, Structural)]
pub enum Range {
    Max,
    Min,
    Fuzz,
    Flat,
}

/// Device builder: the control handle, the descriptor being assembled, and
/// the absolute axis that range setters write to.
pub struct Builder {
    /// The control handle.
    pub fd: i32,
    pub def: Descriptor,
    /// The most recently enabled absolute axis, while no other event has
    /// been enabled since.
    pub abs: Option<u16>,
}

impl Builder {
    pub open spec fn wf(&self) -> bool {
        self.def.wf()
    }

    /// `r` is this builder with the axis table `which` holding `value` at
    /// index `a`.
    pub open spec fn with_range(&self, which: Range, a: int, value: i32, r: Builder) -> bool {
        let d = self.def;
        &&& r.fd == self.fd
        &&& r.abs == self.abs
        &&& r.def.name == d.name
        &&& r.def.bus == d.bus && r.def.vendor == d.vendor
        &&& r.def.product == d.product && r.def.version == d.version
        &&& r.def.ff_effects_max == d.ff_effects_max
        &&& r.def.absmax@ == if which == Range::Max {
            d.absmax@.update(a, value)
        } else {
            d.absmax@
        }
        &&& r.def.absmin@ == if which == Range::Min {
            d.absmin@.update(a, value)
        } else {
            d.absmin@
        }
        &&& r.def.absfuzz@ == if which == Range::Fuzz {
            d.absfuzz@.update(a, value)
        } else {
            d.absfuzz@
        }
        &&& r.def.absflat@ == if which == Range::Flat {
            d.absflat@.update(a, value)
        } else {
            d.absflat@
        }
    }

    /// A builder on the control handle `fd`, with a zeroed descriptor and no
    /// axis selected.
    pub fn new(fd: i32) -> (r: Builder)
        ensures
            r.wf(),
            r.fd == fd,
            r.def.is_zeroed(),
            r.abs is None,
    {
        Builder { fd, def: Descriptor::new(), abs: None }
    }

    /// Set the name.
    pub fn name(self, value: &str) -> (r: Result<Builder, Error>)
        requires
            self.wf(),
        ensures
            value.spec_bytes().contains(0u8) <==> r == Err::<Builder, Error>(Error::InteriorNul),
            !value.spec_bytes().contains(0u8) && value.spec_bytes().len() + 1 > NAME_SIZE
                <==> r == Err::<Builder, Error>(Error::NameTooLong),
            r is Ok <==> !value.spec_bytes().contains(0u8) && value.spec_bytes().len() + 1
                <= NAME_SIZE,
            r matches Ok(b) ==> {
                &&& b.wf()
                &&& b.fd == self.fd && b.abs == self.abs
                &&& b.def.name@ == name_buffer(self.def.name@, value.spec_bytes())
                &&& b.def.bus == self.def.bus && b.def.vendor == self.def.vendor
                &&& b.def.product == self.def.product && b.def.version == self.def.version
                &&& b.def.ff_effects_max == self.def.ff_effects_max
                &&& b.def.absmax == self.def.absmax && b.def.absmin == self.def.absmin
                &&& b.def.absfuzz == self.def.absfuzz && b.def.absflat == self.def.absflat
            },
    {
        let bytes = value.as_bytes();
        let mut i: usize = 0;
        while i < bytes.len()
            invariant
                i <= bytes.len(),
                bytes@ == value.spec_bytes(),
                forall|k: int| 0 <= k < i ==> bytes@[k] != 0,
            decreases bytes.len() - i,
        {
            if bytes[i] == 0 {
                assert(bytes@.contains(0u8));
                return Err(Error::InteriorNul);
            }
            i = i + 1;
        }
        if bytes.len() >= NAME_SIZE {
            return Err(Error::NameTooLong);
        }
        let mut b = self;
        let ghost start = b.def.name@;
        let mut i: usize = 0;
        while i < bytes.len()
            invariant
                i <= bytes.len(),
                bytes@ == value.spec_bytes(),
                bytes.len() < NAME_SIZE,
                b.def.wf(),
                b.def.name@.len() == start.len(),
                b.fd == self.fd && b.abs == self.abs,
                b.def.bus == self.def.bus && b.def.vendor == self.def.vendor,
                b.def.product == self.def.product && b.def.version == self.def.version,
                b.def.ff_effects_max == self.def.ff_effects_max,
                b.def.absmax == self.def.absmax && b.def.absmin == self.def.absmin,
                b.def.absfuzz == self.def.absfuzz && b.def.absflat == self.def.absflat,
                forall|k: int| 0 <= k < i ==> b.def.name@[k] == bytes@[k],
                forall|k: int| i <= k < start.len() ==> b.def.name@[k] == start[k],
            decreases bytes.len() - i,
        {
            b.def.name.set(i, bytes[i]);
            i = i + 1;
        }
        b.def.name.set(bytes.len(), 0);
        assert(b.def.name@ =~= name_buffer(start, value.spec_bytes()));
        Ok(b)
    }

    /// Set the bus type.
    pub fn bus(self, value: u16) -> (r: Builder)
        ensures
            r == (Builder { def: Descriptor { bus: value, ..self.def }, ..self }),
    {
        let mut b = self;
        b.def.bus = value;
        b
    }

    /// Set the vendor identifier.
    pub fn vendor(self, value: u16) -> (r: Builder)
        ensures
            r == (Builder { def: Descriptor { vendor: value, ..self.def }, ..self }),
    {
        let mut b = self;
        b.def.vendor = value;
        b
    }

    /// Set the product identifier.
    pub fn product(self, value: u16) -> (r: Builder)
        ensures
            r == (Builder { def: Descriptor { product: value, ..self.def }, ..self }),
    {
        let mut b = self;
        b.def.product = value;
        b
    }

    /// Set the version.
    pub fn version(self, value: u16) -> (r: Builder)
        ensures
            r == (Builder { def: Descriptor { version: value, ..self.def }, ..self }),
    {
        let mut b = self;
        b.def.version = value;
        b
    }

    /// Enable the given capability: the registrations it needs, to be issued
    /// in order. No axis is selected until they have all succeeded.
    pub fn event(self, value: Capability) -> (r: Registration)
        requires
            self.wf(),
        ensures
            r.wf(),
            r.builder == (Builder { abs: None, ..self }),
            r.target == value,
            r.session.plan@ == registration_plan(value),
            r.session.done == 0,
            r.session.failure is None,
    {
        let mut b = self;
        b.abs = None;
        Registration { builder: b, target: value, session: Session::new(registrations(value)) }
    }

    fn set_range(self, which: Range, value: i32) -> (r: Result<Builder, Error>)
        requires
            self.wf(),
        ensures
            (self.abs is None || self.abs->Some_0 >= ABS_CNT) <==> r == Err::<
                Builder,
                Error,
            >(Error::NoAxisSelected),
            r is Ok <==> (self.abs is Some && self.abs->Some_0 < ABS_CNT),
            r matches Ok(b) ==> b.wf() && self.with_range(which, self.abs->Some_0 as int, value, b),
    {
        match self.abs {
            Some(a) => {
                if a >= ABS_CNT {
                    return Err(Error::NoAxisSelected);
                }
                let mut b = self;
                let i = a as usize;
                match which {
                    Range::Max => b.def.absmax.set(i, value),
                    Range::Min => b.def.absmin.set(i, value),
                    Range::Fuzz => b.def.absfuzz.set(i, value),
                    Range::Flat => b.def.absflat.set(i, value),
                }
                Ok(b)
            },
            None => Err(Error::NoAxisSelected),
        }
    }

    /// Set the largest value of the selected absolute axis.
    pub fn max(self, value: i32) -> (r: Result<Builder, Error>)
        requires
            self.wf(),
        ensures
            (self.abs is None || self.abs->Some_0 >= ABS_CNT) <==> r == Err::<
                Builder,
                Error,
            >(Error::NoAxisSelected),
            r is Ok <==> (self.abs is Some && self.abs->Some_0 < ABS_CNT),
            r matches Ok(b) ==> b.wf() && self.with_range(
                Range::Max,
                self.abs->Some_0 as int,
                value,
                b,
            ),
    {
        self.set_range(Range::Max, value)
    }

    /// Set the smallest value of the selected absolute axis.
    pub fn min(self, value: i32) -> (r: Result<Builder, Error>)
        requires
            self.wf(),
        ensures
            (self.abs is None || self.abs->Some_0 >= ABS_CNT) <==> r == Err::<
                Builder,
                Error,
            >(Error::NoAxisSelected),
            r is Ok <==> (self.abs is Some && self.abs->Some_0 < ABS_CNT),
            r matches Ok(b) ==> b.wf() && self.with_range(
                Range::Min,
                self.abs->Some_0 as int,
                value,
                b,
            ),
    {
        self.set_range(Range::Min, value)
    }

    /// Set the noise filter of the selected absolute axis.
    pub fn fuzz(self, value: i32) -> (r: Result<Builder, Error>)
        requires
            self.wf(),
        ensures
            (self.abs is None || self.abs->Some_0 >= ABS_CNT) <==> r == Err::<
                Builder,
                Error,
            >(Error::NoAxisSelected),
            r is Ok <==> (self.abs is Some && self.abs->Some_0 < ABS_CNT),
            r matches Ok(b) ==> b.wf() && self.with_range(
                Range::Fuzz,
                self.abs->Some_0 as int,
                value,
                b,
            ),
    {
        self.set_range(Range::Fuzz, value)
    }

    /// Set the dead zone of the selected absolute axis.
    pub fn flat(self, value: i32) -> (r: Result<Builder, Error>)
        requires
            self.wf(),
        ensures
            (self.abs is None || self.abs->Some_0 >= ABS_CNT) <==> r == Err::<
                Builder,
                Error,
            >(Error::NoAxisSelected),
            r is Ok <==> (self.abs is Some && self.abs->Some_0 < ABS_CNT),
            r matches Ok(b) ==> b.wf() && self.with_range(
                Range::Flat,
                self.abs->Some_0 as int,
                value,
                b,
            ),
    {
        self.set_range(Range::Flat, value)
    }

    /// Create the defined device: write the descriptor, then ask for the
    /// device to be created.
    pub fn create(self) -> (r: Creation)
        requires
            self.wf(),
        ensures
            r.wf(),
            r.fd == self.fd,
            r.def == self.def,
            r.session.plan@ == seq![Request::WriteDescriptor, Request::Create],
            r.session.done == 0,
            r.session.failure is None,
    {
        let mut plan: Vec<Request> = Vec::new();
        plan.push(Request::WriteDescriptor);
        plan.push(Request::Create);
        assert(plan@ =~= seq![Request::WriteDescriptor, Request::Create]);
        Creation { fd: self.fd, def: self.def, session: Session::new(plan) }
    }
}

/// The registrations of one capability, under way.
pub struct Registration {
    /// The builder, with no axis selected.
    pub builder: Builder,
    /// What is being enabled.
    pub target: Capability,
    pub session: Session,
}

impl Registration {
    pub open spec fn wf(&self) -> bool {
        self.builder.wf() && self.session.wf()
    }

    /// The registration to issue next, or `None` once they have ended.
    pub fn pending(&self) -> (r: Option<Request>)
        requires
            self.wf(),
        ensures
            r == self.session.next(),
    {
        self.session.pending()
    }

    /// Takes the outcome of the pending registration.
    pub fn record(&mut self, outcome: Result<usize, i32>)
        requires
            old(self).wf(),
            old(self).session.next() is Some,
        ensures
            final(self).wf(),
            final(self).builder == old(self).builder,
            final(self).target == old(self).target,
            recorded(old(self).session, final(self).session, outcome),
    {
        self.session.record(outcome);
    }

    /// The builder once every registration has succeeded, with the axis of
    /// an absolute event selected; else the first failure.
    pub fn finish(self) -> (r: Result<Builder, Error>)
        requires
            self.wf(),
            self.session.next() is None,
        ensures
            r is Ok <==> self.session.succeeded(),
            r matches Err(e) ==> self.session.failure == Some(e),
            r matches Ok(b) ==> b == (Builder { abs: selected_axis(self.target), ..self.builder }),
            r matches Ok(b) ==> b.wf(),
    {
        match self.session.result() {
            Ok(()) => {
                let mut b = self.builder;
                b.abs = match self.target {
                    Capability::Single(Event::Absolute(a)) => Some(a),
                    _ => None,
                };
                Ok(b)
            },
            Err(e) => Err(e),
        }
    }
}

/// The creation of a device, under way.
pub struct Creation {
    /// The control handle.
    pub fd: i32,
    pub def: Descriptor,
    pub session: Session,
}

impl Creation {
    pub open spec fn wf(&self) -> bool {
        self.def.wf() && self.session.wf()
    }

    /// The descriptor's bytes, for the descriptor write.
    pub fn descriptor_bytes(&self) -> (r: Vec<u8>)
        requires
            self.wf(),
        ensures
            r@ == descriptor_bytes(&self.def),
    {
        self.def.to_bytes()
    }

    /// The request to issue next, or `None` once the creation has ended.
    pub fn pending(&self) -> (r: Option<Request>)
        requires
            self.wf(),
        ensures
            r == self.session.next(),
    {
        self.session.pending()
    }

    /// Takes the outcome of the pending request.
    pub fn record(&mut self, outcome: Result<usize, i32>)
        requires
            old(self).wf(),
            old(self).session.next() is Some,
        ensures
            final(self).wf(),
            final(self).fd == old(self).fd,
            final(self).def == old(self).def,
            recorded(old(self).session, final(self).session, outcome),
    {
        self.session.record(outcome);
    }

    /// The device, which now owns the handle, once the descriptor was written
    /// whole and the device created; else the first failure.
    pub fn finish(self) -> (r: Result<Device, Error>)
        requires
            self.wf(),
            self.session.next() is None,
        ensures
            r is Ok <==> self.session.succeeded(),
            r matches Err(e) ==> self.session.failure == Some(e),
            r matches Ok(d) ==> d.fd == self.fd,
    {
        match self.session.result() {
            Ok(()) => Ok(Device::new(self.fd)),
            Err(e) => Err(e),
        }
    }
}

} // verus!
