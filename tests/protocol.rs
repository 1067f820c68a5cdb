use uinput::builder::registrations;
use uinput::descriptor::{DESCRIPTOR_SIZE, NAME_SIZE};
use uinput::event::{class_codes, ABS_CNT, EV_ABS, EV_KEY, EV_REL, EV_SYN, RECORD_SIZE, SYN_REPORT};
use uinput::{Builder, Capability, Device, Error, Event, InputEvent, Request, Session, TimeVal};

const BTN_LEFT: u16 = 0x110;
const REL_X: u16 = 0x00;
const REL_Y: u16 = 0x01;
const ABS_X: u16 = 0x00;

fn succeed(req: Request) -> Result<usize, i32> {
    match req {
        Request::WriteDescriptor => Ok(DESCRIPTOR_SIZE),
        Request::Emit(_) => Ok(RECORD_SIZE),
        _ => Ok(0),
    }
}

fn enable(b: Builder, cap: Capability) -> Result<Builder, Error> {
    let mut reg = b.event(cap);
    while let Some(req) = reg.pending() {
        reg.record(succeed(req));
    }
    reg.finish()
}

fn create(b: Builder) -> Result<Device, Error> {
    let mut c = b.create();
    while let Some(req) = c.pending() {
        c.record(succeed(req));
    }
    c.finish()
}

/// Runs a session, answering each request with `outcome`; returns what was
/// issued and how it ended.
fn run(mut s: Session, outcome: impl Fn(usize, Request) -> Result<usize, i32>) -> (Vec<Request>, Result<(), Error>) {
    let mut issued = Vec::new();
    while let Some(req) = s.pending() {
        let r = outcome(issued.len(), req);
        issued.push(req);
        s.record(r);
    }
    (issued, s.result())
}

fn emitted(s: Session) -> Vec<(u16, u16, i32)> {
    let (issued, res) = run(s, |_, r| succeed(r));
    assert_eq!(res, Ok(()));
    issued
        .into_iter()
        .map(|r| match r {
            Request::Emit(e) => (e.kind, e.code, e.value),
            other => panic!("not an event record: {:?}", other),
        })
        .collect()
}

#[test]
fn resolution_of_each_variant() {
    assert_eq!((Event::Keyboard(30).kind(), Event::Keyboard(30).code()), (EV_KEY, 30));
    assert_eq!((Event::Controller(BTN_LEFT).kind(), Event::Controller(BTN_LEFT).code()), (EV_KEY, BTN_LEFT));
    assert_eq!((Event::Relative(REL_Y).kind(), Event::Relative(REL_Y).code()), (EV_REL, REL_Y));
    assert_eq!((Event::Absolute(5).kind(), Event::Absolute(5).code()), (EV_ABS, 5));
    // The same event resolves the same way every time.
    assert_eq!(Event::Relative(7).kind(), Event::Relative(7).kind());
    assert_eq!(Event::Relative(7).code(), Event::Relative(7).code());
}

#[test]
fn class_enumerations_are_exact() {
    let keys = class_codes(true);
    let buttons = class_codes(false);
    assert_eq!(keys.len(), 255 + (0x220 - 0x160) + (0x2c0 - 0x224));
    assert_eq!(buttons.len(), 0x60 + 4 + 0x28);
    assert_eq!(keys[0], 1);
    assert_eq!(*keys.last().unwrap(), 0x2bf);
    assert_eq!(buttons[0], 0x100);
    assert_eq!(*buttons.last().unwrap(), 0x2e7);
    assert!(keys.windows(2).all(|w| w[0] < w[1]));
    assert!(buttons.windows(2).all(|w| w[0] < w[1]));
    assert!(buttons.contains(&BTN_LEFT));
    assert!(!keys.contains(&BTN_LEFT));
    assert!(keys.iter().all(|c| !buttons.contains(c)));
}

#[test]
fn single_event_registers_class_then_code() {
    assert_eq!(
        registrations(Capability::Single(Event::Keyboard(30))),
        vec![Request::EnableKind(EV_KEY), Request::EnableKey(30)]
    );
    assert_eq!(
        registrations(Capability::Single(Event::Controller(BTN_LEFT))),
        vec![Request::EnableKind(EV_KEY), Request::EnableKey(BTN_LEFT)]
    );
    assert_eq!(
        registrations(Capability::Single(Event::Relative(REL_X))),
        vec![Request::EnableKind(EV_REL), Request::EnableRelative(REL_X)]
    );
    assert_eq!(
        registrations(Capability::Single(Event::Absolute(ABS_X))),
        vec![Request::EnableKind(EV_ABS), Request::EnableAbsolute(ABS_X)]
    );
}

#[test]
fn all_of_a_class_registers_its_enumeration() {
    let plan = registrations(Capability::AllController);
    let codes = class_codes(false);
    assert_eq!(plan.len(), 2 * codes.len());
    for (i, c) in codes.iter().enumerate() {
        assert_eq!(plan[2 * i], Request::EnableKind(EV_KEY));
        assert_eq!(plan[2 * i + 1], Request::EnableKey(*c));
    }
    let all = registrations(Capability::All);
    let keys = registrations(Capability::AllKeyboard);
    assert_eq!(all.len(), keys.len() + plan.len());
    assert_eq!(&all[..keys.len()], &keys[..]);
    assert_eq!(&all[keys.len()..], &plan[..]);
}

#[test]
fn all_of_a_class_stops_at_first_failure() {
    let b = Builder::new(3);
    let mut reg = b.event(Capability::AllKeyboard);
    let mut issued = 0usize;
    while let Some(_) = reg.pending() {
        let outcome = if issued == 5 { Err(22) } else { Ok(0) };
        issued += 1;
        reg.record(outcome);
    }
    assert_eq!(issued, 6);
    assert_eq!(reg.finish().err(), Some(Error::Sys(22)));
}

#[test]
fn name_at_capacity_succeeds() {
    let name = "n".repeat(NAME_SIZE - 1);
    let b = Builder::new(3).name(&name).ok().unwrap();
    assert_eq!(&b.def.name[..NAME_SIZE - 1], name.as_bytes());
    assert_eq!(b.def.name[NAME_SIZE - 1], 0);
}

#[test]
fn name_one_over_capacity_fails() {
    let name = "n".repeat(NAME_SIZE);
    assert_eq!(Builder::new(3).name(&name).err(), Some(Error::NameTooLong));
}

#[test]
fn name_with_zero_byte_fails() {
    assert_eq!(Builder::new(3).name("a\0b").err(), Some(Error::InteriorNul));
}

#[test]
fn name_is_null_terminated_in_place() {
    let b = Builder::new(3).name("longer").ok().unwrap().name("ab").ok().unwrap();
    assert_eq!(&b.def.name[..7], &[b'a', b'b', 0, b'g', b'e', b'r', 0]);
}

#[test]
fn identifiers_are_stored() {
    let b = Builder::new(3).bus(3).vendor(0x1234).product(0x5678).version(2);
    assert_eq!((b.def.bus, b.def.vendor, b.def.product, b.def.version), (3, 0x1234, 0x5678, 2));
}

#[test]
fn absolute_axis_ranges_land_at_its_index() {
    let axis = 7u16;
    let b = enable(Builder::new(3), Capability::Single(Event::Absolute(axis))).ok().unwrap();
    assert_eq!(b.abs, Some(axis));
    let b = b.max(10).ok().unwrap().min(-10).ok().unwrap().fuzz(1).ok().unwrap().flat(0).ok().unwrap();
    for i in 0..ABS_CNT as usize {
        if i == axis as usize {
            assert_eq!((b.def.absmax[i], b.def.absmin[i], b.def.absfuzz[i], b.def.absflat[i]), (10, -10, 1, 0));
        } else {
            assert_eq!((b.def.absmax[i], b.def.absmin[i], b.def.absfuzz[i], b.def.absflat[i]), (0, 0, 0, 0));
        }
    }
}

#[test]
fn range_without_axis_is_rejected() {
    assert_eq!(Builder::new(3).max(10).err(), Some(Error::NoAxisSelected));
    assert_eq!(Builder::new(3).min(10).err(), Some(Error::NoAxisSelected));
    let b = enable(Builder::new(3), Capability::Single(Event::Absolute(1))).ok().unwrap();
    let b = enable(b, Capability::Single(Event::Relative(REL_X))).ok().unwrap();
    assert_eq!(b.abs, None);
    assert_eq!(b.fuzz(1).err(), Some(Error::NoAxisSelected));
    let b = enable(Builder::new(3), Capability::Single(Event::Keyboard(30))).ok().unwrap();
    assert_eq!(b.flat(1).err(), Some(Error::NoAxisSelected));
}

#[test]
fn axis_outside_the_table_is_rejected() {
    let b = enable(Builder::new(3), Capability::Single(Event::Absolute(ABS_CNT))).ok().unwrap();
    assert_eq!(b.max(1).err(), Some(Error::NoAxisSelected));
}

#[test]
fn failed_registration_selects_no_axis() {
    let mut reg = Builder::new(3).event(Capability::Single(Event::Absolute(2)));
    reg.record(Ok(0));
    reg.record(Err(1));
    assert_eq!(reg.pending(), None);
    assert_eq!(reg.finish().err(), Some(Error::Sys(1)));
}

#[test]
fn descriptor_layout() {
    let b = Builder::new(3)
        .name("ab")
        .ok()
        .unwrap()
        .bus(0x0103)
        .vendor(0x0001)
        .product(0x0002)
        .version(0x0004);
    let b = enable(b, Capability::Single(Event::Absolute(1))).ok().unwrap();
    let b = b.min(-10).ok().unwrap();
    let c = b.create();
    let bytes = c.descriptor_bytes();
    assert_eq!(bytes.len(), DESCRIPTOR_SIZE);
    assert_eq!(&bytes[..3], b"ab\0");
    assert_eq!(&bytes[80..88], &[0x03, 0x01, 0x01, 0x00, 0x02, 0x00, 0x04, 0x00]);
    assert_eq!(&bytes[88..92], &[0, 0, 0, 0]);
    // absmin starts after the name, the identifiers, the effect count and absmax.
    let absmin = 92 + 4 * ABS_CNT as usize;
    assert_eq!(&bytes[absmin + 4..absmin + 8], &(-10i32).to_le_bytes());
    assert!(bytes[absmin..absmin + 4].iter().all(|x| *x == 0));
}

#[test]
fn create_writes_descriptor_then_creates() {
    let c = Builder::new(9).create();
    let (issued, res) = run(c.session, |_, r| succeed(r));
    assert_eq!(issued, vec![Request::WriteDescriptor, Request::Create]);
    assert_eq!(res, Ok(()));
    let d = create(Builder::new(9)).ok().unwrap();
    assert_eq!(d.fd, 9);
}

#[test]
fn create_stops_after_short_descriptor_write() {
    let mut c = Builder::new(9).create();
    assert_eq!(c.pending(), Some(Request::WriteDescriptor));
    c.record(Ok(DESCRIPTOR_SIZE - 1));
    assert_eq!(c.pending(), None);
    assert_eq!(c.finish().err(), Some(Error::ShortWrite));
}

#[test]
fn create_failure_is_passed_on() {
    let mut c = Builder::new(9).create();
    c.record(Ok(DESCRIPTOR_SIZE));
    c.record(Err(13));
    assert_eq!(c.finish().err(), Some(Error::Sys(13)));
}

#[test]
fn send_writes_one_record_for_any_event() {
    let d = create(Builder::new(4)).ok().unwrap();
    assert_eq!(emitted(d.send(Event::Keyboard(30), 1)), vec![(EV_KEY, 30, 1)]);
    // An event that was never enabled is written all the same.
    assert_eq!(emitted(d.send(Event::Absolute(3), -5)), vec![(EV_ABS, 3, -5)]);
}

#[test]
fn send_failure_leaves_device_usable() {
    let d = Device::new(4);
    let (_, res) = run(d.send(Event::Relative(REL_X), 1), |_, _| Err(19));
    assert_eq!(res, Err(Error::Sys(19)));
    assert_eq!(emitted(d.send(Event::Relative(REL_X), 1)), vec![(EV_REL, REL_X, 1)]);
    assert_eq!(d.teardown(), Request::Destroy);
}

#[test]
fn press_release_position() {
    let d = Device::new(4);
    assert_eq!(emitted(d.press(&Event::Controller(BTN_LEFT))), vec![(EV_KEY, BTN_LEFT, 1)]);
    assert_eq!(emitted(d.release(&Event::Controller(BTN_LEFT))), vec![(EV_KEY, BTN_LEFT, 0)]);
    assert_eq!(emitted(d.position(&Event::Absolute(ABS_X), 300)), vec![(EV_ABS, ABS_X, 300)]);
    assert_eq!(emitted(d.write(EV_REL, REL_Y, -3)), vec![(EV_REL, REL_Y, -3)]);
}

#[test]
fn click_writes_press_then_release() {
    let d = Device::new(4);
    assert_eq!(emitted(d.click(&Event::Keyboard(30))), vec![(EV_KEY, 30, 1), (EV_KEY, 30, 0)]);
}

#[test]
fn click_stops_when_press_fails() {
    let d = Device::new(4);
    let (issued, res) = run(d.click(&Event::Keyboard(30)), |_, _| Err(5));
    assert_eq!(issued.len(), 1);
    assert_eq!(res, Err(Error::Sys(5)));
}

#[test]
fn click_release_failure_is_surfaced() {
    let d = Device::new(4);
    let (issued, res) = run(d.click(&Event::Keyboard(30)), |i, r| if i == 1 { Err(5) } else { succeed(r) });
    assert_eq!(issued.len(), 2);
    assert_eq!(res, Err(Error::Sys(5)));
}

#[test]
fn short_event_write_fails() {
    let d = Device::new(4);
    let (_, res) = run(d.synchronize(), |_, _| Ok(RECORD_SIZE - 1));
    assert_eq!(res, Err(Error::ShortWrite));
}

#[test]
fn mouse_scenario_three_records() {
    let b = Builder::new(5).name("test").ok().unwrap();
    let b = enable(b, Capability::Single(Event::Controller(BTN_LEFT))).ok().unwrap();
    let b = enable(b, Capability::Single(Event::Relative(REL_X))).ok().unwrap();
    let b = enable(b, Capability::Single(Event::Relative(REL_Y))).ok().unwrap();
    let d = create(b).ok().unwrap();
    let mut records = emitted(d.send(Event::Relative(REL_X), 50));
    records.extend(emitted(d.send(Event::Relative(REL_Y), 50)));
    records.extend(emitted(d.synchronize()));
    assert_eq!(records, vec![(EV_REL, REL_X, 50), (EV_REL, REL_Y, 50), (EV_SYN, SYN_REPORT, 0)]);
}

#[test]
fn record_encoding() {
    let e = InputEvent { kind: EV_REL, code: REL_Y, value: -2 };
    let bytes = e.encode(TimeVal { sec: 0x0102, usec: 7 });
    let mut expected = Vec::new();
    expected.extend_from_slice(&0x0102i64.to_le_bytes());
    expected.extend_from_slice(&7i64.to_le_bytes());
    expected.extend_from_slice(&EV_REL.to_le_bytes());
    expected.extend_from_slice(&REL_Y.to_le_bytes());
    expected.extend_from_slice(&(-2i32).to_le_bytes());
    assert_eq!(bytes.len(), RECORD_SIZE);
    assert_eq!(bytes, expected);
}

#[test]
fn error_messages() {
    assert_eq!(Error::NameTooLong.message(), "the device name is too long");
    assert!(!Error::Sys(1).message().is_empty());
}

#[test]
fn event_converts_to_single_capability() {
    let cap: Capability = Event::Relative(REL_X).into();
    assert_eq!(cap, Capability::Single(Event::Relative(REL_X)));
}

#[test]
fn directional_pad_is_a_controller_class() {
    let keys = class_codes(true);
    let buttons = class_codes(false);
    for c in 0x220u16..0x224 {
        assert!(buttons.contains(&c));
        assert!(!keys.contains(&c));
    }
    assert!(keys.contains(&0x21f));
    assert!(keys.contains(&0x224));
    let plan = registrations(Capability::AllController);
    assert!(plan.contains(&Request::EnableKey(0x220)));
    assert!(!registrations(Capability::AllKeyboard).contains(&Request::EnableKey(0x223)));
}
