//! Creation and driving of a virtual input device through the kernel's
//! uinput control interface.
//!
//! The library holds the protocol: which capability registrations a device
//! needs, the exact bytes of the device descriptor and of each event record,
//! and the order in which requests reach the control handle. The requests
//! themselves are performed by the caller, who reports each outcome back.
pub mod event;
pub mod request;
pub mod descriptor;
pub mod builder;
pub mod device;

pub use builder::{Builder, Creation, Registration};
pub use descriptor::Descriptor;
pub use device::Device;
pub use event::{Capability, Event, InputEvent, TimeVal};
pub use request::{Error, Request, Session};
