//! The calls that the library asks of the USB transport, and the answers it
//! takes back. Nothing here touches a device: a request is a value that says
//! which call to make, a reply or an outcome is a value that says how it went.

use crate::error::Fault;
use crate::header::Header;
use vstd::prelude::*;

verus! {

/// Vendor identifier of the keyboard.
pub const VENDOR_ID: u16 = 0x1044;

/// Product identifier of the keyboard.
pub const PRODUCT_ID: u16 = 0x7a39;

/// `bRequest` of every control transfer.
pub const CONTROL_REQUEST: u8 = 0x09;

/// `wValue` of every control transfer.
pub const CONTROL_VALUE: u16 = 0x0300;

/// `wIndex` of every control transfer.
pub const CONTROL_INDEX: u16 = 0x0003;

/// Address of the endpoint to which a custom profile is written.
pub const ENDPOINT_OUT: u8 = 0x06;

/// Address of the endpoint from which a custom profile is read: endpoint 6
/// again, with the bit that marks the direction towards the host.
pub const ENDPOINT_IN: u8 = 0x86;

/// The time limit that stands for none: a transfer with it blocks until
/// the transport has completed it.
pub const NO_TIMEOUT: u64 = 0;

/// Bytes in one interrupt transfer.
pub const CHUNK_LEN: usize = 64;

/// Interrupt transfers in one custom profile.
pub const CHUNK_COUNT: usize = 8;

/// Bytes in one custom profile.
pub const PROFILE_LEN: usize = 512;

/// The two interfaces of the keyboard that a session claims.
#[derive(Clone, Copy, Debug, PartialEq, Eq, Structural)]
pub enum Interface {
    /// Interface 0.
    Zero,
    /// Interface 3.
    Three,
}

impl Interface {
    /// The number of the interface on the device.
    pub open spec fn spec_number(self) -> u8 {
        match self {
            Interface::Zero => 0,
            Interface::Three => 3,
        }
    }

    /// The number of the interface on the device.
    pub fn number(&self) -> (n: u8)
        ensures
            n == self.spec_number(),
    {
        match self {
            Interface::Zero => 0,
            Interface::Three => 3,
        }
    }
}

/// A call on the device or its handle that is no transfer.
#[derive(Clone, Copy, Debug, PartialEq, Eq, Structural)]
pub enum Request {
    /// Open the device with these identifiers.
    Open { vendor: u16, product: u16 },
    /// Ask whether a kernel driver is bound to the interface.
    DriverActive(Interface),
    /// Detach the kernel driver from the interface.
    Detach(Interface),
    /// Attach the kernel driver to the interface.
    Attach(Interface),
    /// Claim the interface.
    Claim(Interface),
    /// Release the interface.
    Release(Interface),
}

/// How a `Request` went.
#[derive(Clone, Copy, Debug, PartialEq, Eq, Structural)]
pub enum Reply {
    /// The call succeeded and has nothing to tell.
    Done,
    /// The answer to `Request::DriverActive`.
    Active(bool),
    /// The call failed.
    Failed(Fault),
}

/// Direction of a control transfer.
#[derive(Clone, Copy, Debug, PartialEq, Eq, Structural)]
pub enum Direction {
    /// Host to device.
    Out,
    /// Device to host.
    In,
}

/// Type of a control request.
#[derive(Clone, Copy, Debug, PartialEq, Eq, Structural)]
pub enum RequestKind {
    Standard,
    Class,
    Vendor,
}

/// Recipient of a control request.
#[derive(Clone, Copy, Debug, PartialEq, Eq, Structural)]
pub enum Recipient {
    Device,
    Interface,
    Endpoint,
    Other,
}

/// The setup of a control transfer: everything but its payload.
#[derive(Clone, Copy, Debug, PartialEq, Eq, Structural)]
pub struct Setup {
    pub direction: Direction,
    pub kind: RequestKind,
    pub recipient: Recipient,
    pub request: u8,
    pub value: u16,
    pub index: u16,
}

impl Setup {
    /// The setup of every control transfer to the keyboard: a class request
    /// from host to device, addressed to an interface.
    pub open spec fn spec_keyboard() -> Setup {
        Setup {
            direction: Direction::Out,
            kind: RequestKind::Class,
            recipient: Recipient::Interface,
            request: 0x09,
            value: 0x0300,
            index: 0x0003,
        }
    }

    /// The setup of every control transfer to the keyboard.
    pub fn keyboard() -> (setup: Setup)
        ensures
            setup == Setup::spec_keyboard(),
    {
        Setup {
            direction: Direction::Out,
            kind: RequestKind::Class,
            recipient: Recipient::Interface,
            request: CONTROL_REQUEST,
            value: CONTROL_VALUE,
            index: CONTROL_INDEX,
        }
    }
}

/// One transfer to or from the keyboard. `timeout_ms` is its time limit in
/// milliseconds; zero stands for none.
#[derive(Clone, Copy, Debug, PartialEq, Eq)]
pub enum Transfer {
    /// A control transfer that carries a header to endpoint 0.
    Control { setup: Setup, data: [u8; 8], timeout_ms: u64 },
    /// An interrupt transfer that writes one chunk of a profile.
    InterruptOut { endpoint: u8, chunk: [u8; 64], timeout_ms: u64 },
    /// An interrupt transfer that reads up to `length` bytes.
    InterruptIn { endpoint: u8, length: usize, timeout_ms: u64 },
}

/// A transfer as a mathematical value.
pub enum TransferView {
    Control { setup: Setup, data: Seq<u8>, timeout_ms: u64 },
    InterruptOut { endpoint: u8, chunk: Seq<u8>, timeout_ms: u64 },
    InterruptIn { endpoint: u8, length: nat, timeout_ms: u64 },
}

impl View for Transfer {
    type V = TransferView;

    open spec fn view(&self) -> TransferView {
        match *self {
            Transfer::Control { setup, data, timeout_ms } => TransferView::Control {
                setup,
                data: data@,
                timeout_ms,
            },
            Transfer::InterruptOut { endpoint, chunk, timeout_ms } => TransferView::InterruptOut {
                endpoint,
                chunk: chunk@,
                timeout_ms,
            },
            Transfer::InterruptIn { endpoint, length, timeout_ms } => TransferView::InterruptIn {
                endpoint,
                length: length as nat,
                timeout_ms,
            },
        }
    }
}

impl TransferView {
    /// The control transfer that carries the header with bytes `wire`,
    /// without a time limit.
    pub open spec fn control(wire: Seq<u8>) -> TransferView {
        TransferView::Control { setup: Setup::spec_keyboard(), data: wire, timeout_ms: 0 }
    }

    /// The interrupt transfer that writes `chunk` to endpoint 6, without a
    /// time limit.
    pub open spec fn write(chunk: Seq<u8>) -> TransferView {
        TransferView::InterruptOut { endpoint: ENDPOINT_OUT, chunk, timeout_ms: 0 }
    }

    /// The interrupt transfer that reads one chunk of 64 bytes, without a
    /// time limit.
    pub open spec fn read() -> TransferView {
        TransferView::InterruptIn { endpoint: ENDPOINT_IN, length: 64, timeout_ms: 0 }
    }
}

/// The views of the transfers of `plan`, in order.
pub open spec fn views(plan: Seq<Transfer>) -> Seq<TransferView> {
    Seq::new(plan.len(), |i: int| plan[i]@)
}

impl Transfer {
    /// Two transfers with the same view are the same transfer.
    pub proof fn lemma_view_injective(a: Transfer, b: Transfer)
        requires
            a@ == b@,
        ensures
            a == b,
    {
        match (a, b) {
            (Transfer::Control { data: x, .. }, Transfer::Control { data: y, .. }) => {
                assert(x@ == y@);
                assert(x =~= y);
            },
            (Transfer::InterruptOut { chunk: x, .. }, Transfer::InterruptOut { chunk: y, .. }) => {
                assert(x@ == y@);
                assert(x =~= y);
            },
            _ => {},
        }
    }

    /// The control transfer that carries `header`.
    pub fn control(header: &Header) -> (transfer: Transfer)
        ensures
            transfer@ == TransferView::control(header@),
    {
        Transfer::Control {
            setup: Setup::keyboard(),
            data: header.as_bytes(),
            timeout_ms: NO_TIMEOUT,
        }
    }

    /// The interrupt transfer that writes `chunk`.
    pub fn write(chunk: [u8; 64]) -> (transfer: Transfer)
        ensures
            transfer@ == TransferView::write(chunk@),
    {
        Transfer::InterruptOut { endpoint: ENDPOINT_OUT, chunk, timeout_ms: NO_TIMEOUT }
    }

    /// The interrupt transfer that reads one chunk.
    pub fn read() -> (transfer: Transfer)
        ensures
            transfer@ == TransferView::read(),
    {
        Transfer::InterruptIn { endpoint: ENDPOINT_IN, length: CHUNK_LEN, timeout_ms: NO_TIMEOUT }
    }
}

/// How a `Transfer` went.
#[derive(Clone, Copy, Debug, PartialEq, Eq, Structural)]
pub enum Outcome {
    /// The transport completed the transfer and moved this many bytes.
    Moved(usize),
    /// The transport failed the transfer.
    Failed(Fault),
}

} // verus!
