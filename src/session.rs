use vstd::prelude::*;

use crate::error::WOLError;
use crate::mac::{is_mac_text, mac_of};
use crate::packet::{build_payload, magic_packet};

verus! {

/// Where a wake-up stands: the socket operation to perform next, or how it ended.
#[derive(Clone, Copy, Debug, PartialEq, Eq, Structural)]
pub enum Step {
    /// Bind a UDP socket to the IPv4 wildcard address on any local port.
    Bind,
    /// Enable broadcast on the bound socket.
    SetBroadcast,
    /// Send the payload as one datagram to 255.255.255.255, port 9.
    SendPacket,
    /// The magic packet was sent.
    Done,
    /// The wake-up stopped at the given failure; nothing is retried.
    Failed(WOLError),
}

/// The step is an outcome rather than an operation still to perform.
pub open spec fn is_finished(step: Step) -> bool {
    step is Done || step is Failed
}

/// The step that follows `step` once its operation succeeded or failed.
/// Each operation runs at most once, and a failure ends the wake-up with
/// the error of the operation that failed.
pub open spec fn next_step(step: Step, succeeded: bool) -> Step {
    match step {
        Step::Bind => if succeeded {
            Step::SetBroadcast
        } else {
            Step::Failed(WOLError::Bind)
        },
        Step::SetBroadcast => if succeeded {
            Step::SendPacket
        } else {
            Step::Failed(WOLError::SetBroadcast)
        },
        Step::SendPacket => if succeeded {
            Step::Done
        } else {
            Step::Failed(WOLError::SendPacket)
        },
        _ => step,
    }
}

/// The result a finished wake-up reports.
pub open spec fn outcome_of(step: Step) -> Option<Result<(), WOLError>> {
    match step {
        Step::Done => Some(Ok(())),
        Step::Failed(e) => Some(Err(e)),
        _ => None,
    }
}

/// One wake-up in progress: the magic packet to broadcast and the step
/// reached. The caller performs each socket operation that `step` names and
/// reports whether it succeeded through `advance`.
pub struct WakeUp {
    payload: Vec<u8>,
    step: Step,
}

impl WakeUp {
    /// The magic packet this wake-up broadcasts.
    pub closed spec fn spec_payload(&self) -> Seq<u8> {
        self.payload@
    }

    /// The step reached.
    pub closed spec fn spec_step(&self) -> Step {
        self.step
    }

    /// The magic packet to send.
    pub fn payload(&self) -> (r: &Vec<u8>)
        ensures
            r@ == self.spec_payload(),
    {
        &self.payload
    }

    /// The socket operation to perform next, or how the wake-up ended.
    pub fn step(&self) -> (r: Step)
        ensures
            r == self.spec_step(),
    {
        self.step
    }

    /// Records whether the operation of the current step succeeded.
    pub fn advance(&mut self, succeeded: bool)
        requires
            !is_finished(old(self).spec_step()),
        ensures
            final(self).spec_step() == next_step(old(self).spec_step(), succeeded),
            final(self).spec_payload() == old(self).spec_payload(),
    {
        self.step = match self.step {
            Step::Bind => if succeeded {
                Step::SetBroadcast
            } else {
                Step::Failed(WOLError::Bind)
            },
            Step::SetBroadcast => if succeeded {
                Step::SendPacket
            } else {
                Step::Failed(WOLError::SetBroadcast)
            },
            Step::SendPacket => if succeeded {
                Step::Done
            } else {
                Step::Failed(WOLError::SendPacket)
            },
            other => other,
        };
    }

    /// `None` while socket operations remain; then the wake-up's result.
    pub fn outcome(&self) -> (r: Option<Result<(), WOLError>>)
        ensures
            r == outcome_of(self.spec_step()),
    {
        match self.step {
            Step::Done => Some(Ok(())),
            Step::Failed(e) => Some(Err(e)),
            _ => None,
        }
    }
}

/// Starts waking the device with the given MAC address text. Invalid text
/// fails with `InvalidMACAddress` before any socket operation is asked for;
/// otherwise the wake-up carries the address's magic packet and begins by
/// binding a socket.
pub fn wake(mac_addr: &str) -> (r: Result<WakeUp, WOLError>)
    ensures
        r is Ok <==> is_mac_text(mac_addr@),
        r matches Ok(w) ==> w.spec_payload() == magic_packet(mac_of(mac_addr@)) && w.spec_step()
            == Step::Bind,
        r matches Err(e) ==> e == WOLError::InvalidMACAddress,
{
    match build_payload(mac_addr) {
        Ok(payload) => Ok(WakeUp { payload, step: Step::Bind }),
        Err(e) => Err(e),
    }
}

} // verus!
