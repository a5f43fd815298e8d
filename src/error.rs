use vstd::prelude::*;

verus! {

/// Every way a wake-up can fail.
#[derive(Clone, Copy, Debug, PartialEq, Eq, Structural)]
pub enum WOLError {
    /// The local UDP socket could not be bound.
    Bind,
    /// Broadcast could not be enabled on the socket.
    SetBroadcast,
    /// The magic packet could not be sent.
    SendPacket,
    /// The text is not a colon-separated MAC address.
    InvalidMACAddress,
}

/// The human-readable message for each error.
pub open spec fn error_message(e: WOLError) -> Seq<char> {
    match e {
        WOLError::InvalidMACAddress => "invalid MAC address"@,
        WOLError::Bind => "failed to bind to socket"@,
        WOLError::SetBroadcast => "failed to set broadcast mode"@,
        WOLError::SendPacket => "failed to send magic packet"@,
    }
}

impl WOLError {
    /// A one-line description of the error.
    pub fn message(&self) -> (r: &'static str)
        ensures
            r@ == error_message(*self),
    {
        match self {
            WOLError::InvalidMACAddress => "invalid MAC address",
            WOLError::Bind => "failed to bind to socket",
            WOLError::SetBroadcast => "failed to set broadcast mode",
            WOLError::SendPacket => "failed to send magic packet",
        }
    }
}

} // verus!
