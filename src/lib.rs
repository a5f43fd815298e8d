//! Wake-on-LAN: parse a textual MAC address, build the magic packet for it,
//! and decide the steps of the one UDP broadcast that carries it.
pub mod error;
pub mod mac;
pub mod packet;
pub mod session;

pub use error::WOLError;
pub use mac::{hex_digit_value, parse_mac_address};
pub use packet::{build_payload, payload_for, PACKET_LEN};
pub use session::{wake, Step, WakeUp};
