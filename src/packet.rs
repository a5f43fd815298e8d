use vstd::prelude::*;

use crate::error::WOLError;
use crate::mac::{is_mac_text, mac_of, parse_mac_address};

verus! {

/// Length of a magic packet in bytes.
pub const PACKET_LEN: usize = 102;

/// The magic packet for `mac`: six bytes of `0xFF`, then `mac` sixteen times.
pub open spec fn magic_packet(mac: Seq<u8>) -> Seq<u8> {
    Seq::new(102, |i: int| if i < 6 { 0xFFu8 } else { mac[(i - 6) % 6] })
}

/// Builds the 102-byte magic packet for a parsed MAC address.
pub fn payload_for(mac: &[u8; 6]) -> (r: Vec<u8>)
    ensures
        r@ == magic_packet(mac@),
{
    let mut payload: Vec<u8> = Vec::with_capacity(PACKET_LEN);
    let mut i: usize = 0;
    while i < PACKET_LEN
        invariant
            i <= PACKET_LEN,
            payload@ == magic_packet(mac@).take(i as int),
        decreases PACKET_LEN - i,
    {
        if i < 6 {
            payload.push(0xFF);
        } else {
            payload.push(mac[(i - 6) % 6]);
        }
        i = i + 1;
        assert(payload@ =~= magic_packet(mac@).take(i as int));
    }
    assert(payload@ =~= magic_packet(mac@));
    payload
}

/// Parses a MAC address text and builds its magic packet; text that is not
/// a MAC address gives `InvalidMACAddress`.
pub fn build_payload(mac_addr: &str) -> (r: Result<Vec<u8>, WOLError>)
    ensures
        r is Ok <==> is_mac_text(mac_addr@),
        r matches Ok(p) ==> p@ == magic_packet(mac_of(mac_addr@)),
        r matches Err(e) ==> e == WOLError::InvalidMACAddress,
{
    match parse_mac_address(mac_addr) {
        Ok(mac) => Ok(payload_for(&mac)),
        Err(e) => Err(e),
    }
}

/// A magic packet is 102 bytes long, starts with six bytes of `0xFF`, and
/// holds the address in each of the sixteen six-byte blocks that follow.
pub proof fn lemma_magic_packet_layout(mac: Seq<u8>)
    requires
        mac.len() == 6,
    ensures
        magic_packet(mac).len() == 102,
        magic_packet(mac).take(6) == seq![0xFFu8, 0xFFu8, 0xFFu8, 0xFFu8, 0xFFu8, 0xFFu8],
        forall|b: int|
            0 <= b < 16 ==> #[trigger] magic_packet(mac).subrange(6 + 6 * b, 12 + 6 * b) == mac,
{
    let p = magic_packet(mac);
    assert(p.take(6) =~= seq![0xFFu8, 0xFFu8, 0xFFu8, 0xFFu8, 0xFFu8, 0xFFu8]);
    assert forall|b: int| 0 <= b < 16 implies #[trigger] p.subrange(6 + 6 * b, 12 + 6 * b) == mac by {
        assert forall|j: int| 0 <= j < 6 implies p.subrange(6 + 6 * b, 12 + 6 * b)[j] == mac[j] by {
            assert((6 + 6 * b + j - 6) % 6 == j) by (nonlinear_arith)
                requires
                    0 <= b,
                    0 <= j < 6,
            ;
        }
        assert(p.subrange(6 + 6 * b, 12 + 6 * b) =~= mac);
    }
}

/// The payload depends on the address alone: the same address always gives
/// byte-identical payloads, and different addresses give different ones.
pub proof fn lemma_magic_packet_injective(a: Seq<u8>, b: Seq<u8>)
    requires
        a.len() == 6,
        b.len() == 6,
    ensures
        magic_packet(a) == magic_packet(b) <==> a == b,
{
    if magic_packet(a) == magic_packet(b) {
        assert forall|k: int| 0 <= k < 6 implies a[k] == b[k] by {
            assert(magic_packet(a)[6 + k] == magic_packet(b)[6 + k]);
        }
        assert(a =~= b);
    }
}

} // verus!
