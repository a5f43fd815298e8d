use vstd::prelude::*;

use crate::error::WOLError;

verus! {

/// `c` is a hexadecimal digit: `0`-`9`, `a`-`f` or `A`-`F`.
pub open spec fn is_hex_digit(c: char) -> bool {
    ||| '0' <= c && c <= '9'
    ||| 'a' <= c && c <= 'f'
    ||| 'A' <= c && c <= 'F'
}

/// The value of a hexadecimal digit.
pub open spec fn hex_value(c: char) -> int {
    if '0' <= c && c <= '9' {
        c as int - '0' as int
    } else if 'a' <= c && c <= 'f' {
        c as int - 'a' as int + 10
    } else {
        c as int - 'A' as int + 10
    }
}

/// The character at position `i` of `s` is what a MAC address text holds
/// there: a colon after each two-digit group, a hexadecimal digit elsewhere.
pub open spec fn fits_position(s: Seq<char>, i: int) -> bool {
    if i % 3 == 2 {
        s[i] == ':'
    } else {
        is_hex_digit(s[i])
    }
}

/// `s` is a MAC address as text: six groups of two hexadecimal digits,
/// separated by colons, 17 characters in all.
pub open spec fn is_mac_text(s: Seq<char>) -> bool {
    &&& s.len() == 17
    &&& forall|i: int| 0 <= i < 17 ==> #[trigger] fits_position(s, i)
}

/// The value of the `k`-th two-digit group of `s`.
pub open spec fn octet_of(s: Seq<char>, k: int) -> int {
    16 * hex_value(s[3 * k]) + hex_value(s[3 * k + 1])
}

/// The six bytes that a MAC address text denotes, in the order written.
pub open spec fn mac_of(s: Seq<char>) -> Seq<u8> {
    Seq::new(6, |k: int| octet_of(s, k) as u8)
}

/// The value of one hexadecimal digit, or `None` for any other character.
pub fn hex_digit_value(c: char) -> (r: Option<u8>)
    ensures
        r is Some <==> is_hex_digit(c),
        r matches Some(v) ==> v as int == hex_value(c) && v < 16,
{
    if '0' <= c && c <= '9' {
        Some((c as u32 - '0' as u32) as u8)
    } else if 'a' <= c && c <= 'f' {
        Some((c as u32 - 'a' as u32 + 10) as u8)
    } else if 'A' <= c && c <= 'F' {
        Some((c as u32 - 'A' as u32 + 10) as u8)
    } else {
        None
    }
}

/// Parses `HH:HH:HH:HH:HH:HH` (hex digits of either case) into six bytes.
/// Text of any length but 17 is refused before any character is read.
pub fn parse_mac_address(mac_addr: &str) -> (r: Result<[u8; 6], WOLError>)
    ensures
        r is Ok <==> is_mac_text(mac_addr@),
        r matches Ok(mac) ==> mac@ == mac_of(mac_addr@),
        r matches Err(e) ==> e == WOLError::InvalidMACAddress,
{
    if mac_addr.unicode_len() != 17 {
        return Err(WOLError::InvalidMACAddress);
    }
    let ghost s = mac_addr@;
    let mut result: [u8; 6] = [0u8; 6];
    let mut i: usize = 0;
    while i < 6
        invariant
            s == mac_addr@,
            s.len() == 17,
            i <= 6,
            forall|j: int| 0 <= j < 3 * i && j < 17 ==> #[trigger] fits_position(s, j),
            forall|k: int| 0 <= k < i ==> result@[k] as int == octet_of(s, k),
        decreases 6 - i,
    {
        let n: usize = 3 * i;
        let hi = hex_digit_value(mac_addr.get_char(n));
        let lo = hex_digit_value(mac_addr.get_char(n + 1));
        match (hi, lo) {
            (Some(h), Some(l)) => {
                result[i] = h * 16 + l;
            },
            _ => {
                assert(!fits_position(s, n as int) || !fits_position(s, n + 1));
                return Err(WOLError::InvalidMACAddress);
            },
        }
        if i < 5 && mac_addr.get_char(n + 2) != ':' {
            assert(!fits_position(s, n + 2));
            return Err(WOLError::InvalidMACAddress);
        }
        i = i + 1;
    }
    assert(result@ =~= mac_of(s));
    Ok(result)
}

} // verus!
