//! MAC addresses: six bytes, parsed from hex text and rendered in the
//! canonical uppercase dash form (`AA-BB-CC-DD-EE-FF`).
//!
//! Accepted input forms are twelve bare hex digits, or six hex pairs joined
//! by `:` or by `-`.

use vstd::prelude::*;
use vstd::string::StrSliceExecFns;

use crate::strutil::push_char;

verus! {

/// A six-byte hardware address.
#[derive(Clone, Copy, Debug, PartialEq, Eq, Hash)]
pub struct Mac {
    pub bytes: [u8; 6],
}

impl View for Mac {
    type V = Seq<u8>;

    open spec fn view(&self) -> Seq<u8> {
        self.bytes@
    }
}

impl Mac {
    /// Wraps six bytes as a MAC address.
    pub fn new(bytes: [u8; 6]) -> (r: Mac)
        ensures
            r@ == bytes@,
    {
        Mac { bytes }
    }
}

/// Structural equality of two MAC addresses.
pub fn mac_eq(a: &Mac, b: &Mac) -> (r: bool)
    ensures
        r == (a@ == b@),
{
    let r = a.bytes[0] == b.bytes[0] && a.bytes[1] == b.bytes[1] && a.bytes[2] == b.bytes[2]
        && a.bytes[3] == b.bytes[3] && a.bytes[4] == b.bytes[4] && a.bytes[5] == b.bytes[5];
    proof {
        if r {
            assert(a.bytes@ =~= b.bytes@);
        }
    }
    r
}

/// A hexadecimal digit, upper or lower case.
pub open spec fn is_hex_char(c: char) -> bool {
    ('0' <= c && c <= '9') || ('a' <= c && c <= 'f') || ('A' <= c && c <= 'F')
}

/// The value of a hexadecimal digit.
pub open spec fn hex_char_val(c: char) -> u8
    recommends
        is_hex_char(c),
{
    if '0' <= c && c <= '9' {
        ((c as u32) - ('0' as u32)) as u8
    } else if 'a' <= c && c <= 'f' {
        ((c as u32) - ('a' as u32) + 10) as u8
    } else {
        ((c as u32) - ('A' as u32) + 10) as u8
    }
}

/// The value of a pair of hexadecimal digits.
pub open spec fn spec_hex_pair(hi: char, lo: char) -> u8
    recommends
        is_hex_char(hi) && is_hex_char(lo),
{
    (hex_char_val(hi) * 16 + hex_char_val(lo)) as u8
}

/// The value of a hexadecimal digit, or nothing.
pub fn hex_val(c: char) -> (r: Option<u8>)
    ensures
        is_hex_char(c) ==> r == Some(hex_char_val(c)),
        !is_hex_char(c) ==> r is None,
{
    if '0' <= c && c <= '9' {
        Some(((c as u32) - ('0' as u32)) as u8)
    } else if 'a' <= c && c <= 'f' {
        Some(((c as u32) - ('a' as u32) + 10) as u8)
    } else if 'A' <= c && c <= 'F' {
        Some(((c as u32) - ('A' as u32) + 10) as u8)
    } else {
        None
    }
}

/// Whether the six hex pairs of a MAC string are all hex digits; `step` is
/// the distance between pair starts (2 for bare hex, 3 for separated).
pub open spec fn mac_pairs_hex(s: Seq<char>, step: int) -> bool {
    forall|i: int|
        0 <= i < 6 ==> is_hex_char(#[trigger] s[i * step]) && is_hex_char(s[i * step + 1])
}

/// The six bytes read from the hex pairs of a MAC string.
pub open spec fn mac_pairs_val(s: Seq<char>, step: int) -> Seq<u8> {
    Seq::new(6, |i: int| spec_hex_pair(s[i * step], s[i * step + 1]))
}

/// What parsing a MAC string yields: twelve bare hex digits, or six pairs
/// joined consistently by `:` or `-`, else nothing.
pub open spec fn spec_mac_parse(s: Seq<char>) -> Option<Seq<u8>> {
    if s.len() == 12 && mac_pairs_hex(s, 2) {
        Some(mac_pairs_val(s, 2))
    } else if s.len() == 17 && (s[2] == ':' || s[2] == '-') && s[5] == s[2] && s[8] == s[2] && s[11]
        == s[2] && s[14] == s[2] && mac_pairs_hex(s, 3) {
        Some(mac_pairs_val(s, 3))
    } else {
        None
    }
}

/// Parses a MAC address from text.
pub fn mac_parse(s: &str) -> (r: Option<Mac>)
    ensures
        match r {
            Some(m) => spec_mac_parse(s@) == Some(m@),
            None => spec_mac_parse(s@) is None,
        },
{
    let n = s.unicode_len();
    if n == 12 {
        mac_parse_pairs(s, 2)
    } else if n == 17 {
        let sep = s.get_char(2);
        if (sep == ':' || sep == '-') && s.get_char(5) == sep && s.get_char(8) == sep && s.get_char(
            11,
        ) == sep && s.get_char(14) == sep {
            mac_parse_pairs(s, 3)
        } else {
            None
        }
    } else {
        None
    }
}

/// Reads one hex pair starting at `at`.
fn hex_pair_at(s: &str, at: usize) -> (r: Option<u8>)
    requires
        at + 2 <= s@.len() <= usize::MAX,
    ensures
        match r {
            Some(v) => is_hex_char(s@[at as int]) && is_hex_char(s@[at as int + 1]) && v
                == spec_hex_pair(s@[at as int], s@[at as int + 1]),
            None => !(is_hex_char(s@[at as int]) && is_hex_char(s@[at as int + 1])),
        },
{
    let hi = match hex_val(s.get_char(at)) {
        Some(v) => v,
        None => {
            return None;
        },
    };
    let lo = match hex_val(s.get_char(at + 1)) {
        Some(v) => v,
        None => {
            return None;
        },
    };
    proof {
        assert(hi < 16 && lo < 16);
    }
    Some(hi * 16 + lo)
}

/// Reads the six hex pairs of a MAC string with the given pair spacing.
fn mac_parse_pairs(s: &str, step: usize) -> (r: Option<Mac>)
    requires
        step == 2 || step == 3,
        s@.len() == 5 * step + 2,
    ensures
        match r {
            Some(m) => mac_pairs_hex(s@, step as int) && m@ == mac_pairs_val(s@, step as int),
            None => !mac_pairs_hex(s@, step as int),
        },
{
    let b0 = match hex_pair_at(s, 0) {
        Some(v) => v,
        None => {
            proof {
                assert(!(is_hex_char(s@[0 * (step as int)]) && is_hex_char(
                    s@[0 * (step as int) + 1],
                )));
            }
            return None;
        },
    };
    let b1 = match hex_pair_at(s, step) {
        Some(v) => v,
        None => {
            proof {
                assert(!(is_hex_char(s@[1 * (step as int)]) && is_hex_char(
                    s@[1 * (step as int) + 1],
                )));
            }
            return None;
        },
    };
    let b2 = match hex_pair_at(s, 2 * step) {
        Some(v) => v,
        None => {
            proof {
                assert(!(is_hex_char(s@[2 * (step as int)]) && is_hex_char(
                    s@[2 * (step as int) + 1],
                )));
            }
            return None;
        },
    };
    let b3 = match hex_pair_at(s, 3 * step) {
        Some(v) => v,
        None => {
            proof {
                assert(!(is_hex_char(s@[3 * (step as int)]) && is_hex_char(
                    s@[3 * (step as int) + 1],
                )));
            }
            return None;
        },
    };
    let b4 = match hex_pair_at(s, 4 * step) {
        Some(v) => v,
        None => {
            proof {
                assert(!(is_hex_char(s@[4 * (step as int)]) && is_hex_char(
                    s@[4 * (step as int) + 1],
                )));
            }
            return None;
        },
    };
    let b5 = match hex_pair_at(s, 5 * step) {
        Some(v) => v,
        None => {
            proof {
                assert(!(is_hex_char(s@[5 * (step as int)]) && is_hex_char(
                    s@[5 * (step as int) + 1],
                )));
            }
            return None;
        },
    };
    let bytes: [u8; 6] = [b0, b1, b2, b3, b4, b5];
    proof {
        let st = step as int;
        assert forall|j: int| 0 <= j < 6 implies is_hex_char(#[trigger] s@[j * st]) && is_hex_char(
            s@[j * st + 1],
        ) by {
            if j == 0 {
                assert(j * st == 0);
            } else if j == 1 {
                assert(j * st == st);
            } else if j == 2 {
                assert(j * st == 2 * st);
            } else if j == 3 {
                assert(j * st == 3 * st);
            } else if j == 4 {
                assert(j * st == 4 * st);
            } else {
                assert(j * st == 5 * st);
            }
        }
        assert(mac_pairs_hex(s@, st));
        assert forall|j: int| 0 <= j < 6 implies bytes@[j] == spec_hex_pair(
            #[trigger] s@[j * st],
            s@[j * st + 1],
        ) by {
            if j == 0 {
                assert(j * st == 0);
            } else if j == 1 {
                assert(j * st == st);
            } else if j == 2 {
                assert(j * st == 2 * st);
            } else if j == 3 {
                assert(j * st == 3 * st);
            } else if j == 4 {
                assert(j * st == 4 * st);
            } else {
                assert(j * st == 5 * st);
            }
        }
        assert(bytes@ =~= mac_pairs_val(s@, st));
    }
    Some(Mac { bytes })
}

/// The sixteen uppercase hexadecimal digits, by value.
pub open spec fn hex_upper_char(v: u8) -> char
    recommends
        v < 16,
{
    seq![
        '0', '1', '2', '3', '4', '5', '6', '7', '8', '9', 'A', 'B', 'C', 'D', 'E', 'F',
    ][v as int]
}

/// The uppercase hexadecimal digit of a value below sixteen.
pub fn hex_upper(v: u8) -> (r: char)
    requires
        v < 16,
    ensures
        r == hex_upper_char(v),
{
    match v {
        0 => '0',
        1 => '1',
        2 => '2',
        3 => '3',
        4 => '4',
        5 => '5',
        6 => '6',
        7 => '7',
        8 => '8',
        9 => '9',
        10 => 'A',
        11 => 'B',
        12 => 'C',
        13 => 'D',
        14 => 'E',
        _ => 'F',
    }
}

/// The canonical rendering of a MAC: uppercase hex pairs joined by dashes.
pub open spec fn spec_mac_canonical(b: Seq<u8>) -> Seq<char>
    recommends
        b.len() == 6,
{
    seq![
        hex_upper_char(b[0] / 16), hex_upper_char(b[0] % 16), '-', hex_upper_char(b[1] / 16),
        hex_upper_char(b[1] % 16), '-', hex_upper_char(b[2] / 16), hex_upper_char(b[2] % 16), '-',
        hex_upper_char(b[3] / 16), hex_upper_char(b[3] % 16), '-', hex_upper_char(b[4] / 16),
        hex_upper_char(b[4] % 16), '-', hex_upper_char(b[5] / 16), hex_upper_char(b[5] % 16),
    ]
}

/// Renders a MAC address in the canonical uppercase dash form.
pub fn mac_canonical_string(m: &Mac) -> (r: String)
    ensures
        r@ == spec_mac_canonical(m@),
{
    let mut out = String::new();
    let mut i: usize = 0;
    while i < 6
        invariant
            0 <= i <= 6,
            out@.len() == if i == 0 {
                0int
            } else {
                3 * i - 1
            },
            forall|j: int|
                0 <= j < i ==> {
                    &&& out@[3 * j] == hex_upper_char((#[trigger] m.bytes@[j] / 16) as u8)
                    &&& out@[3 * j + 1] == hex_upper_char((m.bytes@[j] % 16) as u8)
                    &&& (j < i - 1 ==> out@[3 * j + 2] == '-')
                },
        decreases 6 - i,
    {
        if i > 0 {
            push_char(&mut out, '-');
        }
        push_char(&mut out, hex_upper(m.bytes[i] / 16));
        push_char(&mut out, hex_upper(m.bytes[i] % 16));
        i = i + 1;
    }
    proof {
        assert(out@ =~= spec_mac_canonical(m@));
    }
    out
}

} // verus!
