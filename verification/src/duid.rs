//! DHCP Unique Identifiers: an opaque byte string of at most 130 bytes,
//! parsed from colon- or dash-separated hex and rendered as lowercase
//! colon-separated hex.

use vstd::prelude::*;
use vstd::string::StrSliceExecFns;

use crate::mac::{hex_char_val, hex_val, is_hex_char, spec_hex_pair};
use crate::strutil::{push_char, trim, trim_spec};

verus! {

/// The longest DUID accepted, in bytes (RFC 8415 limits a DUID to 130).
pub const DUID_MAX_LEN: usize = 130;

/// A DHCP Unique Identifier.
#[derive(Debug, PartialEq, Eq, Hash)]
pub struct Duid {
    pub bytes: Vec<u8>,
}

impl Clone for Duid {
    fn clone(&self) -> (r: Self)
        ensures
            r@ == self@,
    {
        let bytes = self.bytes.clone();
        proof {
            assert(bytes@ =~= self.bytes@);
        }
        Duid { bytes }
    }
}

impl View for Duid {
    type V = Seq<u8>;

    open spec fn view(&self) -> Seq<u8> {
        self.bytes@
    }
}

/// The error of a DUID that could not be parsed.
#[derive(Clone, Copy, Debug, PartialEq, Eq)]
pub struct DuidParseError {}

/// Structural equality of two DUIDs.
pub fn duid_eq(a: &Duid, b: &Duid) -> (r: bool)
    ensures
        r == (a@ == b@),
{
    bytes_eq(&a.bytes, &b.bytes)
}

/// Structural equality of two byte vectors.
pub fn bytes_eq(a: &Vec<u8>, b: &Vec<u8>) -> (r: bool)
    ensures
        r == (a@ == b@),
{
    if a.len() != b.len() {
        return false;
    }
    for i in 0..a.len()
        invariant
            a@.len() == b@.len(),
            forall|j: int| 0 <= j < i ==> a@[j] == b@[j],
    {
        if a[i] != b[i] {
            return false;
        }
    }
    proof {
        assert(a@ =~= b@);
    }
    true
}

/// Hex groups of one or two digits joined by `sep`, read as bytes; nothing
/// when a group is empty, holds a non-hex character, or is too long.
pub open spec fn parse_hex_groups(s: Seq<char>, sep: char) -> Option<Seq<u8>>
    decreases s.len(),
{
    if s.len() == 0 {
        None
    } else if !is_hex_char(s[0]) {
        None
    } else if s.len() == 1 {
        Some(seq![hex_char_val(s[0])])
    } else if s[1] == sep {
        match parse_hex_groups(s.skip(2), sep) {
            Some(rest) => Some(seq![hex_char_val(s[0])] + rest),
            None => None,
        }
    } else if !is_hex_char(s[1]) {
        None
    } else if s.len() == 2 {
        Some(seq![spec_hex_pair(s[0], s[1])])
    } else if s[2] == sep {
        match parse_hex_groups(s.skip(3), sep) {
            Some(rest) => Some(seq![spec_hex_pair(s[0], s[1])] + rest),
            None => None,
        }
    } else {
        None
    }
}

/// What parsing a DUID string yields: the input is trimmed, a bare hex
/// pair is a single byte, otherwise the third character picks the
/// separator; the result must fit the DUID bound.
pub open spec fn duid_parse_spec(s: Seq<char>) -> Option<Seq<u8>> {
    let t = trim_spec(s);
    let groups = if t.len() == 2 && is_hex_char(t[0]) && is_hex_char(t[1]) {
        Some(seq![spec_hex_pair(t[0], t[1])])
    } else if t.len() > 2 && t[2] == ':' {
        parse_hex_groups(t, ':')
    } else if t.len() > 2 && t[2] == '-' {
        parse_hex_groups(t, '-')
    } else {
        None
    };
    match groups {
        Some(b) => if b.len() <= 130 {
            Some(b)
        } else {
            None
        },
        None => None,
    }
}

/// The characters of a string as a vector.
fn chars_of(s: &str) -> (v: Vec<char>)
    ensures
        v@ == s@,
{
    let n = s.unicode_len();
    let mut v: Vec<char> = Vec::new();
    for i in 0..n
        invariant
            n == s@.len(),
            v@ == s@.subrange(0, i as int),
    {
        v.push(s.get_char(i));
        proof {
            assert(v@ =~= s@.subrange(0, i + 1));
        }
    }
    proof {
        assert(s@.subrange(0, n as int) =~= s@);
    }
    v
}

/// Reads hex groups from `v` starting at `start`, mirroring
/// [`parse_hex_groups`] on the remaining characters.
fn read_hex_groups(v: &Vec<char>, start: usize, sep: char) -> (r: Option<Vec<u8>>)
    requires
        start <= v@.len(),
    ensures
        match r {
            Some(b) => parse_hex_groups(v@.skip(start as int), sep) == Some(b@),
            None => parse_hex_groups(v@.skip(start as int), sep) is None,
        },
    decreases v@.len() - start,
{
    let ghost s = v@.skip(start as int);
    let rem = v.len() - start;
    if rem == 0 {
        return None;
    }
    let v0 = match hex_val(v[start]) {
        Some(x) => x,
        None => {
            return None;
        },
    };
    if rem == 1 {
        proof {
            assert(seq![v0] =~= seq![hex_char_val(s[0])]);
        }
        return Some(vec![v0]);
    }
    if v[start + 1] == sep {
        proof {
            assert(v@.skip(start as int + 2) =~= s.skip(2));
        }
        return match read_hex_groups(v, start + 2, sep) {
            Some(mut rest) => {
                rest.insert(0, v0);
                proof {
                    assert(rest@ =~= seq![hex_char_val(s[0])] + rest@.skip(1));
                }
                Some(rest)
            },
            None => None,
        };
    }
    let v1 = match hex_val(v[start + 1]) {
        Some(x) => x,
        None => {
            return None;
        },
    };
    let pair = v0 * 16 + v1;
    if rem == 2 {
        proof {
            assert(seq![pair] =~= seq![spec_hex_pair(s[0], s[1])]);
        }
        return Some(vec![pair]);
    }
    if v[start + 2] == sep {
        proof {
            assert(v@.skip(start as int + 3) =~= s.skip(3));
        }
        match read_hex_groups(v, start + 3, sep) {
            Some(mut rest) => {
                rest.insert(0, pair);
                proof {
                    assert(rest@ =~= seq![spec_hex_pair(s[0], s[1])] + rest@.skip(1));
                }
                Some(rest)
            },
            None => None,
        }
    } else {
        None
    }
}

impl Duid {
    /// Wraps raw bytes as a DUID.
    pub fn from_bytes(bytes: Vec<u8>) -> (r: Duid)
        ensures
            r@ == bytes@,
    {
        Duid { bytes }
    }

    /// Parses a DUID from colon- or dash-separated hex text, or from one
    /// bare hex pair.  Succeeds exactly when the text trims to one of
    /// those forms and the bytes fit the DUID bound; a parsed DUID never
    /// exceeds 130 bytes.
    pub fn try_from_str(s: &str) -> (r: Result<Duid, DuidParseError>)
        ensures
            match r {
                Ok(d) => duid_parse_spec(s@) == Some(d@) && d@.len() <= 130,
                Err(e) => duid_parse_spec(s@) is None,
            },
    {
        let t = trim(s);
        let chars = chars_of(t.as_str());
        let n = chars.len();
        proof {
            assert(chars@.skip(0) =~= chars@);
        }
        if n == 2 {
            if let (Some(hi), Some(lo)) = (hex_val(chars[0]), hex_val(chars[1])) {
                proof {
                    assert(seq![(hi * 16 + lo) as u8] =~= seq![
                        spec_hex_pair(chars@[0], chars@[1]),
                    ]);
                }
                return Ok(Duid { bytes: vec![hi * 16 + lo] });
            }
            return Err(DuidParseError {});
        }
        let groups = if n > 2 && chars[2] == ':' {
            read_hex_groups(&chars, 0, ':')
        } else if n > 2 && chars[2] == '-' {
            read_hex_groups(&chars, 0, '-')
        } else {
            None
        };
        match groups {
            Some(b) => {
                if b.len() <= DUID_MAX_LEN {
                    Ok(Duid { bytes: b })
                } else {
                    Err(DuidParseError {})
                }
            },
            None => Err(DuidParseError {}),
        }
    }

    /// Renders the DUID as lowercase hex pairs joined by colons, two
    /// digits per byte.
    pub fn to_colon_string(&self) -> (r: String)
        ensures
            r@ == duid_colon_chars(self@),
    {
        let mut out = String::new();
        let n = self.bytes.len();
        for i in 0..n
            invariant
                n == self.bytes@.len(),
                out@ == duid_colon_chars(self.bytes@.take(i as int)),
        {
            if i > 0 {
                push_char(&mut out, ':');
            }
            let b = self.bytes[i];
            push_char(&mut out, hex_lower(b / 16));
            push_char(&mut out, hex_lower(b % 16));
            proof {
                lemma_colon_push(self.bytes@.take(i as int), self.bytes@[i as int]);
                assert(self.bytes@.take(i as int).push(self.bytes@[i as int]) =~= self.bytes@.take(
                    i + 1,
                ));
            }
        }
        proof {
            assert(self.bytes@.take(n as int) =~= self.bytes@);
        }
        out
    }
}

/// The sixteen lowercase hexadecimal digits, by value.
pub open spec fn hex_lower_char(v: u8) -> char
    recommends
        v < 16,
{
    seq![
        '0', '1', '2', '3', '4', '5', '6', '7', '8', '9', 'a', 'b', 'c', 'd', 'e', 'f',
    ][v as int]
}

/// The lowercase hexadecimal digit of a value below sixteen.
pub fn hex_lower(v: u8) -> (r: char)
    requires
        v < 16,
    ensures
        r == hex_lower_char(v),
{
    match v {
        0 => '0',
        1 => '1',
        2 => '2',
        3 => '3',
        4 => '4',
        5 => '5',
        6 => '6',
        7 => '7',
        8 => '8',
        9 => '9',
        10 => 'a',
        11 => 'b',
        12 => 'c',
        13 => 'd',
        14 => 'e',
        _ => 'f',
    }
}

/// One byte as exactly two lowercase hex digits.
pub open spec fn byte_hex_lower(b: u8) -> Seq<char> {
    seq![hex_lower_char((b / 16) as u8), hex_lower_char((b % 16) as u8)]
}

/// A byte sequence as lowercase hex groups joined by colons.
pub open spec fn duid_colon_chars(b: Seq<u8>) -> Seq<char>
    decreases b.len(),
{
    if b.len() == 0 {
        Seq::empty()
    } else if b.len() == 1 {
        byte_hex_lower(b[0])
    } else {
        byte_hex_lower(b[0]) + seq![':'] + duid_colon_chars(b.drop_first())
    }
}

/// Rendering one more byte appends a colon and that byte's hex group.
pub proof fn lemma_colon_push(b: Seq<u8>, x: u8)
    ensures
        duid_colon_chars(b.push(x)) == if b.len() == 0 {
            byte_hex_lower(x)
        } else {
            duid_colon_chars(b) + seq![':'] + byte_hex_lower(x)
        },
    decreases b.len(),
{
    let bp = b.push(x);
    if b.len() == 0 {
        assert(bp.len() == 1);
        assert(bp[0] == x);
        assert(duid_colon_chars(bp) == byte_hex_lower(x));
    } else {
        assert(bp.len() >= 2);
        assert(bp[0] == b[0]);
        assert(bp.drop_first() =~= b.drop_first().push(x));
        lemma_colon_push(b.drop_first(), x);
        if b.len() == 1 {
            assert(b.drop_first().len() == 0);
            assert(duid_colon_chars(bp) == byte_hex_lower(b[0]) + seq![':'] + byte_hex_lower(x));
            assert(duid_colon_chars(b) == byte_hex_lower(b[0]));
        } else {
            assert(duid_colon_chars(bp) == byte_hex_lower(b[0]) + seq![':'] + (duid_colon_chars(
                b.drop_first(),
            ) + seq![':'] + byte_hex_lower(x)));
            assert(duid_colon_chars(b) + seq![':'] + byte_hex_lower(x) =~= byte_hex_lower(b[0])
                + seq![':'] + (duid_colon_chars(b.drop_first()) + seq![':'] + byte_hex_lower(x)));
        }
    }
}

} // verus!
