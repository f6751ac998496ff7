//! Decisions the socket workers need: the receive-error backoff schedule,
//! the hex dump used when tracing datagrams, and the clock.

use vstd::prelude::*;

use crate::duid::{byte_hex_lower, hex_lower, hex_lower_char};
use crate::strutil::push_char;
use vstd::string::StringExecFns;

verus! {

/// The first backoff step after an unexpected receive error, in
/// milliseconds.
pub const BACKOFF_BASE_MS: u64 = 10;

/// The backoff ceiling, in milliseconds.
pub const BACKOFF_MAX_MS: u64 = 1000;

/// The backoff after `error_count` consecutive unexpected receive errors:
/// ten milliseconds doubled per error, capped at one second.
pub open spec fn spec_backoff_ms(error_count: u32) -> u64 {
    if error_count < 7 {
        (BACKOFF_BASE_MS * vstd::arithmetic::power2::pow2(error_count as nat)) as u64
    } else {
        BACKOFF_MAX_MS
    }
}

/// Computes the backoff after a run of unexpected receive errors; it grows
/// exponentially from ten milliseconds and never exceeds one second, so a
/// persistent kernel error cannot spin the worker loop.
pub fn backoff_ms(error_count: u32) -> (r: u64)
    ensures
        r == spec_backoff_ms(error_count),
        r <= BACKOFF_MAX_MS,
{
    let shift: u32 = if error_count < 7 {
        error_count
    } else {
        7
    };
    let b: u64 = BACKOFF_BASE_MS << (shift as u64);
    proof {
        vstd::arithmetic::power2::lemma2_to64();
        assert(BACKOFF_BASE_MS << (0u64) == BACKOFF_BASE_MS * 1) by (bit_vector);
        assert(BACKOFF_BASE_MS << (1u64) == BACKOFF_BASE_MS * 2) by (bit_vector);
        assert(BACKOFF_BASE_MS << (2u64) == BACKOFF_BASE_MS * 4) by (bit_vector);
        assert(BACKOFF_BASE_MS << (3u64) == BACKOFF_BASE_MS * 8) by (bit_vector);
        assert(BACKOFF_BASE_MS << (4u64) == BACKOFF_BASE_MS * 16) by (bit_vector);
        assert(BACKOFF_BASE_MS << (5u64) == BACKOFF_BASE_MS * 32) by (bit_vector);
        assert(BACKOFF_BASE_MS << (6u64) == BACKOFF_BASE_MS * 64) by (bit_vector);
        assert(BACKOFF_BASE_MS << (7u64) == BACKOFF_BASE_MS * 128) by (bit_vector);
    }
    if b > BACKOFF_MAX_MS {
        BACKOFF_MAX_MS
    } else {
        b
    }
}

/// The hex dump of a datagram in the layout `text2pcap` reads: an offset
/// column, then each byte as a space and two lowercase hex digits.
pub open spec fn spec_hex_dump(bytes: Seq<u8>) -> Seq<char>
    decreases bytes.len(),
{
    if bytes.len() == 0 {
        "0000 "@
    } else {
        spec_hex_dump(bytes.drop_last()) + seq![' '] + byte_hex_pair_lower(bytes.last())
    }
}

/// One byte as exactly two lowercase hex digits.
pub open spec fn byte_hex_pair_lower(b: u8) -> Seq<char> {
    seq![hex_lower_char((b / 16) as u8), hex_lower_char((b % 16) as u8)]
}

/// Renders a datagram as offset-prefixed hex for `text2pcap`.
pub fn hex_for_text2pcap(bytes: &[u8]) -> (r: String)
    ensures
        r@ == spec_hex_dump(bytes@),
{
    let mut s = String::from_str("0000 ");
    let n = bytes.len();
    for i in 0..n
        invariant
            n == bytes@.len(),
            s@ == spec_hex_dump(bytes@.take(i as int)),
    {
        push_char(&mut s, ' ');
        push_char(&mut s, hex_lower(bytes[i] / 16));
        push_char(&mut s, hex_lower(bytes[i] % 16));
        proof {
            assert(bytes@.take(i + 1).drop_last() =~= bytes@.take(i as int));
            assert(bytes@.take(i + 1).last() == bytes@[i as int]);
            assert(s@ =~= spec_hex_dump(bytes@.take(i + 1)));
        }
    }
    proof {
        assert(bytes@.take(n as int) =~= bytes@);
    }
    s
}

/// Relies on std's SystemTime::now and its distance from the epoch: the
/// current wall-clock time in milliseconds.  Nothing can be promised of a
/// clock reading, so the result is unconstrained.
#[verifier::external_body]
pub fn now() -> u64 {
    match std::time::SystemTime::now().duration_since(std::time::UNIX_EPOCH) {
        Ok(d) => d.as_millis() as u64,
        Err(_) => 0,
    }
}

} // verus!
