//! The management decisions: building a fresh reservation snapshot and the
//! responses of the control-plane commands.  The TCP listener, JSON
//! framing and file persistence live outside the library.

use vstd::prelude::*;
use vstd::string::StringExecFns;

use crate::duid::hex_lower_char;
use crate::index::{res_views, spec_load, ReservationDb, ReservationKeyV};
use crate::strutil::push_char;
use crate::types::{Reservation, ReservationV};

verus! {

/// A control-plane command: reload the reservation file, replace the
/// reservations with an inline set, or report status.
pub enum MgmtRequest {
    Reload,
    Replace { reservations: Vec<Reservation> },
    Status,
}

/// A control-plane response line.
pub struct MgmtResponse {
    pub success: bool,
    pub error: Option<String>,
    pub message: Option<String>,
    pub reservation_count: Option<usize>,
}

/// A number in decimal digits.
pub open spec fn spec_u64_dec(n: nat) -> Seq<char>
    decreases n,
{
    if n < 10 {
        seq![hex_lower_char(n as u8)]
    } else {
        spec_u64_dec(n / 10) + seq![hex_lower_char((n % 10) as u8)]
    }
}

/// Renders a number in decimal.
pub fn u64_dec(n: u64) -> (r: String)
    ensures
        r@ == spec_u64_dec(n as nat),
    decreases n,
{
    if n < 10 {
        let mut s = String::new();
        push_char(&mut s, crate::duid::hex_lower((n % 10) as u8));
        proof {
            assert(s@ =~= spec_u64_dec(n as nat));
        }
        s
    } else {
        let mut s = u64_dec(n / 10);
        push_char(&mut s, crate::duid::hex_lower((n % 10) as u8));
        s
    }
}

/// Builds a fresh reservation index from a snapshot, and counts the
/// reservations loaded.
pub fn build_index(reservations: Vec<Reservation>) -> (r: (ReservationDb, usize))
    ensures
        r.0@ == spec_load(
            Map::<ReservationKeyV, ReservationV>::empty(),
            res_views(reservations@),
        ),
        r.1 == reservations@.len(),
{
    let count = reservations.len();
    let mut db = ReservationDb::new();
    db.load_reservations(reservations);
    (db, count)
}

/// The response to a successful reload.
pub fn reload_response(count: usize) -> (r: MgmtResponse)
    ensures
        r.success,
        r.error is None,
        r.message matches Some(m) && m@ == "Reloaded "@ + spec_u64_dec(count as nat)
            + " reservations"@,
        r.reservation_count == Some(count),
{
    let mut m = String::from_str("Reloaded ");
    m.append(u64_dec(count as u64).as_str());
    m.append(" reservations");
    MgmtResponse { success: true, error: None, message: Some(m), reservation_count: Some(count) }
}

/// The response to a successful replace.
pub fn replace_response(count: usize) -> (r: MgmtResponse)
    ensures
        r.success,
        r.error is None,
        r.message matches Some(m) && m@ == "Replaced with "@ + spec_u64_dec(count as nat)
            + " reservations"@,
        r.reservation_count == Some(count),
{
    let mut m = String::from_str("Replaced with ");
    m.append(u64_dec(count as u64).as_str());
    m.append(" reservations");
    MgmtResponse { success: true, error: None, message: Some(m), reservation_count: Some(count) }
}

/// The response to a status query.
pub fn status_response(count: usize) -> (r: MgmtResponse)
    ensures
        r.success,
        r.error is None,
        r.message matches Some(m) && m@ == "Status OK"@,
        r.reservation_count == Some(count),
{
    MgmtResponse {
        success: true,
        error: None,
        message: Some(String::from_str("Status OK")),
        reservation_count: Some(count),
    }
}

/// The response to a failed command.
pub fn failure_response(error: String) -> (r: MgmtResponse)
    ensures
        !r.success,
        r.error matches Some(e) && e@ == error@,
        r.message is None,
        r.reservation_count is None,
{
    MgmtResponse { success: false, error: Some(error), message: None, reservation_count: None }
}

} // verus!
