//! Wall-clock reading for order and receipt timestamps, and the
//! timestamped log-line format.

use vstd::prelude::*;
use vstd::string::StringExecFns;

use crate::idgen::{dec_digits, u64_to_dec_string};

verus! {

/// Relies on std::time::SystemTime::now and SystemTime::duration_since:
/// milliseconds of wall-clock time since the Unix epoch, zero if the
/// clock reads earlier than the epoch. Nothing is promised of the value.
#[verifier::external_body]
pub(crate) fn now_millis() -> u64 {
    match std::time::SystemTime::now().duration_since(std::time::UNIX_EPOCH) {
        Ok(d) => d.as_millis() as u64,
        Err(_) => 0,
    }
}

/// One event line of the append-only log: the timestamp in brackets,
/// then the message.
pub open spec fn spec_log_line(ts: nat, msg: Seq<char>) -> Seq<char> {
    "["@ + dec_digits(ts) + "] "@ + msg
}

/// Render one timestamped log line.
pub fn log_line(ts: u64, message: &str) -> (r: String)
    ensures
        r@ == spec_log_line(ts as nat, message@),
{
    let mut s = String::from_str("[");
    let digits = u64_to_dec_string(ts);
    s.append(digits.as_str());
    s.append("] ");
    s.append(message);
    proof {
        assert(s@ =~= spec_log_line(ts as nat, message@));
    }
    s
}

} // verus!
