//! Formatting of the wire timestamps, layout `YYYY-MM-DDTHH:MM:SS...`,
//! into the short `HH:MM` the board shows. A string too short to carry
//! the hour and minute fields is reported as malformed instead of being
//! sliced blindly.
use vstd::prelude::*;
use vstd::string::StrSliceExecFns;
use vstd::string::StringExecFns;

verus! {

/// The timestamp was shorter than the sixteen characters that the hour
/// and minute fields need; the record should be flagged or skipped.
#[derive(Debug, Clone, Copy, PartialEq, Eq)]
pub struct MalformedTimestamp;

/// Whether a timestamp string is long enough to carry hour and minute.
pub open spec fn timestamp_long_enough(s: Seq<char>) -> bool {
    s.len() >= 16
}

/// The characters a well-formed timestamp is displayed as: `HH:MM`,
/// taken from the fixed hour and minute positions of the layout.
pub open spec fn pretty_time(s: Seq<char>) -> Seq<char> {
    s.subrange(11, 13) + ":"@ + s.subrange(14, 16)
}

/// Render a wire timestamp as `HH:MM`. Succeeds exactly on strings long
/// enough for the layout's hour and minute positions; anything shorter
/// is a contract violation by the remote service and comes back as a
/// [`MalformedTimestamp`] error, never an out-of-bounds access.
pub fn pretty_print_datetime(datetime: &str) -> (r: Result<String, MalformedTimestamp>)
    ensures
        timestamp_long_enough(datetime@) ==> (r matches Ok(p) && p@ == pretty_time(datetime@)),
        !timestamp_long_enough(datetime@) ==> r is Err,
{
    let n = datetime.unicode_len();
    if n < 16 {
        return Err(MalformedTimestamp);
    }
    let hh = datetime.substring_char(11, 13);
    let mm = datetime.substring_char(14, 16);
    let shown = String::from_str(hh).concat(":").concat(mm);
    proof {
        assert(shown@ =~= pretty_time(datetime@));
    }
    Ok(shown)
}

} // verus!
