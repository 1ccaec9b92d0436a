//! Reading the system clock. Generators measure every timestamp as the time
//! elapsed since the platform's standard origin; what the clock reports is
//! outside this crate's control, so callers state what holds of every
//! reading.

use vstd::prelude::*;

use crate::dur::Dur;

verus! {

/// Relies on `SystemTime::elapsed` of `UNIX_EPOCH` for the time since the
/// platform's standard origin, and on `Duration::subsec_nanos`, which the
/// standard library documents to be below one billion. Returns `None` when
/// the clock reads earlier than the origin.
#[verifier::external_body]
pub(crate) fn unix_now() -> (r: Option<Dur>)
    ensures
        r matches Some(d) ==> d.wf(),
{
    match std::time::SystemTime::UNIX_EPOCH.elapsed() {
        Ok(d) => Some(Dur { secs: d.as_secs(), nanos: d.subsec_nanos() }),
        Err(_) => None,
    }
}

} // verus!
