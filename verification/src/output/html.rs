//! What the HTML report derives from a report before rendering it.
use vstd::prelude::*;

verus! {

/// The risk band of a score: 70 and up critical, 50 to 69 high, 30 to 49
/// medium, 1 to 29 low, 0 info (scores above 100 also count as info).
pub open spec fn risk_level_spec(score: u8) -> Seq<char> {
    if 70 <= score <= 100 {
        "critical"@
    } else if 50 <= score <= 69 {
        "high"@
    } else if 30 <= score <= 49 {
        "medium"@
    } else if 1 <= score <= 29 {
        "low"@
    } else {
        "info"@
    }
}

/// The risk band that the HTML report shows for a risk score.
pub fn risk_level(score: u8) -> (r: &'static str)
    ensures
        r@ == risk_level_spec(score),
{
    if 70 <= score && score <= 100 {
        "critical"
    } else if 50 <= score && score <= 69 {
        "high"
    } else if 30 <= score && score <= 49 {
        "medium"
    } else if 1 <= score && score <= 29 {
        "low"
    } else {
        "info"
    }
}

} // verus!
