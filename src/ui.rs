use vstd::prelude::*;

verus! {

/// The mark shown for a flag: a check mark when set, a cross otherwise.
pub fn format_bool(value: bool) -> (r: &'static str)
    ensures
        r@ == (if value { "✓"@ } else { "✗"@ }),
{
    if value {
        "✓"
    } else {
        "✗"
    }
}

} // verus!
