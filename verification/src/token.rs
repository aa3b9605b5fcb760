use vstd::prelude::*;

verus! {

/// Relies on `uuid::Uuid::new_v4` and its display form: a fresh random
/// UUID rendered as the 36-character hyphenated lower-case text. The
/// value is random, so only its length is promised.
#[verifier::external_body]
pub fn new_syn_token() -> (r: String)
    ensures
        r@.len() == 36,
{
    uuid::Uuid::new_v4().to_string()
}

} // verus!
