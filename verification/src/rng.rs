use vstd::prelude::*;

verus! {

/// Relies on `rand::random::<u32>`: one draw from the thread-local generator,
/// uniformly distributed over all of `u32`. The value is random, so nothing is
/// promised of it; callers must cope with every possible draw.
#[verifier::external_body]
pub(crate) fn random_draw() -> u32 {
    rand::random::<u32>()
}

/// Relies on `uuid::Uuid::new_v4` and uuid's `Display` impl: a freshly drawn
/// random version-4 identifier, rendered in the hyphenated form, which is
/// always 36 characters long. The value itself is random, so nothing more is
/// promised of it.
#[verifier::external_body]
pub(crate) fn fresh_id() -> (r: String)
    ensures
        r@.len() == 36,
{
    uuid::Uuid::new_v4().to_string()
}

} // verus!

