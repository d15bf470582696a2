//! The one behaviour every schema object shares: it knows the wire tag it
//! would carry under the discriminator key `@type`.

use vstd::prelude::*;

verus! {

/// A schema object with a wire tag.
///
/// For a union value the tag is the active variant's; the sentinel default
/// variant, which has no wire tag, answers with the internal placeholder
/// `-1`, which is never a valid wire tag and is never emitted.
pub trait RObject {
    /// The characters of the tag [`Self::td_name`] answers.
    spec fn wire_tag(&self) -> Seq<char>;

    /// The wire tag of this value.
    fn td_name(&self) -> (r: &'static str)
        ensures
            r@ == self.wire_tag(),
    ;
}

} // verus!
