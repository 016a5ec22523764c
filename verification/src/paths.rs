//! File-system path composition.
use vstd::prelude::*;

verus! {

/// The path that `Path::join` builds from `base` and `part`, as text.
pub uninterp spec fn joined_path(base: Seq<char>, part: Seq<char>) -> Seq<char>;

/// `std::path::Path::join`: `part` appended to `base` with a separator, or
/// `part` alone when it is absolute. The result is named `joined_path(base, part)`.
#[verifier::external_body]
pub(crate) fn path_join(base: &str, part: &str) -> (r: String)
    ensures
        r@ == joined_path(base@, part@),
{
    std::path::Path::new(base).join(part).to_string_lossy().into_owned()
}

} // verus!
