use vstd::prelude::*;

verus! {

/// What `str::to_lowercase` gives for a text: its Unicode lowercase form.
pub uninterp spec fn lowercase(s: Seq<char>) -> Seq<char>;

/// Calls `str::to_lowercase`, which maps every character to its lowercase
/// form as the Unicode `Lowercase` property defines it. The contract only
/// names that result (`lowercase`); it depends on the text alone.
#[verifier::external_body]
pub(crate) fn to_lowercase(s: &str) -> (res: String)
    ensures
        res@ == lowercase(s@),
{
    s.to_lowercase()
}

} // verus!
