//! Choosing the input device by name.
use vstd::prelude::*;
use crate::text::str_equal;

verus! {

/// Whether a listed device has the wanted name (a device whose name could
/// not be read has none).
pub open spec fn has_name(listed: Option<String>, wanted: Seq<char>) -> bool {
    listed matches Some(n) && n@ == wanted
}

/// The first device, in the system's order, whose name is `wanted`; `None`
/// when there is none.
pub fn find_device(names: &[Option<String>], wanted: &str) -> (r: Option<usize>)
    ensures
        r matches Some(i) ==> i < names@.len() && has_name(names@[i as int], wanted@),
        r matches Some(i) ==> forall|j: int| 0 <= j < i ==> !has_name(#[trigger] names@[j], wanted@),
        r is None ==> forall|j: int| 0 <= j < names@.len() ==> !has_name(#[trigger] names@[j], wanted@),
{
    let n = names.len();
    let mut i: usize = 0;
    while i < n
        invariant
            n == names@.len(),
            i <= n,
            forall|j: int| 0 <= j < i ==> !has_name(#[trigger] names@[j], wanted@),
        decreases n - i,
    {
        match &names[i] {
            Some(name) => {
                if str_equal(name.as_str(), wanted) {
                    return Some(i);
                }
            },
            None => {},
        }
        i = i + 1;
    }
    None
}

} // verus!
