//! Resolving the platform download directory: the decision over what the
//! host reported. The host itself asks the platform and hands the answer in
//! as a plain value.

use vstd::prelude::*;

verus! {

/// The string for a probed download directory: the path itself, or the empty
/// string when the platform reports none.
pub fn download_dir_or_empty(probe: Option<String>) -> (r: String)
    ensures
        probe matches Some(p) ==> r == p,
        probe is None ==> r@ == Seq::<char>::empty(),
{
    match probe {
        Some(p) => p,
        None => String::new(),
    }
}

} // verus!
