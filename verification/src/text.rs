//! Small string-building helpers for the library's human-readable messages.

use vstd::prelude::*;
use vstd::string::StringExecFns;

verus! {

/// The concatenation of two string slices.
pub fn concat_strs(a: &str, b: &str) -> (r: String)
    ensures
        r@ == a@ + b@,
{
    let mut s = a.to_owned();
    s.append(b);
    s
}

} // verus!
