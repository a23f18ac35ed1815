//! Moving a `String` through a function that extends it in place.

use vstd::prelude::*;
use vstd::string::StringExecFns;

verus! {

/// Appends `sufixo` to `s` in place (no copy of `s`) and hands the string back.
pub fn adiciona_sufixo(s: String, sufixo: &str) -> (r: String)
    ensures
        r@ == s@ + sufixo@,
{
    let mut s = s;
    s.append(sufixo);
    s
}

} // verus!
