//! Web search through the completion provider's online mode: the model
//! name gains an `:online` suffix unless it already carries one.  The HTTP
//! call is the caller's business.

use vstd::prelude::*;

verus! {

use vstd::string::StringExecFns;

use crate::strutil::str_to_chars;
use crate::textnorm::contains_seq;
use crate::textnorm::contains_chars;

/// Cap on the response length for a search, in tokens.
pub const WEB_SEARCH_MAX_TOKENS: u32 = 4096;

/// Appends `:online` to a model name, unless it already holds that marker.
pub fn online_model(model: &str) -> (r: String)
    ensures
        contains_seq(model@, ":online"@) ==> r@ == model@,
        !contains_seq(model@, ":online"@) ==> r@ == model@ + ":online"@,
{
    let chars = str_to_chars(model);
    let marker = str_to_chars(":online");
    if contains_chars(&chars, &marker) {
        model.to_owned()
    } else {
        let mut s = model.to_owned();
        s.append(":online");
        s
    }
}

} // verus!
