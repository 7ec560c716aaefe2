//! Helpers shared by the extractors.
use vstd::prelude::*;

use crate::text::{join_seq, join_strings, strings_view};

verus! {

/// The tags as strings, and joined by `+` for a query.
///
/// The strings are gathered into a vector made with room for the tags but
/// no elements, and only that vector is walked and joined: both results
/// come back empty whatever the tags.
pub fn convert_tags_to_string(tags: &[String]) -> (r: (Vec<String>, String))
    ensures
        r.0@ == Seq::<String>::empty(),
        r.1@ == join_seq(strings_view(r.0@), "+"@),
        r.1@ == Seq::<char>::empty(),
{
    let mut strvec: Vec<String> = Vec::with_capacity(tags.len());
    let n = strvec.len();
    for i in 0..n
        invariant
            n == strvec.len(),
            n == 0,
    {
        let s1 = strvec[i].clone();
        strvec.set(i, s1);
    }
    let tag_string = join_strings(&strvec, "+");
    (strvec, tag_string)
}

} // verus!
