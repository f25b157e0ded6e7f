//! Small verified helpers on strings, stated over their character sequences.

use vstd::prelude::*;
use vstd::string::*;

verus! {

/// Whether `text` begins with `fragment`, character for character.
pub fn starts_with(text: &str, fragment: &str) -> (found: bool)
    ensures
        found == fragment@.is_prefix_of(text@),
{
    let wanted: usize = fragment.unicode_len();
    let have: usize = text.unicode_len();
    if wanted > have {
        return false;
    }
    let mut i: usize = 0;
    while i < wanted
        invariant
            i <= wanted,
            wanted == fragment@.len(),
            have == text@.len(),
            wanted <= have,
            forall|k: int| 0 <= k < i ==> fragment@[k] == text@[k],
        decreases wanted - i,
    {
        if fragment.get_char(i) != text.get_char(i) {
            assert(text@.subrange(0, wanted as int)[i as int] == text@[i as int]);
            return false;
        }
        i += 1;
    }
    assert(fragment@ =~= text@.subrange(0, wanted as int));
    true
}

/// Whether two strings hold the same characters.
pub fn same_text(left: &str, right: &str) -> (same: bool)
    ensures
        same == (left@ == right@),
{
    let n: usize = left.unicode_len();
    if n != right.unicode_len() {
        return false;
    }
    let found = starts_with(left, right);
    proof {
        if found {
            assert(left@ =~= left@.subrange(0, n as int));
        } else if left@ == right@ {
            assert(right@ =~= left@.subrange(0, n as int));
        }
    }
    found
}

/// The views of a list of strings, in order.
pub open spec fn views(items: Seq<String>) -> Seq<Seq<char>> {
    items.map_values(|s: String| s@)
}

/// Whether `needle` occurs among `items`.
pub fn contains_text(items: &Vec<String>, needle: &str) -> (found: bool)
    ensures
        found == views(items@).contains(needle@),
{
    let mut i: usize = 0;
    while i < items.len()
        invariant
            i <= items.len(),
            forall|k: int| 0 <= k < i ==> items@[k]@ != needle@,
        decreases items.len() - i,
    {
        if same_text(items[i].as_str(), needle) {
            assert(views(items@)[i as int] == needle@);
            return true;
        }
        i += 1;
    }
    assert(!views(items@).contains(needle@)) by {
        if views(items@).contains(needle@) {
            let k = choose|k: int| 0 <= k < views(items@).len() && views(items@)[k] == needle@;
            assert(items@[k]@ == needle@);
        }
    }
    false
}

} // verus!
