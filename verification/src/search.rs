//! The address the search bar leads to.
use crate::text::same_text;
use vstd::prelude::*;

verus! {

/// `s` starts with `prefix`.
pub open spec fn starts_with(s: Seq<char>, prefix: Seq<char>) -> bool {
    prefix.len() <= s.len() && s.take(prefix.len() as int) == prefix
}

/// `s` without every leading `/search`.
pub open spec fn without_search(s: Seq<char>) -> Seq<char>
    decreases s.len(),
{
    if starts_with(s, "/search"@) && "/search"@.len() > 0 {
        without_search(s.skip("/search"@.len() as int))
    } else {
        s
    }
}

/// The address the search bar leads to from the page at `path`: the same
/// page, out of any search, when the filter is empty; otherwise the search
/// among the same things, with the filter as URL parameters.
pub open spec fn search_location_of(path: Seq<char>, filter_is_empty: bool, filter: Seq<char>) -> Seq<char> {
    if filter_is_empty {
        without_search(path)
    } else {
        "/search"@ + without_search(path) + "?"@ + filter
    }
}

/// The address the search bar leads to from the page at `path`, with the
/// filter `filter` (as URL parameters) typed in it.
pub fn search_location(path: &str, filter_is_empty: bool, filter: &str) -> (location: String)
    ensures
        location@ == search_location_of(path@, filter_is_empty, filter@),
{
    proof {
        reveal_strlit("/search");
    }
    let n = path.unicode_len();
    let mut start: usize = 0;
    assert(path@.skip(0) =~= path@);
    while 7 <= n - start && same_text(path.substring_char(start, start + 7), "/search")
        invariant
            n == path@.len(),
            start <= n,
            without_search(path@.skip(start as int)) == without_search(path@),
        decreases n - start,
    {
        proof {
            let s = path@.skip(start as int);
            assert(s.take(7) =~= path@.subrange(start as int, start + 7));
            assert(s.skip(7) =~= path@.skip(start + 7));
        }
        start += 7;
    }
    proof {
        let s = path@.skip(start as int);
        if 7 <= n - start {
            assert(s.take(7) =~= path@.subrange(start as int, start + 7));
        }
    }
    let rest = path.substring_char(start, n);
    assert(rest@ =~= path@.skip(start as int));
    if filter_is_empty {
        rest.to_string()
    } else {
        let mut location = "/search".to_string();
        location.append(rest);
        location.append("?");
        location.append(filter);
        location
    }
}

} // verus!

verus! {

/// Once stripped, a path no longer starts with `/search`: the search bar
/// never nests a search in a search.
pub proof fn lemma_no_nested_search(s: Seq<char>)
    ensures
        !starts_with(without_search(s), "/search"@),
    decreases s.len(),
{
    reveal_strlit("/search");
    if starts_with(s, "/search"@) {
        lemma_no_nested_search(s.skip(7));
    }
}

} // verus!
