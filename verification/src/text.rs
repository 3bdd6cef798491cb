//! Small verified text helpers: exact string comparison, joining argument
//! lists with spaces, and rendering a list of names as a bracketed,
//! quoted, comma-separated list.

use vstd::prelude::*;

verus! {

/// Whether two strings hold the same characters.
pub fn str_eq(a: &str, b: &str) -> (r: bool)
    ensures
        r == (a@ == b@),
{
    let sa = String::from_str(a);
    let sb = String::from_str(b);
    sa == sb
}

/// The elements joined with a single space between neighbours.
pub open spec fn spec_join_space(items: Seq<Seq<char>>) -> Seq<char>
    decreases items.len(),
{
    if items.len() == 0 {
        Seq::empty()
    } else if items.len() == 1 {
        items[0]
    } else {
        spec_join_space(items.drop_last()) + seq![' '] + items.last()
    }
}

/// Joins the strings with single spaces, as the arguments of a scheduler
/// are displayed.
pub fn join_space(items: &Vec<String>) -> (r: String)
    ensures
        r@ == spec_join_space(items.deep_view()),
{
    let ghost all = items.deep_view();
    let mut r = String::new();
    let mut i: usize = 0;
    while i < items.len()
        invariant
            i <= items.len(),
            all == items.deep_view(),
            all.len() == items.len(),
            forall|k: int| 0 <= k < all.len() ==> all[k] == items[k]@,
            r@ == spec_join_space(all.subrange(0, i as int)),
        decreases items.len() - i,
    {
        if i > 0 {
            r.append(" ");
            proof {
                reveal_strlit(" ");
                assert(" "@ =~= seq![' ']);
            }
        }
        r.append(items[i].as_str());
        proof {
            let pre = all.subrange(0, i as int);
            let cur = all.subrange(0, i + 1 as int);
            assert(cur.drop_last() =~= pre);
            assert(cur.last() == all[i as int]);
            if i == 0 {
                assert(r@ =~= spec_join_space(cur));
            }
        }
        i = i + 1;
    }
    proof {
        assert(all.subrange(0, all.len() as int) =~= all);
    }
    r
}

/// A name wrapped in double quotes.
pub open spec fn spec_quoted(s: Seq<char>) -> Seq<char> {
    seq!['"'] + s + seq!['"']
}

/// The quoted elements separated by comma and space.
pub open spec fn spec_quoted_items(items: Seq<Seq<char>>) -> Seq<char>
    decreases items.len(),
{
    if items.len() == 0 {
        Seq::empty()
    } else if items.len() == 1 {
        spec_quoted(items[0])
    } else {
        spec_quoted_items(items.drop_last()) + seq![',', ' '] + spec_quoted(items.last())
    }
}

/// A list of names rendered as `["a", "b"]`.
pub open spec fn spec_quoted_list(items: Seq<Seq<char>>) -> Seq<char> {
    seq!['['] + spec_quoted_items(items) + seq![']']
}

/// Renders the names as a bracketed list of quoted entries, as the set of
/// supported schedulers is displayed.
pub fn format_quoted_list(items: &Vec<String>) -> (r: String)
    ensures
        r@ == spec_quoted_list(items.deep_view()),
{
    proof {
        reveal_strlit("[");
        reveal_strlit("]");
        reveal_strlit("\"");
        reveal_strlit(", ");
    }
    let ghost all = items.deep_view();
    let mut r = String::from_str("[");
    let mut i: usize = 0;
    proof {
        assert(r@ =~= seq!['[']);
    }
    while i < items.len()
        invariant
            i <= items.len(),
            all == items.deep_view(),
            all.len() == items.len(),
            forall|k: int| 0 <= k < all.len() ==> all[k] == items[k]@,
            "\""@ =~= seq!['"'],
            ", "@ =~= seq![',', ' '],
            r@ == seq!['['] + spec_quoted_items(all.subrange(0, i as int)),
        decreases items.len() - i,
    {
        if i > 0 {
            r.append(", ");
        }
        r.append("\"");
        r.append(items[i].as_str());
        r.append("\"");
        proof {
            let pre = all.subrange(0, i as int);
            let cur = all.subrange(0, i + 1 as int);
            assert(cur.drop_last() =~= pre);
            assert(cur.last() == all[i as int]);
            assert(r@ =~= seq!['['] + spec_quoted_items(cur));
        }
        i = i + 1;
    }
    r.append("]");
    proof {
        assert(all.subrange(0, all.len() as int) =~= all);
        assert(r@ =~= spec_quoted_list(all));
    }
    r
}

} // verus!
