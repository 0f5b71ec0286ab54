//! Pane paths: names separated by slashes.

use vstd::prelude::*;
use vstd::string::StrSliceExecFns;

verus! {

/// The number of characters before the first slash of `s`, or all of them.
pub open spec fn head_len(s: Seq<char>) -> nat
    decreases s.len(),
{
    if s.len() == 0 || s[0] == '/' {
        0
    } else {
        1 + head_len(s.skip(1))
    }
}

/// The segments of a path: the maximal stretches without a slash, in order.
/// Slashes at either end, and any after another, separate nothing.
pub open spec fn segments(s: Seq<char>) -> Seq<Seq<char>>
    decreases s.len(),
    via segments_decreases
{
    if s.len() == 0 {
        Seq::empty()
    } else if s[0] == '/' {
        segments(s.skip(1))
    } else {
        seq![s.take(head_len(s) as int)] + segments(s.skip(head_len(s) as int))
    }
}

/// The pieces of a path between its slashes, in order, empty ones included: a
/// path with `n` slashes has `n + 1` pieces.
pub open spec fn pieces(s: Seq<char>) -> Seq<Seq<char>>
    decreases s.len(),
    via pieces_decreases
{
    if head_len(s) >= s.len() {
        seq![s]
    } else {
        seq![s.take(head_len(s) as int)] + pieces(s.skip(head_len(s) as int + 1))
    }
}

#[via_fn]
proof fn pieces_decreases(s: Seq<char>) {
    lemma_head_is_clean(s);
}

#[via_fn]
proof fn segments_decreases(s: Seq<char>) {
    lemma_head_is_clean(s);
}

/// A stretch without a slash, followed by a slash or by nothing, is the head
/// of what is left.
proof fn lemma_head_len(s: Seq<char>, from: int, to: int)
    requires
        0 <= from <= to <= s.len(),
        forall|k: int| from <= k < to ==> s[k] != '/',
        to == s.len() || s[to] == '/',
    ensures
        head_len(s.skip(from)) == to - from,
    decreases to - from,
{
    if from < to {
        assert(s.skip(from).skip(1) =~= s.skip(from + 1));
        lemma_head_len(s, from + 1, to);
    }
}

/// No segment is empty or holds a slash.
pub proof fn lemma_segments_are_names(s: Seq<char>)
    ensures
        forall|i: int|
            0 <= i < segments(s).len() ==> (#[trigger] segments(s)[i]).len() > 0 && !segments(
                s,
            )[i].contains('/'),
    decreases s.len(),
{
    if s.len() == 0 {
        assert(segments(s).len() == 0);
    } else if s[0] == '/' {
        lemma_segments_are_names(s.skip(1));
        assert(segments(s) == segments(s.skip(1)));
    } else {
        let n = head_len(s) as int;
        lemma_head_is_clean(s);
        lemma_segments_are_names(s.skip(n));
        let first = s.take(n);
        let others = segments(s.skip(n));
        assert(segments(s) == seq![first] + others);
        assert(!first.contains('/')) by {
            if first.contains('/') {
                let k = choose|k: int| 0 <= k < first.len() && first[k] == '/';
                assert(s[k] == '/');
            }
        }
        assert forall|i: int| 0 <= i < segments(s).len() implies (#[trigger] segments(s)[i]).len()
            > 0 && !segments(s)[i].contains('/') by {
            if i > 0 {
                assert(segments(s)[i] == others[i - 1]);
            } else {
                assert(segments(s)[0] == first);
            }
        }
    }
}

/// The head of `s` lies within `s` and holds no slash.
proof fn lemma_head_is_clean(s: Seq<char>)
    ensures
        head_len(s) <= s.len(),
        forall|k: int| 0 <= k < head_len(s) ==> s[k] != '/',
    decreases s.len(),
{
    if s.len() == 0 || s[0] == '/' {
    } else {
        lemma_head_is_clean(s.skip(1));
        assert forall|k: int| 0 <= k < head_len(s) implies s[k] != '/' by {
            if k > 0 {
                assert(s.skip(1)[k - 1] == s[k]);
            }
        }
    }
}

/// Splits a path at every slash.
pub fn split_all(path: &str) -> (r: Vec<String>)
    ensures
        r.deep_view() == pieces(path@),
{
    let n = path.unicode_len();
    let mut out: Vec<String> = Vec::new();
    let mut start: usize = 0;
    proof {
        assert(path@.skip(0) =~= path@);
        assert(out.deep_view() + pieces(path@) =~= pieces(path@));
    }
    loop
        invariant_except_break
            n == path@.len(),
            start <= n,
            pieces(path@) == out.deep_view() + pieces(path@.skip(start as int)),
        ensures
            out.deep_view() == pieces(path@),
        decreases n - start,
    {
        let mut end: usize = start;
        while end < n && path.get_char(end) != '/'
            invariant
                n == path@.len(),
                start <= end <= n,
                forall|k: int| start <= k < end ==> path@[k] != '/',
            decreases n - end,
        {
            end += 1;
        }
        let name = path.substring_char(start, end).to_owned();
        let ghost before = out.deep_view();
        let ghost rest = path@.skip(start as int);
        proof {
            lemma_head_len(path@, start as int, end as int);
            assert(rest.take(end - start) =~= path@.subrange(start as int, end as int));
        }
        out.push(name);
        assert(out.deep_view() =~= before.push(name@));
        if end >= n {
            proof {
                assert(rest.take(end - start) =~= rest);
                assert(before.push(name@) =~= before + seq![rest]);
            }
            break ;
        }
        proof {
            assert(rest.skip(end - start + 1) =~= path@.skip(end + 1));
            assert(before.push(name@) + pieces(path@.skip(end + 1)) =~= before + pieces(rest));
        }
        start = end + 1;
    }
    out
}

/// Splits a path into its segments.
pub fn split_path(path: &str) -> (r: Vec<String>)
    ensures
        r.deep_view() == segments(path@),
{
    let n = path.unicode_len();
    let mut out: Vec<String> = Vec::new();
    let mut i: usize = 0;
    proof {
        assert(path@.skip(0) =~= path@);
        assert(out.deep_view() + segments(path@) =~= segments(path@));
    }
    while i < n
        invariant
            n == path@.len(),
            i <= n,
            segments(path@) == out.deep_view() + segments(path@.skip(i as int)),
        decreases n - i,
    {
        if path.get_char(i) == '/' {
            assert(path@.skip(i as int).skip(1) =~= path@.skip(i + 1));
            i += 1;
        } else {
            let start: usize = i;
            while i < n && path.get_char(i) != '/'
                invariant
                    n == path@.len(),
                    start <= i <= n,
                    forall|k: int| start <= k < i ==> path@[k] != '/',
                decreases n - i,
            {
                i += 1;
            }
            let name = path.substring_char(start, i).to_owned();
            proof {
                let rest = path@.skip(start as int);
                lemma_head_len(path@, start as int, i as int);
                assert(rest.take(i - start) =~= path@.subrange(start as int, i as int));
                assert(rest.skip(i - start) =~= path@.skip(i as int));
                assert(out.deep_view().push(name@) + segments(path@.skip(i as int))
                    =~= out.deep_view() + segments(rest));
            }
            let ghost before = out.deep_view();
            out.push(name);
            assert(out.deep_view() =~= before.push(name@));
        }
    }
    assert(out.deep_view() + Seq::<Seq<char>>::empty() =~= out.deep_view());
    out
}

} // verus!
