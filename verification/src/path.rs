//! Splitting a query path into its `/`-separated segments.
//!
//! Resolution is exact, case-sensitive matching of whole segments, so the
//! split is the only lexical work the router ever does: a leading empty
//! segment produced by a leading slash is dropped, and nothing else is
//! normalised.

use vstd::prelude::*;
use vstd::string::StrSliceExecFns;
use vstd::string::StringExecFns;

verus! {

/// Split `s` on `'/'`, with `cur` the partial segment read so far.
pub open spec fn split_rec(s: Seq<char>, cur: Seq<char>) -> Seq<Seq<char>>
    decreases s.len(),
{
    if s.len() == 0 {
        seq![cur]
    } else if s[0] == '/' {
        seq![cur] + split_rec(s.skip(1), Seq::empty())
    } else {
        split_rec(s.skip(1), cur.push(s[0]))
    }
}

/// The segments of a path: split on `'/'`, dropping the leading empty
/// segment that a leading slash would produce.
pub open spec fn path_segments(p: Seq<char>) -> Seq<Seq<char>> {
    if p.len() > 0 && p[0] == '/' {
        split_rec(p.skip(1), Seq::empty())
    } else {
        split_rec(p, Seq::empty())
    }
}

/// The views of a vector of owned segments.
pub open spec fn seg_views(v: Seq<String>) -> Seq<Seq<char>> {
    v.map_values(|s: String| s@)
}

/// Split a path into its segments, as [`path_segments`] describes.
pub fn split_path(path: &str) -> (segs: Vec<String>)
    ensures
        seg_views(segs@) == path_segments(path@),
{
    let n = path.unicode_len();
    let mut segs: Vec<String> = Vec::new();
    let mut start: usize = 0;
    let mut i: usize = 0;
    if n > 0 && path.get_char(0) == '/' {
        start = 1;
        i = 1;
    }
    proof {
        assert(path@.skip(0) =~= path@);
        assert(path@.subrange(start as int, i as int) =~= Seq::<char>::empty());
        assert(seg_views(segs@) =~= Seq::<Seq<char>>::empty());
        assert(Seq::<Seq<char>>::empty() + split_rec(path@.skip(i as int), Seq::empty())
            =~= split_rec(path@.skip(i as int), Seq::empty()));
    }
    while i < n
        invariant
            start <= i <= n,
            n == path@.len(),
            path_segments(path@) == seg_views(segs@) + split_rec(
                path@.skip(i as int),
                path@.subrange(start as int, i as int),
            ),
        decreases n - i,
    {
        let ghost rem = path@.skip(i as int);
        let ghost cur = path@.subrange(start as int, i as int);
        proof {
            assert(rem[0] == path@[i as int]);
            assert(rem.skip(1) =~= path@.skip(i as int + 1));
        }
        let c = path.get_char(i);
        if c == '/' {
            let seg = String::from_str(path.substring_char(start, i));
            proof {
                assert(split_rec(rem, cur) == seq![cur] + split_rec(rem.skip(1), Seq::empty()));
                assert(seg_views(segs@.push(seg)) =~= seg_views(segs@) + seq![seg@]);
                assert((seg_views(segs@) + seq![cur]) + split_rec(
                    path@.skip(i as int + 1),
                    Seq::empty(),
                ) =~= seg_views(segs@) + (seq![cur] + split_rec(
                    path@.skip(i as int + 1),
                    Seq::empty(),
                )));
                assert(path@.subrange(i as int + 1, i as int + 1) =~= Seq::<char>::empty());
            }
            segs.push(seg);
            start = i + 1;
        } else {
            proof {
                assert(path@.subrange(start as int, i as int + 1) =~= cur.push(path@[i as int]));
            }
        }
        i = i + 1;
    }
    let last = String::from_str(path.substring_char(start, n));
    proof {
        assert(path@.skip(n as int) =~= Seq::<char>::empty());
        assert(split_rec(path@.skip(n as int), path@.subrange(start as int, n as int)) == seq![
            last@,
        ]);
        assert(seg_views(segs@.push(last)) =~= seg_views(segs@) + seq![last@]);
    }
    segs.push(last);
    segs
}

} // verus!
