//! Comparison of POSIX paths by their components, so that repeated and
//! trailing separators and `.` components do not tell equal paths apart.
use vstd::prelude::*;

use crate::text::{split_on, str_eq};

verus! {

/// The pieces of a path that its comparison keeps: empty pieces (left by
/// repeated or trailing separators) are dropped, and so is a `.` piece
/// anywhere but at the start.
pub open spec fn kept(pieces: Seq<Seq<char>>) -> Seq<Seq<char>>
    decreases pieces.len(),
{
    if pieces.len() == 0 {
        Seq::empty()
    } else if pieces.last().len() == 0 || (pieces.last() == "."@ && pieces.len() > 1) {
        kept(pieces.drop_last())
    } else {
        kept(pieces.drop_last()).push(pieces.last())
    }
}

/// Whether a path starts at the root.
pub open spec fn is_absolute(p: Seq<char>) -> bool {
    p.len() > 0 && p[0] == '/'
}

/// The named components of a path.
pub open spec fn components(p: Seq<char>) -> Seq<Seq<char>> {
    kept(split_on(p, '/'))
}

/// Whether two paths name the same location, component by component.
pub open spec fn same_path(a: Seq<char>, b: Seq<char>) -> bool {
    is_absolute(a) == is_absolute(b) && components(a) == components(b)
}

/// The characters of each string.
pub open spec fn strs(v: Seq<&str>) -> Seq<Seq<char>> {
    v.map_values(|s: &str| s@)
}

fn keep_piece<'a>(out: &mut Vec<&'a str>, piece: &'a str, first: bool)
    ensures
        strs(final(out)@) == if piece@.len() == 0 || (piece@ == "."@ && !first) {
            strs(old(out)@)
        } else {
            strs(old(out)@).push(piece@)
        },
{
    if piece.unicode_len() == 0 || (str_eq(piece, ".") && !first) {
        return ;
    }
    out.push(piece);
    assert(strs(out@) == strs(old(out)@).push(piece@));
}

/// The named components of `p`.
pub fn path_components<'a>(p: &'a str) -> (r: Vec<&'a str>)
    ensures
        strs(r@) == components(p@),
{
    let n = p.unicode_len();
    let mut out: Vec<&'a str> = Vec::new();
    let mut start: usize = 0;
    let mut i: usize = 0;
    let ghost mut done: Seq<Seq<char>> = Seq::empty();
    assert(p@.subrange(0, 0) == Seq::<char>::empty());
    assert(strs(out@) == Seq::<Seq<char>>::empty());
    while i < n
        invariant
            n == p@.len(),
            start <= i <= n,
            split_on(p@.subrange(0, i as int), '/') == done.push(
                p@.subrange(start as int, i as int),
            ),
            strs(out@) == kept(done),
            (start == 0) == (done.len() == 0),
        decreases n - i,
    {
        let c = p.get_char(i);
        assert(p@.subrange(0, i + 1).drop_last() == p@.subrange(0, i as int));
        assert(p@.subrange(0, i + 1).last() == c);
        if c == '/' {
            let piece = p.substring_char(start, i);
            keep_piece(&mut out, piece, start == 0);
            proof {
                let l = p@.subrange(start as int, i as int);
                assert(done.push(l).drop_last() == done);
                done = done.push(l);
                assert(p@.subrange(i + 1, i + 1) == Seq::<char>::empty());
            }
            start = i + 1;
        } else {
            assert(p@.subrange(start as int, i + 1) == p@.subrange(start as int, i as int).push(c));
        }
        i = i + 1;
    }
    let piece = p.substring_char(start, n);
    keep_piece(&mut out, piece, start == 0);
    proof {
        let l = p@.subrange(start as int, n as int);
        assert(p@.subrange(0, n as int) == p@);
        assert(done.push(l).drop_last() == done);
    }
    out
}

/// Whether `p` starts at the root.
pub fn path_is_absolute(p: &str) -> (r: bool)
    ensures
        r == is_absolute(p@),
{
    p.unicode_len() > 0 && p.get_char(0) == '/'
}

/// Whether `a` and `b` name the same location, component by component.
pub fn same_path_as(a: &str, b: &str) -> (r: bool)
    ensures
        r == same_path(a@, b@),
{
    if path_is_absolute(a) != path_is_absolute(b) {
        return false;
    }
    let ca = path_components(a);
    let cb = path_components(b);
    assert(strs(ca@).len() == ca@.len() && strs(cb@).len() == cb@.len());
    if ca.len() != cb.len() {
        return false;
    }
    let mut k: usize = 0;
    while k < ca.len()
        invariant
            ca.len() == cb.len(),
            k <= ca.len(),
            strs(ca@) == components(a@),
            strs(cb@) == components(b@),
            strs(ca@).len() == ca@.len(),
            strs(cb@).len() == cb@.len(),
            is_absolute(a@) == is_absolute(b@),
            forall|j: int| 0 <= j < k ==> strs(ca@)[j] == strs(cb@)[j],
        decreases ca.len() - k,
    {
        if !str_eq(ca[k], cb[k]) {
            assert(strs(ca@)[k as int] == ca@[k as int]@);
            assert(strs(cb@)[k as int] == cb@[k as int]@);
            assert(strs(ca@)[k as int] != strs(cb@)[k as int]);
            return false;
        }
        k = k + 1;
    }
    assert(strs(ca@) =~= strs(cb@));
    true
}

/// Whether one of the pieces of `list` separated by `sep` names the same
/// location as `dir`.
pub open spec fn listed_path(list: Seq<char>, sep: char, dir: Seq<char>) -> bool {
    exists|k: int| 0 <= k < split_on(list, sep).len() && same_path(split_on(list, sep)[k], dir)
}

/// Whether one of the pieces of `list` separated by `sep` names the same
/// location as `dir`.
pub fn path_listed(list: &str, sep: char, dir: &str) -> (r: bool)
    ensures
        r == listed_path(list@, sep, dir@),
{
    let n = list.unicode_len();
    let mut start: usize = 0;
    let mut i: usize = 0;
    let mut found = false;
    let ghost mut done: Seq<Seq<char>> = Seq::empty();
    assert(list@.subrange(0, 0) == Seq::<char>::empty());
    while i < n
        invariant
            n == list@.len(),
            start <= i <= n,
            split_on(list@.subrange(0, i as int), sep) == done.push(
                list@.subrange(start as int, i as int),
            ),
            found == exists|k: int| 0 <= k < done.len() && same_path(done[k], dir@),
        decreases n - i,
    {
        let c = list.get_char(i);
        assert(list@.subrange(0, i + 1).drop_last() == list@.subrange(0, i as int));
        assert(list@.subrange(0, i + 1).last() == c);
        if c == sep {
            let same = same_path_as(list.substring_char(start, i), dir);
            proof {
                let l = list@.subrange(start as int, i as int);
                let d2 = done.push(l);
                if found {
                    let k = choose|k: int| 0 <= k < done.len() && same_path(done[k], dir@);
                    assert(d2[k] == done[k]);
                }
                if same {
                    assert(d2[done.len() as int] == l);
                }
                if exists|k: int| 0 <= k < d2.len() && same_path(d2[k], dir@) {
                    let k = choose|k: int| 0 <= k < d2.len() && same_path(d2[k], dir@);
                    if k < done.len() {
                        assert(done[k] == d2[k]);
                    }
                }
                done = d2;
                assert(list@.subrange(i + 1, i + 1) == Seq::<char>::empty());
            }
            found = found || same;
            start = i + 1;
        } else {
            assert(list@.subrange(start as int, i + 1) == list@.subrange(
                start as int,
                i as int,
            ).push(c));
        }
        i = i + 1;
    }
    let same = same_path_as(list.substring_char(start, n), dir);
    proof {
        let l = list@.subrange(start as int, n as int);
        let d2 = done.push(l);
        assert(list@.subrange(0, n as int) == list@);
        if found {
            let k = choose|k: int| 0 <= k < done.len() && same_path(done[k], dir@);
            assert(d2[k] == done[k]);
        }
        if same {
            assert(d2[done.len() as int] == l);
        }
        if listed_path(list@, sep, dir@) {
            let k = choose|k: int| 0 <= k < d2.len() && same_path(d2[k], dir@);
            if k < done.len() {
                assert(done[k] == d2[k]);
            }
        }
    }
    found || same
}

} // verus!
