//! Character-sequence helpers used throughout the installer's logic.
use vstd::prelude::*;

verus! {

/// Whether `needle` occurs in `hay` starting at position `i`.
pub open spec fn occurs_at(hay: Seq<char>, needle: Seq<char>, i: int) -> bool {
    0 <= i && i + needle.len() <= hay.len() && hay.subrange(i, i + needle.len()) == needle
}

/// Whether `needle` occurs anywhere in `hay`.
pub open spec fn occurs_in(hay: Seq<char>, needle: Seq<char>) -> bool {
    exists|i: int| occurs_at(hay, needle, i)
}

/// Compares two strings character by character.
pub fn str_eq(a: &str, b: &str) -> (r: bool)
    ensures
        r == (a@ == b@),
{
    let n = a.unicode_len();
    if n != b.unicode_len() {
        return false;
    }
    let mut i: usize = 0;
    while i < n
        invariant
            n == a@.len(),
            n == b@.len(),
            i <= n,
            a@.subrange(0, i as int) == b@.subrange(0, i as int),
        decreases n - i,
    {
        if a.get_char(i) != b.get_char(i) {
            return false;
        }
        assert(a@.subrange(0, i + 1) == a@.subrange(0, i as int).push(a@[i as int]));
        assert(b@.subrange(0, i + 1) == b@.subrange(0, i as int).push(b@[i as int]));
        i = i + 1;
    }
    assert(a@ == a@.subrange(0, n as int));
    assert(b@ == b@.subrange(0, n as int));
    true
}

/// Whether `needle` appears in `hay` at character position `at`.
fn matches_at(hay: &str, needle: &str, at: usize) -> (r: bool)
    requires
        at as int + needle@.len() <= hay@.len(),
    ensures
        r == occurs_at(hay@, needle@, at as int),
{
    let h = hay.unicode_len();
    let n = needle.unicode_len();
    let mut j: usize = 0;
    while j < n
        invariant
            h == hay@.len(),
            n == needle@.len(),
            at as int + n <= hay@.len(),
            j <= n,
            hay@.subrange(at as int, at + j) == needle@.subrange(0, j as int),
        decreases n - j,
    {
        if hay.get_char(at + j) != needle.get_char(j) {
            assert(hay@.subrange(at as int, at + n)[j as int] != needle@[j as int]);
            return false;
        }
        assert(hay@.subrange(at as int, at + j + 1) == hay@.subrange(at as int, at + j).push(
            hay@[at + j],
        ));
        assert(needle@.subrange(0, j + 1) == needle@.subrange(0, j as int).push(needle@[j as int]));
        j = j + 1;
    }
    assert(needle@ == needle@.subrange(0, n as int));
    true
}

/// Substring search: whether `needle` occurs in `hay`.
pub fn contains_str(hay: &str, needle: &str) -> (r: bool)
    ensures
        r == occurs_in(hay@, needle@),
{
    let h = hay.unicode_len();
    let n = needle.unicode_len();
    if n > h {
        return false;
    }
    let mut i: usize = 0;
    loop
        invariant
            h == hay@.len(),
            n == needle@.len(),
            n <= h,
            i <= h - n,
            forall|k: int| 0 <= k < i ==> !occurs_at(hay@, needle@, k),
        ensures
            forall|k: int| 0 <= k <= h - n ==> !occurs_at(hay@, needle@, k),
        decreases h - n - i,
    {
        if matches_at(hay, needle, i) {
            return true;
        }
        if i == h - n {
            break;
        }
        i = i + 1;
    }
    assert forall|k: int| !occurs_at(hay@, needle@, k) by {
        if 0 <= k <= h - n {
        }
    }
    false
}

} // verus!

verus! {

/// The pieces of `s` between occurrences of `sep`; there is always at least
/// one piece, and a trailing separator yields a trailing empty piece.
pub open spec fn split_on(s: Seq<char>, sep: char) -> Seq<Seq<char>>
    decreases s.len(),
{
    if s.len() == 0 {
        seq![Seq::empty()]
    } else {
        let prev = split_on(s.drop_last(), sep);
        if s.last() == sep {
            prev.push(Seq::empty())
        } else {
            prev.update(prev.len() - 1, prev.last().push(s.last()))
        }
    }
}

/// The lines of a text, split on line feeds.
pub open spec fn lines(s: Seq<char>) -> Seq<Seq<char>> {
    split_on(s, '\n')
}

/// How many entries of `ls` equal `x`.
pub open spec fn count_of(ls: Seq<Seq<char>>, x: Seq<char>) -> nat
    decreases ls.len(),
{
    if ls.len() == 0 {
        0
    } else {
        count_of(ls.drop_last(), x) + if ls.last() == x {
            1nat
        } else {
            0nat
        }
    }
}

pub proof fn lemma_split_nonempty(s: Seq<char>, sep: char)
    ensures
        split_on(s, sep).len() >= 1,
    decreases s.len(),
{
    if s.len() > 0 {
        lemma_split_nonempty(s.drop_last(), sep);
    }
}

/// Splitting text joined by a separator splits each part.
pub proof fn lemma_split_concat(a: Seq<char>, b: Seq<char>, sep: char)
    ensures
        split_on(a + seq![sep] + b, sep) == split_on(a, sep) + split_on(b, sep),
    decreases b.len(),
{
    let s = a + seq![sep] + b;
    if b.len() == 0 {
        assert(s.drop_last() == a);
        assert(split_on(b, sep) == seq![Seq::<char>::empty()]);
        assert(split_on(s, sep) == split_on(a, sep) + split_on(b, sep));
    } else {
        let b0 = b.drop_last();
        lemma_split_concat(a, b0, sep);
        lemma_split_nonempty(b0, sep);
        lemma_split_nonempty(a, sep);
        assert(s.drop_last() == a + seq![sep] + b0);
        assert(s.last() == b.last());
        let pa = split_on(a, sep);
        let pb = split_on(b0, sep);
        if b.last() == sep {
            assert((pa + pb).push(Seq::empty()) == pa + pb.push(Seq::empty()));
        } else {
            assert((pa + pb).update((pa + pb).len() - 1, (pa + pb).last().push(b.last())) == pa
                + pb.update(pb.len() - 1, pb.last().push(b.last())));
        }
    }
}

/// Text without a separator is a single piece.
pub proof fn lemma_split_single(s: Seq<char>, sep: char)
    requires
        !s.contains(sep),
    ensures
        split_on(s, sep) == seq![s],
    decreases s.len(),
{
    if s.len() > 0 {
        let p = s.drop_last();
        assert(!p.contains(sep)) by {
            if p.contains(sep) {
                let k = choose|k: int| 0 <= k < p.len() && p[k] == sep;
                assert(s[k] == sep);
            }
        }
        lemma_split_single(p, sep);
        assert(s.last() != sep) by {
            assert(s[s.len() - 1] == s.last());
        }
        assert(p.push(s.last()) == s);
    } else {
        assert(s == Seq::<char>::empty());
    }
}

pub proof fn lemma_count_concat(a: Seq<Seq<char>>, b: Seq<Seq<char>>, x: Seq<char>)
    ensures
        count_of(a + b, x) == count_of(a, x) + count_of(b, x),
    decreases b.len(),
{
    if b.len() == 0 {
        assert(a + b == a);
    } else {
        lemma_count_concat(a, b.drop_last(), x);
        assert((a + b).drop_last() == a + b.drop_last());
    }
}

pub proof fn lemma_count_contains(ls: Seq<Seq<char>>, x: Seq<char>)
    ensures
        (count_of(ls, x) > 0) == ls.contains(x),
    decreases ls.len(),
{
    if ls.len() > 0 {
        let p = ls.drop_last();
        lemma_count_contains(p, x);
        if p.contains(x) {
            let k = choose|k: int| 0 <= k < p.len() && p[k] == x;
            assert(ls[k] == x);
        }
        if ls.contains(x) && ls.last() != x {
            let k = choose|k: int| 0 <= k < ls.len() && ls[k] == x;
            assert(k != ls.len() - 1);
            assert(p[k] == x);
        }
        if ls.last() == x {
            assert(ls[ls.len() - 1] == x);
        }
    }
}

proof fn lemma_push_contains(ls: Seq<Seq<char>>, e: Seq<char>, x: Seq<char>)
    ensures
        ls.push(e).contains(x) == (ls.contains(x) || e == x),
{
    let l2 = ls.push(e);
    if ls.contains(x) {
        let k = choose|k: int| 0 <= k < ls.len() && ls[k] == x;
        assert(l2[k] == x);
    }
    if e == x {
        assert(l2[ls.len() as int] == x);
    }
    if l2.contains(x) {
        let k = choose|k: int| 0 <= k < l2.len() && l2[k] == x;
        if k < ls.len() {
            assert(ls[k] == x);
        }
    }
}

/// Whether `item` is one of the pieces of `list` separated by `sep`.
pub fn segment_present(list: &str, sep: char, item: &str) -> (r: bool)
    ensures
        r == split_on(list@, sep).contains(item@),
{
    let n = list.unicode_len();
    let mut start: usize = 0;
    let mut i: usize = 0;
    let mut found = false;
    let ghost mut done: Seq<Seq<char>> = Seq::empty();
    assert(list@.subrange(0, 0) == Seq::<char>::empty());
    while i < n
        invariant
            n == list@.len(),
            start <= i <= n,
            split_on(list@.subrange(0, i as int), sep) == done.push(
                list@.subrange(start as int, i as int),
            ),
            found == done.contains(item@),
        decreases n - i,
    {
        let c = list.get_char(i);
        let ghost pre = list@.subrange(0, i as int);
        assert(list@.subrange(0, i + 1).drop_last() == pre);
        assert(list@.subrange(0, i + 1).last() == c);
        if c == sep {
            let seg = list.substring_char(start, i);
            let same = str_eq(seg, item);
            proof {
                lemma_push_contains(done, list@.subrange(start as int, i as int), item@);
                done = done.push(list@.subrange(start as int, i as int));
                assert(list@.subrange(i + 1, i + 1) == Seq::<char>::empty());
            }
            found = found || same;
            start = i + 1;
        } else {
            proof {
                assert(list@.subrange(start as int, i + 1) == list@.subrange(
                    start as int,
                    i as int,
                ).push(c));
            }
        }
        i = i + 1;
    }
    let seg = list.substring_char(start, n);
    let same = str_eq(seg, item);
    proof {
        assert(list@.subrange(0, n as int) == list@);
        lemma_push_contains(done, list@.subrange(start as int, n as int), item@);
    }
    found || same
}

} // verus!

verus! {

/// Whether `c` has the Unicode `White_Space` property: the 25 code points
/// U+0009 to U+000D, U+0020, U+0085, U+00A0, U+1680, U+2000 to U+200A,
/// U+2028, U+2029, U+202F, U+205F and U+3000.
pub open spec fn white_space(c: char) -> bool {
    let n = c as u32;
    (0x9 <= n <= 0xD) || n == 0x20 || n == 0x85 || n == 0xA0 || n == 0x1680 || (0x2000 <= n
        <= 0x200A) || n == 0x2028 || n == 0x2029 || n == 0x202F || n == 0x205F || n == 0x3000
}

/// Relies on `char::is_whitespace`, which is true exactly for the
/// characters with the Unicode `White_Space` property.
#[verifier::external_body]
fn is_white_space(c: char) -> (r: bool)
    ensures
        r == white_space(c),
{
    c.is_whitespace()
}

/// `s` without its leading white space.
pub open spec fn trim_start(s: Seq<char>) -> Seq<char>
    decreases s.len(),
{
    if s.len() > 0 && white_space(s[0]) {
        trim_start(s.drop_first())
    } else {
        s
    }
}

/// `s` without its trailing white space.
pub open spec fn trim_end(s: Seq<char>) -> Seq<char>
    decreases s.len(),
{
    if s.len() > 0 && white_space(s.last()) {
        trim_end(s.drop_last())
    } else {
        s
    }
}

/// `s` without leading and trailing white space.
pub open spec fn trimmed(s: Seq<char>) -> Seq<char> {
    trim_end(trim_start(s))
}

/// Removes leading and trailing white space.
pub fn trim(s: &str) -> (r: &str)
    ensures
        r@ == trimmed(s@),
{
    let n = s.unicode_len();
    let mut i: usize = 0;
    assert(s@.subrange(0, n as int) == s@);
    while i < n && is_white_space(s.get_char(i))
        invariant
            n == s@.len(),
            i <= n,
            trim_start(s@) == trim_start(s@.subrange(i as int, n as int)),
        decreases n - i,
    {
        assert(s@.subrange(i as int, n as int).drop_first() == s@.subrange(i + 1, n as int));
        i = i + 1;
    }
    assert(trim_start(s@) == s@.subrange(i as int, n as int));
    let mut j: usize = n;
    while j > i && is_white_space(s.get_char(j - 1))
        invariant
            n == s@.len(),
            i <= j <= n,
            trim_start(s@) == s@.subrange(i as int, n as int),
            trimmed(s@) == trim_end(s@.subrange(i as int, j as int)),
        decreases j,
    {
        assert(s@.subrange(i as int, j as int).drop_last() == s@.subrange(i as int, j - 1));
        j = j - 1;
    }
    s.substring_char(i, j)
}

/// The character of a decimal digit.
pub open spec fn digit_char(d: nat) -> char {
    if d == 0 {
        '0'
    } else if d == 1 {
        '1'
    } else if d == 2 {
        '2'
    } else if d == 3 {
        '3'
    } else if d == 4 {
        '4'
    } else if d == 5 {
        '5'
    } else if d == 6 {
        '6'
    } else if d == 7 {
        '7'
    } else if d == 8 {
        '8'
    } else {
        '9'
    }
}

/// The decimal notation of `n`, without leading zeros.
pub open spec fn decimal(n: nat) -> Seq<char>
    decreases n,
{
    if n < 10 {
        seq![digit_char(n)]
    } else {
        decimal(n / 10).push(digit_char(n % 10))
    }
}

fn digit_str(d: u64) -> (r: &'static str)
    requires
        d < 10,
    ensures
        r@ == seq![digit_char(d as nat)],
{
    proof {
        reveal_strlit("0");
        reveal_strlit("1");
        reveal_strlit("2");
        reveal_strlit("3");
        reveal_strlit("4");
        reveal_strlit("5");
        reveal_strlit("6");
        reveal_strlit("7");
        reveal_strlit("8");
        reveal_strlit("9");
    }
    if d == 0 {
        "0"
    } else if d == 1 {
        "1"
    } else if d == 2 {
        "2"
    } else if d == 3 {
        "3"
    } else if d == 4 {
        "4"
    } else if d == 5 {
        "5"
    } else if d == 6 {
        "6"
    } else if d == 7 {
        "7"
    } else if d == 8 {
        "8"
    } else {
        "9"
    }
}

/// Appends the decimal notation of `n` to `out`.
pub fn push_decimal(out: &mut String, n: u64)
    ensures
        final(out)@ == old(out)@ + decimal(n as nat),
    decreases n,
{
    if n >= 10 {
        push_decimal(out, n / 10);
    }
    out.append(digit_str(n % 10));
    proof {
        if n >= 10 {
            assert(old(out)@ + decimal(n as nat) == old(out)@ + decimal((n / 10) as nat) + seq![
                digit_char((n % 10) as nat),
            ]);
        }
    }
}

/// `name` placed inside the directory `dir`, with `sep` between them unless
/// `dir` is empty or already ends with it.
pub open spec fn joined(dir: Seq<char>, sep: char, name: Seq<char>) -> Seq<char> {
    if dir.len() == 0 {
        name
    } else if dir.last() == sep {
        dir + name
    } else {
        dir + seq![sep] + name
    }
}

/// Builds the path of `name` inside the directory `dir`; `sep` is the
/// one-character path separator.
pub fn join_path(dir: &str, sep: &str, name: &str) -> (r: String)
    requires
        sep@.len() == 1,
    ensures
        r@ == joined(dir@, sep@[0], name@),
{
    let n = dir.unicode_len();
    let mut r = String::from_str(dir);
    if n > 0 && dir.get_char(n - 1) != sep.get_char(0) {
        r.append(sep);
        assert(sep@ == seq![sep@[0]]);
    }
    r.append(name);
    proof {
        if n > 0 {
            assert(dir@.last() == dir@[n - 1]);
        } else {
            assert(dir@ + name@ == name@);
        }
    }
    r
}

} // verus!

verus! {

/// The characters of an optional string.
pub open spec fn opt_chars(o: Option<&str>) -> Option<Seq<char>> {
    match o {
        Some(s) => Some(s@),
        None => None,
    }
}

} // verus!

verus! {

/// Each piece of a split occurs in the split text, and the last piece is a
/// suffix of it.
pub proof fn lemma_split_pieces_occur(s: Seq<char>, sep: char)
    ensures
        forall|k: int|
            0 <= k < split_on(s, sep).len() ==> #[trigger] occurs_in(s, split_on(s, sep)[k]),
        split_on(s, sep).len() >= 1,
        split_on(s, sep).last().len() <= s.len(),
        split_on(s, sep).last() == s.subrange(s.len() - split_on(s, sep).last().len(), s.len() as int),
    decreases s.len(),
{
    lemma_split_nonempty(s, sep);
    let ps = split_on(s, sep);
    assert(s.subrange(0, 0) == Seq::<char>::empty());
    if s.len() == 0 {
        assert(occurs_at(s, ps[0], 0));
    } else {
        let s0 = s.drop_last();
        lemma_split_pieces_occur(s0, sep);
        let prev = split_on(s0, sep);
        if s.last() != sep {
            let l = prev.last();
            assert(ps.last() == l.push(s.last()));
            assert(s.subrange(s.len() - ps.last().len(), s.len() as int) =~= s0.subrange(
                s0.len() - l.len(),
                s0.len() as int,
            ).push(s.last()));
        } else {
            assert(s.subrange(s.len() as int, s.len() as int) == Seq::<char>::empty());
        }
        assert forall|k: int| 0 <= k < ps.len() implies #[trigger] occurs_in(s, ps[k]) by {
            if k < prev.len() - 1 || (k == prev.len() - 1 && s.last() == sep) {
                assert(ps[k] == prev[k]);
                assert(occurs_in(s0, prev[k]));
                let i = choose|i: int| occurs_at(s0, prev[k], i);
                assert(s.subrange(i, i + prev[k].len()) == s0.subrange(i, i + prev[k].len()));
                assert(occurs_at(s, ps[k], i));
            } else if s.last() == sep {
                assert(ps[k] == Seq::<char>::empty());
                assert(occurs_at(s, ps[k], 0));
            } else {
                assert(ps[k] == ps.last());
                let i = s.len() - ps[k].len();
                assert(occurs_at(s, ps[k], i));
            }
        }
    }
}

} // verus!
