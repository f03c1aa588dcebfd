//! Character-level helpers on strings: exact comparison, substring search and
//! splitting on a separator character.

use vstd::prelude::*;

verus! {

/// The characters of `s`, in order.
pub fn chars_of(s: &str) -> (r: Vec<char>)
    ensures
        r@ == s@,
{
    let mut out: Vec<char> = Vec::new();
    let mut it = s.chars();
    for c in iter: it
        invariant
            out@ == iter.seq().take(iter.index() as int),
            iter.seq() == s@,
    {
        out.push(c);
    }
    out
}


/// Whether `a` and `b` hold the same characters.
pub fn same_text(a: &str, b: &str) -> (r: bool)
    ensures
        r == (a@ == b@),
{
    let x = chars_of(a);
    let y = chars_of(b);
    same_chars(&x, &y)
}

/// Whether `x` and `y` are the same sequence of characters.
pub fn same_chars(x: &Vec<char>, y: &Vec<char>) -> (r: bool)
    ensures
        r == (x@ == y@),
{
    if x.len() != y.len() {
        return false;
    }
    let mut i: usize = 0;
    while i < x.len()
        invariant
            x.len() == y.len(),
            i <= x.len(),
            forall|j: int| 0 <= j < i ==> x@[j] == y@[j],
        decreases x.len() - i,
    {
        if x[i] != y[i] {
            return false;
        }
        i += 1;
    }
    assert(x@ =~= y@);
    true
}

/// `p` occurs in `s` as a contiguous run of characters starting at `i`.
pub open spec fn occurs_at(s: Seq<char>, p: Seq<char>, i: int) -> bool {
    0 <= i && i + p.len() <= s.len() && s.subrange(i, i + p.len()) == p
}

/// `p` occurs somewhere in `s` (the empty pattern occurs in every string).
pub open spec fn has_substring(s: Seq<char>, p: Seq<char>) -> bool {
    exists|i: int| occurs_at(s, p, i)
}

/// Whether the characters of `x` at `i` are those of `p`.
fn matches_at(x: &Vec<char>, p: &Vec<char>, i: usize) -> (r: bool)
    requires
        i + p.len() <= x.len(),
    ensures
        r == occurs_at(x@, p@, i as int),
{
    let mut k: usize = 0;
    while k < p.len()
        invariant
            i + p.len() <= x.len(),
            k <= p.len(),
            forall|j: int| 0 <= j < k ==> x@[i + j] == p@[j],
        decreases p.len() - k,
    {
        if x[i + k] != p[k] {
            assert(x@.subrange(i as int, i + p.len())[k as int] != p@[k as int]);
            return false;
        }
        k += 1;
    }
    assert(x@.subrange(i as int, i + p.len()) =~= p@);
    true
}

/// Whether `pattern` occurs in `s`, as `str::contains` with a string pattern.
pub fn contains_text(s: &str, pattern: &str) -> (r: bool)
    ensures
        r == has_substring(s@, pattern@),
{
    let x = chars_of(s);
    let p = chars_of(pattern);
    if p.len() > x.len() {
        assert forall|i: int| !occurs_at(s@, pattern@, i) by {}
        return false;
    }
    let last = x.len() - p.len();
    let mut i: usize = 0;
    while i <= last
        invariant
            x@ == s@,
            p@ == pattern@,
            last == x.len() - p.len(),
            p.len() <= x.len(),
            i <= last,
            forall|j: int| 0 <= j < i ==> !occurs_at(s@, pattern@, j),
        ensures
            forall|j: int| 0 <= j <= last ==> !occurs_at(s@, pattern@, j),
        decreases last + 1 - i,
    {
        if matches_at(&x, &p, i) {
            assert(occurs_at(s@, pattern@, i as int));
            return true;
        }
        if i == last {
            break;
        }
        i += 1;
    }
    assert forall|j: int| !occurs_at(s@, pattern@, j) by {
        if 0 <= j && j + pattern@.len() <= s@.len() {
            assert(j <= last);
        }
    }
    false
}


/// The pieces of `s` between occurrences of `sep`, as `str::split` with a
/// character pattern gives them: one more piece than there are separators,
/// empty pieces included.
pub open spec fn split_by(s: Seq<char>, sep: char) -> Seq<Seq<char>>
    decreases s.len(),
{
    if s.len() == 0 {
        seq![Seq::<char>::empty()]
    } else {
        let rest = split_by(s.drop_last(), sep);
        if s.last() == sep {
            rest.push(Seq::<char>::empty())
        } else {
            rest.update(rest.len() - 1, rest.last().push(s.last()))
        }
    }
}

/// There is always at least one piece.
pub proof fn lemma_split_nonempty(s: Seq<char>, sep: char)
    ensures
        split_by(s, sep).len() >= 1,
    decreases s.len(),
{
    if s.len() > 0 {
        lemma_split_nonempty(s.drop_last(), sep);
    }
}

/// Splitting gives a single piece exactly when the separator does not occur,
/// and that piece is then the whole string.
pub proof fn lemma_split_single_piece(s: Seq<char>, sep: char)
    ensures
        split_by(s, sep).len() == 1 <==> !s.contains(sep),
        split_by(s, sep).len() == 1 ==> split_by(s, sep)[0] == s,
    decreases s.len(),
{
    lemma_split_nonempty(s, sep);
    if s.len() > 0 {
        let t = s.drop_last();
        lemma_split_single_piece(t, sep);
        lemma_split_nonempty(t, sep);
        if s.last() == sep {
            assert(s[s.len() - 1] == sep);
        } else {
            if t.contains(sep) {
                let k = choose|k: int| 0 <= k < t.len() && t[k] == sep;
                assert(s[k] == sep);
            }
            if s.contains(sep) {
                let k = choose|k: int| 0 <= k < s.len() && s[k] == sep;
                assert(k < s.len() - 1);
                assert(t[k] == sep);
            }
            assert(t.push(s.last()) =~= s);
        }
    }
}

/// The pieces of `s` between occurrences of `sep`, each as its characters.
pub fn split_chars(s: &str, sep: char) -> (r: Vec<Vec<char>>)
    ensures
        r@.len() == split_by(s@, sep).len(),
        forall|j: int| 0 <= j < r@.len() ==> #[trigger] r@[j]@ == split_by(s@, sep)[j],
{
    let x = chars_of(s);
    let mut pieces: Vec<Vec<char>> = Vec::new();
    let mut cur: Vec<char> = Vec::new();
    let mut i: usize = 0;
    proof {
        assert(x@.take(0) =~= Seq::<char>::empty());
    }
    while i < x.len()
        invariant
            x@ == s@,
            i <= x.len(),
            pieces@.len() + 1 == split_by(x@.take(i as int), sep).len(),
            forall|j: int|
                0 <= j < pieces@.len() ==> #[trigger] pieces@[j]@ == split_by(
                    x@.take(i as int),
                    sep,
                )[j],
            cur@ == split_by(x@.take(i as int), sep).last(),
        decreases x.len() - i,
    {
        let c = x[i];
        proof {
            let t = x@.take(i + 1);
            assert(t.drop_last() =~= x@.take(i as int));
            assert(t.last() == c);
            lemma_split_nonempty(x@.take(i as int), sep);
        }
        if c == sep {
            let done = cur;
            pieces.push(done);
            cur = Vec::new();
        } else {
            cur.push(c);
        }
        i += 1;
    }
    proof {
        assert(x@.take(i as int) =~= s@);
        lemma_split_nonempty(s@, sep);
    }
    pieces.push(cur);
    pieces
}

} // verus!
