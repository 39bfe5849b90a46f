//! Filling placeholders in a text template.

use vstd::prelude::*;
use vstd::string::*;

verus! {

/// `pat` stands in `s` at position `i`.
pub open spec fn occurs_at(s: Seq<char>, i: int, pat: Seq<char>) -> bool {
    &&& 0 <= i
    &&& i + pat.len() <= s.len()
    &&& s.subrange(i, i + pat.len()) == pat
}

/// `s` with every occurrence of `pat` replaced by `to`, scanning from the left
/// and resuming behind each occurrence replaced. An empty `pat` occurs nowhere.
pub open spec fn substitute(s: Seq<char>, pat: Seq<char>, to: Seq<char>) -> Seq<char>
    decreases s.len(),
{
    if pat.len() == 0 || s.len() < pat.len() {
        s
    } else if occurs_at(s, 0, pat) {
        to + substitute(s.subrange(pat.len() as int, s.len() as int), pat, to)
    } else {
        seq![s[0]] + substitute(s.subrange(1, s.len() as int), pat, to)
    }
}

/// Tells whether `pat` stands in `s` at position `i`.
pub fn matches_at(s: &str, i: usize, pat: &str) -> (res: bool)
    ensures
        res == occurs_at(s@, i as int, pat@),
{
    let n = s.unicode_len();
    let m = pat.unicode_len();
    if i > n || m > n - i {
        return false;
    }
    let mut k: usize = 0;
    while k < m
        invariant
            n == s@.len(),
            m == pat@.len(),
            i + m <= n,
            k <= m,
            forall|j: int| 0 <= j < k ==> s@[i + j] == pat@[j],
        decreases m - k,
    {
        if s.get_char(i + k) != pat.get_char(k) {
            assert(s@.subrange(i as int, i + m)[k as int] != pat@[k as int]);
            return false;
        }
        k = k + 1;
    }
    assert(s@.subrange(i as int, i + m) =~= pat@);
    true
}

/// Replaces every occurrence of a placeholder in a template.
pub fn replace_all(s: &str, pat: &str, to: &str) -> (res: String)
    ensures
        res@ == substitute(s@, pat@, to@),
{
    let n = s.unicode_len();
    let m = pat.unicode_len();
    if m == 0 {
        return String::from_str(s);
    }
    let mut out = String::new();
    let mut i: usize = 0;
    assert(s@.subrange(0, n as int) =~= s@);
    while i < n
        invariant
            n == s@.len(),
            m == pat@.len(),
            m > 0,
            i <= n,
            out@ + substitute(s@.subrange(i as int, n as int), pat@, to@) == substitute(
                s@,
                pat@,
                to@,
            ),
        decreases n - i,
    {
        let ghost rest = s@.subrange(i as int, n as int);
        if matches_at(s, i, pat) {
            assert(rest.subrange(0, m as int) =~= s@.subrange(i as int, i + m));
            assert(rest.subrange(m as int, rest.len() as int) =~= s@.subrange(i + m, n as int));
            out.append(to);
            i = i + m;
        } else {
            if n - i >= m {
                assert(rest.subrange(0, m as int) =~= s@.subrange(i as int, i + m));
            }
            let ghost tail = rest.subrange(1, rest.len() as int);
            assert(tail =~= s@.subrange(i + 1, n as int));
            assert(rest.len() < m ==> substitute(tail, pat@, to@) == tail);
            assert(rest =~= seq![rest[0]] + tail);
            let piece = s.substring_char(i, i + 1);
            assert(piece@ =~= seq![rest[0]]);
            out.append(piece);
            i = i + 1;
        }
    }
    assert(s@.subrange(n as int, n as int) =~= Seq::<char>::empty());
    out
}

/// `w` stands somewhere in `s`.
pub open spec fn contains_text(s: Seq<char>, w: Seq<char>) -> bool {
    exists|i: int| occurs_at(s, i, w)
}

/// A text in which the placeholder occurs nowhere is left as it is.
pub proof fn lemma_substitute_without_occurrence(s: Seq<char>, pat: Seq<char>, to: Seq<char>)
    requires
        forall|j: int| !occurs_at(s, j, pat),
    ensures
        substitute(s, pat, to) == s,
    decreases s.len(),
{
    if pat.len() > 0 && s.len() >= pat.len() {
        let rest = s.subrange(1, s.len() as int);
        assert forall|j: int| !occurs_at(rest, j, pat) by {
            if occurs_at(rest, j, pat) {
                assert(s.subrange(j + 1, j + 1 + pat.len()) =~= rest.subrange(j, j + pat.len()));
                assert(occurs_at(s, j + 1, pat));
            }
        }
        lemma_substitute_without_occurrence(rest, pat, to);
        assert(!occurs_at(s, 0, pat));
        assert(seq![s[0]] + rest =~= s);
    }
}

/// Filling in can be done piece by piece: where no occurrence of the
/// placeholder reaches across position `i`, the text filled in is its part
/// before `i` filled in, followed by its part from `i` filled in.
pub proof fn lemma_substitute_splits(s: Seq<char>, pat: Seq<char>, to: Seq<char>, i: int)
    requires
        0 <= i <= s.len(),
        pat.len() > 0,
        forall|j: int| #[trigger] occurs_at(s, j, pat) ==> j + pat.len() <= i || j >= i,
    ensures
        substitute(s, pat, to) == substitute(s.subrange(0, i), pat, to) + substitute(
            s.subrange(i, s.len() as int),
            pat,
            to,
        ),
    decreases s.len(),
{
    let m = pat.len() as int;
    let n = s.len() as int;
    let before = s.subrange(0, i);
    let after = s.subrange(i, n);
    if i == 0 {
        assert(after =~= s);
        assert(before + substitute(s, pat, to) =~= substitute(s, pat, to));
    } else if i == n {
        assert(before =~= s);
        assert(substitute(s, pat, to) + after =~= substitute(s, pat, to));
    } else if n < m {
        assert(before + after =~= s);
    } else if occurs_at(s, 0, pat) {
        let rest = s.subrange(m, n);
        assert(before.subrange(0, m) =~= s.subrange(0, m));
        assert(occurs_at(before, 0, pat));
        assert(before.subrange(m, i) =~= rest.subrange(0, i - m));
        assert(rest.subrange(i - m, n - m) =~= after);
        assert forall|j: int| #[trigger] occurs_at(rest, j, pat) implies j + m <= i - m || j >= i
            - m by {
            assert(s.subrange(j + m, j + m + m) =~= rest.subrange(j, j + m));
            assert(occurs_at(s, j + m, pat));
        }
        lemma_substitute_splits(rest, pat, to, i - m);
        assert(substitute(s, pat, to) =~= to + substitute(rest, pat, to));
        assert(substitute(before, pat, to) =~= to + substitute(before.subrange(m, i), pat, to));
        assert(to + (substitute(rest.subrange(0, i - m), pat, to) + substitute(after, pat, to))
            =~= (to + substitute(rest.subrange(0, i - m), pat, to)) + substitute(after, pat, to));
    } else {
        let rest = s.subrange(1, n);
        let head = seq![s[0]];
        assert(before.subrange(1, i) =~= rest.subrange(0, i - 1));
        assert(rest.subrange(i - 1, n - 1) =~= after);
        assert forall|j: int| #[trigger] occurs_at(rest, j, pat) implies j + m <= i - 1 || j >= i
            - 1 by {
            assert(s.subrange(j + 1, j + 1 + m) =~= rest.subrange(j, j + m));
            assert(occurs_at(s, j + 1, pat));
        }
        lemma_substitute_splits(rest, pat, to, i - 1);
        assert(substitute(s, pat, to) =~= head + substitute(rest, pat, to));
        if i < m {
            assert(substitute(before, pat, to) == before);
            assert(substitute(before.subrange(1, i), pat, to) == before.subrange(1, i));
            assert(before =~= head + before.subrange(1, i));
        } else {
            assert(before.subrange(0, m) =~= s.subrange(0, m));
            assert(!occurs_at(before, 0, pat));
            assert(before[0] == s[0]);
            assert(substitute(before, pat, to) =~= head + substitute(
                before.subrange(1, i),
                pat,
                to,
            ));
        }
        assert(head + (substitute(rest.subrange(0, i - 1), pat, to) + substitute(after, pat, to))
            =~= (head + substitute(rest.subrange(0, i - 1), pat, to)) + substitute(
            after,
            pat,
            to,
        ));
    }
}

/// What no occurrence of the placeholder touches is kept: a text `w` that
/// stands at `i`, clear of every occurrence, stands in the text filled in.
pub proof fn lemma_substitute_keeps(
    s: Seq<char>,
    pat: Seq<char>,
    to: Seq<char>,
    i: int,
    w: Seq<char>,
)
    requires
        pat.len() > 0,
        w.len() > 0,
        occurs_at(s, i, w),
        forall|j: int| #[trigger] occurs_at(s, j, pat) ==> j + pat.len() <= i || j >= i + w.len(),
    ensures
        substitute(s, pat, to) == substitute(s.subrange(0, i), pat, to) + w + substitute(
            s.subrange(i + w.len(), s.len() as int),
            pat,
            to,
        ),
        contains_text(substitute(s, pat, to), w),
{
    let m = pat.len() as int;
    let k = w.len() as int;
    let n = s.len() as int;
    let from = s.subrange(i, n);
    lemma_substitute_splits(s, pat, to, i);
    assert forall|j: int| #[trigger] occurs_at(from, j, pat) implies j >= k by {
        assert(s.subrange(j + i, j + i + m) =~= from.subrange(j, j + m));
        assert(occurs_at(s, j + i, pat));
    }
    lemma_substitute_splits(from, pat, to, k);
    let middle = from.subrange(0, k);
    assert(middle =~= s.subrange(i, i + k));
    assert(from.subrange(k, n - i) =~= s.subrange(i + k, n));
    assert forall|j: int| !occurs_at(middle, j, pat) by {
        if occurs_at(middle, j, pat) {
            assert(from.subrange(j, j + m) =~= middle.subrange(j, j + m));
            assert(occurs_at(from, j, pat));
        }
    }
    lemma_substitute_without_occurrence(middle, pat, to);
    let front = substitute(s.subrange(0, i), pat, to);
    let back = substitute(s.subrange(i + k, n), pat, to);
    assert(front + (w + back) =~= front + w + back);
    assert((front + w + back).subrange(front.len() as int, front.len() + k) =~= w);
    assert(occurs_at(front + w + back, front.len() as int, w));
}

/// An occurrence of the placeholder is replaced: where the placeholder's
/// first character occurs nowhere else in it, so that two occurrences cannot
/// overlap, the replacement stands in the text filled in.
pub proof fn lemma_substitute_replaces(s: Seq<char>, pat: Seq<char>, to: Seq<char>, i: int)
    requires
        pat.len() > 0,
        occurs_at(s, i, pat),
        forall|d: int| 0 < d < pat.len() ==> #[trigger] pat[d] != pat[0],
    ensures
        substitute(s, pat, to) == substitute(s.subrange(0, i), pat, to) + to + substitute(
            s.subrange(i + pat.len(), s.len() as int),
            pat,
            to,
        ),
        contains_text(substitute(s, pat, to), to),
{
    let m = pat.len() as int;
    let n = s.len() as int;
    let from = s.subrange(i, n);
    assert(s[i] == s.subrange(i, i + m)[0]);
    assert forall|j: int| #[trigger] occurs_at(s, j, pat) implies j + m <= i || j >= i by {
        if j < i && i < j + m {
            assert(s.subrange(j, j + m)[i - j] == s[i]);
        }
    }
    lemma_substitute_splits(s, pat, to, i);
    assert(from.subrange(0, m) =~= s.subrange(i, i + m));
    assert(occurs_at(from, 0, pat));
    assert(from.subrange(m, n - i) =~= s.subrange(i + m, n));
    let front = substitute(s.subrange(0, i), pat, to);
    let back = substitute(s.subrange(i + m, n), pat, to);
    assert(substitute(from, pat, to) =~= to + back);
    assert(front + (to + back) =~= front + to + back);
    assert((front + to + back).subrange(front.len() as int, front.len() as int + to.len() as int)
        =~= to);
    assert(occurs_at(front + to + back, front.len() as int, to));
}

/// The character `c` occurs nowhere in `s`.
pub open spec fn free_of(s: Seq<char>, c: char) -> bool {
    forall|i: int| 0 <= i < s.len() ==> #[trigger] s[i] != c
}

/// Filling in brings in no character that neither the template nor the
/// replacement holds.
pub proof fn lemma_substitute_free_of(s: Seq<char>, pat: Seq<char>, to: Seq<char>, c: char)
    requires
        free_of(s, c),
        free_of(to, c),
    ensures
        free_of(substitute(s, pat, to), c),
    decreases s.len(),
{
    if pat.len() > 0 && s.len() >= pat.len() {
        let m = pat.len() as int;
        let n = s.len() as int;
        if occurs_at(s, 0, pat) {
            let rest = s.subrange(m, n);
            assert forall|i: int| 0 <= i < rest.len() implies #[trigger] rest[i] != c by {
                assert(rest[i] == s[i + m]);
            }
            lemma_substitute_free_of(rest, pat, to, c);
            let filled = substitute(rest, pat, to);
            assert forall|i: int| 0 <= i < (to + filled).len() implies #[trigger] (to + filled)[i]
                != c by {
                if i < to.len() {
                    assert((to + filled)[i] == to[i]);
                } else {
                    assert((to + filled)[i] == filled[i - to.len()]);
                }
            }
        } else {
            let rest = s.subrange(1, n);
            assert forall|i: int| 0 <= i < rest.len() implies #[trigger] rest[i] != c by {
                assert(rest[i] == s[i + 1]);
            }
            lemma_substitute_free_of(rest, pat, to, c);
            let filled = substitute(rest, pat, to);
            let head = seq![s[0]];
            assert forall|i: int| 0 <= i < (head + filled).len() implies #[trigger] (head
                + filled)[i] != c by {
                if i < 1 {
                    assert((head + filled)[i] == s[0]);
                } else {
                    assert((head + filled)[i] == filled[i - 1]);
                }
            }
        }
    }
}

} // verus!
