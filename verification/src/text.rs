//! Character-level text handling: trimming, searching and replacing, over
//! the `Seq<char>` view of strings.
use vstd::prelude::*;
use vstd::string::*;

verus! {

// ---------------------------------------------------------------------------
// Unicode character classes, as `char` reports them.
// ---------------------------------------------------------------------------

/// Whether a char has the Unicode `White_Space` property (what
/// `char::is_whitespace` reports): U+0009 to U+000D, U+0020, U+0085, U+00A0,
/// U+1680, U+2000 to U+200A, U+2028, U+2029, U+202F, U+205F and U+3000.
pub open spec fn whitespace_char(c: char) -> bool {
    let n = c as u32;
    ||| 0x9 <= n <= 0xd
    ||| n == 0x20
    ||| n == 0x85
    ||| n == 0xa0
    ||| n == 0x1680
    ||| 0x2000 <= n <= 0x200a
    ||| n == 0x2028
    ||| n == 0x2029
    ||| n == 0x202f
    ||| n == 0x205f
    ||| n == 0x3000
}

/// Whether a char has the Unicode `Alphabetic` property (`char::is_alphabetic`).
pub uninterp spec fn alphabetic_char(c: char) -> bool;

/// Whether a char is in the Unicode general categories `Nd`, `Nl` or `No`
/// (`char::is_numeric`).
pub uninterp spec fn numeric_char(c: char) -> bool;

/// Whether a char has the Unicode `Uppercase` property (`char::is_uppercase`).
pub uninterp spec fn uppercase_char(c: char) -> bool;

/// Whether a char has the Unicode `White_Space` property.
pub fn is_whitespace(c: char) -> (r: bool)
    ensures
        r == whitespace_char(c),
{
    let n: u32 = c as u32;
    (0x9 <= n && n <= 0xd) || n == 0x20 || n == 0x85 || n == 0xa0 || n == 0x1680 || (0x2000 <= n
        && n <= 0x200a) || n == 0x2028 || n == 0x2029 || n == 0x202f || n == 0x205f || n == 0x3000
}

/// Calls `char::is_alphabetic`; its answer is named `alphabetic_char`.
#[verifier::external_body]
pub(crate) fn is_alphabetic(c: char) -> (r: bool)
    ensures
        r == alphabetic_char(c),
{
    c.is_alphabetic()
}

/// Calls `char::is_numeric`; its answer is named `numeric_char`.
#[verifier::external_body]
pub(crate) fn is_numeric(c: char) -> (r: bool)
    ensures
        r == numeric_char(c),
{
    c.is_numeric()
}

/// Calls `char::is_uppercase`; its answer is named `uppercase_char`.
#[verifier::external_body]
pub(crate) fn is_uppercase(c: char) -> (r: bool)
    ensures
        r == uppercase_char(c),
{
    c.is_uppercase()
}

// ---------------------------------------------------------------------------
// Specifications
// ---------------------------------------------------------------------------

/// `s` without its leading whitespace.
pub open spec fn trim_start(s: Seq<char>) -> Seq<char>
    decreases s.len(),
{
    if s.len() > 0 && whitespace_char(s[0]) {
        trim_start(s.drop_first())
    } else {
        s
    }
}

/// `s` without its trailing whitespace.
pub open spec fn trim_end(s: Seq<char>) -> Seq<char>
    decreases s.len(),
{
    if s.len() > 0 && whitespace_char(s.last()) {
        trim_end(s.drop_last())
    } else {
        s
    }
}

/// `s` without leading and trailing whitespace (what `str::trim` gives).
pub open spec fn trimmed(s: Seq<char>) -> Seq<char> {
    trim_end(trim_start(s))
}

/// `s` holds the char `c` somewhere.
pub open spec fn has_char(s: Seq<char>, c: char) -> bool {
    exists|i: int| 0 <= i < s.len() && s[i] == c
}

/// `i` is the position of the first `c` in `s`.
pub open spec fn first_occurrence(s: Seq<char>, c: char, i: int) -> bool {
    &&& 0 <= i < s.len()
    &&& s[i] == c
    &&& forall|j: int| 0 <= j < i ==> s[j] != c
}

/// Every non-overlapping occurrence of `pat` in `s`, found from the left,
/// replaced by `rep` (what `str::replace` gives for a non-empty pattern).
pub open spec fn replace_all(s: Seq<char>, pat: Seq<char>, rep: Seq<char>) -> Seq<char>
    decreases s.len(),
{
    if pat.len() == 0 || s.len() < pat.len() {
        s
    } else if s.take(pat.len() as int) == pat {
        rep + replace_all(s.skip(pat.len() as int), pat, rep)
    } else {
        seq![s[0]] + replace_all(s.drop_first(), pat, rep)
    }
}

// ---------------------------------------------------------------------------
// Lemmas
// ---------------------------------------------------------------------------

proof fn lemma_trim_start_step(s: Seq<char>, i: int)
    requires
        0 <= i < s.len(),
        whitespace_char(s[i]),
    ensures
        trim_start(s.skip(i)) == trim_start(s.skip(i + 1)),
{
    assert(s.skip(i).drop_first() =~= s.skip(i + 1));
}

proof fn lemma_trim_end_step(s: Seq<char>, a: int, b: int)
    requires
        0 <= a < b <= s.len(),
        whitespace_char(s[b - 1]),
    ensures
        trim_end(s.subrange(a, b)) == trim_end(s.subrange(a, b - 1)),
{
    assert(s.subrange(a, b).drop_last() =~= s.subrange(a, b - 1));
}

proof fn lemma_replace_all_step(s: Seq<char>, pat: Seq<char>, rep: Seq<char>, i: int)
    requires
        pat.len() > 0,
        0 <= i,
        i + pat.len() <= s.len(),
    ensures
        s.subrange(i, i + pat.len()) == pat ==> replace_all(s.skip(i), pat, rep) == rep
            + replace_all(s.skip(i + pat.len()), pat, rep),
        s.subrange(i, i + pat.len()) != pat ==> replace_all(s.skip(i), pat, rep) == seq![s[i]]
            + replace_all(s.skip(i + 1), pat, rep),
{
    assert(s.skip(i).take(pat.len() as int) =~= s.subrange(i, i + pat.len()));
    assert(s.skip(i).skip(pat.len() as int) =~= s.skip(i + pat.len()));
    assert(s.skip(i).drop_first() =~= s.skip(i + 1));
}

proof fn lemma_trim_start_shape(s: Seq<char>)
    ensures
        trim_start(s).len() == 0 || !whitespace_char(trim_start(s)[0]),
    decreases s.len(),
{
    if s.len() > 0 && whitespace_char(s[0]) {
        lemma_trim_start_shape(s.drop_first());
    }
}

proof fn lemma_trim_end_shape(s: Seq<char>)
    ensures
        trim_end(s).len() == 0 || !whitespace_char(trim_end(s).last()),
        trim_end(s).len() <= s.len(),
        trim_end(s) == s.take(trim_end(s).len() as int),
    decreases s.len(),
{
    if s.len() > 0 && whitespace_char(s.last()) {
        lemma_trim_end_shape(s.drop_last());
        assert(s.drop_last().take(trim_end(s).len() as int) =~= s.take(trim_end(s).len() as int));
    } else {
        assert(s.take(s.len() as int) =~= s);
    }
}

/// Trimming twice gives what trimming once gives.
pub proof fn lemma_trimmed_idempotent(s: Seq<char>)
    ensures
        trimmed(trimmed(s)) == trimmed(s),
{
    let x = trim_start(s);
    let y = trim_end(x);
    lemma_trim_start_shape(s);
    lemma_trim_end_shape(x);
    lemma_trim_end_shape(y);
    if y.len() > 0 {
        assert(y[0] == x[0]);
    }
    assert(trim_start(y) == y);
    if y.len() > 0 {
        assert(!whitespace_char(y.last()));
    }
    assert(trim_end(y) == y);
}

/// `(i, j)` bounds the text of `s` between its leading and its trailing
/// whitespace: everything before `i` and from `j` on is whitespace, and a
/// non-empty middle begins and ends with a non-whitespace char.
pub open spec fn trim_window(s: Seq<char>, i: int, j: int) -> bool {
    &&& 0 <= i <= j <= s.len()
    &&& forall|k: int| 0 <= k < i ==> whitespace_char(#[trigger] s[k])
    &&& forall|k: int| j <= k < s.len() ==> whitespace_char(#[trigger] s[k])
    &&& i < j ==> !whitespace_char(s[i]) && !whitespace_char(s[j - 1])
}

/// Every char of `w` is whitespace.
pub open spec fn all_whitespace(w: Seq<char>) -> bool {
    forall|k: int| 0 <= k < w.len() ==> whitespace_char(#[trigger] w[k])
}

proof fn lemma_trim_start_at(s: Seq<char>, i: int)
    requires
        0 <= i <= s.len(),
        forall|k: int| 0 <= k < i ==> whitespace_char(#[trigger] s[k]),
        i < s.len() ==> !whitespace_char(s[i]),
    ensures
        trim_start(s) == s.skip(i),
    decreases i,
{
    if i == 0 {
        assert(s.skip(0) =~= s);
    } else {
        assert(whitespace_char(s[0]));
        let t = s.drop_first();
        assert forall|k: int| 0 <= k < i - 1 implies whitespace_char(#[trigger] t[k]) by {
            assert(t[k] == s[k + 1]);
        }
        if i - 1 < t.len() {
            assert(t[i - 1] == s[i]);
        }
        lemma_trim_start_at(t, i - 1);
        assert(t.skip(i - 1) =~= s.skip(i));
    }
}

proof fn lemma_trim_end_at(t: Seq<char>, m: int)
    requires
        0 <= m <= t.len(),
        forall|k: int| m <= k < t.len() ==> whitespace_char(#[trigger] t[k]),
        m > 0 ==> !whitespace_char(t[m - 1]),
    ensures
        trim_end(t) == t.take(m),
    decreases t.len() - m,
{
    if m == t.len() {
        assert(t.take(m) =~= t);
        if t.len() > 0 {
            assert(t.last() == t[m - 1]);
        }
    } else {
        assert(whitespace_char(t[t.len() - 1]));
        let u = t.drop_last();
        assert forall|k: int| m <= k < u.len() implies whitespace_char(#[trigger] u[k]) by {
            assert(u[k] == t[k]);
        }
        if m > 0 {
            assert(u[m - 1] == t[m - 1]);
        }
        lemma_trim_end_at(u, m);
        assert(u.take(m) =~= t.take(m));
    }
}

/// Trimming keeps exactly the text inside the whitespace that surrounds it.
pub proof fn lemma_trimmed_is_window(s: Seq<char>, i: int, j: int)
    requires
        trim_window(s, i, j),
    ensures
        trimmed(s) == s.subrange(i, j),
{
    if i < j {
        lemma_trim_start_at(s, i);
        let t = s.skip(i);
        assert forall|k: int| j - i <= k < t.len() implies whitespace_char(#[trigger] t[k]) by {
            assert(t[k] == s[k + i]);
        }
        assert(t[j - i - 1] == s[j - 1]);
        lemma_trim_end_at(t, j - i);
        assert(t.take(j - i) =~= s.subrange(i, j));
    } else {
        assert forall|k: int| 0 <= k < s.len() implies whitespace_char(#[trigger] s[k]) by {
            if k >= j {
            } else {
                assert(k < i);
            }
        }
        lemma_trim_start_at(s, s.len() as int);
        assert(s.skip(s.len() as int) =~= Seq::<char>::empty());
        assert(s.subrange(i, j) =~= Seq::<char>::empty());
    }
}

proof fn lemma_trim_start_prefix(s: Seq<char>) -> (a: int)
    ensures
        0 <= a <= s.len(),
        trim_start(s) == s.skip(a),
        forall|k: int| 0 <= k < a ==> whitespace_char(#[trigger] s[k]),
    decreases s.len(),
{
    if s.len() > 0 && whitespace_char(s[0]) {
        let t = s.drop_first();
        let b = lemma_trim_start_prefix(t);
        assert(t.skip(b) =~= s.skip(b + 1));
        assert forall|k: int| 0 <= k < b + 1 implies whitespace_char(#[trigger] s[k]) by {
            if k > 0 {
                assert(s[k] == t[k - 1]);
            }
        }
        b + 1
    } else {
        assert(s.skip(0) =~= s);
        0
    }
}

proof fn lemma_trim_end_prefix(s: Seq<char>) -> (m: int)
    ensures
        0 <= m <= s.len(),
        trim_end(s) == s.take(m),
        forall|k: int| m <= k < s.len() ==> whitespace_char(#[trigger] s[k]),
    decreases s.len(),
{
    if s.len() > 0 && whitespace_char(s.last()) {
        let t = s.drop_last();
        let m = lemma_trim_end_prefix(t);
        assert(t.take(m) =~= s.take(m));
        assert forall|k: int| m <= k < s.len() implies whitespace_char(#[trigger] s[k]) by {
            if k < t.len() {
                assert(s[k] == t[k]);
            }
        }
        m
    } else {
        assert(s.take(s.len() as int) =~= s);
        s.len() as int
    }
}

/// Every text has a window between its leading and trailing whitespace, and
/// trimming gives that window: what is trimmed away is whitespace, and what
/// is kept neither begins nor ends with whitespace.
pub proof fn lemma_trimmed_window_exists(s: Seq<char>)
    ensures
        exists|i: int, j: int| trim_window(s, i, j) && trimmed(s) == s.subrange(i, j),
        trimmed(s).len() == 0 || (!whitespace_char(trimmed(s)[0]) && !whitespace_char(
            trimmed(s).last(),
        )),
{
    let a = lemma_trim_start_prefix(s);
    let t = s.skip(a);
    let m = lemma_trim_end_prefix(t);
    lemma_trim_start_shape(s);
    lemma_trim_end_shape(t);
    assert forall|k: int| a + m <= k < s.len() implies whitespace_char(#[trigger] s[k]) by {
        assert(s[k] == t[k - a]);
    }
    if m > 0 {
        assert(t[0] == s[a]);
        assert(trim_end(t).last() == t[m - 1]);
        assert(t[m - 1] == s[a + m - 1]);
    }
    assert(t.take(m) =~= s.subrange(a, a + m));
    assert(trim_window(s, a, a + m));
}

/// Whitespace added before or after a text is trimmed away with the rest.
pub proof fn lemma_trimmed_ignores_padding(w1: Seq<char>, e: Seq<char>, w2: Seq<char>)
    requires
        all_whitespace(w1),
        all_whitespace(w2),
    ensures
        trimmed(w1 + e + w2) == trimmed(e),
{
    lemma_trimmed_window_exists(e);
    let (i, j) = choose|i: int, j: int| trim_window(e, i, j) && trimmed(e) == e.subrange(i, j);
    let s = w1 + e + w2;
    let n = w1.len() as int;
    if i < j {
        assert forall|k: int| 0 <= k < n + i implies whitespace_char(#[trigger] s[k]) by {
            if k < n {
                assert(s[k] == w1[k]);
            } else {
                assert(s[k] == e[k - n]);
            }
        }
        assert forall|k: int| n + j <= k < s.len() implies whitespace_char(#[trigger] s[k]) by {
            if k < n + e.len() {
                assert(s[k] == e[k - n]);
            } else {
                assert(s[k] == w2[k - n - e.len()]);
            }
        }
        assert(s[n + i] == e[i]);
        assert(s[n + j - 1] == e[j - 1]);
        assert(trim_window(s, n + i, n + j));
        lemma_trimmed_is_window(s, n + i, n + j);
        assert(s.subrange(n + i, n + j) =~= e.subrange(i, j));
    } else {
        assert forall|k: int| 0 <= k < s.len() implies whitespace_char(#[trigger] s[k]) by {
            if k < n {
                assert(s[k] == w1[k]);
            } else if k < n + e.len() {
                assert(s[k] == e[k - n]);
                if k - n >= j {
                } else {
                    assert(k - n < i);
                }
            } else {
                assert(s[k] == w2[k - n - e.len()]);
            }
        }
        assert(trim_window(s, 0, 0));
        lemma_trimmed_is_window(s, 0, 0);
        assert(s.subrange(0, 0) =~= e.subrange(i, j));
    }
}

/// `pat` occurs in `s` at position `p`.
pub open spec fn occurs_at(s: Seq<char>, pat: Seq<char>, p: int) -> bool {
    0 <= p && p + pat.len() <= s.len() && s.subrange(p, p + pat.len()) == pat
}

/// Replacing in a text where the pattern does not occur leaves it unchanged.
pub proof fn lemma_replace_all_absent(s: Seq<char>, pat: Seq<char>, rep: Seq<char>)
    requires
        pat.len() > 0,
        forall|p: int| !occurs_at(s, pat, p),
    ensures
        replace_all(s, pat, rep) == s,
    decreases s.len(),
{
    if s.len() >= pat.len() {
        assert(!occurs_at(s, pat, 0));
        assert(s.take(pat.len() as int) =~= s.subrange(0, pat.len() as int));
        let t = s.drop_first();
        assert forall|p: int| !occurs_at(t, pat, p) by {
            if occurs_at(t, pat, p) {
                assert(s.subrange(p + 1, p + 1 + pat.len()) =~= t.subrange(p, p + pat.len()));
                assert(occurs_at(s, pat, p + 1));
            }
        }
        lemma_replace_all_absent(t, pat, rep);
        assert(seq![s[0]] + t =~= s);
    }
}

/// Replacing in `a + pat + b`, where no occurrence of `pat` begins inside
/// `a`, gives `a`, then `rep`, then the replacement in `b`.
pub proof fn lemma_replace_all_split(a: Seq<char>, pat: Seq<char>, b: Seq<char>, rep: Seq<char>)
    requires
        pat.len() > 0,
        forall|p: int| 0 <= p < a.len() ==> !occurs_at(a + pat, pat, p),
    ensures
        replace_all(a + pat + b, pat, rep) == a + rep + replace_all(b, pat, rep),
    decreases a.len(),
{
    let s = a + pat + b;
    if a.len() == 0 {
        assert(s.take(pat.len() as int) =~= pat);
        assert(s.skip(pat.len() as int) =~= b);
        assert(a + rep + replace_all(b, pat, rep) =~= rep + replace_all(b, pat, rep));
    } else {
        assert(!occurs_at(a + pat, pat, 0));
        assert(s.take(pat.len() as int) =~= (a + pat).subrange(0, pat.len() as int));
        let a2 = a.drop_first();
        assert forall|p: int| 0 <= p < a2.len() implies !occurs_at(a2 + pat, pat, p) by {
            assert(!occurs_at(a + pat, pat, p + 1));
            assert((a + pat).subrange(p + 1, p + 1 + pat.len()) =~= (a2 + pat).subrange(
                p,
                p + pat.len(),
            ));
        }
        lemma_replace_all_split(a2, pat, b, rep);
        assert(s.drop_first() =~= a2 + pat + b);
        assert(seq![s[0]] + (a2 + rep + replace_all(b, pat, rep)) =~= a + rep + replace_all(
            b,
            pat,
            rep,
        ));
    }
}

// ---------------------------------------------------------------------------
// Executable helpers
// ---------------------------------------------------------------------------

/// The chars of `s`, in order.
pub fn chars_of(s: &str) -> (v: Vec<char>)
    ensures
        v@ == s@,
{
    let mut v: Vec<char> = Vec::new();
    for c in it: s.chars()
        invariant
            v@ == it.seq().take(it.index() as int),
            it.seq() == s@,
    {
        v.push(c);
    }
    v
}

/// Whether two strings hold the same chars.
pub fn same_text(a: &str, b: &str) -> (r: bool)
    ensures
        r == (a@ == b@),
{
    let x = chars_of(a);
    let y = chars_of(b);
    if x.len() != y.len() {
        return false;
    }
    let mut i: usize = 0;
    while i < x.len()
        invariant
            x@ == a@,
            y@ == b@,
            x.len() == y.len(),
            i <= x.len(),
            forall|j: int| 0 <= j < i ==> x@[j] == y@[j],
        decreases x.len() - i,
    {
        if x[i] != y[i] {
            return false;
        }
        i = i + 1;
    }
    assert(x@ =~= y@);
    true
}

/// Bounds `(start, end)` of the text of `s` without leading and trailing
/// whitespace.
pub fn trim_bounds(s: &Vec<char>) -> (r: (usize, usize))
    ensures
        r.0 <= r.1 <= s.len(),
        s@.subrange(r.0 as int, r.1 as int) == trimmed(s@),
{
    let mut start: usize = 0;
    assert(s@.skip(0) =~= s@);
    while start < s.len() && is_whitespace(s[start])
        invariant
            start <= s.len(),
            trim_start(s@) == trim_start(s@.skip(start as int)),
        decreases s.len() - start,
    {
        proof {
            lemma_trim_start_step(s@, start as int);
        }
        start = start + 1;
    }
    let mut end: usize = s.len();
    assert(s@.subrange(start as int, end as int) =~= s@.skip(start as int));
    while end > start && is_whitespace(s[end - 1])
        invariant
            start <= end <= s.len(),
            trim_start(s@) == s@.subrange(start as int, s.len() as int),
            trim_end(trim_start(s@)) == trim_end(s@.subrange(start as int, end as int)),
        decreases end,
    {
        proof {
            lemma_trim_end_step(s@, start as int, end as int);
        }
        end = end - 1;
    }
    (start, end)
}

/// Whether `s` holds the char `c`.
pub fn contains_char(s: &Vec<char>, c: char) -> (r: bool)
    ensures
        r == has_char(s@, c),
{
    let mut i: usize = 0;
    while i < s.len()
        invariant
            i <= s.len(),
            forall|j: int| 0 <= j < i ==> s@[j] != c,
        decreases s.len() - i,
    {
        if s[i] == c {
            return true;
        }
        i = i + 1;
    }
    false
}

/// Position of the first `c` in `s`, if any.
pub fn find_char(s: &Vec<char>, c: char) -> (r: Option<usize>)
    ensures
        match r {
            Some(i) => first_occurrence(s@, c, i as int),
            None => !has_char(s@, c),
        },
{
    let mut i: usize = 0;
    while i < s.len()
        invariant
            i <= s.len(),
            forall|j: int| 0 <= j < i ==> s@[j] != c,
        decreases s.len() - i,
    {
        if s[i] == c {
            return Some(i);
        }
        i = i + 1;
    }
    None
}

/// Whether `pat` occurs in `s` at position `i`.
fn matches_at(s: &Vec<char>, pat: &Vec<char>, i: usize) -> (r: bool)
    requires
        i + pat.len() <= s.len(),
    ensures
        r == (s@.subrange(i as int, i + pat.len()) == pat@),
{
    let mut j: usize = 0;
    while j < pat.len()
        invariant
            i + pat.len() <= s.len(),
            j <= pat.len(),
            forall|k: int| 0 <= k < j ==> s@[i + k] == pat@[k],
        decreases pat.len() - j,
    {
        if s[i + j] != pat[j] {
            assert(s@.subrange(i as int, i + pat.len())[j as int] != pat@[j as int]);
            return false;
        }
        j = j + 1;
    }
    assert(s@.subrange(i as int, i + pat.len()) =~= pat@);
    true
}

/// `text` with every non-overlapping occurrence of `pat`, found from the
/// left, replaced by `rep`.
pub fn replace_text(text: &str, pat: &str, rep: &str) -> (r: String)
    requires
        pat@.len() > 0,
    ensures
        r@ == replace_all(text@, pat@, rep@),
{
    let s = chars_of(text);
    let p = chars_of(pat);
    let n: usize = s.len();
    let m: usize = p.len();
    let mut out = String::new();
    let mut seg: usize = 0;
    let mut i: usize = 0;
    assert(text@.skip(0) =~= text@);
    assert(text@.subrange(0, 0) =~= Seq::<char>::empty());
    while m <= n - i
        invariant
            s@ == text@,
            p@ == pat@,
            n == s.len(),
            m == p.len(),
            m > 0,
            seg <= i <= n,
            replace_all(text@, pat@, rep@) == out@ + text@.subrange(seg as int, i as int)
                + replace_all(text@.skip(i as int), pat@, rep@),
        decreases n - i,
    {
        proof {
            lemma_replace_all_step(text@, pat@, rep@, i as int);
        }
        if matches_at(&s, &p, i) {
            let piece = text.substring_char(seg, i);
            out.append(piece);
            out.append(rep);
            i = i + m;
            seg = i;
            assert(text@.subrange(seg as int, i as int) =~= Seq::<char>::empty());
        } else {
            assert(text@.subrange(seg as int, i + 1) =~= text@.subrange(seg as int, i as int)
                + seq![text@[i as int]]);
            i = i + 1;
        }
    }
    assert(text@.subrange(seg as int, i as int) + text@.skip(i as int) =~= text@.subrange(
        seg as int,
        n as int,
    ));
    let rest = text.substring_char(seg, n);
    out.append(rest);
    out
}

/// The Unicode character classes that the password rules ask for.
#[derive(Clone, Copy, Debug, PartialEq, Eq, Structural)]
pub enum CharClass {
    Alphabetic,
    Numeric,
    Uppercase,
}

/// Whether `c` belongs to `class`.
pub open spec fn in_class(c: char, class: CharClass) -> bool {
    match class {
        CharClass::Alphabetic => alphabetic_char(c),
        CharClass::Numeric => numeric_char(c),
        CharClass::Uppercase => uppercase_char(c),
    }
}

/// Some char of `s` belongs to `class`.
pub open spec fn has_class(s: Seq<char>, class: CharClass) -> bool {
    exists|i: int| 0 <= i < s.len() && #[trigger] in_class(s[i], class)
}

/// Whether `c` belongs to `class`.
pub fn char_in_class(c: char, class: CharClass) -> (r: bool)
    ensures
        r == in_class(c, class),
{
    match class {
        CharClass::Alphabetic => is_alphabetic(c),
        CharClass::Numeric => is_numeric(c),
        CharClass::Uppercase => is_uppercase(c),
    }
}

/// Whether some char of `s` belongs to `class`.
pub fn any_in_class(s: &Vec<char>, class: CharClass) -> (r: bool)
    ensures
        r == has_class(s@, class),
{
    let mut i: usize = 0;
    while i < s.len()
        invariant
            i <= s.len(),
            forall|j: int| 0 <= j < i ==> !in_class(#[trigger] s@[j], class),
        decreases s.len() - i,
    {
        if char_in_class(s[i], class) {
            return true;
        }
        i = i + 1;
    }
    false
}

/// The chars of `s` from `start` up to `end`.
pub fn copy_range(s: &Vec<char>, start: usize, end: usize) -> (r: Vec<char>)
    requires
        start <= end <= s.len(),
    ensures
        r@ == s@.subrange(start as int, end as int),
{
    let mut r: Vec<char> = Vec::new();
    let mut i: usize = start;
    while i < end
        invariant
            start <= i <= end <= s.len(),
            r@ == s@.subrange(start as int, i as int),
        decreases end - i,
    {
        r.push(s[i]);
        i = i + 1;
        assert(r@ =~= s@.subrange(start as int, i as int));
    }
    r
}

} // verus!
