//! Character-level text handling: whitespace, trimming and line boundaries.
//!
//! Texts are modelled as `Seq<char>`. The executable helpers work on a window
//! `[lo, hi)` of a `Vec<char>`, so that a chain of trims and strips moves two
//! indices and copies nothing.

use vstd::prelude::*;

verus! {

/// Whether `c` is a white-space character: the code points with the Unicode
/// property `White_Space`, which is what trimming a `str` removes.
pub open spec fn is_whitespace(c: char) -> bool {
    let n = c as u32;
    ||| 0x09 <= n <= 0x0D
    ||| n == 0x20
    ||| n == 0x85
    ||| n == 0xA0
    ||| n == 0x1680
    ||| 0x2000 <= n <= 0x200A
    ||| n == 0x2028
    ||| n == 0x2029
    ||| n == 0x202F
    ||| n == 0x205F
    ||| n == 0x3000
}

/// Whether every character of `s` is white space. The empty text is blank.
pub open spec fn is_blank(s: Seq<char>) -> bool {
    forall|i: int| 0 <= i < s.len() ==> is_whitespace(#[trigger] s[i])
}

/// How many white-space characters `s` begins with.
pub open spec fn leading_whitespace(s: Seq<char>) -> nat
    decreases s.len(),
{
    if s.len() > 0 && is_whitespace(s.first()) {
        1 + leading_whitespace(s.drop_first())
    } else {
        0
    }
}

/// How many white-space characters `s` ends with.
pub open spec fn trailing_whitespace(s: Seq<char>) -> nat
    decreases s.len(),
{
    if s.len() > 0 && is_whitespace(s.last()) {
        1 + trailing_whitespace(s.drop_last())
    } else {
        0
    }
}

/// `s` without its leading white space.
pub open spec fn trim_start(s: Seq<char>) -> Seq<char> {
    s.skip(leading_whitespace(s) as int)
}

/// `s` without its trailing white space.
pub open spec fn trim_end(s: Seq<char>) -> Seq<char> {
    s.take(s.len() - trailing_whitespace(s))
}

/// `s` without its leading and trailing white space.
pub open spec fn trim(s: Seq<char>) -> Seq<char> {
    trim_end(trim_start(s))
}

/// Whether `s` neither begins nor ends with white space.
pub open spec fn is_trimmed(s: Seq<char>) -> bool {
    s.len() > 0 ==> !is_whitespace(s.first()) && !is_whitespace(s.last())
}

/// Length of the first line of `s`: the index of its first line feed, or the
/// length of `s` where it holds none.
pub open spec fn line_end(s: Seq<char>) -> nat
    decreases s.len(),
{
    if s.len() == 0 || s.first() == '\n' {
        0
    } else {
        1 + line_end(s.drop_first())
    }
}

/// The leading white space of `s` is a run of white space that stops at the
/// first other character.
pub proof fn lemma_leading_whitespace(s: Seq<char>)
    ensures
        leading_whitespace(s) <= s.len(),
        forall|i: int| 0 <= i < leading_whitespace(s) ==> is_whitespace(#[trigger] s[i]),
        leading_whitespace(s) < s.len() ==> !is_whitespace(s[leading_whitespace(s) as int]),
    decreases s.len(),
{
    if s.len() > 0 && is_whitespace(s.first()) {
        let t = s.drop_first();
        lemma_leading_whitespace(t);
        assert forall|i: int| 0 <= i < leading_whitespace(s) implies is_whitespace(
            #[trigger] s[i],
        ) by {
            if i > 0 {
                assert(s[i] == t[i - 1]);
            }
        }
        if leading_whitespace(s) < s.len() {
            assert(s[leading_whitespace(s) as int] == t[leading_whitespace(t) as int]);
        }
    }
}

/// A run of `k` white-space characters at the start of `s` that stops at
/// another character, or at the end, is the leading white space of `s`.
pub proof fn lemma_leading_whitespace_is(s: Seq<char>, k: int)
    requires
        0 <= k <= s.len(),
        forall|i: int| 0 <= i < k ==> is_whitespace(#[trigger] s[i]),
        k < s.len() ==> !is_whitespace(s[k]),
    ensures
        leading_whitespace(s) == k,
    decreases s.len(),
{
    if k > 0 {
        let t = s.drop_first();
        assert(is_whitespace(s[0]));
        assert forall|i: int| 0 <= i < k - 1 implies is_whitespace(#[trigger] t[i]) by {
            assert(t[i] == s[i + 1]);
        }
        if k - 1 < t.len() {
            assert(t[k - 1] == s[k]);
        }
        lemma_leading_whitespace_is(t, k - 1);
    }
}

/// The trailing white space of `s` is a run of white space that begins right
/// after the last other character.
pub proof fn lemma_trailing_whitespace(s: Seq<char>)
    ensures
        trailing_whitespace(s) <= s.len(),
        forall|i: int|
            s.len() - trailing_whitespace(s) <= i < s.len() ==> is_whitespace(#[trigger] s[i]),
        trailing_whitespace(s) < s.len() ==> !is_whitespace(
            s[s.len() - trailing_whitespace(s) - 1],
        ),
    decreases s.len(),
{
    if s.len() > 0 && is_whitespace(s.last()) {
        let t = s.drop_last();
        lemma_trailing_whitespace(t);
        assert forall|i: int|
            s.len() - trailing_whitespace(s) <= i < s.len() implies is_whitespace(
            #[trigger] s[i],
        ) by {
            if i < s.len() - 1 {
                assert(s[i] == t[i]);
            }
        }
        if trailing_whitespace(s) < s.len() {
            assert(s[s.len() - trailing_whitespace(s) - 1] == t[t.len() - trailing_whitespace(t)
                - 1]);
        }
    }
}

/// A run of `k` white-space characters at the end of `s` that begins after
/// another character, or at the start, is the trailing white space of `s`.
pub proof fn lemma_trailing_whitespace_is(s: Seq<char>, k: int)
    requires
        0 <= k <= s.len(),
        forall|i: int| s.len() - k <= i < s.len() ==> is_whitespace(#[trigger] s[i]),
        k < s.len() ==> !is_whitespace(s[s.len() - k - 1]),
    ensures
        trailing_whitespace(s) == k,
    decreases s.len(),
{
    if k > 0 {
        let t = s.drop_last();
        assert(is_whitespace(s[s.len() - 1]));
        assert forall|i: int| t.len() - (k - 1) <= i < t.len() implies is_whitespace(
            #[trigger] t[i],
        ) by {
            assert(t[i] == s[i]);
        }
        if k - 1 < t.len() {
            assert(t[t.len() - (k - 1) - 1] == s[s.len() - k - 1]);
        }
        lemma_trailing_whitespace_is(t, k - 1);
    }
}

/// Trimming cuts a window out of the text: what lies before and after the
/// window is white space, and the window neither begins nor ends with any.
pub proof fn lemma_trim_window(s: Seq<char>) -> (w: (int, int))
    ensures
        0 <= w.0 <= w.1 <= s.len(),
        trim(s) == s.subrange(w.0, w.1),
        is_blank(s.subrange(0, w.0)),
        is_blank(s.subrange(w.1, s.len() as int)),
        is_trimmed(trim(s)),
{
    lemma_leading_whitespace(s);
    let a = leading_whitespace(s) as int;
    let t = trim_start(s);
    lemma_trailing_whitespace(t);
    let b = s.len() - trailing_whitespace(t);
    assert(trim(s) =~= s.subrange(a, b));
    assert forall|i: int| 0 <= i < s.len() - b implies is_whitespace(
        #[trigger] s.subrange(b, s.len() as int)[i],
    ) by {
        assert(s[b + i] == t[b + i - a]);
    }
    if trim(s).len() > 0 {
        assert(trim(s).first() == s[a]);
        assert(trim(s).last() == t[t.len() - trailing_whitespace(t) - 1]);
    }
    (a, b)
}

/// A text that neither begins nor ends with white space is its own trim.
pub proof fn lemma_trim_of_trimmed(s: Seq<char>)
    requires
        is_trimmed(s),
    ensures
        trim(s) == s,
{
    assert(trim_start(s) =~= s);
    assert(trim_end(s) =~= s);
}

/// Trimming twice is trimming once.
pub proof fn lemma_trim_idempotent(s: Seq<char>)
    ensures
        trim(trim(s)) == trim(s),
{
    lemma_trim_window(s);
    lemma_trim_of_trimmed(trim(s));
}

/// A text is blank exactly when nothing is left of it after trimming.
pub proof fn lemma_blank_iff_trim_empty(s: Seq<char>)
    ensures
        is_blank(s) <==> trim(s).len() == 0,
{
    let w = lemma_trim_window(s);
    if is_blank(s) {
        if trim(s).len() > 0 {
            assert(trim(s).first() == s[w.0]);
        }
    } else {
        let i = choose|i: int| 0 <= i < s.len() && !is_whitespace(s[i]);
        if i < w.0 {
            assert(s.subrange(0, w.0)[i] == s[i]);
        } else if i >= w.1 {
            assert(s.subrange(w.1, s.len() as int)[i - w.1] == s[i]);
        }
    }
}

/// The first line of `s` holds no line feed and ends at one, or at the end
/// of `s`.
pub proof fn lemma_line_end(s: Seq<char>)
    ensures
        line_end(s) <= s.len(),
        forall|i: int| 0 <= i < line_end(s) ==> #[trigger] s[i] != '\n',
        line_end(s) < s.len() ==> s[line_end(s) as int] == '\n',
    decreases s.len(),
{
    if !(s.len() == 0 || s.first() == '\n') {
        let t = s.drop_first();
        lemma_line_end(t);
        assert forall|i: int| 0 <= i < line_end(s) implies #[trigger] s[i] != '\n' by {
            if i > 0 {
                assert(s[i] == t[i - 1]);
            }
        }
        if line_end(s) < s.len() {
            assert(s[line_end(s) as int] == t[line_end(t) as int]);
        }
    }
}

/// `k` characters without a line feed, followed by a line feed or by the end
/// of `s`, are the first line of `s`.
pub proof fn lemma_line_end_is(s: Seq<char>, k: int)
    requires
        0 <= k <= s.len(),
        forall|i: int| 0 <= i < k ==> #[trigger] s[i] != '\n',
        k < s.len() ==> s[k] == '\n',
    ensures
        line_end(s) == k,
    decreases s.len(),
{
    if k > 0 {
        let t = s.drop_first();
        assert(s[0] != '\n');
        assert forall|i: int| 0 <= i < k - 1 implies #[trigger] t[i] != '\n' by {
            assert(t[i] == s[i + 1]);
        }
        if k - 1 < t.len() {
            assert(t[k - 1] == s[k]);
        }
        lemma_line_end_is(t, k - 1);
    }
}

/// Tells whether `c` is a white-space character.
pub fn is_whitespace_char(c: char) -> (b: bool)
    ensures
        b == is_whitespace(c),
{
    let n: u32 = c as u32;
    (0x09 <= n && n <= 0x0D) || n == 0x20 || n == 0x85 || n == 0xA0 || n == 0x1680 || (0x2000 <= n
        && n <= 0x200A) || n == 0x2028 || n == 0x2029 || n == 0x202F || n == 0x205F || n == 0x3000
}

/// The characters of `s`, in order.
pub fn to_chars(s: &str) -> (chars: Vec<char>)
    ensures
        chars@ == s@,
{
    let mut chars: Vec<char> = Vec::new();
    for c in it: s.chars()
        invariant
            it.seq() == s@,
            chars@ == s@.take(it.index() as int),
    {
        chars.push(c);
    }
    chars
}

/// Tells whether `s` is empty or white space throughout.
pub fn is_blank_text(s: &str) -> (b: bool)
    ensures
        b == is_blank(s@),
{
    let mut blank = true;
    for c in it: s.chars()
        invariant
            it.seq() == s@,
            blank == is_blank(s@.take(it.index() as int)),
    {
        let ghost before = s@.take(it.index() as int);
        let ghost after = s@.take(it.index() + 1);
        proof {
            assert(after.drop_last() =~= before);
            assert(after.last() == c);
            if is_blank(after) {
                assert forall|i: int| 0 <= i < before.len() implies is_whitespace(
                    #[trigger] before[i],
                ) by {
                    assert(before[i] == after[i]);
                }
            }
            if is_blank(before) && is_whitespace(c) {
                assert forall|i: int| 0 <= i < after.len() implies is_whitespace(
                    #[trigger] after[i],
                ) by {
                    if i < before.len() {
                        assert(after[i] == before[i]);
                    }
                }
            }
        }
        if !is_whitespace_char(c) {
            blank = false;
        }
    }
    proof {
        assert(s@.take(s@.len() as int) =~= s@);
    }
    blank
}

/// Narrows the window `[lo, hi)` of `text` to its trim: the new window begins
/// behind the leading white space of the old one and ends before its
/// trailing white space. A blank window shrinks to nothing at `hi`.
pub fn trim_window(text: &Vec<char>, lo: usize, hi: usize) -> (w: (usize, usize))
    requires
        lo <= hi <= text.len(),
    ensures
        lo <= w.0 <= w.1 <= hi,
        w.0 == lo + leading_whitespace(text@.subrange(lo as int, hi as int)),
        w.1 == hi - trailing_whitespace(trim_start(text@.subrange(lo as int, hi as int))),
        text@.subrange(w.0 as int, w.1 as int) == trim(text@.subrange(lo as int, hi as int)),
{
    let mut a = lo;
    while a < hi && is_whitespace_char(text[a])
        invariant
            lo <= a <= hi <= text.len(),
            forall|i: int| lo <= i < a ==> is_whitespace(#[trigger] text@[i]),
        decreases hi - a,
    {
        a += 1;
    }
    let mut b = hi;
    while b > a && is_whitespace_char(text[b - 1])
        invariant
            a <= b <= hi <= text.len(),
            forall|i: int| b <= i < hi ==> is_whitespace(#[trigger] text@[i]),
        decreases b - a,
    {
        b -= 1;
    }
    proof {
        let s = text@.subrange(lo as int, hi as int);
        assert forall|i: int| 0 <= i < a - lo implies is_whitespace(#[trigger] s[i]) by {
            assert(s[i] == text@[lo + i]);
        }
        lemma_leading_whitespace_is(s, a - lo);
        let t = trim_start(s);
        assert(t =~= text@.subrange(a as int, hi as int));
        assert forall|i: int| t.len() - (hi - b) <= i < t.len() implies is_whitespace(
            #[trigger] t[i],
        ) by {
            assert(t[i] == text@[a + i]);
        }
        lemma_trailing_whitespace_is(t, hi - b);
        assert(trim_end(t) =~= text@.subrange(a as int, b as int));
    }
    (a, b)
}

/// Tells whether the window `[lo, hi)` of `text` begins with `pattern`.
pub fn window_starts_with(text: &Vec<char>, lo: usize, hi: usize, pattern: &Vec<char>) -> (b:
    bool)
    requires
        lo <= hi <= text.len(),
    ensures
        b == pattern@.is_prefix_of(text@.subrange(lo as int, hi as int)),
{
    let n = pattern.len();
    if n > hi - lo {
        return false;
    }
    let ghost window = text@.subrange(lo as int, hi as int);
    let mut i: usize = 0;
    while i < n
        invariant
            i <= n == pattern.len(),
            n <= hi - lo,
            lo <= hi <= text.len(),
            window == text@.subrange(lo as int, hi as int),
            forall|j: int| 0 <= j < i ==> pattern@[j] == #[trigger] window[j],
        decreases n - i,
    {
        if pattern[i] != text[lo + i] {
            proof {
                assert(window.subrange(0, n as int)[i as int] == text@[lo + i]);
            }
            return false;
        }
        i += 1;
    }
    proof {
        assert(pattern@ =~= window.subrange(0, n as int));
    }
    true
}

/// Tells whether the window `[lo, hi)` of `text` ends with `pattern`.
pub fn window_ends_with(text: &Vec<char>, lo: usize, hi: usize, pattern: &Vec<char>) -> (b: bool)
    requires
        lo <= hi <= text.len(),
    ensures
        b == pattern@.is_suffix_of(text@.subrange(lo as int, hi as int)),
{
    let n = pattern.len();
    if n > hi - lo {
        return false;
    }
    let from = hi - n;
    let ghost window = text@.subrange(lo as int, hi as int);
    let mut i: usize = 0;
    while i < n
        invariant
            i <= n == pattern.len(),
            n <= hi - lo,
            from == hi - n,
            lo <= hi <= text.len(),
            window == text@.subrange(lo as int, hi as int),
            forall|j: int| 0 <= j < i ==> #[trigger] pattern@[j] == text@[from + j],
        decreases n - i,
    {
        if pattern[i] != text[from + i] {
            proof {
                assert(window.subrange(window.len() - n, window.len() as int)[i as int]
                    == text@[from + i]);
            }
            return false;
        }
        i += 1;
    }
    proof {
        let tail = window.subrange(window.len() - n, window.len() as int);
        assert forall|j: int| 0 <= j < n implies pattern@[j] == tail[j] by {
            assert(tail[j] == text@[from + j]);
        }
        assert(pattern@ =~= tail);
    }
    true
}

} // verus!
