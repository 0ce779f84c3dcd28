//! Small string operations on character sequences: Unicode whitespace
//! trimming, suffix tests, prefixes and joining.
use vstd::prelude::*;

verus! {

/// The Unicode `White_Space` property, which is what `char::is_whitespace`
/// tests.
pub open spec fn is_white_space(c: char) -> bool {
    let u: u32 = c as u32;
    ||| 0x9 <= u <= 0xd
    ||| u == 0x20
    ||| u == 0x85
    ||| u == 0xa0
    ||| u == 0x1680
    ||| 0x2000 <= u <= 0x200a
    ||| u == 0x2028
    ||| u == 0x2029
    ||| u == 0x202f
    ||| u == 0x205f
    ||| u == 0x3000
}

/// `s` without its leading whitespace.
pub open spec fn trim_start_seq(s: Seq<char>) -> Seq<char>
    decreases s.len(),
{
    if s.len() > 0 && is_white_space(s[0]) {
        trim_start_seq(s.drop_first())
    } else {
        s
    }
}

/// `s` without its trailing whitespace.
pub open spec fn trim_end_seq(s: Seq<char>) -> Seq<char>
    decreases s.len(),
{
    if s.len() > 0 && is_white_space(s.last()) {
        trim_end_seq(s.drop_last())
    } else {
        s
    }
}

/// `s` without leading and trailing whitespace, as `str::trim` gives it.
pub open spec fn trim_seq(s: Seq<char>) -> Seq<char> {
    trim_end_seq(trim_start_seq(s))
}

/// Whether `s` holds nothing but whitespace.
pub open spec fn is_blank(s: Seq<char>) -> bool {
    forall|i: int| 0 <= i < s.len() ==> is_white_space(#[trigger] s[i])
}

/// Whether `s` ends with `suffix`.
pub open spec fn ends_with_seq(s: Seq<char>, suffix: Seq<char>) -> bool {
    s.len() >= suffix.len() && s.subrange(s.len() - suffix.len(), s.len() as int) == suffix
}

/// `s` without the copies of `c` at its end.
pub open spec fn trim_end_char_seq(s: Seq<char>, c: char) -> Seq<char>
    decreases s.len(),
{
    if s.len() > 0 && s.last() == c {
        trim_end_char_seq(s.drop_last(), c)
    } else {
        s
    }
}

/// The first `n` characters of `s`, or all of `s` when it is shorter.
pub open spec fn take_chars(s: Seq<char>, n: nat) -> Seq<char> {
    if s.len() <= n {
        s
    } else {
        s.take(n as int)
    }
}

/// Whether `c` is Unicode whitespace, as `char::is_whitespace` decides.
pub fn is_whitespace_char(c: char) -> (b: bool)
    ensures
        b == is_white_space(c),
{
    let u: u32 = c as u32;
    (0x9 <= u && u <= 0xd) || u == 0x20 || u == 0x85 || u == 0xa0 || u == 0x1680 || (0x2000 <= u
        && u <= 0x200a) || u == 0x2028 || u == 0x2029 || u == 0x202f || u == 0x205f || u == 0x3000
}

proof fn lemma_trim_start_step(s: Seq<char>, i: int)
    requires
        0 <= i < s.len(),
        is_white_space(s[i]),
    ensures
        trim_start_seq(s.subrange(i, s.len() as int)) == trim_start_seq(
            s.subrange(i + 1, s.len() as int),
        ),
{
    let t = s.subrange(i, s.len() as int);
    assert(t.drop_first() =~= s.subrange(i + 1, s.len() as int));
}

proof fn lemma_trim_end_step(s: Seq<char>, lo: int, hi: int)
    requires
        0 <= lo < hi <= s.len(),
        is_white_space(s[hi - 1]),
    ensures
        trim_end_seq(s.subrange(lo, hi)) == trim_end_seq(s.subrange(lo, hi - 1)),
{
    let t = s.subrange(lo, hi);
    assert(t.drop_last() =~= s.subrange(lo, hi - 1));
}

proof fn lemma_trim_start_blank(s: Seq<char>)
    ensures
        is_blank(s) <==> trim_start_seq(s).len() == 0,
    decreases s.len(),
{
    if s.len() > 0 {
        lemma_trim_start_blank(s.drop_first());
        if is_white_space(s[0]) {
            assert(is_blank(s) <==> is_blank(s.drop_first())) by {
                if is_blank(s.drop_first()) {
                    assert forall|i: int| 0 <= i < s.len() implies is_white_space(s[i]) by {
                        if i > 0 {
                            assert(s[i] == s.drop_first()[i - 1]);
                        }
                    }
                }
            }
        }
    }
}

proof fn lemma_trim_end_empty(s: Seq<char>)
    ensures
        (trim_end_seq(s).len() == 0) <==> (s.len() == 0 || is_blank(s)),
    decreases s.len(),
{
    if s.len() > 0 {
        lemma_trim_end_empty(s.drop_last());
        if is_white_space(s.last()) {
            if is_blank(s.drop_last()) {
                assert forall|i: int| 0 <= i < s.len() implies is_white_space(s[i]) by {
                    if i < s.len() - 1 {
                        assert(s[i] == s.drop_last()[i]);
                    }
                }
            }
        }
    }
}

/// The trimmed text is empty exactly when the text is blank.
pub proof fn lemma_trim_empty_iff_blank(s: Seq<char>)
    ensures
        (trim_seq(s).len() == 0) <==> is_blank(s),
{
    lemma_trim_start_blank(s);
    lemma_trim_end_empty(trim_start_seq(s));
    if trim_start_seq(s).len() > 0 {
        lemma_trim_start_first(s);
    }
}

proof fn lemma_trim_start_first(s: Seq<char>)
    requires
        trim_start_seq(s).len() > 0,
    ensures
        !is_white_space(trim_start_seq(s)[0]),
        !is_blank(trim_start_seq(s)),
    decreases s.len(),
{
    if s.len() > 0 && is_white_space(s[0]) {
        lemma_trim_start_first(s.drop_first());
    }
}

/// `s` with leading and trailing whitespace removed (`str::trim`).
pub fn trim(s: &str) -> (r: String)
    ensures
        r@ == trim_seq(s@),
{
    let n: usize = s.unicode_len();
    let mut start: usize = 0;
    proof {
        assert(s@.subrange(0, n as int) =~= s@);
    }
    while start < n && is_whitespace_char(s.get_char(start))
        invariant
            start <= n,
            n == s@.len(),
            trim_start_seq(s@) == trim_start_seq(s@.subrange(start as int, n as int)),
        decreases n - start,
    {
        proof {
            lemma_trim_start_step(s@, start as int);
        }
        start = start + 1;
    }
    let ghost rest = s@.subrange(start as int, n as int);
    assert(trim_start_seq(s@) == rest) by {
        if rest.len() > 0 {
            assert(rest[0] == s@[start as int]);
        }
    }
    let mut end: usize = n;
    while end > start && is_whitespace_char(s.get_char(end - 1))
        invariant
            start <= end <= n,
            n == s@.len(),
            trim_end_seq(rest) == trim_end_seq(s@.subrange(start as int, end as int)),
            rest == s@.subrange(start as int, n as int),
        decreases end - start,
    {
        proof {
            lemma_trim_end_step(s@, start as int, end as int);
        }
        end = end - 1;
    }
    assert(trim_end_seq(s@.subrange(start as int, end as int)) == s@.subrange(
        start as int,
        end as int,
    )) by {
        let t = s@.subrange(start as int, end as int);
        if t.len() > 0 {
            assert(t.last() == s@[end - 1]);
        }
    }
    String::from_str(s.substring_char(start, end))
}

/// Whether `s` ends with `suffix` (`str::ends_with`).
pub fn ends_with(s: &str, suffix: &str) -> (b: bool)
    ensures
        b == ends_with_seq(s@, suffix@),
{
    let n: usize = s.unicode_len();
    let m: usize = suffix.unicode_len();
    if m > n {
        return false;
    }
    let mut i: usize = 0;
    while i < m
        invariant
            i <= m <= n,
            n == s@.len(),
            m == suffix@.len(),
            forall|j: int| 0 <= j < i ==> s@[n - m + j] == suffix@[j],
        decreases m - i,
    {
        if s.get_char(n - m + i) != suffix.get_char(i) {
            proof {
                let tail = s@.subrange(n - m, n as int);
                assert(tail[i as int] != suffix@[i as int]);
            }
            return false;
        }
        i = i + 1;
    }
    assert(s@.subrange(n - m, n as int) =~= suffix@);
    true
}

/// `s` without the copies of `c` at its end (`str::trim_end_matches` with a
/// single character).
pub fn trim_end_char(s: &str, c: char) -> (r: String)
    ensures
        r@ == trim_end_char_seq(s@, c),
{
    let n: usize = s.unicode_len();
    let mut end: usize = n;
    proof {
        assert(s@.subrange(0, n as int) =~= s@);
    }
    while end > 0 && s.get_char(end - 1) == c
        invariant
            end <= n,
            n == s@.len(),
            trim_end_char_seq(s@, c) == trim_end_char_seq(s@.subrange(0, end as int), c),
        decreases end,
    {
        proof {
            let t = s@.subrange(0, end as int);
            assert(t.drop_last() =~= s@.subrange(0, end - 1));
        }
        end = end - 1;
    }
    proof {
        let t = s@.subrange(0, end as int);
        if t.len() > 0 {
            assert(t.last() == s@[end - 1]);
        }
    }
    String::from_str(s.substring_char(0, end))
}

/// The first `n` characters of `s` (`s.chars().take(n).collect()`).
pub fn prefix_chars(s: &str, n: usize) -> (r: String)
    ensures
        r@ == take_chars(s@, n as nat),
{
    let len: usize = s.unicode_len();
    if len <= n {
        proof {
            assert(s@.subrange(0, len as int) =~= s@);
        }
        String::from_str(s.substring_char(0, len))
    } else {
        String::from_str(s.substring_char(0, n))
    }
}

/// `a` followed by `b`.
pub fn concat_str(a: &str, b: &str) -> (r: String)
    ensures
        r@ == a@ + b@,
{
    let mut r = String::from_str(a);
    r.append(b);
    r
}


/// The views of an optional string.
pub open spec fn opt_view(o: Option<String>) -> Option<Seq<char>> {
    match o {
        Some(s) => Some(s@),
        None => None,
    }
}

/// The trimmed text, or nothing when it is empty after trimming.
pub open spec fn nonempty_trim(s: Seq<char>) -> Option<Seq<char>> {
    if trim_seq(s).len() == 0 {
        None
    } else {
        Some(trim_seq(s))
    }
}

/// Whether `s` holds nothing but whitespace (`s.trim().is_empty()`).
pub fn is_blank_text(s: &str) -> (b: bool)
    ensures
        b == is_blank(s@),
{
    let t = trim(s);
    proof {
        lemma_trim_empty_iff_blank(s@);
    }
    t.as_str().is_empty()
}

/// The trimmed text, or `None` when nothing is left after trimming.
pub fn trimmed_nonempty(s: &str) -> (r: Option<String>)
    ensures
        opt_view(r) == nonempty_trim(s@),
{
    let t = trim(s);
    if t.as_str().is_empty() {
        None
    } else {
        Some(t)
    }
}

/// Removing the copies of `c` at the end of `s` leaves a prefix of `s` that
/// does not end with `c`, and everything removed was `c`.
pub proof fn law_trim_end_char(s: Seq<char>, c: char)
    ensures
        trim_end_char_seq(s, c).len() <= s.len(),
        trim_end_char_seq(s, c) == s.subrange(0, trim_end_char_seq(s, c).len() as int),
        trim_end_char_seq(s, c).len() == 0 || trim_end_char_seq(s, c).last() != c,
        forall|i: int| trim_end_char_seq(s, c).len() <= i < s.len() ==> #[trigger] s[i] == c,
    decreases s.len(),
{
    if s.len() > 0 && s.last() == c {
        law_trim_end_char(s.drop_last(), c);
        let r = trim_end_char_seq(s.drop_last(), c);
        assert(s.drop_last().subrange(0, r.len() as int) =~= s.subrange(0, r.len() as int));
        assert forall|i: int| r.len() <= i < s.len() implies #[trigger] s[i] == c by {
            if i < s.len() - 1 {
                assert(s[i] == s.drop_last()[i]);
            }
        }
    } else {
        assert(s.subrange(0, s.len() as int) =~= s);
    }
}

} // verus!
