//! Small verified text utilities: equality, ASCII case mapping, trimming,
//! decimal formatting, joining and truncation. Everything is specified over
//! `Seq<char>` views.

use vstd::prelude::*;

verus! {

/// Relies on String::push: appends exactly one character to the string.
#[verifier::external_body]
pub fn push_char(s: &mut String, c: char)
    ensures
        final(s)@ == old(s)@.push(c),
{
    s.push(c);
}

/// Character-for-character string equality.
pub fn str_eq(a: &str, b: &str) -> (r: bool)
    ensures
        r == (a@ == b@),
{
    let alen = a.unicode_len();
    let blen = b.unicode_len();
    if alen != blen {
        return false;
    }
    let mut i: usize = 0;
    while i < alen
        invariant
            alen == a@.len(),
            blen == b@.len(),
            alen == blen,
            i <= alen,
            forall|j: int| 0 <= j < i ==> a@[j] == b@[j],
        decreases alen - i,
    {
        if a.get_char(i) != b.get_char(i) {
            return false;
        }
        i = i + 1;
    }
    proof {
        assert(a@ =~= b@);
    }
    true
}

/// ASCII lower-casing of one character; everything else is unchanged.
pub open spec fn lower_char(c: char) -> char {
    if 'A' <= c && c <= 'Z' {
        (((c as u8) + 32) as char)
    } else {
        c
    }
}

/// ASCII upper-casing of one character; everything else is unchanged.
pub open spec fn upper_char(c: char) -> char {
    if 'a' <= c && c <= 'z' {
        (((c as u8) - 32) as char)
    } else {
        c
    }
}

/// A string lower-cased character by character (ASCII letters only).
pub open spec fn lower(s: Seq<char>) -> Seq<char> {
    s.map_values(|c: char| lower_char(c))
}

/// A string upper-cased character by character (ASCII letters only).
pub open spec fn upper(s: Seq<char>) -> Seq<char> {
    s.map_values(|c: char| upper_char(c))
}

/// Lower-case the ASCII letters of a string.
pub fn to_ascii_lower(s: &str) -> (r: String)
    ensures
        r@ == lower(s@),
{
    let n = s.unicode_len();
    let mut out = String::new();
    let mut i: usize = 0;
    while i < n
        invariant
            n == s@.len(),
            i <= n,
            out@ == lower(s@.take(i as int)),
        decreases n - i,
    {
        let c = s.get_char(i);
        let lc = if 'A' <= c && c <= 'Z' {
            ((c as u8) + 32) as char
        } else {
            c
        };
        push_char(&mut out, lc);
        i = i + 1;
        proof {
            assert(out@ =~= lower(s@.take(i as int)));
        }
    }
    proof {
        assert(s@.take(n as int) =~= s@);
    }
    out
}

/// Upper-case the ASCII letters of a string.
pub fn to_ascii_upper(s: &str) -> (r: String)
    ensures
        r@ == upper(s@),
{
    let n = s.unicode_len();
    let mut out = String::new();
    let mut i: usize = 0;
    while i < n
        invariant
            n == s@.len(),
            i <= n,
            out@ == upper(s@.take(i as int)),
        decreases n - i,
    {
        let c = s.get_char(i);
        let uc = if 'a' <= c && c <= 'z' {
            ((c as u8) - 32) as char
        } else {
            c
        };
        push_char(&mut out, uc);
        i = i + 1;
        proof {
            assert(out@ =~= upper(s@.take(i as int)));
        }
    }
    proof {
        assert(s@.take(n as int) =~= s@);
    }
    out
}

/// ASCII whitespace.
pub open spec fn is_ws(c: char) -> bool {
    c == ' ' || c == '\t' || c == '\n' || c == '\r' || c == '\u{c}'
}

/// A string with its leading whitespace removed.
pub open spec fn trim_front(s: Seq<char>) -> Seq<char>
    decreases s.len(),
{
    if s.len() > 0 && is_ws(s[0]) {
        trim_front(s.drop_first())
    } else {
        s
    }
}

/// A string with its trailing whitespace removed.
pub open spec fn trim_back(s: Seq<char>) -> Seq<char>
    decreases s.len(),
{
    if s.len() > 0 && is_ws(s.last()) {
        trim_back(s.drop_last())
    } else {
        s
    }
}

/// A string with leading and trailing whitespace removed.
pub open spec fn trimmed(s: Seq<char>) -> Seq<char> {
    trim_back(trim_front(s))
}

proof fn lemma_trim_front_at(s: Seq<char>, k: int)
    requires
        0 <= k <= s.len(),
        forall|j: int| 0 <= j < k ==> is_ws(s[j]),
        k == s.len() || !is_ws(s[k]),
    ensures
        trim_front(s) == s.subrange(k, s.len() as int),
    decreases k,
{
    if k == 0 {
        assert(trim_front(s) =~= s.subrange(0, s.len() as int));
    } else {
        lemma_trim_front_at(s.drop_first(), k - 1);
        assert(s.drop_first().subrange(k - 1, s.drop_first().len() as int) =~= s.subrange(
            k,
            s.len() as int,
        ));
    }
}

proof fn lemma_trim_back_at(s: Seq<char>, k: int)
    requires
        0 <= k <= s.len(),
        forall|j: int| k <= j < s.len() ==> is_ws(s[j]),
        k == 0 || !is_ws(s[k - 1]),
    ensures
        trim_back(s) == s.subrange(0, k),
    decreases s.len(),
{
    if k == s.len() {
        assert(trim_back(s) =~= s.subrange(0, k));
    } else {
        assert(is_ws(s.last()));
        lemma_trim_back_at(s.drop_last(), k);
        assert(s.drop_last().subrange(0, k) =~= s.subrange(0, k));
    }
}

/// Remove leading and trailing ASCII whitespace.
pub fn trim(s: &str) -> (r: String)
    ensures
        r@ == trimmed(s@),
{
    let n = s.unicode_len();
    let mut lo: usize = 0;
    loop
        invariant_except_break
            n == s@.len(),
            lo <= n,
            forall|j: int| 0 <= j < lo ==> is_ws(s@[j]),
        ensures
            n == s@.len(),
            lo <= n,
            forall|j: int| 0 <= j < lo ==> is_ws(s@[j]),
            lo == n || !is_ws(s@[lo as int]),
        decreases n - lo,
    {
        if lo >= n {
            break;
        }
        if !is_ws_char(s.get_char(lo)) {
            break;
        }
        lo = lo + 1;
    }
    let mut hi: usize = n;
    loop
        invariant_except_break
            n == s@.len(),
            lo <= hi <= n,
            forall|j: int| 0 <= j < lo ==> is_ws(s@[j]),
            lo == n || !is_ws(s@[lo as int]),
            forall|j: int| hi <= j < n ==> is_ws(s@[j]),
        ensures
            n == s@.len(),
            lo <= hi <= n,
            forall|j: int| hi <= j < n ==> is_ws(s@[j]),
            hi == lo || !is_ws(s@[hi - 1]),
        decreases hi,
    {
        if hi <= lo {
            break;
        }
        if !is_ws_char(s.get_char(hi - 1)) {
            break;
        }
        hi = hi - 1;
    }
    proof {
        lemma_trim_front_at(s@, lo as int);
        let sub = s@.subrange(lo as int, n as int);
        lemma_trim_back_at(sub, hi - lo);
        assert(sub.subrange(0, hi - lo) =~= s@.subrange(lo as int, hi as int));
    }
    let part = s.substring_char(lo, hi);
    part.to_owned()
}

/// Executable test for ASCII whitespace.
pub fn is_ws_char(c: char) -> (r: bool)
    ensures
        r == is_ws(c),
{
    c == ' ' || c == '\t' || c == '\n' || c == '\r' || c == '\u{c}'
}

/// The decimal digit character for one digit value.
pub open spec fn dec_digit(d: int) -> char {
    (((48 + d) as u8) as char)
}

/// The decimal representation of a non-negative integer, most significant
/// digit first, with no leading zeros (a lone zero for 0).
pub open spec fn dec_of(n: int) -> Seq<char>
    decreases n,
{
    if n < 10 {
        seq![dec_digit(n)]
    } else {
        dec_of(n / 10).push(dec_digit(n % 10))
    }
}

/// Format an integer in decimal.
pub fn u64_to_dec(n: u64) -> (r: String)
    ensures
        r@ == dec_of(n as int),
    decreases n,
{
    if n < 10 {
        let mut out = String::new();
        push_char(&mut out, ((48 + (n as u8)) as char));
        proof {
            assert(out@ =~= seq![dec_digit(n as int)]);
        }
        out
    } else {
        let mut out = u64_to_dec(n / 10);
        push_char(&mut out, ((48 + ((n % 10) as u8)) as char));
        out
    }
}

/// Format a `u32` in decimal.
pub fn u32_to_dec(n: u32) -> (r: String)
    ensures
        r@ == dec_of(n as int),
{
    u64_to_dec(n as u64)
}

/// The concatenation of `parts` separated by `sep`.
pub open spec fn joined(parts: Seq<Seq<char>>, sep: Seq<char>) -> Seq<char>
    decreases parts.len(),
{
    if parts.len() == 0 {
        Seq::empty()
    } else if parts.len() == 1 {
        parts[0]
    } else {
        joined(parts.drop_last(), sep) + sep + parts.last()
    }
}

/// Join strings with a separator.
pub fn join(parts: &Vec<String>, sep: &str) -> (r: String)
    ensures
        r@ == joined(parts@.map_values(|p: String| p@), sep@),
{
    let ghost views = parts@.map_values(|p: String| p@);
    let mut out = String::new();
    let mut i: usize = 0;
    while i < parts.len()
        invariant
            views == parts@.map_values(|p: String| p@),
            i <= parts.len(),
            out@ == joined(views.take(i as int), sep@),
        decreases parts.len() - i,
    {
        if i > 0 {
            out.append(sep);
        }
        out.append(parts[i].as_str());
        i = i + 1;
        proof {
            assert(views.take(i as int).drop_last() =~= views.take(i - 1));
            assert(views.take(i as int).last() == views[i - 1]);
        }
    }
    proof {
        assert(views.take(parts@.len() as int) =~= views);
    }
    out
}

/// `s` cut to at most `max` characters: a longer string keeps its first
/// `max - 3` characters and ends in an ellipsis.
pub open spec fn truncated(s: Seq<char>, max: int) -> Seq<char> {
    if s.len() <= max {
        s
    } else {
        s.subrange(0, max - 3) + "..."@
    }
}

/// Cut a string for table display.
pub fn truncate_for_display(s: &str, max: usize) -> (r: String)
    requires
        max >= 3,
    ensures
        r@ == truncated(s@, max as int),
{
    let n = s.unicode_len();
    if n <= max {
        s.to_owned()
    } else {
        let head = s.substring_char(0, max - 3);
        head.to_owned().concat("...")
    }
}

/// Whether `s` contains the character `c`.
pub open spec fn has_char(s: Seq<char>, c: char) -> bool {
    exists|i: int| 0 <= i < s.len() && s[i] == c
}

/// The prefix of `s` up to (not including) its first `sep` character; the
/// whole string when `sep` does not occur.
pub open spec fn prefix_to(s: Seq<char>, sep: char) -> Seq<char>
    decreases s.len(),
{
    if s.len() == 0 {
        s
    } else if s[0] == sep {
        Seq::empty()
    } else {
        seq![s[0]] + prefix_to(s.drop_first(), sep)
    }
}

proof fn lemma_prefix_to_at(s: Seq<char>, sep: char, k: int)
    requires
        0 <= k <= s.len(),
        forall|j: int| 0 <= j < k ==> s[j] != sep,
        k == s.len() || s[k] == sep,
    ensures
        prefix_to(s, sep) == s.subrange(0, k),
    decreases k,
{
    if k == 0 {
        assert(prefix_to(s, sep) =~= s.subrange(0, 0)) by {
            if s.len() > 0 {
                assert(s[0] == sep);
            }
        }
    } else {
        lemma_prefix_to_at(s.drop_first(), sep, k - 1);
        assert(seq![s[0]] + s.drop_first().subrange(0, k - 1) =~= s.subrange(0, k));
    }
}

/// How the prefix up to a separator relates to the string: without the
/// separator it is the whole string; with it, it is the strict prefix
/// ending right before the first occurrence.
pub proof fn lemma_prefix_to_bounds(s: Seq<char>, sep: char)
    ensures
        prefix_to(s, sep).len() <= s.len(),
        prefix_to(s, sep) == s.subrange(0, prefix_to(s, sep).len() as int),
        forall|j: int| 0 <= j < prefix_to(s, sep).len() ==> s[j] != sep,
        !has_char(s, sep) ==> prefix_to(s, sep) == s,
        has_char(s, sep) ==> prefix_to(s, sep).len() < s.len() && s[prefix_to(s, sep).len() as int]
            == sep,
    decreases s.len(),
{
    if s.len() == 0 {
        assert(prefix_to(s, sep) =~= s.subrange(0, 0));
        assert(prefix_to(s, sep) =~= s);
    } else if s[0] == sep {
        assert(has_char(s, sep));
        assert(prefix_to(s, sep) =~= s.subrange(0, 0));
    } else {
        let rest = s.drop_first();
        lemma_prefix_to_bounds(rest, sep);
        let p = prefix_to(s, sep);
        assert(p == seq![s[0]] + prefix_to(rest, sep));
        assert(p =~= s.subrange(0, p.len() as int)) by {
            assert(prefix_to(rest, sep) == rest.subrange(0, prefix_to(rest, sep).len() as int));
        }
        assert forall|j: int| 0 <= j < p.len() implies s[j] != sep by {
            if j > 0 {
                assert(s[j] == rest[j - 1]);
                assert(rest[j - 1] != sep);
            }
        }
        if has_char(s, sep) {
            let w = choose|i: int| 0 <= i < s.len() && s[i] == sep;
            assert(rest[w - 1] == sep);
            assert(has_char(rest, sep));
            assert(s[p.len() as int] == rest[prefix_to(rest, sep).len() as int]);
        } else {
            assert(!has_char(rest, sep)) by {
                if has_char(rest, sep) {
                    let w = choose|i: int| 0 <= i < rest.len() && rest[i] == sep;
                    assert(s[w + 1] == sep);
                }
            }
            assert(p =~= s);
        }
    }
}

/// The part of a string before its first occurrence of `sep`.
pub fn take_until(s: &str, sep: char) -> (r: String)
    ensures
        r@ == prefix_to(s@, sep),
{
    let n = s.unicode_len();
    let mut k: usize = 0;
    loop
        invariant_except_break
            n == s@.len(),
            k <= n,
            forall|j: int| 0 <= j < k ==> s@[j] != sep,
        ensures
            n == s@.len(),
            k <= n,
            forall|j: int| 0 <= j < k ==> s@[j] != sep,
            k == n || s@[k as int] == sep,
        decreases n - k,
    {
        if k >= n {
            break;
        }
        if s.get_char(k) == sep {
            break;
        }
        k = k + 1;
    }
    proof {
        lemma_prefix_to_at(s@, sep, k as int);
    }
    s.substring_char(0, k).to_owned()
}

} // verus!
