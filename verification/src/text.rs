//! Character-level text handling shared by every parser of the crate.
//!
//! Text is read from `&str` into `Vec<char>`, processed there, and turned
//! back into a `String` only at the end. Each operation mirrors the behaviour
//! of the matching `str` method of std (`trim`, `to_ascii_lowercase`,
//! `split`, `split_once`, `split_whitespace`, `parse::<u32>`, `Display` of an
//! integer), stated as a spec function.
use vstd::prelude::*;

verus! {

// ---------------------------------------------------------------------------
// Characters
// ---------------------------------------------------------------------------

/// Lower-cases an ASCII capital letter; every other character is kept.
pub open spec fn ascii_lower(c: char) -> char {
    if 'A' <= c && c <= 'Z' {
        ((c as u32) + 32) as char
    } else {
        c
    }
}

/// `char::is_whitespace`: the Unicode `White_Space` property.
pub open spec fn is_white(c: char) -> bool {
    ||| ('\t' <= c && c <= '\r')
    ||| c == ' '
    ||| c == '\u{85}'
    ||| c == '\u{a0}'
    ||| c == '\u{1680}'
    ||| ('\u{2000}' <= c && c <= '\u{200a}')
    ||| c == '\u{2028}'
    ||| c == '\u{2029}'
    ||| c == '\u{202f}'
    ||| c == '\u{205f}'
    ||| c == '\u{3000}'
}

pub open spec fn is_digit(c: char) -> bool {
    '0' <= c && c <= '9'
}

pub open spec fn digit_value(c: char) -> nat {
    ((c as u32) - ('0' as u32)) as nat
}

pub fn lower_char(c: char) -> (r: char)
    ensures
        r == ascii_lower(c),
{
    if 'A' <= c && c <= 'Z' {
        let b: u8 = c as u8;
        (b + 32) as char
    } else {
        c
    }
}

pub fn is_white_char(c: char) -> (r: bool)
    ensures
        r == is_white(c),
{
    ('\t' <= c && c <= '\r') || c == ' ' || c == '\u{85}' || c == '\u{a0}' || c == '\u{1680}'
        || ('\u{2000}' <= c && c <= '\u{200a}') || c == '\u{2028}' || c == '\u{2029}' || c
        == '\u{202f}' || c == '\u{205f}' || c == '\u{3000}'
}

// ---------------------------------------------------------------------------
// Sequences of characters
// ---------------------------------------------------------------------------

/// `str::to_ascii_lowercase`.
pub open spec fn lower(s: Seq<char>) -> Seq<char> {
    s.map_values(|c: char| ascii_lower(c))
}

/// `str::trim_start`.
pub open spec fn trim_start(s: Seq<char>) -> Seq<char>
    decreases s.len(),
{
    if s.len() > 0 && is_white(s[0]) {
        trim_start(s.subrange(1, s.len() as int))
    } else {
        s
    }
}

/// `str::trim_end`.
pub open spec fn trim_end(s: Seq<char>) -> Seq<char>
    decreases s.len(),
{
    if s.len() > 0 && is_white(s.last()) {
        trim_end(s.drop_last())
    } else {
        s
    }
}

/// `str::trim`.
pub open spec fn trim(s: Seq<char>) -> Seq<char> {
    trim_end(trim_start(s))
}

/// The pieces of `str::split(d)`, defined on ever longer prefixes.
pub open spec fn split_on(s: Seq<char>, d: char) -> Seq<Seq<char>>
    decreases s.len(),
{
    if s.len() == 0 {
        seq![Seq::<char>::empty()]
    } else {
        let init = split_on(s.drop_last(), d);
        if s.last() == d {
            init.push(Seq::<char>::empty())
        } else {
            init.update(init.len() - 1, init.last().push(s.last()))
        }
    }
}

/// Index of the first `d` in `s`, or `s.len()` when there is none.
pub open spec fn first_index(s: Seq<char>, d: char) -> nat
    decreases s.len(),
{
    if s.len() == 0 {
        0
    } else if s[0] == d {
        0
    } else {
        1 + first_index(s.subrange(1, s.len() as int), d)
    }
}

/// `str::split_once(d)`.
pub open spec fn split_once(s: Seq<char>, d: char) -> Option<(Seq<char>, Seq<char>)> {
    let i = first_index(s, d) as int;
    if i < s.len() {
        Some((s.subrange(0, i), s.subrange(i + 1, s.len() as int)))
    } else {
        None
    }
}

/// Completed words and the word still open after reading `s`.
pub open spec fn words_state(s: Seq<char>) -> (Seq<Seq<char>>, Seq<char>)
    decreases s.len(),
{
    if s.len() == 0 {
        (Seq::empty(), Seq::empty())
    } else {
        let (done, cur) = words_state(s.drop_last());
        if is_white(s.last()) {
            if cur.len() > 0 {
                (done.push(cur), Seq::empty())
            } else {
                (done, Seq::empty())
            }
        } else {
            (done, cur.push(s.last()))
        }
    }
}

/// `str::split_whitespace`: the maximal runs of non-white characters.
pub open spec fn words(s: Seq<char>) -> Seq<Seq<char>> {
    let (done, cur) = words_state(s);
    if cur.len() > 0 {
        done.push(cur)
    } else {
        done
    }
}

/// Value of a sequence of decimal digits.
pub open spec fn digits_value(d: Seq<char>) -> nat
    decreases d.len(),
{
    if d.len() == 0 {
        0
    } else {
        digits_value(d.drop_last()) * 10 + digit_value(d.last())
    }
}

pub open spec fn all_digits(d: Seq<char>) -> bool {
    forall|i: int| 0 <= i < d.len() ==> is_digit(#[trigger] d[i])
}

/// The digits of an unsigned number: a leading `+` is dropped.
pub open spec fn unsigned_digits(s: Seq<char>) -> Seq<char> {
    if s.len() > 0 && s[0] == '+' {
        s.subrange(1, s.len() as int)
    } else {
        s
    }
}

/// `str::parse::<u32>`: an optional `+`, then at least one decimal digit,
/// and a value that fits in `u32`.
pub open spec fn parse_u32_spec(s: Seq<char>) -> Option<u32> {
    let d = unsigned_digits(s);
    if d.len() > 0 && all_digits(d) && digits_value(d) <= u32::MAX {
        Some(digits_value(d) as u32)
    } else {
        None
    }
}

pub open spec fn digit_char(n: nat) -> char {
    (n + 48) as char
}

/// `Display` of an unsigned integer: its decimal digits, most significant first.
pub open spec fn decimal(n: nat) -> Seq<char>
    decreases n,
{
    if n < 10 {
        seq![digit_char(n)]
    } else {
        decimal(n / 10).push(digit_char(n % 10))
    }
}

/// `slice::join`: the pieces with `sep` between consecutive ones.
pub open spec fn join(pieces: Seq<Seq<char>>, sep: Seq<char>) -> Seq<char>
    decreases pieces.len(),
{
    if pieces.len() == 0 {
        Seq::empty()
    } else if pieces.len() == 1 {
        pieces[0]
    } else {
        join(pieces.drop_last(), sep) + sep + pieces.last()
    }
}

// ---------------------------------------------------------------------------
// Lemmas
// ---------------------------------------------------------------------------

pub proof fn lemma_split_on_nonempty(s: Seq<char>, d: char)
    ensures
        split_on(s, d).len() >= 1,
    decreases s.len(),
{
    if s.len() > 0 {
        lemma_split_on_nonempty(s.drop_last(), d);
    }
}

proof fn lemma_trim_start_step(s: Seq<char>, i: int)
    requires
        0 <= i < s.len(),
        is_white(s[i]),
    ensures
        trim_start(s.subrange(i, s.len() as int)) == trim_start(
            s.subrange(i + 1, s.len() as int),
        ),
{
    let t = s.subrange(i, s.len() as int);
    assert(t.subrange(1, t.len() as int) =~= s.subrange(i + 1, s.len() as int));
}

proof fn lemma_trim_end_step(s: Seq<char>, j: int)
    requires
        0 < j <= s.len(),
        is_white(s[j - 1]),
    ensures
        trim_end(s.subrange(0, j)) == trim_end(s.subrange(0, j - 1)),
{
    assert(s.subrange(0, j).drop_last() =~= s.subrange(0, j - 1));
}

pub proof fn lemma_first_index_found(s: Seq<char>, d: char, i: int)
    requires
        0 <= i <= s.len(),
        forall|j: int| 0 <= j < i ==> s[j] != d,
        i < s.len() ==> s[i] == d,
    ensures
        first_index(s, d) == i,
    decreases i,
{
    if i > 0 {
        let t = s.subrange(1, s.len() as int);
        assert forall|j: int| 0 <= j < i - 1 implies t[j] != d by {
            assert(t[j] == s[j + 1]);
        }
        lemma_first_index_found(t, d, i - 1);
    }
}

/// `split_once` splits at the first delimiter.
pub proof fn lemma_split_once_at(a: Seq<char>, d: char, b: Seq<char>)
    requires
        forall|j: int| 0 <= j < a.len() ==> a[j] != d,
    ensures
        split_once(a + seq![d] + b, d) == Some((a, b)),
{
    let s = a + seq![d] + b;
    assert forall|j: int| 0 <= j < a.len() implies s[j] != d by {
        assert(s[j] == a[j]);
    }
    lemma_first_index_found(s, d, a.len() as int);
    assert(s.subrange(0, a.len() as int) =~= a);
    assert(s.subrange(a.len() as int + 1, s.len() as int) =~= b);
}

/// Without the delimiter there is nothing to split.
pub proof fn lemma_split_once_none(s: Seq<char>, d: char)
    requires
        forall|j: int| 0 <= j < s.len() ==> s[j] != d,
    ensures
        split_once(s, d) is None,
{
    lemma_first_index_found(s, d, s.len() as int);
}

/// A text that neither starts nor ends with white space trims to itself.
pub proof fn lemma_trim_plain(s: Seq<char>)
    requires
        s.len() > 0 ==> !is_white(s[0]) && !is_white(s.last()),
    ensures
        trim(s) == s,
{
}

/// A text without ASCII capitals lower-cases to itself.
pub proof fn lemma_lower_plain(s: Seq<char>)
    requires
        forall|j: int| 0 <= j < s.len() ==> !('A' <= #[trigger] s[j] && s[j] <= 'Z'),
    ensures
        lower(s) == s,
{
    assert(lower(s) =~= s);
}

proof fn lemma_digits_prefix_le(d: Seq<char>, i: int)
    requires
        0 <= i <= d.len(),
    ensures
        digits_value(d.subrange(0, i)) <= digits_value(d),
    decreases d.len() - i,
{
    if i < d.len() {
        lemma_digits_prefix_le(d, i + 1);
        assert(d.subrange(0, i + 1).drop_last() =~= d.subrange(0, i));
    } else {
        assert(d.subrange(0, i) =~= d);
    }
}

// ---------------------------------------------------------------------------
// Executable operations
// ---------------------------------------------------------------------------

/// The characters of a string slice, in order.
pub fn str_chars(s: &str) -> (r: Vec<char>)
    ensures
        r@ == s@,
{
    let n = s.unicode_len();
    let mut out: Vec<char> = Vec::new();
    let mut i: usize = 0;
    while i < n
        invariant
            n == s@.len(),
            i <= n,
            out@ == s@.subrange(0, i as int),
        decreases n - i,
    {
        let c = s.get_char(i);
        out.push(c);
        i = i + 1;
    }
    out
}

/// Builds a `String` from characters: `Iterator::collect::<String>` over
/// `chars`, which gives back the characters it was handed, in order.
#[verifier::external_body]
pub(crate) fn chars_to_string(cs: &Vec<char>) -> (s: String)
    ensures
        s@ == cs@,
{
    cs.iter().collect()
}

/// Appends the characters of `s` to `out`.
pub fn push_str(out: &mut Vec<char>, s: &str)
    ensures
        final(out)@ == old(out)@ + s@,
{
    let cs = str_chars(s);
    push_chars(out, &cs);
}

/// Appends `cs` to `out`.
pub fn push_chars(out: &mut Vec<char>, cs: &Vec<char>)
    ensures
        final(out)@ == old(out)@ + cs@,
{
    let ghost start = out@;
    let mut i: usize = 0;
    while i < cs.len()
        invariant
            i <= cs.len(),
            out@ == start + cs@.subrange(0, i as int),
        decreases cs.len() - i,
    {
        out.push(cs[i]);
        i = i + 1;
    }
    assert(cs@.subrange(0, cs.len() as int) =~= cs@);
}

/// Copy of `v[from..to]`.
pub fn sub_chars(v: &Vec<char>, from: usize, to: usize) -> (r: Vec<char>)
    requires
        from <= to <= v.len(),
    ensures
        r@ == v@.subrange(from as int, to as int),
{
    let mut out: Vec<char> = Vec::new();
    let mut i = from;
    while i < to
        invariant
            from <= i <= to,
            to <= v.len(),
            out@ == v@.subrange(from as int, i as int),
        decreases to - i,
    {
        out.push(v[i]);
        i = i + 1;
    }
    out
}

/// Whether the characters equal those of `lit`.
pub fn chars_eq_str(v: &Vec<char>, lit: &str) -> (r: bool)
    ensures
        r == (v@ == lit@),
{
    let w = str_chars(lit);
    chars_eq(v, &w)
}

/// Whether two character sequences are equal.
pub fn chars_eq(v: &Vec<char>, w: &Vec<char>) -> (r: bool)
    ensures
        r == (v@ == w@),
{
    if v.len() != w.len() {
        return false;
    }
    let mut i: usize = 0;
    while i < v.len()
        invariant
            v.len() == w.len(),
            i <= v.len(),
            forall|j: int| 0 <= j < i ==> v@[j] == w@[j],
        decreases v.len() - i,
    {
        if v[i] != w[i] {
            return false;
        }
        i = i + 1;
    }
    assert(v@ =~= w@);
    true
}

/// `str::to_ascii_lowercase`.
pub fn lower_chars(v: &Vec<char>) -> (r: Vec<char>)
    ensures
        r@ == lower(v@),
{
    let mut out: Vec<char> = Vec::new();
    let mut i: usize = 0;
    while i < v.len()
        invariant
            i <= v.len(),
            out@ == lower(v@.subrange(0, i as int)),
        decreases v.len() - i,
    {
        let c = lower_char(v[i]);
        out.push(c);
        proof {
            assert(lower(v@.subrange(0, i + 1)) =~= lower(v@.subrange(0, i as int)).push(
                ascii_lower(v@[i as int]),
            ));
        }
        i = i + 1;
    }
    assert(v@.subrange(0, v.len() as int) =~= v@);
    out
}

/// `str::trim`.
pub fn trim_chars(v: &Vec<char>) -> (r: Vec<char>)
    ensures
        r@ == trim(v@),
{
    let n = v.len();
    let mut i: usize = 0;
    assert(v@.subrange(0, n as int) =~= v@);
    while i < n && is_white_char(v[i])
        invariant
            i <= n,
            n == v.len(),
            trim_start(v@) == trim_start(v@.subrange(i as int, n as int)),
        decreases n - i,
    {
        proof {
            lemma_trim_start_step(v@, i as int);
        }
        i = i + 1;
    }
    let ghost rest = v@.subrange(i as int, n as int);
    assert(trim_start(v@) == rest);
    let mut j: usize = n;
    assert(rest.subrange(0, (j - i) as int) =~= rest);
    while j > i && is_white_char(v[j - 1])
        invariant
            i <= j <= n,
            n == v.len(),
            rest == v@.subrange(i as int, n as int),
            trim_end(rest) == trim_end(rest.subrange(0, (j - i) as int)),
        decreases j,
    {
        proof {
            lemma_trim_end_step(rest, (j - i) as int);
        }
        j = j - 1;
    }
    assert(rest.subrange(0, (j - i) as int) =~= v@.subrange(i as int, j as int));
    sub_chars(v, i, j)
}

/// `trim` followed by `to_ascii_lowercase`, the usual normalisation of a
/// user-supplied identifier.
pub fn normalize(s: &str) -> (r: Vec<char>)
    ensures
        r@ == lower(trim(s@)),
{
    let v = str_chars(s);
    let t = trim_chars(&v);
    lower_chars(&t)
}

/// The message `prefix`, then `k`, then `suffix`, as a `String`.
pub fn framed(prefix: &str, k: &Vec<char>, suffix: &str) -> (r: String)
    ensures
        r@ == prefix@ + k@ + suffix@,
{
    let mut msg: Vec<char> = Vec::new();
    push_str(&mut msg, prefix);
    push_chars(&mut msg, k);
    push_str(&mut msg, suffix);
    chars_to_string(&msg)
}

/// `trim` followed by `to_ascii_lowercase`, on characters.
pub fn normalize_chars(v: &Vec<char>) -> (r: Vec<char>)
    ensures
        r@ == lower(trim(v@)),
{
    let t = trim_chars(v);
    lower_chars(&t)
}

/// `str::eq_ignore_ascii_case`.
pub fn eq_ignore_case(v: &Vec<char>, lit: &str) -> (r: bool)
    ensures
        r == (lower(v@) == lower(lit@)),
{
    let a = lower_chars(v);
    let w = str_chars(lit);
    let b = lower_chars(&w);
    chars_eq(&a, &b)
}

/// `str::split_once(d)`.
pub fn split_once_chars(v: &Vec<char>, d: char) -> (r: Option<(Vec<char>, Vec<char>)>)
    ensures
        match r {
            Some((a, b)) => split_once(v@, d) == Some((a@, b@)),
            None => split_once(v@, d) is None,
        },
{
    let n = v.len();
    let mut i: usize = 0;
    while i < n && v[i] != d
        invariant
            i <= n,
            n == v.len(),
            forall|j: int| 0 <= j < i ==> v@[j] != d,
        decreases n - i,
    {
        i = i + 1;
    }
    proof {
        lemma_first_index_found(v@, d, i as int);
    }
    if i < n {
        let a = sub_chars(v, 0, i);
        let b = sub_chars(v, i + 1, n);
        Some((a, b))
    } else {
        None
    }
}

/// `str::split(d)`.
pub fn split_chars(v: &Vec<char>, d: char) -> (r: Vec<Vec<char>>)
    ensures
        r.deep_view() == split_on(v@, d),
{
    let n = v.len();
    let mut pieces: Vec<Vec<char>> = Vec::new();
    let mut cur: Vec<char> = Vec::new();
    let mut i: usize = 0;
    assert(v@.subrange(0, 0) =~= Seq::<char>::empty());
    assert(pieces.deep_view().push(cur@) =~= split_on(v@.subrange(0, 0), d));
    while i < n
        invariant
            i <= n,
            n == v.len(),
            pieces.deep_view().push(cur@) == split_on(v@.subrange(0, i as int), d),
        decreases n - i,
    {
        let c = v[i];
        let ghost pre = v@.subrange(0, i as int);
        let ghost next = v@.subrange(0, i + 1);
        assert(next.drop_last() =~= pre);
        assert(next.last() == c);
        proof {
            lemma_split_on_nonempty(pre, d);
        }
        if c == d {
            let done = cur;
            pieces.push(done);
            cur = Vec::new();
            assert(pieces.deep_view().push(cur@) =~~= split_on(pre, d).push(Seq::empty()));
        } else {
            let ghost before = pieces.deep_view();
            cur.push(c);
            assert(pieces.deep_view() =~= before);
            assert(pieces.deep_view().push(cur@) =~= split_on(pre, d).update(
                split_on(pre, d).len() - 1,
                split_on(pre, d).last().push(c),
            ));
        }
        i = i + 1;
    }
    assert(v@.subrange(0, n as int) =~= v@);
    let ghost before = pieces.deep_view();
    pieces.push(cur);
    assert(pieces.deep_view() =~~= before.push(cur@));
    pieces
}

/// `str::split_whitespace`.
pub fn words_chars(v: &Vec<char>) -> (r: Vec<Vec<char>>)
    ensures
        r.deep_view() == words(v@),
{
    let n = v.len();
    let mut done: Vec<Vec<char>> = Vec::new();
    let mut cur: Vec<char> = Vec::new();
    let mut i: usize = 0;
    assert(v@.subrange(0, 0) =~= Seq::<char>::empty());
    while i < n
        invariant
            i <= n,
            n == v.len(),
            words_state(v@.subrange(0, i as int)) == (done.deep_view(), cur@),
        decreases n - i,
    {
        let c = v[i];
        let ghost pre = v@.subrange(0, i as int);
        let ghost next = v@.subrange(0, i + 1);
        assert(next.drop_last() =~= pre);
        assert(next.last() == c);
        let ghost before = done.deep_view();
        if is_white_char(c) {
            if cur.len() > 0 {
                let w = cur;
                done.push(w);
                cur = Vec::new();
                assert(done.deep_view() =~~= before.push(w@));
            }
        } else {
            cur.push(c);
            assert(done.deep_view() =~= before);
        }
        assert(cur@ =~= words_state(next).1);
        i = i + 1;
    }
    assert(v@.subrange(0, n as int) =~= v@);
    if cur.len() > 0 {
        let ghost before = done.deep_view();
        done.push(cur);
        assert(done.deep_view() =~~= before.push(words_state(v@).1));
    }
    done
}

/// `str::parse::<u32>`.
pub fn parse_u32_chars(v: &Vec<char>) -> (r: Option<u32>)
    ensures
        r == parse_u32_spec(v@),
{
    let n = v.len();
    let mut start: usize = 0;
    if n > 0 && v[0] == '+' {
        start = 1;
    }
    let ghost d = unsigned_digits(v@);
    assert(d =~= v@.subrange(start as int, n as int));
    if start >= n {
        return None;
    }
    let mut acc: u64 = 0;
    let mut i = start;
    while i < n
        invariant
            start <= i <= n,
            n == v.len(),
            d == v@.subrange(start as int, n as int),
            d == unsigned_digits(v@),
            acc <= u32::MAX,
            all_digits(v@.subrange(start as int, i as int)),
            acc == digits_value(v@.subrange(start as int, i as int)),
        decreases n - i,
    {
        let c = v[i];
        let ghost pre = v@.subrange(start as int, i as int);
        let ghost next = v@.subrange(start as int, i + 1);
        assert(next.drop_last() =~= pre);
        if !('0' <= c && c <= '9') {
            assert(d[i - start] == c);
            assert(!is_digit(d[i - start]));
            return None;
        }
        let b: u8 = c as u8;
        let digit: u64 = (b - 48) as u64;
        acc = acc * 10 + digit;
        assert(acc == digits_value(next));
        if acc > 0xffff_ffff {
            proof {
                assert(next =~= d.subrange(0, (i + 1 - start) as int));
                if all_digits(d) {
                    lemma_digits_prefix_le(d, (i + 1 - start) as int);
                }
            }
            return None;
        }
        i = i + 1;
    }
    Some(acc as u32)
}

/// `str::parse::<u32>` on a string slice.
pub fn parse_u32_str(s: &str) -> (r: Option<u32>)
    ensures
        r == parse_u32_spec(s@),
{
    let v = str_chars(s);
    parse_u32_chars(&v)
}

/// Appends the decimal digits of `n` to `out`.
pub fn push_decimal(out: &mut Vec<char>, n: u64)
    ensures
        final(out)@ == old(out)@ + decimal(n as nat),
    decreases n,
{
    if n >= 10 {
        push_decimal(out, n / 10);
    }
    let b: u8 = (n % 10) as u8;
    let c: char = (b + 48) as char;
    assert(c == digit_char((n % 10) as nat));
    out.push(c);
    if n >= 10 {
        assert(decimal(n as nat) == decimal((n / 10) as nat).push(digit_char((n % 10) as nat)));
    } else {
        assert(n % 10 == n);
    }
}

/// Appends the pieces to `out`, separated by `sep`.
pub fn push_joined(out: &mut Vec<char>, pieces: &Vec<Vec<char>>, sep: &str)
    ensures
        final(out)@ == old(out)@ + join(pieces.deep_view(), sep@),
{
    let ghost start = out@;
    let sep_chars = str_chars(sep);
    let mut i: usize = 0;
    while i < pieces.len()
        invariant
            i <= pieces.len(),
            sep_chars@ == sep@,
            out@ == start + join(pieces.deep_view().subrange(0, i as int), sep@),
        decreases pieces.len() - i,
    {
        let ghost pre = pieces.deep_view().subrange(0, i as int);
        let ghost next = pieces.deep_view().subrange(0, i + 1);
        assert(next.drop_last() =~= pre);
        assert(next.last() == pieces[i as int]@);
        if i > 0 {
            push_chars(out, &sep_chars);
        }
        push_chars(out, &pieces[i]);
        proof {
            if i == 0 {
                assert(pre =~= Seq::<Seq<char>>::empty());
                assert(next.len() == 1);
            }
        }
        assert(out@ =~= start + join(next, sep@));
        i = i + 1;
    }
    assert(pieces.deep_view().subrange(0, pieces.len() as int) =~= pieces.deep_view());
}

} // verus!
