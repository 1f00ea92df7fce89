//! Verified helpers on character sequences: searching for a separator,
//! comparing with a literal, reading and writing decimal numbers.

use vstd::prelude::*;
use vstd::string::*;

verus! {

/// Whether `pat` stands in `s` at position `i`.
pub open spec fn occurs_at(s: Seq<char>, pat: Seq<char>, i: int) -> bool {
    &&& 0 <= i
    &&& i + pat.len() <= s.len()
    &&& s.subrange(i, i + pat.len()) == pat
}

/// Whether `i` is the leftmost position at which `pat` stands in `s`.
pub open spec fn is_first_occurrence(s: Seq<char>, pat: Seq<char>, i: int) -> bool {
    &&& occurs_at(s, pat, i)
    &&& forall|j: int| 0 <= j < i ==> !occurs_at(s, pat, j)
}

/// The leftmost position at which `pat` stands in `s`, if it stands anywhere.
#[verifier::opaque]
pub open spec fn first_occurrence(s: Seq<char>, pat: Seq<char>) -> Option<int> {
    if exists|i: int| occurs_at(s, pat, i) {
        Some(choose|i: int| is_first_occurrence(s, pat, i))
    } else {
        None
    }
}

/// What precedes the first `pat` in `s`; the whole of `s` where there is none.
pub open spec fn before_first(s: Seq<char>, pat: Seq<char>) -> Seq<char> {
    match first_occurrence(s, pat) {
        Some(i) => s.take(i),
        None => s,
    }
}

/// What follows the first `pat` in `s`, where there is one.
pub open spec fn after_first(s: Seq<char>, pat: Seq<char>) -> Option<Seq<char>> {
    match first_occurrence(s, pat) {
        Some(i) => Some(s.skip(i + pat.len())),
        None => None,
    }
}

/// Whether `s` begins with `prefix`.
pub open spec fn starts_with(s: Seq<char>, prefix: Seq<char>) -> bool {
    occurs_at(s, prefix, 0)
}

/// A leftmost occurrence is the first occurrence.
pub proof fn lemma_first_occurrence_is(s: Seq<char>, pat: Seq<char>, i: int)
    requires
        is_first_occurrence(s, pat, i),
    ensures
        first_occurrence(s, pat) == Some(i),
{
    reveal(first_occurrence);
    let c = choose|c: int| is_first_occurrence(s, pat, c);
    assert(is_first_occurrence(s, pat, c));
    if c < i {
        assert(!occurs_at(s, pat, c));
    }
    if i < c {
        assert(!occurs_at(s, pat, i));
    }
}

/// Without any occurrence there is no first one.
pub proof fn lemma_first_occurrence_none(s: Seq<char>, pat: Seq<char>)
    requires
        forall|i: int| !occurs_at(s, pat, i),
    ensures
        first_occurrence(s, pat) is None,
{
    reveal(first_occurrence);
}

/// The characters of `s`, in order.
pub fn chars_of(s: &str) -> (res: Vec<char>)
    ensures
        res@ == s@,
{
    let mut out: Vec<char> = Vec::new();
    for c in it: s.chars()
        invariant
            it.seq() == s@,
            out@ == s@.take(it.index()),
    {
        out.push(c);
    }
    assert(s@.take(s@.len() as int) == s@);
    out
}

/// Whether `pat` stands in `hay` at position `at`, seen within the window
/// `from..to`.
fn matches_at(hay: &Vec<char>, from: usize, to: usize, pat: &Vec<char>, at: usize) -> (res: bool)
    requires
        from <= at,
        at + pat.len() <= to <= hay.len(),
    ensures
        res == occurs_at(hay@.subrange(from as int, to as int), pat@, at - from),
{
    let ghost window = hay@.subrange(from as int, to as int);
    let ghost piece = window.subrange(at - from, at - from + pat.len());
    let mut k: usize = 0;
    while k < pat.len()
        invariant
            from <= at,
            at + pat.len() <= to <= hay.len(),
            k <= pat.len(),
            window == hay@.subrange(from as int, to as int),
            piece == window.subrange(at - from, at - from + pat.len()),
            forall|j: int| 0 <= j < k ==> piece[j] == pat@[j],
        decreases pat.len() - k,
    {
        if hay[at + k] != pat[k] {
            assert(piece[k as int] != pat@[k as int]);
            return false;
        }
        k += 1;
    }
    assert(piece =~= pat@);
    true
}

/// Finds the first `pat` within the window `from..to` of `hay`.
pub(crate) fn find(hay: &Vec<char>, from: usize, to: usize, pat: &Vec<char>) -> (res: Option<usize>)
    requires
        from <= to <= hay.len(),
    ensures
        match res {
            Some(k) => {
                &&& from <= k
                &&& k + pat.len() <= to
                &&& first_occurrence(hay@.subrange(from as int, to as int), pat@) == Some(k - from)
            },
            None => first_occurrence(hay@.subrange(from as int, to as int), pat@) is None,
        },
{
    let ghost window = hay@.subrange(from as int, to as int);
    if pat.len() > to - from {
        proof {
            lemma_first_occurrence_none(window, pat@);
        }
        return None;
    }
    let last: usize = to - pat.len();
    let mut i: usize = from;
    loop
        invariant
            from <= i <= last,
            last + pat.len() == to,
            to <= hay.len(),
            window == hay@.subrange(from as int, to as int),
            forall|j: int| 0 <= j < i - from ==> !occurs_at(window, pat@, j),
        decreases last - i,
    {
        if matches_at(hay, from, to, pat, i) {
            proof {
                lemma_first_occurrence_is(window, pat@, i - from);
            }
            return Some(i);
        }
        if i == last {
            proof {
                lemma_first_occurrence_none(window, pat@);
            }
            return None;
        }
        i += 1;
    }
}

/// Splits the window `from..to` of `hay` at its first `pat`: the head runs
/// from `from` to the first position returned, and the tail, where `pat` was
/// found, from the second position to `to`.
pub(crate) fn split_once(hay: &Vec<char>, from: usize, to: usize, pat: &Vec<char>) -> (res: (
    usize,
    Option<usize>,
))
    requires
        from <= to <= hay.len(),
    ensures
        from <= res.0 <= to,
        hay@.subrange(from as int, res.0 as int) == before_first(
            hay@.subrange(from as int, to as int),
            pat@,
        ),
        match res.1 {
            Some(t) => {
                &&& res.0 + pat.len() == t
                &&& t <= to
                &&& after_first(hay@.subrange(from as int, to as int), pat@) == Some(
                    hay@.subrange(t as int, to as int),
                )
            },
            None => {
                &&& res.0 == to
                &&& after_first(hay@.subrange(from as int, to as int), pat@) is None
            },
        },
{
    let ghost window = hay@.subrange(from as int, to as int);
    match find(hay, from, to, pat) {
        Some(k) => {
            assert(window.take(k - from) =~= hay@.subrange(from as int, k as int));
            assert(window.skip(k - from + pat.len()) =~= hay@.subrange(
                k + pat.len(),
                to as int,
            ));
            (k, Some(k + pat.len()))
        },
        None => (to, None),
    }
}

/// Whether the window `from..to` of `hay` spells `word`.
pub(crate) fn window_is(hay: &Vec<char>, from: usize, to: usize, word: &str) -> (res: bool)
    requires
        from <= to <= hay.len(),
    ensures
        res == (hay@.subrange(from as int, to as int) == word@),
{
    let w = chars_of(word);
    if w.len() != to - from {
        return false;
    }
    let found = matches_at(hay, from, to, &w, from);
    proof {
        let window = hay@.subrange(from as int, to as int);
        assert(window.subrange(0, w@.len() as int) =~= window);
    }
    found
}

/// Whether `c` is one of the ten decimal digits.
pub open spec fn is_digit(c: char) -> bool {
    '0' <= c && c <= '9'
}

/// The number a decimal digit stands for.
pub open spec fn digit_value(c: char) -> nat {
    (c as u32 - '0' as u32) as nat
}

/// The digit that stands for `d`, for `d` below ten.
pub open spec fn digit_char(d: nat) -> char {
    seq!['0', '1', '2', '3', '4', '5', '6', '7', '8', '9'][d as int]
}

/// Whether every character of `s` is a decimal digit.
pub open spec fn all_digits(s: Seq<char>) -> bool {
    forall|i: int| 0 <= i < s.len() ==> is_digit(#[trigger] s[i])
}

/// The number that a run of decimal digits denotes, most significant first.
pub open spec fn number(digits: Seq<char>) -> nat
    decreases digits.len(),
{
    if digits.len() == 0 {
        0
    } else {
        number(digits.drop_last()) * 10 + digit_value(digits.last())
    }
}

/// `t` without one leading plus sign.
pub open spec fn unsigned_part(t: Seq<char>) -> Seq<char> {
    if t.len() > 0 && t[0] == '+' {
        t.skip(1)
    } else {
        t
    }
}

/// The port that `t` denotes: an optional plus sign, then one or more decimal
/// digits whose number fits sixteen bits. Anything else denotes none.
pub open spec fn port_number(t: Seq<char>) -> Option<u16> {
    let digits = unsigned_part(t);
    if digits.len() > 0 && all_digits(digits) && number(digits) <= u16::MAX {
        Some(number(digits) as u16)
    } else {
        None
    }
}

/// The shortest decimal writing of `n`.
pub open spec fn decimal(n: nat) -> Seq<char>
    decreases n,
{
    if n < 10 {
        seq![digit_char(n)]
    } else {
        decimal(n / 10).push(digit_char(n % 10))
    }
}

/// A longer run of digits never denotes a smaller number than its beginning.
pub proof fn lemma_number_grows(digits: Seq<char>, k: int)
    requires
        0 <= k <= digits.len(),
    ensures
        number(digits.take(k)) <= number(digits),
    decreases digits.len(),
{
    if k == digits.len() {
        assert(digits.take(k) =~= digits);
    } else {
        lemma_number_grows(digits.drop_last(), k);
        assert(digits.drop_last().take(k) =~= digits.take(k));
    }
}

/// Reads the window `from..to` of `hay` as a port number.
pub(crate) fn parse_port(hay: &Vec<char>, from: usize, to: usize) -> (res: Option<u16>)
    requires
        from <= to <= hay.len(),
    ensures
        res == port_number(hay@.subrange(from as int, to as int)),
{
    let ghost token = hay@.subrange(from as int, to as int);
    let start: usize = if from < to && hay[from] == '+' {
        from + 1
    } else {
        from
    };
    let ghost digits = hay@.subrange(start as int, to as int);
    assert(digits =~= unsigned_part(token));
    if start == to {
        return None;
    }
    let mut acc: u32 = 0;
    let mut i: usize = start;
    while i < to
        invariant
            from <= start <= i <= to <= hay.len(),
            token == hay@.subrange(from as int, to as int),
            digits == hay@.subrange(start as int, to as int),
            digits == unsigned_part(token),
            all_digits(digits.take(i - start)),
            acc == number(digits.take(i - start)),
            acc <= u16::MAX,
        decreases to - i,
    {
        let c: char = hay[i];
        if !(c >= '0' && c <= '9') {
            assert(!is_digit(digits[i - start]));
            return None;
        }
        let d: u32 = c as u32 - '0' as u32;
        let next: u32 = acc * 10 + d;
        proof {
            let longer = digits.take(i + 1 - start);
            assert(longer.drop_last() =~= digits.take(i - start));
            assert(longer.last() == c);
            assert(next == number(longer));
            assert forall|j: int| 0 <= j < longer.len() implies is_digit(#[trigger] longer[j]) by {
                if j < i - start {
                    assert(digits.take(i - start)[j] == longer[j]);
                }
            }
        }
        if next > 65535 {
            proof {
                lemma_number_grows(digits, i + 1 - start);
            }
            return None;
        }
        acc = next;
        i += 1;
    }
    assert(digits.take(to - start) =~= digits);
    Some(acc as u16)
}

/// The one-character text of a decimal digit.
fn digit_text(d: u64) -> (res: &'static str)
    requires
        d < 10,
    ensures
        res@ == seq![digit_char(d as nat)],
{
    proof {
        reveal_strlit("0");
        reveal_strlit("1");
        reveal_strlit("2");
        reveal_strlit("3");
        reveal_strlit("4");
        reveal_strlit("5");
        reveal_strlit("6");
        reveal_strlit("7");
        reveal_strlit("8");
        reveal_strlit("9");
    }
    let text: &'static str = if d == 0 {
        "0"
    } else if d == 1 {
        "1"
    } else if d == 2 {
        "2"
    } else if d == 3 {
        "3"
    } else if d == 4 {
        "4"
    } else if d == 5 {
        "5"
    } else if d == 6 {
        "6"
    } else if d == 7 {
        "7"
    } else if d == 8 {
        "8"
    } else {
        "9"
    };
    assert(text@ =~= seq![digit_char(d as nat)]);
    text
}

/// Appends the decimal writing of `n` to `out`.
pub fn push_decimal(out: &mut String, n: u64)
    ensures
        final(out)@ == old(out)@ + decimal(n as nat),
    decreases n,
{
    if n >= 10 {
        push_decimal(out, n / 10);
    }
    out.append(digit_text(n % 10));
    assert(final(out)@ =~= old(out)@ + decimal(n as nat));
}

/// The lower-case form of an ASCII letter; any other character as it is.
pub open spec fn lower(c: char) -> char {
    if 'A' <= c && c <= 'Z' {
        ((c as u32 + 32) as u8) as char
    } else {
        c
    }
}

/// `s` with every ASCII letter in lower case.
pub open spec fn lowered(s: Seq<char>) -> Seq<char> {
    s.map_values(|c: char| lower(c))
}

/// The lower-case form of an ASCII letter; any other character as it is.
pub fn to_lower(c: char) -> (res: char)
    ensures
        res == lower(c),
{
    if c >= 'A' && c <= 'Z' {
        ((c as u8) + 32) as char
    } else {
        c
    }
}

/// Whether `name`, with its ASCII letters in lower case, spells `word`.
pub fn eq_lowered(name: &str, word: &str) -> (res: bool)
    ensures
        res == (lowered(name@) == word@),
{
    let n = chars_of(name);
    let w = chars_of(word);
    if n.len() != w.len() {
        assert(lowered(name@).len() != word@.len());
        return false;
    }
    let mut i: usize = 0;
    while i < n.len()
        invariant
            i <= n.len(),
            n.len() == w.len(),
            n@ == name@,
            w@ == word@,
            forall|j: int| 0 <= j < i ==> lowered(name@)[j] == word@[j],
        decreases n.len() - i,
    {
        if to_lower(n[i]) != w[i] {
            assert(lowered(name@)[i as int] != word@[i as int]);
            return false;
        }
        i += 1;
    }
    assert(lowered(name@) =~= word@);
    true
}

} // verus!
