//! The lexical layer of the protocol: characters, decimal numbers, line
//! endings and the search for a separator.
//!
//! Every function here works on the characters of a line. The executable
//! functions take the line as a `Vec<char>` together with a range of indices,
//! so that a line is scanned once and never copied.

use vstd::prelude::*;
use vstd::string::*;

verus! {

/// An ASCII decimal digit.
pub open spec fn is_digit(c: char) -> bool {
    '0' <= c && c <= '9'
}

/// The value of a decimal digit; 0 for any other character.
pub open spec fn digit_value(c: char) -> nat {
    if is_digit(c) {
        (c as u32 - '0' as u32) as nat
    } else {
        0
    }
}

/// Every character of `s` is a decimal digit.
pub open spec fn all_digits(s: Seq<char>) -> bool {
    forall|i: int| 0 <= i < s.len() ==> is_digit(#[trigger] s[i])
}

/// The number that the digits of `s` denote in base ten, most significant
/// digit first. The empty sequence denotes 0.
pub open spec fn decimal_value(s: Seq<char>) -> nat
    decreases s.len(),
{
    if s.len() == 0 {
        0
    } else {
        decimal_value(s.drop_last()) * 10 + digit_value(s.last())
    }
}

/// The number written in `s`: one or more decimal digits whose value fits in
/// 32 bits. Leading zeros are allowed; a sign, a space or an empty field is
/// not.
pub open spec fn number(s: Seq<char>) -> Option<u32> {
    if s.len() > 0 && all_digits(s) && decimal_value(s) <= u32::MAX {
        Some(decimal_value(s) as u32)
    } else {
        None
    }
}

/// The character that stands for the digit `d`.
pub open spec fn digit_char(d: nat) -> char {
    if d == 0 {
        '0'
    } else if d == 1 {
        '1'
    } else if d == 2 {
        '2'
    } else if d == 3 {
        '3'
    } else if d == 4 {
        '4'
    } else if d == 5 {
        '5'
    } else if d == 6 {
        '6'
    } else if d == 7 {
        '7'
    } else if d == 8 {
        '8'
    } else {
        '9'
    }
}

/// `n` written in base ten without leading zeros.
pub open spec fn decimal(n: nat) -> Seq<char>
    decreases n,
{
    if n < 10 {
        seq![digit_char(n)]
    } else {
        decimal(n / 10).push(digit_char(n % 10))
    }
}

/// A character that may occur in a unique-id: printable ASCII other than
/// the space, that is `!` (0x21) to `~` (0x7E).
pub open spec fn is_uid_char(c: char) -> bool {
    '!' <= c && c <= '~'
}

/// A unique-id: 1 to 70 characters, each of them printable and not a space.
pub open spec fn is_uid(s: Seq<char>) -> bool {
    &&& 1 <= s.len() <= 70
    &&& forall|i: int| 0 <= i < s.len() ==> is_uid_char(#[trigger] s[i])
}

/// `line` ends with a carriage return followed by a line feed.
pub open spec fn ends_with_crlf(line: Seq<char>) -> bool {
    line.len() >= 2 && line[line.len() - 2] == '\r' && line[line.len() - 1] == '\n'
}

/// What a line says: the line without its closing CRLF, where it has one.
pub open spec fn content(line: Seq<char>) -> Seq<char> {
    if ends_with_crlf(line) {
        line.take(line.len() - 2)
    } else {
        line
    }
}

/// The index of the first `c` in `s`, or the length of `s` where it has none.
pub open spec fn first_index(s: Seq<char>, c: char) -> int
    decreases s.len(),
{
    if s.len() == 0 || s[0] == c {
        0
    } else {
        1 + first_index(s.skip(1), c)
    }
}

/// `k` is the index of the first `c` in `s`, or the length of `s` where it
/// has none.
pub open spec fn is_first_index(s: Seq<char>, c: char, k: int) -> bool {
    &&& 0 <= k <= s.len()
    &&& k < s.len() ==> s[k] == c
    &&& forall|j: int| 0 <= j < k ==> #[trigger] s[j] != c
}

/// `first_index` is the one index that `is_first_index` describes.
pub proof fn lemma_first_index(s: Seq<char>, c: char)
    ensures
        is_first_index(s, c, first_index(s, c)),
        forall|k: int| is_first_index(s, c, k) ==> k == first_index(s, c),
    decreases s.len(),
{
    if s.len() == 0 || s[0] == c {
        assert forall|k: int| is_first_index(s, c, k) implies k == 0 by {
            if k > 0 {
                assert(s[0] != c);
            }
        }
    } else {
        let t = s.skip(1);
        lemma_first_index(t, c);
        let f = first_index(t, c);
        assert forall|j: int| 0 <= j < 1 + f implies #[trigger] s[j] != c by {
            if j > 0 {
                assert(t[j - 1] == s[j]);
            }
        }
        if f < t.len() {
            assert(t[f] == s[f + 1]);
        }
        assert forall|k: int| is_first_index(s, c, k) implies k == 1 + f by {
            assert(k > 0);
            assert forall|j: int| 0 <= j < k - 1 implies #[trigger] t[j] != c by {
                assert(t[j] == s[j + 1]);
            }
            if k - 1 < t.len() {
                assert(t[k - 1] == s[k]);
            }
            assert(is_first_index(t, c, k - 1));
        }
    }
}

/// The value of a prefix never exceeds the value of the whole.
pub proof fn lemma_decimal_value_prefix(s: Seq<char>, k: int)
    requires
        0 <= k <= s.len(),
    ensures
        decimal_value(s.take(k)) <= decimal_value(s),
    decreases s.len(),
{
    if k == s.len() {
        assert(s.take(k) =~= s);
    } else {
        lemma_decimal_value_prefix(s.drop_last(), k);
        assert(s.drop_last().take(k) =~= s.take(k));
    }
}

/// A number that was written by `decimal` is read back by `number`.
pub proof fn lemma_number_of_decimal(n: nat)
    ensures
        decimal(n).len() > 0,
        all_digits(decimal(n)),
        decimal_value(decimal(n)) == n,
        n <= u32::MAX ==> number(decimal(n)) == Some(n as u32),
    decreases n,
{
    if n < 10 {
        let s = decimal(n);
        assert(s.drop_last() =~= Seq::<char>::empty());
        assert(decimal_value(s.drop_last()) == 0);
        assert(s.last() == digit_char(n));
    } else {
        lemma_number_of_decimal(n / 10);
        let s = decimal(n);
        assert(s.drop_last() =~= decimal(n / 10));
        assert(s.last() == digit_char(n % 10));
        assert forall|i: int| 0 <= i < s.len() implies is_digit(#[trigger] s[i]) by {
            if i < s.len() - 1 {
                assert(s[i] == decimal(n / 10)[i]);
            }
        }
    }
}

/// The characters of a string, in order.
pub fn chars_of(s: &str) -> (v: Vec<char>)
    ensures
        v@ == s@,
{
    broadcast use group_string_axioms;

    let mut v: Vec<char> = Vec::new();
    let it = s.chars();
    for c in iter: it
        invariant
            iter.seq() == s@,
            v@ == iter.seq().take(iter.index()),
    {
        v.push(c);
    }
    v
}

/// The characters `from..to` of `line` as a string of their own.
pub(crate) fn text_between(line: &str, from: usize, to: usize) -> (r: String)
    requires
        from <= to <= line@.len(),
    ensures
        r@ == line@.subrange(from as int, to as int),
{
    String::from_str(line.substring_char(from, to))
}

/// The length of the content of a line: its length without the closing CRLF.
pub(crate) fn content_len(s: &Vec<char>) -> (n: usize)
    ensures
        n <= s.len(),
        content(s@) == s@.take(n as int),
{
    let len: usize = s.len();
    if len >= 2 && s[len - 2] == '\r' && s[len - 1] == '\n' {
        len - 2
    } else {
        assert(s@.take(len as int) =~= s@);
        len
    }
}

/// The index of the first `c` in `s[from..to]`, or `to` where there is none.
pub(crate) fn find(s: &Vec<char>, from: usize, to: usize, c: char) -> (k: usize)
    requires
        from <= to <= s.len(),
    ensures
        from <= k <= to,
        k - from == first_index(s@.subrange(from as int, to as int), c),
{
    let mut i: usize = from;
    while i < to && s[i] != c
        invariant
            from <= i <= to <= s.len(),
            forall|j: int| from <= j < i ==> s@[j] != c,
        decreases to - i,
    {
        i += 1;
    }
    proof {
        let t = s@.subrange(from as int, to as int);
        assert forall|j: int| 0 <= j < i - from implies #[trigger] t[j] != c by {
            assert(t[j] == s@[from + j]);
        }
        assert(is_first_index(t, c, i - from));
        lemma_first_index(t, c);
    }
    i
}

/// Reads `s[from..to]` as a number.
pub(crate) fn parse_number(s: &Vec<char>, from: usize, to: usize) -> (r: Option<u32>)
    requires
        from <= to <= s.len(),
    ensures
        r == number(s@.subrange(from as int, to as int)),
{
    let ghost t = s@.subrange(from as int, to as int);
    if from == to {
        return None;
    }
    let mut acc: u64 = 0;
    let mut i: usize = from;
    assert(t.take(0) =~= Seq::<char>::empty());
    while i < to
        invariant
            from <= i <= to <= s.len(),
            t == s@.subrange(from as int, to as int),
            all_digits(t.take(i - from)),
            acc == decimal_value(t.take(i - from)),
            acc <= u32::MAX,
        decreases to - i,
    {
        let c: char = s[i];
        proof {
            assert(t[i - from] == c);
            assert(t.take(i - from + 1).drop_last() =~= t.take(i - from));
            assert(t.take(i - from + 1).last() == c);
        }
        if !('0' <= c && c <= '9') {
            return None;
        }
        acc = acc * 10 + (c as u32 - '0' as u32) as u64;
        if acc > u32::MAX as u64 {
            proof {
                lemma_decimal_value_prefix(t, i - from + 1);
            }
            return None;
        }
        i += 1;
    }
    assert(t.take(i - from) =~= t);
    Some(acc as u32)
}

/// Whether `s[from..to]` is a unique-id.
pub(crate) fn check_uid(s: &Vec<char>, from: usize, to: usize) -> (r: bool)
    requires
        from <= to <= s.len(),
    ensures
        r == is_uid(s@.subrange(from as int, to as int)),
{
    let ghost t = s@.subrange(from as int, to as int);
    if to - from < 1 || to - from > 70 {
        return false;
    }
    let mut i: usize = from;
    while i < to
        invariant
            from <= i <= to <= s.len(),
            t == s@.subrange(from as int, to as int),
            forall|j: int| 0 <= j < i - from ==> is_uid_char(#[trigger] t[j]),
        decreases to - i,
    {
        let c: char = s[i];
        assert(t[i - from] == c);
        if !('!' <= c && c <= '~') {
            return false;
        }
        i += 1;
    }
    true
}

/// The one-character string of a digit.
fn digit_str(d: u32) -> (r: &'static str)
    requires
        d < 10,
    ensures
        r@ == seq![digit_char(d as nat)],
{
    proof {
        reveal_strlit("0");
        reveal_strlit("1");
        reveal_strlit("2");
        reveal_strlit("3");
        reveal_strlit("4");
        reveal_strlit("5");
        reveal_strlit("6");
        reveal_strlit("7");
        reveal_strlit("8");
        reveal_strlit("9");
    }
    let r = if d == 0 {
        "0"
    } else if d == 1 {
        "1"
    } else if d == 2 {
        "2"
    } else if d == 3 {
        "3"
    } else if d == 4 {
        "4"
    } else if d == 5 {
        "5"
    } else if d == 6 {
        "6"
    } else if d == 7 {
        "7"
    } else if d == 8 {
        "8"
    } else {
        "9"
    };
    assert(r@ =~= seq![digit_char(d as nat)]);
    r
}

/// Writes `n` in base ten.
pub fn decimal_string(n: u32) -> (r: String)
    ensures
        r@ == decimal(n as nat),
    decreases n,
{
    if n < 10 {
        String::from_str(digit_str(n))
    } else {
        let mut r = decimal_string(n / 10);
        r.append(digit_str(n % 10));
        assert(r@ =~= decimal(n as nat));
        r
    }
}

} // verus!
