//! Decimal rendering and parsing of connection handles.
//!
//! A connection handle crosses the boundary as the decimal text of a
//! machine-word address. Rendering and parsing are verified against a
//! single mathematical definition of the decimal representation, so a
//! rendered handle always parses back to the address it came from.

use vstd::prelude::*;

verus! {

/// The character for one decimal digit value below ten.
pub open spec fn digit_char(d: nat) -> char {
    if d == 0 {
        '0'
    } else if d == 1 {
        '1'
    } else if d == 2 {
        '2'
    } else if d == 3 {
        '3'
    } else if d == 4 {
        '4'
    } else if d == 5 {
        '5'
    } else if d == 6 {
        '6'
    } else if d == 7 {
        '7'
    } else if d == 8 {
        '8'
    } else {
        '9'
    }
}

/// The digit value of a character, or ten when the character is no digit.
pub open spec fn digit_val(c: char) -> nat {
    if c == '0' {
        0
    } else if c == '1' {
        1
    } else if c == '2' {
        2
    } else if c == '3' {
        3
    } else if c == '4' {
        4
    } else if c == '5' {
        5
    } else if c == '6' {
        6
    } else if c == '7' {
        7
    } else if c == '8' {
        8
    } else if c == '9' {
        9
    } else {
        10
    }
}

/// True for the ten decimal digit characters.
pub open spec fn is_dec_digit(c: char) -> bool {
    digit_val(c) < 10
}

/// The decimal representation of a natural number, most significant digit
/// first, with no sign and no leading zero except for zero itself.
pub open spec fn dec_rep(n: nat) -> Seq<char>
    decreases n,
{
    if n < 10 {
        seq![digit_char(n)]
    } else {
        dec_rep(n / 10).push(digit_char(n % 10))
    }
}

/// The numeric value of a sequence of digit characters.
pub open spec fn dec_value(s: Seq<char>) -> nat
    decreases s.len(),
{
    if s.len() == 0 {
        0
    } else {
        dec_value(s.drop_last()) * 10 + digit_val(s.last())
    }
}

/// True when every character of the sequence is a decimal digit.
pub open spec fn all_digits(s: Seq<char>) -> bool {
    forall|i: int| 0 <= i < s.len() ==> is_dec_digit(s[i])
}

/// The sequence with one leading plus sign removed, as an unsigned decimal
/// parse accepts it.
pub open spec fn strip_plus(s: Seq<char>) -> Seq<char> {
    if s.len() >= 1 && s[0] == '+' {
        s.subrange(1, s.len() as int)
    } else {
        s
    }
}

/// True when some all-digit prefix of the sequence already exceeds the
/// largest machine word: a left-to-right accumulating parse of such a
/// sequence overflows before it can reach any offending character.
pub open spec fn dec_overflows(s: Seq<char>) -> bool {
    exists|k: int|
        0 <= k <= s.len() && all_digits(#[trigger] s.take(k)) && dec_value(s.take(k)) > usize::MAX
}

/// How an attempt to read a handle as a decimal number can fail.
#[derive(Clone, Copy, Debug, PartialEq, Eq, Structural)]
pub enum ParseNumError {
    /// The text was empty.
    Empty,
    /// A character other than a decimal digit was found.
    InvalidDigit,
    /// The number does not fit in a machine word.
    Overflow,
}

impl ParseNumError {
    /// A short description of the failure, suitable for an error envelope.
    pub fn message(&self) -> (m: String)
        ensures
            m@ == parse_error_text(*self),
    {
        match self {
            ParseNumError::Empty => "cannot parse integer from empty string".to_owned(),
            ParseNumError::InvalidDigit => "invalid digit found in string".to_owned(),
            ParseNumError::Overflow => "number too large to fit in target type".to_owned(),
        }
    }
}

/// The description text of each parse failure.
pub open spec fn parse_error_text(e: ParseNumError) -> Seq<char> {
    match e {
        ParseNumError::Empty => "cannot parse integer from empty string"@,
        ParseNumError::InvalidDigit => "invalid digit found in string"@,
        ParseNumError::Overflow => "number too large to fit in target type"@,
    }
}

/// The parse failure that a given text produces, meaningful only when the
/// text does not parse cleanly.
pub open spec fn parse_failure(s: Seq<char>) -> ParseNumError {
    if s.len() == 0 {
        ParseNumError::Empty
    } else if dec_overflows(strip_plus(s)) {
        ParseNumError::Overflow
    } else {
        ParseNumError::InvalidDigit
    }
}

/// True when the text denotes a machine-word number: after at most one
/// leading plus sign, one or more digits whose value fits.
pub open spec fn parses_to(s: Seq<char>, n: nat) -> bool {
    let t = strip_plus(s);
    t.len() > 0 && all_digits(t) && dec_value(t) == n && n <= usize::MAX
}

fn digit_str(d: usize) -> (s: &'static str)
    requires
        d < 10,
    ensures
        s@ =~= seq![digit_char(d as nat)],
{
    let s: &'static str = if d == 0 {
        "0"
    } else if d == 1 {
        "1"
    } else if d == 2 {
        "2"
    } else if d == 3 {
        "3"
    } else if d == 4 {
        "4"
    } else if d == 5 {
        "5"
    } else if d == 6 {
        "6"
    } else if d == 7 {
        "7"
    } else if d == 8 {
        "8"
    } else {
        "9"
    };
    proof {
        reveal_strlit("0");
        reveal_strlit("1");
        reveal_strlit("2");
        reveal_strlit("3");
        reveal_strlit("4");
        reveal_strlit("5");
        reveal_strlit("6");
        reveal_strlit("7");
        reveal_strlit("8");
        reveal_strlit("9");
    }
    s
}

fn digit_of(c: char) -> (d: usize)
    ensures
        d == digit_val(c),
{
    if c == '0' {
        0
    } else if c == '1' {
        1
    } else if c == '2' {
        2
    } else if c == '3' {
        3
    } else if c == '4' {
        4
    } else if c == '5' {
        5
    } else if c == '6' {
        6
    } else if c == '7' {
        7
    } else if c == '8' {
        8
    } else if c == '9' {
        9
    } else {
        10
    }
}

/// Renders a machine word as decimal text.
pub fn usize_to_decimal(n: usize) -> (s: String)
    ensures
        s@ == dec_rep(n as nat),
    decreases n,
{
    if n < 10 {
        digit_str(n).to_owned()
    } else {
        let mut s = usize_to_decimal(n / 10);
        s.append(digit_str(n % 10));
        proof {
            assert(s@ =~= dec_rep(n as nat));
        }
        s
    }
}

/// A rendered number is never empty and is made of digits alone, its first
/// character is not a sign, and it denotes the number it was rendered from.
pub proof fn lemma_dec_rep_value(n: nat)
    ensures
        dec_rep(n).len() >= 1,
        all_digits(dec_rep(n)),
        dec_value(dec_rep(n)) == n,
        is_dec_digit(dec_rep(n)[0]),
    decreases n,
{
    if n < 10 {
        let s = seq![digit_char(n)];
        assert(s.drop_last() =~= Seq::<char>::empty());
        assert(dec_value(s) == dec_value(s.drop_last()) * 10 + digit_val(s.last()));
        assert(digit_val(digit_char(n)) == n);
    } else {
        lemma_dec_rep_value(n / 10);
        let prev = dec_rep(n / 10);
        let whole = dec_rep(n);
        assert(whole.drop_last() =~= prev);
        assert(whole.last() == digit_char(n % 10));
        assert(digit_val(digit_char(n % 10)) == n % 10);
        assert(dec_value(whole) == (n / 10) * 10 + n % 10);
        assert forall|i: int| 0 <= i < whole.len() implies is_dec_digit(whole[i]) by {
            if i < prev.len() {
                assert(whole[i] == prev[i]);
            } else {
                assert(whole[i] == digit_char(n % 10));
            }
        }
        assert(whole[0] == prev[0]);
    }
}

/// Distinct numbers render to distinct decimal texts.
pub proof fn lemma_dec_rep_injective(a: nat, b: nat)
    ensures
        dec_rep(a) == dec_rep(b) ==> a == b,
{
    if dec_rep(a) == dec_rep(b) {
        lemma_dec_rep_value(a);
        lemma_dec_rep_value(b);
    }
}

/// Among an all-digit run, a longer prefix never has a smaller value.
pub proof fn lemma_dec_value_take_monotone(s: Seq<char>, k1: int, k2: int)
    requires
        0 <= k1 <= k2 <= s.len(),
    ensures
        dec_value(s.take(k1)) <= dec_value(s.take(k2)),
    decreases k2 - k1,
{
    if k1 < k2 {
        lemma_dec_value_take_monotone(s, k1, k2 - 1);
        assert(s.take(k2).drop_last() =~= s.take(k2 - 1));
        assert(dec_value(s.take(k2)) == dec_value(s.take(k2 - 1)) * 10 + digit_val(s.take(k2).last()));
    }
}

/// A rendered machine word parses back to the word it came from: the
/// round trip from address to handle text and back is the identity.
pub proof fn lemma_handle_round_trip(n: nat)
    requires
        n <= usize::MAX,
    ensures
        strip_plus(dec_rep(n)) == dec_rep(n),
        parses_to(dec_rep(n), n),
        !dec_overflows(dec_rep(n)),
{
    lemma_dec_rep_value(n);
    assert(dec_rep(n)[0] != '+');
    assert forall|k: int|
        0 <= k <= dec_rep(n).len() implies dec_value(#[trigger] dec_rep(n).take(k))
        <= usize::MAX by {
        lemma_dec_value_take_monotone(dec_rep(n), k, dec_rep(n).len() as int);
        assert(dec_rep(n).take(dec_rep(n).len() as int) =~= dec_rep(n));
    }
}

/// Reads a machine word from decimal text, accepting at most one leading
/// plus sign, exactly as the boundary reads a connection handle.
pub fn parse_usize(s: &str) -> (r: Result<usize, ParseNumError>)
    ensures
        (forall|n: nat| parses_to(s@, n) ==> r == Ok::<usize, ParseNumError>(n as usize)),
        (r matches Ok(n) ==> parses_to(s@, n as nat)),
        (r matches Err(e) ==> !(exists|n: nat| parses_to(s@, n)) && e == parse_failure(s@)),
{
    let len = s.unicode_len();
    if len == 0 {
        return Err(ParseNumError::Empty);
    }
    let first = s.get_char(0);
    let start: usize = if first == '+' {
        1
    } else {
        0
    };
    let ghost t = strip_plus(s@);
    proof {
        assert(t =~= s@.subrange(start as int, len as int));
    }
    if len == start {
        proof {
            assert(t.len() == 0);
            assert forall|k: int| 0 <= k <= t.len() implies !(all_digits(#[trigger] t.take(k))
                && dec_value(t.take(k)) > usize::MAX) by {
                assert(t.take(k) =~= t);
            }
        }
        return Err(ParseNumError::InvalidDigit);
    }
    let mut acc: usize = 0;
    let mut i: usize = start;
    while i < len
        invariant
            start <= i <= len,
            len == s@.len(),
            start == 1 ==> s@[0] == '+',
            start <= 1,
            t == strip_plus(s@),
            t == s@.subrange(start as int, len as int),
            forall|j: int| 0 <= j < i - start ==> is_dec_digit(#[trigger] t[j]),
            acc as nat == dec_value(t.take(i - start)),
        decreases len - i,
    {
        let c = s.get_char(i);
        let d = digit_of(c);
        let ghost pos = i - start;
        proof {
            assert(t[pos] == s@[i as int]);
            assert(t.take(pos + 1).drop_last() =~= t.take(pos));
            assert(t.take(pos + 1).last() == t[pos]);
        }
        if d >= 10 {
            proof {
                assert(!is_dec_digit(t[pos]));
                assert forall|k: int|
                    0 <= k <= t.len() && all_digits(#[trigger] t.take(k)) implies dec_value(
                    t.take(k)) <= usize::MAX by {
                    if k > pos {
                        assert(t.take(k)[pos] == t[pos]);
                        assert(false);
                    } else {
                        lemma_dec_value_take_monotone(t, k, pos);
                    }
                }
                assert(!dec_overflows(t));
                assert forall|n: nat| !parses_to(s@, n) by {
                    assert(!all_digits(t));
                }
            }
            return Err(ParseNumError::InvalidDigit);
        }
        let next = match acc.checked_mul(10) {
            Some(m) => m.checked_add(d),
            None => None,
        };
        match next {
            Some(v) => {
                acc = v;
                proof {
                    assert(dec_value(t.take(pos + 1)) == dec_value(t.take(pos)) * 10 + digit_val(
                        t[pos]));
                }
            },
            None => {
                proof {
                    assert(dec_value(t.take(pos + 1)) == dec_value(t.take(pos)) * 10 + digit_val(
                        t[pos]));
                    assert(dec_value(t.take(pos + 1)) > usize::MAX);
                    assert(all_digits(t.take(pos + 1)));
                    assert(0 <= pos + 1 <= t.len());
                    assert(dec_overflows(t));
                    assert forall|n: nat| !parses_to(s@, n) by {
                        if parses_to(s@, n) {
                            lemma_dec_value_take_monotone(t, pos + 1, t.len() as int);
                            assert(t.take(t.len() as int) =~= t);
                        }
                    }
                }
                return Err(ParseNumError::Overflow);
            },
        }
        i = i + 1;
    }
    proof {
        assert(t.take(i - start) =~= t);
        assert(parses_to(s@, acc as nat));
        assert forall|n: nat| parses_to(s@, n) implies n == acc as nat by {}
    }
    Ok(acc)
}

} // verus!
