//! Text as sequences of characters: reading a string's characters, writing
//! them back, comparing pieces, and decimal numbers.

use vstd::prelude::*;

verus! {

/// `String::push` puts one character at the end of the string.
pub assume_specification[ String::push ](s: &mut String, c: char)
    ensures
        final(s)@ == old(s)@.push(c),
;

/// The characters of a string, in order.
pub fn chars_of(s: &str) -> (v: Vec<char>)
    ensures
        v@ == s@,
{
    let mut v: Vec<char> = Vec::new();
    for c in it: s.chars()
        invariant
            it.seq() == s@,
            v@ == s@.take(it.index() as int),
    {
        v.push(c);
    }
    v
}

/// The string made of the characters `v[from..to]`.
pub fn string_of(v: &Vec<char>, from: usize, to: usize) -> (s: String)
    requires
        from <= to <= v.len(),
    ensures
        s@ == v@.subrange(from as int, to as int),
{
    let mut s = String::new();
    let mut i: usize = from;
    while i < to
        invariant
            from <= i <= to <= v.len(),
            s@ == v@.subrange(from as int, i as int),
        decreases to - i,
    {
        s.push(v[i]);
        i += 1;
    }
    s
}

/// Whether `piece` stands in `s` at index `at`.
pub open spec fn occurs_at(s: Seq<char>, at: int, piece: Seq<char>) -> bool {
    &&& 0 <= at
    &&& at + piece.len() <= s.len()
    &&& s.subrange(at, at + piece.len()) == piece
}

/// Tells whether `piece` stands in `v` at index `at`.
pub fn matches_at(v: &Vec<char>, at: usize, piece: &Vec<char>) -> (found: bool)
    ensures
        found == occurs_at(v@, at as int, piece@),
{
    let n = piece.len();
    if at > v.len() || n > v.len() - at {
        return false;
    }
    let mut i: usize = 0;
    while i < n
        invariant
            n == piece.len(),
            at + n <= v.len(),
            i <= n,
            v@.subrange(at as int, at + i) == piece@.take(i as int),
        decreases n - i,
    {
        if v[at + i] != piece[i] {
            return false;
        }
        i += 1;
    }
    proof {
        assert(piece@.take(n as int) == piece@);
    }
    true
}

/// Whether `c` is one of the ten decimal digits of ASCII.
pub open spec fn is_digit(c: char) -> bool {
    '0' <= c <= '9'
}

/// Whether `s` holds decimal digits only.
pub open spec fn all_digits(s: Seq<char>) -> bool {
    forall|i: int| 0 <= i < s.len() ==> is_digit(#[trigger] s[i])
}

/// What one decimal digit counts for.
pub open spec fn digit_value(c: char) -> nat {
    if is_digit(c) {
        (c as u32 - '0' as u32) as nat
    } else {
        0
    }
}

/// The number that the decimal digits `s` write.
pub open spec fn decimal(s: Seq<char>) -> nat
    decreases s.len(),
{
    if s.len() == 0 {
        0
    } else {
        decimal(s.drop_last()) * 10 + digit_value(s.last())
    }
}

/// Ten to the power `n`.
pub open spec fn pow10(n: nat) -> nat
    decreases n,
{
    if n == 0 {
        1
    } else {
        10 * pow10((n - 1) as nat)
    }
}

/// A number of `n` digits is below ten to the power `n`.
pub proof fn lemma_decimal_bound(s: Seq<char>)
    ensures
        decimal(s) < pow10(s.len()),
    decreases s.len(),
{
    if s.len() > 0 {
        lemma_decimal_bound(s.drop_last());
    }
}

/// The number written by the first `k` digits is not above the number
/// written by all of them.
pub proof fn lemma_decimal_prefix(s: Seq<char>, k: int)
    requires
        0 <= k <= s.len(),
    ensures
        decimal(s.take(k)) <= decimal(s),
    decreases s.len(),
{
    if k == s.len() {
        assert(s.take(k) == s);
    } else {
        lemma_decimal_prefix(s.drop_last(), k);
        assert(s.drop_last().take(k) == s.take(k));
    }
}

/// Reads `v[from..to]` as a decimal number: `Some` where the range is not
/// empty, holds digits only and the number fits in 32 bits.
pub fn parse_decimal(v: &Vec<char>, from: usize, to: usize) -> (number: Option<u32>)
    requires
        from <= to <= v.len(),
    ensures
        number is Some <==> from < to && all_digits(v@.subrange(from as int, to as int))
            && decimal(v@.subrange(from as int, to as int)) <= u32::MAX,
        number is Some ==> number.unwrap() == decimal(v@.subrange(from as int, to as int)),
{
    let ghost whole = v@.subrange(from as int, to as int);
    let mut acc: u32 = 0;
    let mut i: usize = from;
    while i < to
        invariant
            from <= i <= to <= v.len(),
            whole == v@.subrange(from as int, to as int),
            all_digits(whole.take(i - from)),
            acc == decimal(whole.take(i - from)),
        decreases to - i,
    {
        let c = v[i];
        assert(whole[i - from] == c);
        if c < '0' || c > '9' {
            return None;
        }
        let d: u32 = c as u32 - '0' as u32;
        proof {
            assert(whole.take(i - from + 1).drop_last() == whole.take(i - from));
            lemma_decimal_prefix(whole, i - from + 1);
        }
        if acc > (u32::MAX - d) / 10 {
            return None;
        }
        acc = acc * 10 + d;
        i += 1;
    }
    proof {
        assert(whole.take(to - from) == whole);
    }
    if from < to {
        Some(acc)
    } else {
        None
    }
}

} // verus!
