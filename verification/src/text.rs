//! Building blocks for the text that the player shows: repeated characters,
//! decimal numbers and the last component of a path.

use vstd::prelude::*;

verus! {

/// `n` copies of `piece`, one after another.
pub open spec fn repeat_seq(piece: Seq<char>, n: nat) -> Seq<char>
    decreases n,
{
    if n == 0 {
        Seq::empty()
    } else {
        repeat_seq(piece, (n - 1) as nat) + piece
    }
}

/// The character of the decimal digit `d`.
pub open spec fn digit_char(d: nat) -> char {
    (d + 48) as char
}

/// The decimal notation of `n`, without leading zeros.
pub open spec fn decimal(n: nat) -> Seq<char>
    decreases n,
{
    if n < 10 {
        seq![digit_char(n)]
    } else {
        decimal(n / 10).push(digit_char(n % 10))
    }
}

/// The decimal notation of `n`, padded with a zero to at least two digits.
pub open spec fn pad2(n: nat) -> Seq<char> {
    if n < 10 {
        seq!['0', digit_char(n)]
    } else {
        decimal(n)
    }
}

/// Where the last component of `s` starts, looking at its first `n` characters:
/// just after the last `/` among them, or 0 if there is none.
pub open spec fn segment_start(s: Seq<char>, n: nat) -> nat
    decreases n,
{
    if n == 0 {
        0
    } else if s[n - 1] == '/' {
        n
    } else {
        segment_start(s, (n - 1) as nat)
    }
}

/// The part of `s` after its last `/` (all of `s` if it has none).
pub open spec fn last_segment(s: Seq<char>) -> Seq<char> {
    s.subrange(segment_start(s, s.len()) as int, s.len() as int)
}

/// The number of bytes of `s` in UTF-8.
pub open spec fn byte_len(s: Seq<char>) -> nat {
    vstd::utf8::encode_utf8(s).len()
}

/// Appends a character to a string (`String::push`).
#[verifier::external_body]
pub(crate) fn push_char(s: &mut String, c: char)
    ensures
        final(s)@ == old(s)@.push(c),
{
    s.push(c);
}

/// `n` copies of `piece` in one string.
pub fn repeat(piece: &str, n: usize) -> (r: String)
    ensures
        r@ == repeat_seq(piece@, n as nat),
{
    let mut r = String::new();
    let mut i: usize = 0;
    while i < n
        invariant
            i <= n,
            r@ == repeat_seq(piece@, i as nat),
        decreases n - i,
    {
        r.append(piece);
        i = i + 1;
    }
    r
}

/// Appends `n` copies of `piece`.
pub(crate) fn push_repeated(out: &mut String, piece: &str, n: usize)
    ensures
        final(out)@ == old(out)@ + repeat_seq(piece@, n as nat),
{
    let r = repeat(piece, n);
    out.append(r.as_str());
}

/// The character of a decimal digit.
fn digit(d: u64) -> (c: char)
    requires
        d < 10,
    ensures
        c == digit_char(d as nat),
{
    let b: u8 = (d as u8) + 48;
    b as char
}

/// Appends the decimal notation of `n`.
pub(crate) fn push_decimal(out: &mut String, n: u64)
    ensures
        final(out)@ == old(out)@ + decimal(n as nat),
    decreases n,
{
    if n >= 10 {
        push_decimal(out, n / 10);
    }
    push_char(out, digit(n % 10));
}

/// Appends the decimal notation of `n`, padded with a zero to two digits.
pub(crate) fn push_pad2(out: &mut String, n: u64)
    ensures
        final(out)@ == old(out)@ + pad2(n as nat),
{
    if n < 10 {
        push_char(out, '0');
        push_char(out, digit(n));
    } else {
        push_decimal(out, n);
    }
}

/// The part of `s` after its last `/` (`s.split("/").last()`).
pub fn last_path_segment(s: &str) -> (r: &str)
    ensures
        r@ == last_segment(s@),
{
    let len = s.unicode_len();
    let mut start: usize = 0;
    let mut i: usize = 0;
    while i < len
        invariant
            len == s@.len(),
            i <= len,
            start == segment_start(s@, i as nat),
            start <= i,
        decreases len - i,
    {
        if s.get_char(i) == '/' {
            start = i + 1;
        }
        i = i + 1;
    }
    s.substring_char(start, len)
}

/// The UTF-8 encoding of two texts one after the other is the two encodings one
/// after the other.
pub proof fn lemma_encode_utf8_concat(a: Seq<char>, b: Seq<char>)
    ensures
        vstd::utf8::encode_utf8(a + b) == vstd::utf8::encode_utf8(a) + vstd::utf8::encode_utf8(b),
    decreases a.len(),
{
    if a.len() == 0 {
        assert(a + b =~= b);
        assert(vstd::utf8::encode_utf8(a) =~= Seq::<u8>::empty());
    } else {
        lemma_encode_utf8_concat(a.drop_first(), b);
        assert((a + b).drop_first() =~= a.drop_first() + b);
        assert((a + b)[0] == a[0]);
    }
}

/// `n` copies of a piece are `n` times as long as the piece.
pub proof fn lemma_repeat_len(piece: Seq<char>, n: nat)
    ensures
        repeat_seq(piece, n).len() == n * piece.len(),
    decreases n,
{
    if n > 0 {
        lemma_repeat_len(piece, (n - 1) as nat);
        assert(n * piece.len() == (n - 1) * piece.len() + piece.len()) by (nonlinear_arith)
            requires
                n > 0,
        ;
    } else {
        assert(n * piece.len() == 0) by (nonlinear_arith)
            requires
                n == 0,
        ;
    }
}

/// Copies of an ASCII piece are ASCII.
pub proof fn lemma_repeat_ascii(piece: Seq<char>, n: nat)
    requires
        vstd::utf8::is_ascii_chars(piece),
    ensures
        vstd::utf8::is_ascii_chars(repeat_seq(piece, n)),
    decreases n,
{
    if n > 0 {
        lemma_repeat_ascii(piece, (n - 1) as nat);
        vstd::utf8::is_ascii_chars_concat(
            repeat_seq(piece, n),
            repeat_seq(piece, (n - 1) as nat),
            piece,
        );
    }
}

/// An ASCII text takes one byte per character.
pub proof fn lemma_ascii_byte_len(s: Seq<char>)
    requires
        vstd::utf8::is_ascii_chars(s),
    ensures
        byte_len(s) == s.len(),
{
    vstd::utf8::is_ascii_chars_encode_utf8(s);
}

/// The character is a decimal digit.
pub open spec fn is_digit(c: char) -> bool {
    '0' <= c && c <= '9'
}

/// Every character of `s` is a decimal digit.
pub open spec fn all_digits(s: Seq<char>) -> bool {
    forall|i: int| 0 <= i < s.len() ==> is_digit(#[trigger] s[i])
}

/// The number that the decimal digits `s` spell.
pub open spec fn digits_value(s: Seq<char>) -> nat
    decreases s.len(),
{
    if s.len() == 0 {
        0
    } else {
        digits_value(s.drop_last()) * 10 + ((s.last() as int - 48) as nat)
    }
}

/// The two digits of `n`, tens first.
pub open spec fn two_digits(n: nat) -> Seq<char> {
    seq![digit_char(n / 10), digit_char(n % 10)]
}

/// The decimal notation of `n` is digits that read back as `n`.
pub proof fn lemma_decimal_reads_back(n: nat)
    ensures
        all_digits(decimal(n)),
        digits_value(decimal(n)) == n,
        decimal(n).len() >= 1,
    decreases n,
{
    if n >= 10 {
        lemma_decimal_reads_back(n / 10);
        let s = decimal(n);
        assert(s.drop_last() =~= decimal(n / 10));
        assert(s.last() == digit_char(n % 10));
        assert((digit_char(n % 10) as int) == n % 10 + 48);
        assert(digits_value(s) == digits_value(decimal(n / 10)) * 10 + n % 10);
        assert forall|i: int| 0 <= i < s.len() implies is_digit(#[trigger] s[i]) by {
            if i < s.len() - 1 {
                assert(s[i] == decimal(n / 10)[i]);
            }
        }
    } else {
        assert(decimal(n).drop_last() =~= Seq::<char>::empty());
        assert((digit_char(n) as int) == n + 48);
        assert(digits_value(Seq::<char>::empty()) == 0);
    }
}

/// Below a hundred, the two-digit notation is exactly the tens digit and the
/// units digit, and it reads back as `n`.
pub proof fn lemma_pad2_two_digits(n: nat)
    requires
        n < 100,
    ensures
        pad2(n) == two_digits(n),
        all_digits(pad2(n)),
        digits_value(pad2(n)) == n,
{
    if n >= 10 {
        assert(decimal(n / 10) =~= seq![digit_char(n / 10)]);
        assert(decimal(n) =~= two_digits(n));
    } else {
        assert(pad2(n) =~= two_digits(n));
    }
    let s = two_digits(n);
    let t = seq![digit_char(n / 10)];
    assert(s.drop_last() =~= t);
    assert(t.drop_last() =~= Seq::<char>::empty());
    assert(digits_value(Seq::<char>::empty()) == 0);
    assert((digit_char(n / 10) as int) == n / 10 + 48);
    assert((digit_char(n % 10) as int) == n % 10 + 48);
    assert(digits_value(t) == n / 10);
    assert(digits_value(s) == (n / 10) * 10 + n % 10);
}

/// From a hundred on, the two-digit notation is the plain decimal notation,
/// which reads back as `n`.
pub proof fn lemma_pad2_reads_back(n: nat)
    ensures
        all_digits(pad2(n)),
        digits_value(pad2(n)) == n,
        pad2(n).len() >= 2,
        n < 100 ==> pad2(n).len() == 2,
{
    if n < 100 {
        lemma_pad2_two_digits(n);
    } else {
        lemma_decimal_reads_back(n);
        lemma_decimal_reads_back(n / 10);
        assert(decimal(n).len() == decimal(n / 10).len() + 1);
    }
}

} // verus!
