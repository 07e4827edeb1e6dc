//! Text building blocks: decimal numerals, zero-padded fields, space padding,
//! and the fixed-point amount field used by the record formatter.

use vstd::prelude::*;

verus! {

/// Relies on `String::push` from std: appends the given character to the end
/// of the string.
pub assume_specification[ String::push ](s: &mut String, ch: char)
    ensures
        final(s)@ == old(s)@.push(ch),
;

/// The character for a single decimal digit.
pub open spec fn digit_char(d: int) -> char {
    if d == 0 {
        '0'
    } else if d == 1 {
        '1'
    } else if d == 2 {
        '2'
    } else if d == 3 {
        '3'
    } else if d == 4 {
        '4'
    } else if d == 5 {
        '5'
    } else if d == 6 {
        '6'
    } else if d == 7 {
        '7'
    } else if d == 8 {
        '8'
    } else {
        '9'
    }
}

/// The decimal numeral for `n`, most significant digit first, no leading
/// zeros (the numeral for zero is the single digit `0`).
pub open spec fn dec_rep(n: nat) -> Seq<char>
    decreases n,
{
    if n < 10 {
        seq![digit_char(n as int)]
    } else {
        dec_rep(n / 10).push(digit_char((n % 10) as int))
    }
}

/// `k` space characters.
pub open spec fn spaces(k: nat) -> Seq<char>
    decreases k,
{
    if k == 0 {
        Seq::empty()
    } else {
        spaces((k - 1) as nat).push(' ')
    }
}

pub proof fn lemma_spaces_len(k: nat)
    ensures
        spaces(k).len() == k,
    decreases k,
{
    if k > 0 {
        lemma_spaces_len((k - 1) as nat);
    }
}

/// `s` padded on the left with spaces to at least `w` characters.
pub open spec fn pad_left(s: Seq<char>, w: nat) -> Seq<char> {
    if s.len() >= w {
        s
    } else {
        spaces((w - s.len()) as nat) + s
    }
}

pub fn digit_to_char(d: u8) -> (c: char)
    requires
        d < 10,
    ensures
        c == digit_char(d as int),
{
    if d == 0 {
        '0'
    } else if d == 1 {
        '1'
    } else if d == 2 {
        '2'
    } else if d == 3 {
        '3'
    } else if d == 4 {
        '4'
    } else if d == 5 {
        '5'
    } else if d == 6 {
        '6'
    } else if d == 7 {
        '7'
    } else if d == 8 {
        '8'
    } else {
        '9'
    }
}

/// Appends the decimal numeral of `m` to `out`.
pub fn push_dec(m: u64, out: &mut String)
    ensures
        final(out)@ == old(out)@ + dec_rep(m as nat),
    decreases m,
{
    if m >= 10 {
        push_dec(m / 10, out);
    }
    out.push(digit_to_char((m % 10) as u8));
    proof {
        assert(out@ =~= old(out)@ + dec_rep(m as nat));
    }
}

/// The amount column: the decimal numeral padded on the left with spaces to at
/// least 16 characters, with a decimal point inserted two characters before
/// the end of the padded field. The point is placed by position, not by value,
/// so for short numerals it lands among the padding spaces; this keeps the
/// column width fixed.
pub open spec fn amount_field(n: nat) -> Seq<char> {
    let p = pad_left(dec_rep(n), 16);
    p.subrange(0, p.len() - 2) + seq!['.'] + p.subrange(p.len() - 2, p.len() as int)
}

/// `s` padded on the left with spaces to at least 16 characters.
fn pad_left_16(s: &str) -> (r: String)
    ensures
        r@ == pad_left(s@, 16),
        r@.len() >= 16,
        r@.len() == if s@.len() >= 16 { s@.len() } else { 16nat },
{
    let n = s.unicode_len();
    let mut r = String::new();
    let mut k: usize = n;
    while k < 16
        invariant
            n <= k,
            k <= 16 || k == n,
            r@ == spaces((k - n) as nat),
        decreases 16 - k,
    {
        r.push(' ');
        k += 1;
        proof {
            lemma_spaces_len((k - n) as nat);
            assert(r@ =~= spaces((k - n) as nat));
        }
    }
    r.append(s);
    proof {
        lemma_spaces_len((k - n) as nat);
        assert(r@ =~= pad_left(s@, 16));
    }
    r
}

/// No newline character occurs in `s`.
pub open spec fn no_newline(s: Seq<char>) -> bool {
    forall|i: int| 0 <= i < s.len() ==> s[i] != '\n'
}

/// The number of newline characters in `s`: with every line terminated by a
/// newline, this is the number of lines of text.
pub open spec fn count_newlines(s: Seq<char>) -> nat
    decreases s.len(),
{
    if s.len() == 0 {
        0
    } else {
        count_newlines(s.drop_last()) + if s.last() == '\n' {
            1nat
        } else {
            0nat
        }
    }
}

pub proof fn lemma_count_newlines_concat(a: Seq<char>, b: Seq<char>)
    ensures
        count_newlines(a + b) == count_newlines(a) + count_newlines(b),
    decreases b.len(),
{
    if b.len() == 0 {
        assert(a + b =~= a);
    } else {
        assert((a + b).drop_last() =~= a + b.drop_last());
        lemma_count_newlines_concat(a, b.drop_last());
    }
}

pub proof fn lemma_count_newlines_none(s: Seq<char>)
    requires
        no_newline(s),
    ensures
        count_newlines(s) == 0,
    decreases s.len(),
{
    if s.len() > 0 {
        lemma_count_newlines_none(s.drop_last());
    }
}

/// The digits of a numeral are decimal digits, never a newline.
pub proof fn lemma_dec_rep_no_newline(n: nat)
    ensures
        no_newline(dec_rep(n)),
    decreases n,
{
    if n >= 10 {
        lemma_dec_rep_no_newline(n / 10);
    }
}

pub proof fn lemma_spaces_no_newline(k: nat)
    ensures
        no_newline(spaces(k)),
    decreases k,
{
    if k > 0 {
        lemma_spaces_no_newline((k - 1) as nat);
    }
}

/// The amount column holds only spaces, digits and the point.
pub proof fn lemma_amount_field_no_newline(n: nat)
    ensures
        no_newline(amount_field(n)),
{
    lemma_dec_rep_no_newline(n);
    lemma_spaces_no_newline((16 - dec_rep(n).len()) as nat);
}

/// `10^k`.
pub open spec fn pow10(k: nat) -> nat
    decreases k,
{
    if k == 0 {
        1
    } else {
        10 * pow10((k - 1) as nat)
    }
}

/// A numeral never has more digits than the power of ten that bounds its
/// value: `n < 10^k` gives at most `k` digits.
pub proof fn lemma_dec_rep_len_bound(n: nat, k: nat)
    requires
        k >= 1,
        n < pow10(k),
    ensures
        dec_rep(n).len() <= k,
    decreases k,
{
    if n >= 10 {
        assert(pow10(k) == 10 * pow10((k - 1) as nat));
        lemma_dec_rep_len_bound(n / 10, (k - 1) as nat);
    }
}

/// The amount column has a fixed width: any amount of at most sixteen digits
/// renders as exactly seventeen characters, with the decimal point at the
/// fifteenth (two characters from the end of the sixteen-character padded
/// numeral).
pub proof fn lemma_amount_field_width(n: nat)
    requires
        n < 10_000_000_000_000_000,
    ensures
        amount_field(n).len() == 17,
        amount_field(n)[14] == '.',
{
    assert(pow10(16) == 10_000_000_000_000_000) by {
        reveal_with_fuel(pow10, 17);
    }
    lemma_dec_rep_len_bound(n, 16);
    lemma_spaces_len((16 - dec_rep(n).len()) as nat);
}

/// Renders an amount (in the smallest currency unit) as the fixed-width
/// column described by [`amount_field`].
pub fn render_amount(n: u64) -> (s: String)
    ensures
        s@ == amount_field(n as nat),
{
    let mut d = String::new();
    push_dec(n, &mut d);
    proof {
        assert(d@ =~= dec_rep(n as nat));
    }
    let p = pad_left_16(d.as_str());
    let len = p.as_str().unicode_len();
    let head = p.as_str().substring_char(0, len - 2);
    let tail = p.as_str().substring_char(len - 2, len);
    let mut s = String::new();
    s.append(head);
    s.push('.');
    s.append(tail);
    proof {
        assert(s@ =~= amount_field(n as nat));
    }
    s
}

} // verus!
