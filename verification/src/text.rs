//! Width-aware text layout. Text is measured in characters, never in encoded
//! bytes, so that columns stay aligned under multi-byte characters.

use vstd::prelude::*;

verus! {

/// `n` copies of `c`; nothing when `n` is not positive.
pub open spec fn repeat(c: char, n: int) -> Seq<char> {
    Seq::new((if n > 0 { n } else { 0 }) as nat, |i: int| c)
}

/// `s` followed by blanks up to `w` characters; `s` itself when it is wider.
pub open spec fn left_aligned(s: Seq<char>, w: int) -> Seq<char> {
    s + repeat(' ', w - s.len())
}

/// `s` preceded by blanks up to `w` characters; `s` itself when it is wider.
pub open spec fn right_aligned(s: Seq<char>, w: int) -> Seq<char> {
    repeat(' ', w - s.len()) + s
}

/// `s` between blanks up to `w` characters, the odd blank on the right; `s`
/// itself when it is wider.
pub open spec fn centered(s: Seq<char>, w: int) -> Seq<char> {
    let gap = w - s.len();
    repeat(' ', gap / 2) + s + repeat(' ', gap - gap / 2)
}

/// The character of the decimal digit `d`.
pub open spec fn digit_char(d: int) -> char {
    ('0' as int + d) as char
}

/// `n` in decimal, without leading zeros.
pub open spec fn decimal(n: nat) -> Seq<char>
    decreases n,
{
    if n < 10 {
        seq![digit_char(n as int)]
    } else {
        decimal(n / 10).push(digit_char((n % 10) as int))
    }
}

/// `i` in decimal, with a minus sign when negative.
pub open spec fn signed_decimal(i: int) -> Seq<char> {
    if i < 0 {
        seq!['-'] + decimal((-i) as nat)
    } else {
        decimal(i as nat)
    }
}

/// `n` in decimal, in at least two digits.
pub open spec fn two_digits(n: nat) -> Seq<char> {
    if n < 10 {
        seq!['0'] + decimal(n)
    } else {
        decimal(n)
    }
}

/// The character of the hexadecimal digit `d`, in lower case.
pub open spec fn hex_char(d: int) -> char {
    if d < 10 {
        ('0' as int + d) as char
    } else {
        ('a' as int + d - 10) as char
    }
}

/// The two hexadecimal digits of the octet `b`.
pub open spec fn hex_pair(b: int) -> Seq<char> {
    seq![hex_char(b / 16), hex_char(b % 16)]
}

/// `s` cut to fit `w` columns: a text wider than `w` keeps its first `w - 3`
/// characters and ends in three dots.
pub open spec fn clipped(s: Seq<char>, w: int) -> Seq<char> {
    if s.len() > w {
        s.take(w - 3) + seq!['.', '.', '.']
    } else {
        s
    }
}

/// `10` to the power `k`.
pub open spec fn pow10(k: nat) -> nat
    decreases k,
{
    if k == 0 {
        1
    } else {
        10 * pow10((k - 1) as nat)
    }
}

/// A number below `10^k` has at most `k` digits.
pub proof fn lemma_decimal_len(n: nat, k: nat)
    requires
        k >= 1,
        n < pow10(k),
    ensures
        1 <= decimal(n).len() <= k,
    decreases k,
{
    if n >= 10 {
        assert(pow10(1) == 10) by {
            reveal_with_fuel(pow10, 2);
        }
        assert(k >= 2);
        assert(pow10(k) == 10 * pow10((k - 1) as nat));
        lemma_decimal_len(n / 10, (k - 1) as nat);
    }
}

/// A `u64` has at most twenty digits.
pub proof fn lemma_decimal_len_u64(n: nat)
    requires
        n <= u64::MAX,
    ensures
        1 <= decimal(n).len() <= 20,
{
    assert(pow10(20) == 100_000_000_000_000_000_000nat) by {
        reveal_with_fuel(pow10, 21);
    }
    lemma_decimal_len(n, 20);
}

/// A clipped text fits its columns.
pub proof fn lemma_clipped_len(s: Seq<char>, w: int)
    requires
        w >= 3,
    ensures
        clipped(s, w).len() <= w,
        s.len() <= w ==> clipped(s, w) == s,
{
}

/// The number of characters of `s`.
pub fn width_of(s: &str) -> (n: usize)
    ensures
        n == s@.len(),
{
    s.unicode_len()
}

/// Appends `n` copies of the one character that `glyph` holds.
pub fn append_repeated(out: &mut String, glyph: &str, n: usize)
    requires
        glyph@.len() == 1,
    ensures
        final(out)@ == old(out)@ + repeat(glyph@[0], n as int),
{
    let mut i: usize = 0;
    while i < n
        invariant
            i <= n,
            glyph@.len() == 1,
            out@ == old(out)@ + repeat(glyph@[0], i as int),
        decreases n - i,
    {
        out.append(glyph);
        assert(out@ =~= old(out)@ + repeat(glyph@[0], (i + 1) as int));
        i += 1;
    }
}

/// Appends `n` blanks.
pub fn append_blanks(out: &mut String, n: usize)
    ensures
        final(out)@ == old(out)@ + repeat(' ', n as int),
{
    proof {
        reveal_strlit(" ");
    }
    append_repeated(out, " ", n);
}

/// How many blanks bring `len` characters up to `w` columns.
fn gap(len: usize, w: usize) -> (g: usize)
    ensures
        g == if w > len { w - len } else { 0 },
{
    if w > len {
        w - len
    } else {
        0
    }
}

/// Appends `s` left-aligned in `w` columns.
pub fn append_left(out: &mut String, s: &str, w: usize)
    ensures
        final(out)@ == old(out)@ + left_aligned(s@, w as int),
{
    let g = gap(width_of(s), w);
    out.append(s);
    append_blanks(out, g);
    assert(out@ =~= old(out)@ + left_aligned(s@, w as int));
}

/// `s` left-aligned in `w` columns: the first column of a row.
pub fn first_column(s: &str, w: usize) -> (row: String)
    ensures
        row@ == left_aligned(s@, w as int),
{
    let mut row = String::new();
    append_left(&mut row, s, w);
    assert(row@ =~= left_aligned(s@, w as int));
    row
}

/// Appends a blank and `s` left-aligned in `w` columns: the next column of a
/// row.
pub fn append_column(row: &mut String, s: &str, w: usize)
    ensures
        final(row)@ == old(row)@ + " "@ + left_aligned(s@, w as int),
{
    row.append(" ");
    append_left(row, s, w);
}

/// Appends `s` right-aligned in `w` columns.
pub fn append_right(out: &mut String, s: &str, w: usize)
    ensures
        final(out)@ == old(out)@ + right_aligned(s@, w as int),
{
    let g = gap(width_of(s), w);
    append_blanks(out, g);
    out.append(s);
    assert(out@ =~= old(out)@ + right_aligned(s@, w as int));
}

/// Appends `s` centered in `w` columns.
pub fn append_centered(out: &mut String, s: &str, w: usize)
    ensures
        final(out)@ == old(out)@ + centered(s@, w as int),
{
    let g = gap(width_of(s), w);
    let before = g / 2;
    append_blanks(out, before);
    out.append(s);
    append_blanks(out, g - before);
    assert(out@ =~= old(out)@ + centered(s@, w as int));
}

/// `s` centered in `w` columns.
pub fn centered_text(s: &str, w: usize) -> (t: String)
    ensures
        t@ == centered(s@, w as int),
{
    let mut t = String::new();
    append_centered(&mut t, s, w);
    assert(t@ =~= centered(s@, w as int));
    t
}

/// The text of one decimal digit.
fn digit_text(d: u64) -> (t: &'static str)
    requires
        d < 10,
    ensures
        t@ == seq![digit_char(d as int)],
{
    proof {
        reveal_strlit("0");
        reveal_strlit("1");
        reveal_strlit("2");
        reveal_strlit("3");
        reveal_strlit("4");
        reveal_strlit("5");
        reveal_strlit("6");
        reveal_strlit("7");
        reveal_strlit("8");
        reveal_strlit("9");
    }
    let t = if d == 0 {
        "0"
    } else if d == 1 {
        "1"
    } else if d == 2 {
        "2"
    } else if d == 3 {
        "3"
    } else if d == 4 {
        "4"
    } else if d == 5 {
        "5"
    } else if d == 6 {
        "6"
    } else if d == 7 {
        "7"
    } else if d == 8 {
        "8"
    } else {
        "9"
    };
    assert(t@ =~= seq![digit_char(d as int)]);
    t
}

/// Appends `n` in decimal.
pub fn append_decimal(out: &mut String, n: u64)
    ensures
        final(out)@ == old(out)@ + decimal(n as nat),
    decreases n,
{
    if n >= 10 {
        append_decimal(out, n / 10);
    }
    out.append(digit_text(n % 10));
    assert(out@ =~= old(out)@ + decimal(n as nat));
}

/// Appends `n` in decimal, in at least two digits.
pub fn append_two_digits(out: &mut String, n: u64)
    ensures
        final(out)@ == old(out)@ + two_digits(n as nat),
{
    if n < 10 {
        proof {
            reveal_strlit("0");
        }
        out.append("0");
    }
    append_decimal(out, n);
    assert(out@ =~= old(out)@ + two_digits(n as nat));
}

/// Appends `i` in decimal, with a minus sign when negative.
pub fn append_signed(out: &mut String, i: i64)
    ensures
        final(out)@ == old(out)@ + signed_decimal(i as int),
{
    if i < 0 {
        proof {
            reveal_strlit("-");
        }
        out.append("-");
        let magnitude: u64 = if i == i64::MIN {
            9_223_372_036_854_775_808u64
        } else {
            (-i) as u64
        };
        append_decimal(out, magnitude);
    } else {
        append_decimal(out, i as u64);
    }
    assert(out@ =~= old(out)@ + signed_decimal(i as int));
}

/// `n` in decimal.
pub fn decimal_text(n: u64) -> (t: String)
    ensures
        t@ == decimal(n as nat),
{
    let mut t = String::new();
    append_decimal(&mut t, n);
    assert(t@ =~= decimal(n as nat));
    t
}

/// `i` in decimal, with a minus sign when negative.
pub fn signed_text(i: i64) -> (t: String)
    ensures
        t@ == signed_decimal(i as int),
{
    let mut t = String::new();
    append_signed(&mut t, i);
    assert(t@ =~= signed_decimal(i as int));
    t
}

/// `s` cut to fit `w` columns.
pub fn clip(s: &str, w: usize) -> (t: String)
    requires
        w >= 3,
    ensures
        t@ == clipped(s@, w as int),
{
    if width_of(s) > w {
        let mut t = String::from_str(s.substring_char(0, w - 3));
        proof {
            reveal_strlit("...");
        }
        t.append("...");
        assert(t@ =~= clipped(s@, w as int));
        t
    } else {
        String::from_str(s)
    }
}

/// The text of one hexadecimal digit.
fn hex_text(d: u8) -> (t: &'static str)
    requires
        d < 16,
    ensures
        t@ == seq![hex_char(d as int)],
{
    proof {
        reveal_strlit("a");
        reveal_strlit("b");
        reveal_strlit("c");
        reveal_strlit("d");
        reveal_strlit("e");
        reveal_strlit("f");
    }
    let t = if d < 10 {
        digit_text(d as u64)
    } else if d == 10 {
        "a"
    } else if d == 11 {
        "b"
    } else if d == 12 {
        "c"
    } else if d == 13 {
        "d"
    } else if d == 14 {
        "e"
    } else {
        "f"
    };
    assert(t@ =~= seq![hex_char(d as int)]);
    t
}

/// Appends the two hexadecimal digits of the octet `b`.
pub fn append_hex_pair(out: &mut String, b: u8)
    ensures
        final(out)@ == old(out)@ + hex_pair(b as int),
{
    out.append(hex_text(b / 16));
    out.append(hex_text(b % 16));
    assert(out@ =~= old(out)@ + hex_pair(b as int));
}

} // verus!
