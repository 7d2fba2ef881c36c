//! Building blocks for the text that the player shows: repeated characters,
//! decimal numbers, centering and terminal cell widths.

use vstd::prelude::*;
use vstd::string::*;

verus! {

/// `n` copies of the character `c`.
pub open spec fn repeated(c: char, n: nat) -> Seq<char> {
    Seq::new(n, |i: int| c)
}

/// The character of a decimal digit.
pub open spec fn digit_char(d: nat) -> char {
    (48 + d) as char
}

/// The decimal digits of `n`, most significant first, without leading zeros.
pub open spec fn decimal(n: nat) -> Seq<char>
    decreases n,
{
    if n < 10 {
        seq![digit_char(n)]
    } else {
        decimal(n / 10).push(digit_char(n % 10))
    }
}

/// `text` padded with leading spaces to at least `width` characters.
pub open spec fn right_aligned(text: Seq<char>, width: nat) -> Seq<char> {
    if text.len() >= width {
        text
    } else {
        repeated(' ', (width - text.len()) as nat) + text
    }
}

/// How many terminal cells one character takes: the two speaker emoji are
/// double-width, everything else is counted as one.
pub open spec fn cell(c: char) -> nat {
    if c == '🔊' || c == '🔇' {
        2
    } else {
        1
    }
}

/// How many terminal cells a text takes.
pub open spec fn cells(s: Seq<char>) -> nat
    decreases s.len(),
{
    if s.len() == 0 {
        0
    } else {
        cell(s[0]) + cells(s.drop_first())
    }
}

/// `text` with spaces on both sides so that it fills `width` characters, the
/// odd space going to the right; `text` itself when it is at least that long.
pub open spec fn centered(text: Seq<char>, width: nat) -> Seq<char> {
    if text.len() >= width {
        text
    } else {
        let left = ((width - text.len()) / 2) as nat;
        repeated(' ', left) + text + repeated(' ', (width - text.len() - left) as nat)
    }
}

/// Two texts side by side take the cells of both.
pub proof fn cells_of_concatenation(a: Seq<char>, b: Seq<char>)
    ensures
        cells(a + b) == cells(a) + cells(b),
    decreases a.len(),
{
    if a.len() == 0 {
        assert(a + b =~= b);
    } else {
        cells_of_concatenation(a.drop_first(), b);
        assert((a + b).drop_first() =~= a.drop_first() + b);
    }
}

/// A text without double-width characters takes one cell for each character.
pub proof fn cells_of_narrow_text(s: Seq<char>)
    requires
        forall|i: int| 0 <= i < s.len() ==> cell(#[trigger] s[i]) == 1,
    ensures
        cells(s) == s.len(),
    decreases s.len(),
{
    if s.len() > 0 {
        assert forall|i: int| 0 <= i < s.drop_first().len() implies cell(
            #[trigger] s.drop_first()[i],
        ) == 1 by {
            assert(s.drop_first()[i] == s[i + 1]);
        }
        cells_of_narrow_text(s.drop_first());
    }
}

/// A text never takes more cells than its UTF-8 encoding has bytes.
proof fn cells_within_bytes(s: Seq<char>)
    ensures
        cells(s) <= vstd::utf8::encode_utf8(s).len(),
    decreases s.len(),
{
    if s.len() > 0 {
        cells_within_bytes(s.drop_first());
        assert(vstd::utf8::encode_utf8(s) == vstd::utf8::encode_scalar(s[0] as u32) + vstd::utf8::encode_utf8(s.drop_first()));
    }
}

/// A decimal number has at least one digit, and every digit takes one cell.
pub proof fn decimal_is_narrow(n: nat)
    ensures
        decimal(n).len() >= 1,
        forall|i: int| 0 <= i < decimal(n).len() ==> '0' <= #[trigger] decimal(n)[i] <= '9',
        cells(decimal(n)) == decimal(n).len(),
    decreases n,
{
    if n >= 10 {
        decimal_is_narrow(n / 10);
    }
    cells_of_narrow_text(decimal(n));
}

/// Centering fills exactly the given width whenever the text fits in it, puts
/// the text between the two paddings, and lets them differ by at most one.
pub proof fn centered_fills_the_width(text: Seq<char>, width: nat)
    ensures
        centered(text, width).len() == if text.len() >= width {
            text.len()
        } else {
            width
        },
        exists|left: int|
            {
                let right = centered(text, width).len() - left - text.len();
                &&& 0 <= left <= right <= left + 1
                &&& #[trigger] centered(text, width).subrange(left, left + text.len()) == text
            },
{
    let left: int = if text.len() >= width {
        0
    } else {
        (width - text.len()) / 2
    };
    assert(centered(text, width).subrange(left, left + text.len()) =~= text);
}

/// Appends `n` copies of the one-character text `unit` to `out`.
pub(crate) fn push_repeated(out: &mut String, unit: &str, n: usize)
    requires
        unit@.len() == 1,
    ensures
        final(out)@ == old(out)@ + repeated(unit@[0], n as nat),
{
    let ghost before = out@;
    let mut i: usize = 0;
    while i < n
        invariant
            i <= n,
            unit@.len() == 1,
            out@ == before + repeated(unit@[0], i as nat),
        decreases n - i,
    {
        out.append(unit);
        i = i + 1;
        assert(out@ =~= before + repeated(unit@[0], i as nat));
    }
    assert(out@ =~= before + repeated(unit@[0], n as nat));
}

/// Appends one decimal digit to `out`.
fn push_digit(out: &mut String, digit: u64)
    requires
        digit < 10,
    ensures
        final(out)@ == old(out)@.push(digit_char(digit as nat)),
{
    proof {
        reveal_strlit("0");
        reveal_strlit("1");
        reveal_strlit("2");
        reveal_strlit("3");
        reveal_strlit("4");
        reveal_strlit("5");
        reveal_strlit("6");
        reveal_strlit("7");
        reveal_strlit("8");
        reveal_strlit("9");
    }
    let ghost before = out@;
    let text = match digit {
        0 => "0",
        1 => "1",
        2 => "2",
        3 => "3",
        4 => "4",
        5 => "5",
        6 => "6",
        7 => "7",
        8 => "8",
        _ => "9",
    };
    out.append(text);
    assert(out@ =~= before.push(digit_char(digit as nat)));
}

/// Appends the decimal digits of `n` to `out`.
pub(crate) fn push_decimal(out: &mut String, n: u64)
    ensures
        final(out)@ == old(out)@ + decimal(n as nat),
    decreases n,
{
    let ghost before = out@;
    if n >= 10 {
        push_decimal(out, n / 10);
    }
    push_digit(out, n % 10);
    assert(out@ =~= before + decimal(n as nat));
}

/// Appends `n` to `out`, right-aligned in a column of three characters.
pub(crate) fn push_right_aligned(out: &mut String, n: u8)
    ensures
        final(out)@ == old(out)@ + right_aligned(decimal(n as nat), 3),
{
    let ghost before = out@;
    proof {
        reveal_strlit(" ");
        reveal_with_fuel(decimal, 3);
    }
    if n < 10 {
        push_repeated(out, " ", 2);
    } else if n < 100 {
        push_repeated(out, " ", 1);
    }
    push_decimal(out, n as u64);
    assert(out@ =~= before + right_aligned(decimal(n as nat), 3));
}

/// Center `text` within `width` characters (as it is when it does not fit).
pub fn center(text: &str, width: usize) -> (line: String)
    ensures
        line@ == centered(text@, width as nat),
{
    let tl: usize = text.unicode_len();
    if tl >= width {
        return text.to_owned();
    }
    let left: usize = (width - tl) / 2;
    let right: usize = width - tl - left;
    let mut line = String::new();
    proof {
        reveal_strlit(" ");
    }
    push_repeated(&mut line, " ", left);
    line.append(text);
    push_repeated(&mut line, " ", right);
    assert(line@ =~= centered(text@, width as nat));
    line
}

/// Approximate terminal cell width (the speaker emoji is double-width).
pub fn cell_width(s: &str) -> (width: usize)
    ensures
        width == cells(s@),
{
    let bytes: usize = s.as_bytes().len();
    proof {
        cells_within_bytes(s@);
    }
    let mut width: usize = 0;
    assert(s@.skip(0) =~= s@);
    for c in it: s.chars()
        invariant
            it.seq() == s@,
            width + cells(s@.skip(it.index())) == cells(s@),
            cells(s@) <= bytes,
    {
        assert(s@.skip(it.index()).drop_first() =~= s@.skip(it.index() + 1));
        assert(s@.skip(it.index())[0] == c);
        if c == '🔊' || c == '🔇' {
            width = width + 2;
        } else {
            width = width + 1;
        }
    }
    assert(s@.skip(s@.len() as int) =~= Seq::<char>::empty());
    width
}

/// A run of a character has the length that was asked for and holds nothing else.
pub proof fn run_is_uniform(c: char, n: nat)
    ensures
        repeated(c, n).len() == n,
        forall|i: int| 0 <= i < n ==> #[trigger] repeated(c, n)[i] == c,
{
}

/// The number that a text of decimal digits stands for.
pub open spec fn number_in(digits: Seq<char>) -> int
    decreases digits.len(),
{
    if digits.len() == 0 {
        0
    } else {
        10 * number_in(digits.drop_last()) + (digits.last() as int - '0' as int)
    }
}

/// A number that is written down reads as itself, has no leading zero, and so is
/// written like no other.
pub proof fn decimal_reads_as_the_number(n: nat)
    ensures
        number_in(decimal(n)) == n,
        forall|i: int| 0 <= i < decimal(n).len() ==> '0' <= #[trigger] decimal(n)[i] <= '9',
        decimal(n).len() > 0,
        decimal(n)[0] == '0' ==> n == 0 && decimal(n).len() == 1,
    decreases n,
{
    decimal_is_narrow(n);
    reveal_with_fuel(number_in, 2);
    if n >= 10 {
        decimal_reads_as_the_number(n / 10);
        assert(decimal(n).drop_last() =~= decimal(n / 10));
    } else {
        assert(decimal(n).drop_last() =~= Seq::<char>::empty());
    }
}

/// Two numbers that are written alike are the same.
pub proof fn decimals_tell_numbers_apart(m: nat, n: nat)
    requires
        decimal(m) == decimal(n),
    ensures
        m == n,
{
    decimal_reads_as_the_number(m);
    decimal_reads_as_the_number(n);
}

/// Right-aligned, a text ends with itself and has only spaces before it, as many
/// as it takes to fill the width.
pub proof fn right_aligned_ends_with_the_text(text: Seq<char>, width: nat)
    ensures
        ({
            let line = right_aligned(text, width);
            let rest = line.len() - text.len();
            &&& rest >= 0
            &&& line.len() == if text.len() >= width {
                text.len()
            } else {
                width
            }
            &&& line.skip(rest) == text
            &&& forall|i: int| 0 <= i < rest ==> #[trigger] line[i] == ' '
        }),
{
    let line = right_aligned(text, width);
    assert(line.skip(line.len() - text.len()) =~= text);
}

/// A character takes two cells exactly when it is one of the two speakers, and
/// one cell otherwise; no character takes no cell.
pub proof fn speakers_are_wide(c: char)
    ensures
        cells(Seq::empty()) == 0,
        cells(seq![c]) == if c == '🔊' || c == '🔇' {
            2nat
        } else {
            1
        },
{
    assert(seq![c].drop_first() =~= Seq::<char>::empty());
    reveal_with_fuel(cells, 2);
}

/// Centered, a text has only spaces on either side.
pub proof fn centered_text_is_between_spaces(text: Seq<char>, width: nat)
    ensures
        ({
            let line = centered(text, width);
            let left: int = if text.len() >= width {
                0
            } else {
                (width - text.len()) / 2
            };
            &&& line.subrange(left, left + text.len()) == text
            &&& forall|i: int|
                0 <= i < line.len() && !(left <= i < left + text.len()) ==> #[trigger] line[i] == ' '
        }),
{
    let left: int = if text.len() >= width {
        0
    } else {
        (width - text.len()) / 2
    };
    assert(centered(text, width).subrange(left, left + text.len()) =~= text);
}

} // verus!
