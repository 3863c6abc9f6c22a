//! Text building blocks shared by the renderers: decimal numerals and
//! separator-joined lists, each with its mathematical description.

use vstd::prelude::*;

verus! {

/// The character of a digit; `9` stands for anything above.
pub open spec fn digit_char(d: nat) -> char {
    if d == 0 {
        '0'
    } else if d == 1 {
        '1'
    } else if d == 2 {
        '2'
    } else if d == 3 {
        '3'
    } else if d == 4 {
        '4'
    } else if d == 5 {
        '5'
    } else if d == 6 {
        '6'
    } else if d == 7 {
        '7'
    } else if d == 8 {
        '8'
    } else {
        '9'
    }
}

/// The digit that a character stands for; 0 for a character that is no
/// digit.
pub open spec fn digit_value(c: char) -> nat {
    if c == '1' {
        1
    } else if c == '2' {
        2
    } else if c == '3' {
        3
    } else if c == '4' {
        4
    } else if c == '5' {
        5
    } else if c == '6' {
        6
    } else if c == '7' {
        7
    } else if c == '8' {
        8
    } else if c == '9' {
        9
    } else {
        0
    }
}

/// Whether a character is one of `0` to `9`.
pub open spec fn is_digit(c: char) -> bool {
    c == '0' || digit_value(c) > 0
}

/// The number that a sequence of digits denotes in base ten.
pub open spec fn numeral_value(digits: Seq<char>) -> nat
    decreases digits.len(),
{
    if digits.len() == 0 {
        0
    } else {
        numeral_value(digits.drop_last()) * 10 + digit_value(digits.last())
    }
}

/// The decimal numeral of a natural number: most significant digit first.
pub open spec fn decimal(n: nat) -> Seq<char>
    decreases n,
{
    if n < 10 {
        seq![digit_char(n)]
    } else {
        decimal(n / 10).push(digit_char(n % 10))
    }
}

/// The decimal numeral of an integer: a minus sign before the numeral of the
/// magnitude when the integer is negative.
pub open spec fn signed_decimal(i: int) -> Seq<char> {
    if i < 0 {
        seq!['-'] + decimal((-i) as nat)
    } else {
        decimal(i as nat)
    }
}

/// The first `n` of `parts`, in order, with `sep` between neighbours:
/// nothing before the first part and nothing after the last.
pub open spec fn joined(parts: Seq<Seq<char>>, sep: Seq<char>, n: nat) -> Seq<char>
    decreases n,
{
    if n == 0 {
        Seq::empty()
    } else if n == 1 {
        parts[0]
    } else {
        joined(parts, sep, (n - 1) as nat) + sep + parts[n - 1]
    }
}

/// Where part `i` starts inside `joined(parts, sep, n)` for any `n > i`.
pub open spec fn part_start(parts: Seq<Seq<char>>, sep: Seq<char>, i: nat) -> nat
    decreases i,
{
    if i == 0 {
        0
    } else {
        part_start(parts, sep, (i - 1) as nat) + parts[i - 1].len() + sep.len()
    }
}

/// The views of a list of string slices.
pub open spec fn views(items: Seq<&str>) -> Seq<Seq<char>> {
    items.map_values(|s: &str| s@)
}

fn digit_str(d: u64) -> (s: &'static str)
    requires
        d < 10,
    ensures
        s@ == seq![digit_char(d as nat)],
{
    proof {
        reveal_strlit("0");
        reveal_strlit("1");
        reveal_strlit("2");
        reveal_strlit("3");
        reveal_strlit("4");
        reveal_strlit("5");
        reveal_strlit("6");
        reveal_strlit("7");
        reveal_strlit("8");
        reveal_strlit("9");
    }
    if d == 0 {
        "0"
    } else if d == 1 {
        "1"
    } else if d == 2 {
        "2"
    } else if d == 3 {
        "3"
    } else if d == 4 {
        "4"
    } else if d == 5 {
        "5"
    } else if d == 6 {
        "6"
    } else if d == 7 {
        "7"
    } else if d == 8 {
        "8"
    } else {
        "9"
    }
}

/// Appends the decimal numeral of `n` to `out`.
pub fn push_decimal(out: &mut String, n: u64)
    ensures
        final(out)@ == old(out)@ + decimal(n as nat),
    decreases n,
{
    if n >= 10 {
        push_decimal(out, n / 10);
    }
    out.append(digit_str(n % 10));
}

/// Appends the decimal numeral of `i` to `out`, with a minus sign before it
/// when `i` is negative.
pub fn push_signed_decimal(out: &mut String, i: i64)
    ensures
        final(out)@ == old(out)@ + signed_decimal(i as int),
{
    if i < 0 {
        proof {
            reveal_strlit("-");
        }
        out.append("-");
        let magnitude: u64 = (-(i + 1)) as u64 + 1;
        push_decimal(out, magnitude);
    } else {
        push_decimal(out, i as u64);
    }
}

/// A decimal numeral is a numeral of its number: it has at least one
/// character, every character is a digit, it has no leading zero unless the
/// number is zero, and read in base ten it gives the number back.
pub proof fn lemma_decimal_reads_back(n: nat)
    ensures
        decimal(n).len() >= 1,
        forall|i: int| 0 <= i < decimal(n).len() ==> is_digit(#[trigger] decimal(n)[i]),
        n == 0 ==> decimal(n) == seq!['0'],
        n > 0 ==> decimal(n)[0] != '0',
        numeral_value(decimal(n)) == n,
    decreases n,
{
    if n < 10 {
        let digits = seq![digit_char(n)];
        assert(digits.drop_last() =~= Seq::<char>::empty());
        assert(numeral_value(digits.drop_last()) == 0);
    } else {
        lemma_decimal_reads_back(n / 10);
        let digits = decimal(n);
        assert(digits.drop_last() =~= decimal(n / 10));
        assert(digits.last() == digit_char(n % 10));
        assert(digits[0] == decimal(n / 10)[0]);
    }
}

/// Text appended after `base + acc` extends what follows `base`.
pub proof fn lemma_append(base: Seq<char>, acc: Seq<char>, piece: Seq<char>)
    ensures
        base + acc + piece == base + (acc + piece),
{
    assert(base + acc + piece =~= base + (acc + piece));
}

/// Writing part `n` after the first `n` parts, with the separator before it
/// unless it is the first, gives the first `n + 1` parts.
pub proof fn lemma_joined_step(base: Seq<char>, parts: Seq<Seq<char>>, sep: Seq<char>, n: nat)
    ensures
        n == 0 ==> base + joined(parts, sep, 0) + parts[0] == base + joined(parts, sep, 1),
        n > 0 ==> base + joined(parts, sep, n) + sep + parts[n as int] == base + joined(
            parts,
            sep,
            n + 1,
        ),
{
    if n == 0 {
        assert(base + joined(parts, sep, 0) =~= base);
    } else {
        lemma_append(base, joined(parts, sep, n), sep);
        lemma_append(base, joined(parts, sep, n) + sep, parts[n as int]);
    }
}

/// The length of a joined list: where its last part starts, plus that part.
pub proof fn lemma_joined_len(parts: Seq<Seq<char>>, sep: Seq<char>, n: nat)
    requires
        0 < n <= parts.len(),
    ensures
        joined(parts, sep, n).len() == part_start(parts, sep, (n - 1) as nat) + parts[n
            - 1].len(),
    decreases n,
{
    if n > 1 {
        lemma_joined_len(parts, sep, (n - 1) as nat);
    }
}

/// In a joined list every part stands exactly once, at its own place and in
/// order: part `i` fills the positions from `part_start(i)` on, the separator
/// follows it exactly when another part comes after, and the text ends with
/// the last part, so no separator trails.
pub proof fn lemma_joined_parts(parts: Seq<Seq<char>>, sep: Seq<char>, n: nat, i: nat)
    requires
        i < n <= parts.len(),
    ensures
        ({
            let text = joined(parts, sep, n);
            let start = part_start(parts, sep, i) as int;
            let end = start + parts[i as int].len();
            &&& end <= text.len()
            &&& text.subrange(start, end) == parts[i as int]
            &&& i + 1 < n ==> end + sep.len() <= text.len() && text.subrange(
                end,
                end + sep.len(),
            ) == sep
            &&& i + 1 == n ==> end == text.len()
        }),
    decreases n,
{
    let text = joined(parts, sep, n);
    let start = part_start(parts, sep, i) as int;
    let end = start + parts[i as int].len();
    if n == 1 {
        assert(text.subrange(start, end) =~= parts[0]);
    } else if i + 1 == n {
        lemma_joined_len(parts, sep, (n - 1) as nat);
        assert(text.subrange(start, end) =~= parts[i as int]);
    } else {
        let shorter = joined(parts, sep, (n - 1) as nat);
        lemma_joined_parts(parts, sep, (n - 1) as nat, i);
        assert(text.subrange(start, end) =~= shorter.subrange(start, end));
        if i + 2 == n {
            assert(text.subrange(end, end + sep.len()) =~= sep);
        } else {
            assert(text.subrange(end, end + sep.len()) =~= shorter.subrange(
                end,
                end + sep.len(),
            ));
        }
    }
}

} // verus!
