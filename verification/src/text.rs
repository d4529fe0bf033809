//! Text helpers shared by the SQL renderers: joining with a separator and
//! decimal numbers, each with its specification.

use vstd::prelude::*;

verus! {

/// `parts` joined with `sep` between neighbours: "" for no part, the part
/// itself for one.
pub open spec fn join(parts: Seq<Seq<char>>, sep: Seq<char>) -> Seq<char>
    decreases parts.len(),
{
    if parts.len() == 0 {
        Seq::empty()
    } else if parts.len() == 1 {
        parts[0]
    } else {
        join(parts.drop_last(), sep) + sep + parts.last()
    }
}

/// The character of a decimal digit.
pub open spec fn digit_char(d: nat) -> char {
    if d == 0 {
        '0'
    } else if d == 1 {
        '1'
    } else if d == 2 {
        '2'
    } else if d == 3 {
        '3'
    } else if d == 4 {
        '4'
    } else if d == 5 {
        '5'
    } else if d == 6 {
        '6'
    } else if d == 7 {
        '7'
    } else if d == 8 {
        '8'
    } else {
        '9'
    }
}

/// The value of a decimal digit character, the inverse of `digit_char`.
pub open spec fn char_digit(c: char) -> nat {
    if c == '0' {
        0
    } else if c == '1' {
        1
    } else if c == '2' {
        2
    } else if c == '3' {
        3
    } else if c == '4' {
        4
    } else if c == '5' {
        5
    } else if c == '6' {
        6
    } else if c == '7' {
        7
    } else if c == '8' {
        8
    } else {
        9
    }
}

/// The shortest decimal representation of `n`, without sign.
pub open spec fn decimal(n: nat) -> Seq<char>
    decreases n,
{
    if n < 10 {
        seq![digit_char(n)]
    } else {
        decimal(n / 10).push(digit_char(n % 10))
    }
}

/// The number that a string of decimal digits denotes.
pub open spec fn decimal_value(s: Seq<char>) -> nat
    decreases s.len(),
{
    if s.len() == 0 {
        0
    } else {
        decimal_value(s.drop_last()) * 10 + char_digit(s.last())
    }
}

/// A signed integer in decimal, with a leading '-' when negative.
pub open spec fn signed_decimal(x: int) -> Seq<char> {
    if x < 0 {
        seq!['-'] + decimal((-x) as nat)
    } else {
        decimal(x as nat)
    }
}

/// Joining one more part adds the separator (unless it is the first part)
/// and the part.
pub proof fn lemma_join_push(parts: Seq<Seq<char>>, sep: Seq<char>, x: Seq<char>)
    ensures
        join(parts.push(x), sep) == if parts.len() == 0 {
            x
        } else {
            join(parts, sep) + sep + x
        },
{
    assert(parts.push(x).drop_last() =~= parts);
}

/// Concatenation regroups freely.
pub proof fn lemma_concat_assoc(a: Seq<char>, b: Seq<char>, c: Seq<char>)
    ensures
        a + b + c == a + (b + c),
{
    assert(a + b + c =~= a + (b + c));
}

/// Appending nothing changes nothing.
pub proof fn lemma_concat_empty(a: Seq<char>)
    ensures
        a + Seq::<char>::empty() == a,
{
    assert(a + Seq::<char>::empty() =~= a);
}

/// Decimal rendering is undone by reading the digits back.
pub proof fn lemma_decimal_roundtrip(n: nat)
    ensures
        decimal_value(decimal(n)) == n,
        decimal(n).len() >= 1,
    decreases n,
{
    if n < 10 {
        let s = decimal(n);
        assert(s.drop_last() =~= Seq::<char>::empty());
        assert(char_digit(digit_char(n)) == n);
        assert(decimal_value(s) == decimal_value(s.drop_last()) * 10 + char_digit(s.last()));
        assert(decimal_value(Seq::<char>::empty()) == 0);
    } else {
        lemma_decimal_roundtrip(n / 10);
        let s = decimal(n);
        assert(s.drop_last() =~= decimal(n / 10));
        assert(char_digit(digit_char(n % 10)) == n % 10);
        assert(s.last() == digit_char(n % 10));
        assert(decimal_value(s) == decimal_value(decimal(n / 10)) * 10 + char_digit(s.last()));
        assert(n == (n / 10) * 10 + n % 10);
    }
}

/// A decimal representation starts with a digit, never with a sign.
pub proof fn lemma_decimal_starts_with_digit(n: nat)
    ensures
        decimal(n).len() >= 1,
        decimal(n)[0] != '-',
    decreases n,
{
    if n >= 10 {
        lemma_decimal_starts_with_digit(n / 10);
        assert(decimal(n)[0] == decimal(n / 10)[0]);
    }
}

/// Different integers are written differently: signed decimal
/// representations are injective.
pub proof fn lemma_signed_decimal_injective(x: int, y: int)
    ensures
        signed_decimal(x) == signed_decimal(y) <==> x == y,
{
    if signed_decimal(x) == signed_decimal(y) {
        lemma_decimal_roundtrip((if x < 0 { -x } else { x }) as nat);
        lemma_decimal_roundtrip((if y < 0 { -y } else { y }) as nat);
        if x < 0 && y < 0 {
            assert(signed_decimal(x).drop_first() =~= decimal((-x) as nat));
            assert(signed_decimal(y).drop_first() =~= decimal((-y) as nat));
        } else if x < 0 {
            lemma_decimal_starts_with_digit(y as nat);
            assert(signed_decimal(x)[0] == '-');
        } else if y < 0 {
            lemma_decimal_starts_with_digit(x as nat);
            assert(signed_decimal(y)[0] == '-');
        }
    }
}

/// Appends `s` to `out`.
pub fn push_str(out: &mut String, s: &str)
    ensures
        final(out)@ == old(out)@ + s@,
{
    out.append(s);
}

/// Appends the digit `d`.
fn push_digit(out: &mut String, d: u64)
    requires
        d < 10,
    ensures
        final(out)@ == old(out)@.push(digit_char(d as nat)),
{
    let ghost start = out@;
    if d == 0 {
        out.append("0");
        proof { reveal_strlit("0"); }
    } else if d == 1 {
        out.append("1");
        proof { reveal_strlit("1"); }
    } else if d == 2 {
        out.append("2");
        proof { reveal_strlit("2"); }
    } else if d == 3 {
        out.append("3");
        proof { reveal_strlit("3"); }
    } else if d == 4 {
        out.append("4");
        proof { reveal_strlit("4"); }
    } else if d == 5 {
        out.append("5");
        proof { reveal_strlit("5"); }
    } else if d == 6 {
        out.append("6");
        proof { reveal_strlit("6"); }
    } else if d == 7 {
        out.append("7");
        proof { reveal_strlit("7"); }
    } else if d == 8 {
        out.append("8");
        proof { reveal_strlit("8"); }
    } else {
        out.append("9");
        proof { reveal_strlit("9"); }
    }
    assert(out@ =~= start.push(digit_char(d as nat)));
}

/// Appends `n` in decimal.
pub fn push_decimal(out: &mut String, n: u64)
    ensures
        final(out)@ == old(out)@ + decimal(n as nat),
    decreases n,
{
    let ghost start = out@;
    if n >= 10 {
        push_decimal(out, n / 10);
    }
    push_digit(out, n % 10);
    proof {
        if n >= 10 {
            assert(out@ =~= start + decimal(n as nat));
        } else {
            assert(out@ =~= start + decimal(n as nat));
        }
    }
}

/// Appends the signed integer `x` in decimal.
pub fn push_signed_decimal(out: &mut String, x: i64)
    ensures
        final(out)@ == old(out)@ + signed_decimal(x as int),
{
    let ghost start = out@;
    if x < 0 {
        out.append("-");
        proof { reveal_strlit("-"); }
        let m: u64 = ((-(x + 1)) as u64) + 1;
        assert(m == -x);
        push_decimal(out, m);
        assert(out@ =~= start + signed_decimal(x as int));
    } else {
        push_decimal(out, x as u64);
    }
}

} // verus!
