//! Decimal rendering of numbers into strings.
use vstd::prelude::*;

verus! {

/// The character of decimal digit `d`.
pub open spec fn digit_char(d: nat) -> char {
    seq!['0', '1', '2', '3', '4', '5', '6', '7', '8', '9'][d as int]
}

/// The decimal digits of `n`, most significant first, without leading zeros.
pub open spec fn digits(n: nat) -> Seq<char>
    decreases n,
{
    if n < 10 {
        seq![digit_char(n)]
    } else {
        digits(n / 10).push(digit_char(n % 10))
    }
}

/// `n` in decimal, left-padded with zeros to at least `width` characters (as
/// `{:0width$}` formats it).
pub open spec fn padded(n: nat, width: nat) -> Seq<char> {
    let d = digits(n);
    if d.len() >= width {
        d
    } else {
        Seq::new((width - d.len()) as nat, |i: int| '0') + d
    }
}

/// Relies on `String::push`: it appends one character.
#[verifier::external_body]
pub(crate) fn push_char(s: &mut String, c: char)
    ensures
        final(s)@ == old(s)@.push(c),
{
    s.push(c);
}

fn digit(d: u16) -> (c: char)
    requires
        d < 10,
    ensures
        c == digit_char(d as nat),
{
    match d {
        0 => '0',
        1 => '1',
        2 => '2',
        3 => '3',
        4 => '4',
        5 => '5',
        6 => '6',
        7 => '7',
        8 => '8',
        _ => '9',
    }
}

fn push_digits(s: &mut String, n: u16)
    ensures
        final(s)@ == old(s)@ + digits(n as nat),
    decreases n,
{
    if n >= 10 {
        push_digits(s, n / 10);
    }
    push_char(s, digit(n % 10));
    proof {
        if n < 10 {
            assert(old(s)@ + digits(n as nat) =~= old(s)@.push(digit_char(n as nat)));
        } else {
            assert(old(s)@ + digits(n as nat) =~= (old(s)@ + digits((n / 10) as nat)).push(
                digit_char((n % 10) as nat),
            ));
        }
    }
}

fn digit_count(n: u16) -> (r: usize)
    ensures
        r == digits(n as nat).len(),
        r <= n + 1,
    decreases n,
{
    if n >= 10 {
        digit_count(n / 10) + 1
    } else {
        1
    }
}

/// Appends `n` in decimal, zero-padded to at least `width` characters.
pub fn push_padded(s: &mut String, n: u16, width: usize)
    ensures
        final(s)@ == old(s)@ + padded(n as nat, width as nat),
{
    let count = digit_count(n);
    let mut i: usize = count;
    while i < width
        invariant
            count <= i,
            count == digits(n as nat).len(),
            i <= width || count >= width,
            count >= width ==> i == count,
            s@ == old(s)@ + Seq::new((i - count) as nat, |j: int| '0'),
        decreases width - i,
    {
        push_char(s, '0');
        i += 1;
        assert(s@ =~= old(s)@ + Seq::new((i - count) as nat, |j: int| '0'));
    }
    let ghost zeros = s@;
    push_digits(s, n);
    if count >= width {
        assert(zeros =~= old(s)@);
    } else {
        assert(i == width);
    }
    assert(s@ =~= old(s)@ + padded(n as nat, width as nat));
}

} // verus!
