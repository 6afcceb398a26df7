//! Small text utilities: indentation, decimal rendering and concatenation.

use vstd::prelude::*;

verus! {

/// The text of `n` in decimal, most significant digit first.
#[verifier::opaque]
pub open spec fn decimal(n: nat) -> Seq<char>
    decreases n,
{
    if n < 10 {
        seq![digit_char(n)]
    } else {
        decimal(n / 10).push(digit_char(n % 10))
    }
}

/// The decimal digit for `d < 10`.
pub open spec fn digit_char(d: nat) -> char {
    if d == 0 { '0' }
    else if d == 1 { '1' }
    else if d == 2 { '2' }
    else if d == 3 { '3' }
    else if d == 4 { '4' }
    else if d == 5 { '5' }
    else if d == 6 { '6' }
    else if d == 7 { '7' }
    else if d == 8 { '8' }
    else { '9' }
}

/// `n` blanks.
#[verifier::opaque]
pub open spec fn blanks(n: nat) -> Seq<char>
    decreases n,
{
    if n == 0 { seq![] } else { blanks((n - 1) as nat).push(' ') }
}

/// A line of output: two blanks per level of depth, the text, and a newline.
pub open spec fn indented(depth: nat, s: Seq<char>) -> Seq<char> {
    blanks(2 * depth) + s + seq!['\n']
}

/// Relies on `String::push`: appends one character.
#[verifier::external_body]
pub(crate) fn push_char(s: &mut String, c: char)
    ensures
        final(s)@ == old(s)@.push(c),
{
    s.push(c)
}

/// `a` followed by `b`.
pub fn cat(a: &str, b: &str) -> (r: String)
    ensures
        r@ == a@ + b@,
{
    let mut r = String::from_str(a);
    r.append(b);
    r
}

/// The decimal text of `n`.
pub fn usize_text(n: usize) -> (r: String)
    ensures
        r@ == decimal(n as nat),
    decreases n,
{
    reveal(decimal);
    let d: usize = n % 10;
    let c = if d == 0 { '0' }
        else if d == 1 { '1' }
        else if d == 2 { '2' }
        else if d == 3 { '3' }
        else if d == 4 { '4' }
        else if d == 5 { '5' }
        else if d == 6 { '6' }
        else if d == 7 { '7' }
        else if d == 8 { '8' }
        else { '9' };
    if n < 10 {
        let mut r = String::new();
        push_char(&mut r, c);
        assert(r@ =~= decimal(n as nat));
        r
    } else {
        let mut r = usize_text(n / 10);
        push_char(&mut r, c);
        r
    }
}

/// The output line for `output` at the given depth: two blanks per level,
/// then the text and a newline.
pub fn indent(depth: usize, output: &str) -> (r: String)
    ensures
        r@ == indented(depth as nat, output@),
{
    reveal(blanks);
    let mut r = String::new();
    let mut i: usize = 0;
    while i < depth
        invariant
            i <= depth,
            r@ == blanks(2 * i as nat),
        decreases depth - i,
    {
        push_char(&mut r, ' ');
        push_char(&mut r, ' ');
        assert(r@ =~= blanks(2 * (i + 1) as nat)) by {
            reveal(blanks);
            assert(blanks(2 * (i + 1) as nat) == blanks((2 * (i + 1) - 1) as nat).push(' '));
            assert(blanks((2 * (i + 1) - 1) as nat) == blanks(2 * i as nat).push(' '));
        }
        i = i + 1;
    }
    r.append(output);
    push_char(&mut r, '\n');
    assert(r@ =~= indented(depth as nat, output@));
    r
}

} // verus!
