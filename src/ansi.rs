use vstd::prelude::*;

verus! {

/// The decimal digit for `d < 10`.
pub open spec fn digit_char(d: nat) -> char {
    if d == 0 { '0' }
    else if d == 1 { '1' }
    else if d == 2 { '2' }
    else if d == 3 { '3' }
    else if d == 4 { '4' }
    else if d == 5 { '5' }
    else if d == 6 { '6' }
    else if d == 7 { '7' }
    else if d == 8 { '8' }
    else { '9' }
}

/// The decimal notation of `n`, without leading zeros.
pub open spec fn decimal(n: nat) -> Seq<char>
    decreases n,
{
    if n < 10 {
        seq![digit_char(n)]
    } else {
        decimal(n / 10).push(digit_char(n % 10))
    }
}

/// The control sequence introducer, `ESC [`.
pub open spec fn csi() -> Seq<char> {
    seq!['\x1b', '[']
}

/// The sequence that moves the terminal cursor `n` rows down.
pub open spec fn cursor_down_seq(n: nat) -> Seq<char> {
    csi() + decimal(n) + seq!['B']
}

/// The sequence that moves the terminal cursor `n` columns left.
pub open spec fn cursor_left_seq(n: nat) -> Seq<char> {
    csi() + decimal(n) + seq!['D']
}

/// The sequence that moves the terminal cursor to column `x`, row `y` (both one-based).
pub open spec fn cursor_goto_seq(x: nat, y: nat) -> Seq<char> {
    csi() + decimal(y) + seq![';'] + decimal(x) + seq!['H']
}

/// Relies on termion's `cursor::Down` display: `ESC [ n B`.
#[verifier::external_body]
pub(crate) fn cursor_down(n: u16) -> (r: String)
    ensures
        r@ == cursor_down_seq(n as nat),
{
    format!("{}", termion::cursor::Down(n))
}

/// Relies on termion's `cursor::Left` display: `ESC [ n D`.
#[verifier::external_body]
pub(crate) fn cursor_left(n: u16) -> (r: String)
    ensures
        r@ == cursor_left_seq(n as nat),
{
    format!("{}", termion::cursor::Left(n))
}

/// Relies on termion's `cursor::Goto` display: `ESC [ y ; x H`. Its display
/// asserts that the position is not `(0, 0)`.
#[verifier::external_body]
pub(crate) fn cursor_goto(x: u16, y: u16) -> (r: String)
    requires
        x != 0 || y != 0,
    ensures
        r@ == cursor_goto_seq(x as nat, y as nat),
{
    format!("{}", termion::cursor::Goto(x, y))
}

/// Relies on std's `String::push`: appends one character.
#[verifier::external_body]
pub(crate) fn push_char(s: &mut String, c: char)
    ensures
        final(s)@ == old(s)@.push(c),
{
    s.push(c)
}

/// Appends `other` to `s`.
pub(crate) fn push_string(s: &mut String, other: &String)
    ensures
        final(s)@ == old(s)@ + other@,
{
    s.append(other.as_str());
}

/// The sequence that moves the cursor down one row and `left` columns to the left.
pub open spec fn jump_next_line_seq(left: nat) -> Seq<char> {
    cursor_down_seq(1) + cursor_left_seq(left)
}

/// Builds the sequence that moves the cursor down one row and `left` columns to the left.
pub fn jump_next_line(left: u16) -> (r: String)
    ensures
        r@ == jump_next_line_seq(left as nat),
{
    let mut r = cursor_down(1);
    let l = cursor_left(left);
    push_string(&mut r, &l);
    r
}

} // verus!
