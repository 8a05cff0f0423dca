//! ANSI escape sequences understood by the rendering engine.
use vstd::prelude::*;

verus! {

/// The escape byte that opens every control sequence.
pub const ESC: u8 = 0x1b;

/// The ASCII characters the sequences below are made of.
pub const LEFT_BRACKET: u8 = 0x5b;
pub const SEMICOLON: u8 = 0x3b;
pub const UPPER_H: u8 = 0x48;
pub const UPPER_J: u8 = 0x4a;
pub const LOWER_M: u8 = 0x6d;
pub const DIGIT_ZERO: u8 = 0x30;
pub const DIGIT_TWO: u8 = 0x32;
pub const DIGIT_THREE: u8 = 0x33;
pub const DIGIT_FOUR: u8 = 0x34;
pub const DIGIT_FIVE: u8 = 0x35;
pub const DIGIT_EIGHT: u8 = 0x38;

/// The ASCII digit of a value below ten.
pub open spec fn digit(d: nat) -> u8 {
    (DIGIT_ZERO + d) as u8
}

/// Decimal notation of `n`, most significant digit first, without leading zeros.
pub open spec fn decimal(n: nat) -> Seq<u8>
    decreases n,
{
    if n < 10 {
        seq![digit(n)]
    } else {
        decimal(n / 10).push(digit(n % 10))
    }
}

/// Control Sequence Introducer: `ESC [`.
pub open spec fn csi() -> Seq<u8> {
    seq![ESC, LEFT_BRACKET]
}

/// `ESC[2J` (erase display) followed by `ESC[H` (cursor home).
pub open spec fn clear_sequence() -> Seq<u8> {
    csi() + seq![DIGIT_TWO, UPPER_J] + csi() + seq![UPPER_H]
}

/// `ESC[{y+1};{x+1}H`: cursor to 0-based column `x`, row `y`.
pub open spec fn cursor_sequence(x: nat, y: nat) -> Seq<u8> {
    csi() + decimal(y + 1) + seq![SEMICOLON] + decimal(x + 1) + seq![UPPER_H]
}

/// `ESC[38;5;{n}m`: 256-colour foreground.
pub open spec fn foreground_sequence(n: u8) -> Seq<u8> {
    csi() + seq![DIGIT_THREE, DIGIT_EIGHT, SEMICOLON, DIGIT_FIVE, SEMICOLON] + decimal(n as nat) + seq![LOWER_M]
}

/// `ESC[48;5;{n}m`: 256-colour background.
pub open spec fn background_sequence(n: u8) -> Seq<u8> {
    csi() + seq![DIGIT_FOUR, DIGIT_EIGHT, SEMICOLON, DIGIT_FIVE, SEMICOLON] + decimal(n as nat) + seq![LOWER_M]
}

/// The foreground escape, then the background escape only when one is given.
pub open spec fn color_sequence(fg: u8, bg: Option<u8>) -> Seq<u8> {
    match bg {
        Some(b) => foreground_sequence(fg) + background_sequence(b),
        None => foreground_sequence(fg),
    }
}

/// `ESC[0m`: reset all attributes.
pub open spec fn reset_sequence() -> Seq<u8> {
    csi() + seq![DIGIT_ZERO, LOWER_M]
}

/// Appends the decimal notation of `n`.
fn push_decimal(out: &mut Vec<u8>, n: u128)
    ensures
        final(out)@ == old(out)@ + decimal(n as nat),
    decreases n,
{
    if n >= 10 {
        push_decimal(out, n / 10);
    }
    out.push(DIGIT_ZERO + (n % 10) as u8);
    assert(final(out)@ =~= old(out)@ + decimal(n as nat));
}

/// Appends `ESC [`.
fn push_csi(out: &mut Vec<u8>)
    ensures
        final(out)@ == old(out)@ + csi(),
{
    out.push(ESC);
    out.push(LEFT_BRACKET);
    assert(final(out)@ =~= old(out)@ + csi());
}

/// The bytes that clear the screen and home the cursor.
pub fn clear_bytes() -> (r: Vec<u8>)
    ensures
        r@ == clear_sequence(),
{
    let mut out: Vec<u8> = Vec::new();
    push_csi(&mut out);
    out.push(DIGIT_TWO);
    out.push(UPPER_J);
    push_csi(&mut out);
    out.push(UPPER_H);
    assert(out@ =~= clear_sequence());
    out
}

/// The bytes that move the cursor to 0-based column `x` and row `y`.
pub fn cursor_bytes(x: usize, y: usize) -> (r: Vec<u8>)
    ensures
        r@ == cursor_sequence(x as nat, y as nat),
{
    let mut out: Vec<u8> = Vec::new();
    push_csi(&mut out);
    push_decimal(&mut out, y as u128 + 1);
    out.push(SEMICOLON);
    push_decimal(&mut out, x as u128 + 1);
    out.push(UPPER_H);
    assert(out@ =~= cursor_sequence(x as nat, y as nat));
    out
}

/// Appends `ESC[{lead}8;5;{n}m`, where `lead` is `3` for foreground and `4` for background.
fn push_indexed_color(out: &mut Vec<u8>, lead: u8, n: u8)
    requires
        lead == DIGIT_THREE || lead == DIGIT_FOUR,
    ensures
        lead == DIGIT_THREE ==> final(out)@ == old(out)@ + foreground_sequence(n),
        lead == DIGIT_FOUR ==> final(out)@ == old(out)@ + background_sequence(n),
{
    push_csi(out);
    out.push(lead);
    out.push(DIGIT_EIGHT);
    out.push(SEMICOLON);
    out.push(DIGIT_FIVE);
    out.push(SEMICOLON);
    push_decimal(out, n as u128);
    out.push(LOWER_M);
    assert(lead == DIGIT_THREE ==> final(out)@ =~= old(out)@ + foreground_sequence(n));
    assert(lead == DIGIT_FOUR ==> final(out)@ =~= old(out)@ + background_sequence(n));
}

/// The bytes that select foreground `fg` and, when given, background `bg`.
pub fn color_bytes(fg: u8, bg: Option<u8>) -> (r: Vec<u8>)
    ensures
        r@ == color_sequence(fg, bg),
{
    let mut out: Vec<u8> = Vec::new();
    push_indexed_color(&mut out, DIGIT_THREE, fg);
    match bg {
        Some(b) => {
            push_indexed_color(&mut out, DIGIT_FOUR, b);
        },
        None => {},
    }
    assert(out@ =~= color_sequence(fg, bg));
    out
}

/// The bytes that reset all text attributes.
pub fn reset_bytes() -> (r: Vec<u8>)
    ensures
        r@ == reset_sequence(),
{
    let mut out: Vec<u8> = Vec::new();
    push_csi(&mut out);
    out.push(DIGIT_ZERO);
    out.push(LOWER_M);
    assert(out@ =~= reset_sequence());
    out
}

} // verus!
