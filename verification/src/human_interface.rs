//! The serial protocol of the mouse emulator and the click timing rules.
//!
//! Commands are ASCII lines: `ml`/`mr` press the left/right button,
//! `mlu`/`mru` release it, and `mv<x><y>` moves the mouse by `x`, `y`
//! counts written in decimal.
use vstd::prelude::*;

verus! {

/// Milliseconds that must pass between two presses of the same button.
pub const MOUSE_CLICK_DELAY_MS: u32 = 100;

/// Milliseconds a button stays pressed before it is released.
pub const MOUSE_UNCLICK_DELAY_MS: u32 = 70;

/// The decimal digits of `n`, most significant first, as ASCII.
pub open spec fn decimal_digits(n: nat) -> Seq<u8>
    decreases n,
{
    if n < 10 {
        seq![(0x30 + n) as u8]
    } else {
        decimal_digits(n / 10).push((0x30 + n % 10) as u8)
    }
}

/// `x` written in decimal, with a leading `-` when negative.
pub open spec fn decimal_text(x: int) -> Seq<u8> {
    if x < 0 {
        seq![0x2Du8] + decimal_digits((-x) as nat)
    } else {
        decimal_digits(x as nat)
    }
}

/// The move command for `x`, `y`: `mv<x><y>` and a newline.
pub open spec fn move_command_bytes(x: int, y: int) -> Seq<u8> {
    seq![0x6Du8, 0x76, 0x3C] + decimal_text(x) + seq![0x3Eu8, 0x3C] + decimal_text(y) + seq![
        0x3Eu8,
        0x0A,
    ]
}

/// `v` limited to the range of an `i16`.
pub open spec fn spec_clamp_i16(v: int) -> int {
    if v > i16::MAX {
        i16::MAX as int
    } else if v < i16::MIN {
        i16::MIN as int
    } else {
        v
    }
}

fn push_decimal_digits(out: &mut Vec<u8>, n: u64)
    ensures
        final(out)@ == old(out)@ + decimal_digits(n as nat),
    decreases n,
{
    if n >= 10 {
        push_decimal_digits(out, n / 10);
    }
    let d = (n % 10) as u8;
    out.push(0x30 + d);
    proof {
        if n >= 10 {
            assert(old(out)@ + decimal_digits(n as nat) =~= old(out)@ + decimal_digits((n / 10) as nat)
                + seq![(0x30 + n % 10) as u8]);
        } else {
            assert(old(out)@ + decimal_digits(n as nat) =~= old(out)@ + seq![(0x30 + n) as u8]);
        }
    }
}

fn push_decimal(out: &mut Vec<u8>, x: i32)
    ensures
        final(out)@ == old(out)@ + decimal_text(x as int),
{
    let v = x as i64;
    if v < 0 {
        out.push(0x2D);
        push_decimal_digits(out, (-v) as u64);
        assert(old(out)@ + decimal_text(x as int) =~= old(out)@.push(0x2D) + decimal_digits(
            (-x) as nat,
        ));
    } else {
        push_decimal_digits(out, v as u64);
    }
}

/// Limits a mouse movement count to the range of an `i16`.
pub fn clamp_i16(v: i32) -> (res: i32)
    ensures
        res == spec_clamp_i16(v as int),
{
    if v > 32767 {
        32767
    } else if v < -32768 {
        -32768
    } else {
        v
    }
}

/// The command that moves the mouse by `x`, `y`, each first limited to the
/// range of an `i16`.
pub fn mouse_move_command(x: i32, y: i32) -> (res: Vec<u8>)
    ensures
        res@ == move_command_bytes(spec_clamp_i16(x as int), spec_clamp_i16(y as int)),
{
    let cx = clamp_i16(x);
    let cy = clamp_i16(y);
    let mut out: Vec<u8> = Vec::new();
    out.push(0x6D);
    out.push(0x76);
    out.push(0x3C);
    push_decimal(&mut out, cx);
    out.push(0x3E);
    out.push(0x3C);
    push_decimal(&mut out, cy);
    out.push(0x3E);
    out.push(0x0A);
    assert(out@ =~= move_command_bytes(cx as int, cy as int));
    out
}

/// A mouse button.
#[derive(Debug, Clone, Copy, PartialEq, Eq, Structural)]
pub enum MouseButton {
    Left,
    Right,
}

/// The command that presses (`pressed`) or releases a button.
pub open spec fn click_command_bytes(button: MouseButton, pressed: bool) -> Seq<u8> {
    match (button, pressed) {
        (MouseButton::Left, true) => seq![0x6Du8, 0x6C, 0x0A],
        (MouseButton::Right, true) => seq![0x6Du8, 0x72, 0x0A],
        (MouseButton::Left, false) => seq![0x6Du8, 0x6C, 0x75, 0x0A],
        (MouseButton::Right, false) => seq![0x6Du8, 0x72, 0x75, 0x0A],
    }
}

/// The command that presses or releases `button`.
pub fn click_command(button: MouseButton, pressed: bool) -> (res: Vec<u8>)
    ensures
        res@ == click_command_bytes(button, pressed),
{
    let mut out: Vec<u8> = Vec::new();
    out.push(0x6D);
    match button {
        MouseButton::Left => out.push(0x6C),
        MouseButton::Right => out.push(0x72),
    }
    if !pressed {
        out.push(0x75);
    }
    out.push(0x0A);
    assert(out@ =~= click_command_bytes(button, pressed));
    out
}

/// Which buttons are held down. The times of the last presses stay with the
/// caller, who passes the milliseconds elapsed since them (`None` when the
/// clock could not tell).
#[derive(Debug, Clone, Copy)]
pub struct ClickState {
    pub left_clicked: bool,
    pub right_clicked: bool,
}

/// Whether a press is due: the clock could tell, and more than the click
/// delay has passed since the last press of that button.
pub open spec fn press_due(elapsed_ms: Option<u128>) -> bool {
    elapsed_ms matches Some(e) && e > MOUSE_CLICK_DELAY_MS
}

/// Whether a release is due for a held button.
pub open spec fn release_due(held: bool, elapsed_ms: Option<u128>) -> bool {
    held && (elapsed_ms matches Some(e) && e > MOUSE_UNCLICK_DELAY_MS)
}

impl ClickState {
    /// No button held.
    pub fn new() -> (res: ClickState)
        ensures
            !res.left_clicked,
            !res.right_clicked,
    {
        ClickState { left_clicked: false, right_clicked: false }
    }

    /// A request to press `button`, given the time since its last press.
    /// Returns whether the press command is to be sent now (the caller then
    /// restarts that button's timer); the button then counts as held.
    pub fn press(&mut self, button: MouseButton, elapsed_ms: Option<u128>) -> (send: bool)
        ensures
            send == press_due(elapsed_ms),
            send && button == MouseButton::Left ==> final(self).left_clicked
                && final(self).right_clicked == old(self).right_clicked,
            send && button == MouseButton::Right ==> final(self).right_clicked
                && final(self).left_clicked == old(self).left_clicked,
            !send ==> *final(self) == *old(self),
    {
        let due = match elapsed_ms {
            Some(e) => e > MOUSE_CLICK_DELAY_MS as u128,
            None => false,
        };
        if due {
            match button {
                MouseButton::Left => self.left_clicked = true,
                MouseButton::Right => self.right_clicked = true,
            }
        }
        due
    }

    /// Whether `button`, if held long enough since its last press, is to be
    /// released now; it then no longer counts as held.
    pub fn release(&mut self, button: MouseButton, elapsed_ms: Option<u128>) -> (send: bool)
        ensures
            button == MouseButton::Left ==> send == release_due(old(self).left_clicked, elapsed_ms)
                && final(self).left_clicked == (old(self).left_clicked && !send)
                && final(self).right_clicked == old(self).right_clicked,
            button == MouseButton::Right ==> send == release_due(old(self).right_clicked, elapsed_ms)
                && final(self).right_clicked == (old(self).right_clicked && !send)
                && final(self).left_clicked == old(self).left_clicked,
    {
        let held = match button {
            MouseButton::Left => self.left_clicked,
            MouseButton::Right => self.right_clicked,
        };
        if !held {
            return false;
        }
        let due = match elapsed_ms {
            Some(e) => e > MOUSE_UNCLICK_DELAY_MS as u128,
            None => false,
        };
        if due {
            match button {
                MouseButton::Left => self.left_clicked = false,
                MouseButton::Right => self.right_clicked = false,
            }
        }
        due
    }
}

} // verus!
