//! Frame-counter cadences, the key map and the mapping of simulation space
//! onto the screen, read by a drawing layer once per frame.

use crate::engine::{Command, Particle, Star};
use vstd::prelude::*;

verus! {

/// What a key press asks of the driving loop.
#[derive(Clone, Copy, Debug, PartialEq, Eq, Structural)]
pub enum KeyAction {
    Quit,
    Send(Command),
}

/// The action bound to a character key; letters are case-insensitive.
pub open spec fn key_action_of(c: char) -> Option<KeyAction> {
    if c == 'q' || c == 'Q' {
        Some(KeyAction::Quit)
    } else if c == 'y' || c == 'Y' {
        Some(KeyAction::Send(Command::AcceptYes))
    } else if c == 'm' || c == 'M' {
        Some(KeyAction::Send(Command::AcceptMaybe))
    } else if c == 'n' || c == 'N' {
        Some(KeyAction::Send(Command::AttemptDecline))
    } else {
        None
    }
}

/// Maps a character key to its action; unbound keys give `None`.
pub fn key_action(c: char) -> (r: Option<KeyAction>)
    ensures
        r == key_action_of(c),
{
    if c == 'q' || c == 'Q' {
        Some(KeyAction::Quit)
    } else if c == 'y' || c == 'Y' {
        Some(KeyAction::Send(Command::AcceptYes))
    } else if c == 'm' || c == 'M' {
        Some(KeyAction::Send(Command::AcceptMaybe))
    } else if c == 'n' || c == 'N' {
        Some(KeyAction::Send(Command::AttemptDecline))
    } else {
        None
    }
}

/// Which of the three header decorations shows: it steps every 5 frames.
pub fn wave_phase(frame: u64) -> (r: u64)
    ensures
        r == (frame / 5) % 3,
        r < 3,
{
    (frame / 5) % 3
}

/// Whether the question glows bright: on and off for 15 frames each.
pub fn glow_on(frame: u64) -> (r: bool)
    ensures
        r == ((frame / 15) % 2 == 0),
{
    (frame / 15) % 2 == 0
}

/// How many of the "thinking" dots stage shows: it steps every 8 frames
/// through six stages.
pub fn dot_phase(frame: u64) -> (r: u64)
    ensures
        r == (frame / 8) % 6,
        r < 6,
{
    (frame / 8) % 6
}

/// The sideways shake of the refusal banner: one cell for 3 frames, then
/// none for 3.
pub fn shake_offset(frame: u64) -> (r: u16)
    ensures
        r == (if (frame / 3) % 2 == 0 { 1u16 } else { 0u16 }),
{
    if (frame / 3) % 2 == 0 {
        1
    } else {
        0
    }
}

/// Which of the five glitch glyphs shows: it steps every 5 frames.
pub fn glitch_index(frame: u64) -> (r: usize)
    ensures
        r == (frame / 5) % 5,
        r < 5,
{
    ((frame / 5) % 5) as usize
}

/// Which of the ten refusal messages shows after `attempts` declines: the
/// last one from the ninth on.
pub fn message_index(attempts: u32) -> (r: usize)
    ensures
        r == (if attempts < 9 { attempts as int } else { 9 }),
{
    if attempts < 9 {
        attempts as usize
    } else {
        9
    }
}

/// The band of a brightness level: 0 for 0..=3, 1 for 4..=6, 2 for 7..=8,
/// 3 above.
pub open spec fn band_of(brightness: int) -> int {
    if brightness <= 3 {
        0
    } else if brightness <= 6 {
        1
    } else if brightness <= 8 {
        2
    } else {
        3
    }
}

/// The band a star is drawn in, from dim to bright.
pub fn star_band(brightness: u8) -> (r: u8)
    ensures
        r == band_of(brightness as int),
{
    if brightness <= 3 {
        0
    } else if brightness <= 6 {
        1
    } else if brightness <= 8 {
        2
    } else {
        3
    }
}

/// Whether a star's cell lies on a `width` by `height` screen.
pub fn star_visible(s: Star, width: u16, height: u16) -> (r: bool)
    ensures
        r == (s.x < width && s.y < height),
{
    s.x < width && s.y < height
}

/// The cell, relative to an area of `width` by `height` cells, where a
/// particle is drawn, with the burst's origin at the area's centre (cells
/// counted in whole thousandths, truncated); `None` when the particle lies
/// outside the area on any side.
pub fn particle_cell(p: Particle, width: u16, height: u16) -> (r: Option<(u16, u16)>)
    ensures
        ({
            let px = width as int * 500 + p.x as int;
            let py = height as int * 500 + p.y as int;
            r == if 0 <= px && 0 <= py && px / 1000 < width && py / 1000 < height {
                Some(((px / 1000) as u16, (py / 1000) as u16))
            } else {
                None::<(u16, u16)>
            }
        }),
{
    let px: i64 = width as i64 * 500 + p.x as i64;
    let py: i64 = height as i64 * 500 + p.y as i64;
    if px < 0 || py < 0 {
        return None;
    }
    let col: i64 = px / 1000;
    let row: i64 = py / 1000;
    if col < width as i64 && row < height as i64 {
        Some((col as u16, row as u16))
    } else {
        None
    }
}

} // verus!
