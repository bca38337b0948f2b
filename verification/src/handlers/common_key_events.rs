//! Which keys stand for which command.
use crate::event::Key;
use vstd::prelude::*;

verus! {

/// Whether `key` moves the cursor down the timecodes.
pub fn down_event(key: Key) -> (hit: bool)
    ensures
        hit == is_down_event(key),
{
    matches!(key, Key::Down | Key::Char('j'))
}

/// The keys of [`down_event`].
pub open spec fn is_down_event(key: Key) -> bool {
    key == Key::Down || key == Key::Char('j')
}

/// Whether `key` moves the cursor up the timecodes.
pub fn up_event(key: Key) -> (hit: bool)
    ensures
        hit == is_up_event(key),
{
    matches!(key, Key::Up | Key::Char('k'))
}

/// The keys of [`up_event`].
pub open spec fn is_up_event(key: Key) -> bool {
    key == Key::Up || key == Key::Char('k')
}

/// Whether `key` moves the cursor a day back.
pub fn left_event(key: Key) -> (hit: bool)
    ensures
        hit == is_left_event(key),
{
    matches!(key, Key::Left | Key::Char('h'))
}

/// The keys of [`left_event`].
pub open spec fn is_left_event(key: Key) -> bool {
    key == Key::Left || key == Key::Char('h')
}

/// Whether `key` moves the cursor a day on.
pub fn right_event(key: Key) -> (hit: bool)
    ensures
        hit == is_right_event(key),
{
    matches!(key, Key::Right | Key::Char('l'))
}

/// The keys of [`right_event`].
pub open spec fn is_right_event(key: Key) -> bool {
    key == Key::Right || key == Key::Char('l')
}

/// Whether `key` asks for the store to be saved.
pub fn save_event(key: Key) -> (hit: bool)
    ensures
        hit == is_save_event(key),
{
    matches!(key, Key::Char('w'))
}

/// The keys of [`save_event`].
pub open spec fn is_save_event(key: Key) -> bool {
    key == Key::Char('w')
}

/// Whether `key` enters the comment.
pub fn toggle_comment_event(key: Key) -> (hit: bool)
    ensures
        hit == is_toggle_comment_event(key),
{
    matches!(key, Key::Char('c') | Key::Enter)
}

/// The keys of [`toggle_comment_event`].
pub open spec fn is_toggle_comment_event(key: Key) -> bool {
    key == Key::Char('c') || key == Key::Enter
}

/// Whether `key` leaves the program.
pub fn quit_event(key: Key) -> (hit: bool)
    ensures
        hit == is_quit_event(key),
{
    matches!(key, Key::Char('q') | Key::Esc)
}

/// The keys of [`quit_event`].
pub open spec fn is_quit_event(key: Key) -> bool {
    key == Key::Char('q') || key == Key::Esc
}

/// Whether `key` books more time.
pub fn inc_event(key: Key) -> (hit: bool)
    ensures
        hit == is_inc_event(key),
{
    matches!(key, Key::Char('K') | Key::ShiftUp)
}

/// The keys of [`inc_event`].
pub open spec fn is_inc_event(key: Key) -> bool {
    key == Key::Char('K') || key == Key::ShiftUp
}

/// Whether `key` books less time.
pub fn dec_event(key: Key) -> (hit: bool)
    ensures
        hit == is_dec_event(key),
{
    matches!(key, Key::Char('J') | Key::ShiftDown)
}

/// The keys of [`dec_event`].
pub open spec fn is_dec_event(key: Key) -> bool {
    key == Key::Char('J') || key == Key::ShiftDown
}

/// Whether `key` adds a timecode.
pub fn new_timecode_event(key: Key) -> (hit: bool)
    ensures
        hit == is_new_timecode_event(key),
{
    matches!(key, Key::Char('N'))
}

/// The keys of [`new_timecode_event`].
pub open spec fn is_new_timecode_event(key: Key) -> bool {
    key == Key::Char('N')
}

/// The value of a decimal digit, nothing for any other character.
pub open spec fn digit_value(c: char) -> Option<u8> {
    if c == '0' {
        Some(0u8)
    } else if c == '1' {
        Some(1u8)
    } else if c == '2' {
        Some(2u8)
    } else if c == '3' {
        Some(3u8)
    } else if c == '4' {
        Some(4u8)
    } else if c == '5' {
        Some(5u8)
    } else if c == '6' {
        Some(6u8)
    } else if c == '7' {
        Some(7u8)
    } else if c == '8' {
        Some(8u8)
    } else if c == '9' {
        Some(9u8)
    } else {
        None
    }
}

/// Whether `c` books a whole number of hours: the decimal digits do.
pub fn num_event(c: char) -> (hit: bool)
    ensures
        hit == digit_value(c).is_some(),
{
    matches!(c, '0' | '1' | '2' | '3' | '4' | '5' | '6' | '7' | '8' | '9')
}

/// The value of a decimal digit, nothing for any other character.
pub fn digit_of(c: char) -> (value: Option<u8>)
    ensures
        value == digit_value(c),
{
    match c {
        '0' => Some(0),
        '1' => Some(1),
        '2' => Some(2),
        '3' => Some(3),
        '4' => Some(4),
        '5' => Some(5),
        '6' => Some(6),
        '7' => Some(7),
        '8' => Some(8),
        '9' => Some(9),
        _ => None,
    }
}

} // verus!
