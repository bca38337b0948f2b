//! The keys of the timesheet, by input mode.
use super::common_key_events::{
    dec_event, digit_of, digit_value, down_event, inc_event, is_dec_event, is_down_event,
    is_inc_event, is_left_event, is_new_timecode_event, is_right_event, is_save_event,
    is_toggle_comment_event, is_up_event, left_event, new_timecode_event, right_event, save_event,
    toggle_comment_event, up_event,
};
use super::Request;
use crate::app::{App, AppView, State};
use crate::cursor_laws::{law_handle_keeps_comment_home, law_handle_keeps_valid};
use crate::event::Key;
use vstd::prelude::*;

verus! {

/// The minutes that one press of the increment or decrement key books.
pub const STEP_MINUTES: i32 = 30;

/// The minutes of an hour.
pub const HOUR_MINUTES: i32 = 60;

/// The engine after `key` in `Browsing`.
///
/// The movement keys move the cursor, the comment key enters the comment,
/// the increment and decrement keys book half an hour more or less, a digit
/// books that many hours, and the timecode key adds the timecode `Halla`.
/// The save key changes nothing here: see [`asks_to_save`].
pub open spec fn browsing_spec(key: Key, app: AppView) -> AppView {
    if is_down_event(key) {
        app.next_timecode()
    } else if is_up_event(key) {
        app.prev_timecode()
    } else if is_left_event(key) {
        app.prev_day()
    } else if is_right_event(key) {
        app.next_day()
    } else if is_save_event(key) {
        app
    } else if is_toggle_comment_event(key) {
        app.toggle_writing_comment()
    } else if is_inc_event(key) {
        app.change_hours(STEP_MINUTES as int)
    } else if is_dec_event(key) {
        app.change_hours(-STEP_MINUTES)
    } else if is_new_timecode_event(key) {
        app.add_timecode("Halla"@)
    } else {
        match key {
            Key::Char(c) => match digit_value(c) {
                Some(hours) => app.set_hours(hours * HOUR_MINUTES),
                None => app,
            },
            _ => app,
        }
    }
}

/// The engine after `key` in `WritingComment`: a character joins the
/// comment, backspace deletes its last one, escape leaves the mode.
pub open spec fn comment_input_spec(key: Key, app: AppView) -> AppView {
    match key {
        Key::Char(c) => app.append_char_to_comment(c),
        Key::Esc => app.toggle_writing_comment(),
        Key::Backspace => app.delete_char_from_comment(),
        _ => app,
    }
}

/// The engine after `key` in `AddingTimecode`: a character joins the name,
/// backspace deletes its last one, escape adds the timecode and leaves the
/// mode.
pub open spec fn timecode_input_spec(key: Key, app: AppView) -> AppView {
    match key {
        Key::Char(c) => AppView { timecode_buffer: app.timecode_buffer.push(c), ..app },
        Key::Esc => app.toggle_adding_timecode(),
        Key::Backspace => AppView {
            timecode_buffer: if app.timecode_buffer.len() > 0 {
                app.timecode_buffer.drop_last()
            } else {
                app.timecode_buffer
            },
            ..app
        },
        _ => app,
    }
}

/// The engine after `key`, in the mode it is in.
pub open spec fn handle_spec(key: Key, app: AppView) -> AppView {
    match app.mode() {
        State::Browsing => browsing_spec(key, app),
        State::WritingComment => comment_input_spec(key, app),
        State::AddingTimecode => timecode_input_spec(key, app),
    }
}

/// Whether `key` asks the host to save the store: the save key, while
/// browsing.
pub open spec fn asks_to_save(key: Key, app: AppView) -> bool {
    app.mode() == State::Browsing && is_save_event(key)
}

/// What `key` asks of the host.
pub open spec fn request_spec(key: Key, app: AppView) -> Request {
    if asks_to_save(key, app) {
        Request::Save
    } else {
        Request::Nothing
    }
}

/// Handles `key` in the mode the engine is in.
pub fn handle(key: Key, app: &mut App) -> (request: Request)
    ensures
        final(app)@ == handle_spec(key, old(app)@),
        request == request_spec(key, old(app)@),
        old(app)@.wf() ==> final(app)@.wf(),
        old(app)@.wf() && old(app)@.comment_has_home() ==> final(app)@.comment_has_home(),
{
    proof {
        if app@.wf() {
            law_handle_keeps_valid(key, app@);
            if app@.comment_has_home() {
                law_handle_keeps_comment_home(key, app@);
            }
        }
    }
    match *app.get_state() {
        State::Browsing => handle_browsing(key, app),
        State::WritingComment => {
            handle_comment_input(key, app);
            Request::Nothing
        },
        State::AddingTimecode => {
            handle_timecode_input(key, app);
            Request::Nothing
        },
    }
}

/// Handles `key` while browsing. See [`browsing_spec`].
pub fn handle_browsing(key: Key, app: &mut App) -> (request: Request)
    ensures
        final(app)@ == browsing_spec(key, old(app)@),
        request == if is_save_event(key) {
            Request::Save
        } else {
            Request::Nothing
        },
{
    if down_event(key) {
        app.next_timecode();
    } else if up_event(key) {
        app.prev_timecode();
    } else if left_event(key) {
        app.prev_day();
    } else if right_event(key) {
        app.next_day();
    } else if save_event(key) {
        return Request::Save;
    } else if toggle_comment_event(key) {
        app.toggle_writing_comment();
    } else if inc_event(key) {
        app.change_hours(STEP_MINUTES);
    } else if dec_event(key) {
        app.change_hours(-STEP_MINUTES);
    } else if new_timecode_event(key) {
        app.add_timecode(String::from_str("Halla"));
    } else if let Key::Char(c) = key {
        if let Some(hours) = digit_of(c) {
            app.set_hours(hours as i32 * HOUR_MINUTES);
        }
    }
    Request::Nothing
}

/// Handles `key` while a comment is written. See [`comment_input_spec`].
pub fn handle_comment_input(key: Key, app: &mut App)
    ensures
        final(app)@ == comment_input_spec(key, old(app)@),
{
    match key {
        Key::Char(c) => app.append_char_to_comment(c),
        Key::Esc => app.toggle_writing_comment(),
        Key::Backspace => app.delete_char_from_comment(),
        _ => (),
    }
}

/// Handles `key` while the name of a new timecode is typed. See
/// [`timecode_input_spec`].
pub fn handle_timecode_input(key: Key, app: &mut App)
    ensures
        final(app)@ == timecode_input_spec(key, old(app)@),
{
    match key {
        Key::Char(c) => app.append_char_to_timecode_buffer(c),
        Key::Esc => app.toggle_adding_timecode(),
        Key::Backspace => app.delete_char_from_timecode_buffer(),
        _ => (),
    }
}

} // verus!
