//! What holds of the cursor whatever it is asked to do.
use crate::app::{
    changed_minutes, floor_zero, floored_sum, AppView, State, LAST_DAY, LAST_WEEK,
};
use crate::config::{law_stars_stay_unique, ConfigView};
use crate::data::{
    day_at, lemma_with_day_same, store_wf, timecodes_spec, week_at, DataView, DayView,
};
use crate::event::Key;
use crate::handlers::timesheet::handle_spec;
use crate::store_laws::{
    law_add_timecode_keeps_valid, law_load_week_keeps_valid, law_with_day_at_confined,
    law_with_day_at_keeps_valid,
};
use vstd::prelude::*;

verus! {

/// One step down the timecodes leaves the window valid and the cursor
/// inside it.
pub proof fn law_next_timecode_keeps_window(app: AppView)
    requires
        app.window_wf(),
        app.active_visible(),
    ensures
        app.next_timecode().window_wf(),
        app.next_timecode().active_visible(),
{
}

/// One step up the timecodes leaves the window valid and the cursor inside
/// it.
pub proof fn law_prev_timecode_keeps_window(app: AppView)
    requires
        app.window_wf(),
        app.active_visible(),
    ensures
        app.prev_timecode().window_wf(),
        app.prev_timecode().active_visible(),
{
}

/// The cursor after a run of steps over the timecodes, `true` for a step
/// down and `false` for a step up.
pub open spec fn after_moves(app: AppView, down: Seq<bool>) -> AppView
    decreases down.len(),
{
    if down.len() == 0 {
        app
    } else if down.last() {
        after_moves(app, down.drop_last()).next_timecode()
    } else {
        after_moves(app, down.drop_last()).prev_timecode()
    }
}

/// After any run of steps over the timecodes the window shows at most five
/// of them and has the cursor inside it. As this holds of every run, it
/// holds after each step of one.
pub proof fn law_moves_keep_window(app: AppView, down: Seq<bool>)
    requires
        app.window_wf(),
        app.active_visible(),
    ensures
        after_moves(app, down).window_wf(),
        after_moves(app, down).active_visible(),
    decreases down.len(),
{
    if down.len() > 0 {
        let before = after_moves(app, down.drop_last());
        law_moves_keep_window(app, down.drop_last());
        law_next_timecode_keeps_window(before);
        law_prev_timecode_keeps_window(before);
    }
}

/// A step down from the last timecode changes nothing.
pub proof fn law_next_timecode_stops_at_last(app: AppView)
    requires
        app.timecodes.len() == 0 || app.active_timecode >= app.timecodes.len() - 1,
    ensures
        app.next_timecode() == app,
{
}

/// Time that was booked never becomes negative, and a change that would
/// make it so is not made.
pub proof fn law_hours_floor(current: int, change: int)
    requires
        current >= 0,
    ensures
        changed_minutes(current, change) >= 0,
        current + change < 0 ==> changed_minutes(current, change) == current,
{
}

/// The minutes of a record after a run of changes.
pub open spec fn after_changes(current: int, changes: Seq<int>) -> int
    decreases changes.len(),
{
    if changes.len() == 0 {
        current
    } else {
        changed_minutes(after_changes(current, changes.drop_last()), changes.last())
    }
}

/// After any run of changes the time that is booked is not negative.
pub proof fn law_hours_never_negative(current: int, changes: Seq<int>)
    requires
        current >= 0,
    ensures
        after_changes(current, changes) >= 0,
    decreases changes.len(),
{
    if changes.len() > 0 {
        law_hours_never_negative(current, changes.drop_last());
    }
}

/// On a record that exists, a change of hours books [`changed_minutes`]
/// and keeps the comment. That is the sum where the sum is not negative and
/// a record can hold it; where the sum is negative, the engine is as before.
pub proof fn law_change_hours_floor(app: AppView, change: int)
    requires
        app.wf(),
        app.active_day_record() is Some,
    ensures
        app.change_hours(change).active_day_record() == Some(
            DayView {
                minutes: changed_minutes(
                    app.active_day_record().unwrap().minutes as int,
                    change,
                ) as nat,
                comment: app.active_day_record().unwrap().comment,
            },
        ),
        app.active_day_record().unwrap().minutes + change <= u32::MAX ==> changed_minutes(
            app.active_day_record().unwrap().minutes as int,
            change,
        ) == floored_sum(app.active_day_record().unwrap().minutes as int, change),
        app.active_day_record().unwrap().minutes + change < 0 ==> app.change_hours(change) == app,
{
    lemma_with_day_same(
        app.data,
        app.active_year,
        app.active_week,
        app.active_timecode,
        app.active_day as int,
    );
}

/// A change of hours touches the record under the cursor and nothing else:
/// the cursor, the window, the list, the modes and the configuration are as
/// before, no week gains or loses an entry, and every other slot of the
/// store holds what it held.
pub proof fn law_change_hours_confined(
    app: AppView,
    change: int,
    year: usize,
    week: u8,
    timecode: int,
    day: int,
)
    requires
        app.wf(),
    ensures
        app.change_hours(change) == (AppView { data: app.change_hours(change).data, ..app }),
        timecodes_spec(app.change_hours(change).data, year, week) == timecodes_spec(
            app.data,
            year,
            week,
        ),
        year != app.active_year || week != app.active_week || timecode != app.active_timecode
            || day != app.active_day ==> day_at(
            app.change_hours(change).data,
            year,
            week,
            timecode,
            day,
        ) == day_at(app.data, year, week, timecode, day),
{
    if app.active_slot_exists() {
        assert forall|record: DayView|
            timecodes_spec(#[trigger] app.with_active_day(record).data, year, week)
                == timecodes_spec(app.data, year, week) by {
            law_with_day_at_keeps_valid(
                app.data,
                app.active_year,
                app.active_week,
                app.active_timecode,
                app.active_day as int,
                record,
            );
        }
        assert forall|record: DayView|
            year != app.active_year || week != app.active_week || timecode != app.active_timecode
                || day != app.active_day implies day_at(
            #[trigger] app.with_active_day(record).data,
            year,
            week,
            timecode,
            day,
        ) == day_at(app.data, year, week, timecode, day) by {
            law_with_day_at_confined(
                app.data,
                app.active_year,
                app.active_week,
                app.active_timecode,
                app.active_day as int,
                record,
                year,
                week,
                timecode,
                day,
            );
        }
    }
}

/// Setting the hours on a slot that exists books them, or nothing if they
/// are negative: in a new record without a comment where none was booked,
/// else under the comment that is there.
pub proof fn law_set_hours_books(app: AppView, val: int)
    requires
        app.wf(),
        app.active_slot_exists(),
    ensures
        app.set_hours(val).active_day_record() == Some(
            DayView {
                minutes: floor_zero(val) as nat,
                comment: match app.active_day_record() {
                    Some(record) => record.comment,
                    None => Seq::empty(),
                },
            },
        ),
{
    assert forall|record: DayView| (#[trigger] app.with_active_day(record)).active_day_record()
        == Some(record) by {
        law_with_day_at_keeps_valid(
            app.data,
            app.active_year,
            app.active_week,
            app.active_timecode,
            app.active_day as int,
            record,
        );
    }
}

/// The engine after a run of changes of hours under the cursor.
pub open spec fn after_hour_changes(app: AppView, changes: Seq<int>) -> AppView
    decreases changes.len(),
{
    if changes.len() == 0 {
        app
    } else {
        after_hour_changes(app, changes.drop_last()).change_hours(changes.last())
    }
}

/// After any run of changes of hours, the record under the cursor books
/// what [`after_changes`] gives, which is not negative, and has the comment
/// it had.
pub proof fn law_change_hours_run(app: AppView, changes: Seq<int>)
    requires
        app.wf(),
        app.active_day_record() is Some,
    ensures
        after_hour_changes(app, changes).wf(),
        after_hour_changes(app, changes).active_day_record() == Some(
            DayView {
                minutes: after_changes(
                    app.active_day_record().unwrap().minutes as int,
                    changes,
                ) as nat,
                comment: app.active_day_record().unwrap().comment,
            },
        ),
        after_changes(app.active_day_record().unwrap().minutes as int, changes) >= 0,
    decreases changes.len(),
{
    let start = app.active_day_record().unwrap().minutes as int;
    law_hours_never_negative(start, changes);
    if changes.len() > 0 {
        let before = after_hour_changes(app, changes.drop_last());
        law_change_hours_run(app, changes.drop_last());
        law_hours_never_negative(start, changes.drop_last());
        law_change_hours_floor(before, changes.last());
        law_edits_keep_valid(before, changes.last(), 'c');
    }
}

/// Week 1 of the next year follows the last week of a year, and the last
/// week of the year before precedes week 1.
pub proof fn law_week_rollover(app: AppView)
    ensures
        app.active_week == LAST_WEEK && app.active_year < usize::MAX ==> {
            &&& app.next_week().active_week == 1
            &&& app.next_week().active_year == app.active_year + 1
        },
        app.active_week == 1 && app.active_year > 0 ==> {
            &&& app.prev_week().active_week == LAST_WEEK
            &&& app.prev_week().active_year == app.active_year - 1
        },
{
}

/// A week on and a week back is the week the cursor started in.
pub proof fn law_next_then_prev_week(app: AppView)
    requires
        1 <= app.active_week <= LAST_WEEK,
        !app.at_last_week(),
    ensures
        app.next_week().prev_week().active_week == app.active_week,
        app.next_week().prev_week().active_year == app.active_year,
{
}

/// A week back and a week on is the week the cursor started in.
pub proof fn law_prev_then_next_week(app: AppView)
    requires
        1 <= app.active_week <= LAST_WEEK,
        !app.at_first_week(),
    ensures
        app.prev_week().next_week().active_week == app.active_week,
        app.prev_week().next_week().active_year == app.active_year,
{
}

/// The engine starts valid, which has the cursor inside the window.
pub proof fn law_start_valid(
    filepath: Seq<char>,
    stored: Option<DataView>,
    conf: ConfigView,
    year: usize,
    week: u8,
    day: u8,
)
    requires
        conf.wf(),
        stored matches Some(data) ==> store_wf(data),
    ensures
        AppView::start(filepath, stored, conf, year, week, day).wf(),
{
    let found = match stored {
        Some(data) => data,
        None => Map::empty(),
    };
    let app = AppView::start(filepath, stored, conf, year, week, day);
    law_load_week_keeps_valid(found, app.active_week, year, conf.starred_timecodes);
}

/// A step over the timecodes leaves a valid engine valid.
pub proof fn law_timecode_moves_keep_valid(app: AppView)
    requires
        app.wf(),
    ensures
        app.next_timecode().wf(),
        app.prev_timecode().wf(),
{
}

/// Fitting the list to the active week leaves a valid engine valid,
/// whatever list the cursor stood on before: the cursor is inside the
/// window of the new list.
pub proof fn law_assign_timecodes_keeps_valid(app: AppView)
    requires
        app.window_wf(),
        app.active_visible(),
        app.coord_wf(),
        app.modes_wf(),
        store_wf(app.data),
        app.conf.wf(),
        week_at(app.data, app.active_year, app.active_week) is Some,
    ensures
        app.assign_timecodes().wf(),
{
}

/// A move to another week or day leaves a valid engine valid: the cursor
/// stands on a week from 1 to 52 and a weekday, the week it stands on is
/// materialised, the list and the window fit it, and the cursor is inside
/// the window.
pub proof fn law_week_moves_keep_valid(app: AppView)
    requires
        app.wf(),
    ensures
        app.next_week().wf(),
        app.prev_week().wf(),
        app.next_day().wf(),
        app.prev_day().wf(),
{
    lemma_week_move_valid(app, true);
    lemma_week_move_valid(app, false);
    lemma_week_move_valid(AppView { active_day: 0, ..app }, true);
    lemma_week_move_valid(AppView { active_day: LAST_DAY, ..app }, false);
}

/// One move by a week, on (`forward`) or back, leaves a valid engine
/// valid.
proof fn lemma_week_move_valid(app: AppView, forward: bool)
    requires
        app.wf(),
    ensures
        forward ==> app.next_week().wf(),
        !forward ==> app.prev_week().wf(),
{
    let after = if forward {
        app.next_week()
    } else {
        app.prev_week()
    };
    if after != app {
        law_load_week_keeps_valid(
            app.data,
            after.active_week,
            after.active_year,
            app.conf.starred_timecodes,
        );
    }
}

/// An edit of the record under the cursor leaves a valid engine valid and
/// the cursor where it is.
pub proof fn law_edits_keep_valid(app: AppView, minutes: int, c: char)
    requires
        app.wf(),
    ensures
        app.change_hours(minutes).wf(),
        app.set_hours(minutes).wf(),
        app.append_char_to_comment(c).wf(),
        app.delete_char_from_comment().wf(),
        app.toggle_writing_comment().wf(),
{
    if app.active_slot_exists() {
        assert forall|record: DayView| (#[trigger] app.with_active_day(record)).wf() by {
            lemma_with_active_day_valid(app, record);
        }
        if app.mode() == State::Browsing {
            let entered = AppView { state: app.state.push(State::WritingComment), ..app };
            assert(entered.wf());
            lemma_with_active_day_valid(entered, DayView { minutes: 0, comment: Seq::empty() });
        }
    }
}

/// A record put under the cursor leaves a valid engine valid.
proof fn lemma_with_active_day_valid(app: AppView, record: DayView)
    requires
        app.wf(),
        app.active_slot_exists(),
    ensures
        app.with_active_day(record).wf(),
{
    law_with_day_at_keeps_valid(
        app.data,
        app.active_year,
        app.active_week,
        app.active_timecode,
        app.active_day as int,
        record,
    );
}

/// Adding a timecode, and beginning, committing or giving up the entry of
/// its name, leave a valid engine valid: the cursor is inside the window
/// also after the first timecode was added to an empty list.
pub proof fn law_adding_keeps_valid(app: AppView, name: Seq<char>)
    requires
        app.wf(),
    ensures
        app.add_timecode(name).wf(),
        app.toggle_adding_timecode().wf(),
        app.cancel_adding_timecode().wf(),
{
    law_add_timecode_keeps_valid(app.data, app.active_week, app.active_year, name);
    law_add_timecode_keeps_valid(app.data, app.active_week, app.active_year, app.timecode_buffer);
}

/// Starring and unstarring leave a valid engine valid.
pub proof fn law_stars_keep_valid(app: AppView)
    requires
        app.wf(),
    ensures
        app.star_timecode().wf(),
        app.unstar_timecode().wf(),
{
    if let Some(name) = app.cur_timecode() {
        law_stars_stay_unique(app.conf, name);
    }
}

/// Whatever key is handled, a valid engine stays valid.
pub proof fn law_handle_keeps_valid(key: Key, app: AppView)
    requires
        app.wf(),
    ensures
        handle_spec(key, app).wf(),
{
    law_timecode_moves_keep_valid(app);
    law_week_moves_keep_valid(app);
    law_adding_keeps_valid(app, "Halla"@);
    match key {
        Key::Char(c) => {
            law_edits_keep_valid(app, 0, c);
        },
        _ => {},
    }
    assert forall|minutes: int| (#[trigger] app.change_hours(minutes)).wf() by {
        law_edits_keep_valid(app, minutes, 'c');
    }
    assert forall|minutes: int| (#[trigger] app.set_hours(minutes)).wf() by {
        law_edits_keep_valid(app, minutes, 'c');
    }
    law_edits_keep_valid(app, 0, 'c');
}

/// Whatever key is handled, a comment that is being written has a record
/// to go to.
pub proof fn law_handle_keeps_comment_home(key: Key, app: AppView)
    requires
        app.wf(),
        app.comment_has_home(),
    ensures
        handle_spec(key, app).comment_has_home(),
{
    let after = handle_spec(key, app);
    match app.mode() {
        State::Browsing => {
            if after.mode() == State::WritingComment {
                assert(after == app.toggle_writing_comment());
                if app.active_day_record() is None {
                    let entered = AppView { state: app.state.push(State::WritingComment), ..app };
                    law_with_day_at_keeps_valid(
                        app.data,
                        app.active_year,
                        app.active_week,
                        app.active_timecode,
                        app.active_day as int,
                        DayView { minutes: 0, comment: Seq::empty() },
                    );
                }
            }
        },
        State::WritingComment => {
            let record = app.active_day_record().unwrap();
            assert forall|changed: DayView|
                (#[trigger] app.with_active_day(changed)).active_day_record() == Some(
                    changed,
                ) by {
                law_with_day_at_keeps_valid(
                    app.data,
                    app.active_year,
                    app.active_week,
                    app.active_timecode,
                    app.active_day as int,
                    changed,
                );
            }
        },
        State::AddingTimecode => {},
    }
}

} // verus!
