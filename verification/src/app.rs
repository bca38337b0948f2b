//! The navigation cursor and the edits that flow from it into the store.
use crate::config::{Config, ConfigView};
use crate::cursor_laws::{
    law_adding_keeps_valid, law_assign_timecodes_keeps_valid, law_change_hours_floor,
    law_edits_keep_valid,
    law_next_timecode_keeps_window, law_prev_timecode_keeps_window, law_stars_keep_valid,
    law_start_valid, law_timecode_moves_keep_valid, law_week_moves_keep_valid,
};
use crate::data::{
    add_timecode_spec, can_add_timecode, day_at, entry_at, lemma_with_day_same, load_week_spec,
    name_views, slot_exists, store_wf, timecodes_spec, week_at, with_day_at, with_entry_at, Day,
    DayView, DataView, Timecode, TimecodeView, TimekeeperData, Week,
};
use vstd::prelude::*;

verus! {

/// The most timecodes that the window shows at once.
pub const WINDOW: usize = 5;

/// The number of the last week of every year.
pub const LAST_WEEK: u8 = 52;

/// The number of the last weekday, Sunday.
pub const LAST_DAY: u8 = 6;

/// An input mode. The innermost mode of the stack is the current one.
#[derive(Clone, Copy, Debug, PartialEq, Eq, Structural)]
pub enum State {
    Browsing,
    WritingComment,
    AddingTimecode,
}

/// The cursor, the store it walks over and the configuration.
#[derive(Clone, Debug, PartialEq)]
pub struct App {
    pub data: TimekeeperData,
    pub conf: Config,
    /// The timecode names of the active week.
    pub timecodes: Vec<String>,
    /// The window over `timecodes` that is shown: from the first index up
    /// to, not including, the second.
    pub timecode_range: [usize; 2],
    pub active_timecode: usize,
    pub active_day: u8,
    pub active_week: u8,
    pub active_year: usize,
    /// The mode stack, base first.
    pub state: Vec<State>,
    /// Where the host keeps the store.
    pub filepath: String,
    /// The name that is being typed while a timecode is added.
    pub timecode_buffer: String,
}

/// Mathematical model of an [`App`].
pub struct AppView {
    pub data: DataView,
    pub conf: ConfigView,
    pub timecodes: Seq<Seq<char>>,
    pub low: int,
    pub high: int,
    pub active_timecode: int,
    pub active_day: u8,
    pub active_week: u8,
    pub active_year: usize,
    pub state: Seq<State>,
    pub filepath: Seq<char>,
    pub timecode_buffer: Seq<char>,
}

/// The upper bound of the window over the first timecodes of a list of
/// `len`: the whole list, or [`WINDOW`] of it where it is longer.
pub open spec fn first_window(len: int) -> int {
    if len < WINDOW {
        len
    } else {
        WINDOW as int
    }
}

/// `x`, or the nearer end of `lo..=hi` where `x` lies outside.
pub open spec fn clamp(x: int, lo: int, hi: int) -> int {
    if x < lo {
        lo
    } else if x > hi {
        hi
    } else {
        x
    }
}

impl AppView {
    /// The window lies within the list and shows at most [`WINDOW`]
    /// timecodes, and the cursor stands on a timecode of the list, or at
    /// zero where the list is empty.
    pub open spec fn window_wf(self) -> bool {
        &&& 0 <= self.low <= self.high <= self.timecodes.len()
        &&& self.high - self.low <= WINDOW
        &&& if self.timecodes.len() > 0 {
            0 <= self.active_timecode < self.timecodes.len()
        } else {
            self.active_timecode == 0
        }
    }

    /// The timecode under the cursor is inside the window, while there is
    /// any timecode.
    pub open spec fn active_visible(self) -> bool {
        self.timecodes.len() > 0 ==> self.low <= self.active_timecode < self.high
    }

    /// The cursor stands on a week and a weekday that exist.
    pub open spec fn coord_wf(self) -> bool {
        1 <= self.active_week <= LAST_WEEK && self.active_day <= LAST_DAY
    }

    /// The mode stack is `Browsing` alone, or `Browsing` under one of the
    /// other two modes.
    pub open spec fn modes_wf(self) -> bool {
        &&& 1 <= self.state.len() <= 2
        &&& self.state[0] == State::Browsing
        &&& self.state.len() == 2 ==> self.state[1] != State::Browsing
    }

    /// While a comment is written, there is a record to hold it.
    pub open spec fn comment_has_home(self) -> bool {
        self.mode() == State::WritingComment ==> self.active_day_record() is Some
    }

    /// The active week is materialised, and the list holds its names.
    pub open spec fn coherent(self) -> bool {
        &&& week_at(self.data, self.active_year, self.active_week) is Some
        &&& self.timecodes == timecodes_spec(self.data, self.active_year, self.active_week)
    }

    /// Everything that holds of the engine between any two of its
    /// operations: the window and the cursor fit the list and the cursor is
    /// inside the window, the coordinates exist, the mode stack is sound,
    /// the list is that of the active week, and the store and the
    /// configuration are valid.
    pub open spec fn wf(self) -> bool {
        &&& self.window_wf()
        &&& self.active_visible()
        &&& self.coord_wf()
        &&& self.modes_wf()
        &&& self.coherent()
        &&& store_wf(self.data)
        &&& self.conf.wf()
    }

    /// The current mode: the innermost of the stack, `Browsing` where the
    /// stack is empty.
    pub open spec fn mode(self) -> State {
        if self.state.len() > 0 {
            self.state.last()
        } else {
            State::Browsing
        }
    }

    /// The name under the cursor, if the list reaches that far.
    pub open spec fn cur_timecode(self) -> Option<Seq<char>> {
        if 0 <= self.active_timecode < self.timecodes.len() {
            Some(self.timecodes[self.active_timecode])
        } else {
            None
        }
    }

    /// The cursor one timecode further down, stopped at the last one. A
    /// window that the cursor leaves follows it by one step.
    pub open spec fn next_timecode(self) -> AppView {
        let len = self.timecodes.len() as int;
        if len != 0 && self.active_timecode < len - 1 {
            let active = self.active_timecode + 1;
            if active >= self.high {
                AppView {
                    active_timecode: active,
                    low: clamp(self.low + 1, 0, len),
                    high: clamp(self.high + 1, 0, len),
                    ..self
                }
            } else {
                AppView { active_timecode: active, ..self }
            }
        } else {
            self
        }
    }

    /// The cursor one timecode further up, stopped at the first one. A
    /// window that the cursor leaves follows it by one step.
    pub open spec fn prev_timecode(self) -> AppView {
        let len = self.timecodes.len() as int;
        if self.active_timecode > 0 {
            let active = self.active_timecode - 1;
            if active < self.low {
                AppView {
                    active_timecode: active,
                    low: clamp(self.low - 1, 0, len),
                    high: clamp(self.high - 1, 0, len),
                    ..self
                }
            } else {
                AppView { active_timecode: active, ..self }
            }
        } else {
            self
        }
    }

    /// The entry under the cursor, absent where the cursor addresses none.
    pub open spec fn active_entry(self) -> Option<TimecodeView> {
        entry_at(self.data, self.active_year, self.active_week, self.active_timecode)
    }

    /// This state with `entry` under the cursor.
    pub open spec fn with_active_entry(self, entry: TimecodeView) -> AppView {
        AppView {
            data: with_entry_at(
                self.data,
                self.active_year,
                self.active_week,
                self.active_timecode,
                entry,
            ),
            ..self
        }
    }

    /// The record under the cursor, absent where the cursor addresses
    /// nothing or nothing was booked there.
    pub open spec fn active_day_record(self) -> Option<DayView> {
        day_at(
            self.data,
            self.active_year,
            self.active_week,
            self.active_timecode,
            self.active_day as int,
        )
    }

    /// Whether the cursor stands on a weekday of an entry that the store
    /// holds.
    pub open spec fn active_slot_exists(self) -> bool {
        slot_exists(
            self.data,
            self.active_year,
            self.active_week,
            self.active_timecode,
            self.active_day as int,
        )
    }

    /// This state with `record` under the cursor.
    pub open spec fn with_active_day(self, record: DayView) -> AppView {
        AppView {
            data: with_day_at(
                self.data,
                self.active_year,
                self.active_week,
                self.active_timecode,
                self.active_day as int,
                record,
            ),
            ..self
        }
    }

    /// The state after `change` minutes were added to the record under the
    /// cursor. A change that would leave less than nothing, or more than a
    /// record can hold, is not made. Where nothing was booked yet, the new
    /// record holds the change, or nothing if the change is negative.
    pub open spec fn change_hours(self, change: int) -> AppView {
        if !self.active_slot_exists() {
            self
        } else {
            match self.active_day_record() {
                Some(record) => self.with_active_day(
                    DayView {
                        minutes: changed_minutes(record.minutes as int, change) as nat,
                        comment: record.comment,
                    },
                ),
                None => self.with_active_day(
                    DayView { minutes: floor_zero(change) as nat, comment: Seq::empty() },
                ),
            }
        }
    }

    /// The state after the record under the cursor was set to `val`
    /// minutes, or to nothing if `val` is negative. The comment stays; a new
    /// record has none.
    pub open spec fn set_hours(self, val: int) -> AppView {
        if !self.active_slot_exists() {
            self
        } else {
            match self.active_day_record() {
                Some(record) => self.with_active_day(
                    DayView { minutes: floor_zero(val) as nat, comment: record.comment },
                ),
                None => self.with_active_day(
                    DayView { minutes: floor_zero(val) as nat, comment: Seq::empty() },
                ),
            }
        }
    }

    /// The state after `c` was typed into the comment under the cursor;
    /// nothing happens where there is no record to hold it.
    pub open spec fn append_char_to_comment(self, c: char) -> AppView {
        match self.active_day_record() {
            Some(record) => self.with_active_day(
                DayView { minutes: record.minutes, comment: record.comment.push(c) },
            ),
            None => self,
        }
    }

    /// The state after the last character of the comment under the cursor
    /// was deleted; nothing happens where there is none.
    pub open spec fn delete_char_from_comment(self) -> AppView {
        match self.active_day_record() {
            Some(record) => if record.comment.len() > 0 {
                self.with_active_day(
                    DayView { minutes: record.minutes, comment: record.comment.drop_last() },
                )
            } else {
                self
            },
            None => self,
        }
    }

    /// Entering or leaving the comment mode.
    ///
    /// From `Browsing`, on a slot that exists, the mode is pushed and a
    /// record of zero minutes and no comment is made where none was booked.
    /// From `WritingComment` the mode is popped. Nothing happens in
    /// `AddingTimecode`, nor while the week has no timecode.
    pub open spec fn toggle_writing_comment(self) -> AppView {
        if self.timecodes.len() == 0 {
            self
        } else if self.mode() == State::Browsing {
            if !self.active_slot_exists() {
                self
            } else {
                let entered = AppView { state: self.state.push(State::WritingComment), ..self };
                match self.active_day_record() {
                    Some(_) => entered,
                    None => entered.with_active_day(DayView { minutes: 0, comment: Seq::empty() }),
                }
            }
        } else if self.mode() == State::WritingComment {
            AppView { state: self.state.drop_last(), ..self }
        } else {
            self
        }
    }

    /// Whether the cursor stands in the last week that can be addressed.
    pub open spec fn at_last_week(self) -> bool {
        self.active_week >= LAST_WEEK && self.active_year == usize::MAX
    }

    /// Whether the cursor stands in the first week that can be addressed.
    pub open spec fn at_first_week(self) -> bool {
        self.active_week <= 1 && self.active_year == 0
    }

    /// The state after the active week was materialised with the starred
    /// timecodes.
    pub open spec fn load_active_week(self) -> AppView {
        AppView {
            data: load_week_spec(
                self.data,
                self.active_week,
                self.active_year,
                self.conf.starred_timecodes,
            ),
            ..self
        }
    }

    /// The state after the timecode list was read anew from the active week
    /// and the cursor and the window were fitted to it.
    ///
    /// A cursor beyond the list goes to its last entry. The window's upper
    /// bound is cut to the length of the list; where that does not leave it
    /// above the cursor, as on arrival from a week without timecodes, the
    /// window opens over the first [`WINDOW`] timecodes. Its lower bound
    /// lies [`WINDOW`] below the upper one, or at zero.
    pub open spec fn assign_timecodes(self) -> AppView {
        let names = timecodes_spec(self.data, self.active_year, self.active_week);
        let len = names.len() as int;
        let active = if len <= self.active_timecode {
            floor_zero(len - 1)
        } else {
            self.active_timecode
        };
        let cut = if self.high < len {
            self.high
        } else {
            len
        };
        let high = if active < cut {
            cut
        } else {
            first_window(len)
        };
        AppView {
            timecodes: names,
            active_timecode: active,
            low: floor_zero(high - WINDOW),
            high,
            ..self
        }
    }

    /// The cursor one week later: week 1 of the next year follows week
    /// [`LAST_WEEK`]. The week it arrives in is materialised and the list
    /// fitted. Nothing happens in the last week that can be addressed.
    pub open spec fn next_week(self) -> AppView {
        if self.at_last_week() {
            self
        } else {
            let moved = if self.active_week < LAST_WEEK {
                AppView { active_week: (self.active_week + 1) as u8, ..self }
            } else {
                AppView { active_week: 1, active_year: (self.active_year + 1) as usize, ..self }
            };
            moved.load_active_week().assign_timecodes()
        }
    }

    /// The cursor one week earlier: week [`LAST_WEEK`] of the year before
    /// precedes week 1. The week it arrives in is materialised and the list
    /// fitted. Nothing happens in the first week that can be addressed.
    pub open spec fn prev_week(self) -> AppView {
        if self.at_first_week() {
            self
        } else {
            let moved = if self.active_week > 1 {
                AppView {
                    active_week: clamp(self.active_week - 1, 1, LAST_WEEK as int) as u8,
                    ..self
                }
            } else {
                AppView {
                    active_week: LAST_WEEK,
                    active_year: (self.active_year - 1) as usize,
                    ..self
                }
            };
            moved.load_active_week().assign_timecodes()
        }
    }

    /// The cursor one day later: Monday of the next week follows Sunday.
    pub open spec fn next_day(self) -> AppView {
        if self.active_day < LAST_DAY {
            AppView { active_day: (self.active_day + 1) as u8, ..self }
        } else if self.at_last_week() {
            self
        } else {
            (AppView { active_day: 0, ..self }).next_week()
        }
    }

    /// The cursor one day earlier: Sunday of the week before precedes
    /// Monday.
    pub open spec fn prev_day(self) -> AppView {
        if self.active_day > 0 {
            AppView { active_day: clamp(self.active_day - 1, 0, LAST_DAY as int) as u8, ..self }
        } else if self.at_first_week() {
            self
        } else {
            (AppView { active_day: LAST_DAY, ..self }).prev_week()
        }
    }

    /// The state after an empty timecode called `name` was added to the
    /// active week and to the list, where the store takes it. The first
    /// timecode of a list that was empty gets the cursor, and the window
    /// opens over it.
    pub open spec fn add_timecode(self, name: Seq<char>) -> AppView {
        if can_add_timecode(self.data, self.active_week, self.active_year, name) {
            let added = AppView {
                data: add_timecode_spec(self.data, self.active_week, self.active_year, name),
                timecodes: self.timecodes.push(name),
                ..self
            };
            if self.timecodes.len() == 0 {
                AppView { low: 0, high: 1, active_timecode: 0, ..added }
            } else {
                added
            }
        } else {
            self
        }
    }

    /// The cursor on the last timecode, the window over the last
    /// [`WINDOW`] of them.
    pub open spec fn show_last(self) -> AppView {
        let len = self.timecodes.len() as int;
        AppView {
            low: floor_zero(len - WINDOW),
            high: len,
            active_timecode: floor_zero(len - 1),
            ..self
        }
    }

    /// Beginning or committing the entry of a new timecode.
    ///
    /// From `Browsing` the mode is pushed, with an empty buffer. From
    /// `AddingTimecode` the buffer is added as a timecode, unless the week
    /// has one of that name; then the buffer is emptied, the mode popped and
    /// the cursor put on the last timecode. Nothing happens in
    /// `WritingComment`.
    pub open spec fn toggle_adding_timecode(self) -> AppView {
        if self.mode() == State::Browsing {
            AppView {
                state: self.state.push(State::AddingTimecode),
                timecode_buffer: Seq::empty(),
                ..self
            }
        } else if self.mode() == State::AddingTimecode {
            let added = self.add_timecode(self.timecode_buffer);
            (AppView {
                timecode_buffer: Seq::empty(),
                state: self.state.drop_last(),
                ..added
            }).show_last()
        } else {
            self
        }
    }

    /// Giving up the entry of a new timecode: the buffer is emptied and the
    /// mode popped. Nothing happens in any other mode.
    pub open spec fn cancel_adding_timecode(self) -> AppView {
        if self.mode() == State::AddingTimecode {
            AppView { timecode_buffer: Seq::empty(), state: self.state.drop_last(), ..self }
        } else {
            self
        }
    }

    /// The state after the timecode under the cursor was starred.
    pub open spec fn star_timecode(self) -> AppView {
        match self.cur_timecode() {
            Some(name) => AppView { conf: self.conf.add_timecode(name), ..self },
            None => self,
        }
    }

    /// The state after the timecode under the cursor lost its star.
    pub open spec fn unstar_timecode(self) -> AppView {
        match self.cur_timecode() {
            Some(name) => AppView { conf: self.conf.remove_timecode(name), ..self },
            None => self,
        }
    }

    /// The state to start with: the cursor on the first timecode of the
    /// given week, that week materialised, the window over the first
    /// [`WINDOW`] timecodes. A week or a day out of range is moved to the
    /// nearest one in range; a store that was not found starts empty.
    pub open spec fn start(
        filepath: Seq<char>,
        stored: Option<DataView>,
        conf: ConfigView,
        year: usize,
        week: u8,
        day: u8,
    ) -> AppView {
        let found = match stored {
            Some(data) => data,
            None => Map::empty(),
        };
        let week = clamp(week as int, 1, LAST_WEEK as int) as u8;
        let data = load_week_spec(found, week, year, conf.starred_timecodes);
        let names = timecodes_spec(data, year, week);
        AppView {
            data,
            conf,
            timecodes: names,
            low: 0,
            high: first_window(names.len() as int),
            active_timecode: 0,
            active_day: clamp(day as int, 0, LAST_DAY as int) as u8,
            active_week: week,
            active_year: year,
            state: seq![State::Browsing],
            filepath,
            timecode_buffer: Seq::empty(),
        }
    }

    /// The year after, stopped at the last year there is.
    pub open spec fn next_year(self) -> AppView {
        if self.active_year < usize::MAX {
            AppView { active_year: (self.active_year + 1) as usize, ..self }
        } else {
            self
        }
    }

    /// The year before, stopped at year 0.
    pub open spec fn prev_year(self) -> AppView {
        if self.active_year > 0 {
            AppView { active_year: (self.active_year - 1) as usize, ..self }
        } else {
            self
        }
    }
}

impl View for App {
    type V = AppView;

    open spec fn view(&self) -> AppView {
        AppView {
            data: self.data@,
            conf: self.conf@,
            timecodes: name_views(self.timecodes@),
            low: self.timecode_range[0] as int,
            high: self.timecode_range[1] as int,
            active_timecode: self.active_timecode as int,
            active_day: self.active_day,
            active_week: self.active_week,
            active_year: self.active_year,
            state: self.state@,
            filepath: self.filepath@,
            timecode_buffer: self.timecode_buffer@,
        }
    }
}

/// `current` minutes after `change` was added, unless the sum is negative:
/// then `current` stays.
pub open spec fn floored_sum(current: int, change: int) -> int {
    if current + change >= 0 {
        current + change
    } else {
        current
    }
}

/// What a record holds after `change` was added to its `current` minutes:
/// [`floored_sum`], unless that is more than a record can hold: then
/// `current` stays.
pub open spec fn changed_minutes(current: int, change: int) -> int {
    if floored_sum(current, change) <= u32::MAX {
        floored_sum(current, change)
    } else {
        current
    }
}

/// `x`, or zero where `x` is negative.
pub open spec fn floor_zero(x: int) -> int {
    if x > 0 {
        x
    } else {
        0
    }
}

/// `x` as a count of minutes, zero where `x` is negative.
fn minutes_from(x: i32) -> (minutes: u32)
    ensures
        minutes == floor_zero(x as int),
{
    if x > 0 {
        x as u32
    } else {
        0
    }
}

/// The model of the store that the host found, if it found one.
pub open spec fn stored_view(stored: Option<TimekeeperData>) -> Option<DataView> {
    match stored {
        Some(data) => Some(data@),
        None => None,
    }
}

/// `bound` moved one step up, kept within `0..=len`.
fn step_up(bound: usize, len: usize) -> (moved: usize)
    ensures
        moved == clamp(bound + 1, 0, len as int),
{
    if bound < len {
        bound + 1
    } else {
        len
    }
}

/// `bound` moved one step down, kept within `0..=len`.
fn step_down(bound: usize, len: usize) -> (moved: usize)
    ensures
        moved == clamp(bound - 1, 0, len as int),
{
    if bound == 0 {
        0
    } else if bound - 1 > len {
        len
    } else {
        bound - 1
    }
}

impl App {
    /// Moves the cursor one timecode down, and the window with it where the
    /// cursor would leave it.
    pub fn next_timecode(&mut self)
        ensures
            final(self)@ == old(self)@.next_timecode(),
            old(self)@.window_wf() && old(self)@.active_visible() ==> final(self)@.window_wf()
                && final(self)@.active_visible(),
            old(self)@.wf() ==> final(self)@.wf(),
    {
        proof {
            if self@.window_wf() && self@.active_visible() {
                law_next_timecode_keeps_window(self@);
            }
            if self@.wf() {
                law_timecode_moves_keep_valid(self@);
            }
        }
        let len = self.timecodes.len();
        if len != 0 && self.active_timecode < len - 1 {
            self.active_timecode += 1;
            if self.active_timecode >= self.timecode_range[1] {
                self.timecode_range = [
                    step_up(self.timecode_range[0], len),
                    step_up(self.timecode_range[1], len),
                ];
            }
        }
    }

    /// Moves the cursor one timecode up, and the window with it where the
    /// cursor would leave it.
    pub fn prev_timecode(&mut self)
        ensures
            final(self)@ == old(self)@.prev_timecode(),
            old(self)@.window_wf() && old(self)@.active_visible() ==> final(self)@.window_wf()
                && final(self)@.active_visible(),
            old(self)@.wf() ==> final(self)@.wf(),
    {
        proof {
            if self@.window_wf() && self@.active_visible() {
                law_prev_timecode_keeps_window(self@);
            }
            if self@.wf() {
                law_timecode_moves_keep_valid(self@);
            }
        }
        let len = self.timecodes.len();
        if self.active_timecode > 0 {
            self.active_timecode -= 1;
            if self.active_timecode < self.timecode_range[0] {
                self.timecode_range = [
                    step_down(self.timecode_range[0], len),
                    step_down(self.timecode_range[1], len),
                ];
            }
        }
    }

    /// Moves the cursor to the year after. The week is not materialised and
    /// the list is left as it is.
    pub fn next_year(&mut self)
        ensures
            final(self)@ == old(self)@.next_year(),
    {
        if self.active_year < usize::MAX {
            self.active_year += 1;
        }
    }

    /// Moves the cursor to the year before. The week is not materialised and
    /// the list is left as it is.
    pub fn prev_year(&mut self)
        ensures
            final(self)@ == old(self)@.prev_year(),
    {
        if self.active_year > 0 {
            self.active_year -= 1;
        }
    }

    /// The current mode.
    pub fn get_state(&self) -> (mode: &State)
        ensures
            *mode == self@.mode(),
    {
        let depth = self.state.len();
        if depth > 0 {
            &self.state[depth - 1]
        } else {
            &State::Browsing
        }
    }

    /// Whether a text cursor belongs behind the comment: while it is written.
    pub fn should_show_cursor(&self) -> (shown: bool)
        ensures
            shown == (self@.mode() == State::WritingComment),
    {
        matches!(self.get_state(), State::WritingComment)
    }

    /// Types `c` into the name of the timecode that is being added.
    pub fn append_char_to_timecode_buffer(&mut self, c: char)
        ensures
            final(self)@ == (AppView {
                timecode_buffer: old(self)@.timecode_buffer.push(c),
                ..old(self)@
            }),
            old(self)@.wf() ==> final(self)@.wf(),
    {
        self.timecode_buffer.push(c);
    }

    /// Deletes the last character of the name that is being typed, if there
    /// is one.
    pub fn delete_char_from_timecode_buffer(&mut self)
        ensures
            final(self)@ == (AppView {
                timecode_buffer: if old(self)@.timecode_buffer.len() > 0 {
                    old(self)@.timecode_buffer.drop_last()
                } else {
                    old(self)@.timecode_buffer
                },
                ..old(self)@
            }),
            old(self)@.wf() ==> final(self)@.wf(),
    {
        self.timecode_buffer.pop();
    }

    /// Empties the name that is being typed.
    pub fn flush_timecode_buffer(&mut self)
        ensures
            final(self)@ == (AppView { timecode_buffer: Seq::empty(), ..old(self)@ }),
            old(self)@.wf() ==> final(self)@.wf(),
    {
        self.timecode_buffer = String::new();
    }

    /// The week under the cursor, if it was materialised.
    pub fn get_active_week(&self) -> (found: Option<&Week>)
        ensures
            match found {
                Some(content) => week_at(self@.data, self.active_year, self.active_week) == Some(
                    content@,
                ),
                None => week_at(self@.data, self.active_year, self.active_week) is None,
            },
    {
        self.data.get_week(self.active_year, self.active_week)
    }

    /// The entry under the cursor for writing, absent where the cursor
    /// addresses none.
    pub fn get_active_timecode(&mut self) -> (found: Option<&mut Timecode>)
        ensures
            match found {
                Some(entry) => {
                    &&& old(self)@.active_entry() == Some(entry@)
                    &&& final(self)@ == old(self)@.with_active_entry(final(entry)@)
                },
                None => old(self)@.active_entry() is None && final(self)@ == old(self)@,
            },
    {
        self.data.get_timecode_mut(self.active_year, self.active_week, self.active_timecode)
    }

    /// The record under the cursor for writing, absent where nothing was
    /// booked or the cursor addresses nothing.
    pub fn get_active_day_mut(&mut self) -> (found: Option<&mut Day>)
        ensures
            match found {
                Some(record) => {
                    &&& old(self)@.active_day_record() == Some(record@)
                    &&& final(self)@ == old(self)@.with_active_day(final(record)@)
                },
                None => old(self)@.active_day_record() is None && final(self)@ == old(self)@,
            },
    {
        self.data.get_day_mut(
            self.active_year,
            self.active_week,
            self.active_timecode,
            self.active_day,
        )
    }

    /// The record under the cursor, absent where nothing was booked or the
    /// cursor addresses nothing.
    pub fn get_active_day(&self) -> (found: Option<&Day>)
        ensures
            match found {
                Some(record) => self@.active_day_record() == Some(record@),
                None => self@.active_day_record() is None,
            },
    {
        self.data.get_day(
            self.active_year,
            self.active_week,
            self.active_timecode,
            self.active_day,
        )
    }

    /// Adds `change` minutes to the record under the cursor, or makes the
    /// record. See [`AppView::change_hours`].
    pub fn change_hours(&mut self, change: i32)
        ensures
            final(self)@ == old(self)@.change_hours(change as int),
            old(self)@.wf() ==> final(self)@.wf(),
            old(self)@.active_day_record() matches Some(record) && record.minutes + change < 0
                ==> final(self)@ == old(self)@,
            old(self)@.active_day_record() matches Some(record) ==> (old(self)@.wf()
                && record.minutes + change <= u32::MAX ==> final(self)@.active_day_record()
                == Some(
                DayView {
                    minutes: floored_sum(record.minutes as int, change as int) as nat,
                    comment: record.comment,
                },
            )),
    {
        proof {
            if self@.wf() {
                law_edits_keep_valid(self@, change as int, 'c');
                if self@.active_day_record() is Some {
                    law_change_hours_floor(self@, change as int);
                }
            }
        }
        let act = self.active_day;
        proof {
            lemma_with_day_same(
                self@.data,
                self.active_year,
                self.active_week,
                self.active_timecode as int,
                act as int,
            );
        }
        if act > LAST_DAY {
            return ;
        }
        match self.get_active_timecode() {
            Some(t) => match t.get_mut(act) {
                Some(day) => {
                    let sum = day.minutes as i64 + change as i64;
                    if 0 <= sum && sum <= u32::MAX as i64 {
                        day.minutes = sum as u32;
                    }
                },
                None => {
                    let new_day = Day { minutes: minutes_from(change), comment: String::new() };
                    t.set_day(act, new_day)
                },
            },
            None => (),
        }
    }

    /// Sets the record under the cursor to `val` minutes, or makes the record.
    /// See [`AppView::set_hours`].
    pub fn set_hours(&mut self, val: i32)
        ensures
            final(self)@ == old(self)@.set_hours(val as int),
            old(self)@.wf() ==> final(self)@.wf(),
    {
        proof {
            if self@.wf() {
                law_edits_keep_valid(self@, val as int, 'c');
            }
        }
        let act = self.active_day;
        if act > LAST_DAY {
            return ;
        }
        match self.get_active_timecode() {
            Some(t) => match t.get_mut(act) {
                Some(day) => day.minutes = minutes_from(val),
                None => {
                    let new_day = Day { minutes: minutes_from(val), comment: String::new() };
                    t.set_day(act, new_day)
                },
            },
            None => (),
        }
    }

    /// Types `c` into the comment under the cursor.
    pub fn append_char_to_comment(&mut self, c: char)
        ensures
            final(self)@ == old(self)@.append_char_to_comment(c),
            old(self)@.wf() ==> final(self)@.wf(),
    {
        proof {
            if self@.wf() {
                law_edits_keep_valid(self@, 0, c);
            }
        }
        match self.get_active_day_mut() {
            Some(day) => day.comment.push(c),
            None => (),
        }
    }

    /// Deletes the last character of the comment under the cursor, if there
    /// is one.
    pub fn delete_char_from_comment(&mut self)
        ensures
            final(self)@ == old(self)@.delete_char_from_comment(),
            old(self)@.wf() ==> final(self)@.wf(),
    {
        proof {
            if self@.wf() {
                law_edits_keep_valid(self@, 0, 'c');
            }
        }
        proof {
            lemma_with_day_same(
                self@.data,
                self.active_year,
                self.active_week,
                self.active_timecode as int,
                self.active_day as int,
            );
        }
        match self.get_active_day_mut() {
            Some(day) => {
                day.comment.pop();
            },
            None => (),
        }
    }

    /// Enters the comment mode from `Browsing` and leaves it from
    /// `WritingComment`. See [`AppView::toggle_writing_comment`].
    pub fn toggle_writing_comment(&mut self)
        ensures
            final(self)@ == old(self)@.toggle_writing_comment(),
            old(self)@.wf() ==> final(self)@.wf(),
    {
        proof {
            if self@.wf() {
                law_edits_keep_valid(self@, 0, 'c');
            }
        }
        if self.timecodes.len() == 0 {
            return ;
        }
        let day_idx = self.active_day;
        proof {
            lemma_with_day_same(
                self@.data,
                self.active_year,
                self.active_week,
                self.active_timecode as int,
                day_idx as int,
            );
        }
        match *self.get_state() {
            State::Browsing => {
                if day_idx > LAST_DAY {
                    return ;
                }
                match self.get_active_timecode() {
                    Some(t) => {
                        if t.get(day_idx).is_none() {
                            let day = Day { comment: String::new(), minutes: 0 };
                            t.set_day(day_idx, day);
                        }
                        self.state.push(State::WritingComment);
                    },
                    None => (),
                }
            },
            State::WritingComment => {
                self.state.pop();
            },
            State::AddingTimecode => (),
        }
    }

    /// Moves the cursor one day on, into the next week after Sunday.
    pub fn next_day(&mut self)
        ensures
            final(self)@ == old(self)@.next_day(),
            old(self)@.wf() ==> final(self)@.wf(),
    {
        proof {
            if self@.wf() {
                law_week_moves_keep_valid(self@);
            }
        }
        if self.active_day < LAST_DAY {
            self.active_day += 1;
        } else if !(self.active_week >= LAST_WEEK && self.active_year == usize::MAX) {
            self.active_day = 0;
            self.next_week();
        }
    }

    /// Moves the cursor one day back, into the week before after Monday.
    pub fn prev_day(&mut self)
        ensures
            final(self)@ == old(self)@.prev_day(),
            old(self)@.wf() ==> final(self)@.wf(),
    {
        proof {
            if self@.wf() {
                law_week_moves_keep_valid(self@);
            }
        }
        if self.active_day > LAST_DAY {
            self.active_day = LAST_DAY;
        } else if self.active_day > 0 {
            self.active_day -= 1;
        } else if !(self.active_week <= 1 && self.active_year == 0) {
            self.active_day = LAST_DAY;
            self.prev_week();
        }
    }

    /// Moves the cursor one week on, materialises the week it arrives in and
    /// fits the list, the cursor and the window to it.
    pub fn next_week(&mut self)
        ensures
            final(self)@ == old(self)@.next_week(),
            old(self)@.wf() ==> final(self)@.wf(),
            old(self).active_week == LAST_WEEK && old(self).active_year < usize::MAX ==> {
                &&& final(self).active_week == 1
                &&& final(self).active_year == old(self).active_year + 1
            },
    {
        proof {
            if self@.wf() {
                law_week_moves_keep_valid(self@);
            }
        }
        if self.active_week < LAST_WEEK {
            self.active_week += 1;
        } else if self.active_year < usize::MAX {
            self.active_week = 1;
            self.next_year();
        } else {
            return ;
        }
        self.data.load_week(self.active_week, self.active_year, &self.conf.starred_timecodes);
        self.assign_timecodes();
    }

    /// Moves the cursor one week back, materialises the week it arrives in
    /// and fits the list, the cursor and the window to it.
    pub fn prev_week(&mut self)
        ensures
            final(self)@ == old(self)@.prev_week(),
            old(self)@.wf() ==> final(self)@.wf(),
            old(self).active_week == 1 && old(self).active_year > 0 ==> {
                &&& final(self).active_week == LAST_WEEK
                &&& final(self).active_year == old(self).active_year - 1
            },
    {
        proof {
            if self@.wf() {
                law_week_moves_keep_valid(self@);
            }
        }
        if self.active_week > LAST_WEEK + 1 {
            self.active_week = LAST_WEEK;
        } else if self.active_week > 1 {
            self.active_week -= 1;
        } else if self.active_year > 0 {
            self.active_week = LAST_WEEK;
            self.prev_year();
        } else {
            return ;
        }
        self.data.load_week(self.active_week, self.active_year, &self.conf.starred_timecodes);
        self.assign_timecodes();
    }

    /// Reads the timecode list anew from the active week and fits the cursor
    /// and the window to it. See [`AppView::assign_timecodes`].
    pub fn assign_timecodes(&mut self)
        ensures
            final(self)@ == old(self)@.assign_timecodes(),
            old(self)@.wf() ==> final(self)@.wf(),
    {
        proof {
            if self@.wf() {
                law_assign_timecodes_keeps_valid(self@);
            }
        }
        self.timecodes = self.data.get_timecodes(self.active_year, self.active_week);
        let len = self.timecodes.len();
        if len <= self.active_timecode {
            self.active_timecode = if len > 0 {
                len - 1
            } else {
                0
            };
        }
        let cut = if self.timecode_range[1] < len {
            self.timecode_range[1]
        } else {
            len
        };
        let high = if self.active_timecode < cut {
            cut
        } else if len < WINDOW {
            len
        } else {
            WINDOW
        };
        let low = if high > WINDOW {
            high - WINDOW
        } else {
            0
        };
        self.timecode_range = [low, high];
    }

    /// Begins the entry of a new timecode from `Browsing` and commits it from
    /// `AddingTimecode`. See [`AppView::toggle_adding_timecode`].
    pub fn toggle_adding_timecode(&mut self)
        ensures
            final(self)@ == old(self)@.toggle_adding_timecode(),
            old(self)@.wf() ==> final(self)@.wf(),
    {
        proof {
            if self@.wf() {
                law_adding_keeps_valid(self@, self@.timecode_buffer);
            }
        }
        match *self.get_state() {
            State::Browsing => {
                self.state.push(State::AddingTimecode);
                self.timecode_buffer = String::new();
            },
            State::AddingTimecode => {
                let name = self.timecode_buffer.clone();
                self.add_timecode(name);
                self.flush_timecode_buffer();
                self.state.pop();
                self.show_last();
            },
            State::WritingComment => (),
        }
    }

    /// Gives up the entry of a new timecode: the store stays as it is.
    pub fn cancel_adding_timecode(&mut self)
        ensures
            final(self)@ == old(self)@.cancel_adding_timecode(),
            old(self)@.wf() ==> final(self)@.wf(),
    {
        proof {
            if self@.wf() {
                law_adding_keeps_valid(self@, self@.timecode_buffer);
            }
        }
        match *self.get_state() {
            State::AddingTimecode => {
                self.flush_timecode_buffer();
                self.state.pop();
            },
            _ => (),
        }
    }

    /// Puts the cursor on the last timecode and the window over the last
    /// [`WINDOW`] of them.
    fn show_last(&mut self)
        ensures
            final(self)@ == old(self)@.show_last(),
    {
        let len = self.timecodes.len();
        let low = if len > WINDOW {
            len - WINDOW
        } else {
            0
        };
        self.timecode_range = [low, len];
        self.active_timecode = if len > 0 {
            len - 1
        } else {
            0
        };
    }

    /// Adds an empty timecode called `timecode` to the active week. Nothing
    /// happens where the week has one of that name.
    pub fn add_timecode(&mut self, timecode: String)
        ensures
            final(self)@ == old(self)@.add_timecode(timecode@),
            old(self)@.wf() ==> final(self)@.wf(),
    {
        proof {
            if self@.wf() {
                law_adding_keeps_valid(self@, timecode@);
            }
        }
        let ghost before = self@.timecodes;
        if self.data.add_timecode(self.active_week, self.active_year, timecode.clone()) {
            let first = self.timecodes.len() == 0;
            self.timecodes.push(timecode);
            assert(self@.timecodes =~= before.push(timecode@));
            if first {
                self.timecode_range = [0, 1];
                self.active_timecode = 0;
            }
        }
    }

    /// Stars the timecode under the cursor. The result tells the host to
    /// store the configuration, which it must when the name joined the
    /// starred ones.
    pub fn star_timecode(&mut self) -> (store: bool)
        ensures
            final(self)@ == old(self)@.star_timecode(),
            old(self)@.wf() ==> final(self)@.wf(),
            store == match old(self)@.cur_timecode() {
                Some(name) => !old(self)@.conf.starred_timecodes.contains(name),
                None => false,
            },
    {
        proof {
            if self@.wf() {
                law_stars_keep_valid(self@);
            }
        }
        match self.get_cur_timecode() {
            Some(tc) => self.conf.add_timecode(tc),
            None => false,
        }
    }

    /// Takes the star from the timecode under the cursor. The result tells
    /// the host to store the configuration, which it must whenever a
    /// timecode was under the cursor, with or without a star.
    pub fn unstar_timecode(&mut self) -> (store: bool)
        ensures
            final(self)@ == old(self)@.unstar_timecode(),
            old(self)@.wf() ==> final(self)@.wf(),
            store == old(self)@.cur_timecode().is_some(),
    {
        proof {
            if self@.wf() {
                law_stars_keep_valid(self@);
            }
        }
        match self.get_cur_timecode() {
            Some(tc) => self.conf.remove_timecode(&tc),
            None => false,
        }
    }

    /// The engine at start-up: on week `week` of `year`, weekday `day`,
    /// over what the host found stored.
    pub fn new(
        filepath: String,
        stored: Option<TimekeeperData>,
        conf: Config,
        year: usize,
        week: u8,
        day: u8,
    ) -> (app: App)
        ensures
            app@ == AppView::start(filepath@, stored_view(stored), conf@, year, week, day),
            conf@.wf() && (stored_view(stored) matches Some(data) ==> store_wf(data))
                ==> app@.wf(),
    {
        proof {
            if conf@.wf() && (stored_view(stored) matches Some(data) ==> store_wf(data)) {
                law_start_valid(filepath@, stored_view(stored), conf@, year, week, day);
            }
        }
        let mut data = match stored {
            Some(data) => data,
            None => TimekeeperData::new(),
        };
        let active_week = if week < 1 {
            1
        } else if week > LAST_WEEK {
            LAST_WEEK
        } else {
            week
        };
        let active_day = if day > LAST_DAY {
            LAST_DAY
        } else {
            day
        };
        data.load_week(active_week, year, &conf.starred_timecodes);
        let timecodes = data.get_timecodes(year, active_week);
        let range_end = if timecodes.len() < WINDOW {
            timecodes.len()
        } else {
            WINDOW
        };
        let mut state: Vec<State> = Vec::new();
        state.push(State::Browsing);
        App {
            data,
            conf,
            timecodes,
            timecode_range: [0, range_end],
            active_timecode: 0,
            active_day,
            active_week,
            active_year: year,
            state,
            filepath,
            timecode_buffer: String::new(),
        }
    }

    /// The name under the cursor, if the list reaches that far.
    pub fn get_cur_timecode(&self) -> (name: Option<String>)
        ensures
            match name {
                Some(name) => self@.cur_timecode() == Some(name@),
                None => self@.cur_timecode() is None,
            },
    {
        if self.timecodes.len() > self.active_timecode {
            Some(self.timecodes[self.active_timecode].clone())
        } else {
            None
        }
    }
}

} // verus!
