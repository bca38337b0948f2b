//! What the screen shows of the engine, as plain values for the host to draw.
use crate::app::{clamp, App, AppView, State, WINDOW};
use crate::data::name_in;
use vstd::prelude::*;

verus! {

/// One row of the timecode column.
#[derive(Clone, Debug, PartialEq)]
pub struct TimecodeLabel {
    /// Where the timecode stands in the list of the week.
    pub index: usize,
    pub name: String,
    /// The timecode is starred.
    pub starred: bool,
    /// The cursor stands on the timecode, and no new timecode is being
    /// entered.
    pub active: bool,
}

/// Mathematical model of a [`TimecodeLabel`].
pub struct TimecodeLabelView {
    pub index: int,
    pub name: Seq<char>,
    pub starred: bool,
    pub active: bool,
}

impl View for TimecodeLabel {
    type V = TimecodeLabelView;

    open spec fn view(&self) -> TimecodeLabelView {
        TimecodeLabelView {
            index: self.index as int,
            name: self.name@,
            starred: self.starred,
            active: self.active,
        }
    }
}

/// The models of `labels`.
pub open spec fn label_views(labels: Seq<TimecodeLabel>) -> Seq<TimecodeLabelView> {
    labels.map_values(|label: TimecodeLabel| label@)
}

impl AppView {
    /// The row of the timecode at `index` of the list.
    pub open spec fn label(self, index: int) -> TimecodeLabelView {
        TimecodeLabelView {
            index,
            name: self.timecodes[index],
            starred: self.conf.starred_timecodes.contains(self.timecodes[index]),
            active: index == self.active_timecode && self.mode() != State::AddingTimecode,
        }
    }

    /// Where the rows end: the window's upper bound, cut to the list.
    pub open spec fn rows_end(self) -> int {
        clamp(self.high, 0, self.timecodes.len() as int)
    }

    /// Where the rows begin: the window's lower bound, cut to the end of
    /// the rows. While the name of a new timecode is typed and the window
    /// is full, the rows begin one later: the last row of the column is
    /// kept for the name.
    pub open spec fn rows_start(self) -> int {
        let start = clamp(self.low, 0, self.rows_end());
        if self.mode() == State::AddingTimecode && self.rows_end() - start >= WINDOW {
            start + 1
        } else {
            start
        }
    }

    /// The rows of the timecodes that are shown, in order. The hours of a
    /// row are those of the timecode at its `index`.
    pub open spec fn visible_labels(self) -> Seq<TimecodeLabelView> {
        Seq::new(
            (self.rows_end() - self.rows_start()) as nat,
            |row: int| self.label(self.rows_start() + row),
        )
    }

    /// Whether timecodes follow below the window.
    pub open spec fn more_below(self) -> bool {
        self.high < self.timecodes.len()
    }

    /// The comment under the cursor, empty where nothing was booked.
    pub open spec fn active_comment(self) -> Seq<char> {
        match self.active_day_record() {
            Some(record) => record.comment,
            None => Seq::empty(),
        }
    }
}

impl App {
    /// The rows of the timecode column: the timecodes in the window, each
    /// with its place in the list, by which the host finds its hours.
    pub fn visible_timecodes(&self) -> (labels: Vec<TimecodeLabel>)
        ensures
            label_views(labels@) == self@.visible_labels(),
    {
        let len = self.timecodes.len();
        let end = if self.timecode_range[1] > len {
            len
        } else {
            self.timecode_range[1]
        };
        let adding = matches!(self.get_state(), State::AddingTimecode);
        let low = if self.timecode_range[0] > end {
            end
        } else {
            self.timecode_range[0]
        };
        let start = if adding && end - low >= WINDOW {
            low + 1
        } else {
            low
        };
        let mut labels: Vec<TimecodeLabel> = Vec::new();
        let mut index = start;
        while index < end
            invariant
                start <= index <= end <= self.timecodes.len(),
                start == self@.rows_start(),
                end == self@.rows_end(),
                adding == (self@.mode() == State::AddingTimecode),
                labels@.len() == index - start,
                forall|row: int|
                    0 <= row < index - start ==> (#[trigger] labels@[row])@ == self@.label(
                        start + row,
                    ),
            decreases end - index,
        {
            let label = TimecodeLabel {
                index,
                name: self.timecodes[index].clone(),
                starred: name_in(&self.conf.starred_timecodes, &self.timecodes[index]),
                active: index == self.active_timecode && !adding,
            };
            labels.push(label);
            index += 1;
        }
        assert(label_views(labels@) =~= self@.visible_labels());
        labels
    }

    /// Whether timecodes follow below the window.
    pub fn more_below(&self) -> (more: bool)
        ensures
            more == self@.more_below(),
    {
        self.timecode_range[1] < self.timecodes.len()
    }

    /// The comment under the cursor, empty where nothing was booked.
    pub fn active_comment(&self) -> (comment: String)
        ensures
            comment@ == self@.active_comment(),
    {
        match self.get_active_day() {
            Some(day) => day.comment.clone(),
            None => String::new(),
        }
    }
}

} // verus!
