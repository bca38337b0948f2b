//! The time store: years of weeks of timecodes of days.
use std::collections::hash_map::Entry;
use std::collections::HashMap;
use crate::store_laws::{
    law_add_timecode_keeps_valid, law_load_week_keeps_valid, law_remove_timecode_keeps_valid,
    law_visit_week_has_starred, law_visit_week_prunes_empty, lemma_add_timecodes_keeps_unique,
    lemma_filter_keeps_unique, lemma_remove_empty_keeps_unique,
};
use vstd::prelude::*;

verus! {

/// What was booked on one weekday for one timecode.
///
/// A day that was never edited has no record at all, which is not the same
/// as a record of zero minutes.
#[derive(Clone, Debug, PartialEq)]
pub struct Day {
    /// Time worked, in whole minutes.
    pub minutes: u32,
    pub comment: String,
}

/// Mathematical model of a [`Day`].
pub struct DayView {
    pub minutes: nat,
    pub comment: Seq<char>,
}

impl View for Day {
    type V = DayView;

    open spec fn view(&self) -> DayView {
        DayView { minutes: self.minutes as nat, comment: self.comment@ }
    }
}

/// Model of an optional day record.
pub open spec fn day_view(day: Option<Day>) -> Option<DayView> {
    match day {
        Some(d) => Some(d@),
        None => None,
    }
}

/// A named bucket with one optional [`Day`] per weekday.
#[derive(Clone, Debug, PartialEq)]
pub struct Timecode {
    pub timecode: String,
    pub monday: Option<Day>,
    pub tuesday: Option<Day>,
    pub wednesday: Option<Day>,
    pub thursday: Option<Day>,
    pub friday: Option<Day>,
    pub saturday: Option<Day>,
    pub sunday: Option<Day>,
}

/// Mathematical model of a [`Timecode`]: its name and seven day slots,
/// Monday first.
pub struct TimecodeView {
    pub name: Seq<char>,
    pub days: Seq<Option<DayView>>,
}

impl TimecodeView {
    /// The entry called `name` with no day booked.
    pub open spec fn empty(name: Seq<char>) -> TimecodeView {
        TimecodeView { name, days: Seq::new(7, |i: int| None::<DayView>) }
    }

    /// No weekday has a record.
    pub open spec fn is_empty(self) -> bool {
        forall|i: int| 0 <= i < self.days.len() ==> self.days[i] is None
    }

    /// The record of weekday `day`, absent too where `day` is no weekday.
    pub open spec fn day(self, day: int) -> Option<DayView> {
        if 0 <= day < self.days.len() {
            self.days[day]
        } else {
            None
        }
    }

    /// This entry with the record of weekday `day` replaced.
    pub open spec fn with_day(self, day: int, record: DayView) -> TimecodeView {
        TimecodeView { name: self.name, days: self.days.update(day, Some(record)) }
    }
}

impl View for Timecode {
    type V = TimecodeView;

    open spec fn view(&self) -> TimecodeView {
        TimecodeView {
            name: self.timecode@,
            days: seq![
                day_view(self.monday),
                day_view(self.tuesday),
                day_view(self.wednesday),
                day_view(self.thursday),
                day_view(self.friday),
                day_view(self.saturday),
                day_view(self.sunday),
            ],
        }
    }
}

impl Timecode {
    /// The slot of weekday `day` (0 is Monday), absent where `day` is no
    /// weekday.
    pub open spec fn slot(&self, day: int) -> Option<Day> {
        if day == 0 {
            self.monday
        } else if day == 1 {
            self.tuesday
        } else if day == 2 {
            self.wednesday
        } else if day == 3 {
            self.thursday
        } else if day == 4 {
            self.friday
        } else if day == 5 {
            self.saturday
        } else if day == 6 {
            self.sunday
        } else {
            None
        }
    }

    /// This entry with `record` in the slot of weekday `day`.
    pub open spec fn with_slot(&self, day: int, record: Day) -> Timecode {
        if day == 0 {
            Timecode { monday: Some(record), ..*self }
        } else if day == 1 {
            Timecode { tuesday: Some(record), ..*self }
        } else if day == 2 {
            Timecode { wednesday: Some(record), ..*self }
        } else if day == 3 {
            Timecode { thursday: Some(record), ..*self }
        } else if day == 4 {
            Timecode { friday: Some(record), ..*self }
        } else if day == 5 {
            Timecode { saturday: Some(record), ..*self }
        } else if day == 6 {
            Timecode { sunday: Some(record), ..*self }
        } else {
            *self
        }
    }

    /// The slots and the model agree on every weekday.
    pub proof fn lemma_slot_view(&self, day: int)
        ensures
            self@.day(day) == day_view(self.slot(day)),
            self@.days.len() == 7,
    {
    }

    /// Filling a slot replaces that weekday in the model and nothing else.
    pub proof fn lemma_with_slot_view(&self, day: int, record: Day)
        requires
            0 <= day < 7,
        ensures
            self.with_slot(day, record)@ == self@.with_day(day, record@),
    {
        assert(self.with_slot(day, record)@.days =~= self@.days.update(day, Some(record@)));
    }

    /// The record of weekday `day` (0 is Monday) for writing, absent where
    /// nothing was booked or `day` is no weekday.
    pub fn get_mut(&mut self, day: u8) -> (found: Option<&mut Day>)
        ensures
            match found {
                Some(record) => {
                    &&& old(self).slot(day as int) == Some(*record)
                    &&& *final(self) == old(self).with_slot(day as int, *final(record))
                    &&& old(self)@.day(day as int) == Some(record@)
                    &&& final(self)@ == old(self)@.with_day(day as int, final(record)@)
                },
                None => old(self).slot(day as int) is None && *final(self) == *old(self),
            },
    {
        proof {
            let entry = *self;
            entry.lemma_slot_view(day as int);
            assert forall|record: Day| day < 7 implies #[trigger] entry.with_slot(
                day as int,
                record,
            )@ == entry@.with_day(day as int, record@) by {
                entry.lemma_with_slot_view(day as int, record);
            }
        }
        match day {
            0 => self.monday.as_mut(),
            1 => self.tuesday.as_mut(),
            2 => self.wednesday.as_mut(),
            3 => self.thursday.as_mut(),
            4 => self.friday.as_mut(),
            5 => self.saturday.as_mut(),
            6 => self.sunday.as_mut(),
            _ => None,
        }
    }

    /// The record of weekday `day` (0 is Monday), absent where nothing was
    /// booked or `day` is no weekday.
    pub fn get(&self, day: u8) -> (found: Option<&Day>)
        ensures
            match found {
                Some(record) => self.slot(day as int) == Some(*record) && self@.day(day as int)
                    == Some(record@),
                None => self.slot(day as int) is None && self@.day(day as int) is None,
            },
    {
        proof {
            self.lemma_slot_view(day as int);
        }
        match day {
            0 => self.monday.as_ref(),
            1 => self.tuesday.as_ref(),
            2 => self.wednesday.as_ref(),
            3 => self.thursday.as_ref(),
            4 => self.friday.as_ref(),
            5 => self.saturday.as_ref(),
            6 => self.sunday.as_ref(),
            _ => None,
        }
    }

    /// Books `day` on weekday `day_idx` (0 is Monday), over what was booked
    /// there.
    pub fn set_day(&mut self, day_idx: u8, day: Day)
        requires
            day_idx < 7,
        ensures
            *final(self) == old(self).with_slot(day_idx as int, day),
            final(self)@ == old(self)@.with_day(day_idx as int, day@),
    {
        proof {
            old(self).lemma_with_slot_view(day_idx as int, day);
        }
        let day = Some(day);
        match day_idx {
            0 => self.monday = day,
            1 => self.tuesday = day,
            2 => self.wednesday = day,
            3 => self.thursday = day,
            4 => self.friday = day,
            5 => self.saturday = day,
            _ => self.sunday = day,
        }
    }

    /// Whether no weekday has a record.
    pub fn is_empty(&self) -> (empty: bool)
        ensures
            empty == self@.is_empty(),
    {
        let empty = !(self.monday.is_some() || self.tuesday.is_some() || self.wednesday.is_some()
            || self.thursday.is_some() || self.friday.is_some() || self.saturday.is_some()
            || self.sunday.is_some());
        proof {
            if empty {
                assert(self@.is_empty());
            } else {
                assert(exists|i: int| 0 <= i < 7 && self@.days[i] is Some) by {
                    if self.monday is Some {
                        assert(self@.days[0] is Some);
                    } else if self.tuesday is Some {
                        assert(self@.days[1] is Some);
                    } else if self.wednesday is Some {
                        assert(self@.days[2] is Some);
                    } else if self.thursday is Some {
                        assert(self@.days[3] is Some);
                    } else if self.friday is Some {
                        assert(self@.days[4] is Some);
                    } else if self.saturday is Some {
                        assert(self@.days[5] is Some);
                    } else {
                        assert(self@.days[6] is Some);
                    }
                }
            }
        }
        empty
    }

    /// The entry called `tc_string` with no day booked.
    pub fn from_string(tc_string: String) -> (entry: Timecode)
        ensures
            entry.timecode == tc_string,
            entry@ == TimecodeView::empty(tc_string@),
    {
        let entry = Timecode {
            timecode: tc_string,
            monday: None,
            tuesday: None,
            wednesday: None,
            thursday: None,
            friday: None,
            saturday: None,
            sunday: None,
        };
        assert(entry@.days =~= TimecodeView::empty(tc_string@).days);
        entry
    }
}

/// The names that `names` holds.
pub open spec fn name_views(names: Seq<String>) -> Seq<Seq<char>> {
    names.map_values(|name: String| name@)
}

/// Mathematical model of a [`Week`]: its entries in insertion order.
pub type WeekView = Seq<TimecodeView>;

/// Some entry of `week` is called `name`.
pub open spec fn has_name(week: WeekView, name: Seq<char>) -> bool {
    exists|i: int| 0 <= i < week.len() && #[trigger] week[i].name == name
}

/// No two entries of `week` share a name.
pub open spec fn names_unique(week: WeekView) -> bool {
    forall|i: int, j: int|
        0 <= i < j < week.len() ==> #[trigger] week[i].name != #[trigger] week[j].name
}

/// A week is valid when no two of its entries share a name and each has its
/// seven day slots.
pub open spec fn week_wf(week: WeekView) -> bool {
    &&& names_unique(week)
    &&& forall|i: int| 0 <= i < week.len() ==> (#[trigger] week[i]).days.len() == 7
}

/// `week` after each entry of `new`, in turn, is appended unless an entry
/// of its name is already there.
pub open spec fn add_timecodes_spec(week: WeekView, new: Seq<TimecodeView>) -> WeekView
    decreases new.len(),
{
    if new.len() == 0 {
        week
    } else if has_name(week, new.first().name) {
        add_timecodes_spec(week, new.drop_first())
    } else {
        add_timecodes_spec(week.push(new.first()), new.drop_first())
    }
}

/// An entry survives pruning when it holds a record or its name is in `keep`.
pub open spec fn survives(entry: TimecodeView, keep: Seq<Seq<char>>) -> bool {
    !entry.is_empty() || keep.contains(entry.name)
}

/// `week` without the empty entries whose name is not in `keep`.
pub open spec fn remove_empty_spec(week: WeekView, keep: Seq<Seq<char>>) -> WeekView {
    week.filter(|entry: TimecodeView| survives(entry, keep))
}

/// `week` without the entries called `name`.
pub open spec fn without_name(week: WeekView, name: Seq<char>) -> WeekView {
    week.filter(|entry: TimecodeView| entry.name != name)
}

/// The models of `entries`, in order.
pub open spec fn entry_views(entries: Seq<Timecode>) -> WeekView {
    entries.map_values(|entry: Timecode| entry@)
}

/// The timecodes that are active in one week, in insertion order.
#[derive(Clone, Debug, PartialEq)]
pub struct Week(pub Vec<Timecode>);

impl View for Week {
    type V = WeekView;

    open spec fn view(&self) -> WeekView {
        entry_views(self.0@)
    }
}

impl Week {
    /// The entry at index `timecode`, absent beyond the last one.
    pub fn get(&self, timecode: usize) -> (found: Option<&Timecode>)
        ensures
            match found {
                Some(entry) => {
                    &&& timecode < self.0.len()
                    &&& *entry == self.0[timecode as int]
                    &&& entry@ == self@[timecode as int]
                },
                None => timecode >= self.0.len(),
            },
    {
        if timecode < self.0.len() {
            Some(&self.0[timecode])
        } else {
            None
        }
    }

    /// The entry at index `timecode` for writing, absent beyond the last one.
    pub fn get_mut(&mut self, timecode: usize) -> (found: Option<&mut Timecode>)
        ensures
            match found {
                Some(entry) => {
                    &&& timecode < old(self).0.len()
                    &&& *entry == old(self).0[timecode as int]
                    &&& final(self).0@ == old(self).0@.update(timecode as int, *final(entry))
                    &&& final(self)@ == old(self)@.update(timecode as int, final(entry)@)
                },
                None => timecode >= old(self).0.len() && *final(self) == *old(self),
            },
    {
        if timecode < self.0.len() {
            Some(&mut self.0[timecode])
        } else {
            None
        }
    }

    /// Whether an entry is called `name`.
    pub fn contains(&self, name: &String) -> (found: bool)
        ensures
            found == has_name(self@, name@),
    {
        let mut i: usize = 0;
        while i < self.0.len()
            invariant
                i <= self.0.len(),
                forall|j: int| 0 <= j < i ==> self@[j].name != name@,
            decreases self.0.len() - i,
        {
            if self.0[i].timecode == *name {
                assert(self@[i as int].name == name@);
                return true;
            }
            i += 1;
        }
        false
    }

    /// Appends each of `timecodes`, in turn, unless the week has an entry of
    /// its name already.
    pub fn add_timecodes(&mut self, timecodes: Vec<Timecode>)
        ensures
            final(self)@ == add_timecodes_spec(old(self)@, entry_views(timecodes@)),
            names_unique(old(self)@) ==> names_unique(final(self)@),
    {
        proof {
            if names_unique(self@) {
                lemma_add_timecodes_keeps_unique(self@, entry_views(timecodes@));
            }
        }
        let ghost all = entry_views(timecodes@);
        let ghost given = timecodes@;
        assert(all.skip(0) =~= all);
        for new_tc in it: timecodes
            invariant
                it.seq() == given,
                all == entry_views(given),
                add_timecodes_spec(self@, all.skip(it.index() as int)) == add_timecodes_spec(
                    old(self)@,
                    all,
                ),
        {
            proof {
                let rest = all.skip(it.index() as int);
                assert(rest.first() == new_tc@);
                assert(rest.drop_first() =~= all.skip(it.index() + 1));
            }
            let ghost before = self@;
            if !self.contains(&new_tc.timecode) {
                self.0.push(new_tc);
                assert(self@ =~= before.push(new_tc@));
            }
        }
    }

    /// Removes every empty entry whose name is not in `keep`.
    pub fn remove_empty(&mut self, keep: &Vec<String>)
        ensures
            final(self)@ == remove_empty_spec(old(self)@, name_views(keep@)),
            names_unique(old(self)@) ==> names_unique(final(self)@),
    {
        proof {
            if names_unique(self@) {
                lemma_remove_empty_keeps_unique(self@, name_views(keep@));
            }
        }
        let ghost names = name_views(keep@);
        let ghost pred = |entry: TimecodeView| survives(entry, names);
        let ghost before = self@;
        let mut kept: Vec<Timecode> = Vec::new();
        let mut all: Vec<Timecode> = Vec::new();
        std::mem::swap(&mut self.0, &mut all);
        for entry in it: all
            invariant
                entry_views(it.seq()) == before,
                names == name_views(keep@),
                pred == |entry: TimecodeView| survives(entry, names),
                entry_views(kept@) == before.take(it.index() as int).filter(
                    pred,
                ),
        {
            proof {
                let seen = before.take(it.index() as int);
                assert(before.take(it.index() + 1) =~= seen.push(entry@));
                seen.lemma_filter_push(entry@, pred);
            }
            let ghost so_far = entry_views(kept@);
            if !entry.is_empty() || name_in(keep, &entry.timecode) {
                kept.push(entry);
                assert(entry_views(kept@) =~= so_far.push(entry@));
            }
        }
        assert(before.take(before.len() as int) =~= before);
        self.0 = kept;
    }

    /// Removes the entries called `name`.
    pub fn remove_timecode(&mut self, name: &String)
        ensures
            final(self)@ == without_name(old(self)@, name@),
            names_unique(old(self)@) ==> names_unique(final(self)@),
            !has_name(final(self)@, name@),
    {
        proof {
            let pred = |entry: TimecodeView| entry.name != name@;
            if names_unique(self@) {
                lemma_filter_keeps_unique(self@, pred);
            }
            assert forall|i: int| 0 <= i < without_name(self@, name@).len() implies (
            #[trigger] without_name(self@, name@)[i]).name != name@ by {
                self@.lemma_filter_pred(pred, i);
            }
        }
        let ghost pred = |entry: TimecodeView| entry.name != name@;
        let ghost before = self@;
        let mut kept: Vec<Timecode> = Vec::new();
        let mut all: Vec<Timecode> = Vec::new();
        std::mem::swap(&mut self.0, &mut all);
        for entry in it: all
            invariant
                entry_views(it.seq()) == before,
                pred == |entry: TimecodeView| entry.name != name@,
                entry_views(kept@) == before.take(it.index() as int).filter(
                    pred,
                ),
        {
            proof {
                let seen = before.take(it.index() as int);
                assert(before.take(it.index() + 1) =~= seen.push(entry@));
                seen.lemma_filter_push(entry@, pred);
            }
            let ghost so_far = entry_views(kept@);
            if entry.timecode != *name {
                kept.push(entry);
                assert(entry_views(kept@) =~= so_far.push(entry@));
            }
        }
        assert(before.take(before.len() as int) =~= before);
        self.0 = kept;
    }
}

/// Whether `name` occurs in `names`.
pub fn name_in(names: &Vec<String>, name: &String) -> (found: bool)
    ensures
        found == name_views(names@).contains(name@),
{
    let ghost views = name_views(names@);
    let mut i: usize = 0;
    while i < names.len()
        invariant
            i <= names.len(),
            views == name_views(names@),
            forall|j: int| 0 <= j < i ==> views[j] != name@,
        decreases names.len() - i,
    {
        if names[i] == *name {
            assert(views[i as int] == name@);
            return true;
        }
        i += 1;
    }
    false
}

/// Mathematical model of a [`Year`]: its materialised weeks by number.
pub type YearView = Map<u8, WeekView>;

/// The weeks of one year that were visited so far.
#[derive(Clone, Debug, PartialEq)]
pub struct Year(pub HashMap<u8, Week>);

impl View for Year {
    type V = YearView;

    open spec fn view(&self) -> YearView {
        self.0@.map_values(|week: Week| week@)
    }
}

impl Year {
    /// The week numbered `week`, if it was materialised.
    pub fn get(&self, week: u8) -> (found: Option<&Week>)
        ensures
            match found {
                Some(content) => {
                    &&& self.0@.contains_key(week)
                    &&& *content == self.0@[week]
                    &&& self@.contains_key(week)
                    &&& content@ == self@[week]
                },
                None => !self.0@.contains_key(week) && !self@.contains_key(week),
            },
    {
        self.0.get(&week)
    }

    /// The week numbered `week` for writing, if it was materialised.
    pub fn get_mut(&mut self, week: u8) -> (found: Option<&mut Week>)
        ensures
            match found {
                Some(content) => {
                    &&& old(self).0@.contains_key(week)
                    &&& *content == old(self).0@[week]
                    &&& final(self).0@ == old(self).0@.insert(week, *final(content))
                    &&& final(self)@ == old(self)@.insert(week, final(content)@)
                },
                None => {
                    &&& !old(self).0@.contains_key(week)
                    &&& final(self).0@ == old(self).0@
                    &&& final(self)@ == old(self)@
                },
            },
    {
        match self.0.entry(week) {
            Entry::Occupied(slot) => Some(slot.into_mut()),
            Entry::Vacant(_) => None,
        }
    }
}

/// Mathematical model of a [`TimekeeperData`]: its years by number.
pub type DataView = Map<usize, YearView>;

/// The week `week` of `year`, if it was materialised.
pub open spec fn week_at(store: DataView, year: usize, week: u8) -> Option<WeekView> {
    if store.contains_key(year) && store[year].contains_key(week) {
        Some(store[year][week])
    } else {
        None
    }
}

/// A store is valid when each of its weeks is.
pub open spec fn store_wf(store: DataView) -> bool {
    forall|year: usize, week: u8|
        store.contains_key(year) && #[trigger] store[year].contains_key(week) ==> week_wf(
            store[year][week],
        )
}

/// The entries of week `week` of `year`, none where the week was not
/// materialised.
pub open spec fn entries_at(store: DataView, year: usize, week: u8) -> WeekView {
    match week_at(store, year, week) {
        Some(content) => content,
        None => Seq::empty(),
    }
}

/// `store` with `content` as week `week` of `year`; every other week is as
/// it was.
pub open spec fn with_week(store: DataView, year: usize, week: u8, content: WeekView) -> DataView {
    let weeks = if store.contains_key(year) {
        store[year]
    } else {
        Map::empty()
    };
    store.insert(year, weeks.insert(week, content))
}

/// The empty entries called by `names`, in the order of `names`.
pub open spec fn empty_entries(names: Seq<Seq<char>>) -> Seq<TimecodeView> {
    names.map_values(|name: Seq<char>| TimecodeView::empty(name))
}

/// A week after a visit: pruned of the empty entries that are not starred,
/// then completed with the starred names it lacks.
pub open spec fn visit_week(content: WeekView, starred: Seq<Seq<char>>) -> WeekView {
    add_timecodes_spec(remove_empty_spec(content, starred), empty_entries(starred))
}

/// `store` after week `week` of `year` was visited with the names in
/// `starred`. A week that was not there is made from nothing.
pub open spec fn load_week_spec(
    store: DataView,
    week: u8,
    year: usize,
    starred: Seq<Seq<char>>,
) -> DataView {
    with_week(store, year, week, visit_week(entries_at(store, year, week), starred))
}

/// The names of the entries of `week`, in order.
pub open spec fn week_names(week: WeekView) -> Seq<Seq<char>> {
    week.map_values(|entry: TimecodeView| entry.name)
}

/// The timecode names of a week, none where the week was not materialised.
pub open spec fn timecodes_spec(store: DataView, year: usize, week: u8) -> Seq<Seq<char>> {
    match week_at(store, year, week) {
        Some(content) => week_names(content),
        None => Seq::empty(),
    }
}

/// Whether `name` can be added to the week: the week is there and has no
/// entry of that name.
pub open spec fn can_add_timecode(store: DataView, week: u8, year: usize, name: Seq<char>) -> bool {
    match week_at(store, year, week) {
        Some(content) => !has_name(content, name),
        None => false,
    }
}

/// `store` after an empty entry called `name` was appended to the week,
/// where that can be done.
pub open spec fn add_timecode_spec(
    store: DataView,
    week: u8,
    year: usize,
    name: Seq<char>,
) -> DataView {
    if can_add_timecode(store, week, year, name) {
        with_week(
            store,
            year,
            week,
            entries_at(store, year, week).push(TimecodeView::empty(name)),
        )
    } else {
        store
    }
}

/// `store` without the entries of the week that are called `name`.
pub open spec fn remove_timecode_spec(
    store: DataView,
    week: u8,
    year: usize,
    name: Seq<char>,
) -> DataView {
    match week_at(store, year, week) {
        Some(content) => with_week(store, year, week, without_name(content, name)),
        None => store,
    }
}

/// The record at a coordinate, absent where any part of the coordinate
/// addresses nothing.
pub open spec fn day_at(
    store: DataView,
    year: usize,
    week: u8,
    timecode: int,
    day: int,
) -> Option<DayView> {
    match week_at(store, year, week) {
        Some(content) => if 0 <= timecode < content.len() {
            content[timecode].day(day)
        } else {
            None
        },
        None => None,
    }
}

/// Whether a coordinate addresses a weekday slot of an entry that exists.
pub open spec fn slot_exists(
    store: DataView,
    year: usize,
    week: u8,
    timecode: int,
    day: int,
) -> bool {
    match week_at(store, year, week) {
        Some(content) => 0 <= timecode < content.len() && 0 <= day < 7,
        None => false,
    }
}

/// The entry at index `timecode` of a week, absent where the week or the
/// index addresses nothing.
pub open spec fn entry_at(store: DataView, year: usize, week: u8, timecode: int) -> Option<
    TimecodeView,
> {
    match week_at(store, year, week) {
        Some(content) => if 0 <= timecode < content.len() {
            Some(content[timecode])
        } else {
            None
        },
        None => None,
    }
}

/// `store` with `entry` at an index that addresses an entry.
pub open spec fn with_entry_at(
    store: DataView,
    year: usize,
    week: u8,
    timecode: int,
    entry: TimecodeView,
) -> DataView {
    with_week(store, year, week, week_at(store, year, week).unwrap().update(timecode, entry))
}

/// `store` with `record` at a coordinate whose slot exists.
pub open spec fn with_day_at(
    store: DataView,
    year: usize,
    week: u8,
    timecode: int,
    day: int,
    record: DayView,
) -> DataView {
    with_entry_at(
        store,
        year,
        week,
        timecode,
        entry_at(store, year, week, timecode).unwrap().with_day(day, record),
    )
}

/// Putting an entry back as it is changes nothing.
pub proof fn lemma_with_entry_same(store: DataView, year: usize, week: u8, timecode: int)
    ensures
        entry_at(store, year, week, timecode) matches Some(entry) ==> with_entry_at(
            store,
            year,
            week,
            timecode,
            entry,
        ) == store,
{
    if let Some(entry) = entry_at(store, year, week, timecode) {
        let content = week_at(store, year, week).unwrap();
        assert(content.update(timecode, entry) =~= content);
        lemma_with_week_same(store, year, week);
    }
}

/// Putting a record back as it is changes nothing.
pub proof fn lemma_with_day_same(store: DataView, year: usize, week: u8, timecode: int, day: int)
    ensures
        day_at(store, year, week, timecode, day) matches Some(record) ==> with_day_at(
            store,
            year,
            week,
            timecode,
            day,
            record,
        ) == store,
{
    if let Some(record) = day_at(store, year, week, timecode, day) {
        let entry = entry_at(store, year, week, timecode).unwrap();
        assert(entry.days.update(day, Some(record)) =~= entry.days);
        assert(entry.with_day(day, record) == entry);
        lemma_with_entry_same(store, year, week, timecode);
    }
}

/// Putting a week back as it is changes nothing.
pub proof fn lemma_with_week_same(store: DataView, year: usize, week: u8)
    ensures
        week_at(store, year, week) matches Some(content) ==> with_week(store, year, week, content)
            == store,
{
    if let Some(content) = week_at(store, year, week) {
        assert(store[year].insert(week, content) =~= store[year]);
        assert(with_week(store, year, week, content) =~= store);
    }
}

/// One empty entry per name, in order.
pub fn entries_for(names: &Vec<String>) -> (entries: Vec<Timecode>)
    ensures
        entry_views(entries@) == empty_entries(name_views(names@)),
{
    let mut entries: Vec<Timecode> = Vec::new();
    let mut i: usize = 0;
    while i < names.len()
        invariant
            i <= names.len(),
            entry_views(entries@) == empty_entries(
                name_views(names@.take(i as int)),
            ),
        decreases names.len() - i,
    {
        let ghost before = entry_views(entries@);
        let entry = Timecode::from_string(names[i].clone());
        entries.push(entry);
        proof {
            assert(names@.take(i + 1) =~= names@.take(i as int).push(names@[i as int]));
            assert(entry_views(entries@) =~= before.push(entry@));
            assert(empty_entries(name_views(names@.take(i + 1))) =~= before.push(entry@));
        }
        i += 1;
    }
    assert(names@.take(names.len() as int) =~= names@);
    entries
}

/// The root of what is persisted: every year that has a visited week.
#[derive(Clone, Debug, PartialEq)]
pub struct TimekeeperData(pub HashMap<usize, Year>);

impl View for TimekeeperData {
    type V = DataView;

    open spec fn view(&self) -> DataView {
        self.0@.map_values(|year: Year| year@)
    }
}

impl TimekeeperData {
    /// The store with no year in it.
    pub fn new() -> (store: TimekeeperData)
        ensures
            store@ == Map::<usize, YearView>::empty(),
            store_wf(store@),
    {
        let store = TimekeeperData(HashMap::new());
        assert(store@ =~= Map::<usize, YearView>::empty());
        store
    }

    /// The weeks of `year`, if any of them was materialised.
    pub fn get(&self, year: usize) -> (found: Option<&Year>)
        ensures
            match found {
                Some(weeks) => {
                    &&& self.0@.contains_key(year)
                    &&& *weeks == self.0@[year]
                    &&& self@.contains_key(year)
                    &&& weeks@ == self@[year]
                },
                None => !self.0@.contains_key(year) && !self@.contains_key(year),
            },
    {
        self.0.get(&year)
    }

    /// The weeks of `year` for writing, if any of them was materialised.
    pub fn get_mut(&mut self, year: usize) -> (found: Option<&mut Year>)
        ensures
            match found {
                Some(weeks) => {
                    &&& old(self).0@.contains_key(year)
                    &&& *weeks == old(self).0@[year]
                    &&& final(self).0@ == old(self).0@.insert(year, *final(weeks))
                    &&& final(self)@ == old(self)@.insert(year, final(weeks)@)
                },
                None => {
                    &&& !old(self).0@.contains_key(year)
                    &&& final(self).0@ == old(self).0@
                    &&& final(self)@ == old(self)@
                },
            },
    {
        match self.0.entry(year) {
            Entry::Occupied(slot) => Some(slot.into_mut()),
            Entry::Vacant(_) => None,
        }
    }

    /// The week `week` of `year`, if it was materialised.
    pub fn get_week(&self, year: usize, week: u8) -> (found: Option<&Week>)
        ensures
            match found {
                Some(content) => week_at(self@, year, week) == Some(content@),
                None => week_at(self@, year, week) is None,
            },
    {
        self.get(year)?.get(week)
    }

    /// The timecode names of week `week` of `year`, in order; none where
    /// the week was not materialised.
    pub fn get_timecodes(&self, year: usize, week: u8) -> (names: Vec<String>)
        ensures
            name_views(names@) == timecodes_spec(self@, year, week),
    {
        let mut names: Vec<String> = Vec::new();
        match self.get_week(year, week) {
            Some(content) => {
                let mut i: usize = 0;
                while i < content.0.len()
                    invariant
                        i <= content.0.len(),
                        name_views(names@) == week_names(content@.take(i as int)),
                    decreases content.0.len() - i,
                {
                    let ghost before = name_views(names@);
                    names.push(content.0[i].timecode.clone());
                    proof {
                        assert(name_views(names@) =~= before.push(content@[i as int].name));
                        assert(content@.take(i + 1) =~= content@.take(i as int).push(
                            content@[i as int],
                        ));
                        assert(week_names(content@.take(i + 1)) =~= before.push(
                            content@[i as int].name,
                        ));
                    }
                    i += 1;
                }
                assert(content@.take(content.0.len() as int) =~= content@);
            },
            None => {
                assert(name_views(names@) =~= Seq::<Seq<char>>::empty());
            },
        }
        names
    }

    /// The week `week` of `year` for writing, if it was materialised.
    pub fn get_week_mut(&mut self, year: usize, week: u8) -> (found: Option<&mut Week>)
        ensures
            match found {
                Some(content) => {
                    &&& week_at(old(self)@, year, week) == Some(content@)
                    &&& final(self)@ == with_week(old(self)@, year, week, final(content)@)
                },
                None => week_at(old(self)@, year, week) is None && final(self)@ == old(self)@,
            },
    {
        match self.get_mut(year) {
            Some(weeks) => weeks.get_mut(week),
            None => None,
        }
    }

    /// The record at a coordinate, absent where any part of the coordinate
    /// addresses nothing.
    pub fn get_day(&self, year: usize, week: u8, timecode: usize, day: u8) -> (found: Option<&Day>)
        ensures
            match found {
                Some(record) => day_at(self@, year, week, timecode as int, day as int) == Some(
                    record@,
                ),
                None => day_at(self@, year, week, timecode as int, day as int) is None,
            },
    {
        let entry = self.get_week(year, week)?.get(timecode)?;
        proof {
            entry.lemma_slot_view(day as int);
        }
        entry.get(day)
    }

    /// The record at a coordinate for writing, absent where any part of the
    /// coordinate addresses nothing.
    pub fn get_day_mut(&mut self, year: usize, week: u8, timecode: usize, day: u8) -> (found:
        Option<&mut Day>)
        ensures
            match found {
                Some(record) => {
                    &&& day_at(old(self)@, year, week, timecode as int, day as int) == Some(
                        record@,
                    )
                    &&& final(self)@ == with_day_at(
                        old(self)@,
                        year,
                        week,
                        timecode as int,
                        day as int,
                        final(record)@,
                    )
                },
                None => {
                    &&& day_at(old(self)@, year, week, timecode as int, day as int) is None
                    &&& final(self)@ == old(self)@
                },
            },
    {
        proof {
            lemma_with_entry_same(self@, year, week, timecode as int);
        }
        self.get_timecode_mut(year, week, timecode)?.get_mut(day)
    }

    /// The entry at index `timecode` of a week for writing, absent where
    /// the week or the index addresses nothing.
    pub fn get_timecode_mut(&mut self, year: usize, week: u8, timecode: usize) -> (found: Option<
        &mut Timecode,
    >)
        ensures
            match found {
                Some(entry) => {
                    &&& entry_at(old(self)@, year, week, timecode as int) == Some(entry@)
                    &&& final(self)@ == with_entry_at(
                        old(self)@,
                        year,
                        week,
                        timecode as int,
                        final(entry)@,
                    )
                },
                None => {
                    &&& entry_at(old(self)@, year, week, timecode as int) is None
                    &&& final(self)@ == old(self)@
                },
            },
    {
        proof {
            lemma_with_week_same(self@, year, week);
        }
        self.get_week_mut(year, week)?.get_mut(timecode)
    }

    /// Materialises week `week` of `year` and hands it out: an existing week
    /// loses its empty entries that are not starred, and every starred name
    /// that the week lacks is appended, empty, in the order of
    /// `starred_timecodes`.
    pub fn load_week(&mut self, week: u8, year: usize, starred_timecodes: &Vec<String>) -> (content:
        &Week)
        ensures
            final(self)@ == load_week_spec(old(self)@, week, year, name_views(starred_timecodes@)),
            week_at(final(self)@, year, week) == Some(content@),
            store_wf(old(self)@) ==> store_wf(final(self)@),
            forall|j: int|
                0 <= j < name_views(starred_timecodes@).len() ==> has_name(
                    entries_at(final(self)@, year, week),
                    #[trigger] name_views(starred_timecodes@)[j],
                ),
            forall|i: int|
                0 <= i < entries_at(old(self)@, year, week).len() && (#[trigger] entries_at(
                    old(self)@,
                    year,
                    week,
                )[i]).is_empty() ==> (entries_at(final(self)@, year, week).contains(
                    entries_at(old(self)@, year, week)[i],
                ) <==> name_views(starred_timecodes@).contains(
                    entries_at(old(self)@, year, week)[i].name,
                )),
    {
        proof {
            let names = name_views(starred_timecodes@);
            let found = entries_at(self@, year, week);
            law_visit_week_has_starred(found, names);
            assert forall|i: int| 0 <= i < found.len() && (#[trigger] found[i]).is_empty() implies (
            visit_week(found, names).contains(found[i]) <==> names.contains(found[i].name)) by {
                law_visit_week_prunes_empty(found, names, i);
            }
            if store_wf(self@) {
                law_load_week_keeps_valid(self@, week, year, names);
            }
        }
        let ghost before = self@;
        let ghost starred = name_views(starred_timecodes@);
        let year_data = self.0.entry(year).or_insert(Year(HashMap::new()));
        let ghost weeks_before = year_data@;
        proof {
            if before.contains_key(year) {
                assert(weeks_before == before[year]);
            } else {
                assert(weeks_before =~= Map::<u8, WeekView>::empty());
            }
        }
        match year_data.get_mut(week) {
            Some(w) => {
                w.remove_empty(starred_timecodes);
                w.add_timecodes(entries_for(starred_timecodes));
            },
            None => {
                let mut w = Week(Vec::new());
                assert(w@ =~= Seq::<TimecodeView>::empty());
                assert(remove_empty_spec(w@, starred) =~= w@);
                w.add_timecodes(entries_for(starred_timecodes));
                year_data.0.insert(week, w);
                assert(year_data@ =~= weeks_before.insert(week, w@));
            },
        };
        let ghost weeks_after = year_data@;
        assert(self@ =~= before.insert(year, weeks_after));
        self.get_week(year, week).unwrap()
    }

    /// Appends an empty entry called `timecode` to week `week` of `year`.
    ///
    /// Nothing is added, and `false` comes back, where the week has an entry
    /// of that name already or was never materialised.
    pub fn add_timecode(&mut self, week: u8, year: usize, timecode: String) -> (added: bool)
        ensures
            added == can_add_timecode(old(self)@, week, year, timecode@),
            final(self)@ == add_timecode_spec(old(self)@, week, year, timecode@),
            store_wf(old(self)@) ==> store_wf(final(self)@),
    {
        proof {
            lemma_with_week_same(self@, year, week);
            if store_wf(self@) {
                law_add_timecode_keeps_valid(self@, week, year, timecode@);
            }
        }
        match self.get_week_mut(year, week) {
            Some(content) => {
                if content.contains(&timecode) {
                    false
                } else {
                    let ghost before = content@;
                    content.0.push(Timecode::from_string(timecode));
                    assert(content@ =~= before.push(TimecodeView::empty(timecode@)));
                    true
                }
            },
            None => false,
        }
    }

    /// Deletes the entry called `timecode` from week `week` of `year`;
    /// nothing happens where there is none.
    pub fn remove_timecode(&mut self, week: u8, year: usize, timecode: &String)
        ensures
            final(self)@ == remove_timecode_spec(old(self)@, week, year, timecode@),
            store_wf(old(self)@) ==> store_wf(final(self)@),
    {
        proof {
            if store_wf(self@) {
                law_remove_timecode_keeps_valid(self@, week, year, timecode@);
            }
        }
        match self.get_week_mut(year, week) {
            Some(content) => content.remove_timecode(timecode),
            None => {},
        }
    }
}

} // verus!
