//! What holds of every visit to a week of the store.
use crate::data::{
    add_timecode_spec, add_timecodes_spec, can_add_timecode, day_at, empty_entries, entries_at,
    entry_at,
    has_name,
    lemma_with_week_same, load_week_spec, names_unique, remove_empty_spec, remove_timecode_spec,
    slot_exists, store_wf, survives, timecodes_spec, visit_week, week_at, week_names, week_wf,
    with_day_at, with_week, DayView, DataView, TimecodeView, WeekView,
};
use vstd::prelude::*;

verus! {

/// A filter keeps a sequence whose every element passes.
pub proof fn lemma_filter_keeps_all<A>(s: Seq<A>, pred: spec_fn(A) -> bool)
    requires
        forall|i: int| 0 <= i < s.len() ==> pred(#[trigger] s[i]),
    ensures
        s.filter(pred) == s,
    decreases s.len(),
{
    reveal(Seq::filter);
    if s.len() > 0 {
        lemma_filter_keeps_all(s.drop_last(), pred);
        assert(s.drop_last().push(s.last()) =~= s);
    }
}

/// Pruning leaves no name twice in a week that had none twice.
pub proof fn lemma_remove_empty_keeps_unique(week: WeekView, keep: Seq<Seq<char>>)
    requires
        names_unique(week),
    ensures
        names_unique(remove_empty_spec(week, keep)),
{
    lemma_filter_keeps_unique(week, |entry: TimecodeView| survives(entry, keep));
}

/// Adding timecodes leaves the entries that were there in place, and adds
/// only entries that were offered.
pub proof fn lemma_add_timecodes_extends(week: WeekView, new: Seq<TimecodeView>)
    ensures
        week.len() <= add_timecodes_spec(week, new).len(),
        forall|i: int|
            0 <= i < week.len() ==> (#[trigger] add_timecodes_spec(week, new)[i]) == week[i],
        forall|i: int|
            week.len() <= i < add_timecodes_spec(week, new).len() ==> new.contains(
                #[trigger] add_timecodes_spec(week, new)[i],
            ),
    decreases new.len(),
{
    if new.len() > 0 {
        let head = new.first();
        let tail = new.drop_first();
        let start = if has_name(week, head.name) {
            week
        } else {
            week.push(head)
        };
        lemma_add_timecodes_extends(start, tail);
        let out = add_timecodes_spec(week, new);
        assert(out == add_timecodes_spec(start, tail));
        assert forall|i: int| 0 <= i < week.len() implies (#[trigger] out[i]) == week[i] by {
            assert(add_timecodes_spec(start, tail)[i] == start[i]);
        }
        assert forall|i: int| week.len() <= i < out.len() implies new.contains(
            #[trigger] out[i],
        ) by {
            if i < start.len() {
                assert(add_timecodes_spec(start, tail)[i] == start[i]);
                assert(out[i] == head);
                assert(new[0] == head);
            } else {
                assert(tail.contains(out[i]));
                let k = choose|k: int| 0 <= k < tail.len() && tail[k] == out[i];
                assert(new[k + 1] == out[i]);
            }
        }
    }
}

/// After timecodes were added, the week has an entry for each name that
/// was offered.
pub proof fn lemma_add_timecodes_has_all(week: WeekView, new: Seq<TimecodeView>)
    ensures
        forall|j: int|
            0 <= j < new.len() ==> has_name(add_timecodes_spec(week, new), #[trigger] new[j].name),
    decreases new.len(),
{
    if new.len() > 0 {
        let head = new.first();
        let tail = new.drop_first();
        let start = if has_name(week, head.name) {
            week
        } else {
            week.push(head)
        };
        let out = add_timecodes_spec(week, new);
        assert(out == add_timecodes_spec(start, tail));
        lemma_add_timecodes_has_all(start, tail);
        lemma_add_timecodes_extends(start, tail);
        assert(has_name(start, head.name)) by {
            if !has_name(week, head.name) {
                assert(start[week.len() as int].name == head.name);
            }
        }
        assert forall|j: int| 0 <= j < new.len() implies has_name(out, #[trigger] new[j].name) by {
            if j == 0 {
                let k = choose|k: int|
                    0 <= k < start.len() && #[trigger] start[k].name == head.name;
                assert(out[k].name == head.name);
            } else {
                assert(tail[j - 1] == new[j]);
            }
        }
    }
}

/// Adding timecodes whose names the week has already changes nothing.
pub proof fn lemma_add_timecodes_present(week: WeekView, new: Seq<TimecodeView>)
    requires
        forall|j: int| 0 <= j < new.len() ==> has_name(week, #[trigger] new[j].name),
    ensures
        add_timecodes_spec(week, new) == week,
    decreases new.len(),
{
    if new.len() > 0 {
        let tail = new.drop_first();
        assert(has_name(week, new[0].name));
        assert forall|j: int| 0 <= j < tail.len() implies has_name(
            week,
            #[trigger] tail[j].name,
        ) by {
            assert(tail[j] == new[j + 1]);
        }
        lemma_add_timecodes_present(week, tail);
    }
}

/// Adding timecodes leaves no name twice in a week that had none twice.
pub proof fn lemma_add_timecodes_keeps_unique(week: WeekView, new: Seq<TimecodeView>)
    requires
        names_unique(week),
    ensures
        names_unique(add_timecodes_spec(week, new)),
    decreases new.len(),
{
    if new.len() > 0 {
        let head = new.first();
        if has_name(week, head.name) {
            lemma_add_timecodes_keeps_unique(week, new.drop_first());
        } else {
            let start = week.push(head);
            assert forall|i: int, j: int| 0 <= i < j < start.len() implies #[trigger] start[i].name
                != #[trigger] start[j].name by {
                if j == week.len() {
                    assert(week[i].name != head.name);
                } else {
                    assert(week[i].name != week[j].name);
                }
            }
            lemma_add_timecodes_keeps_unique(start, new.drop_first());
        }
    }
}

/// Every entry of a visited week holds a record or is starred.
pub proof fn law_visit_week_survivors(content: WeekView, starred: Seq<Seq<char>>)
    ensures
        forall|i: int|
            0 <= i < visit_week(content, starred).len() ==> survives(
                #[trigger] visit_week(content, starred)[i],
                starred,
            ),
{
    let pred = |entry: TimecodeView| survives(entry, starred);
    let pruned = remove_empty_spec(content, starred);
    let offered = empty_entries(starred);
    let out = visit_week(content, starred);
    lemma_add_timecodes_extends(pruned, offered);
    assert forall|i: int| 0 <= i < out.len() implies survives(#[trigger] out[i], starred) by {
        if i < pruned.len() {
            content.lemma_filter_pred(pred, i);
        } else {
            assert(offered.contains(out[i]));
            let k = choose|k: int| 0 <= k < offered.len() && offered[k] == out[i];
            assert(starred[k] == out[i].name);
        }
    }
}

/// A week that is visited twice in a row with the same starred names is
/// the same after the second visit as after the first.
pub proof fn law_visit_week_idempotent(content: WeekView, starred: Seq<Seq<char>>)
    ensures
        visit_week(visit_week(content, starred), starred) == visit_week(content, starred),
{
    let pred = |entry: TimecodeView| survives(entry, starred);
    let offered = empty_entries(starred);
    let once = visit_week(content, starred);
    law_visit_week_survivors(content, starred);
    lemma_filter_keeps_all(once, pred);
    lemma_add_timecodes_has_all(remove_empty_spec(content, starred), offered);
    lemma_add_timecodes_present(once, offered);
}

/// Materialising a week twice in a row with the same starred names leaves
/// the store as the first time left it.
pub proof fn law_load_week_idempotent(
    store: DataView,
    week: u8,
    year: usize,
    starred: Seq<Seq<char>>,
)
    ensures
        load_week_spec(load_week_spec(store, week, year, starred), week, year, starred)
            == load_week_spec(store, week, year, starred),
{
    let once = load_week_spec(store, week, year, starred);
    let content = week_at(once, year, week).unwrap();
    let found = entries_at(store, year, week);
    assert(content == visit_week(found, starred));
    law_visit_week_idempotent(found, starred);
    lemma_with_week_same(once, year, week);
}

/// On a visit, an empty entry that is not starred leaves the week, and an
/// empty entry that is starred stays.
pub proof fn law_visit_week_prunes_empty(content: WeekView, starred: Seq<Seq<char>>, i: int)
    requires
        0 <= i < content.len(),
        content[i].is_empty(),
    ensures
        !starred.contains(content[i].name) ==> !visit_week(content, starred).contains(content[i]),
        starred.contains(content[i].name) ==> visit_week(content, starred).contains(content[i]),
{
    let pred = |entry: TimecodeView| survives(entry, starred);
    let pruned = remove_empty_spec(content, starred);
    let out = visit_week(content, starred);
    if starred.contains(content[i].name) {
        content.lemma_filter_contains(pred, i);
        let k = choose|k: int| 0 <= k < pruned.len() && pruned[k] == content[i];
        lemma_add_timecodes_extends(pruned, empty_entries(starred));
        assert(out[k] == content[i]);
    } else {
        law_visit_week_survivors(content, starred);
        if out.contains(content[i]) {
            let k = choose|k: int| 0 <= k < out.len() && out[k] == content[i];
            assert(survives(out[k], starred));
        }
    }
}

/// On a visit, an entry that holds a record stays, whether starred or not.
pub proof fn law_visit_week_keeps_records(content: WeekView, starred: Seq<Seq<char>>, i: int)
    requires
        0 <= i < content.len(),
        !content[i].is_empty(),
    ensures
        visit_week(content, starred).contains(content[i]),
{
    let pred = |entry: TimecodeView| survives(entry, starred);
    let pruned = remove_empty_spec(content, starred);
    content.lemma_filter_contains(pred, i);
    let k = choose|k: int| 0 <= k < pruned.len() && pruned[k] == content[i];
    lemma_add_timecodes_extends(pruned, empty_entries(starred));
    assert(visit_week(content, starred)[k] == content[i]);
}

/// A visited week has an entry for every starred name, and no name twice
/// if it had none twice before.
pub proof fn law_visit_week_has_starred(content: WeekView, starred: Seq<Seq<char>>)
    ensures
        forall|j: int|
            0 <= j < starred.len() ==> has_name(
                visit_week(content, starred),
                #[trigger] starred[j],
            ),
        names_unique(content) ==> names_unique(visit_week(content, starred)),
{
    let pruned = remove_empty_spec(content, starred);
    let offered = empty_entries(starred);
    lemma_add_timecodes_has_all(pruned, offered);
    assert forall|j: int| 0 <= j < starred.len() implies has_name(
        visit_week(content, starred),
        #[trigger] starred[j],
    ) by {
        assert(offered[j].name == starred[j]);
    }
    if names_unique(content) {
        lemma_remove_empty_keeps_unique(content, starred);
        lemma_add_timecodes_keeps_unique(pruned, offered);
    }
}

/// Materialising a week touches no other week.
pub proof fn law_load_week_confined(
    store: DataView,
    week: u8,
    year: usize,
    starred: Seq<Seq<char>>,
    other_year: usize,
    other_week: u8,
)
    requires
        other_year != year || other_week != week,
    ensures
        week_at(load_week_spec(store, week, year, starred), other_year, other_week) == week_at(
            store,
            other_year,
            other_week,
        ),
{
}

/// A week that is put into the store is found there, and every other week
/// is found as before.
pub proof fn lemma_with_week_reads(
    store: DataView,
    year: usize,
    week: u8,
    content: WeekView,
    other_year: usize,
    other_week: u8,
)
    ensures
        week_at(with_week(store, year, week, content), year, week) == Some(content),
        other_year != year || other_week != week ==> week_at(
            with_week(store, year, week, content),
            other_year,
            other_week,
        ) == week_at(store, other_year, other_week),
{
}

/// A valid store stays valid when a valid week is put into it.
pub proof fn lemma_with_week_keeps_valid(store: DataView, year: usize, week: u8, content: WeekView)
    requires
        store_wf(store),
        week_wf(content),
    ensures
        store_wf(with_week(store, year, week, content)),
{
    let after = with_week(store, year, week, content);
    assert forall|y: usize, w: u8|
        after.contains_key(y) && #[trigger] after[y].contains_key(w) implies week_wf(
        after[y][w],
    ) by {
        if y == year && w == week {
        } else {
            lemma_with_week_reads(store, year, week, content, y, w);
            assert(store[y].contains_key(w));
        }
    }
}

/// A valid week is valid after a visit.
pub proof fn lemma_visit_week_keeps_valid(content: WeekView, starred: Seq<Seq<char>>)
    requires
        week_wf(content),
    ensures
        week_wf(visit_week(content, starred)),
{
    let pred = |entry: TimecodeView| survives(entry, starred);
    let pruned = remove_empty_spec(content, starred);
    let offered = empty_entries(starred);
    let out = visit_week(content, starred);
    law_visit_week_has_starred(content, starred);
    lemma_add_timecodes_extends(pruned, offered);
    assert forall|i: int| 0 <= i < out.len() implies (#[trigger] out[i]).days.len() == 7 by {
        if i < pruned.len() {
            assert(pruned.contains(pruned[i]));
            content.lemma_filter_contains_rev(pred, pruned[i]);
            let k = choose|k: int| 0 <= k < content.len() && content[k] == pruned[i];
            assert(content[k].days.len() == 7);
        } else {
            assert(offered.contains(out[i]));
            let k = choose|k: int| 0 <= k < offered.len() && offered[k] == out[i];
        }
    }
}

/// Materialising a week leaves a valid store valid, and the week
/// materialised.
pub proof fn law_load_week_keeps_valid(
    store: DataView,
    week: u8,
    year: usize,
    starred: Seq<Seq<char>>,
)
    requires
        store_wf(store),
    ensures
        store_wf(load_week_spec(store, week, year, starred)),
        week_at(load_week_spec(store, week, year, starred), year, week) is Some,
{
    let found = entries_at(store, year, week);
    if week_at(store, year, week) is Some {
        assert(store[year].contains_key(week));
    }
    lemma_visit_week_keeps_valid(found, starred);
    lemma_with_week_keeps_valid(store, year, week, visit_week(found, starred));
}

/// A record that is put at a slot is found there. The store stays valid,
/// and no week gains, loses or renames an entry.
pub proof fn law_with_day_at_keeps_valid(
    store: DataView,
    year: usize,
    week: u8,
    timecode: int,
    day: int,
    record: DayView,
)
    requires
        store_wf(store),
        slot_exists(store, year, week, timecode, day),
    ensures
        store_wf(with_day_at(store, year, week, timecode, day, record)),
        day_at(
            with_day_at(store, year, week, timecode, day, record),
            year,
            week,
            timecode,
            day,
        ) == Some(record),
        forall|y: usize, w: u8|
            timecodes_spec(with_day_at(store, year, week, timecode, day, record), y, w)
                == #[trigger] timecodes_spec(store, y, w),
        forall|y: usize, w: u8|
            week_at(with_day_at(store, year, week, timecode, day, record), y, w) is Some
                <==> #[trigger] week_at(store, y, w) is Some,
{
    let content = week_at(store, year, week).unwrap();
    let entry = entry_at(store, year, week, timecode).unwrap();
    let changed = content.update(timecode, entry.with_day(day, record));
    let after = with_day_at(store, year, week, timecode, day, record);
    assert(store[year].contains_key(week));
    assert(week_wf(content));
    assert(entry.days.len() == 7);
    assert(week_wf(changed)) by {
        assert forall|i: int, j: int| 0 <= i < j < changed.len() implies #[trigger] changed[i].name
            != #[trigger] changed[j].name by {
            assert(content[i].name != content[j].name);
        }
        assert forall|i: int| 0 <= i < changed.len() implies (#[trigger] changed[i]).days.len()
            == 7 by {
            assert(content[i].days.len() == 7);
        }
    }
    lemma_with_week_keeps_valid(store, year, week, changed);
    assert(week_names(changed) =~= week_names(content));
    assert forall|y: usize, w: u8|
        timecodes_spec(after, y, w) == #[trigger] timecodes_spec(store, y, w) by {
        lemma_with_week_reads(store, year, week, changed, y, w);
    }
    assert forall|y: usize, w: u8|
        week_at(after, y, w) is Some <==> #[trigger] week_at(store, y, w) is Some by {
        lemma_with_week_reads(store, year, week, changed, y, w);
    }
}

/// A record that is put at a slot leaves every other slot as it was.
pub proof fn law_with_day_at_confined(
    store: DataView,
    year: usize,
    week: u8,
    timecode: int,
    day: int,
    record: DayView,
    other_year: usize,
    other_week: u8,
    other_timecode: int,
    other_day: int,
)
    requires
        store_wf(store),
        slot_exists(store, year, week, timecode, day),
        other_year != year || other_week != week || other_timecode != timecode || other_day != day,
    ensures
        day_at(
            with_day_at(store, year, week, timecode, day, record),
            other_year,
            other_week,
            other_timecode,
            other_day,
        ) == day_at(store, other_year, other_week, other_timecode, other_day),
{
    let content = week_at(store, year, week).unwrap();
    let entry = entry_at(store, year, week, timecode).unwrap();
    let changed = content.update(timecode, entry.with_day(day, record));
    assert(store[year].contains_key(week));
    assert(entry.days.len() == 7);
    lemma_with_week_reads(store, year, week, changed, other_year, other_week);
}

/// A timecode that is added is the last of its week. The store stays valid.
pub proof fn law_add_timecode_keeps_valid(store: DataView, week: u8, year: usize, name: Seq<char>)
    requires
        store_wf(store),
    ensures
        store_wf(add_timecode_spec(store, week, year, name)),
        timecodes_spec(add_timecode_spec(store, week, year, name), year, week) == (
        if can_add_timecode(store, week, year, name) {
            timecodes_spec(store, year, week).push(name)
        } else {
            timecodes_spec(store, year, week)
        }),
        week_at(add_timecode_spec(store, week, year, name), year, week) is Some <==> week_at(
            store,
            year,
            week,
        ) is Some,
{
    if can_add_timecode(store, week, year, name) {
        let content = week_at(store, year, week).unwrap();
        let grown = content.push(TimecodeView::empty(name));
        assert(store[year].contains_key(week));
        assert(week_wf(grown)) by {
            assert forall|i: int, j: int| 0 <= i < j < grown.len() implies #[trigger] grown[i].name
                != #[trigger] grown[j].name by {
                if j == content.len() {
                    assert(content[i].name != name);
                } else {
                    assert(content[i].name != content[j].name);
                }
            }
            assert forall|i: int| 0 <= i < grown.len() implies (#[trigger] grown[i]).days.len()
                == 7 by {
                if i < content.len() {
                    assert(content[i].days.len() == 7);
                }
            }
        }
        lemma_with_week_keeps_valid(store, year, week, grown);
        assert(week_names(grown) =~= week_names(content).push(name));
    }
}

/// Removing a timecode leaves no entry of that name in its week, and
/// changes nothing where there was none. The store stays valid.
pub proof fn law_remove_timecode_keeps_valid(
    store: DataView,
    week: u8,
    year: usize,
    name: Seq<char>,
)
    requires
        store_wf(store),
    ensures
        store_wf(remove_timecode_spec(store, week, year, name)),
        !timecodes_spec(remove_timecode_spec(store, week, year, name), year, week).contains(name),
        !has_name(entries_at(store, year, week), name) ==> remove_timecode_spec(
            store,
            week,
            year,
            name,
        ) == store,
{
    let after = remove_timecode_spec(store, week, year, name);
    if let Some(content) = week_at(store, year, week) {
        let pred = |entry: TimecodeView| entry.name != name;
        let kept = content.filter(pred);
        if !has_name(content, name) {
            lemma_filter_keeps_all(content, pred);
            lemma_with_week_same(store, year, week);
        }
        assert(store[year].contains_key(week));
        assert(week_wf(kept)) by {
            lemma_filter_keeps_unique(content, pred);
            assert forall|i: int| 0 <= i < kept.len() implies (#[trigger] kept[i]).days.len()
                == 7 by {
                assert(kept.contains(kept[i]));
                content.lemma_filter_contains_rev(pred, kept[i]);
                let k = choose|k: int| 0 <= k < content.len() && content[k] == kept[i];
                assert(content[k].days.len() == 7);
            }
        }
        lemma_with_week_keeps_valid(store, year, week, kept);
        let names = timecodes_spec(after, year, week);
        if names.contains(name) {
            let i = choose|i: int| 0 <= i < names.len() && names[i] == name;
            content.lemma_filter_pred(pred, i);
        }
    } else {
        let names = timecodes_spec(after, year, week);
        assert(names =~= Seq::<Seq<char>>::empty());
    }
}

/// A filter leaves no name twice in a week that had none twice.
pub proof fn lemma_filter_keeps_unique(week: WeekView, pred: spec_fn(TimecodeView) -> bool)
    requires
        names_unique(week),
    ensures
        names_unique(week.filter(pred)),
    decreases week.len(),
{
    reveal(Seq::filter);
    if week.len() > 0 {
        let rest = week.drop_last();
        let pruned = rest.filter(pred);
        assert(names_unique(rest)) by {
            assert forall|i: int, j: int| 0 <= i < j < rest.len() implies #[trigger] rest[i].name
                != #[trigger] rest[j].name by {
                assert(week[i].name != week[j].name);
            }
        }
        lemma_filter_keeps_unique(rest, pred);
        if pred(week.last()) {
            let out = pruned.push(week.last());
            assert forall|i: int, j: int| 0 <= i < j < out.len() implies #[trigger] out[i].name
                != #[trigger] out[j].name by {
                if j == pruned.len() {
                    assert(pruned.contains(pruned[i]));
                    rest.lemma_filter_contains_rev(pred, pruned[i]);
                    let k = choose|k: int| 0 <= k < rest.len() && rest[k] == pruned[i];
                    assert(week[k].name != week[week.len() - 1].name);
                } else {
                    assert(pruned[i].name != pruned[j].name);
                }
            }
        }
    }
}

} // verus!
