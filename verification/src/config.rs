//! What the user configured: the starred timecodes and the language.
use crate::data::{name_in, name_views};
use vstd::prelude::*;

verus! {

/// The languages the labels come in.
#[derive(Clone, Copy, Debug, PartialEq, Eq, Structural)]
pub enum Language {
    English,
    Norsk,
}

/// The configuration, kept apart from the booked hours.
#[derive(Clone, Debug, PartialEq)]
pub struct Config {
    /// The timecodes that every visited week must show, each once.
    pub starred_timecodes: Vec<String>,
    pub lang: Language,
}

/// Mathematical model of a [`Config`].
pub struct ConfigView {
    pub starred_timecodes: Seq<Seq<char>>,
    pub lang: Language,
}

/// Holds of every name but `timecode`.
pub open spec fn other_than(timecode: Seq<char>) -> spec_fn(Seq<char>) -> bool {
    |name: Seq<char>| name != timecode
}

impl ConfigView {
    /// The configuration after `timecode` was starred: it joins the end
    /// of the list unless it is in it.
    pub open spec fn add_timecode(self, timecode: Seq<char>) -> ConfigView {
        if self.starred_timecodes.contains(timecode) {
            self
        } else {
            ConfigView { starred_timecodes: self.starred_timecodes.push(timecode), lang: self.lang }
        }
    }

    /// The configuration after `timecode` lost its star.
    pub open spec fn remove_timecode(self, timecode: Seq<char>) -> ConfigView {
        ConfigView {
            starred_timecodes: self.starred_timecodes.filter(other_than(timecode)),
            lang: self.lang,
        }
    }

    /// No name is starred twice.
    pub open spec fn wf(self) -> bool {
        self.starred_timecodes.no_duplicates()
    }
}

impl View for Config {
    type V = ConfigView;

    open spec fn view(&self) -> ConfigView {
        ConfigView { starred_timecodes: name_views(self.starred_timecodes@), lang: self.lang }
    }
}

impl Config {
    /// The configuration to start with, given what the host found stored.
    ///
    /// Where nothing was found, the defaults are used: no starred timecode,
    /// English. The flag tells the host to store them.
    pub fn new(stored: Option<Config>) -> (loaded: (Config, bool))
        ensures
            match stored {
                Some(found) => loaded.0 == found && !loaded.1,
                None => {
                    &&& loaded.0@.starred_timecodes == Seq::<Seq<char>>::empty()
                    &&& loaded.0.lang == Language::English
                    &&& loaded.0@.wf()
                    &&& loaded.1
                },
            },
    {
        match stored {
            Some(found) => (found, false),
            None => {
                let fresh = Config { starred_timecodes: Vec::new(), lang: Language::English };
                assert(fresh@.starred_timecodes =~= Seq::<Seq<char>>::empty());
                (fresh, true)
            },
        }
    }

    /// Stars `timecode`. The result tells the host to store the
    /// configuration, which it must when the name joined the list.
    pub fn add_timecode(&mut self, timecode: String) -> (store: bool)
        ensures
            final(self)@ == old(self)@.add_timecode(timecode@),
            store == !old(self)@.starred_timecodes.contains(timecode@),
            old(self)@.wf() ==> final(self)@.wf(),
    {
        proof {
            if self@.wf() {
                law_stars_stay_unique(self@, timecode@);
            }
        }
        if !name_in(&self.starred_timecodes, &timecode) {
            let ghost before = self@.starred_timecodes;
            self.starred_timecodes.push(timecode);
            assert(self@.starred_timecodes =~= before.push(timecode@));
            true
        } else {
            false
        }
    }

    /// Takes the star from `timecode`. The result tells the host to store
    /// the configuration, which it must after every removal, also of a name
    /// that had no star: the result is always `true`.
    pub fn remove_timecode(&mut self, timecode: &String) -> (store: bool)
        ensures
            final(self)@ == old(self)@.remove_timecode(timecode@),
            store,
            old(self)@.wf() ==> final(self)@.wf(),
    {
        proof {
            if self@.wf() {
                law_stars_stay_unique(self@, timecode@);
            }
        }
        let ghost pred = other_than(timecode@);
        let ghost before = self@.starred_timecodes;
        let mut kept: Vec<String> = Vec::new();
        let mut all: Vec<String> = Vec::new();
        std::mem::swap(&mut self.starred_timecodes, &mut all);
        for name in it: all
            invariant
                name_views(it.seq()) == before,
                pred == other_than(timecode@),
                name_views(kept@) == before.take(it.index() as int).filter(pred),
        {
            proof {
                let seen = before.take(it.index() as int);
                assert(before.take(it.index() + 1) =~= seen.push(name@));
                seen.lemma_filter_push(name@, pred);
            }
            let ghost so_far = name_views(kept@);
            if name != *timecode {
                kept.push(name);
                assert(name_views(kept@) =~= so_far.push(name@));
            }
        }
        assert(before.take(before.len() as int) =~= before);
        self.starred_timecodes = kept;
        true
    }
}

/// Starring and unstarring leave no name starred twice. A name that was
/// starred is in the list, and one that lost its star is not.
pub proof fn law_stars_stay_unique(conf: ConfigView, timecode: Seq<char>)
    requires
        conf.wf(),
    ensures
        conf.add_timecode(timecode).wf(),
        conf.add_timecode(timecode).starred_timecodes.contains(timecode),
        conf.remove_timecode(timecode).wf(),
        !conf.remove_timecode(timecode).starred_timecodes.contains(timecode),
{
    let starred = conf.starred_timecodes;
    if !starred.contains(timecode) {
        let grown = starred.push(timecode);
        assert(grown[starred.len() as int] == timecode);
        assert forall|i: int, j: int|
            0 <= i < grown.len() && 0 <= j < grown.len() && i != j implies grown[i]
            != grown[j] by {
            if i < starred.len() && j < starred.len() {
            } else if i < starred.len() {
                assert(starred.contains(starred[i]));
            } else {
                assert(starred.contains(starred[j]));
            }
        }
    }
    let pred = other_than(timecode);
    lemma_filter_keeps_distinct(starred, pred);
    let kept = starred.filter(pred);
    if kept.contains(timecode) {
        let i = choose|i: int| 0 <= i < kept.len() && kept[i] == timecode;
        starred.lemma_filter_pred(pred, i);
    }
}

/// A filter leaves no element twice in a sequence that had none twice.
pub proof fn lemma_filter_keeps_distinct<A>(s: Seq<A>, pred: spec_fn(A) -> bool)
    requires
        s.no_duplicates(),
    ensures
        s.filter(pred).no_duplicates(),
    decreases s.len(),
{
    reveal(Seq::filter);
    if s.len() > 0 {
        let rest = s.drop_last();
        let kept = rest.filter(pred);
        lemma_filter_keeps_distinct(rest, pred);
        if pred(s.last()) {
            let out = kept.push(s.last());
            assert forall|i: int, j: int|
                0 <= i < out.len() && 0 <= j < out.len() && i != j implies out[i] != out[j] by {
                if i < kept.len() && j < kept.len() {
                } else {
                    let inner = if i < kept.len() {
                        i
                    } else {
                        j
                    };
                    assert(kept.contains(kept[inner]));
                    rest.lemma_filter_contains_rev(pred, kept[inner]);
                    let k = choose|k: int| 0 <= k < rest.len() && rest[k] == kept[inner];
                    assert(s[k] != s[s.len() - 1]);
                }
            }
        }
    }
}

} // verus!
