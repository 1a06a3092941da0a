//! The mirror switch of a whole tree, as a state machine.
//!
//! The caller performs each action on the repositories (open, write a URL,
//! initialize, update) and hands the outcome back as an event. The run
//! opens the superproject, sets its origin if asked, rewrites the URLs of
//! its direct entries, then opens it again and takes each direct entry in
//! turn: initialize, update, open it as a repository and rewrite the URLs
//! of its own entries. Only a superproject that cannot be opened ends the
//! run early; every other failure is recorded and the run goes on.
use vstd::prelude::*;
use crate::rewrite::{changes_view, plan_rewrites, planned, SubEntry, UrlChange};
use crate::update::{
    forwards_depth, is_strategy, shallow_update_args, views, select_update, UpdateOptions, UpdateStrategy,
};

verus! {

/// What a run is asked to do.
#[derive(Clone, Debug, PartialEq, Eq)]
pub struct MirrorConfig {
    /// Path of the superproject.
    pub idf_path: String,
    /// New origin URL of the superproject; left as it is where absent.
    pub origin_url: Option<String>,
    /// Base URL that eligible entries move to.
    pub submodule_mirror_base: String,
    pub update: UpdateOptions,
}

/// Where a run stands: the step it waits on, or its end.
#[derive(PartialEq, Eq, Structural, Clone, Copy, Debug)]
pub enum Phase {
    Opening,
    SettingOrigin,
    RewritingTop,
    Reopening,
    Initializing,
    Updating,
    OpeningEntry,
    RewritingEntry,
    Done,
    Aborted,
}

/// The step that a record reports on.
#[derive(PartialEq, Eq, Structural, Clone, Copy, Debug)]
pub enum Step {
    OpenSuperproject,
    SetOrigin,
    RewriteTop,
    ReopenSuperproject,
    InitEntry,
    UpdateEntry,
    OpenEntry,
    RewriteEntry,
}

/// The outcome of one step, on the superproject or on the named entry.
#[derive(Clone, Debug, PartialEq, Eq)]
pub struct StepRecord {
    pub step: Step,
    pub subject: String,
    pub ok: bool,
}

/// The outcome of an action, as the caller saw it.
#[derive(Clone, Debug, PartialEq, Eq)]
pub enum Event {
    /// A repository was opened; these are its direct entries, in order.
    Opened(Vec<SubEntry>),
    /// The action ran, and succeeded or not.
    Completed(bool),
    /// The repository to open is not there.
    Unavailable,
}

/// What the caller is to do next.
#[derive(Clone, Debug, PartialEq, Eq)]
pub enum Action {
    OpenRepository { path: String },
    SetOrigin { url: String },
    /// Write these URLs into the configuration of the superproject (`None`)
    /// or of the named entry's own repository.
    SetEntryUrls { within: Option<String>, changes: Vec<UrlChange> },
    /// Initialize the named entry of the superproject, without fetching.
    InitEntry { name: String },
    Update(UpdateStrategy),
    /// Open the named entry of the superproject as a repository.
    OpenEntry { name: String },
    Finish,
    Abort,
}

/// The state of one run.
pub struct MirrorRun {
    pub config: MirrorConfig,
    pub phase: Phase,
    /// The direct entries of the superproject, taken in this order.
    pub entries: Vec<SubEntry>,
    /// The entries of the repository whose URLs are rewritten next.
    pub nested: Vec<SubEntry>,
    /// The entry being worked on.
    pub index: usize,
    pub report: Vec<StepRecord>,
}

/// The phases that work on one direct entry of the superproject.
pub open spec fn is_entry_phase(p: Phase) -> bool {
    p == Phase::Initializing || p == Phase::Updating || p == Phase::OpeningEntry || p
        == Phase::RewritingEntry
}

/// The phases in which a run has ended.
pub open spec fn is_final_phase(p: Phase) -> bool {
    p == Phase::Done || p == Phase::Aborted
}

/// The action that an event answers succeeded.
pub open spec fn event_ok(e: Event) -> bool {
    match e {
        Event::Opened(_) => true,
        Event::Completed(b) => b,
        Event::Unavailable => false,
    }
}

/// Where a run goes once the entry at `index` of `n` is left.
pub open spec fn phase_after_entry(index: int, n: int) -> Phase {
    if index + 1 < n {
        Phase::Initializing
    } else {
        Phase::Done
    }
}

/// How far the work on one entry has gone.
pub open spec fn entry_stage(p: Phase) -> int {
    match p {
        Phase::Initializing => 0,
        Phase::Updating => 1,
        Phase::OpeningEntry => 2,
        _ => 3,
    }
}

/// The phase after event `e` in state `s`.
pub open spec fn next_phase(s: MirrorRun, e: Event) -> Phase {
    match s.phase {
        Phase::Opening => match e {
            Event::Opened(_) => if s.config.origin_url is Some {
                Phase::SettingOrigin
            } else {
                Phase::RewritingTop
            },
            _ => Phase::Aborted,
        },
        Phase::SettingOrigin => Phase::RewritingTop,
        Phase::RewritingTop => Phase::Reopening,
        Phase::Reopening => match e {
            Event::Opened(es) => if es@.len() == 0 {
                Phase::Done
            } else {
                Phase::Initializing
            },
            _ => Phase::Aborted,
        },
        Phase::Initializing => Phase::Updating,
        Phase::Updating => Phase::OpeningEntry,
        Phase::OpeningEntry => match e {
            Event::Opened(_) => Phase::RewritingEntry,
            _ => phase_after_entry(s.index as int, s.entries@.len() as int),
        },
        Phase::RewritingEntry => phase_after_entry(s.index as int, s.entries@.len() as int),
        Phase::Done => Phase::Done,
        Phase::Aborted => Phase::Aborted,
    }
}

/// The entry worked on after event `e` in state `s`.
pub open spec fn next_index(s: MirrorRun, e: Event) -> int {
    match s.phase {
        Phase::Reopening => match e {
            Event::Opened(_) => 0,
            _ => s.index as int,
        },
        Phase::OpeningEntry => match e {
            Event::Opened(_) => s.index as int,
            _ => s.index + 1,
        },
        Phase::RewritingEntry => s.index + 1,
        _ => s.index as int,
    }
}

/// The superproject's entries after event `e`: those that reopening it
/// lists, else those held before.
pub open spec fn next_entries(s: MirrorRun, e: Event) -> Seq<SubEntry> {
    match e {
        Event::Opened(es) => if s.phase == Phase::Reopening {
            es@
        } else {
            s.entries@
        },
        _ => s.entries@,
    }
}

/// The entries to rewrite after event `e`: those of the repository just
/// opened, else those held before.
pub open spec fn next_nested(s: MirrorRun, e: Event) -> Seq<SubEntry> {
    match e {
        Event::Opened(es) => if s.phase == Phase::Opening || s.phase == Phase::OpeningEntry {
            es@
        } else {
            s.nested@
        },
        _ => s.nested@,
    }
}

/// The step that is under way in a phase that is not final.
pub open spec fn step_of(p: Phase) -> Step {
    match p {
        Phase::Opening => Step::OpenSuperproject,
        Phase::SettingOrigin => Step::SetOrigin,
        Phase::RewritingTop => Step::RewriteTop,
        Phase::Reopening => Step::ReopenSuperproject,
        Phase::Initializing => Step::InitEntry,
        Phase::Updating => Step::UpdateEntry,
        Phase::OpeningEntry => Step::OpenEntry,
        _ => Step::RewriteEntry,
    }
}

/// What the step under way works on: the entry in an entry phase, the
/// superproject otherwise.
pub open spec fn subject_of(s: MirrorRun) -> String {
    if is_entry_phase(s.phase) {
        s.entries@[s.index as int].name
    } else {
        s.config.idf_path
    }
}

/// The report after event `e`: one more record, unless the run had ended.
pub open spec fn next_report(s: MirrorRun, e: Event) -> Seq<StepRecord> {
    if is_final_phase(s.phase) {
        s.report@
    } else {
        s.report@.push(StepRecord { step: step_of(s.phase), subject: subject_of(s), ok: event_ok(e) })
    }
}

/// `a` is what a run in state `s` asks for next.
pub open spec fn is_next_action(s: MirrorRun, a: Action) -> bool {
    let base = s.config.submodule_mirror_base@;
    match s.phase {
        Phase::Opening => a == Action::OpenRepository { path: s.config.idf_path },
        Phase::Reopening => a == Action::OpenRepository { path: s.config.idf_path },
        Phase::SettingOrigin => match s.config.origin_url {
            Some(u) => a == Action::SetOrigin { url: u },
            None => false,
        },
        Phase::RewritingTop => match a {
            Action::SetEntryUrls { within, changes } => within is None && changes_view(changes@)
                == planned(s.nested@, base),
            _ => false,
        },
        Phase::Initializing => a == Action::InitEntry { name: s.entries@[s.index as int].name },
        Phase::Updating => match a {
            Action::Update(st) => is_strategy(
                st,
                s.config.idf_path@,
                s.entries@[s.index as int].name@,
                s.config.update,
            ),
            _ => false,
        },
        Phase::OpeningEntry => a == Action::OpenEntry { name: s.entries@[s.index as int].name },
        Phase::RewritingEntry => match a {
            Action::SetEntryUrls { within, changes } => within == Some(
                s.entries@[s.index as int].name,
            ) && changes_view(changes@) == planned(s.nested@, base),
            _ => false,
        },
        Phase::Done => a == Action::Finish,
        Phase::Aborted => a == Action::Abort,
    }
}

impl MirrorRun {
    /// An entry phase names an entry that exists, and the origin is set
    /// only where one was given.
    pub open spec fn wf(&self) -> bool {
        &&& is_entry_phase(self.phase) ==> self.index < self.entries@.len()
        &&& self.phase == Phase::SettingOrigin ==> self.config.origin_url is Some
    }

    /// A run that has done nothing yet.
    pub fn new(config: MirrorConfig) -> (r: MirrorRun)
        ensures
            r.wf(),
            r.config == config,
            r.phase == Phase::Opening,
            r.entries@.len() == 0,
            r.nested@.len() == 0,
            r.index == 0,
            r.report@.len() == 0,
    {
        MirrorRun {
            config,
            phase: Phase::Opening,
            entries: Vec::new(),
            nested: Vec::new(),
            index: 0,
            report: Vec::new(),
        }
    }

    /// The run has ended, completed or aborted.
    pub fn is_finished(&self) -> (r: bool)
        ensures
            r == is_final_phase(self.phase),
    {
        self.phase == Phase::Done || self.phase == Phase::Aborted
    }

    /// The run completed and every step of it succeeded.
    pub fn all_succeeded(&self) -> (r: bool)
        ensures
            r == (self.phase == Phase::Done && forall|i: int|
                0 <= i < self.report@.len() ==> #[trigger] self.report@[i].ok),
    {
        if self.phase != Phase::Done {
            return false;
        }
        let mut i: usize = 0;
        while i < self.report.len()
            invariant
                i <= self.report@.len(),
                forall|j: int| 0 <= j < i ==> #[trigger] self.report@[j].ok,
            decreases self.report.len() - i,
        {
            if !self.report[i].ok {
                return false;
            }
            i = i + 1;
        }
        true
    }

    /// The number of steps that failed.
    pub fn failure_count(&self) -> (r: usize)
        ensures
            r == self.report@.filter(|x: StepRecord| !x.ok).len(),
    {
        let mut n: usize = 0;
        let mut i: usize = 0;
        while i < self.report.len()
            invariant
                i <= self.report@.len(),
                n == self.report@.subrange(0, i as int).filter(|x: StepRecord| !x.ok).len(),
                n <= i,
            decreases self.report.len() - i,
        {
            proof {
                let s = self.report@.subrange(0, i + 1);
                assert(s.drop_last() =~= self.report@.subrange(0, i as int));
                reveal_with_fuel(Seq::filter, 1);
            }
            if !self.report[i].ok {
                n = n + 1;
            }
            i = i + 1;
        }
        assert(self.report@.subrange(0, i as int) =~= self.report@);
        n
    }

    /// What the caller is to do next.
    pub fn next_action(&self) -> (a: Action)
        requires
            self.wf(),
        ensures
            is_next_action(*self, a),
    {
        match self.phase {
            Phase::Opening | Phase::Reopening => Action::OpenRepository {
                path: self.config.idf_path.clone(),
            },
            Phase::SettingOrigin => match &self.config.origin_url {
                Some(u) => Action::SetOrigin { url: u.clone() },
                None => Action::Abort,
            },
            Phase::RewritingTop => Action::SetEntryUrls {
                within: None,
                changes: plan_rewrites(&self.nested, self.config.submodule_mirror_base.as_str()),
            },
            Phase::Initializing => Action::InitEntry { name: self.entries[self.index].name.clone() },
            Phase::Updating => Action::Update(
                select_update(&self.config.idf_path, &self.entries[self.index].name, &self.config.update),
            ),
            Phase::OpeningEntry => Action::OpenEntry { name: self.entries[self.index].name.clone() },
            Phase::RewritingEntry => Action::SetEntryUrls {
                within: Some(self.entries[self.index].name.clone()),
                changes: plan_rewrites(&self.nested, self.config.submodule_mirror_base.as_str()),
            },
            Phase::Done => Action::Finish,
            Phase::Aborted => Action::Abort,
        }
    }

    /// Takes the outcome of the last action and moves on.
    pub fn step(&mut self, event: Event)
        requires
            old(self).wf(),
        ensures
            final(self).wf(),
            final(self).config == old(self).config,
            final(self).phase == next_phase(*old(self), event),
            final(self).index == next_index(*old(self), event),
            final(self).entries@ == next_entries(*old(self), event),
            final(self).nested@ == next_nested(*old(self), event),
            final(self).report@ == next_report(*old(self), event),
    {
        let ok = match &event {
            Event::Opened(_) => true,
            Event::Completed(b) => *b,
            Event::Unavailable => false,
        };
        match self.phase {
            Phase::Done | Phase::Aborted => {},
            Phase::Opening => {
                let subject = self.config.idf_path.clone();
                self.report.push(StepRecord { step: Step::OpenSuperproject, subject, ok });
                match event {
                    Event::Opened(es) => {
                        self.nested = es;
                        self.phase = if self.config.origin_url.is_some() {
                            Phase::SettingOrigin
                        } else {
                            Phase::RewritingTop
                        };
                    },
                    _ => {
                        self.phase = Phase::Aborted;
                    },
                }
            },
            Phase::SettingOrigin => {
                let subject = self.config.idf_path.clone();
                self.report.push(StepRecord { step: Step::SetOrigin, subject, ok });
                self.phase = Phase::RewritingTop;
            },
            Phase::RewritingTop => {
                let subject = self.config.idf_path.clone();
                self.report.push(StepRecord { step: Step::RewriteTop, subject, ok });
                self.phase = Phase::Reopening;
            },
            Phase::Reopening => {
                let subject = self.config.idf_path.clone();
                self.report.push(StepRecord { step: Step::ReopenSuperproject, subject, ok });
                match event {
                    Event::Opened(es) => {
                        self.phase = if es.len() == 0 {
                            Phase::Done
                        } else {
                            Phase::Initializing
                        };
                        self.entries = es;
                        self.index = 0;
                    },
                    _ => {
                        self.phase = Phase::Aborted;
                    },
                }
            },
            Phase::Initializing => {
                let subject = self.entries[self.index].name.clone();
                self.report.push(StepRecord { step: Step::InitEntry, subject, ok });
                self.phase = Phase::Updating;
            },
            Phase::Updating => {
                let subject = self.entries[self.index].name.clone();
                self.report.push(StepRecord { step: Step::UpdateEntry, subject, ok });
                self.phase = Phase::OpeningEntry;
            },
            Phase::OpeningEntry => {
                let subject = self.entries[self.index].name.clone();
                self.report.push(StepRecord { step: Step::OpenEntry, subject, ok });
                match event {
                    Event::Opened(es) => {
                        self.nested = es;
                        self.phase = Phase::RewritingEntry;
                    },
                    _ => {
                        self.leave_entry();
                    },
                }
            },
            Phase::RewritingEntry => {
                let subject = self.entries[self.index].name.clone();
                self.report.push(StepRecord { step: Step::RewriteEntry, subject, ok });
                self.leave_entry();
            },
        }
    }

    /// Moves on from the entry being worked on to the next one, or ends the run.
    fn leave_entry(&mut self)
        requires
            old(self).index < old(self).entries@.len(),
        ensures
            final(self).config == old(self).config,
            final(self).entries == old(self).entries,
            final(self).nested == old(self).nested,
            final(self).report == old(self).report,
            final(self).index == old(self).index + 1,
            final(self).phase == phase_after_entry(
                old(self).index as int,
                old(self).entries@.len() as int,
            ),
    {
        let n = self.entries.len();
        self.index = self.index + 1;
        self.phase = if self.index < n {
            Phase::Initializing
        } else {
            Phase::Done
        };
    }
}

/// The direct entries are taken one at a time, in their order, and whatever
/// the steps on one entry report, the run goes on to the next entry: from an
/// entry it neither aborts nor ends before the last entry is left, and it
/// records each step against that entry. Each step either moves the work on
/// the entry forward or leaves it for the next one, so every entry is left
/// within four steps.
pub proof fn lemma_entries_in_order(s: MirrorRun, e: Event)
    requires
        s.wf(),
        is_entry_phase(s.phase),
    ensures
        next_phase(s, e) != Phase::Aborted,
        next_entries(s, e) == s.entries@,
        next_index(s, e) == s.index ==> is_entry_phase(next_phase(s, e)) && entry_stage(
            next_phase(s, e),
        ) > entry_stage(s.phase),
        next_index(s, e) == s.index || next_index(s, e) == s.index + 1,
        next_index(s, e) == s.index + 1 ==> {
            &&& next_index(s, e) < s.entries@.len() ==> next_phase(s, e) == Phase::Initializing
            &&& next_index(s, e) == s.entries@.len() ==> next_phase(s, e) == Phase::Done
        },
        next_report(s, e) == s.report@.push(
            StepRecord { step: step_of(s.phase), subject: s.entries@[s.index as int].name, ok: event_ok(e) },
        ),
{
}

/// The update of an entry goes to the external tool exactly when a depth is
/// configured, and then with that depth unchanged.
pub proof fn lemma_update_follows_depth(s: MirrorRun, a: Action)
    requires
        s.wf(),
        s.phase == Phase::Updating,
        is_next_action(s, a),
    ensures
        match a {
            Action::Update(st) => {
                &&& s.config.update.depth is None <==> st is Native
                &&& forwards_depth(st, s.config.update.depth)
            },
            _ => false,
        },
{
    if let Action::Update(st) = a {
        if let Some(d) = s.config.update.depth {
            if let UpdateStrategy::External { args } = st {
                let args_view = shallow_update_args(
                    s.config.idf_path@,
                    s.entries@[s.index as int].name@,
                    d@,
                    s.config.update.show_progress,
                );
                assert(args_view[5] == d@);
                assert(views(args@).len() == args@.len());
                assert(views(args@)[5] == args@[5]@);
            }
        }
    }
}

} // verus!
