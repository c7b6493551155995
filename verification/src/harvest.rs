//! Harvesting the artifacts: each one is copied, by content, into a fresh
//! directory `dist/<name>`, replacing whatever stood there before.
//!
//! [`Harvest`] holds the decisions; the host performs each action and reports
//! its outcome as an event.

use vstd::prelude::*;
use vstd::string::*;
use crate::artifact::two_strings;

verus! {

/// The directory an artifact is harvested into, relative to the current directory.
pub open spec fn spec_output_dir(name: Seq<char>) -> Seq<Seq<char>> {
    seq!["dist"@, name]
}

/// The directory an artifact is harvested into.
pub fn output_dir(name: &str) -> (d: Vec<String>)
    ensures
        d.deep_view() == spec_output_dir(name@),
{
    two_strings(String::from_str("dist"), String::from_str(name))
}

/// Where the harvest of the current artifact stands.
#[derive(Debug, Clone, Copy, PartialEq, Eq, Structural)]
pub enum HarvestPhase {
    /// Waiting to learn whether the output directory exists.
    Checking,
    /// Waiting for the old output directory to be removed.
    Removing,
    /// Waiting for the output directory to be created.
    Creating,
    /// Waiting for the artifact to be copied.
    Copying,
    /// Every artifact is harvested.
    Finished,
}

/// What the host reports after performing an action.
#[derive(Debug, Clone, Copy, PartialEq, Eq, Structural)]
pub enum HarvestEvent {
    /// Whether the output directory exists.
    Exists(bool),
    /// The directory was removed or created, or the artifact copied.
    Done,
}

/// What the host is to do next.
pub enum HarvestAction {
    /// Look whether this directory exists.
    CheckOutputDir(Vec<String>),
    /// Remove this directory with everything in it.
    RemoveOutputDir(Vec<String>),
    /// Create this directory and its parents.
    CreateOutputDir(Vec<String>),
    /// Copy the content of the artifact at position `index` into `to`,
    /// overwriting files of the same name.
    Copy { index: usize, to: Vec<String> },
    /// Every artifact is harvested.
    Finish,
}

/// A [`HarvestAction`] seen through the characters of its strings.
pub enum HarvestActionView {
    CheckOutputDir(Seq<Seq<char>>),
    RemoveOutputDir(Seq<Seq<char>>),
    CreateOutputDir(Seq<Seq<char>>),
    Copy(int, Seq<Seq<char>>),
    Finish,
}

impl View for HarvestAction {
    type V = HarvestActionView;

    open spec fn view(&self) -> HarvestActionView {
        match self {
            HarvestAction::CheckOutputDir(d) => HarvestActionView::CheckOutputDir(d.deep_view()),
            HarvestAction::RemoveOutputDir(d) => HarvestActionView::RemoveOutputDir(d.deep_view()),
            HarvestAction::CreateOutputDir(d) => HarvestActionView::CreateOutputDir(d.deep_view()),
            HarvestAction::Copy { index, to } => HarvestActionView::Copy(*index as int, to.deep_view()),
            HarvestAction::Finish => HarvestActionView::Finish,
        }
    }
}

/// Which events a phase waits for.
pub open spec fn spec_harvest_expects(phase: HarvestPhase, event: HarvestEvent) -> bool {
    match phase {
        HarvestPhase::Checking => event is Exists,
        HarvestPhase::Removing => event is Done,
        HarvestPhase::Creating => event is Done,
        HarvestPhase::Copying => event is Done,
        HarvestPhase::Finished => false,
    }
}

/// The first action for the artifact at `index`, or the end of the harvest.
pub open spec fn spec_harvest_begin(artifacts: Seq<Seq<char>>, index: int) -> (
    HarvestPhase,
    HarvestActionView,
) {
    if index < artifacts.len() {
        (HarvestPhase::Checking, HarvestActionView::CheckOutputDir(spec_output_dir(artifacts[index])))
    } else {
        (HarvestPhase::Finished, HarvestActionView::Finish)
    }
}

/// The next phase, artifact position and action of the harvest.
pub open spec fn spec_harvest_step(
    artifacts: Seq<Seq<char>>,
    index: int,
    phase: HarvestPhase,
    event: HarvestEvent,
) -> (HarvestPhase, int, HarvestActionView) {
    let out = spec_output_dir(artifacts[index]);
    match (phase, event) {
        (HarvestPhase::Checking, HarvestEvent::Exists(true)) => (
            HarvestPhase::Removing,
            index,
            HarvestActionView::RemoveOutputDir(out),
        ),
        (HarvestPhase::Checking, HarvestEvent::Exists(false)) => (
            HarvestPhase::Creating,
            index,
            HarvestActionView::CreateOutputDir(out),
        ),
        (HarvestPhase::Removing, HarvestEvent::Done) => (
            HarvestPhase::Creating,
            index,
            HarvestActionView::CreateOutputDir(out),
        ),
        (HarvestPhase::Creating, HarvestEvent::Done) => (
            HarvestPhase::Copying,
            index,
            HarvestActionView::Copy(index, out),
        ),
        (HarvestPhase::Copying, HarvestEvent::Done) => {
            let next = spec_harvest_begin(artifacts, index + 1);
            (next.0, index + 1, next.1)
        },
        _ => (phase, index, HarvestActionView::Finish),
    }
}

/// The harvest of a list of artifacts, one after the other.
pub struct Harvest {
    /// The names of the artifacts, in the order they are harvested.
    pub artifacts: Vec<String>,
    /// The position of the artifact being harvested.
    pub index: usize,
    /// Where the harvest of that artifact stands.
    pub phase: HarvestPhase,
}

impl Harvest {
    /// The artifacts, seen through the characters of their strings.
    pub open spec fn artifacts_view(&self) -> Seq<Seq<char>> {
        self.artifacts.deep_view()
    }

    /// The position is that of an artifact while the harvest goes on.
    pub open spec fn wf(&self) -> bool {
        &&& self.index <= self.artifacts@.len()
        &&& (self.phase != HarvestPhase::Finished ==> self.index < self.artifacts@.len())
    }

    fn begin(&mut self) -> (action: HarvestAction)
        requires
            old(self).index <= old(self).artifacts@.len(),
        ensures
            final(self).wf(),
            final(self).artifacts == old(self).artifacts,
            final(self).index == old(self).index,
            (final(self).phase, action@) == spec_harvest_begin(
                old(self).artifacts_view(),
                old(self).index as int,
            ),
    {
        if self.index < self.artifacts.len() {
            self.phase = HarvestPhase::Checking;
            let out = output_dir(self.artifacts[self.index].as_str());
            HarvestAction::CheckOutputDir(out)
        } else {
            self.phase = HarvestPhase::Finished;
            HarvestAction::Finish
        }
    }

    /// Starts the harvest of the artifacts of these names: the first action
    /// looks at the first artifact's output directory, or the harvest is over
    /// at once when there is none.
    pub fn new(artifacts: Vec<String>) -> (r: (Harvest, HarvestAction))
        ensures
            r.0.wf(),
            r.0.artifacts == artifacts,
            r.0.index == 0,
            (r.0.phase, r.1@) == spec_harvest_begin(
                artifacts.deep_view(),
                0,
            ),
    {
        let mut h = Harvest { artifacts, index: 0, phase: HarvestPhase::Finished };
        let action = h.begin();
        (h, action)
    }

    /// Whether the harvest waits for this event.
    pub fn expects(&self, event: HarvestEvent) -> (b: bool)
        ensures
            b == spec_harvest_expects(self.phase, event),
    {
        match self.phase {
            HarvestPhase::Checking => matches!(event, HarvestEvent::Exists(_)),
            HarvestPhase::Removing => matches!(event, HarvestEvent::Done),
            HarvestPhase::Creating => matches!(event, HarvestEvent::Done),
            HarvestPhase::Copying => matches!(event, HarvestEvent::Done),
            HarvestPhase::Finished => false,
        }
    }

    /// Takes the outcome of the last action and gives the next one.
    pub fn step(&mut self, event: HarvestEvent) -> (action: HarvestAction)
        requires
            old(self).wf(),
            spec_harvest_expects(old(self).phase, event),
        ensures
            final(self).wf(),
            final(self).artifacts == old(self).artifacts,
            (final(self).phase, final(self).index as int, action@) == spec_harvest_step(
                old(self).artifacts_view(),
                old(self).index as int,
                old(self).phase,
                event,
            ),
    {
        let i = self.index;
        let n = self.artifacts.len();
        assert(i < n);
        match (self.phase, event) {
            (HarvestPhase::Checking, HarvestEvent::Exists(true)) => {
                self.phase = HarvestPhase::Removing;
                HarvestAction::RemoveOutputDir(output_dir(self.artifacts[i].as_str()))
            },
            (HarvestPhase::Checking, HarvestEvent::Exists(false)) => {
                self.phase = HarvestPhase::Creating;
                HarvestAction::CreateOutputDir(output_dir(self.artifacts[i].as_str()))
            },
            (HarvestPhase::Removing, HarvestEvent::Done) => {
                self.phase = HarvestPhase::Creating;
                HarvestAction::CreateOutputDir(output_dir(self.artifacts[i].as_str()))
            },
            (HarvestPhase::Creating, HarvestEvent::Done) => {
                self.phase = HarvestPhase::Copying;
                HarvestAction::Copy { index: i, to: output_dir(self.artifacts[i].as_str()) }
            },
            (HarvestPhase::Copying, HarvestEvent::Done) => {
                self.index = i + 1;
                self.begin()
            },
            _ => {
                proof {
                    assert(false);
                }
                HarvestAction::Finish
            },
        }
    }
}

} // verus!
