//! The engine launcher: it offers the candidates one at a time, strictly in
//! their order, and commits to the first whose attempt started an engine.
//!
//! The launcher does not start engines. The caller tries the candidate that
//! is on offer and records how the attempt went.

use vstd::prelude::*;
use crate::backend::Candidate;

verus! {

/// How one initialization attempt went.
#[derive(Clone, Debug, PartialEq, Eq)]
pub enum Attempt {
    /// The engine started.
    Started,
    /// The engine did not start; the text says why.
    Failed(String),
}

/// What an [`Attempt`] is, mathematically.
pub enum AttemptModel {
    Started,
    Failed(Seq<char>),
}

impl DeepView for Attempt {
    type V = AttemptModel;

    open spec fn deep_view(&self) -> AttemptModel {
        match self {
            Attempt::Started => AttemptModel::Started,
            Attempt::Failed(reason) => AttemptModel::Failed(reason@),
        }
    }
}

/// What a [`Launcher`] is, mathematically.
pub struct LauncherModel {
    /// The candidates, first choice first.
    pub candidates: Seq<Candidate>,
    /// How many candidates have failed.
    pub failed: nat,
    /// Whether the candidate after the failed ones started an engine.
    pub bound: bool,
    /// Why the latest failed attempt failed; empty while none has.
    pub reason: Seq<char>,
}

impl LauncherModel {
    /// A launcher holds no more failures than candidates, and is bound only
    /// to a candidate that it has.
    pub open spec fn well_formed(self) -> bool {
        &&& self.failed <= self.candidates.len()
        &&& self.bound ==> self.failed < self.candidates.len()
    }

    /// A launcher that has tried nothing yet.
    pub open spec fn fresh(candidates: Seq<Candidate>) -> LauncherModel {
        LauncherModel { candidates, failed: 0, bound: false, reason: Seq::empty() }
    }

    /// The candidate to try next: the first that has not failed, unless the
    /// launcher is bound or has none left.
    pub open spec fn current(self) -> Option<Candidate> {
        if !self.bound && self.failed < self.candidates.len() {
            Some(self.candidates[self.failed as int])
        } else {
            None
        }
    }

    /// The candidate that the launcher committed to.
    pub open spec fn chosen(self) -> Option<Candidate> {
        if self.bound {
            Some(self.candidates[self.failed as int])
        } else {
            None
        }
    }

    /// Whether every candidate has failed.
    pub open spec fn exhausted(self) -> bool {
        !self.bound && self.failed == self.candidates.len()
    }

    /// The launcher after one more attempt. An attempt recorded while no
    /// candidate is on offer changes nothing.
    pub open spec fn record(self, attempt: AttemptModel) -> LauncherModel {
        if self.current() is None {
            self
        } else {
            match attempt {
                AttemptModel::Started => LauncherModel { bound: true, ..self },
                AttemptModel::Failed(reason) => LauncherModel { failed: self.failed + 1, reason, ..self },
            }
        }
    }

    /// The launcher after a series of attempts, each recorded in turn.
    pub open spec fn replay(self, attempts: Seq<AttemptModel>) -> LauncherModel
        decreases attempts.len(),
    {
        if attempts.len() == 0 {
            self
        } else {
            self.record(attempts[0]).replay(attempts.drop_first())
        }
    }
}

/// The candidates are tried strictly in order and the first success is
/// final: if attempt `winner` is the first that started an engine, the
/// launcher is bound to candidate `winner`, whatever was recorded after it,
/// and holds the reason of the failure just before, if there was one.
pub proof fn lemma_first_success_wins(candidates: Seq<Candidate>, attempts: Seq<AttemptModel>, winner: int)
    requires
        0 <= winner < candidates.len(),
        winner < attempts.len(),
        attempts[winner] is Started,
        forall|i: int| 0 <= i < winner ==> #[trigger] attempts[i] is Failed,
    ensures
        LauncherModel::fresh(candidates).replay(attempts).chosen() == Some(candidates[winner]),
        LauncherModel::fresh(candidates).replay(attempts).failed == winner,
        winner > 0 ==> LauncherModel::fresh(candidates).replay(attempts).reason == attempts[winner
            - 1]->Failed_0,
{
    lemma_replay_from(LauncherModel::fresh(candidates), attempts, winner);
}

/// If every candidate's attempt failed, the launcher is exhausted and holds
/// the reason of the last failure.
pub proof fn lemma_all_failures_exhaust(candidates: Seq<Candidate>, attempts: Seq<AttemptModel>)
    requires
        attempts.len() >= candidates.len(),
        forall|i: int| 0 <= i < candidates.len() ==> #[trigger] attempts[i] is Failed,
    ensures
        LauncherModel::fresh(candidates).replay(attempts).exhausted(),
        LauncherModel::fresh(candidates).replay(attempts).chosen() is None,
        candidates.len() > 0 ==> LauncherModel::fresh(candidates).replay(attempts).reason
            == attempts[candidates.len() - 1]->Failed_0,
{
    lemma_replay_failures(LauncherModel::fresh(candidates), attempts);
}

/// A launcher that offers nothing stays as it is, whatever is recorded.
proof fn lemma_replay_settled(model: LauncherModel, attempts: Seq<AttemptModel>)
    requires
        model.current() is None,
    ensures
        model.replay(attempts) == model,
    decreases attempts.len(),
{
    if attempts.len() > 0 {
        lemma_replay_settled(model, attempts.drop_first());
    }
}

/// Replaying failures up to a first success binds the candidate that is
/// `ahead` places after the failed ones.
proof fn lemma_replay_from(model: LauncherModel, attempts: Seq<AttemptModel>, ahead: int)
    requires
        model.well_formed(),
        !model.bound,
        0 <= ahead < attempts.len(),
        model.failed + ahead < model.candidates.len(),
        attempts[ahead] is Started,
        forall|i: int| 0 <= i < ahead ==> #[trigger] attempts[i] is Failed,
    ensures
        model.replay(attempts).bound,
        model.replay(attempts).failed == model.failed + ahead,
        model.replay(attempts).candidates == model.candidates,
        ahead > 0 ==> model.replay(attempts).reason == attempts[ahead - 1]->Failed_0,
        ahead == 0 ==> model.replay(attempts).reason == model.reason,
    decreases attempts.len(),
{
    let rest = attempts.drop_first();
    let after = model.record(attempts[0]);
    if ahead == 0 {
        lemma_replay_settled(after, rest);
    } else {
        assert(attempts[0] is Failed);
        assert(rest[ahead - 1] == attempts[ahead]);
        assert forall|i: int| 0 <= i < ahead - 1 implies #[trigger] rest[i] is Failed by {
            assert(rest[i] == attempts[i + 1]);
        }
        lemma_replay_from(after, rest, ahead - 1);
        if ahead > 1 {
            assert(rest[ahead - 2] == attempts[ahead - 1]);
        }
    }
}

/// Replaying a failure for every candidate that is left exhausts the
/// launcher.
proof fn lemma_replay_failures(model: LauncherModel, attempts: Seq<AttemptModel>)
    requires
        model.well_formed(),
        !model.bound,
        attempts.len() >= model.candidates.len() - model.failed,
        forall|i: int| 0 <= i < model.candidates.len() - model.failed ==> #[trigger] attempts[i] is Failed,
    ensures
        model.replay(attempts).exhausted(),
        model.replay(attempts).candidates == model.candidates,
        model.failed < model.candidates.len() ==> model.replay(attempts).reason
            == attempts[model.candidates.len() - model.failed - 1]->Failed_0,
        model.failed == model.candidates.len() ==> model.replay(attempts).reason == model.reason,
    decreases attempts.len(),
{
    if model.failed == model.candidates.len() {
        lemma_replay_settled(model, attempts);
    } else {
        let rest = attempts.drop_first();
        let after = model.record(attempts[0]);
        assert(attempts[0] is Failed);
        assert forall|i: int| 0 <= i < after.candidates.len() - after.failed implies #[trigger] rest[i] is Failed by {
            assert(rest[i] == attempts[i + 1]);
        }
        lemma_replay_failures(after, rest);
        if after.failed < after.candidates.len() {
            assert(rest[after.candidates.len() - after.failed - 1] == attempts[model.candidates.len()
                - model.failed - 1]);
        }
    }
}

/// The engine launcher.
pub struct Launcher {
    candidates: Vec<Candidate>,
    failed: usize,
    bound: bool,
    reason: String,
}

impl View for Launcher {
    type V = LauncherModel;

    closed spec fn view(&self) -> LauncherModel {
        LauncherModel {
            candidates: self.candidates@,
            failed: self.failed as nat,
            bound: self.bound,
            reason: self.reason@,
        }
    }
}

impl Launcher {
    #[verifier::type_invariant]
    spec fn valid(&self) -> bool {
        self@.well_formed()
    }

    /// A launcher over the given candidates, first choice first.
    pub fn new(candidates: Vec<Candidate>) -> (launcher: Launcher)
        ensures
            launcher@ == LauncherModel::fresh(candidates@),
    {
        Launcher { candidates, failed: 0, bound: false, reason: String::new() }
    }

    /// The candidate to try next, or `None` when the launcher is bound or
    /// has no candidate left.
    pub fn current(&self) -> (candidate: Option<Candidate>)
        ensures
            candidate == self@.current(),
    {
        proof {
            use_type_invariant(self);
        }
        if !self.bound && self.failed < self.candidates.len() {
            Some(self.candidates[self.failed])
        } else {
            None
        }
    }

    /// Records how the attempt with the current candidate went.
    pub fn record(&mut self, attempt: Attempt)
        ensures
            final(self)@ == old(self)@.record(attempt.deep_view()),
            final(self)@.well_formed(),
    {
        proof {
            use_type_invariant(&*self);
        }
        if !self.bound && self.failed < self.candidates.len() {
            match attempt {
                Attempt::Started => {
                    self.bound = true;
                },
                Attempt::Failed(reason) => {
                    self.failed = self.failed + 1;
                    self.reason = reason;
                },
            }
        }
    }

    /// The candidate that the launcher committed to, if any attempt started
    /// an engine.
    pub fn chosen(&self) -> (candidate: Option<Candidate>)
        ensures
            candidate == self@.chosen(),
    {
        proof {
            use_type_invariant(self);
        }
        if self.bound {
            Some(self.candidates[self.failed])
        } else {
            None
        }
    }

    /// Whether every candidate has failed.
    pub fn exhausted(&self) -> (all_failed: bool)
        ensures
            all_failed == self@.exhausted(),
    {
        !self.bound && self.failed == self.candidates.len()
    }

    /// Why the latest failed attempt failed; empty while none has.
    pub fn last_failure(&self) -> (reason: String)
        ensures
            reason@ == self@.reason,
    {
        self.reason.clone()
    }
}

} // verus!
