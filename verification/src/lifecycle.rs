//! The lifecycle manager: it owns the one playback session that may exist,
//! and decides what a launch, a close or a resize does in each phase.
//!
//! The manager is one owned value. The host keeps it behind its lock and
//! hands it to every handler; the engine handle lives inside the session
//! and leaves with it.

use vstd::prelude::*;
use crate::backend::{Candidate, SurfaceKind};
use crate::command::{launch_ops, quit_command, redraw_nudge, spec_launch_ops, spec_quit, spec_redraw_nudge};
use crate::port::{Command, EngineOp, EngineOpModel};
use crate::quality::QualityProfile;
use crate::surface::{removal_plan, resize_plan, spec_removal_plan, spec_resize_plan, SurfaceHandles, SurfaceOp};

verus! {

/// Where the manager stands.
#[derive(Clone, Copy, Debug, PartialEq, Eq, Structural)]
pub enum Phase {
    /// No session, and none in the making.
    Uninitialized,
    /// Surface and engine are being set up.
    Initializing,
    /// A session is bound and takes commands.
    Active,
    /// The session was taken out and is being torn down.
    Closing,
}

/// A playback session: the engine handle, the surface it renders into, and
/// what it was bound with. `E` is the engine handle, which the bridge only
/// keeps.
#[derive(Debug)]
pub struct Session<E> {
    /// The engine, owned by the session alone.
    pub engine: E,
    /// The surface that the engine renders into.
    pub surface: SurfaceHandles,
    /// The candidate whose attempt started the engine. It stays for the
    /// session's whole life.
    pub bound: Candidate,
    /// The quality profile applied last, if any was.
    pub quality: Option<QualityProfile>,
}

/// What a launch request has to do.
#[derive(Clone, Copy, Debug, PartialEq, Eq, Structural)]
pub enum LaunchStep {
    /// No session exists: provision a surface and start an engine.
    Provision,
    /// A session is active: leave it as it is and load into it.
    Reuse,
    /// A launch or a close is under way: do nothing.
    Busy,
}

/// What a launch sends to the engine at the end of a launch request that
/// took the given step: the load and the subtitle, whether the session was
/// just made or was there already, and nothing where the request found a
/// launch or a close under way.
pub open spec fn spec_launch_engine_ops(
    step: LaunchStep,
    url: Seq<char>,
    subtitle: Option<Seq<char>>,
    start: Option<i64>,
    start_paused: Option<bool>,
) -> Seq<EngineOpModel> {
    if step == LaunchStep::Busy {
        Seq::empty()
    } else {
        spec_launch_ops(url, subtitle, start, start_paused)
    }
}

/// What a resize sends to the engine: the redraw nudge while a session is
/// active, and nothing without one.
pub open spec fn spec_resize_engine_ops(active: bool, zoom: i64) -> Seq<EngineOpModel> {
    if active {
        spec_redraw_nudge(zoom)
    } else {
        Seq::empty()
    }
}

/// What a launch sends to the engine once its session stands, given the
/// step that the launch request took. The start position is in millionths
/// of a second.
pub fn launch_engine_ops(
    step: LaunchStep,
    url: &str,
    subtitle: Option<&str>,
    start: Option<i64>,
    start_paused: Option<bool>,
) -> (ops: Vec<EngineOp>)
    ensures
        ops.deep_view() == spec_launch_engine_ops(
            step,
            url@,
            match subtitle {
                Some(address) => Some(address@),
                None => None,
            },
            start,
            start_paused,
        ),
{
    match step {
        LaunchStep::Busy => {
            let ops: Vec<EngineOp> = Vec::new();
            assert(ops.deep_view() =~= Seq::empty());
            ops
        },
        _ => launch_ops(url, subtitle, start, start_paused),
    }
}

/// What a resize sends to the engine after the surface was brought in step:
/// `active` says whether a session is active, `zoom` is the engine's zoom
/// in millionths.
pub fn resize_engine_ops(active: bool, zoom: i64) -> (ops: Vec<EngineOp>)
    ensures
        ops.deep_view() == spec_resize_engine_ops(active, zoom),
{
    if active {
        redraw_nudge(zoom)
    } else {
        let ops: Vec<EngineOp> = Vec::new();
        assert(ops.deep_view() =~= Seq::empty());
        ops
    }
}

/// What tears a session down, in order: the engine is told to quit, the
/// surface is removed from the window, and then the handles are released.
pub struct Teardown<E> {
    /// The session that was taken out; dropping it releases the engine.
    pub session: Session<E>,
    /// The command that shuts the engine down.
    pub quit: Command,
    /// The steps that take the surface away.
    pub removal: Vec<SurfaceOp>,
}

/// What a [`Lifecycle`] is, mathematically.
pub struct LifecycleModel<E> {
    pub phase: Phase,
    pub session: Option<Session<E>>,
}

impl<E> LifecycleModel<E> {
    /// There is a session exactly while the manager is active, so there is
    /// never more than one and never a half-made one.
    pub open spec fn well_formed(self) -> bool {
        self.session is Some <==> self.phase == Phase::Active
    }

    /// The manager before anything happened.
    pub open spec fn fresh() -> Self {
        LifecycleModel { phase: Phase::Uninitialized, session: None }
    }

    /// The manager after a launch request, and what the request has to do.
    pub open spec fn begin_launch(self) -> (Self, LaunchStep) {
        match self.phase {
            Phase::Uninitialized => (LifecycleModel { phase: Phase::Initializing, ..self }, LaunchStep::Provision),
            Phase::Active => (self, LaunchStep::Reuse),
            _ => (self, LaunchStep::Busy),
        }
    }

    /// The manager after a launch succeeded with the given session, and the
    /// session handed back if the manager was not waiting for one.
    pub open spec fn commit(self, session: Session<E>) -> (Self, Option<Session<E>>) {
        if self.phase == Phase::Initializing {
            (LifecycleModel { phase: Phase::Active, session: Some(session) }, None)
        } else {
            (self, Some(session))
        }
    }

    /// The manager after a launch failed.
    pub open spec fn abort_launch(self) -> Self {
        if self.phase == Phase::Initializing {
            LifecycleModel { phase: Phase::Uninitialized, ..self }
        } else {
            self
        }
    }

    /// The manager after a close request, and the session that is to be torn
    /// down, if there was one.
    pub open spec fn begin_close(self) -> (Self, Option<Session<E>>) {
        if self.phase == Phase::Active {
            (LifecycleModel { phase: Phase::Closing, session: None }, self.session)
        } else {
            (self, None)
        }
    }

    /// The manager after the teardown is done.
    pub open spec fn finish_close(self) -> Self {
        if self.phase == Phase::Closing {
            LifecycleModel { phase: Phase::Uninitialized, ..self }
        } else {
            self
        }
    }

    /// The manager after a whole close: the request and the teardown.
    pub open spec fn close(self) -> Self {
        self.begin_close().0.finish_close()
    }

    /// The manager after a number of launch requests in a row.
    pub open spec fn launch_times(self, times: nat) -> Self
        decreases times,
    {
        if times == 0 {
            self
        } else {
            self.begin_launch().0.launch_times((times - 1) as nat)
        }
    }

    /// The kind of surface that the active session is bound to.
    pub open spec fn bound_kind(self) -> Option<SurfaceKind> {
        match self.session {
            Some(session) => Some(session.bound.kind),
            None => None,
        }
    }
}

/// While a session is active, launch requests change nothing, however many
/// there are: each finds the session and reuses it. Only a close ends this.
pub proof fn lemma_launches_reuse_the_session<E>(model: LifecycleModel<E>, times: nat)
    requires
        model.phase == Phase::Active,
    ensures
        model.launch_times(times) == model,
        model.begin_launch() == (model, LaunchStep::Reuse),
    decreases times,
{
    if times > 0 {
        lemma_launches_reuse_the_session(model, (times - 1) as nat);
    }
}

/// A session that is offered while one is active is handed back, and the
/// active one stays: no launch can put a second session beside the first.
pub proof fn lemma_no_second_session<E>(model: LifecycleModel<E>, offered: Session<E>)
    requires
        model.well_formed(),
        model.session is Some,
    ensures
        model.commit(offered) == (model, Some(offered)),
{
}

/// Closing is idempotent: a second close in a row changes nothing and tears
/// nothing down, and so does a close when no session was ever created.
pub proof fn lemma_close_is_idempotent<E>(model: LifecycleModel<E>)
    requires
        model.well_formed(),
    ensures
        model.close().close() == model.close(),
        model.close().begin_close().1 is None,
        LifecycleModel::<E>::fresh().close() == LifecycleModel::<E>::fresh(),
        LifecycleModel::<E>::fresh().begin_close().1 is None,
        model.close().session is None,
{
}

/// Every step keeps the manager well formed: whatever the host calls, and in
/// whatever order, there is a session exactly while the manager is active.
pub proof fn lemma_steps_keep_well_formed<E>(model: LifecycleModel<E>, offered: Session<E>)
    requires
        model.well_formed(),
    ensures
        model.begin_launch().0.well_formed(),
        model.commit(offered).0.well_formed(),
        model.abort_launch().well_formed(),
        model.begin_close().0.well_formed(),
        model.finish_close().well_formed(),
        LifecycleModel::<E>::fresh().well_formed(),
{
}

/// The lifecycle manager.
pub struct Lifecycle<E> {
    phase: Phase,
    session: Option<Session<E>>,
}

impl<E> View for Lifecycle<E> {
    type V = LifecycleModel<E>;

    closed spec fn view(&self) -> LifecycleModel<E> {
        LifecycleModel { phase: self.phase, session: self.session }
    }
}

impl<E> Lifecycle<E> {
    #[verifier::type_invariant]
    spec fn valid(&self) -> bool {
        self@.well_formed()
    }

    /// A manager without a session.
    pub fn new() -> (fresh: Self)
        ensures
            fresh@ == LifecycleModel::<E>::fresh(),
    {
        Lifecycle { phase: Phase::Uninitialized, session: None }
    }

    /// Where the manager stands.
    pub fn phase(&self) -> (phase: Phase)
        ensures
            phase == self@.phase,
    {
        self.phase
    }

    /// Whether a session is active.
    pub fn is_active(&self) -> (active: bool)
        ensures
            active == (self@.phase == Phase::Active),
            active == (self@.session is Some),
    {
        proof {
            use_type_invariant(self);
        }
        self.phase == Phase::Active
    }

    /// The active session, if there is one.
    pub fn session(&self) -> (session: Option<&Session<E>>)
        ensures
            match session {
                Some(session) => self@.session == Some(*session),
                None => self@.session is None,
            },
    {
        self.session.as_ref()
    }

    /// Takes a launch request: says what it has to do, and enters the
    /// initializing phase if a session has to be made.
    pub fn begin_launch(&mut self) -> (step: LaunchStep)
        ensures
            (final(self)@, step) == old(self)@.begin_launch(),
            final(self)@.well_formed(),
    {
        proof {
            use_type_invariant(&*self);
        }
        match self.phase {
            Phase::Uninitialized => {
                self.phase = Phase::Initializing;
                LaunchStep::Provision
            },
            Phase::Active => LaunchStep::Reuse,
            _ => LaunchStep::Busy,
        }
    }

    /// Ends a launch that succeeded: the session becomes the active one. If
    /// the manager was not initializing, nothing changes and the session is
    /// handed back.
    pub fn commit(&mut self, session: Session<E>) -> (rejected: Option<Session<E>>)
        ensures
            (final(self)@, rejected) == old(self)@.commit(session),
            final(self)@.well_formed(),
    {
        proof {
            use_type_invariant(&*self);
        }
        if self.phase == Phase::Initializing {
            *self = Lifecycle { phase: Phase::Active, session: Some(session) };
            None
        } else {
            Some(session)
        }
    }

    /// Ends a launch that failed: the manager is uninitialized again, and no
    /// part of a session stays behind.
    pub fn abort_launch(&mut self)
        ensures
            final(self)@ == old(self)@.abort_launch(),
            final(self)@.well_formed(),
    {
        proof {
            use_type_invariant(&*self);
        }
        if self.phase == Phase::Initializing {
            self.phase = Phase::Uninitialized;
        }
    }

    /// Takes a close request. With an active session, the session is taken
    /// out and handed over with what tears it down; without one, nothing
    /// changes and there is nothing to tear down.
    pub fn begin_close(&mut self) -> (teardown: Option<Teardown<E>>)
        ensures
            final(self)@ == old(self)@.begin_close().0,
            final(self)@.well_formed(),
            match teardown {
                Some(teardown) => {
                    &&& old(self)@.begin_close().1 == Some(teardown.session)
                    &&& teardown.quit.deep_view() == spec_quit()
                    &&& teardown.removal@ == spec_removal_plan()
                },
                None => old(self)@.begin_close().1 is None,
            },
    {
        proof {
            use_type_invariant(&*self);
        }
        if self.phase == Phase::Active {
            let mut taken = Lifecycle { phase: Phase::Closing, session: None };
            core::mem::swap(self, &mut taken);
            match taken.session {
                Some(session) => Some(Teardown { session, quit: quit_command(), removal: removal_plan() }),
                None => None,
            }
        } else {
            None
        }
    }

    /// Ends a close: the manager is uninitialized again.
    pub fn finish_close(&mut self)
        ensures
            final(self)@ == old(self)@.finish_close(),
            final(self)@.well_formed(),
    {
        proof {
            use_type_invariant(&*self);
        }
        if self.phase == Phase::Closing {
            self.phase = Phase::Uninitialized;
        }
    }

    /// The steps that bring the surface in step with the window: those of
    /// the kind that the active session is bound to, and none without a
    /// session.
    pub fn resize_plan(&self) -> (plan: Vec<SurfaceOp>)
        ensures
            plan@ == spec_resize_plan(self@.bound_kind()),
            self@.session is None ==> plan@.len() == 0,
    {
        match &self.session {
            Some(session) => resize_plan(Some(session.bound.kind)),
            None => resize_plan(None),
        }
    }

    /// Notes the quality profile that was just applied to the active
    /// session. Without a session nothing is noted.
    pub fn note_quality(&mut self, profile: QualityProfile)
        ensures
            final(self)@.phase == old(self)@.phase,
            match old(self)@.session {
                Some(session) => final(self)@.session == Some(
                    Session { quality: Some(profile), ..session },
                ),
                None => final(self)@.session is None,
            },
    {
        proof {
            use_type_invariant(&*self);
        }
        if self.phase == Phase::Active {
            let mut taken = Lifecycle { phase: Phase::Uninitialized, session: None };
            core::mem::swap(self, &mut taken);
            match taken.session {
                Some(session) => {
                    let mut noted = Lifecycle {
                        phase: Phase::Active,
                        session: Some(Session { quality: Some(profile), ..session }),
                    };
                    core::mem::swap(self, &mut noted);
                },
                None => {},
            }
        }
    }
}

} // verus!
