//! The options applied to an engine before it starts, as a decision list.
//!
//! Each step sets one option and says where the attempt goes when the engine
//! accepts it and when it rejects it. The caller sets the option and reports
//! the answer; the list decides what follows. An attempt that runs past the
//! last step is accepted.

use vstd::prelude::*;
use crate::backend::{BackendProfile, Candidate, GpuApi, HwDecode, Strictness};
use crate::port::{Key, Scalar, Setting, Word};

verus! {

/// Where an attempt goes after one step.
#[derive(Clone, Copy, Debug, PartialEq, Eq, Structural)]
pub enum Next {
    /// On to the step that many places further down; 1 is the next step.
    Forward(usize),
    /// The attempt fails.
    Reject,
}

/// One step of a plan: a setting and what follows either answer.
#[derive(Clone, Copy, Debug, PartialEq, Eq, Structural)]
pub struct PlanStep {
    pub setting: Setting,
    pub on_accept: Next,
    pub on_reject: Next,
}

/// Where an attempt stands.
#[derive(Clone, Copy, Debug, PartialEq, Eq, Structural)]
pub enum Position {
    /// The step with this index is to be tried next.
    At(usize),
    /// Every step that had to be accepted was: the engine may start.
    Accepted,
    /// A required option was rejected: the attempt has failed.
    Rejected,
}

/// A step whose rejection is ignored.
pub open spec fn lenient(key: Key, value: Scalar) -> PlanStep {
    PlanStep { setting: Setting { key, value }, on_accept: Next::Forward(1), on_reject: Next::Forward(1) }
}

/// A step whose rejection fails the attempt at once.
pub open spec fn required(key: Key, value: Scalar) -> PlanStep {
    PlanStep { setting: Setting { key, value }, on_accept: Next::Forward(1), on_reject: Next::Reject }
}

/// A step with the given continuations.
pub open spec fn branch(key: Key, value: Scalar, on_accept: Next, on_reject: Next) -> PlanStep {
    PlanStep { setting: Setting { key, value }, on_accept, on_reject }
}

/// The steps that every plan starts with: configuration files and scripts
/// are switched off, then the surface is bound as the window token. Without
/// the token there is nowhere to render, so its rejection fails the attempt.
pub open spec fn spec_prelude(token: i64) -> Seq<PlanStep> {
    seq![
        lenient(Key::Config, Scalar::Word(Word::No)),
        lenient(Key::LoadScripts, Scalar::Word(Word::No)),
        required(Key::WindowId, Scalar::Integer(token)),
    ]
}

/// The step that sets the profile's API, where it names one.
pub open spec fn spec_api_step(api: Option<GpuApi>, step: spec_fn(Scalar) -> PlanStep) -> Seq<PlanStep> {
    match api {
        Some(api) => seq![step(Scalar::Word(api.spec_word()))],
        None => seq![],
    }
}

/// The steps that apply a profile's output, API and context.
pub open spec fn spec_gpu_steps(profile: BackendProfile, strictness: Strictness) -> Seq<PlanStep> {
    let output = Scalar::Word(profile.output.spec_word());
    let context = Scalar::Word(profile.context.spec_word());
    let lenient_api = spec_api_step(profile.api, |v: Scalar| lenient(Key::GpuApi, v));
    match strictness {
        Strictness::Lenient => seq![lenient(Key::VideoOutput, output)] + lenient_api + seq![
            lenient(Key::GpuContext, context),
        ],
        Strictness::RequireOutput => seq![required(Key::VideoOutput, output)] + lenient_api + seq![
            lenient(Key::GpuContext, context),
        ],
        Strictness::RequireOutputAndContext => seq![required(Key::VideoOutput, output)]
            + lenient_api + seq![required(Key::GpuContext, context)],
        Strictness::RequirePair => seq![lenient(Key::VideoOutput, output)] + spec_api_step(
            profile.api,
            |v: Scalar| branch(Key::GpuApi, v, Next::Forward(1), Next::Forward(2)),
        ) + seq![
            branch(Key::GpuContext, context, Next::Forward(2), Next::Reject),
            branch(Key::GpuContext, context, Next::Reject, Next::Reject),
        ],
        Strictness::FallBack(api, ctx) => seq![lenient(Key::VideoOutput, output)] + spec_api_step(
            profile.api,
            |v: Scalar| branch(Key::GpuApi, v, Next::Forward(1), Next::Forward(2)),
        ) + seq![
            branch(Key::GpuContext, context, Next::Forward(3), Next::Forward(1)),
            lenient(Key::GpuApi, Scalar::Word(api.spec_word())),
            lenient(Key::GpuContext, Scalar::Word(ctx.spec_word())),
        ],
    }
}

/// The steps that every plan ends with: hardware decoding, and the engine's
/// own window behaviour, key bindings and on-screen controls switched off.
/// None of them is required.
pub open spec fn spec_epilogue(hwdec: HwDecode) -> Seq<PlanStep> {
    seq![
        lenient(Key::HwDecode, Scalar::Word(hwdec.spec_word())),
        lenient(Key::KeepAspectWindow, Scalar::Word(Word::No)),
        lenient(Key::InputDefaultBindings, Scalar::Word(Word::No)),
        lenient(Key::InputVoKeyboard, Scalar::Word(Word::No)),
        lenient(Key::OnScreenController, Scalar::Word(Word::No)),
        lenient(Key::Terminal, Scalar::Word(Word::Yes)),
    ]
}

/// The whole plan of a candidate bound to a window token.
pub open spec fn spec_plan(candidate: Candidate, token: i64) -> Seq<PlanStep> {
    spec_prelude(token) + spec_gpu_steps(candidate.profile, candidate.strictness) + spec_epilogue(
        candidate.profile.hwdec,
    )
}

/// The plan that binds the layer to Vulkan alone, with the layer's address
/// written as text. Nothing in it is required: the engine is started
/// whatever it makes of the options.
pub open spec fn spec_vulkan_plan(layer: usize) -> Seq<PlanStep> {
    seq![
        lenient(Key::Config, Scalar::Word(Word::No)),
        lenient(Key::WindowId, Scalar::Address(layer)),
        lenient(Key::VideoOutput, Scalar::Word(Word::GpuNext)),
        lenient(Key::GpuApi, Scalar::Word(Word::Vulkan)),
        lenient(Key::GpuContext, Scalar::Word(Word::MoltenVk)),
        lenient(Key::HwDecode, Scalar::Word(Word::Auto)),
    ]
}

/// Where a step's continuation leads from the step with index `at`.
pub open spec fn spec_follow(steps: Seq<PlanStep>, at: int, next: Next) -> Position {
    match next {
        Next::Reject => Position::Rejected,
        Next::Forward(by) => if at + by < steps.len() {
            Position::At((at + by) as usize)
        } else {
            Position::Accepted
        },
    }
}

/// Where an attempt stands after the engine answered the step it stood at. An
/// attempt that is over stays where it is.
pub open spec fn spec_advance(steps: Seq<PlanStep>, position: Position, accepted: bool) -> Position {
    match position {
        Position::At(at) => if at < steps.len() {
            spec_follow(
                steps,
                at as int,
                if accepted {
                    steps[at as int].on_accept
                } else {
                    steps[at as int].on_reject
                },
            )
        } else {
            Position::Accepted
        },
        over => over,
    }
}

/// Where an attempt starts.
pub open spec fn spec_start(steps: Seq<PlanStep>) -> Position {
    if steps.len() > 0 {
        Position::At(0)
    } else {
        Position::Accepted
    }
}

/// Whether every continuation of a plan leads forward, so that no step is
/// tried twice and every attempt ends.
pub open spec fn well_formed(steps: Seq<PlanStep>) -> bool {
    &&& steps.len() <= usize::MAX
    &&& forall|i: int|
        0 <= i < steps.len() ==> {
            &&& (#[trigger] steps[i]).on_accept matches Next::Forward(by) ==> 1 <= by <= steps.len() - i
            &&& steps[i].on_reject matches Next::Forward(by) ==> 1 <= by <= steps.len() - i
        }
}

/// How an attempt ends that stands at `position`, where `answers(i)` says
/// whether the engine accepts the setting of step `i`: `true` when the engine
/// may start.
pub open spec fn spec_verdict(steps: Seq<PlanStep>, position: Position, answers: spec_fn(int) -> bool) -> bool
    decreases
        (match position {
            Position::At(at) => steps.len() - at,
            _ => 0,
        }),
{
    match position {
        Position::Accepted => true,
        Position::Rejected => false,
        Position::At(at) => {
            let after = spec_advance(steps, position, answers(at as int));
            if at < steps.len() && (after matches Position::At(to) ==> at < to) {
                spec_verdict(steps, after, answers)
            } else {
                false
            }
        },
    }
}

/// An ordered plan of option settings for one initialization attempt.
#[derive(Clone, Debug, PartialEq, Eq)]
pub struct InitPlan {
    pub steps: Vec<PlanStep>,
}

impl View for InitPlan {
    type V = Seq<PlanStep>;

    open spec fn view(&self) -> Seq<PlanStep> {
        self.steps@
    }
}

fn lenient_step(key: Key, value: Scalar) -> (step: PlanStep)
    ensures
        step == lenient(key, value),
{
    PlanStep { setting: Setting { key, value }, on_accept: Next::Forward(1), on_reject: Next::Forward(1) }
}

fn required_step(key: Key, value: Scalar) -> (step: PlanStep)
    ensures
        step == required(key, value),
{
    PlanStep { setting: Setting { key, value }, on_accept: Next::Forward(1), on_reject: Next::Reject }
}

fn branch_step(key: Key, value: Scalar, on_accept: Next, on_reject: Next) -> (step: PlanStep)
    ensures
        step == branch(key, value, on_accept, on_reject),
{
    PlanStep { setting: Setting { key, value }, on_accept, on_reject }
}

/// Appends the steps that apply a profile's output, API and context.
fn push_gpu_steps(steps: &mut Vec<PlanStep>, profile: BackendProfile, strictness: Strictness)
    ensures
        final(steps)@ == old(steps)@ + spec_gpu_steps(profile, strictness),
{
    let output = Scalar::Word(profile.output.word());
    let context = Scalar::Word(profile.context.word());
    match strictness {
        Strictness::Lenient => {
            steps.push(lenient_step(Key::VideoOutput, output));
            if let Some(api) = profile.api {
                steps.push(lenient_step(Key::GpuApi, Scalar::Word(api.word())));
            }
            steps.push(lenient_step(Key::GpuContext, context));
        },
        Strictness::RequireOutput => {
            steps.push(required_step(Key::VideoOutput, output));
            if let Some(api) = profile.api {
                steps.push(lenient_step(Key::GpuApi, Scalar::Word(api.word())));
            }
            steps.push(lenient_step(Key::GpuContext, context));
        },
        Strictness::RequireOutputAndContext => {
            steps.push(required_step(Key::VideoOutput, output));
            if let Some(api) = profile.api {
                steps.push(lenient_step(Key::GpuApi, Scalar::Word(api.word())));
            }
            steps.push(required_step(Key::GpuContext, context));
        },
        Strictness::RequirePair => {
            steps.push(lenient_step(Key::VideoOutput, output));
            if let Some(api) = profile.api {
                steps.push(
                    branch_step(Key::GpuApi, Scalar::Word(api.word()), Next::Forward(1), Next::Forward(2)),
                );
            }
            steps.push(branch_step(Key::GpuContext, context, Next::Forward(2), Next::Reject));
            steps.push(branch_step(Key::GpuContext, context, Next::Reject, Next::Reject));
        },
        Strictness::FallBack(api, ctx) => {
            steps.push(lenient_step(Key::VideoOutput, output));
            if let Some(first) = profile.api {
                steps.push(
                    branch_step(Key::GpuApi, Scalar::Word(first.word()), Next::Forward(1), Next::Forward(2)),
                );
            }
            steps.push(branch_step(Key::GpuContext, context, Next::Forward(3), Next::Forward(1)));
            steps.push(lenient_step(Key::GpuApi, Scalar::Word(api.word())));
            steps.push(lenient_step(Key::GpuContext, Scalar::Word(ctx.word())));
        },
    }
    assert(steps@ =~= old(steps)@ + spec_gpu_steps(profile, strictness));
}

/// Every plan of a candidate is well formed.
pub proof fn lemma_plan_well_formed(candidate: Candidate, token: i64)
    ensures
        well_formed(spec_plan(candidate, token)),
{
    let steps = spec_plan(candidate, token);
    let gpu = spec_gpu_steps(candidate.profile, candidate.strictness);
    assert(spec_prelude(token).len() == 3);
    assert(spec_epilogue(candidate.profile.hwdec).len() == 6);
    assert(steps.len() == 9 + gpu.len());
    assert forall|i: int| 0 <= i < steps.len() implies {
        &&& (#[trigger] steps[i]).on_accept matches Next::Forward(by) ==> 1 <= by <= steps.len() - i
        &&& steps[i].on_reject matches Next::Forward(by) ==> 1 <= by <= steps.len() - i
    } by {
        if i < 3 {
            assert(steps[i] == spec_prelude(token)[i]);
        } else if i < 3 + gpu.len() {
            assert(steps[i] == gpu[i - 3]);
        } else {
            assert(steps[i] == spec_epilogue(candidate.profile.hwdec)[i - 3 - gpu.len()]);
        }
    }
}

/// Whether an attempt with a candidate's plan succeeds, said without the
/// plan: the window token must be accepted, and beyond it only what the
/// candidate's strictness requires. `answers(i)` is the engine's answer to
/// step `i` of the plan.
pub open spec fn spec_candidate_verdict(candidate: Candidate, answers: spec_fn(int) -> bool) -> bool {
    let context_at = if candidate.profile.api is Some {
        5int
    } else {
        4int
    };
    answers(2) && match candidate.strictness {
        Strictness::Lenient => true,
        Strictness::RequireOutput => answers(3),
        Strictness::RequireOutputAndContext => answers(3) && answers(context_at),
        Strictness::RequirePair => (candidate.profile.api is Some ==> answers(4)) && answers(context_at),
        Strictness::FallBack(_, _) => true,
    }
}

/// One answer takes an attempt one step on, and the attempt ends as it ends
/// from there.
pub proof fn lemma_verdict_step(steps: Seq<PlanStep>, at: usize, answers: spec_fn(int) -> bool)
    requires
        well_formed(steps),
        at < steps.len(),
    ensures
        spec_verdict(steps, Position::At(at), answers) == spec_verdict(
            steps,
            spec_advance(steps, Position::At(at), answers(at as int)),
            answers,
        ),
{
    assert(steps[at as int] == steps[at as int]);
}

/// From a step on after which nothing is required, an attempt succeeds
/// whatever the engine answers.
pub proof fn lemma_nothing_required(steps: Seq<PlanStep>, from: usize, answers: spec_fn(int) -> bool)
    requires
        well_formed(steps),
        from < steps.len(),
        forall|i: int|
            from <= i < steps.len() ==> (#[trigger] steps[i]).on_accept == Next::Forward(1)
                && steps[i].on_reject == Next::Forward(1),
    ensures
        spec_verdict(steps, Position::At(from), answers),
    decreases steps.len() - from,
{
    lemma_verdict_step(steps, from, answers);
    assert(steps[from as int].on_accept == Next::Forward(1));
    if from + 1 < steps.len() {
        lemma_nothing_required(steps, (from + 1) as usize, answers);
    }
}

/// An attempt with a candidate's plan ends as the candidate's strictness
/// says: the plan encodes no other reason to fail, and none to succeed.
pub proof fn lemma_plan_verdict(candidate: Candidate, token: i64, answers: spec_fn(int) -> bool)
    ensures
        spec_verdict(spec_plan(candidate, token), spec_start(spec_plan(candidate, token)), answers)
            == spec_candidate_verdict(candidate, answers),
{
    let steps = spec_plan(candidate, token);
    let gpu = spec_gpu_steps(candidate.profile, candidate.strictness);
    let tail = spec_epilogue(candidate.profile.hwdec);
    lemma_plan_well_formed(candidate, token);
    assert(spec_prelude(token).len() == 3);
    assert(tail.len() == 6);
    assert(steps.len() == 9 + gpu.len());
    assert forall|i: int| 0 <= i < 3 implies steps[i] == spec_prelude(token)[i] by {}
    assert forall|i: int| 3 <= i < 3 + gpu.len() implies steps[i] == gpu[i - 3] by {}
    assert forall|i: int| 3 + gpu.len() <= i < steps.len() implies steps[i] == tail[i - 3 - gpu.len()] by {}
    let rest = (3 + gpu.len()) as usize;
    assert forall|i: int| rest <= i < steps.len() implies (#[trigger] steps[i]).on_accept
        == Next::Forward(1) && steps[i].on_reject == Next::Forward(1) by {
        assert(steps[i] == tail[i - 3 - gpu.len()]);
    }
    lemma_nothing_required(steps, rest, answers);
    lemma_verdict_step(steps, 0, answers);
    lemma_verdict_step(steps, 1, answers);
    lemma_verdict_step(steps, 2, answers);
    lemma_verdict_step(steps, 3, answers);
    lemma_verdict_step(steps, 4, answers);
    lemma_verdict_step(steps, 5, answers);
    lemma_verdict_step(steps, 6, answers);
    lemma_verdict_step(steps, 7, answers);
    assert(steps[0] == spec_prelude(token)[0]);
    assert(steps[1] == spec_prelude(token)[1]);
    assert(steps[2] == spec_prelude(token)[2]);
    assert(steps[3] == gpu[0]);
    assert(steps[4] == gpu[1]);
    if gpu.len() > 2 {
        assert(steps[5] == gpu[2]);
    }
    if gpu.len() > 3 {
        assert(steps[6] == gpu[3]);
    }
    if gpu.len() > 4 {
        assert(steps[7] == gpu[4]);
    }
}

impl InitPlan {
    /// The plan of a candidate bound to a window token.
    pub fn for_candidate(candidate: Candidate, token: i64) -> (plan: InitPlan)
        ensures
            plan@ == spec_plan(candidate, token),
            well_formed(plan@),
    {
        let no = Scalar::Word(Word::No);
        let mut steps: Vec<PlanStep> = Vec::new();
        steps.push(lenient_step(Key::Config, no));
        steps.push(lenient_step(Key::LoadScripts, no));
        steps.push(required_step(Key::WindowId, Scalar::Integer(token)));
        assert(steps@ =~= spec_prelude(token));
        push_gpu_steps(&mut steps, candidate.profile, candidate.strictness);
        let ghost body = steps@;
        steps.push(lenient_step(Key::HwDecode, Scalar::Word(candidate.profile.hwdec.word())));
        steps.push(lenient_step(Key::KeepAspectWindow, no));
        steps.push(lenient_step(Key::InputDefaultBindings, no));
        steps.push(lenient_step(Key::InputVoKeyboard, no));
        steps.push(lenient_step(Key::OnScreenController, no));
        steps.push(lenient_step(Key::Terminal, Scalar::Word(Word::Yes)));
        assert(steps@ =~= body + spec_epilogue(candidate.profile.hwdec));
        proof {
            lemma_plan_well_formed(candidate, token);
        }
        InitPlan { steps }
    }

    /// The plan that binds the layer to Vulkan alone. Every attempt with it
    /// is accepted.
    pub fn vulkan_only(layer: usize) -> (plan: InitPlan)
        ensures
            plan@ == spec_vulkan_plan(layer),
            well_formed(plan@),
            forall|answers: spec_fn(int) -> bool| spec_verdict(plan@, spec_start(plan@), answers),
    {
        let mut steps: Vec<PlanStep> = Vec::new();
        steps.push(lenient_step(Key::Config, Scalar::Word(Word::No)));
        steps.push(lenient_step(Key::WindowId, Scalar::Address(layer)));
        steps.push(lenient_step(Key::VideoOutput, Scalar::Word(Word::GpuNext)));
        steps.push(lenient_step(Key::GpuApi, Scalar::Word(Word::Vulkan)));
        steps.push(lenient_step(Key::GpuContext, Scalar::Word(Word::MoltenVk)));
        steps.push(lenient_step(Key::HwDecode, Scalar::Word(Word::Auto)));
        assert(steps@ =~= spec_vulkan_plan(layer));
        proof {
            assert forall|answers: spec_fn(int) -> bool| spec_verdict(steps@, spec_start(steps@), answers) by {
                lemma_nothing_required(steps@, 0, answers);
            }
        }
        InitPlan { steps }
    }

    /// Where an attempt with this plan starts.
    pub fn start(&self) -> (position: Position)
        ensures
            position == spec_start(self@),
    {
        if self.steps.len() > 0 {
            Position::At(0)
        } else {
            Position::Accepted
        }
    }

    /// The setting to try at a position, if the attempt is not over.
    pub fn pending(&self, position: Position) -> (setting: Option<Setting>)
        ensures
            setting == (match position {
                Position::At(at) if at < self@.len() => Some(self@[at as int].setting),
                _ => None,
            }),
    {
        match position {
            Position::At(at) => if at < self.steps.len() {
                Some(self.steps[at].setting)
            } else {
                None
            },
            _ => None,
        }
    }

    /// Where the attempt stands after the engine answered the pending
    /// setting: `accepted` says whether it took it.
    pub fn advance(&self, position: Position, accepted: bool) -> (after: Position)
        ensures
            after == spec_advance(self@, position, accepted),
    {
        match position {
            Position::At(at) => if at < self.steps.len() {
                let step = self.steps[at];
                let next = if accepted {
                    step.on_accept
                } else {
                    step.on_reject
                };
                match next {
                    Next::Reject => Position::Rejected,
                    Next::Forward(by) => if by < self.steps.len() - at {
                        Position::At(at + by)
                    } else {
                        Position::Accepted
                    },
                }
            } else {
                Position::Accepted
            },
            over => over,
        }
    }
}

} // verus!
