//! A model of the files that operations work on, and what the overwrite
//! policy guarantees of them: of one operation, and of a whole plan.
//!
//! The model knows the texts of the files, the directories, and the texts of
//! the bundled templates. It answers the effects of an operation as a
//! faithful driver would. What a program does when it is run is not
//! modelled: in the model, running a program changes nothing.
//!
//! A run of an operation, and a run of a plan, is the sequence of effects
//! that the machine asks for when each reply is the model's. The laws say
//! when the user is asked, what is removed and written, and that a plan
//! whose operations find nothing to overwrite asks no question from its
//! first move to its last.

use vstd::assert_by_contradiction;
use vstd::prelude::*;
use crate::operation::{
    ActionModel,
    EffectModel,
    Guard,
    OperationModel,
    OutcomeModel,
    Removal,
    ReplyModel,
    StageModel,
};
use crate::plan::{entering, moving, PlanStateModel, PlanStepModel, ProgressModel};
use crate::text::replaced;

verus! {

/// The files, directories and bundled templates.
pub struct World {
    /// The text of each file, by path.
    pub files: Map<Seq<char>, Seq<char>>,
    /// The paths of the directories.
    pub directories: Set<Seq<char>>,
    /// The text of each bundled template, by its path among the templates.
    pub templates: Map<Seq<char>, Seq<char>>,
}

impl World {
    /// Whether a file or directory is at the path.
    pub open spec fn holds(self, path: Seq<char>) -> bool {
        self.files.dom().contains(path) || self.directories.contains(path)
    }

    /// The world after the effect was performed.
    pub open spec fn after(self, effect: EffectModel) -> World {
        match effect {
            EffectModel::RemoveFile { path } => World { files: self.files.remove(path), ..self },
            EffectModel::RemoveDirectory { path } => World {
                directories: self.directories.remove(path),
                ..self
            },
            EffectModel::CreateDirectory { path } => World {
                directories: self.directories.insert(path),
                ..self
            },
            EffectModel::CopyTemplate { template, to } => World {
                files: self.files.insert(to, self.templates[template]),
                ..self
            },
            EffectModel::WriteFile { path, content } => World {
                files: self.files.insert(path, content),
                ..self
            },
            _ => self,
        }
    }

    /// The world after the effects were performed, one after the other.
    pub open spec fn after_all(self, effects: Seq<EffectModel>) -> World
        decreases effects.len(),
    {
        if effects.len() == 0 {
            self
        } else {
            self.after(effects[0]).after_all(effects.skip(1))
        }
    }

    /// The reply to the effect, where the user answers `answer` when asked.
    pub open spec fn reply(self, effect: EffectModel, answer: bool) -> ReplyModel {
        match effect {
            EffectModel::Probe { path } => ReplyModel::Exists(self.holds(path)),
            EffectModel::AskOverwrite => ReplyModel::Answer(answer),
            EffectModel::ReadTemplate { template } => ReplyModel::Content(self.templates[template]),
            EffectModel::ReadFile { path } => ReplyModel::Content(self.files[path]),
            _ => ReplyModel::Done,
        }
    }
}

/// How a run of an operation ended.
pub struct RunEnd {
    /// The stage the operation ended at.
    pub stage: StageModel,
    /// The world it left.
    pub world: World,
    /// The effects that were performed, in order.
    pub trace: Seq<EffectModel>,
}

impl RunEnd {
    /// Whether the user was asked.
    pub open spec fn asked(self) -> bool {
        self.trace.contains(EffectModel::AskOverwrite)
    }
}

impl OperationModel {
    /// The run of the operation from `stage` on `reply`, for `steps` steps
    /// at most, in a world where the user answers `answer` when asked;
    /// `trace` holds the effects performed before.
    pub open spec fn run(
        self,
        stage: StageModel,
        reply: ReplyModel,
        world: World,
        answer: bool,
        trace: Seq<EffectModel>,
        steps: nat,
    ) -> RunEnd
        decreases steps,
    {
        let step = self.step(stage, reply, false);
        if steps == 0 || step.effect is Finished {
            RunEnd { stage: step.stage, world, trace }
        } else {
            self.run(
                step.stage,
                world.reply(step.effect, answer),
                world.after(step.effect),
                answer,
                trace.push(step.effect),
                (steps - 1) as nat,
            )
        }
    }

    /// The whole run of the operation. No operation takes more than seven
    /// steps.
    pub open spec fn performed(self, world: World, answer: bool) -> RunEnd {
        self.run(StageModel::Start, ReplyModel::Begin, world, answer, Seq::empty(), 8)
    }

    /// The effects of the work itself, once the operation may act, where
    /// `text` is what the template or document holds.
    pub open spec fn work(self, text: Seq<char>) -> Seq<EffectModel> {
        match self.action {
            ActionModel::CopyTemplate { template } => seq![
                EffectModel::CopyTemplate { template, to: self.target },
            ],
            ActionModel::RenderTemplate { template, token, value } => seq![
                EffectModel::ReadTemplate { template },
                EffectModel::WriteFile { path: self.target, content: replaced(text, token, value) },
            ],
            ActionModel::Run(invocation) => seq![EffectModel::Run(invocation)],
            ActionModel::CreateDirectory => seq![
                EffectModel::CreateDirectory { path: self.target },
            ],
            ActionModel::Patch(patch) => match patch.applied(text) {
                Ok(content) => seq![
                    EffectModel::ReadFile { path: self.target },
                    EffectModel::WriteFile { path: self.target, content },
                ],
                Err(_) => seq![EffectModel::ReadFile { path: self.target }],
            },
        }
    }

    /// What the work reads: the text of the template or of the document.
    pub open spec fn source(self, world: World) -> Seq<char> {
        match self.action {
            ActionModel::CopyTemplate { template } => world.templates[template],
            ActionModel::RenderTemplate { template, .. } => world.templates[template],
            ActionModel::Patch(_) => world.files[self.target],
            _ => Seq::empty(),
        }
    }

    /// Whether the operation materializes a template under the overwrite
    /// policy.
    pub open spec fn is_materialization(self) -> bool {
        &&& self.guard is Overwrite
        &&& self.removal == Removal::File
        &&& (self.action is CopyTemplate || self.action is RenderTemplate)
    }

    /// The text that a materialization gives its target: the template's
    /// text, with the token replaced where the template is filled in.
    pub open spec fn materialized(self, world: World) -> Seq<char> {
        match self.action {
            ActionModel::CopyTemplate { template } => world.templates[template],
            ActionModel::RenderTemplate { template, token, value } => replaced(
                world.templates[template],
                token,
                value,
            ),
            _ => Seq::empty(),
        }
    }
}

/// The stage and the effect of a step do not depend on whether the output
/// is decorated.
pub proof fn lemma_step_ignores_decoration(
    operation: OperationModel,
    stage: StageModel,
    reply: ReplyModel,
)
    ensures
        operation.step(stage, reply, true).stage == operation.step(stage, reply, false).stage,
        operation.step(stage, reply, true).effect == operation.step(stage, reply, false).effect,
{
}

/// An operation that begins asks for something: no operation is over before
/// its first effect.
pub proof fn lemma_first_step_asks(operation: OperationModel, is_tty: bool)
    ensures
        !(operation.step(StageModel::Start, ReplyModel::Begin, is_tty).effect is Finished),
{
}

/// How the work ends: completed, or failed where a JSON document cannot be
/// changed.
pub open spec fn work_outcome(operation: OperationModel, text: Seq<char>) -> OutcomeModel {
    match operation.action {
        ActionModel::Patch(patch) => match patch.applied(text) {
            Ok(_) => OutcomeModel::Completed,
            Err(error) => OutcomeModel::Failed(error),
        },
        _ => OutcomeModel::Completed,
    }
}

/// From the step that begins the work, the operation performs the effects
/// of the work and nothing else, and ends as the work ends.
pub proof fn lemma_work_run(
    operation: OperationModel,
    stage: StageModel,
    reply: ReplyModel,
    world: World,
    answer: bool,
    trace: Seq<EffectModel>,
    steps: nat,
)
    requires
        steps >= 3,
        operation.step(stage, reply, false).stage == operation.working(Seq::empty()).stage,
        operation.step(stage, reply, false).effect == operation.working(Seq::empty()).effect,
    ensures
        operation.run(stage, reply, world, answer, trace, steps).trace == trace + operation.work(
            operation.source(world),
        ),
        operation.run(stage, reply, world, answer, trace, steps).world == world.after_all(
            operation.work(operation.source(world)),
        ),
        operation.run(stage, reply, world, answer, trace, steps).stage == StageModel::Finished(
            work_outcome(operation, operation.source(world)),
        ),
{
    reveal_with_fuel(OperationModel::run, 4);
    reveal_with_fuel(World::after_all, 3);
    let end = operation.run(stage, reply, world, answer, trace, steps);
    let work = operation.work(operation.source(world));
    assert(end.trace =~= trace + work);
    match operation.action {
        ActionModel::CopyTemplate { .. } => {
            assert(work.skip(1) =~= Seq::empty());
        },
        ActionModel::RenderTemplate { .. } => {
            assert(work.skip(1).skip(1) =~= Seq::empty());
        },
        ActionModel::Run(_) => {
            assert(work.skip(1) =~= Seq::empty());
        },
        ActionModel::CreateDirectory => {
            assert(work.skip(1) =~= Seq::empty());
        },
        ActionModel::Patch(patch) => {
            if patch.applied(operation.source(world)) is Ok {
                assert(work.skip(1).skip(1) =~= Seq::empty());
            } else {
                assert(work.skip(1) =~= Seq::empty());
            }
        },
    }
}

/// Under the overwrite policy, where the target does not exist, the
/// operation probes the target and does its work, and nothing else: the
/// user is not asked and nothing is removed.
pub proof fn lemma_absent_target_trace(operation: OperationModel, world: World, answer: bool)
    requires
        operation.guard is Overwrite,
        !world.holds(operation.target),
    ensures
        operation.performed(world, answer).trace == seq![
            EffectModel::Probe { path: operation.target },
        ] + operation.work(operation.source(world)),
        operation.performed(world, answer).world == world.after_all(
            operation.work(operation.source(world)),
        ),
        operation.performed(world, answer).stage == StageModel::Finished(
            work_outcome(operation, operation.source(world)),
        ),
        !operation.performed(world, answer).asked(),
{
    let probe = EffectModel::Probe { path: operation.target };
    reveal_with_fuel(OperationModel::run, 2);
    lemma_work_run(
        operation,
        StageModel::Probing,
        ReplyModel::Exists(false),
        world,
        answer,
        seq![probe],
        7,
    );
    let expected = seq![probe] + operation.work(operation.source(world));
    assert(Seq::<EffectModel>::empty().push(probe) =~= seq![probe]);
    assert forall|i: int| 0 <= i < expected.len() implies expected[i]
        != EffectModel::AskOverwrite by {}
}

/// Under the overwrite policy, where the target exists, the operation is
/// not forced and the user declines, the operation probes the target and
/// asks the user, and nothing else: nothing is removed, written or run, and
/// the operation ends without a failure.
pub proof fn lemma_declined_trace(operation: OperationModel, world: World)
    requires
        operation.guard == (Guard::Overwrite { force: false }),
        world.holds(operation.target),
    ensures
        operation.performed(world, false).trace == seq![
            EffectModel::Probe { path: operation.target },
            EffectModel::AskOverwrite,
        ],
        operation.performed(world, false).stage == StageModel::Finished(OutcomeModel::Skipped),
        operation.performed(world, false).world == world,
        operation.performed(world, false).asked(),
{
    reveal_with_fuel(OperationModel::run, 8);
    let end = operation.performed(world, false);
    let expected = seq![EffectModel::Probe { path: operation.target }, EffectModel::AskOverwrite];
    assert(end.trace =~= expected);
    assert(expected[1] == EffectModel::AskOverwrite);
}

/// Under the overwrite policy, where the target exists and the operation
/// is forced or the user agrees, the operation probes the target, asks the
/// user unless it is forced, removes the target and does its work.
pub proof fn lemma_overwriting_trace(operation: OperationModel, world: World, answer: bool)
    requires
        operation.guard is Overwrite,
        world.holds(operation.target),
        operation.guard == (Guard::Overwrite { force: true }) || answer,
    ensures
        operation.performed(world, answer).trace == seq![
            EffectModel::Probe { path: operation.target },
        ] + (if operation.guard == (Guard::Overwrite { force: true }) {
            Seq::empty()
        } else {
            seq![EffectModel::AskOverwrite]
        }) + seq![operation.removing()] + operation.work(
            operation.source(world.after(operation.removing())),
        ),
        operation.performed(world, answer).world == world.after(operation.removing()).after_all(
            operation.work(operation.source(world.after(operation.removing()))),
        ),
        operation.performed(world, answer).stage == StageModel::Finished(
            work_outcome(operation, operation.source(world.after(operation.removing()))),
        ),
        operation.performed(world, answer).asked() == (operation.guard != Guard::Overwrite {
            force: true,
        }),
{
    let probe = EffectModel::Probe { path: operation.target };
    let bare = world.after(operation.removing());
    let work = operation.work(operation.source(bare));
    reveal_with_fuel(OperationModel::run, 4);
    assert(Seq::<EffectModel>::empty().push(probe) =~= seq![probe]);
    if operation.guard == (Guard::Overwrite { force: true }) {
        let before = seq![probe, operation.removing()];
        assert(seq![probe].push(operation.removing()) =~= before);
        lemma_work_run(operation, StageModel::Removing, ReplyModel::Done, bare, answer, before, 6);
        let expected = seq![probe] + Seq::<EffectModel>::empty() + seq![operation.removing()]
            + work;
        assert(before + work =~= expected);
        assert forall|i: int| 0 <= i < expected.len() implies expected[i]
            != EffectModel::AskOverwrite by {}
    } else {
        let before = seq![probe, EffectModel::AskOverwrite, operation.removing()];
        assert(seq![probe].push(EffectModel::AskOverwrite).push(operation.removing()) =~= before);
        lemma_work_run(operation, StageModel::Removing, ReplyModel::Done, bare, answer, before, 5);
        let expected = seq![probe] + seq![EffectModel::AskOverwrite] + seq![operation.removing()]
            + work;
        assert(before + work =~= expected);
        assert(expected[1] == EffectModel::AskOverwrite);
    }
}

/// A change to a JSON document that fails writes nothing: the document is
/// read, and the operation ends with the failure, the world as it was.
pub proof fn lemma_failed_patch_writes_nothing(
    operation: OperationModel,
    world: World,
    answer: bool,
)
    requires
        operation.guard == Guard::Always,
        operation.action is Patch,
        operation.action->Patch_0.applied(world.files[operation.target]) is Err,
    ensures
        operation.performed(world, answer).trace == seq![
            EffectModel::ReadFile { path: operation.target },
        ],
        operation.performed(world, answer).world == world,
        operation.performed(world, answer).stage == StageModel::Finished(
            OutcomeModel::Failed(
                operation.action->Patch_0.applied(world.files[operation.target])->Err_0,
            ),
        ),
{
    reveal_with_fuel(World::after_all, 2);
    lemma_work_run(
        operation,
        StageModel::Start,
        ReplyModel::Begin,
        world,
        answer,
        Seq::empty(),
        8,
    );
    let work = operation.work(operation.source(world));
    assert(Seq::<EffectModel>::empty() + work =~= work);
    assert(work.skip(1) =~= Seq::empty());
}

/// Where the target does not exist, a materialization gives it the text of
/// the template, as it is or filled in, changes nothing else and does not
/// ask the user.
pub proof fn lemma_absent_target_is_written(operation: OperationModel, world: World, answer: bool)
    requires
        operation.is_materialization(),
        !world.holds(operation.target),
    ensures
        operation.performed(world, answer).stage == StageModel::Finished(OutcomeModel::Completed),
        operation.performed(world, answer).world == (World {
            files: world.files.insert(operation.target, operation.materialized(world)),
            ..world
        }),
        !operation.performed(world, answer).asked(),
{
    lemma_absent_target_trace(operation, world, answer);
    lemma_materialized(operation, world);
}

/// Where the target exists and the user declines to overwrite it, a
/// materialization that is not forced leaves everything as it is, and ends
/// without a failure.
pub proof fn lemma_declined_target_is_kept(operation: OperationModel, world: World)
    requires
        operation.is_materialization(),
        operation.guard == (Guard::Overwrite { force: false }),
        world.holds(operation.target),
    ensures
        operation.performed(world, false).stage == StageModel::Finished(OutcomeModel::Skipped),
        operation.performed(world, false).world == world,
        operation.performed(world, false).asked(),
{
    lemma_declined_trace(operation, world);
}

/// Where the target is a file and the materialization is forced or the user
/// agrees, the target ends with the text that a materialization into a
/// world without the target gives it. The user is asked unless the
/// materialization is forced.
pub proof fn lemma_overwritten_target_is_fresh(
    operation: OperationModel,
    world: World,
    answer: bool,
)
    requires
        operation.is_materialization(),
        world.files.dom().contains(operation.target),
        operation.guard == (Guard::Overwrite { force: true }) || answer,
    ensures
        operation.performed(world, answer).stage == StageModel::Finished(OutcomeModel::Completed),
        operation.performed(world, answer).world == (World {
            files: world.files.insert(operation.target, operation.materialized(world)),
            ..world
        }),
        operation.performed(world, answer).world.files == operation.performed(
            World { files: world.files.remove(operation.target), ..world },
            answer,
        ).world.files,
        operation.performed(world, answer).asked() == (operation.guard != Guard::Overwrite {
            force: true,
        }),
{
    let bare = World { files: world.files.remove(operation.target), ..world };
    lemma_overwriting_trace(operation, world, answer);
    lemma_materialized(operation, bare);
    assert(bare.files.insert(operation.target, operation.materialized(bare)) =~= world.files.insert(
        operation.target,
        operation.materialized(world),
    ));
    if !world.directories.contains(operation.target) {
        lemma_absent_target_is_written(operation, bare, answer);
    } else {
        lemma_overwriting_trace(operation, bare, answer);
        let barer = bare.after(operation.removing());
        assert(barer.files =~= bare.files);
        lemma_materialized(operation, barer);
    }
}

/// The work of a materialization gives the target the text of the
/// template, as it is or filled in, and changes nothing else.
pub proof fn lemma_materialized(operation: OperationModel, world: World)
    requires
        operation.is_materialization(),
    ensures
        world.after_all(operation.work(operation.source(world))) == (World {
            files: world.files.insert(operation.target, operation.materialized(world)),
            ..world
        }),
        work_outcome(operation, operation.source(world)) == OutcomeModel::Completed,
{
    reveal_with_fuel(World::after_all, 3);
    let work = operation.work(operation.source(world));
    match operation.action {
        ActionModel::CopyTemplate { .. } => {
            assert(work.skip(1) =~= Seq::empty());
        },
        ActionModel::RenderTemplate { .. } => {
            assert(work.skip(1).skip(1) =~= Seq::empty());
        },
        _ => {},
    }
}

/// A materialization that overwrites is idempotent: run again in the world
/// it left, forced or with the user agreeing again, it leaves that world as
/// it is.
pub proof fn lemma_materialization_is_idempotent(
    operation: OperationModel,
    world: World,
    answer: bool,
)
    requires
        operation.is_materialization(),
        operation.guard == (Guard::Overwrite { force: true }) || answer,
        !world.directories.contains(operation.target),
    ensures
        operation.performed(operation.performed(world, answer).world, answer).world
            == operation.performed(world, answer).world,
        operation.performed(operation.performed(world, answer).world, answer).stage
            == StageModel::Finished(OutcomeModel::Completed),
{
    if world.files.dom().contains(operation.target) {
        lemma_overwritten_target_is_fresh(operation, world, answer);
    } else {
        lemma_absent_target_is_written(operation, world, answer);
    }
    let once = operation.performed(world, answer).world;
    assert(operation.materialized(once) == operation.materialized(world));
    lemma_overwritten_target_is_fresh(operation, once, answer);
    assert(once.files.insert(operation.target, operation.materialized(once)) =~= once.files);
}

/// How a run of a plan ended.
pub struct PlanRunEnd {
    /// Where the plan stood at the end.
    pub state: PlanStateModel,
    /// The world it left.
    pub world: World,
    /// The effects that were performed, in order.
    pub trace: Seq<EffectModel>,
}

impl PlanRunEnd {
    /// Whether the user was asked.
    pub open spec fn asked(self) -> bool {
        self.trace.contains(EffectModel::AskOverwrite)
    }
}

/// The run of a plan from `state` on `reply`, for `moves` moves at most,
/// in a world where the user answers `answer` when asked; `trace` holds
/// the effects performed before.
pub open spec fn plan_run(
    steps: Seq<PlanStepModel>,
    state: PlanStateModel,
    reply: ReplyModel,
    world: World,
    answer: bool,
    trace: Seq<EffectModel>,
    moves: nat,
) -> PlanRunEnd
    decreases moves,
{
    let made = moving(steps, state, reply, false);
    if moves == 0 || made.effect is Finished {
        PlanRunEnd { state: made.state, world, trace }
    } else {
        plan_run(
            steps,
            made.state,
            world.reply(made.effect, answer),
            world.after(made.effect),
            answer,
            trace.push(made.effect),
            (moves - 1) as nat,
        )
    }
}

/// The run of a plan from its beginning, for `moves` moves at most.
pub open spec fn plan_performed(
    steps: Seq<PlanStepModel>,
    world: World,
    answer: bool,
    moves: nat,
) -> PlanRunEnd {
    plan_run(
        steps,
        PlanStateModel { position: 0, progress: ProgressModel::Ready },
        ReplyModel::Begin,
        world,
        answer,
        Seq::empty(),
        moves,
    )
}

/// Whether the step is an operation on the path.
pub open spec fn works_on(step: PlanStepModel, path: Seq<char>) -> bool {
    step matches PlanStepModel::Perform(operation) && operation.target == path
}

/// Whether one of the first `count` steps is an operation on the path.
pub open spec fn worked_on_before(steps: Seq<PlanStepModel>, count: int, path: Seq<char>) -> bool {
    exists|j: int| 0 <= j < count && j < steps.len() && works_on(#[trigger] steps[j], path)
}

/// Whether the step, where it is an operation that asks before it
/// overwrites, finds its target untouched: the world does not hold the
/// target, and none of the `count` steps before works on it.
pub open spec fn finds_untouched(
    steps: Seq<PlanStepModel>,
    world: World,
    step: PlanStepModel,
    count: int,
) -> bool {
    step matches PlanStepModel::Perform(operation) ==> operation.guard == (Guard::Overwrite {
        force: false,
    }) ==> !world.holds(operation.target) && !worked_on_before(steps, count, operation.target)
}

/// Whether no operation of the plan that asks before it overwrites has
/// anything to overwrite: its target is not in the world, and no step
/// before it works on the same target. A plan that is forced is fresh in
/// every world, and so is a plan in an empty world whose targets differ.
pub open spec fn fresh(steps: Seq<PlanStepModel>, world: World) -> bool {
    forall|i: int| 0 <= i < steps.len() ==> finds_untouched(steps, world, #[trigger] steps[i], i)
}

/// Whether all that `world` holds was held at first or is worked on by one
/// of the first `count` steps.
pub open spec fn within_reach(
    steps: Seq<PlanStepModel>,
    first: World,
    world: World,
    count: int,
) -> bool {
    forall|path: Seq<char>| #[trigger]
        world.holds(path) ==> first.holds(path) || worked_on_before(steps, count, path)
}

/// How many steps may have left something in the world: those before the
/// one the plan is at, and that one too once it is past its probe.
pub open spec fn reach_of(state: PlanStateModel) -> int {
    match state.progress {
        ProgressModel::Within(StageModel::Removing) => state.position + 1,
        ProgressModel::Within(StageModel::Reading) => state.position + 1,
        ProgressModel::Within(StageModel::Working) => state.position + 1,
        ProgressModel::Within(StageModel::Finished(_)) => state.position + 1,
        _ => state.position,
    }
}

/// Whether a run that began in the world `first` can stand here: the plan
/// is at one of its steps or behind the last, the world holds only what it
/// held at first or what the steps so far work on, an operation that is
/// under way is neither at its start nor asking, and the reply to a probe
/// is what the world says of the operation's target.
pub open spec fn on_course(
    steps: Seq<PlanStepModel>,
    first: World,
    state: PlanStateModel,
    reply: ReplyModel,
    world: World,
) -> bool {
    &&& 0 <= state.position <= steps.len()
    &&& within_reach(steps, first, world, reach_of(state))
    &&& state.progress matches ProgressModel::Within(stage) ==> {
        &&& state.position < steps.len()
        &&& steps[state.position] is Perform
        &&& !(stage is Start)
        &&& !(stage is Asking)
        &&& stage is Probing ==> reply == ReplyModel::Exists(
            world.holds(steps[state.position]->Perform_0.target),
        )
    }
}

/// What one step of an operation leaves in the world is what was there or
/// the operation's target. The step never goes back to the start, probes
/// only its target and only at first, and asks the user only on hearing
/// that the target of an operation that is not forced exists.
pub proof fn lemma_step_footprint(
    operation: OperationModel,
    stage: StageModel,
    reply: ReplyModel,
    world: World,
)
    ensures
        forall|path: Seq<char>| #[trigger]
            world.after(operation.step(stage, reply, false).effect).holds(path) ==> world.holds(
                path,
            ) || path == operation.target,
        !(operation.step(stage, reply, false).stage is Start),
        operation.step(stage, reply, false).stage is Probing ==> stage is Start && operation.step(
            stage,
            reply,
            false,
        ).effect == (EffectModel::Probe { path: operation.target }),
        (operation.step(stage, reply, false).stage is Asking || operation.step(
            stage,
            reply,
            false,
        ).effect is AskOverwrite) ==> stage is Probing && reply == ReplyModel::Exists(true)
            && operation.guard == (Guard::Overwrite { force: false }),
{
}

/// What is within reach of some steps stays within reach of more steps.
pub proof fn lemma_within_reach_grows(
    steps: Seq<PlanStepModel>,
    first: World,
    world: World,
    count: int,
    more: int,
)
    requires
        within_reach(steps, first, world, count),
        count <= more,
    ensures
        within_reach(steps, first, world, more),
{
    assert forall|path: Seq<char>| #[trigger] world.holds(path) implies first.holds(path)
        || worked_on_before(steps, more, path) by {
        if !first.holds(path) {
            let j = choose|j: int|
                0 <= j < count && j < steps.len() && works_on(#[trigger] steps[j], path);
            assert(works_on(steps[j], path));
        }
    }
}

/// Entering a fresh plan asks no question and keeps the run on course.
pub proof fn lemma_entering_on_course(
    steps: Seq<PlanStepModel>,
    first: World,
    position: int,
    output: Seq<crate::logging::CommandModel>,
    world: World,
    answer: bool,
)
    requires
        fresh(steps, first),
        0 <= position <= steps.len(),
        within_reach(steps, first, world, position),
    ensures
        !(entering(steps, position, output, false).effect is AskOverwrite),
        !(entering(steps, position, output, false).effect is Finished) ==> on_course(
            steps,
            first,
            entering(steps, position, output, false).state,
            world.reply(entering(steps, position, output, false).effect, answer),
            world.after(entering(steps, position, output, false).effect),
        ),
    decreases steps.len() - position,
{
    if position < steps.len() {
        match steps[position] {
            PlanStepModel::Perform(operation) => {
                let step = operation.step(StageModel::Start, ReplyModel::Begin, false);
                lemma_step_footprint(operation, StageModel::Start, ReplyModel::Begin, world);
                let next = world.after(step.effect);
                lemma_within_reach_grows(steps, first, world, position, position + 1);
                assert forall|path: Seq<char>| #[trigger] next.holds(path) implies first.holds(
                    path,
                ) || worked_on_before(steps, position + 1, path) by {
                    if !world.holds(path) {
                        assert(works_on(steps[position], path));
                    }
                }
                if step.stage is Probing {
                    assert(next == world);
                }
            },
            PlanStepModel::Require { .. } => {},
            step => {
                lemma_within_reach_grows(steps, first, world, position, position + 1);
                lemma_entering_on_course(
                    steps,
                    first,
                    position + 1,
                    output + crate::plan::step_output(step, false),
                    world,
                    answer,
                );
            },
        }
    }
}

/// A move of a fresh plan that is on course asks no question and keeps the
/// run on course.
pub proof fn lemma_move_on_course(
    steps: Seq<PlanStepModel>,
    first: World,
    state: PlanStateModel,
    reply: ReplyModel,
    world: World,
    answer: bool,
)
    requires
        fresh(steps, first),
        on_course(steps, first, state, reply, world),
    ensures
        !(moving(steps, state, reply, false).effect is AskOverwrite),
        !(moving(steps, state, reply, false).effect is Finished) ==> on_course(
            steps,
            first,
            moving(steps, state, reply, false).state,
            world.reply(moving(steps, state, reply, false).effect, answer),
            world.after(moving(steps, state, reply, false).effect),
        ),
{
    let made = moving(steps, state, reply, false);
    match state.progress {
        ProgressModel::Ready => {
            lemma_entering_on_course(steps, first, state.position, Seq::empty(), world, answer);
        },
        ProgressModel::Within(stage) => {
            let operation = steps[state.position]->Perform_0;
            let step = operation.step(stage, reply, false);
            lemma_step_footprint(operation, stage, reply, world);
            lemma_within_reach_grows(
                steps,
                first,
                world,
                reach_of(state),
                state.position + 1,
            );
            if step.effect is Finished {
                lemma_entering_on_course(
                    steps,
                    first,
                    state.position + 1,
                    step.output,
                    world,
                    answer,
                );
            } else {
                assert_by_contradiction!(!(stage is Probing && reply == ReplyModel::Exists(true)
                    && operation.guard == (Guard::Overwrite { force: false })), {
                    assert(finds_untouched(steps, first, steps[state.position], state.position));
                    assert(world.holds(operation.target));
                });
                let next = world.after(step.effect);
                assert forall|path: Seq<char>| #[trigger] next.holds(path) implies first.holds(
                    path,
                ) || worked_on_before(steps, state.position + 1, path) by {
                    if !world.holds(path) {
                        assert(works_on(steps[state.position], path));
                    }
                }
            }
        },
        ProgressModel::Checking => {
            if state.position < steps.len() {
                lemma_within_reach_grows(steps, first, world, state.position, state.position + 1);
                lemma_entering_on_course(
                    steps,
                    first,
                    state.position + 1,
                    Seq::empty(),
                    world,
                    answer,
                );
            }
        },
        ProgressModel::Ended(_) => {},
    }
}

/// A run of a fresh plan that is on course asks no question, however long
/// it goes on.
pub proof fn lemma_run_on_course(
    steps: Seq<PlanStepModel>,
    first: World,
    state: PlanStateModel,
    reply: ReplyModel,
    world: World,
    answer: bool,
    trace: Seq<EffectModel>,
    moves: nat,
)
    requires
        fresh(steps, first),
        on_course(steps, first, state, reply, world),
        !trace.contains(EffectModel::AskOverwrite),
    ensures
        !plan_run(steps, state, reply, world, answer, trace, moves).asked(),
    decreases moves,
{
    let made = moving(steps, state, reply, false);
    if moves == 0 || made.effect is Finished {
    } else {
        lemma_move_on_course(steps, first, state, reply, world, answer);
        let longer = trace.push(made.effect);
        assert forall|i: int| 0 <= i < longer.len() implies longer[i]
            != EffectModel::AskOverwrite by {
            if i < trace.len() {
                assert(trace.contains(trace[i]));
            }
        }
        lemma_run_on_course(
            steps,
            first,
            made.state,
            world.reply(made.effect, answer),
            world.after(made.effect),
            answer,
            longer,
            (moves - 1) as nat,
        );
    }
}

/// A whole run of a fresh plan asks no question: where no operation that
/// asks before it overwrites finds its target in the world or worked on by
/// a step before it, the user is not asked once, from the first move to
/// the last and whatever the user would answer.
pub proof fn lemma_fresh_plan_never_asks(
    steps: Seq<PlanStepModel>,
    world: World,
    answer: bool,
    moves: nat,
)
    requires
        fresh(steps, world),
    ensures
        !plan_performed(steps, world, answer, moves).asked(),
{
    lemma_run_on_course(
        steps,
        world,
        PlanStateModel { position: 0, progress: ProgressModel::Ready },
        ReplyModel::Begin,
        world,
        answer,
        Seq::empty(),
        moves,
    );
}

/// The path that the step works on, where it is an operation.
pub open spec fn target_of(step: PlanStepModel) -> Option<Seq<char>> {
    match step {
        PlanStepModel::Perform(operation) => Some(operation.target),
        _ => None,
    }
}

/// Whether the step is an operation that asks before it overwrites.
pub open spec fn asks_first(step: PlanStepModel) -> bool {
    step matches PlanStepModel::Perform(operation) && operation.guard == (Guard::Overwrite {
        force: false,
    })
}

/// Steps are fresh where each of them that asks before it overwrites works
/// on a path that the world does not hold and that differs from the paths
/// of the steps before it; and they are covered by paths that hold the
/// path of each step.
pub proof fn lemma_fresh_by_targets(
    steps: Seq<PlanStepModel>,
    world: World,
    paths: Set<Seq<char>>,
)
    requires
        forall|i: int|
            0 <= i < steps.len() && asks_first(#[trigger] steps[i]) ==> !world.holds(
                steps[i]->Perform_0.target,
            ),
        forall|i: int, j: int|
            0 <= j < i < steps.len() && asks_first(#[trigger] steps[i]) ==> #[trigger] target_of(
                steps[j],
            ) != target_of(steps[i]),
        forall|j: int|
            0 <= j < steps.len() && (#[trigger] target_of(steps[j])) is Some ==> paths.contains(
                target_of(steps[j])->0,
            ),
    ensures
        fresh(steps, world),
        covered(steps, paths),
{
    assert forall|i: int| 0 <= i < steps.len() implies finds_untouched(
        steps,
        world,
        #[trigger] steps[i],
        i,
    ) by {
        if asks_first(steps[i]) {
            let target = steps[i]->Perform_0.target;
            assert forall|j: int| 0 <= j < i && j < steps.len() implies !works_on(
                #[trigger] steps[j],
                target,
            ) by {
                assert(target_of(steps[j]) != target_of(steps[i]));
            }
        }
    }
    assert forall|j: int| 0 <= j < steps.len() implies ((#[trigger] steps[j])
        matches PlanStepModel::Perform(operation) ==> paths.contains(operation.target)) by {
        assert(target_of(steps[j]) is Some ==> paths.contains(target_of(steps[j])->0));
    }
}

/// Whether every path that one of the steps works on is among `paths`.
pub open spec fn covered(steps: Seq<PlanStepModel>, paths: Set<Seq<char>>) -> bool {
    forall|j: int|
        0 <= j < steps.len() ==> ((#[trigger] steps[j]) matches PlanStepModel::Perform(
            operation,
        ) ==> paths.contains(operation.target))
}

/// Whether none of the steps that ask before they overwrite works on one
/// of `paths`.
pub open spec fn overwrites_none_of(steps: Seq<PlanStepModel>, paths: Set<Seq<char>>) -> bool {
    forall|i: int|
        0 <= i < steps.len() ==> ((#[trigger] steps[i]) matches PlanStepModel::Perform(
            operation,
        ) ==> operation.guard == (Guard::Overwrite { force: false }) ==> !paths.contains(
            operation.target,
        ))
}

/// Two fresh stretches of steps make a fresh plan, where the second
/// overwrites nothing that the first works on.
pub proof fn lemma_fresh_both(
    first: Seq<PlanStepModel>,
    second: Seq<PlanStepModel>,
    world: World,
    first_paths: Set<Seq<char>>,
    second_paths: Set<Seq<char>>,
)
    requires
        fresh(first, world),
        covered(first, first_paths),
        fresh(second, world),
        covered(second, second_paths),
        overwrites_none_of(second, first_paths),
    ensures
        fresh(first + second, world),
        covered(first + second, first_paths.union(second_paths)),
{
    let both = first + second;
    assert forall|j: int| 0 <= j < both.len() implies ((#[trigger] both[j])
        matches PlanStepModel::Perform(operation) ==> first_paths.union(second_paths).contains(
        operation.target,
    )) by {
        if j < first.len() {
            assert(both[j] == first[j]);
        } else {
            assert(both[j] == second[j - first.len()]);
        }
    }
    assert forall|i: int| 0 <= i < both.len() implies finds_untouched(
        both,
        world,
        #[trigger] both[i],
        i,
    ) by {
        let asks = both[i] is Perform && both[i]->Perform_0.guard == (Guard::Overwrite {
            force: false,
        });
        if i < first.len() {
            assert(both[i] == first[i]);
            assert(finds_untouched(first, world, first[i], i));
            if asks {
                let target = both[i]->Perform_0.target;
                assert forall|j: int| 0 <= j < i && j < both.len() implies !works_on(
                    #[trigger] both[j],
                    target,
                ) by {
                    assert(both[j] == first[j]);
                    if works_on(first[j], target) {
                        assert(worked_on_before(first, i, target));
                    }
                }
            }
        } else {
            let k = i - first.len();
            assert(both[i] == second[k]);
            assert(finds_untouched(second, world, second[k], k));
            if asks {
                let target = both[i]->Perform_0.target;
                assert(!first_paths.contains(target));
                assert forall|j: int| 0 <= j < i && j < both.len() implies !works_on(
                    #[trigger] both[j],
                    target,
                ) by {
                    if j < first.len() {
                        assert(both[j] == first[j]);
                        if works_on(first[j], target) {
                            assert(first_paths.contains(target));
                        }
                    } else {
                        assert(both[j] == second[j - first.len()]);
                        if works_on(second[j - first.len()], target) {
                            assert(worked_on_before(second, k, target));
                        }
                    }
                }
            }
        }
    }
}

/// A plan of which every operation under the overwrite policy is forced is
/// fresh in every world: it never asks.
pub proof fn lemma_forced_plan_is_fresh(steps: Seq<PlanStepModel>, world: World)
    requires
        crate::plan::follows_policy(steps, true),
    ensures
        fresh(steps, world),
{
    assert forall|i: int| 0 <= i < steps.len() implies finds_untouched(
        steps,
        world,
        #[trigger] steps[i],
        i,
    ) by {
        assert(crate::plan::guarded_as(steps[i], true));
    }
}

} // verus!
