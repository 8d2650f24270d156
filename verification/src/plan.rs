//! A command as a plan: the list of what it says, requires and does, and
//! the machine that goes through the list.
//!
//! The plan is fixed before anything is done. Going through it, each
//! operation is taken to its end before the next step is looked at. An
//! operation that leaves its target as it was does not stop the plan; one
//! that fails does, and so does a requirement that is not met.

use vstd::prelude::*;
use crate::error::{CliError, CliErrorModel};
use crate::logging::{
    category_message,
    initialized_message,
    leveled,
    Color,
    CommandModel,
    ConsoleLogger,
};
use crate::operation::{
    Effect,
    EffectModel,
    Operation,
    OperationModel,
    Outcome,
    OutcomeModel,
    Reply,
    ReplyModel,
    Stage,
    StageModel,
};
use crate::vscode_ops::{PatchError, PatchErrorModel};

verus! {

/// One step of a plan.
#[derive(Debug)]
pub enum PlanStep {
    /// Write the header of a category of operations.
    Category(String),
    /// Take an operation to its end.
    Perform(Operation),
    /// Go on only if the path exists; end the plan with the error if not.
    Require { path: String, error: CliError },
    /// Write an empty line.
    Newline,
    /// Write the line that closes an initialisation.
    Initialized,
}

/// What a `PlanStep` holds.
pub enum PlanStepModel {
    Category(Seq<char>),
    Perform(OperationModel),
    Require { path: Seq<char>, error: CliErrorModel },
    Newline,
    Initialized,
}

impl DeepView for PlanStep {
    type V = PlanStepModel;

    open spec fn deep_view(&self) -> PlanStepModel {
        match self {
            PlanStep::Category(name) => PlanStepModel::Category(name@),
            PlanStep::Perform(operation) => PlanStepModel::Perform(operation@),
            PlanStep::Require { path, error } => PlanStepModel::Require {
                path: path@,
                error: error@,
            },
            PlanStep::Newline => PlanStepModel::Newline,
            PlanStep::Initialized => PlanStepModel::Initialized,
        }
    }
}

impl View for PlanStep {
    type V = PlanStepModel;

    open spec fn view(&self) -> PlanStepModel {
        self.deep_view()
    }
}

/// How a plan ended.
#[derive(Debug)]
pub enum PlanEnd {
    /// Every step was taken.
    Completed,
    /// An operation failed to change a JSON document.
    Failed(PatchError),
    /// A required path does not exist.
    Rejected(CliError),
    /// The driver came back with a reply that answers no effect of the plan.
    Confused,
}

/// What a `PlanEnd` holds.
pub enum PlanEndModel {
    Completed,
    Failed(PatchErrorModel),
    Rejected(CliErrorModel),
    Confused,
}

impl View for PlanEnd {
    type V = PlanEndModel;

    open spec fn view(&self) -> PlanEndModel {
        match self {
            PlanEnd::Completed => PlanEndModel::Completed,
            PlanEnd::Failed(error) => PlanEndModel::Failed(error@),
            PlanEnd::Rejected(error) => PlanEndModel::Rejected(error@),
            PlanEnd::Confused => PlanEndModel::Confused,
        }
    }
}

/// How far the step at the plan's position has come.
#[derive(Debug)]
pub enum Progress {
    /// The step is not begun.
    Ready,
    /// The step is an operation, which is at this stage.
    Within(Stage),
    /// The step is a requirement, and whether its path exists is not known
    /// yet.
    Checking,
    /// The plan is over.
    Ended(PlanEnd),
}

/// What a `Progress` holds.
pub enum ProgressModel {
    Ready,
    Within(StageModel),
    Checking,
    Ended(PlanEndModel),
}

impl View for Progress {
    type V = ProgressModel;

    open spec fn view(&self) -> ProgressModel {
        match self {
            Progress::Ready => ProgressModel::Ready,
            Progress::Within(stage) => ProgressModel::Within(stage@),
            Progress::Checking => ProgressModel::Checking,
            Progress::Ended(end) => ProgressModel::Ended(end@),
        }
    }
}

/// Where a plan stands.
#[derive(Debug)]
pub struct PlanState {
    /// The place of the step that the plan is at.
    pub position: usize,
    /// How far that step has come.
    pub progress: Progress,
}

/// What a `PlanState` holds.
pub struct PlanStateModel {
    pub position: int,
    pub progress: ProgressModel,
}

impl View for PlanState {
    type V = PlanStateModel;

    open spec fn view(&self) -> PlanStateModel {
        PlanStateModel { position: self.position as int, progress: self.progress@ }
    }
}

/// One move of a plan: where it stands then, what it asks for, and what it
/// says.
pub struct PlanMove {
    pub state: PlanStateModel,
    pub effect: EffectModel,
    pub output: Seq<CommandModel>,
}

/// What is said for a step that only says something; nothing for the other
/// steps.
pub open spec fn step_output(step: PlanStepModel, is_tty: bool) -> Seq<CommandModel> {
    match step {
        PlanStepModel::Category(name) => leveled(
            is_tty,
            Color::Cyan,
            "[Info] - "@,
            category_message(is_tty, name),
        ),
        PlanStepModel::Newline => seq![CommandModel::Print("\n"@)],
        PlanStepModel::Initialized => leveled(
            is_tty,
            Color::Cyan,
            "[Info] - "@,
            initialized_message(is_tty),
        ),
        _ => Seq::empty(),
    }
}

/// The move that ends the plan at `position` with `end`, having said
/// `output`.
pub open spec fn ending(position: int, end: PlanEndModel, output: Seq<CommandModel>) -> PlanMove {
    PlanMove {
        state: PlanStateModel { position, progress: ProgressModel::Ended(end) },
        effect: EffectModel::Finished,
        output,
    }
}

/// The move that takes the plan from `position` on, having said `output`:
/// the steps that only say something are taken one after the other, up to
/// the first operation, which is begun, or the first requirement, whose
/// path is probed. Where no such step is left the plan is completed.
pub open spec fn entering(
    steps: Seq<PlanStepModel>,
    position: int,
    output: Seq<CommandModel>,
    is_tty: bool,
) -> PlanMove
    decreases steps.len() - position,
{
    if position < 0 || position >= steps.len() {
        ending(steps.len() as int, PlanEndModel::Completed, output)
    } else {
        match steps[position] {
            PlanStepModel::Perform(operation) => {
                let step = operation.step(StageModel::Start, ReplyModel::Begin, is_tty);
                PlanMove {
                    state: PlanStateModel {
                        position,
                        progress: ProgressModel::Within(step.stage),
                    },
                    effect: step.effect,
                    output: output + step.output,
                }
            },
            PlanStepModel::Require { path, .. } => PlanMove {
                state: PlanStateModel { position, progress: ProgressModel::Checking },
                effect: EffectModel::Probe { path },
                output,
            },
            step => entering(steps, position + 1, output + step_output(step, is_tty), is_tty),
        }
    }
}

/// The move of the plan at `state` on `reply`.
///
/// A step that is not begun is entered. A reply within an operation is
/// handed to the operation; when the operation is over the plan goes on
/// behind it, unless the operation failed. A reply to the probe of a
/// requirement lets the plan go on if the path exists and ends it with the
/// requirement's error if not. A reply that fits nothing ends the plan as
/// confused, and a plan that is over stays so.
pub open spec fn moving(
    steps: Seq<PlanStepModel>,
    state: PlanStateModel,
    reply: ReplyModel,
    is_tty: bool,
) -> PlanMove {
    match state.progress {
        ProgressModel::Ready => entering(steps, state.position, Seq::empty(), is_tty),
        ProgressModel::Within(stage) => if 0 <= state.position < steps.len() {
            match steps[state.position] {
                PlanStepModel::Perform(operation) => {
                    let step = operation.step(stage, reply, is_tty);
                    if step.effect is Finished {
                        match step.stage {
                            StageModel::Finished(OutcomeModel::Completed) => entering(
                                steps,
                                state.position + 1,
                                step.output,
                                is_tty,
                            ),
                            StageModel::Finished(OutcomeModel::Skipped) => entering(
                                steps,
                                state.position + 1,
                                step.output,
                                is_tty,
                            ),
                            StageModel::Finished(OutcomeModel::Failed(error)) => ending(
                                state.position,
                                PlanEndModel::Failed(error),
                                step.output,
                            ),
                            _ => ending(state.position, PlanEndModel::Confused, step.output),
                        }
                    } else {
                        PlanMove {
                            state: PlanStateModel {
                                position: state.position,
                                progress: ProgressModel::Within(step.stage),
                            },
                            effect: step.effect,
                            output: step.output,
                        }
                    }
                },
                _ => ending(state.position, PlanEndModel::Confused, Seq::empty()),
            }
        } else {
            ending(state.position, PlanEndModel::Confused, Seq::empty())
        },
        ProgressModel::Checking => if 0 <= state.position < steps.len() {
            match steps[state.position] {
                PlanStepModel::Require { error, .. } => match reply {
                    ReplyModel::Exists(exists) => if exists {
                        entering(steps, state.position + 1, Seq::empty(), is_tty)
                    } else {
                        ending(state.position, PlanEndModel::Rejected(error), Seq::empty())
                    },
                    _ => ending(state.position, PlanEndModel::Confused, Seq::empty()),
                },
                _ => ending(state.position, PlanEndModel::Confused, Seq::empty()),
            }
        } else {
            ending(state.position, PlanEndModel::Confused, Seq::empty())
        },
        ProgressModel::Ended(end) => ending(state.position, end, Seq::empty()),
    }
}

/// Whether a step that materializes a template does so under the overwrite
/// policy, forced as `force` says. Any other step will do.
pub open spec fn materializes_under_policy(step: PlanStepModel, force: bool) -> bool {
    match step {
        PlanStepModel::Perform(operation) => (operation.action is CopyTemplate
            || operation.action is RenderTemplate) ==> operation.is_materialization()
            && operation.guard == (crate::operation::Guard::Overwrite { force }),
        _ => true,
    }
}

/// Whether a step that runs a program or writes a file does so only where
/// its target is absent, or under the overwrite policy forced as `force`
/// says, or, for a program that overwrites nothing and for a change to a
/// document, always.
pub open spec fn guarded_as(step: PlanStepModel, force: bool) -> bool {
    match step {
        PlanStepModel::Perform(operation) => operation.guard is Overwrite ==> operation.guard == (
        crate::operation::Guard::Overwrite { force }),
        _ => true,
    }
}

/// Whether each of the steps that writes a file of the project does so
/// under the overwrite policy, forced as `force` says.
pub open spec fn follows_policy(steps: Seq<PlanStepModel>, force: bool) -> bool {
    forall|i: int|
        0 <= i < steps.len() ==> materializes_under_policy(#[trigger] steps[i], force)
            && guarded_as(steps[i], force)
}

/// Steps that follow the policy, put behind others that do, follow it.
pub proof fn lemma_follows_policy_both(
    first: Seq<PlanStepModel>,
    second: Seq<PlanStepModel>,
    force: bool,
)
    requires
        follows_policy(first, force),
        follows_policy(second, force),
    ensures
        follows_policy(first + second, force),
{
    assert forall|i: int| 0 <= i < (first + second).len() implies materializes_under_policy(
        #[trigger] (first + second)[i],
        force,
    ) && guarded_as((first + second)[i], force) by {
        if i < first.len() {
            assert((first + second)[i] == first[i]);
        } else {
            assert((first + second)[i] == second[i - first.len()]);
        }
    }
}

/// Whether the move is one that the plan's steps call for: it ends the
/// plan, or it stands at an operation and asks for what a step of that
/// operation asks for, or it stands at a requirement and probes its path.
pub open spec fn called_for(steps: Seq<PlanStepModel>, made: PlanMove, is_tty: bool) -> bool {
    ||| made.effect is Finished && made.state.progress is Ended
    ||| {
        &&& 0 <= made.state.position < steps.len()
        &&& steps[made.state.position] matches PlanStepModel::Perform(operation)
        &&& made.state.progress matches ProgressModel::Within(stage)
        &&& exists|before: StageModel, reply: ReplyModel|
            operation.step(before, reply, is_tty).effect == made.effect && operation.step(
                before,
                reply,
                is_tty,
            ).stage == stage
    }
    ||| {
        &&& 0 <= made.state.position < steps.len()
        &&& steps[made.state.position] matches PlanStepModel::Require { path, .. }
        &&& made.state.progress is Checking
        &&& made.effect == EffectModel::Probe { path }
    }
}

/// Entering a plan never goes back, and makes a move that the steps call
/// for.
pub proof fn lemma_entering(
    steps: Seq<PlanStepModel>,
    position: int,
    output: Seq<CommandModel>,
    is_tty: bool,
)
    requires
        0 <= position <= steps.len(),
    ensures
        position <= entering(steps, position, output, is_tty).state.position <= steps.len(),
        called_for(steps, entering(steps, position, output, is_tty), is_tty),
    decreases steps.len() - position,
{
    if position < steps.len() {
        match steps[position] {
            PlanStepModel::Perform(operation) => {
                let step = operation.step(StageModel::Start, ReplyModel::Begin, is_tty);
                assert(step.effect == operation.step(
                    StageModel::Start,
                    ReplyModel::Begin,
                    is_tty,
                ).effect);
                assert(!(step.effect is Finished)) by {
                    crate::world::lemma_first_step_asks(operation, is_tty);
                }
            },
            PlanStepModel::Require { .. } => {},
            step => {
                lemma_entering(steps, position + 1, output + step_output(step, is_tty), is_tty);
            },
        }
    }
}

/// A plan never goes back: a move leaves the plan at the step it was at or
/// at a later one. And a plan does nothing of its own: each move is one
/// that the steps call for.
pub proof fn lemma_moving(
    steps: Seq<PlanStepModel>,
    state: PlanStateModel,
    reply: ReplyModel,
    is_tty: bool,
)
    requires
        0 <= state.position <= steps.len(),
    ensures
        moving(steps, state, reply, is_tty).state.position >= state.position,
        moving(steps, state, reply, is_tty).state.position <= steps.len(),
        called_for(steps, moving(steps, state, reply, is_tty), is_tty),
{
    let made = moving(steps, state, reply, is_tty);
    match state.progress {
        ProgressModel::Ready => {
            lemma_entering(steps, state.position, Seq::empty(), is_tty);
        },
        ProgressModel::Within(stage) => {
            if state.position < steps.len() {
                match steps[state.position] {
                    PlanStepModel::Perform(operation) => {
                        let step = operation.step(stage, reply, is_tty);
                        if step.effect is Finished {
                            lemma_entering(steps, state.position + 1, step.output, is_tty);
                        } else {
                            assert(operation.step(stage, reply, is_tty).effect == made.effect);
                        }
                    },
                    _ => {},
                }
            }
        },
        ProgressModel::Checking => {
            if state.position < steps.len() {
                lemma_entering(steps, state.position + 1, Seq::empty(), is_tty);
            }
        },
        ProgressModel::Ended(_) => {},
    }
}

/// A command, as the list of its steps.
#[derive(Debug)]
pub struct Plan {
    /// The steps, in order.
    pub steps: Vec<PlanStep>,
}

impl View for Plan {
    type V = Seq<PlanStepModel>;

    open spec fn view(&self) -> Seq<PlanStepModel> {
        self.steps.deep_view()
    }
}

/// The steps that perform the operations, one for one.
pub open spec fn performing(operations: Seq<OperationModel>) -> Seq<PlanStepModel> {
    Seq::new(operations.len(), |i: int| PlanStepModel::Perform(operations[i]))
}

impl Plan {
    /// The plan without steps.
    pub fn new() -> (plan: Plan)
        ensures
            plan@ == Seq::<PlanStepModel>::empty(),
    {
        let plan = Plan { steps: Vec::new() };
        assert(plan@ =~= Seq::<PlanStepModel>::empty());
        plan
    }

    /// Adds one step at the end.
    pub fn append_step(&mut self, step: PlanStep)
        ensures
            final(self)@ == old(self)@.push(step@),
    {
        self.steps.push(step);
        assert(self@ =~= old(self)@.push(step@));
    }

    /// Adds the header of a category at the end.
    pub fn category(&mut self, name: &str)
        ensures
            final(self)@ == old(self)@.push(PlanStepModel::Category(name@)),
    {
        self.append_step(PlanStep::Category(name.to_owned()));
    }

    /// Adds an operation at the end.
    pub fn perform(&mut self, operation: Operation)
        ensures
            final(self)@ == old(self)@.push(PlanStepModel::Perform(operation@)),
    {
        self.append_step(PlanStep::Perform(operation));
    }

    /// Adds operations at the end, in their order.
    pub fn perform_all(&mut self, operations: Vec<Operation>)
        ensures
            final(self)@ == old(self)@ + performing(operations.deep_view()),
    {
        let ghost all = operations.deep_view();
        let mut rest = operations;
        let mut reversed: Vec<Operation> = Vec::new();
        while rest.len() > 0
            invariant
                rest@.len() + reversed@.len() == all.len(),
                forall|k: int| 0 <= k < rest@.len() ==> rest@[k]@ == all[k],
                forall|k: int|
                    0 <= k < reversed@.len() ==> reversed@[k]@ == all[all.len() - 1 - k],
            decreases rest.len(),
        {
            let operation = rest.pop().unwrap();
            reversed.push(operation);
        }
        let ghost before = self@;
        while reversed.len() > 0
            invariant
                reversed@.len() <= all.len(),
                forall|k: int|
                    0 <= k < reversed@.len() ==> reversed@[k]@ == all[all.len() - 1 - k],
                self@ == before + performing(all.take(all.len() - reversed@.len())),
            decreases reversed.len(),
        {
            let ghost done = all.len() - reversed@.len();
            let operation = reversed.pop().unwrap();
            assert(operation@ == all[done]);
            self.perform(operation);
            assert(self@ =~= before + performing(all.take(done + 1)));
        }
        assert(all.take(all.len() as int) == all);
    }

    /// Adds an empty line at the end.
    pub fn newline(&mut self)
        ensures
            final(self)@ == old(self)@.push(PlanStepModel::Newline),
    {
        self.append_step(PlanStep::Newline);
    }

    /// Adds the line that closes an initialisation at the end.
    pub fn initialized(&mut self)
        ensures
            final(self)@ == old(self)@.push(PlanStepModel::Initialized),
    {
        self.append_step(PlanStep::Initialized);
    }

    /// Adds a requirement at the end.
    pub fn require(&mut self, path: &str, error: CliError)
        ensures
            final(self)@ == old(self)@.push(
                PlanStepModel::Require { path: path@, error: error@ },
            ),
    {
        self.append_step(PlanStep::Require { path: path.to_owned(), error });
    }

    /// The state of a plan that is not begun.
    pub fn begin() -> (state: PlanState)
        ensures
            state@ == (PlanStateModel { position: 0, progress: ProgressModel::Ready }),
    {
        PlanState { position: 0, progress: Progress::Ready }
    }

    /// Takes the plan from `position` on.
    fn enter(&self, position: usize, logger: &mut ConsoleLogger, Ghost(said): Ghost<
        Seq<CommandModel>,
    >, Ghost(origin): Ghost<crate::logging::LoggerModel>) -> (next: (PlanState, Effect))
        requires
            old(logger)@ == origin.out(said),
        ensures
            next.0@ == entering(self@, position as int, said, origin.is_tty).state,
            next.1@ == entering(self@, position as int, said, origin.is_tty).effect,
            final(logger)@ == origin.out(
                entering(self@, position as int, said, origin.is_tty).output,
            ),
    {
        let mut at: usize = position;
        let ghost mut acc = said;
        let ghost is_tty = origin.is_tty;
        while at < self.steps.len()
            invariant
                logger@ == origin.out(acc),
                is_tty == origin.is_tty,
                entering(self@, at as int, acc, is_tty) == entering(
                    self@,
                    position as int,
                    said,
                    is_tty,
                ),
            decreases self.steps.len() - at,
        {
            assert(self@[at as int] == self.steps@[at as int]@);
            match &self.steps[at] {
                PlanStep::Perform(operation) => {
                    let next = operation.advance(Stage::Start, Reply::Begin, logger);
                    proof {
                        let step = operation@.step(StageModel::Start, ReplyModel::Begin, is_tty);
                        assert(logger@.stdout =~= origin.stdout + (acc + step.output));
                    }
                    return (PlanState { position: at, progress: Progress::Within(next.0) }, next.1);
                },
                PlanStep::Require { path, .. } => {
                    return (
                        PlanState { position: at, progress: Progress::Checking },
                        Effect::Probe { path: path.clone() },
                    );
                },
                PlanStep::Category(name) => {
                    logger.write_operation_category(name.as_str());
                },
                PlanStep::Newline => {
                    logger.write_newline();
                },
                PlanStep::Initialized => {
                    logger.write_project_initialized_log();
                },
            }
            proof {
                let more = step_output(self@[at as int], is_tty);
                assert(logger@.stdout =~= origin.stdout + (acc + more));
                acc = acc + more;
            }
            at += 1;
        }
        (
            PlanState { position: self.steps.len(), progress: Progress::Ended(PlanEnd::Completed) },
            Effect::Finished,
        )
    }

    /// Makes one move: given where the plan stands and the reply to the
    /// effect it asked for last, says what there is to say and returns where
    /// the plan stands then and the next effect. The first move is made from
    /// `Plan::begin()`, with any reply; the plan is over when the effect is
    /// `Effect::Finished`, and the state then holds how it ended.
    pub fn advance(&self, state: PlanState, reply: Reply, logger: &mut ConsoleLogger) -> (next: (
        PlanState,
        Effect,
    ))
        ensures
            next.0@ == moving(self@, state@, reply@, old(logger).is_tty).state,
            next.1@ == moving(self@, state@, reply@, old(logger).is_tty).effect,
            final(logger)@ == old(logger)@.out(
                moving(self@, state@, reply@, old(logger).is_tty).output,
            ),
    {
        let ghost origin = logger@;
        proof {
            assert(origin.stdout + Seq::<CommandModel>::empty() =~= origin.stdout);
        }
        let position = state.position;
        match state.progress {
            Progress::Ready => self.enter(position, logger, Ghost(Seq::empty()), Ghost(origin)),
            Progress::Within(stage) => {
                if position >= self.steps.len() {
                    return (
                        PlanState { position, progress: Progress::Ended(PlanEnd::Confused) },
                        Effect::Finished,
                    );
                }
                assert(self@[position as int] == self.steps@[position as int]@);
                match &self.steps[position] {
                    PlanStep::Perform(operation) => {
                        let ghost step = operation@.step(stage@, reply@, origin.is_tty);
                        let next = operation.advance(stage, reply, logger);
                        match next.1 {
                            Effect::Finished => match next.0 {
                                Stage::Finished(Outcome::Completed) => {
                                    self.enter(
                                        position + 1,
                                        logger,
                                        Ghost(step.output),
                                        Ghost(origin),
                                    )
                                },
                                Stage::Finished(Outcome::Skipped) => {
                                    self.enter(
                                        position + 1,
                                        logger,
                                        Ghost(step.output),
                                        Ghost(origin),
                                    )
                                },
                                Stage::Finished(Outcome::Failed(error)) => (
                                    PlanState {
                                        position,
                                        progress: Progress::Ended(PlanEnd::Failed(error)),
                                    },
                                    Effect::Finished,
                                ),
                                _ => (
                                    PlanState {
                                        position,
                                        progress: Progress::Ended(PlanEnd::Confused),
                                    },
                                    Effect::Finished,
                                ),
                            },
                            effect => (
                                PlanState { position, progress: Progress::Within(next.0) },
                                effect,
                            ),
                        }
                    },
                    _ => (
                        PlanState { position, progress: Progress::Ended(PlanEnd::Confused) },
                        Effect::Finished,
                    ),
                }
            },
            Progress::Checking => {
                if position >= self.steps.len() {
                    return (
                        PlanState { position, progress: Progress::Ended(PlanEnd::Confused) },
                        Effect::Finished,
                    );
                }
                assert(self@[position as int] == self.steps@[position as int]@);
                match &self.steps[position] {
                    PlanStep::Require { error, .. } => match reply {
                        Reply::Exists(exists) => {
                            if exists {
                                self.enter(
                                    position + 1,
                                    logger,
                                    Ghost(Seq::empty()),
                                    Ghost(origin),
                                )
                            } else {
                                (
                                    PlanState {
                                        position,
                                        progress: Progress::Ended(
                                            PlanEnd::Rejected(
                                                CliError::new(error.message.as_str(), error.kind),
                                            ),
                                        ),
                                    },
                                    Effect::Finished,
                                )
                            }
                        },
                        _ => (
                            PlanState { position, progress: Progress::Ended(PlanEnd::Confused) },
                            Effect::Finished,
                        ),
                    },
                    _ => (
                        PlanState { position, progress: Progress::Ended(PlanEnd::Confused) },
                        Effect::Finished,
                    ),
                }
            },
            Progress::Ended(end) => (
                PlanState { position, progress: Progress::Ended(end) },
                Effect::Finished,
            ),
        }
    }
}

} // verus!
