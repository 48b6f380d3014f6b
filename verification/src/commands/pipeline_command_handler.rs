//! Pipelines: commands run in a chain, each one's output feeding the next
//! one's input.

use crate::commands::command_handler::{
    no_answer, no_answer_error, not_handled, not_handled_error, CommandHandler,
};
use crate::commands::history_state::{HistoryState, HistoryStateView};
use crate::commands::host::{Reply, ReplyView, Request, RequestView, Source, Step, StepView};
use crate::commands::registry::{find_handler, handler_of, Handler};
use crate::commands::shell_error::{result_view, ShellError, ShellErrorView};
use crate::commands::supported_command::{CommandView, SupportedCommand};
use crate::commands::unspecified_command_handler::{launch_failure, UnspecifiedCommandHandler};
use vstd::prelude::*;

verus! {

/// What the next stage of a pipeline reads.
#[derive(Debug, PartialEq, Eq)]
pub enum Pending {
    /// The session's input: nothing ran before.
    Inherit,
    /// The text that the built-in before it gave back.
    Text(String),
    /// The output of the process before it, by its number.
    Child(usize),
}

/// The mathematical value of a [`Pending`].
pub enum PendingView {
    Inherit,
    Text(Seq<char>),
    Child(usize),
}

impl View for Pending {
    type V = PendingView;

    open spec fn view(&self) -> PendingView {
        match self {
            Pending::Inherit => PendingView::Inherit,
            Pending::Text(text) => PendingView::Text(text@),
            Pending::Child(child) => PendingView::Child(*child),
        }
    }
}

/// Where a pipeline under way stands. `stage` is the index of the stage
/// that is being run and `children` the number of processes started so
/// far; they are numbered from zero in the order in which they started.
#[derive(Debug, PartialEq, Eq)]
pub enum PipelineState {
    /// The built-in of this stage has asked the host and awaits the answer.
    Builtin { stage: usize, children: usize },
    /// The output of the process before this built-in stage is being
    /// closed.
    Closing { stage: usize, children: usize },
    /// The process of this stage is being started.
    Spawning { stage: usize, children: usize, pending: Pending },
    /// The process of this stage, the newest one, is being fed the text of
    /// the built-in before it.
    Feeding { stage: usize, children: usize },
    /// Every stage has run; the last process is waited for.
    WaitingLast { children: usize },
    /// The processes from number `next` up to, not including, `upto` are
    /// waited for; after that the pipeline gives `output` back.
    Reaping { next: usize, upto: usize, output: String },
}

/// The mathematical value of a [`PipelineState`].
pub enum PipelineStateView {
    Builtin { stage: usize, children: usize },
    Closing { stage: usize, children: usize },
    Spawning { stage: usize, children: usize, pending: PendingView },
    Feeding { stage: usize, children: usize },
    WaitingLast { children: usize },
    Reaping { next: usize, upto: usize, output: Seq<char> },
}

impl View for PipelineState {
    type V = PipelineStateView;

    open spec fn view(&self) -> PipelineStateView {
        match self {
            PipelineState::Builtin { stage, children } => PipelineStateView::Builtin {
                stage: *stage,
                children: *children,
            },
            PipelineState::Closing { stage, children } => PipelineStateView::Closing {
                stage: *stage,
                children: *children,
            },
            PipelineState::Spawning { stage, children, pending } => PipelineStateView::Spawning {
                stage: *stage,
                children: *children,
                pending: pending@,
            },
            PipelineState::Feeding { stage, children } => PipelineStateView::Feeding {
                stage: *stage,
                children: *children,
            },
            PipelineState::WaitingLast { children } => PipelineStateView::WaitingLast {
                children: *children,
            },
            PipelineState::Reaping { next, upto, output } => PipelineStateView::Reaping {
                next: *next,
                upto: *upto,
                output: output@,
            },
        }
    }
}

impl PipelineStateView {
    /// Whether the state can arise in a pipeline of `stages` stages: the
    /// stage exists, no more processes have started than stages have run,
    /// and a process that is fed or waited for has started.
    pub open spec fn fits(self, stages: Seq<CommandView>) -> bool {
        match self {
            PipelineStateView::Builtin { stage, children } => stage < stages.len() && children
                <= stage,
            PipelineStateView::Closing { stage, children } => stage < stages.len() && children
                <= stage,
            PipelineStateView::Spawning { stage, children, .. } => stage < stages.len()
                && children <= stage && stages[stage as int] is Unspecified,
            PipelineStateView::Feeding { stage, children } => stage < stages.len() && 1
                <= children <= stage + 1,
            PipelineStateView::WaitingLast { children } => children >= 1,
            PipelineStateView::Reaping { next, upto, .. } => next < upto,
        }
    }
}

/// What a step of a pipeline comes to: what the shell does next, and the
/// history.
pub struct Progress {
    pub step: StepView<PipelineStateView>,
    pub history: HistoryStateView,
}

/// Where a process reads from, given what is pending for it.
pub open spec fn source_of(pending: PendingView) -> Source {
    match pending {
        PendingView::Inherit => Source::Inherit,
        PendingView::Text(_) => Source::Pipe,
        PendingView::Child(child) => Source::Child(child),
    }
}

/// The failure of a stage that no handler runs.
pub open spec fn no_builtin() -> ShellErrorView {
    ShellErrorView::NoHandler { kind: "builtin"@ }
}

/// Waiting for the processes from number `next` up to, not including,
/// `upto`, whatever becomes of them, and then giving `output` back.
pub open spec fn reap(next: usize, upto: usize, output: Seq<char>) -> StepView<PipelineStateView> {
    if next < upto {
        StepView::Ask(
            PipelineStateView::Reaping { next, upto, output },
            RequestView::Wait { child: next },
        )
    } else {
        StepView::Finish(Ok(output))
    }
}

/// The end of a pipeline whose last stage was a process: that process is
/// waited for.
pub open spec fn wrap_up(children: usize) -> StepView<PipelineStateView> {
    if children >= 1 {
        StepView::Ask(
            PipelineStateView::WaitingLast { children },
            RequestView::Wait { child: (children - 1) as usize },
        )
    } else {
        StepView::Finish(Ok(Seq::empty()))
    }
}

/// The pipeline from stage `i` on, with `pending` to read and `children`
/// processes started.
///
/// An external stage is started as a process that reads what is pending
/// and writes to a new pipe, or to the session's output if it is the last
/// stage. A built-in stage reads nothing, so the output of a process
/// before it is closed first. Then the built-in is run: if it needs the
/// host, that request is next; else its result is at hand.
pub open spec fn run_from(
    handlers: Seq<Handler>,
    stages: Seq<CommandView>,
    i: int,
    pending: PendingView,
    children: usize,
    history: HistoryStateView,
) -> Progress
    decreases stages.len() - i, 1int,
{
    if i < 0 || i >= stages.len() {
        Progress { step: wrap_up(children), history }
    } else {
        match stages[i] {
            CommandView::Unspecified { cmd, args } => Progress {
                step: StepView::Ask(
                    PipelineStateView::Spawning { stage: i as usize, children, pending },
                    RequestView::Spawn {
                        name: cmd,
                        args,
                        stdin: source_of(pending),
                        piped: i + 1 < stages.len(),
                    },
                ),
                history,
            },
            stage => match pending {
                PendingView::Child(child) => Progress {
                    step: StepView::Ask(
                        PipelineStateView::Closing { stage: i as usize, children },
                        RequestView::Close { child },
                    ),
                    history,
                },
                _ => match handler_of(handlers, stage) {
                    None => Progress { step: StepView::Finish(Err(no_builtin())), history },
                    Some(h) => match handlers[h].needs(stage, history) {
                        Some(request) => Progress {
                            step: StepView::Ask(
                                PipelineStateView::Builtin { stage: i as usize, children },
                                request,
                            ),
                            history,
                        },
                        None => after_builtin(
                            handlers,
                            stages,
                            i,
                            children,
                            handlers[h].result(stage, ReplyView::Nothing, history),
                            handlers[h].history_after(stage, ReplyView::Nothing, history),
                        ),
                    },
                },
            },
        }
    }
}

/// The pipeline after the built-in of stage `i` has given `result`.
///
/// A failure ends the pipeline at once. The output of the last stage is
/// what the pipeline gives back, once the processes that were started have
/// been waited for. The output of any other stage is what the next stage
/// reads.
pub open spec fn after_builtin(
    handlers: Seq<Handler>,
    stages: Seq<CommandView>,
    i: int,
    children: usize,
    result: Result<Seq<char>, ShellErrorView>,
    history: HistoryStateView,
) -> Progress
    decreases stages.len() - i, 0int,
{
    match result {
        Err(e) => Progress { step: StepView::Finish(Err(e)), history },
        Ok(output) => if i < 0 || i + 1 >= stages.len() {
            Progress { step: reap(0, children, output), history }
        } else {
            run_from(handlers, stages, i + 1, PendingView::Text(output), children, history)
        },
    }
}

/// The first step of the pipeline `cmd`.
pub open spec fn pipeline_start(
    handlers: Seq<Handler>,
    cmd: CommandView,
    history: HistoryStateView,
) -> Progress {
    match cmd {
        CommandView::Pipeline { commands } => run_from(
            handlers,
            commands,
            0,
            PendingView::Inherit,
            0,
            history,
        ),
        _ => Progress { step: StepView::Finish(Err(not_handled())), history },
    }
}

/// What the built-in `stage` gives back for the host's `reply`.
pub open spec fn stage_result(
    handlers: Seq<Handler>,
    stage: CommandView,
    reply: ReplyView,
    history: HistoryStateView,
) -> Result<Seq<char>, ShellErrorView> {
    match handler_of(handlers, stage) {
        Some(h) => handlers[h].result(stage, reply, history),
        None => Err(no_builtin()),
    }
}

/// The history after the built-in `stage`.
pub open spec fn stage_history(
    handlers: Seq<Handler>,
    stage: CommandView,
    reply: ReplyView,
    history: HistoryStateView,
) -> HistoryStateView {
    match handler_of(handlers, stage) {
        Some(h) => handlers[h].history_after(stage, reply, history),
        None => history,
    }
}

/// The name of the program of an external stage.
pub open spec fn program_of(stage: CommandView) -> Seq<char> {
    match stage {
        CommandView::Unspecified { cmd, .. } => cmd,
        _ => Seq::empty(),
    }
}

/// The step of the pipeline `cmd` in `state` after the host's `reply`.
///
/// A process that started is fed the pending text, if there is any; then
/// the next stage reads its output. A process that could not be started,
/// or be fed, ends the pipeline at once with that failure, and so does a
/// failure to wait for the last process. The processes before the last
/// are waited for whatever becomes of them.
pub open spec fn pipeline_resume(
    handlers: Seq<Handler>,
    cmd: CommandView,
    state: PipelineStateView,
    reply: ReplyView,
    history: HistoryStateView,
) -> Progress {
    match cmd {
        CommandView::Pipeline { commands } => if !state.fits(commands) {
            Progress { step: StepView::Finish(Err(no_answer())), history }
        } else {
            match state {
                PipelineStateView::Builtin { stage, children } => after_builtin(
                    handlers,
                    commands,
                    stage as int,
                    children,
                    stage_result(handlers, commands[stage as int], reply, history),
                    stage_history(handlers, commands[stage as int], reply, history),
                ),
                PipelineStateView::Closing { stage, children } => run_from(
                    handlers,
                    commands,
                    stage as int,
                    PendingView::Inherit,
                    children,
                    history,
                ),
                PipelineStateView::Spawning { stage, children, pending } => match reply {
                    ReplyView::Done(Ok(())) => match pending {
                        PendingView::Text(text) => Progress {
                            step: StepView::Ask(
                                PipelineStateView::Feeding {
                                    stage,
                                    children: (children + 1) as usize,
                                },
                                RequestView::Feed { child: children, text },
                            ),
                            history,
                        },
                        _ => run_from(
                            handlers,
                            commands,
                            stage + 1,
                            PendingView::Child(children),
                            (children + 1) as usize,
                            history,
                        ),
                    },
                    ReplyView::Done(Err(error)) => Progress {
                        step: StepView::Finish(
                            Err(launch_failure(program_of(commands[stage as int]), error)),
                        ),
                        history,
                    },
                    _ => Progress { step: StepView::Finish(Err(no_answer())), history },
                },
                PipelineStateView::Feeding { stage, children } => match reply {
                    ReplyView::Done(Ok(())) => run_from(
                        handlers,
                        commands,
                        stage + 1,
                        PendingView::Child((children - 1) as usize),
                        children,
                        history,
                    ),
                    ReplyView::Done(Err(error)) => Progress {
                        step: StepView::Finish(
                            Err(ShellErrorView::IoFailure { cause: error.message }),
                        ),
                        history,
                    },
                    _ => Progress { step: StepView::Finish(Err(no_answer())), history },
                },
                PipelineStateView::WaitingLast { children } => match reply {
                    ReplyView::Done(Ok(())) => Progress {
                        step: reap(0, (children - 1) as usize, Seq::empty()),
                        history,
                    },
                    ReplyView::Done(Err(error)) => Progress {
                        step: StepView::Finish(
                            Err(ShellErrorView::IoFailure { cause: error.message }),
                        ),
                        history,
                    },
                    _ => Progress { step: StepView::Finish(Err(no_answer())), history },
                },
                PipelineStateView::Reaping { next, upto, output } => Progress {
                    step: reap((next + 1) as usize, upto, output),
                    history,
                },
            }
        },
        _ => Progress { step: StepView::Finish(Err(not_handled())), history },
    }
}

/// Every state in which a pipeline waits for the host fits the pipeline.
pub proof fn pipeline_states_fit(
    handlers: Seq<Handler>,
    stages: Seq<CommandView>,
    i: int,
    pending: PendingView,
    children: usize,
    history: HistoryStateView,
)
    requires
        0 <= i,
        children <= i,
        stages.len() <= usize::MAX,
    ensures
        run_from(handlers, stages, i, pending, children, history).step matches StepView::Ask(
            state,
            _,
        ) ==> state.fits(stages),
    decreases stages.len() - i,
{
    if i < stages.len() {
        match stages[i] {
            CommandView::Unspecified { .. } => {},
            stage => match pending {
                PendingView::Child(_) => {},
                _ => match handler_of(handlers, stage) {
                    None => {},
                    Some(h) => match handlers[h].needs(stage, history) {
                        Some(_) => {},
                        None => {
                            let result = handlers[h].result(stage, ReplyView::Nothing, history);
                            let after = handlers[h].history_after(
                                stage,
                                ReplyView::Nothing,
                                history,
                            );
                            if result is Ok && i + 1 < stages.len() {
                                pipeline_states_fit(
                                    handlers,
                                    stages,
                                    i + 1,
                                    PendingView::Text(result->Ok_0),
                                    children,
                                    after,
                                );
                            }
                        },
                    },
                },
            },
        }
    }
}

/// Every state in which a pipeline goes on waiting for the host fits the
/// pipeline.
pub proof fn resumed_pipeline_states_fit(
    handlers: Seq<Handler>,
    stages: Seq<CommandView>,
    state: PipelineStateView,
    reply: ReplyView,
    history: HistoryStateView,
)
    requires
        stages.len() <= usize::MAX,
    ensures
        pipeline_resume(
            handlers,
            CommandView::Pipeline { commands: stages },
            state,
            reply,
            history,
        ).step matches StepView::Ask(next, _) ==> next.fits(stages),
{
    if state.fits(stages) {
        match state {
            PipelineStateView::Builtin { stage, children } => {
                let result = stage_result(handlers, stages[stage as int], reply, history);
                let after = stage_history(handlers, stages[stage as int], reply, history);
                if result is Ok && stage + 1 < stages.len() {
                    pipeline_states_fit(
                        handlers,
                        stages,
                        stage + 1,
                        PendingView::Text(result->Ok_0),
                        children,
                        after,
                    );
                }
            },
            PipelineStateView::Closing { stage, children } => {
                pipeline_states_fit(
                    handlers,
                    stages,
                    stage as int,
                    PendingView::Inherit,
                    children,
                    history,
                );
            },
            PipelineStateView::Spawning { stage, children, pending } => {
                pipeline_states_fit(
                    handlers,
                    stages,
                    stage + 1,
                    PendingView::Child(children),
                    (children + 1) as usize,
                    history,
                );
            },
            PipelineStateView::Feeding { stage, children } => {
                pipeline_states_fit(
                    handlers,
                    stages,
                    stage + 1,
                    PendingView::Child((children - 1) as usize),
                    children,
                    history,
                );
            },
            _ => {},
        }
    }
}

impl PipelineStateView {
    /// A bound on the number of requests that a pipeline of `stages` stages
    /// still makes from this state, the one it waits for among them.
    pub open spec fn budget(self, stages: nat) -> int {
        match self {
            PipelineStateView::Closing { stage, children } => 5 * (stages - stage) + children + 4,
            PipelineStateView::Builtin { stage, children } => 5 * (stages - stage) + children + 3,
            PipelineStateView::Spawning { stage, children, .. } => 5 * (stages - stage) + children
                + 3,
            PipelineStateView::Feeding { stage, children } => 5 * (stages - stage) + children + 1,
            PipelineStateView::WaitingLast { children } => children as int,
            PipelineStateView::Reaping { next, upto, .. } => upto - next,
        }
    }
}

/// The budget of a step: that of its state, or nothing once the pipeline
/// has ended.
pub open spec fn step_budget(step: StepView<PipelineStateView>, stages: nat) -> int {
    match step {
        StepView::Ask(state, _) => state.budget(stages),
        StepView::Finish(_) => 0,
    }
}

/// Running a pipeline from stage `i` on takes no more requests than five
/// for each stage that is left, one for each process that has started, and
/// four; one less where no output of a process is pending.
pub proof fn run_from_stays_in_budget(
    handlers: Seq<Handler>,
    stages: Seq<CommandView>,
    i: int,
    pending: PendingView,
    children: usize,
    history: HistoryStateView,
)
    requires
        0 <= i <= stages.len(),
        stages.len() <= usize::MAX,
    ensures
        step_budget(run_from(handlers, stages, i, pending, children, history).step, stages.len())
            <= 5 * (stages.len() - i) + children + (if pending is Child {
            4int
        } else {
            3int
        }),
    decreases stages.len() - i,
{
    if i < stages.len() {
        match stages[i] {
            CommandView::Unspecified { .. } => {},
            stage => match pending {
                PendingView::Child(_) => {},
                _ => match handler_of(handlers, stage) {
                    None => {},
                    Some(h) => match handlers[h].needs(stage, history) {
                        Some(_) => {},
                        None => {
                            let result = handlers[h].result(stage, ReplyView::Nothing, history);
                            let after = handlers[h].history_after(
                                stage,
                                ReplyView::Nothing,
                                history,
                            );
                            if result is Ok && i + 1 < stages.len() {
                                run_from_stays_in_budget(
                                    handlers,
                                    stages,
                                    i + 1,
                                    PendingView::Text(result->Ok_0),
                                    children,
                                    after,
                                );
                            }
                        },
                    },
                },
            },
        }
    }
}

/// A pipeline comes to its end: with every answer of the host, whatever it
/// is, the pipeline ends or the number of requests that it may still make,
/// which is never negative, gets smaller.
pub proof fn pipeline_makes_progress(
    handlers: Seq<Handler>,
    stages: Seq<CommandView>,
    state: PipelineStateView,
    reply: ReplyView,
    history: HistoryStateView,
)
    requires
        stages.len() <= usize::MAX,
        state.fits(stages),
    ensures
        step_budget(
            pipeline_resume(
                handlers,
                CommandView::Pipeline { commands: stages },
                state,
                reply,
                history,
            ).step,
            stages.len(),
        ) < state.budget(stages.len()),
        0 < state.budget(stages.len()),
{
    match state {
        PipelineStateView::Builtin { stage, children } => {
            let result = stage_result(handlers, stages[stage as int], reply, history);
            let after = stage_history(handlers, stages[stage as int], reply, history);
            if result is Ok && stage + 1 < stages.len() {
                run_from_stays_in_budget(
                    handlers,
                    stages,
                    stage + 1,
                    PendingView::Text(result->Ok_0),
                    children,
                    after,
                );
            }
        },
        PipelineStateView::Closing { stage, children } => {
            run_from_stays_in_budget(
                handlers,
                stages,
                stage as int,
                PendingView::Inherit,
                children,
                history,
            );
        },
        PipelineStateView::Spawning { stage, children, pending } => {
            run_from_stays_in_budget(
                handlers,
                stages,
                stage + 1,
                PendingView::Child(children),
                (children + 1) as usize,
                history,
            );
        },
        PipelineStateView::Feeding { stage, children } => {
            run_from_stays_in_budget(
                handlers,
                stages,
                stage + 1,
                PendingView::Child((children - 1) as usize),
                children,
                history,
            );
        },
        _ => {},
    }
}

/// The handler of pipelines, over the handlers of a session.
pub struct PipelineCommandHandler<'a> {
    handlers: &'a Vec<Handler>,
}

/// The step that waits for the processes from `next` up to `upto` and
/// then gives `output` back.
fn reap_step(next: usize, upto: usize, output: String) -> (step: Step<PipelineState>)
    ensures
        step@ == reap(next, upto, output@),
{
    if next < upto {
        Step::Ask(PipelineState::Reaping { next, upto, output }, Request::Wait { child: next })
    } else {
        Step::Finish(Ok(output))
    }
}

/// The step that waits for the last process.
fn wrap_up_step(children: usize) -> (step: Step<PipelineState>)
    ensures
        step@ == wrap_up(children),
{
    if children >= 1 {
        Step::Ask(PipelineState::WaitingLast { children }, Request::Wait { child: children - 1 })
    } else {
        Step::Finish(Ok(String::new()))
    }
}

/// The failure of a stage that no handler runs.
fn no_builtin_error() -> (e: ShellError)
    ensures
        e@ == no_builtin(),
{
    ShellError::NoHandler { kind: "builtin".to_string() }
}

/// The stages of a pipeline as mathematical values.
pub open spec fn stage_views(commands: Seq<SupportedCommand>) -> Seq<CommandView> {
    Seq::new(
        commands.len(),
        |i: int|
            if 0 <= i < commands.len() {
                commands[i].model()
            } else {
                CommandView::NoArgument
            },
    )
}

impl PipelineState {
    /// Whether the state can arise in a pipeline of these stages.
    pub fn fits(&self, commands: &Vec<SupportedCommand>) -> (b: bool)
        ensures
            b == self@.fits(stage_views(commands@)),
    {
        let n = commands.len();
        match self {
            PipelineState::Builtin { stage, children } => *stage < n && *children <= *stage,
            PipelineState::Closing { stage, children } => *stage < n && *children <= *stage,
            PipelineState::Spawning { stage, children, .. } => {
                if *stage < n && *children <= *stage {
                    match &commands[*stage] {
                        SupportedCommand::Unspecified { .. } => true,
                        _ => false,
                    }
                } else {
                    false
                }
            },
            PipelineState::Feeding { stage, children } => *stage < n && 1 <= *children
                && *children - 1 <= *stage,
            PipelineState::WaitingLast { children } => *children >= 1,
            PipelineState::Reaping { next, upto, .. } => *next < *upto,
        }
    }
}

impl<'a> PipelineCommandHandler<'a> {
    /// The handlers that the built-in stages are run with.
    pub closed spec fn handlers(&self) -> Seq<Handler> {
        self.handlers@
    }

    pub fn new(handlers: &'a Vec<Handler>) -> (handler: PipelineCommandHandler<'a>)
        ensures
            handler.handlers() == handlers@,
    {
        PipelineCommandHandler { handlers }
    }

    /// Whether `cmd` is a pipeline.
    pub fn can_handle(&self, cmd: &SupportedCommand) -> (b: bool)
        ensures
            b == (cmd@ is Pipeline),
    {
        match cmd {
            SupportedCommand::Pipeline { .. } => true,
            _ => false,
        }
    }

    /// The pipeline after the built-in of stage `i` has given `result`.
    fn follow(
        &self,
        commands: &Vec<SupportedCommand>,
        i: usize,
        children: usize,
        result: Result<String, ShellError>,
        history: &mut HistoryState,
    ) -> (step: Step<PipelineState>)
        requires
            i < commands@.len(),
            children <= i,
        ensures
            (Progress { step: step@, history: final(history)@ }) == after_builtin(
                self.handlers(),
                stage_views(commands@),
                i as int,
                children,
                result_view(result),
                old(history)@,
            ),
    {
        match result {
            Err(e) => Step::Finish(Err(e)),
            Ok(output) => {
                let n = commands.len();
                if i + 1 >= n {
                    reap_step(0, children, output)
                } else {
                    self.advance(commands, i + 1, Pending::Text(output), children, history)
                }
            },
        }
    }

    /// The pipeline from stage `from` on.
    fn advance(
        &self,
        commands: &Vec<SupportedCommand>,
        from: usize,
        pending: Pending,
        children: usize,
        history: &mut HistoryState,
    ) -> (step: Step<PipelineState>)
        requires
            from <= commands@.len(),
            children <= from,
        ensures
            (Progress { step: step@, history: final(history)@ }) == run_from(
                self.handlers(),
                stage_views(commands@),
                from as int,
                pending@,
                children,
                old(history)@,
            ),
    {
        let ghost stages = stage_views(commands@);
        let ghost first = pending@;
        let n = commands.len();
        let mut i: usize = from;
        let mut current = pending;
        while i < n
            invariant
                from <= i <= commands@.len(),
                n == commands@.len(),
                children <= i,
                first == pending@,
                stages == stage_views(commands@),
                run_from(self.handlers(), stages, i as int, current@, children, history@)
                    == run_from(
                    self.handlers(),
                    stages,
                    from as int,
                    first,
                    children,
                    old(history)@,
                ),
            decreases n - i,
        {
            let stage = &commands[i];
            assert(stages[i as int] == stage@);
            match stage {
                SupportedCommand::Unspecified { cmd, args } => {
                    assert(stage@ == CommandView::Unspecified {
                        cmd: cmd@,
                        args: args.deep_view(),
                    });
                    let stdin = match &current {
                        Pending::Inherit => Source::Inherit,
                        Pending::Text(_) => Source::Pipe,
                        Pending::Child(child) => Source::Child(*child),
                    };
                    assert(stdin == source_of(current@));
                    let request = UnspecifiedCommandHandler.spawn_process(
                        cmd,
                        args,
                        stdin,
                        i + 1 < n,
                    );
                    return Step::Ask(
                        PipelineState::Spawning { stage: i, children, pending: current },
                        request,
                    );
                },
                _ => {
                    assert(!(stage@ is Unspecified));
                    if let Pending::Child(child) = current {
                        return Step::Ask(
                            PipelineState::Closing { stage: i, children },
                            Request::Close { child },
                        );
                    }
                    let found = find_handler(self.handlers, stage);
                    let h = match found {
                        Some(h) => h,
                        None => {
                            return Step::Finish(Err(no_builtin_error()));
                        },
                    };
                    if let Some(request) = self.handlers[h].request(stage, history) {
                        return Step::Ask(PipelineState::Builtin { stage: i, children }, request);
                    }
                    let result = self.handlers[h].handle(stage, &Reply::Nothing, history);
                    match result {
                        Err(e) => {
                            return Step::Finish(Err(e));
                        },
                        Ok(output) => {
                            if i + 1 >= n {
                                return reap_step(0, children, output);
                            }
                            current = Pending::Text(output);
                            i += 1;
                        },
                    }
                },
            }
        }
        wrap_up_step(children)
    }

    /// Starts the pipeline `cmd`.
    pub fn start(&self, cmd: &SupportedCommand, history: &mut HistoryState) -> (step: Step<
        PipelineState,
    >)
        ensures
            (Progress { step: step@, history: final(history)@ }) == pipeline_start(
                self.handlers(),
                cmd@,
                old(history)@,
            ),
    {
        match cmd {
            SupportedCommand::Pipeline { commands } => {
                assert(cmd@->commands =~= stage_views(commands@));
                self.advance(commands, 0, Pending::Inherit, 0, history)
            },
            _ => Step::Finish(Err(not_handled_error())),
        }
    }

    /// Goes on with the pipeline `cmd` from `state`, given the host's
    /// answer to the request of the step before.
    pub fn resume(
        &self,
        cmd: &SupportedCommand,
        state: PipelineState,
        reply: &Reply,
        history: &mut HistoryState,
    ) -> (step: Step<PipelineState>)
        ensures
            (Progress { step: step@, history: final(history)@ }) == pipeline_resume(
                self.handlers(),
                cmd@,
                state@,
                reply@,
                old(history)@,
            ),
    {
        let commands: &Vec<SupportedCommand> = match cmd {
            SupportedCommand::Pipeline { commands } => commands,
            _ => {
                return Step::Finish(Err(not_handled_error()));
            },
        };
        let ghost stages = stage_views(commands@);
        assert(cmd@->commands =~= stages);
        let n = commands.len();
        if !state.fits(commands) {
            return Step::Finish(Err(no_answer_error()));
        }
        match state {
            PipelineState::Builtin { stage, children } => {
                let command = &commands[stage];
                assert(stages[stage as int] == command@);
                let result = match find_handler(self.handlers, command) {
                    Some(h) => self.handlers[h].handle(command, reply, history),
                    None => Err(no_builtin_error()),
                };
                self.follow(commands, stage, children, result, history)
            },
            PipelineState::Closing { stage, children } => self.advance(
                commands,
                stage,
                Pending::Inherit,
                children,
                history,
            ),
            PipelineState::Spawning { stage, children, pending } => match reply {
                Reply::Done(Ok(())) => match pending {
                    Pending::Text(text) => Step::Ask(
                        PipelineState::Feeding { stage, children: children + 1 },
                        Request::Feed { child: children, text },
                    ),
                    _ => self.advance(
                        commands,
                        stage + 1,
                        Pending::Child(children),
                        children + 1,
                        history,
                    ),
                },
                Reply::Done(Err(error)) => {
                    let command = &commands[stage];
                    assert(stages[stage as int] == command@);
                    let name = match command {
                        SupportedCommand::Unspecified { cmd, .. } => cmd.clone(),
                        _ => String::new(),
                    };
                    Step::Finish(Err(UnspecifiedCommandHandler::failure(&name, error)))
                },
                _ => Step::Finish(Err(no_answer_error())),
            },
            PipelineState::Feeding { stage, children } => match reply {
                Reply::Done(Ok(())) => self.advance(
                    commands,
                    stage + 1,
                    Pending::Child(children - 1),
                    children,
                    history,
                ),
                Reply::Done(Err(error)) => Step::Finish(
                    Err(ShellError::IoFailure { cause: error.message.clone() }),
                ),
                _ => Step::Finish(Err(no_answer_error())),
            },
            PipelineState::WaitingLast { children } => match reply {
                Reply::Done(Ok(())) => reap_step(0, children - 1, String::new()),
                Reply::Done(Err(error)) => Step::Finish(
                    Err(ShellError::IoFailure { cause: error.message.clone() }),
                ),
                _ => Step::Finish(Err(no_answer_error())),
            },
            PipelineState::Reaping { next, upto, output } => reap_step(next + 1, upto, output),
        }
    }
}

} // verus!
