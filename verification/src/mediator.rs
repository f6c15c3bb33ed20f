//! The mediator: one action request, taken step by step from validation
//! through the confirmation gates to its effect and its outcome.
//!
//! The mediator itself touches nothing. It names the next step; the caller
//! carries it out (looks whether a file exists, asks the operator, performs
//! an effect) and reports back with an event. No effect is named before
//! the operator has agreed, and an event that does not answer the step at
//! hand ends the request with a failure.

use crate::confirm::{
    confirm, confirm_elevated, elevated_decision, ordinary_decision, ConfirmationOutcome,
};
use crate::decode::{from_utf8, from_utf8_lossy, lossy_decoding, strict_decoding};
use crate::outcome::{copy_words, ActionOutcome, OutcomeModel};
use crate::request::{prefixed, ActionRequest, RequestModel};
use crate::risk::RiskTier;
use crate::text::texts;
use vstd::prelude::*;

verus! {

/// What the caller does to the filesystem or the process table.
#[derive(Clone, Debug, PartialEq, Eq)]
pub enum Effect {
    /// Create the directories above `path` that are missing.
    EnsureParents { path: String },
    /// Write `content` to `path`, replacing what is there.
    WriteFile { path: String, content: Vec<u8> },
    /// Read the whole of `path` as text.
    ReadFile { path: String },
    /// Remove the file `path`, and nothing else.
    RemoveFile { path: String },
    /// List the working directory.
    ListDirectory { detailed: bool },
    /// Run `program` with `args`, wait, and capture both streams.
    Spawn { program: String, args: Vec<String> },
}

/// An effect as a mathematical value.
pub enum EffectModel {
    EnsureParents { path: Seq<char> },
    WriteFile { path: Seq<char>, content: Seq<u8> },
    ReadFile { path: Seq<char> },
    RemoveFile { path: Seq<char> },
    ListDirectory { detailed: bool },
    Spawn { program: Seq<char>, args: Seq<Seq<char>> },
}

impl View for Effect {
    type V = EffectModel;

    open spec fn view(&self) -> EffectModel {
        match self {
            Effect::EnsureParents { path } => EffectModel::EnsureParents { path: path@ },
            Effect::WriteFile { path, content } => EffectModel::WriteFile {
                path: path@,
                content: content@,
            },
            Effect::ReadFile { path } => EffectModel::ReadFile { path: path@ },
            Effect::RemoveFile { path } => EffectModel::RemoveFile { path: path@ },
            Effect::ListDirectory { detailed } => EffectModel::ListDirectory { detailed: *detailed },
            Effect::Spawn { program, args } => EffectModel::Spawn {
                program: program@,
                args: texts(args@),
            },
        }
    }
}

/// What the mediator asks of its caller next.
#[derive(Clone, Debug, PartialEq, Eq)]
pub enum Step {
    /// Report whether a file exists at `path`.
    Probe { path: String },
    /// Ask the operator for an ordinary confirmation.
    Confirm { description: String },
    /// Ask the operator to confirm a dangerous operation.
    ConfirmElevated { description: String },
    /// Carry out the effect and report its result.
    Perform(Effect),
    /// Nothing is left to do: this is the outcome.
    Finish(ActionOutcome),
}

/// A step as a mathematical value.
pub enum StepModel {
    Probe { path: Seq<char> },
    Confirm { description: Seq<char> },
    ConfirmElevated { description: Seq<char> },
    Perform(EffectModel),
    Finish(OutcomeModel),
}

impl View for Step {
    type V = StepModel;

    open spec fn view(&self) -> StepModel {
        match self {
            Step::Probe { path } => StepModel::Probe { path: path@ },
            Step::Confirm { description } => StepModel::Confirm { description: description@ },
            Step::ConfirmElevated { description } => StepModel::ConfirmElevated {
                description: description@,
            },
            Step::Perform(effect) => StepModel::Perform(effect@),
            Step::Finish(outcome) => StepModel::Finish(outcome@),
        }
    }
}

/// What an effect came to.
#[derive(Clone, Debug, PartialEq, Eq)]
pub enum EffectResult {
    /// Done, with nothing to report.
    Done,
    /// The bytes of the file that was read.
    Content(Vec<u8>),
    /// The entries that were listed.
    Entries(Vec<String>),
    /// The child process ended; both streams are as it wrote them.
    Exited { code: Option<i32>, stdout: Vec<u8>, stderr: Vec<u8> },
    /// The effect failed; the text says why.
    Error(String),
}

/// An effect's result as a mathematical value.
pub enum ResultModel {
    Done,
    Content(Seq<u8>),
    Entries(Seq<Seq<char>>),
    Exited { code: Option<i32>, stdout: Seq<u8>, stderr: Seq<u8> },
    Error(Seq<char>),
}

impl View for EffectResult {
    type V = ResultModel;

    open spec fn view(&self) -> ResultModel {
        match self {
            EffectResult::Done => ResultModel::Done,
            EffectResult::Content(bytes) => ResultModel::Content(bytes@),
            EffectResult::Entries(entries) => ResultModel::Entries(texts(entries@)),
            EffectResult::Exited { code, stdout, stderr } => ResultModel::Exited {
                code: *code,
                stdout: stdout@,
                stderr: stderr@,
            },
            EffectResult::Error(cause) => ResultModel::Error(cause@),
        }
    }
}

/// What the caller reports back.
#[derive(Clone, Debug, PartialEq, Eq)]
pub enum Event {
    /// The answer to a probe.
    Existence(bool),
    /// The operator's line at a prompt; `None` when no line could be read.
    Reply(Option<String>),
    /// The result of an effect.
    Completed(EffectResult),
}

/// An event as a mathematical value.
pub enum EventModel {
    Existence(bool),
    Reply(Option<Seq<char>>),
    Completed(ResultModel),
}

impl View for Event {
    type V = EventModel;

    open spec fn view(&self) -> EventModel {
        match self {
            Event::Existence(found) => EventModel::Existence(*found),
            Event::Reply(reply) => EventModel::Reply(
                match reply {
                    Some(line) => Some(line@),
                    None => None,
                },
            ),
            Event::Completed(result) => EventModel::Completed(result@),
        }
    }
}

/// Where a request stands.
#[derive(Clone, Copy, Debug, PartialEq, Eq, Structural)]
pub enum Phase {
    /// Waiting to hear whether the target exists.
    Probing,
    /// Waiting for the ordinary confirmation.
    Confirming,
    /// Waiting for the elevated confirmation.
    Escalating,
    /// Waiting for the parent directories of a new file.
    Preparing,
    /// Waiting for the effect itself.
    Performing,
    /// The outcome has been given.
    Closed,
}

impl RequestModel {
    /// The path that a file request names; empty for the others.
    pub open spec fn target(self) -> Seq<char> {
        match self {
            RequestModel::CreateFile { path, .. } => path,
            RequestModel::ReadFile { path } => path,
            RequestModel::DeleteFile { path } => path,
            _ => Seq::empty(),
        }
    }

    /// The effect that does what the request asks for, with the request's
    /// own parameters.
    pub open spec fn effect(self) -> EffectModel {
        match self {
            RequestModel::CreateFile { path, content } => EffectModel::WriteFile { path, content },
            RequestModel::ReadFile { path } => EffectModel::ReadFile { path },
            RequestModel::DeleteFile { path } => EffectModel::RemoveFile { path },
            RequestModel::ListFiles { detailed } => EffectModel::ListDirectory { detailed },
            RequestModel::RunCommand { program, args } => EffectModel::Spawn { program, args },
        }
    }

    /// The outcome that a result of the effect comes to. A file that was
    /// read must be text; the output of a command is taken as it is, with
    /// what is not text in it replaced.
    pub open spec fn conclusion(self, result: ResultModel) -> OutcomeModel {
        match (self, result) {
            (_, ResultModel::Error(cause)) => OutcomeModel::Failed {
                message: self.failure_prefix() + cause,
            },
            (RequestModel::CreateFile { path, content }, ResultModel::Done) => OutcomeModel::Created {
                path,
                size: content.len(),
            },
            (RequestModel::ReadFile { path }, ResultModel::Content(bytes)) => match strict_decoding(
                bytes,
            ) {
                Some(text) => OutcomeModel::Read { path, content: text },
                None => OutcomeModel::Failed { message: self.failure_prefix() + not_text() },
            },
            (RequestModel::DeleteFile { .. }, ResultModel::Done) => OutcomeModel::Deleted,
            (RequestModel::ListFiles { .. }, ResultModel::Entries(entries)) => OutcomeModel::Listed {
                entries,
            },
            (
                RequestModel::RunCommand { .. },
                ResultModel::Exited { code, stdout, stderr },
            ) => OutcomeModel::Ran {
                exit_code: code,
                stdout: lossy_decoding(stdout),
                stderr: lossy_decoding(stderr),
            },
            _ => violation(),
        }
    }

    /// The first step of a request.
    pub open spec fn opening(self) -> (Phase, StepModel) {
        if !self.well_formed() {
            (
                Phase::Closed,
                StepModel::Finish(OutcomeModel::Failed { message: self.malformed_message() }),
            )
        } else if self.needs_existing_target() {
            (Phase::Probing, StepModel::Probe { path: self.target() })
        } else {
            (Phase::Confirming, StepModel::Confirm { description: self.description() })
        }
    }

    /// The step that follows the last confirmation.
    pub open spec fn launch(self) -> (Phase, StepModel) {
        match self {
            RequestModel::CreateFile { path, .. } => (
                Phase::Preparing,
                StepModel::Perform(EffectModel::EnsureParents { path }),
            ),
            _ => (Phase::Performing, StepModel::Perform(self.effect())),
        }
    }

    /// The end of a request that the operator turned down.
    pub open spec fn cancelled(self) -> (Phase, StepModel) {
        (
            Phase::Closed,
            StepModel::Finish(OutcomeModel::Cancelled { reason: self.cancel_reason() }),
        )
    }

    /// The phase and the step that follow an event in a phase.
    pub open spec fn transition(self, phase: Phase, event: EventModel) -> (Phase, StepModel) {
        match (phase, event) {
            (Phase::Probing, EventModel::Existence(found)) => if found {
                (Phase::Confirming, StepModel::Confirm { description: self.description() })
            } else {
                (
                    Phase::Closed,
                    StepModel::Finish(
                        OutcomeModel::Failed { message: "文件不存在: "@ + self.target() },
                    ),
                )
            },
            (Phase::Confirming, EventModel::Reply(reply)) => if ordinary_decision(reply)
                == ConfirmationOutcome::Authorized {
                if self.tier() == RiskTier::Dangerous {
                    (
                        Phase::Escalating,
                        StepModel::ConfirmElevated { description: self.description() },
                    )
                } else {
                    self.launch()
                }
            } else {
                self.cancelled()
            },
            (Phase::Escalating, EventModel::Reply(reply)) => if elevated_decision(reply)
                == ConfirmationOutcome::Authorized {
                self.launch()
            } else {
                self.cancelled()
            },
            (Phase::Preparing, EventModel::Completed(ResultModel::Done)) => (
                Phase::Performing,
                StepModel::Perform(self.effect()),
            ),
            (Phase::Preparing, EventModel::Completed(ResultModel::Error(cause))) => (
                Phase::Closed,
                StepModel::Finish(OutcomeModel::Failed { message: "创建目录失败: "@ + cause }),
            ),
            (Phase::Performing, EventModel::Completed(result)) => (
                Phase::Closed,
                StepModel::Finish(self.conclusion(result)),
            ),
            _ => (Phase::Closed, StepModel::Finish(violation())),
        }
    }
}

/// The outcome of an event that does not answer the step at hand.
pub open spec fn violation() -> OutcomeModel {
    OutcomeModel::Failed { message: "内部错误: 事件与当前步骤不符"@ }
}

/// Why a file that is not well-formed UTF-8 cannot be read.
pub open spec fn not_text() -> Seq<char> {
    "文件不是有效的 UTF-8 文本"@
}

/// The outcome of an event that does not answer the step at hand.
fn mismatch() -> (outcome: ActionOutcome)
    ensures
        outcome@ == violation(),
{
    ActionOutcome::Failed { message: String::from_str("内部错误: 事件与当前步骤不符") }
}

/// A copy of a byte string.
fn copy_bytes(bytes: &Vec<u8>) -> (r: Vec<u8>)
    ensures
        r@ == bytes@,
{
    let mut r: Vec<u8> = Vec::new();
    let mut i: usize = 0;
    while i < bytes.len()
        invariant
            i <= bytes.len(),
            r@ == bytes@.take(i as int),
        decreases bytes.len() - i,
    {
        r.push(bytes[i]);
        i = i + 1;
        assert(r@ =~= bytes@.take(i as int));
    }
    assert(bytes@.take(bytes.len() as int) =~= bytes@);
    r
}

impl ActionRequest {
    /// The path that a file request names; empty for the others.
    pub fn target(&self) -> (path: &str)
        ensures
            path@ == self@.target(),
    {
        match self {
            ActionRequest::CreateFile { path, .. } => path.as_str(),
            ActionRequest::ReadFile { path } => path.as_str(),
            ActionRequest::DeleteFile { path } => path.as_str(),
            _ => {
                proof {
                    reveal_strlit("");
                    assert(""@ =~= Seq::<char>::empty());
                }
                ""
            },
        }
    }

    /// The effect that does what the request asks for.
    pub fn effect(&self) -> (effect: Effect)
        ensures
            effect@ == self@.effect(),
    {
        match self {
            ActionRequest::CreateFile { path, content } => Effect::WriteFile {
                path: path.clone(),
                content: copy_bytes(content),
            },
            ActionRequest::ReadFile { path } => Effect::ReadFile { path: path.clone() },
            ActionRequest::DeleteFile { path } => Effect::RemoveFile { path: path.clone() },
            ActionRequest::ListFiles { detailed } => Effect::ListDirectory { detailed: *detailed },
            ActionRequest::RunCommand { program, args } => Effect::Spawn {
                program: program.clone(),
                args: copy_words(args),
            },
        }
    }

    /// The outcome that a result of the effect comes to.
    pub fn conclusion(&self, result: EffectResult) -> (outcome: ActionOutcome)
        ensures
            outcome@ == self@.conclusion(result@),
    {
        match result {
            EffectResult::Error(cause) => ActionOutcome::Failed {
                message: self.failure_message(cause.as_str()),
            },
            EffectResult::Done => match self {
                ActionRequest::CreateFile { path, content } => ActionOutcome::Created {
                    path: path.clone(),
                    size: content.len(),
                },
                ActionRequest::DeleteFile { .. } => ActionOutcome::Deleted,
                _ => mismatch(),
            },
            EffectResult::Content(bytes) => match self {
                ActionRequest::ReadFile { path } => match from_utf8(bytes) {
                    Some(text) => ActionOutcome::Read { path: path.clone(), content: text },
                    None => ActionOutcome::Failed {
                        message: self.failure_message("文件不是有效的 UTF-8 文本"),
                    },
                },
                _ => mismatch(),
            },
            EffectResult::Entries(entries) => match self {
                ActionRequest::ListFiles { .. } => ActionOutcome::Listed { entries },
                _ => mismatch(),
            },
            EffectResult::Exited { code, stdout, stderr } => match self {
                ActionRequest::RunCommand { .. } => ActionOutcome::Ran {
                    exit_code: code,
                    stdout: from_utf8_lossy(&stdout),
                    stderr: from_utf8_lossy(&stderr),
                },
                _ => mismatch(),
            },
        }
    }
}

/// One request on its way to its outcome.
#[derive(Debug)]
pub struct Mediation {
    request: ActionRequest,
    phase: Phase,
}

impl Mediation {
    /// The request.
    pub closed spec fn request(&self) -> RequestModel {
        self.request@
    }

    /// Where the request stands.
    pub closed spec fn phase(&self) -> Phase {
        self.phase
    }

    /// Takes a request and names its first step.
    pub fn begin(request: ActionRequest) -> (started: (Mediation, Step))
        ensures
            started.0.request() == request@,
            (started.0.phase(), started.1@) == request@.opening(),
    {
        if !request.is_well_formed() {
            let message = request.malformed_message();
            (
                Mediation { request, phase: Phase::Closed },
                Step::Finish(ActionOutcome::Failed { message }),
            )
        } else if request.needs_existing_target() {
            let path = String::from_str(request.target());
            (Mediation { request, phase: Phase::Probing }, Step::Probe { path })
        } else {
            let description = request.description();
            (Mediation { request, phase: Phase::Confirming }, Step::Confirm { description })
        }
    }

    /// Where the request stands.
    pub fn current_phase(&self) -> (phase: Phase)
        ensures
            phase == self.phase(),
    {
        self.phase
    }

    /// Tells whether the outcome has been given.
    pub fn is_closed(&self) -> (closed: bool)
        ensures
            closed == (self.phase() == Phase::Closed),
    {
        self.phase == Phase::Closed
    }

    /// The step that follows the last confirmation.
    fn launch(&self) -> (next: (Phase, Step))
        ensures
            (next.0, next.1@) == self.request().launch(),
    {
        match &self.request {
            ActionRequest::CreateFile { path, .. } => (
                Phase::Preparing,
                Step::Perform(Effect::EnsureParents { path: path.clone() }),
            ),
            _ => (Phase::Performing, Step::Perform(self.request.effect())),
        }
    }

    /// The end of a request that the operator turned down.
    fn cancelled(&self) -> (next: (Phase, Step))
        ensures
            (next.0, next.1@) == self.request().cancelled(),
    {
        (
            Phase::Closed,
            Step::Finish(ActionOutcome::Cancelled { reason: self.request.cancel_reason() }),
        )
    }

    /// Takes the caller's report on the step at hand and names the next
    /// step. The request stays as it is; only the phase moves.
    pub fn advance(&mut self, event: Event) -> (step: Step)
        ensures
            final(self).request() == old(self).request(),
            (final(self).phase(), step@) == old(self).request().transition(
                old(self).phase(),
                event@,
            ),
    {
        let (phase, step) = match (self.phase, event) {
            (Phase::Probing, Event::Existence(found)) => if found {
                (Phase::Confirming, Step::Confirm { description: self.request.description() })
            } else {
                (
                    Phase::Closed,
                    Step::Finish(
                        ActionOutcome::Failed {
                            message: prefixed("文件不存在: ", self.request.target()),
                        },
                    ),
                )
            },
            (Phase::Confirming, Event::Reply(reply)) => {
                let decision = match &reply {
                    Some(line) => confirm(Some(line.as_str())),
                    None => confirm(None),
                };
                if decision == ConfirmationOutcome::Authorized {
                    if self.request.tier() == RiskTier::Dangerous {
                        (
                            Phase::Escalating,
                            Step::ConfirmElevated { description: self.request.description() },
                        )
                    } else {
                        self.launch()
                    }
                } else {
                    self.cancelled()
                }
            },
            (Phase::Escalating, Event::Reply(reply)) => {
                let decision = match &reply {
                    Some(line) => confirm_elevated(Some(line.as_str())),
                    None => confirm_elevated(None),
                };
                if decision == ConfirmationOutcome::Authorized {
                    self.launch()
                } else {
                    self.cancelled()
                }
            },
            (Phase::Preparing, Event::Completed(EffectResult::Done)) => (
                Phase::Performing,
                Step::Perform(self.request.effect()),
            ),
            (Phase::Preparing, Event::Completed(EffectResult::Error(cause))) => (
                Phase::Closed,
                Step::Finish(
                    ActionOutcome::Failed { message: prefixed("创建目录失败: ", cause.as_str()) },
                ),
            ),
            (Phase::Performing, Event::Completed(result)) => (
                Phase::Closed,
                Step::Finish(self.request.conclusion(result)),
            ),
            _ => (Phase::Closed, Step::Finish(mismatch())),
        };
        self.phase = phase;
        step
    }
}

} // verus!
