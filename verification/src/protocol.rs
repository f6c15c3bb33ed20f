//! What holds of every run of the mediator, whatever the caller reports.
//!
//! A run is a request and the events that the caller reported for it, in
//! order. The step that answers the first `k` events of a run is
//! `step_after` on those `k` events; with no event it is the opening step.

use crate::confirm::{elevated_decision, ordinary_decision, ConfirmationOutcome};
use crate::decode::lossy_decoding;
use crate::mediator::{violation, EffectModel, EventModel, Phase, ResultModel, StepModel};
use crate::outcome::{OutcomeModel, Status};
use crate::request::RequestModel;
use crate::risk::{path_tier, RiskTier};
use vstd::prelude::*;
use vstd::utf8::{encode_utf8, encode_utf8_decode_utf8, encode_utf8_valid_utf8};

verus! {

/// The phase in which a run stands after its events.
pub open spec fn phase_after(request: RequestModel, events: Seq<EventModel>) -> Phase
    decreases events.len(),
{
    if events.len() == 0 {
        request.opening().0
    } else {
        request.transition(phase_after(request, events.drop_last()), events.last()).0
    }
}

/// The step that the mediator names after the events of a run.
pub open spec fn step_after(request: RequestModel, events: Seq<EventModel>) -> StepModel
    decreases events.len(),
{
    if events.len() == 0 {
        request.opening().1
    } else {
        request.transition(phase_after(request, events.drop_last()), events.last()).1
    }
}

/// How far a phase is on the way to the outcome.
pub open spec fn rank(phase: Phase) -> nat {
    match phase {
        Phase::Probing => 0,
        Phase::Confirming => 1,
        Phase::Escalating => 2,
        Phase::Preparing => 3,
        Phase::Performing => 4,
        Phase::Closed => 5,
    }
}

/// The step that belongs to a phase: each phase waits for the answer to
/// one kind of step.
pub open spec fn step_fits(phase: Phase, step: StepModel) -> bool {
    match phase {
        Phase::Probing => step is Probe,
        Phase::Confirming => step is Confirm,
        Phase::Escalating => step is ConfirmElevated,
        Phase::Preparing => step is Perform,
        Phase::Performing => step is Perform,
        Phase::Closed => step is Finish,
    }
}

/// Event `i` of the run is the operator's agreement at the ordinary gate.
pub open spec fn consent_at(request: RequestModel, events: Seq<EventModel>, i: int) -> bool {
    &&& 0 <= i < events.len()
    &&& phase_after(request, events.take(i)) == Phase::Confirming
    &&& events[i] matches EventModel::Reply(reply)
    &&& ordinary_decision(reply) == ConfirmationOutcome::Authorized
}

/// Event `j` of the run is the operator's agreement at the elevated gate.
pub open spec fn elevated_consent_at(request: RequestModel, events: Seq<EventModel>, j: int) -> bool {
    &&& 0 <= j < events.len()
    &&& phase_after(request, events.take(j)) == Phase::Escalating
    &&& events[j] matches EventModel::Reply(reply)
    &&& elevated_decision(reply) == ConfirmationOutcome::Authorized
}

/// The run holds all the agreement that the request needs: the ordinary
/// one, and for a dangerous request the elevated one after it.
pub open spec fn consented(request: RequestModel, events: Seq<EventModel>) -> bool {
    exists|i: int| #[trigger]
        consent_at(request, events, i) && (request.tier() == RiskTier::Dangerous ==> exists|j: int|
            i < j && #[trigger] elevated_consent_at(request, events, j))
}

/// Event `i` of the run is a refusal at one of the two gates: the operator
/// was asked and did not give the answer that it takes.
pub open spec fn denial_at(request: RequestModel, events: Seq<EventModel>, i: int) -> bool {
    &&& 0 <= i < events.len()
    &&& events[i] matches EventModel::Reply(reply)
    &&& match phase_after(request, events.take(i)) {
        Phase::Confirming => ordinary_decision(reply) == ConfirmationOutcome::Denied,
        Phase::Escalating => elevated_decision(reply) == ConfirmationOutcome::Denied,
        _ => false,
    }
}

/// Every event moves a request forward, and a closed request stays closed
/// and answers with a failure.
pub proof fn lemma_transition_moves_forward(request: RequestModel, phase: Phase, event: EventModel)
    ensures
        phase != Phase::Closed ==> rank(request.transition(phase, event).0) > rank(phase),
        phase == Phase::Closed ==> request.transition(phase, event) == (
            Phase::Closed,
            StepModel::Finish(violation()),
        ),
        step_fits(request.transition(phase, event).0, request.transition(phase, event).1),
{
}

/// The step that a run ends with is the one that its phase waits on. So a
/// run has its outcome exactly when it is closed.
pub proof fn lemma_step_fits_phase(request: RequestModel, events: Seq<EventModel>)
    ensures
        step_fits(phase_after(request, events), step_after(request, events)),
        step_after(request, events) is Finish <==> phase_after(request, events) == Phase::Closed,
        step_after(request, events) is Perform <==> (phase_after(request, events)
            == Phase::Preparing || phase_after(request, events) == Phase::Performing),
{
    if events.len() > 0 {
        lemma_transition_moves_forward(
            request,
            phase_after(request, events.drop_last()),
            events.last(),
        );
    }
}

/// A run never goes back: no earlier part of it stands further on.
pub proof fn lemma_phase_never_goes_back(request: RequestModel, events: Seq<EventModel>, k: int)
    requires
        0 <= k <= events.len(),
    ensures
        rank(phase_after(request, events.take(k))) <= rank(phase_after(request, events)),
    decreases events.len(),
{
    if k == events.len() {
        assert(events.take(k) =~= events);
    } else {
        let shorter = events.drop_last();
        assert(shorter.take(k) =~= events.take(k));
        lemma_phase_never_goes_back(request, shorter, k);
        lemma_transition_moves_forward(request, phase_after(request, shorter), events.last());
    }
}

/// The most events that a run can have behind it while it stands in a
/// phase. A request that starts with a probe never prepares directories,
/// and the others are never probed.
pub open spec fn most_events(request: RequestModel, phase: Phase) -> nat {
    match phase {
        Phase::Probing => 0,
        Phase::Confirming => if request.needs_existing_target() {
            1
        } else {
            0
        },
        Phase::Escalating => if request.needs_existing_target() {
            2
        } else {
            1
        },
        Phase::Preparing => 2,
        Phase::Performing => 3,
        Phase::Closed => 4,
    }
}

/// A run that is not closed has no more events behind it than its phase
/// allows.
pub proof fn lemma_open_run_is_short(request: RequestModel, events: Seq<EventModel>)
    ensures
        phase_after(request, events) != Phase::Closed ==> events.len() <= most_events(
            request,
            phase_after(request, events),
        ),
        phase_after(request, events) == Phase::Probing ==> request.needs_existing_target(),
    decreases events.len(),
{
    if events.len() > 0 {
        lemma_open_run_is_short(request, events.drop_last());
    }
}

/// Every request comes to its outcome: after four events, whatever they
/// are, the run is closed.
pub proof fn lemma_closed_after_four_events(request: RequestModel, events: Seq<EventModel>)
    requires
        events.len() >= 4,
    ensures
        phase_after(request, events) == Phase::Closed,
        step_after(request, events) is Finish,
{
    lemma_open_run_is_short(request, events);
    lemma_step_fits_phase(request, events);
}

/// What was agreed in a run stays agreed when the run goes on.
proof fn lemma_consent_stays(request: RequestModel, events: Seq<EventModel>, i: int)
    requires
        events.len() > 0,
    ensures
        consent_at(request, events.drop_last(), i) ==> consent_at(request, events, i),
        elevated_consent_at(request, events.drop_last(), i) ==> elevated_consent_at(
            request,
            events,
            i,
        ),
{
    if 0 <= i < events.len() - 1 {
        assert(events.drop_last().take(i) =~= events.take(i));
    }
}

/// The agreement that each phase behind the gates rests on.
proof fn lemma_consent_behind_gates(request: RequestModel, events: Seq<EventModel>)
    ensures
        phase_after(request, events) == Phase::Escalating ==> request.tier() == RiskTier::Dangerous
            && exists|i: int| consent_at(request, events, i),
        phase_after(request, events) == Phase::Preparing || phase_after(request, events)
            == Phase::Performing ==> consented(request, events),
    decreases events.len(),
{
    if events.len() > 0 {
        let earlier = events.drop_last();
        let before = phase_after(request, earlier);
        let last = events.len() - 1;
        lemma_consent_behind_gates(request, earlier);
        assert(events.take(last) =~= earlier);
        match (before, events.last()) {
            (Phase::Confirming, EventModel::Reply(reply)) => {
                if ordinary_decision(reply) == ConfirmationOutcome::Authorized {
                    assert(consent_at(request, events, last));
                }
            },
            (Phase::Escalating, EventModel::Reply(reply)) => {
                if elevated_decision(reply) == ConfirmationOutcome::Authorized {
                    let i = choose|i: int| consent_at(request, earlier, i);
                    lemma_consent_stays(request, events, i);
                    assert(elevated_consent_at(request, events, last));
                    assert(consent_at(request, events, i));
                }
            },
            (Phase::Preparing, EventModel::Completed(ResultModel::Done)) => {
                let i = choose|i: int| #[trigger]
                    consent_at(request, earlier, i) && (request.tier() == RiskTier::Dangerous
                        ==> exists|j: int|
                        i < j && #[trigger] elevated_consent_at(request, earlier, j));
                lemma_consent_stays(request, events, i);
                if request.tier() == RiskTier::Dangerous {
                    let j = choose|j: int| i < j && elevated_consent_at(request, earlier, j);
                    lemma_consent_stays(request, events, j);
                    assert(elevated_consent_at(request, events, j));
                }
                assert(consent_at(request, events, i));
            },
            _ => {},
        }
    }
}

/// The elevated prompt is for dangerous requests alone, and it comes after
/// the operator has agreed at the ordinary one.
pub proof fn lemma_elevated_prompt_means_danger(request: RequestModel, events: Seq<EventModel>)
    requires
        step_after(request, events) is ConfirmElevated,
    ensures
        request.tier() == RiskTier::Dangerous,
        exists|i: int| consent_at(request, events, i),
{
    lemma_step_fits_phase(request, events);
    lemma_consent_behind_gates(request, events);
}

/// No effect without agreement. Where a run names an effect, the operator
/// has agreed at the ordinary gate, and for a dangerous request at the
/// elevated gate as well, after the ordinary one.
pub proof fn lemma_effect_needs_consent(request: RequestModel, events: Seq<EventModel>)
    requires
        step_after(request, events) is Perform,
    ensures
        consented(request, events),
{
    lemma_step_fits_phase(request, events);
    lemma_consent_behind_gates(request, events);
}

/// A refusal is final and clean. Where the operator refuses at a gate, the
/// request ends there as cancelled, and no step of the run, before or
/// after, names an effect.
pub proof fn lemma_denial_cancels_without_effect(
    request: RequestModel,
    events: Seq<EventModel>,
    i: int,
    k: int,
)
    requires
        denial_at(request, events, i),
        0 <= k <= events.len(),
    ensures
        step_after(request, events.take(i + 1)) == StepModel::Finish(
            OutcomeModel::Cancelled { reason: request.cancel_reason() },
        ),
        !(step_after(request, events.take(k)) is Perform),
{
    let upto = events.take(i + 1);
    assert(upto.drop_last() =~= events.take(i));
    assert(upto.last() == events[i]);
    assert(phase_after(request, upto) == Phase::Closed);
    lemma_step_fits_phase(request, events.take(k));
    if k <= i {
        assert(events.take(i).take(k) =~= events.take(k));
        lemma_phase_never_goes_back(request, events.take(i), k);
    } else {
        assert(events.take(k).take(i + 1) =~= upto);
        lemma_phase_never_goes_back(request, events.take(k), i + 1);
    }
}

/// A request to read or delete a file that is not there fails at once: the
/// first step is the probe, its answer ends the request with a failure that
/// names the path, and the operator is never asked.
pub proof fn lemma_missing_target_fails_unasked(
    request: RequestModel,
    events: Seq<EventModel>,
    k: int,
)
    requires
        request.well_formed(),
        request.needs_existing_target(),
        events.len() > 0,
        events[0] == EventModel::Existence(false),
        0 <= k <= events.len(),
    ensures
        step_after(request, events.take(0)) == (StepModel::Probe { path: request.target() }),
        step_after(request, events.take(1)) == StepModel::Finish(
            OutcomeModel::Failed { message: "文件不存在: "@ + request.target() },
        ),
        !(step_after(request, events.take(k)) is Confirm),
        !(step_after(request, events.take(k)) is ConfirmElevated),
        !(step_after(request, events.take(k)) is Perform),
{
    let first = events.take(1);
    assert(first.drop_last() =~= Seq::<EventModel>::empty());
    assert(first.last() == events[0]);
    assert(phase_after(request, first) == Phase::Closed);
    lemma_step_fits_phase(request, events.take(k));
    if k >= 1 {
        assert(events.take(k).take(1) =~= first);
        lemma_phase_never_goes_back(request, events.take(k), 1);
    }
}

/// The mediator hands the request's parameters on as they are. An effect
/// named in a run is the request's own, or, for a new file, the making of
/// the directories above the request's path.
pub proof fn lemma_effects_are_the_requests(request: RequestModel, events: Seq<EventModel>)
    requires
        step_after(request, events) is Perform,
    ensures
        step_after(request, events) == StepModel::Perform(request.effect()) || (request
            is CreateFile && step_after(request, events) == StepModel::Perform(
            EffectModel::EnsureParents { path: request.target() },
        )),
{
}

/// The events of a run in which everything goes well: the target is there
/// where it is looked for, the operator agrees at each prompt that the
/// request has, the directories are made where a file is to be made, and
/// the effect comes to `result`.
pub open spec fn agreed_events(
    request: RequestModel,
    ordinary: Seq<char>,
    elevated: Seq<char>,
    result: ResultModel,
) -> Seq<EventModel> {
    let probed = if request.needs_existing_target() {
        seq![EventModel::Existence(true)]
    } else {
        Seq::empty()
    };
    let asked = if request.tier() == RiskTier::Dangerous {
        seq![EventModel::Reply(Some(ordinary)), EventModel::Reply(Some(elevated))]
    } else {
        seq![EventModel::Reply(Some(ordinary))]
    };
    let prepared = if request is CreateFile {
        seq![EventModel::Completed(ResultModel::Done)]
    } else {
        Seq::empty()
    };
    probed + asked + prepared + seq![EventModel::Completed(result)]
}

/// With agreement the request is carried out. In a run in which everything
/// goes well, the last step but one names the request's own effect, and the
/// last step gives the outcome that the effect's result comes to.
pub proof fn lemma_agreed_run_is_carried_out(
    request: RequestModel,
    ordinary: Seq<char>,
    elevated: Seq<char>,
    result: ResultModel,
)
    requires
        request.well_formed(),
        ordinary_decision(Some(ordinary)) == ConfirmationOutcome::Authorized,
        request.tier() == RiskTier::Dangerous ==> elevated_decision(Some(elevated))
            == ConfirmationOutcome::Authorized,
    ensures
        step_after(request, agreed_events(request, ordinary, elevated, result).drop_last())
            == StepModel::Perform(request.effect()),
        step_after(request, agreed_events(request, ordinary, elevated, result))
            == StepModel::Finish(request.conclusion(result)),
{
    let events = agreed_events(request, ordinary, elevated, result);
    let n = events.len() as int;
    assert(events.take(0) =~= Seq::<EventModel>::empty());
    assert forall|k: int| 0 < k <= n implies #[trigger] events.take(k).drop_last() == events.take(
        k - 1,
    ) && events.take(k).last() == events[k - 1] by {
        assert(events.take(k).drop_last() =~= events.take(k - 1));
    }
    assert(events.take(n) =~= events);
    assert(events.drop_last() =~= events.take(n - 1));
    lemma_unfold_run(request, events, 1);
    if n >= 2 {
        lemma_unfold_run(request, events, 2);
    }
    if n >= 3 {
        lemma_unfold_run(request, events, 3);
    }
    if n >= 4 {
        lemma_unfold_run(request, events, 4);
    }
}

/// The phase and the step after `k` events, from those after `k - 1`.
proof fn lemma_unfold_run(request: RequestModel, events: Seq<EventModel>, k: int)
    requires
        0 < k <= events.len(),
    ensures
        (phase_after(request, events.take(k)), step_after(request, events.take(k)))
            == request.transition(phase_after(request, events.take(k - 1)), events[k - 1]),
{
    assert(events.take(k).drop_last() =~= events.take(k - 1));
}

/// What is written as text reads back as the same text. When the operator
/// agrees to both requests, the creation of a file with a text names the
/// writing of that text's bytes to the path; and where the reading of the
/// path brings those bytes back, its outcome holds the text, character for
/// character.
pub proof fn lemma_created_text_reads_back(
    path: Seq<char>,
    text: Seq<char>,
    ordinary: Seq<char>,
    elevated: Seq<char>,
)
    requires
        path.len() > 0,
        ordinary_decision(Some(ordinary)) == ConfirmationOutcome::Authorized,
        path_tier(path) == RiskTier::Dangerous ==> elevated_decision(Some(elevated))
            == ConfirmationOutcome::Authorized,
    ensures
        ({
            let bytes = encode_utf8(text);
            let create = RequestModel::CreateFile { path, content: bytes };
            let read = RequestModel::ReadFile { path };
            let writing = agreed_events(create, ordinary, elevated, ResultModel::Done);
            let reading = agreed_events(read, ordinary, elevated, ResultModel::Content(bytes));
            &&& step_after(create, writing.drop_last()) == StepModel::Perform(
                EffectModel::WriteFile { path, content: bytes },
            )
            &&& step_after(create, writing) == StepModel::Finish(
                OutcomeModel::Created { path, size: bytes.len() },
            )
            &&& step_after(read, reading.drop_last()) == StepModel::Perform(
                EffectModel::ReadFile { path },
            )
            &&& step_after(read, reading) == StepModel::Finish(
                OutcomeModel::Read { path, content: text },
            )
        }),
{
    let bytes = encode_utf8(text);
    encode_utf8_valid_utf8(text);
    encode_utf8_decode_utf8(text);
    lemma_agreed_run_is_carried_out(
        RequestModel::CreateFile { path, content: bytes },
        ordinary,
        elevated,
        ResultModel::Done,
    );
    lemma_agreed_run_is_carried_out(
        RequestModel::ReadFile { path },
        ordinary,
        elevated,
        ResultModel::Content(bytes),
    );
}

/// A command that ran is reported, whatever its exit code: the outcome of
/// a process that ended is never a failure of the action, it carries the
/// code and both streams, and its status is success exactly for code zero.
pub proof fn lemma_exit_code_is_reported(
    program: Seq<char>,
    args: Seq<Seq<char>>,
    code: Option<i32>,
    stdout: Seq<u8>,
    stderr: Seq<u8>,
)
    ensures
        ({
            let request = RequestModel::RunCommand { program, args };
            let outcome = request.conclusion(ResultModel::Exited { code, stdout, stderr });
            &&& outcome == (OutcomeModel::Ran {
                exit_code: code,
                stdout: lossy_decoding(stdout),
                stderr: lossy_decoding(stderr),
            })
            &&& (outcome.status() == Status::Success <==> code == Some(0i32))
            &&& (outcome.status() == Status::Error <==> code != Some(0i32))
            &&& (stdout.len() == 0 ==> lossy_decoding(stdout).len() == 0)
            &&& (stderr.len() == 0 ==> lossy_decoding(stderr).len() == 0)
        }),
{
}

} // verus!
