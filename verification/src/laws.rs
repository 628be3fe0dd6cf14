//! What holds of every run of the planner.
//!
//! A run is fixed by the caller's request and by the builder's answers to the
//! estimate, to the commit request and to the reveal request. The functions
//! here follow a run step by step; the laws say what holds at each step,
//! whatever the request and the answers are.
use crate::bytes::placeholder_txid_spec;
use crate::cloner::{cloned_inputs, cloned_optional_output};
use crate::descriptor::{InputView, OutputView};
use crate::error::{PlanError, OK};
use crate::plan_builder::{
    after_commit, after_estimate, after_reveal, begin_spec, compose_outcome, plan_outcome,
    resume_spec, PlanStateView, PlanStepView, SignerCallView,
};
use crate::transaction::{
    inscription_input, inscription_output, report_of, ComposePlanRequestView, ComposePlanView,
    InscriptionPlanView, TransactionRequestView, TransactionResultView, PLACEHOLDER_VALUE,
};
use vstd::prelude::*;

verus! {

/// The request that `step` asks the builder to sign, if it asks for one.
pub open spec fn signed_request(step: PlanStepView) -> Option<TransactionRequestView> {
    match step {
        PlanStepView::Call { call: SignerCallView::Sign(request), .. } => Some(request),
        _ => None,
    }
}

/// The request that `step` asks the builder to estimate, if it asks for one.
pub open spec fn estimated_request(step: PlanStepView) -> Option<TransactionRequestView> {
    match step {
        PlanStepView::Call { call: SignerCallView::Estimate(request), .. } => Some(request),
        _ => None,
    }
}

/// Two requests describe transactions of the same shape: they differ at most
/// in the signing key and in the id and the value of the outputs that their
/// inputs spend.
pub open spec fn same_shape(a: TransactionRequestView, b: TransactionRequestView) -> bool {
    &&& a.inputs.len() == b.inputs.len()
    &&& forall|i: int|
        0 <= i < a.inputs.len() ==> {
            &&& (#[trigger] a.inputs[i]).vout == b.inputs[i].vout
            &&& a.inputs[i].sequence == b.inputs[i].sequence
            &&& a.inputs[i].sequence_enable_zero == b.inputs[i].sequence_enable_zero
            &&& a.inputs[i].sighash_type == b.inputs[i].sighash_type
            &&& a.inputs[i].recipient == b.inputs[i].recipient
        }
    &&& a.outputs == b.outputs
    &&& a.input_selector == b.input_selector
    &&& a.fee_per_unit == b.fee_per_unit
    &&& a.change_output == b.change_output
    &&& a.disable_change_output == b.disable_change_output
}

/// A request that lacks its inscription ends planning with
/// `MissingInscription`, and one that has an inscription and lacks its tagged
/// output with `MissingTaggedOutput`. In both cases planning ends at the first
/// step, so no request goes to the builder.
pub proof fn law_missing_field_ends_planning(request: ComposePlanRequestView)
    ensures
        request.inscription is None ==> begin_spec(request) == PlanStepView::Done(
            Err(PlanError::MissingInscription),
        ),
        request.inscription is Some && request.tagged_output is None ==> begin_spec(request)
            == PlanStepView::Done(Err(PlanError::MissingTaggedOutput)),
{
}

/// Planning asks the builder for something exactly when the request has an
/// inscription and a tagged output with a recipient, and what it asks for
/// first is an estimate.
pub proof fn law_first_request_is_the_estimate(request: ComposePlanRequestView)
    ensures
        begin_spec(request) is Call <==> request.inscription is Some && request.tagged_output
            is Some && request.tagged_output->0.well_formed(),
        begin_spec(request) is Call ==> estimated_request(begin_spec(request)) is Some,
        !(begin_spec(request) is Call) ==> begin_spec(request) matches PlanStepView::Done(
            Err(_),
        ),
{
}

/// The estimate is asked for a transaction with one input and one output: the
/// input spends output 0 of the placeholder transaction, holds the placeholder
/// value and carries the request's inscription; the output is the request's
/// tagged output. All inputs are used, no change is made, the fee rate is the
/// request's, and no key is handed over.
pub proof fn law_estimate_request(request: ComposePlanRequestView)
    requires
        begin_spec(request) is Call,
    ensures
        estimated_request(begin_spec(request)) matches Some(dummy) && {
            &&& dummy.inputs == seq![
                inscription_input(
                    placeholder_txid_spec(),
                    PLACEHOLDER_VALUE,
                    request.inscription->0,
                ),
            ]
            &&& dummy.outputs == seq![request.tagged_output->0]
            &&& dummy.fee_per_unit == request.fee_per_unit
            &&& dummy.private_key.len() == 0
            &&& dummy.change_output is None
            &&& dummy.disable_change_output
        },
{
}

/// Where the estimate fails, planning ends with the builder's code, and
/// nothing that is answered afterwards changes that: the commit transaction
/// is never asked for.
pub proof fn law_failed_estimate_ends_planning(
    request: ComposePlanRequestView,
    estimate: TransactionResultView,
    commit: TransactionResultView,
    reveal: TransactionResultView,
)
    requires
        begin_spec(request) is Call,
        estimate.error != OK,
    ensures
        after_estimate(request, estimate) == PlanStepView::Done(
            Err(PlanError::Builder(estimate.error)),
        ),
        after_commit(request, estimate, commit) == after_estimate(request, estimate),
        after_reveal(request, estimate, commit, reveal) == after_estimate(request, estimate),
{
}

/// Where the commit transaction fails, planning ends with the builder's code:
/// the reveal transaction is never asked for.
pub proof fn law_failed_commit_ends_planning(
    request: ComposePlanRequestView,
    estimate: TransactionResultView,
    commit: TransactionResultView,
    reveal: TransactionResultView,
)
    requires
        after_estimate(request, estimate) is Call,
        commit.error != OK,
    ensures
        after_commit(request, estimate, commit) == PlanStepView::Done(
            Err(PlanError::Builder(commit.error)),
        ),
        after_reveal(request, estimate, commit, reveal) == after_commit(
            request,
            estimate,
            commit,
        ),
{
}

/// After a successful estimate whose fee fits, planning goes on to the commit
/// transaction exactly when the change output, if there is one, has a
/// recipient and every input has a spending condition. Otherwise it ends: with
/// `InvalidOutputVariant` for the change output, else with
/// `InvalidInputVariant`.
pub proof fn law_commit_needs_well_formed_descriptors(
    request: ComposePlanRequestView,
    estimate: TransactionResultView,
)
    requires
        begin_spec(request) is Call,
        estimate.error == OK,
        estimate.fee_estimate + request.tagged_output->0.value <= u64::MAX,
    ensures
        after_estimate(request, estimate) is Call <==> cloned_optional_output(
            request.change_output,
        ) is Ok && cloned_inputs(request.inputs) is Ok,
        cloned_optional_output(request.change_output) is Err ==> after_estimate(request, estimate)
            == PlanStepView::Done(Err(PlanError::InvalidOutputVariant)),
        cloned_optional_output(request.change_output) is Ok && cloned_inputs(request.inputs)
            is Err ==> after_estimate(request, estimate) == PlanStepView::Done(
            Err(PlanError::InvalidInputVariant),
        ),
{
}

/// The value invariant. The commit transaction has exactly one output, the
/// inscription-bearing one, and it holds the estimated fee of the reveal
/// transaction plus the value of the tagged output. Its inputs, selection
/// mode, change output, change switch, fee rate and key are the caller's.
pub proof fn law_commit_parks_fee_and_tagged_value(
    request: ComposePlanRequestView,
    estimate: TransactionResultView,
)
    requires
        after_estimate(request, estimate) is Call,
    ensures
        estimate.fee_estimate + request.tagged_output->0.value <= u64::MAX,
        signed_request(after_estimate(request, estimate)) matches Some(commit) && {
            &&& commit.outputs.len() == 1
            &&& commit.outputs[0].value == estimate.fee_estimate + request.tagged_output->0.value
            &&& commit.outputs[0] == inscription_output(
                commit.outputs[0].value,
                request.inscription->0,
            )
            &&& commit.inputs == request.inputs
            &&& commit.input_selector == request.input_selector
            &&& commit.change_output == request.change_output
            &&& commit.disable_change_output == request.disable_change_output
            &&& commit.fee_per_unit == request.fee_per_unit
            &&& commit.private_key == request.private_key
        },
{
}

/// The linkage invariant. The reveal transaction has exactly one input. It
/// spends output 0 of the commit transaction, named by the commit
/// transaction's id in reverse byte order, and it holds what the commit
/// transaction parked: the estimated fee plus the value of the tagged output.
/// Its one output is the tagged output.
pub proof fn law_reveal_spends_commit_output(
    request: ComposePlanRequestView,
    estimate: TransactionResultView,
    commit: TransactionResultView,
)
    requires
        after_commit(request, estimate, commit) is Call,
    ensures
        signed_request(after_estimate(request, estimate)) is Some,
        signed_request(after_commit(request, estimate, commit)) matches Some(reveal) && {
            &&& reveal.inputs.len() == 1
            &&& reveal.inputs[0].txid == commit.txid.reverse()
            &&& reveal.inputs[0].vout == 0
            &&& reveal.inputs[0].value == estimate.fee_estimate + request.tagged_output->0.value
            &&& reveal.inputs[0].value == signed_request(
                after_estimate(request, estimate),
            )->0.outputs[0].value
            &&& reveal.inputs[0] == inscription_input(
                commit.txid.reverse(),
                reveal.inputs[0].value,
                request.inscription->0,
            )
            &&& reveal.outputs == seq![request.tagged_output->0]
            &&& reveal.fee_per_unit == request.fee_per_unit
            &&& reveal.private_key == request.private_key
        },
{
}

/// The transaction that is estimated has the shape of the reveal transaction
/// that is signed later: same number of inputs, same spending condition, same
/// outputs, same selection mode, fee rate and change settings. A builder whose
/// estimate depends on the shape alone therefore estimates the fee of the
/// reveal transaction itself.
pub proof fn law_estimate_has_the_shape_of_the_reveal(
    request: ComposePlanRequestView,
    estimate: TransactionResultView,
    commit: TransactionResultView,
)
    requires
        after_commit(request, estimate, commit) is Call,
    ensures
        estimated_request(begin_spec(request)) is Some,
        signed_request(after_commit(request, estimate, commit)) is Some,
        same_shape(
            estimated_request(begin_spec(request))->0,
            signed_request(after_commit(request, estimate, commit))->0,
        ),
{
}

/// Of a successful estimate only the fee goes into the plan: two estimates
/// with the same fee lead to the same step, whatever else they hold.
pub proof fn law_only_the_fee_of_the_estimate_counts(
    request: ComposePlanRequestView,
    first: TransactionResultView,
    second: TransactionResultView,
)
    requires
        first.error == OK,
        second.error == OK,
        first.fee_estimate == second.fee_estimate,
    ensures
        after_estimate(request, first) == after_estimate(request, second),
{
}

/// Of a failed estimate or a failed commit transaction only the code is read:
/// two answers with the same code other than `OK` lead to the same step from
/// any state that awaits one of the two.
pub proof fn law_only_the_code_of_a_failure_counts(
    state: PlanStateView,
    first: TransactionResultView,
    second: TransactionResultView,
)
    requires
        !(state is AwaitingReveal),
        first.error != OK,
        first.error == second.error,
    ensures
        resume_spec(state, first) == resume_spec(state, second),
{
}

/// Planning ends with the answer to the reveal request at the latest, so the
/// builder is asked at most three times: for the estimate, for the commit
/// transaction and for the reveal transaction, in this order.
pub proof fn law_three_requests_at_most(
    request: ComposePlanRequestView,
    estimate: TransactionResultView,
    commit: TransactionResultView,
    reveal: TransactionResultView,
)
    ensures
        after_reveal(request, estimate, commit, reveal) is Done,
        begin_spec(request) is Call ==> estimated_request(begin_spec(request)) is Some,
        after_estimate(request, estimate) is Call ==> signed_request(
            after_estimate(request, estimate),
        ) is Some,
        after_commit(request, estimate, commit) is Call ==> signed_request(
            after_commit(request, estimate, commit),
        ) is Some,
{
}

/// A run ends with a plan exactly when all three requests were made, that is
/// when the request passed every check and the estimate and the commit
/// transaction succeeded. The plan holds the builder's answers to the commit
/// and to the reveal request as they were; its commit transaction is a
/// success.
pub proof fn law_plan_holds_the_answers(
    request: ComposePlanRequestView,
    estimate: TransactionResultView,
    commit: TransactionResultView,
    reveal: TransactionResultView,
)
    ensures
        after_reveal(request, estimate, commit, reveal) matches PlanStepView::Done(Ok(_))
            <==> after_commit(request, estimate, commit) is Call,
        after_commit(request, estimate, commit) is Call <==> {
            &&& after_estimate(request, estimate) is Call
            &&& commit.error == OK
        },
        after_estimate(request, estimate) is Call ==> begin_spec(request) is Call
            && estimate.error == OK,
        after_commit(request, estimate, commit) is Call ==> after_reveal(
            request,
            estimate,
            commit,
            reveal,
        ) == PlanStepView::Done(Ok(InscriptionPlanView { commit, reveal })),
{
}

/// Every input of `inputs` has a spending condition.
pub open spec fn all_well_formed(inputs: Seq<InputView>) -> bool {
    forall|i: int| 0 <= i < inputs.len() ==> (#[trigger] inputs[i]).well_formed()
}

/// A copy is the descriptor itself: copying an output or a sequence of inputs
/// succeeds exactly on well-formed descriptors and then returns what it was
/// given, up to the storage it lives in.
pub proof fn law_copies_are_faithful(output: OutputView, inputs: Seq<InputView>)
    ensures
        cloned_optional_output(Some(output)) is Ok <==> output.well_formed(),
        output.well_formed() ==> cloned_optional_output(Some(output)) == Ok::<
            Option<OutputView>,
            PlanError,
        >(Some(output)),
        cloned_optional_output(None) == Ok::<Option<OutputView>, PlanError>(None),
        cloned_inputs(inputs) is Ok <==> all_well_formed(inputs),
        all_well_formed(inputs) ==> cloned_inputs(inputs) == Ok::<Seq<InputView>, PlanError>(
            inputs,
        ),
{
}

/// Where the estimate succeeds with a fee that, added to the value of the
/// tagged output, is more than an output can hold, planning ends with
/// `AmountOverflow`, whatever else the request holds. Nothing is asked of the
/// builder afterwards: no request is ever made with a sum that wrapped round.
pub proof fn law_overflowing_estimate_ends_planning(
    request: ComposePlanRequestView,
    estimate: TransactionResultView,
    commit: TransactionResultView,
    reveal: TransactionResultView,
)
    requires
        begin_spec(request) is Call,
        estimate.error == OK,
        estimate.fee_estimate + request.tagged_output->0.value > u64::MAX,
    ensures
        after_estimate(request, estimate) == PlanStepView::Done(
            Err(PlanError::AmountOverflow),
        ),
        after_commit(request, estimate, commit) == after_estimate(request, estimate),
        after_reveal(request, estimate, commit, reveal) == after_estimate(request, estimate),
        plan_outcome(request, estimate, commit, reveal) == Err::<InscriptionPlanView, PlanError>(
            PlanError::AmountOverflow,
        ),
{
}

/// With a fee above zero the commit transaction parks more than the value of
/// the tagged output.
pub proof fn law_positive_fee_parks_more_than_the_tagged_value(
    request: ComposePlanRequestView,
    estimate: TransactionResultView,
)
    requires
        after_estimate(request, estimate) is Call,
        estimate.fee_estimate > 0,
    ensures
        (signed_request(after_estimate(request, estimate)) matches Some(commit)
            && commit.outputs.len() == 1 && commit.outputs[0].value
            > request.tagged_output->0.value),
{
}

/// The plan that holds the answer `commit` and the answer `reveal`.
pub open spec fn plan_of(
    commit: TransactionResultView,
    reveal: TransactionResultView,
) -> InscriptionPlanView {
    InscriptionPlanView { commit, reveal }
}

/// A run on which the request passes every check and the builder succeeds
/// three times ends with the plan of the two signed transactions. It is
/// reported without an error and with an empty message, and the plan is a
/// strict one.
pub proof fn law_three_successes_make_a_plan(
    request: ComposePlanRequestView,
    estimate: TransactionResultView,
    commit: TransactionResultView,
    reveal: TransactionResultView,
)
    requires
        request.inscription is Some,
        request.tagged_output is Some,
        request.tagged_output->0.well_formed(),
        cloned_optional_output(request.change_output) is Ok,
        cloned_inputs(request.inputs) is Ok,
        estimate.error == OK,
        estimate.fee_estimate + request.tagged_output->0.value <= u64::MAX,
        commit.error == OK,
        reveal.error == OK,
    ensures
        ({
            let plan = plan_of(commit, reveal);
            let report = report_of(plan_outcome(request, estimate, commit, reveal));
            &&& plan_outcome(request, estimate, commit, reveal) == Ok::<
                InscriptionPlanView,
                PlanError,
            >(plan)
            &&& plan.strict() == Ok::<InscriptionPlanView, PlanError>(plan)
            &&& compose_outcome(ComposePlanView::Brc20(request), estimate, commit, reveal)
                == report
            &&& report.error == None::<PlanError>
            &&& report.error_message.len() == 0
            &&& report.plan == Some(plan)
        }),
{
}

/// Every run is reported, and a report holds either a plan or an error with
/// its message, never both and never neither.
pub proof fn law_every_run_is_reported(
    compose: ComposePlanView,
    estimate: TransactionResultView,
    commit: TransactionResultView,
    reveal: TransactionResultView,
)
    ensures
        ({
            let report = compose_outcome(compose, estimate, commit, reveal);
            &&& (report.error is None) <==> (report.plan is Some)
            &&& (report.error matches Some(error) ==> report.error_message
                == error.message_spec())
            &&& (compose is Unset ==> report.error == Some(PlanError::MissingCompose))
        }),
{
}

} // verus!
