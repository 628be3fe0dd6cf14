//! The planner.
//!
//! A plan takes three requests to the transaction builder, in this order:
//!
//! 1. the fee estimate of the reveal transaction, on a placeholder input;
//! 2. the commit transaction, whose one output parks the estimated fee plus
//!    the value of the tagged output;
//! 3. the reveal transaction, whose one input spends that output.
//!
//! The decisions are two functions that make no request themselves.
//! [`BitcoinPlanBuilder::begin`] checks the caller's request and returns the
//! first request for the builder with the state to go on from;
//! [`BitcoinPlanBuilder::resume`] takes the builder's answer and returns the
//! next request, or the end of planning. Whoever drives them hands each
//! request to the builder and each answer back.
//!
//! [`BitcoinPlanBuilder::plan`] drives them with a builder that it is given as
//! a function, and [`BitcoinPlanBuilder::plan_compose`] reports the outcome.
//! Every failure ends planning with an error; none is left to the caller to
//! rule out beforehand.
use crate::bytes::{copy_bytes, reverse_bytes};
use crate::cloner::{
    cloned_inputs, cloned_optional_output, cloned_output, hard_clone_inputs,
    hard_clone_inscription, hard_clone_optional_output, hard_clone_output,
};
use crate::descriptor::{Input, InputView, InscriptionSpec, InscriptionSpecView, Output, OutputView};
use crate::descriptor::{input_views, optional_output_view};
use crate::error::{PlanError, OK};
use crate::transaction::{
    commit_request, dummy_reveal_request, plan_result_view, report_of, reveal_request,
    ComposePlan, ComposePlanRequest, ComposePlanRequestView, ComposePlanView, InputSelector,
    InscriptionPlan, InscriptionPlanView, TransactionPlan, TransactionPlanView,
    TransactionRequest, TransactionRequestView, TransactionResult, TransactionResultView,
};
use vstd::prelude::*;

verus! {

/// What the planner remembers between two requests to the builder.
#[derive(Clone, Debug, PartialEq, Eq)]
pub enum PlanState {
    /// The fee estimate of the reveal transaction is awaited.
    AwaitingEstimate {
        private_key: Vec<u8>,
        inputs: Vec<Input>,
        input_selector: InputSelector,
        change_output: Option<Output>,
        fee_per_unit: u64,
        disable_change_output: bool,
        inscription: InscriptionSpec,
        tagged_output: Output,
    },
    /// The commit transaction is awaited.
    AwaitingCommit {
        private_key: Vec<u8>,
        inscription: InscriptionSpec,
        tagged_output: Output,
        fee_per_unit: u64,
        /// What the commit transaction parks for the reveal transaction.
        inscription_value: u64,
    },
    /// The reveal transaction is awaited.
    AwaitingReveal { commit: TransactionResult },
}

/// The view of a [`PlanState`].
pub enum PlanStateView {
    AwaitingEstimate {
        private_key: Seq<u8>,
        inputs: Seq<InputView>,
        input_selector: InputSelector,
        change_output: Option<OutputView>,
        fee_per_unit: u64,
        disable_change_output: bool,
        inscription: InscriptionSpecView,
        tagged_output: OutputView,
    },
    AwaitingCommit {
        private_key: Seq<u8>,
        inscription: InscriptionSpecView,
        tagged_output: OutputView,
        fee_per_unit: u64,
        inscription_value: u64,
    },
    AwaitingReveal { commit: TransactionResultView },
}

impl View for PlanState {
    type V = PlanStateView;

    open spec fn view(&self) -> PlanStateView {
        match self {
            PlanState::AwaitingEstimate {
                private_key,
                inputs,
                input_selector,
                change_output,
                fee_per_unit,
                disable_change_output,
                inscription,
                tagged_output,
            } => PlanStateView::AwaitingEstimate {
                private_key: private_key@,
                inputs: input_views(inputs@),
                input_selector: *input_selector,
                change_output: optional_output_view(*change_output),
                fee_per_unit: *fee_per_unit,
                disable_change_output: *disable_change_output,
                inscription: inscription@,
                tagged_output: tagged_output@,
            },
            PlanState::AwaitingCommit {
                private_key,
                inscription,
                tagged_output,
                fee_per_unit,
                inscription_value,
            } => PlanStateView::AwaitingCommit {
                private_key: private_key@,
                inscription: inscription@,
                tagged_output: tagged_output@,
                fee_per_unit: *fee_per_unit,
                inscription_value: *inscription_value,
            },
            PlanState::AwaitingReveal { commit } => PlanStateView::AwaitingReveal {
                commit: commit@,
            },
        }
    }
}

/// What the planner wants from the transaction builder.
#[derive(Clone, Debug, PartialEq, Eq)]
pub enum SignerCall {
    /// The fee of the transaction, with nothing signed.
    Estimate(TransactionRequest),
    /// The transaction, with inputs selected, change computed, and signed.
    Sign(TransactionRequest),
}

/// The view of a [`SignerCall`].
pub enum SignerCallView {
    Estimate(TransactionRequestView),
    Sign(TransactionRequestView),
}

impl View for SignerCall {
    type V = SignerCallView;

    open spec fn view(&self) -> SignerCallView {
        match self {
            SignerCall::Estimate(request) => SignerCallView::Estimate(request@),
            SignerCall::Sign(request) => SignerCallView::Sign(request@),
        }
    }
}

/// How planning goes on.
#[derive(Debug, PartialEq, Eq)]
pub enum PlanStep {
    /// Make `call`, and resume from `state` with the builder's answer.
    Call { state: PlanState, call: SignerCall },
    /// Planning has ended, with a plan or with an error. Nothing is left to
    /// ask of the builder.
    Done(Result<InscriptionPlan, PlanError>),
}

/// The view of a [`PlanStep`].
pub enum PlanStepView {
    Call { state: PlanStateView, call: SignerCallView },
    Done(Result<InscriptionPlanView, PlanError>),
}

impl View for PlanStep {
    type V = PlanStepView;

    open spec fn view(&self) -> PlanStepView {
        match self {
            PlanStep::Call { state, call } => PlanStepView::Call { state: state@, call: call@ },
            PlanStep::Done(result) => PlanStepView::Done(plan_result_view(*result)),
        }
    }
}

/// The first step of planning for `request`.
///
/// A request without an inscription or without a tagged output, or whose
/// tagged output has no recipient, ends planning at once. Any other request
/// asks for the fee estimate of the reveal transaction.
pub open spec fn begin_spec(request: ComposePlanRequestView) -> PlanStepView {
    match request.inscription {
        None => PlanStepView::Done(Err(PlanError::MissingInscription)),
        Some(inscription) => match request.tagged_output {
            None => PlanStepView::Done(Err(PlanError::MissingTaggedOutput)),
            Some(tagged_output) => match cloned_output(tagged_output) {
                Err(error) => PlanStepView::Done(Err(error)),
                Ok(tagged_output) => PlanStepView::Call {
                    state: PlanStateView::AwaitingEstimate {
                        private_key: request.private_key,
                        inputs: request.inputs,
                        input_selector: request.input_selector,
                        change_output: request.change_output,
                        fee_per_unit: request.fee_per_unit,
                        disable_change_output: request.disable_change_output,
                        inscription,
                        tagged_output,
                    },
                    call: SignerCallView::Estimate(
                        dummy_reveal_request(inscription, tagged_output, request.fee_per_unit),
                    ),
                },
            },
        },
    }
}

/// The step that follows `state` when the builder has answered `result`.
///
/// A failed estimate or a failed commit transaction ends planning with the
/// builder's code. After a successful estimate, planning ends as well, with
/// the first of these that holds: `AmountOverflow` where the fee and the value
/// of the tagged output add up to more than an output can hold;
/// `InvalidOutputVariant` where the change output is malformed;
/// `InvalidInputVariant` where an input is. The answer to the reveal request
/// ends planning with a plan, whatever it is.
pub open spec fn resume_spec(state: PlanStateView, result: TransactionResultView) -> PlanStepView {
    match state {
        PlanStateView::AwaitingEstimate {
            private_key,
            inputs,
            input_selector,
            change_output,
            fee_per_unit,
            disable_change_output,
            inscription,
            tagged_output,
        } => {
            if result.error != OK {
                PlanStepView::Done(Err(PlanError::Builder(result.error)))
            } else if result.fee_estimate + tagged_output.value > u64::MAX {
                PlanStepView::Done(Err(PlanError::AmountOverflow))
            } else {
                let inscription_value = (result.fee_estimate + tagged_output.value) as u64;
                match cloned_optional_output(change_output) {
                    Err(error) => PlanStepView::Done(Err(error)),
                    Ok(change_output) => match cloned_inputs(inputs) {
                        Err(error) => PlanStepView::Done(Err(error)),
                        Ok(inputs) => PlanStepView::Call {
                            state: PlanStateView::AwaitingCommit {
                                private_key,
                                inscription,
                                tagged_output,
                                fee_per_unit,
                                inscription_value,
                            },
                            call: SignerCallView::Sign(
                                commit_request(
                                    private_key,
                                    inputs,
                                    input_selector,
                                    change_output,
                                    fee_per_unit,
                                    disable_change_output,
                                    inscription,
                                    inscription_value,
                                ),
                            ),
                        },
                    },
                }
            }
        },
        PlanStateView::AwaitingCommit {
            private_key,
            inscription,
            tagged_output,
            fee_per_unit,
            inscription_value,
        } => {
            if result.error != OK {
                PlanStepView::Done(Err(PlanError::Builder(result.error)))
            } else {
                PlanStepView::Call {
                    state: PlanStateView::AwaitingReveal { commit: result },
                    call: SignerCallView::Sign(
                        reveal_request(
                            private_key,
                            inscription,
                            tagged_output,
                            fee_per_unit,
                            inscription_value,
                            result.txid.reverse(),
                        ),
                    ),
                }
            }
        },
        PlanStateView::AwaitingReveal { commit } => PlanStepView::Done(
            Ok(InscriptionPlanView { commit, reveal: result }),
        ),
    }
}

/// The step that `result` leads to from `step`. A step that ended planning
/// stays as it is.
pub open spec fn next_step(step: PlanStepView, result: TransactionResultView) -> PlanStepView {
    match step {
        PlanStepView::Call { state, .. } => resume_spec(state, result),
        PlanStepView::Done(_) => step,
    }
}

/// Where planning for `request` stands when the estimate is answered.
pub open spec fn after_estimate(
    request: ComposePlanRequestView,
    estimate: TransactionResultView,
) -> PlanStepView {
    next_step(begin_spec(request), estimate)
}

/// Where planning for `request` stands when the commit request is answered.
pub open spec fn after_commit(
    request: ComposePlanRequestView,
    estimate: TransactionResultView,
    commit: TransactionResultView,
) -> PlanStepView {
    next_step(after_estimate(request, estimate), commit)
}

/// Where planning for `request` stands when the reveal request is answered.
pub open spec fn after_reveal(
    request: ComposePlanRequestView,
    estimate: TransactionResultView,
    commit: TransactionResultView,
    reveal: TransactionResultView,
) -> PlanStepView {
    next_step(after_commit(request, estimate, commit), reveal)
}

/// The call that `step` asks for, if it asks for one.
pub open spec fn requested(step: PlanStepView) -> Option<SignerCallView> {
    match step {
        PlanStepView::Call { call, .. } => Some(call),
        PlanStepView::Done(_) => None,
    }
}

/// `signer` may return an answer with the view `answer` to a call with the
/// view `call`.
pub open spec fn may_answer<F: Fn(SignerCall) -> TransactionResult>(
    signer: F,
    call: SignerCallView,
    answer: TransactionResultView,
) -> bool {
    exists|made: SignerCall, given: TransactionResult|
        made@ == call && given@ == answer && #[trigger] call_ensures(signer, (made,), given)
}

/// `estimate`, `commit` and `reveal` are answers of `signer` to the requests
/// that planning for `request` makes, as far as it makes them.
pub open spec fn answers_of<F: Fn(SignerCall) -> TransactionResult>(
    signer: F,
    request: ComposePlanRequestView,
    estimate: TransactionResultView,
    commit: TransactionResultView,
    reveal: TransactionResultView,
) -> bool {
    &&& requested(begin_spec(request)) matches Some(call) ==> may_answer(signer, call, estimate)
    &&& requested(after_estimate(request, estimate)) matches Some(call) ==> may_answer(
        signer,
        call,
        commit,
    )
    &&& requested(after_commit(request, estimate, commit)) matches Some(call) ==> may_answer(
        signer,
        call,
        reveal,
    )
}

/// How planning for `request` ends when the builder answers `estimate`,
/// `commit` and `reveal`: with a plan or with an error. Planning has always
/// ended when the reveal request is answered.
pub open spec fn plan_outcome(
    request: ComposePlanRequestView,
    estimate: TransactionResultView,
    commit: TransactionResultView,
    reveal: TransactionResultView,
) -> Result<InscriptionPlanView, PlanError> {
    after_reveal(request, estimate, commit, reveal)->Done_0
}

/// What [`BitcoinPlanBuilder::plan_compose`] reports when the builder answers
/// `estimate`, `commit` and `reveal`.
pub open spec fn compose_outcome(
    compose: ComposePlanView,
    estimate: TransactionResultView,
    commit: TransactionResultView,
    reveal: TransactionResultView,
) -> TransactionPlanView {
    match compose {
        ComposePlanView::Unset => report_of(Err(PlanError::MissingCompose)),
        ComposePlanView::Brc20(request) => report_of(
            plan_outcome(request, estimate, commit, reveal),
        ),
    }
}

/// The planner of inscription transfers.
#[derive(Clone, Copy, Debug, PartialEq, Eq)]
pub struct BitcoinPlanBuilder;

impl BitcoinPlanBuilder {
    /// Checks `request` and returns the first step of planning.
    ///
    /// No request goes to the builder for a request that lacks its
    /// inscription or its tagged output: planning ends at once, with
    /// `MissingInscription` where the inscription is missing, and with
    /// `MissingTaggedOutput` where only the tagged output is.
    pub fn begin(&self, request: ComposePlanRequest) -> (step: PlanStep)
        ensures
            step@ == begin_spec(request@),
            request@.inscription is None ==> step@ == PlanStepView::Done(
                Err(PlanError::MissingInscription),
            ),
            request@.inscription is Some && request@.tagged_output is None ==> step@
                == PlanStepView::Done(Err(PlanError::MissingTaggedOutput)),
    {
        let inscription = match request.inscription {
            Some(inscription) => inscription,
            None => {
                return PlanStep::Done(Err(PlanError::MissingInscription));
            },
        };
        let tagged_output = match request.tagged_output {
            Some(tagged_output) => tagged_output,
            None => {
                return PlanStep::Done(Err(PlanError::MissingTaggedOutput));
            },
        };
        let tagged_copy = match hard_clone_output(&tagged_output) {
            Ok(copy) => copy,
            Err(error) => {
                return PlanStep::Done(Err(error));
            },
        };
        let call = SignerCall::Estimate(
            TransactionRequest::for_estimate(
                hard_clone_inscription(&inscription),
                tagged_copy,
                request.fee_per_unit,
            ),
        );
        let state = PlanState::AwaitingEstimate {
            private_key: request.private_key,
            inputs: request.inputs,
            input_selector: request.input_selector,
            change_output: request.change_output,
            fee_per_unit: request.fee_per_unit,
            disable_change_output: request.disable_change_output,
            inscription,
            tagged_output,
        };
        PlanStep::Call { state, call }
    }

    /// Takes the builder's answer to the request of the last step and returns
    /// the next step.
    ///
    /// Where the estimate or the commit transaction failed, planning ends with
    /// the builder's code and no further request is made. Where the estimate
    /// succeeded with a fee that, added to the value of the tagged output, is
    /// more than an output can hold, planning ends with `AmountOverflow`.
    pub fn resume(&self, state: PlanState, result: TransactionResult) -> (step: PlanStep)
        ensures
            step@ == resume_spec(state@, result@),
            !(state@ is AwaitingReveal) && result@.error != OK ==> step@ == PlanStepView::Done(
                Err(PlanError::Builder(result@.error)),
            ),
            state@ matches PlanStateView::AwaitingEstimate { tagged_output, .. } && result@.error
                == OK && result@.fee_estimate + tagged_output.value > u64::MAX ==> step@
                == PlanStepView::Done(Err(PlanError::AmountOverflow)),
    {
        match state {
            PlanState::AwaitingEstimate {
                private_key,
                inputs,
                input_selector,
                change_output,
                fee_per_unit,
                disable_change_output,
                inscription,
                tagged_output,
            } => {
                if result.error != OK {
                    return PlanStep::Done(Err(PlanError::Builder(result.error)));
                }
                if result.fee_estimate > u64::MAX - tagged_output.value {
                    return PlanStep::Done(Err(PlanError::AmountOverflow));
                }
                let inscription_value: u64 = result.fee_estimate + tagged_output.value;
                let change_copy = match hard_clone_optional_output(&change_output) {
                    Ok(copy) => copy,
                    Err(error) => {
                        return PlanStep::Done(Err(error));
                    },
                };
                let input_copies = match hard_clone_inputs(&inputs) {
                    Ok(copies) => copies,
                    Err(error) => {
                        return PlanStep::Done(Err(error));
                    },
                };
                let call = SignerCall::Sign(
                    TransactionRequest::for_commit(
                        copy_bytes(&private_key),
                        input_copies,
                        input_selector,
                        change_copy,
                        fee_per_unit,
                        disable_change_output,
                        hard_clone_inscription(&inscription),
                        inscription_value,
                    ),
                );
                let state = PlanState::AwaitingCommit {
                    private_key,
                    inscription,
                    tagged_output,
                    fee_per_unit,
                    inscription_value,
                };
                PlanStep::Call { state, call }
            },
            PlanState::AwaitingCommit {
                private_key,
                inscription,
                tagged_output,
                fee_per_unit,
                inscription_value,
            } => {
                if result.error != OK {
                    return PlanStep::Done(Err(PlanError::Builder(result.error)));
                }
                let commit_txid = reverse_bytes(&result.txid);
                let call = SignerCall::Sign(
                    TransactionRequest::for_reveal(
                        private_key,
                        inscription,
                        tagged_output,
                        fee_per_unit,
                        inscription_value,
                        commit_txid,
                    ),
                );
                PlanStep::Call { state: PlanState::AwaitingReveal { commit: result }, call }
            },
            PlanState::AwaitingReveal { commit } => PlanStep::Done(
                Ok(InscriptionPlan { commit, reveal: result }),
            ),
        }
    }

    /// Plans the transfer that `request` describes, with `signer` as the
    /// transaction builder.
    ///
    /// `signer` is asked for the estimate, then for the commit transaction,
    /// then for the reveal transaction, each only if all went well before.
    /// What is returned is what the steps of planning make of the request and
    /// of the answers of `signer`.
    pub fn plan<F: Fn(SignerCall) -> TransactionResult>(
        &self,
        request: ComposePlanRequest,
        signer: F,
    ) -> (outcome: Result<InscriptionPlan, PlanError>)
        requires
            forall|call: SignerCall| call_requires(signer, (call,)),
        ensures
            begin_spec(request@) matches PlanStepView::Done(result) ==> plan_result_view(outcome)
                == result,
            exists|
                estimate: TransactionResultView,
                commit: TransactionResultView,
                reveal: TransactionResultView,
            |
                #[trigger] answers_of(signer, request@, estimate, commit, reveal)
                    && plan_result_view(outcome) == plan_outcome(
                    request@,
                    estimate,
                    commit,
                    reveal,
                ),
    {
        let ghost asked = request@;
        let (state, call) = match self.begin(request) {
            PlanStep::Call { state, call } => (state, call),
            PlanStep::Done(result) => {
                proof {
                    let any = TransactionResultView {
                        error: OK,
                        txid: Seq::empty(),
                        fee_estimate: 0,
                        raw_bytes: Seq::empty(),
                    };
                    assert(answers_of(signer, asked, any, any, any));
                }
                return result;
            },
        };
        let ghost estimate_call = call;
        let estimate = signer(call);
        let ghost estimate_given = estimate;
        assert(may_answer(signer, estimate_call@, estimate_given@));
        let (state, call) = match self.resume(state, estimate) {
            PlanStep::Call { state, call } => (state, call),
            PlanStep::Done(result) => {
                assert(answers_of(
                    signer,
                    asked,
                    estimate_given@,
                    estimate_given@,
                    estimate_given@,
                ));
                return result;
            },
        };
        let ghost commit_call = call;
        let commit = signer(call);
        let ghost commit_given = commit;
        assert(may_answer(signer, commit_call@, commit_given@));
        let (state, call) = match self.resume(state, commit) {
            PlanStep::Call { state, call } => (state, call),
            PlanStep::Done(result) => {
                assert(answers_of(
                    signer,
                    asked,
                    estimate_given@,
                    commit_given@,
                    commit_given@,
                ));
                return result;
            },
        };
        let ghost reveal_call = call;
        let reveal = signer(call);
        let ghost reveal_given = reveal;
        assert(may_answer(signer, reveal_call@, reveal_given@));
        assert(answers_of(signer, asked, estimate_given@, commit_given@, reveal_given@));
        match self.resume(state, reveal) {
            PlanStep::Done(result) => result,
            PlanStep::Call { .. } => unreached(),
        }
    }

    /// Makes the plan that `compose` asks for, with `signer` as the
    /// transaction builder, and reports how it went.
    ///
    /// Every failure is reported: the report of a failure holds the error and
    /// its message and no plan. A request that asks for no kind of plan is
    /// reported as `MissingCompose`, and `signer` is not asked for anything.
    pub fn plan_compose<F: Fn(SignerCall) -> TransactionResult>(
        &self,
        compose: ComposePlan,
        signer: F,
    ) -> (report: TransactionPlan)
        requires
            forall|call: SignerCall| call_requires(signer, (call,)),
        ensures
            compose@ is Unset ==> report@ == report_of(Err(PlanError::MissingCompose)),
            compose@ matches ComposePlanView::Brc20(request) ==> {
                &&& begin_spec(request) matches PlanStepView::Done(result) ==> report@
                    == report_of(result)
                &&& exists|
                    estimate: TransactionResultView,
                    commit: TransactionResultView,
                    reveal: TransactionResultView,
                |
                    #[trigger] answers_of(signer, request, estimate, commit, reveal) && report@
                        == compose_outcome(compose@, estimate, commit, reveal)
            },
    {
        match compose {
            ComposePlan::Unset => TransactionPlan::report(Err(PlanError::MissingCompose)),
            ComposePlan::Brc20(request) => TransactionPlan::report(self.plan(request, signer)),
        }
    }
}

} // verus!
