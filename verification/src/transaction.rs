//! What goes to the transaction builder and what comes back from it, the
//! request for a plan, and the plan.
use crate::bytes::{placeholder_txid, placeholder_txid_spec};
use crate::descriptor::{
    input_views, optional_output_view, output_views, Input, InputRecipient, InputRecipientView,
    InputView, InscriptionSpec, InscriptionSpecView, Output, OutputRecipient, OutputRecipientView,
    OutputView, SighashType,
};
use crate::error::{PlanError, OK};
use vstd::prelude::*;

verus! {

/// Which of the candidate inputs fund a transaction.
#[derive(Clone, Copy, Debug, PartialEq, Eq, Structural)]
pub enum InputSelector {
    /// As many of the candidates as the outputs and the fee need, smallest first.
    SelectAscending,
    /// As many as needed, in the order given.
    SelectInOrder,
    /// As many as needed, largest first.
    SelectDescending,
    /// Every candidate.
    UseAll,
}

/// The value of the placeholder input of a fee estimate: the largest amount
/// there is, so that the input covers any output and any fee.
pub const PLACEHOLDER_VALUE: u64 = 0xffff_ffff_ffff_ffff;

/// A transaction for the builder to estimate or to sign.
#[derive(Clone, Debug, PartialEq, Eq)]
pub struct TransactionRequest {
    /// The key to sign with. Empty where nothing is to be signed.
    pub private_key: Vec<u8>,
    /// The candidate inputs, in order.
    pub inputs: Vec<Input>,
    /// The outputs, in order.
    pub outputs: Vec<Output>,
    pub input_selector: InputSelector,
    /// The fee rate.
    pub fee_per_unit: u64,
    /// Where to return what the inputs hold beyond outputs and fee.
    pub change_output: Option<Output>,
    /// Make no change output, whatever is left over.
    pub disable_change_output: bool,
}

/// The view of a [`TransactionRequest`].
pub struct TransactionRequestView {
    pub private_key: Seq<u8>,
    pub inputs: Seq<InputView>,
    pub outputs: Seq<OutputView>,
    pub input_selector: InputSelector,
    pub fee_per_unit: u64,
    pub change_output: Option<OutputView>,
    pub disable_change_output: bool,
}

impl View for TransactionRequest {
    type V = TransactionRequestView;

    open spec fn view(&self) -> TransactionRequestView {
        TransactionRequestView {
            private_key: self.private_key@,
            inputs: input_views(self.inputs@),
            outputs: output_views(self.outputs@),
            input_selector: self.input_selector,
            fee_per_unit: self.fee_per_unit,
            change_output: optional_output_view(self.change_output),
            disable_change_output: self.disable_change_output,
        }
    }
}

/// The builder's answer to a request.
///
/// Where `error` is not [`OK`], the other fields mean nothing.
#[derive(Clone, Debug, PartialEq, Eq)]
pub struct TransactionResult {
    /// [`OK`], or the builder's code for what went wrong.
    pub error: u32,
    /// The transaction's id, in the builder's internal byte order.
    pub txid: Vec<u8>,
    /// The fee of the transaction.
    pub fee_estimate: u64,
    /// The signed transaction in its wire format. Empty for an estimate.
    pub raw_bytes: Vec<u8>,
}

/// The view of a [`TransactionResult`].
pub struct TransactionResultView {
    pub error: u32,
    pub txid: Seq<u8>,
    pub fee_estimate: u64,
    pub raw_bytes: Seq<u8>,
}

impl View for TransactionResult {
    type V = TransactionResultView;

    open spec fn view(&self) -> TransactionResultView {
        TransactionResultView {
            error: self.error,
            txid: self.txid@,
            fee_estimate: self.fee_estimate,
            raw_bytes: self.raw_bytes@,
        }
    }
}

/// What a caller asks the planner for.
#[derive(Clone, Debug, PartialEq, Eq)]
pub struct ComposePlanRequest {
    /// The key that signs both transactions. The planner hands it on and
    /// reads nothing from it.
    pub private_key: Vec<u8>,
    /// The candidate inputs that fund the commit transaction.
    pub inputs: Vec<Input>,
    /// How the commit transaction picks among `inputs`.
    pub input_selector: InputSelector,
    /// The output that the reveal transaction is to make.
    pub tagged_output: Option<Output>,
    /// The inscription to transfer.
    pub inscription: Option<InscriptionSpec>,
    /// The fee rate of both transactions.
    pub fee_per_unit: u64,
    /// Where the commit transaction returns what it does not need.
    pub change_output: Option<Output>,
    /// The commit transaction makes no change output.
    pub disable_change_output: bool,
}

/// The view of a [`ComposePlanRequest`].
pub struct ComposePlanRequestView {
    pub private_key: Seq<u8>,
    pub inputs: Seq<InputView>,
    pub input_selector: InputSelector,
    pub tagged_output: Option<OutputView>,
    pub inscription: Option<InscriptionSpecView>,
    pub fee_per_unit: u64,
    pub change_output: Option<OutputView>,
    pub disable_change_output: bool,
}

impl View for ComposePlanRequest {
    type V = ComposePlanRequestView;

    open spec fn view(&self) -> ComposePlanRequestView {
        ComposePlanRequestView {
            private_key: self.private_key@,
            inputs: input_views(self.inputs@),
            input_selector: self.input_selector,
            tagged_output: optional_output_view(self.tagged_output),
            inscription: match self.inscription {
                Some(inscription) => Some(inscription@),
                None => None,
            },
            fee_per_unit: self.fee_per_unit,
            change_output: optional_output_view(self.change_output),
            disable_change_output: self.disable_change_output,
        }
    }
}

/// What a caller asks for: a plan of one of the kinds that the planner knows.
#[derive(Clone, Debug, PartialEq, Eq)]
pub enum ComposePlan {
    /// No kind of plan was chosen.
    Unset,
    /// The transfer of a token inscription.
    Brc20(ComposePlanRequest),
}

/// The view of a [`ComposePlan`].
pub enum ComposePlanView {
    Unset,
    Brc20(ComposePlanRequestView),
}

impl View for ComposePlan {
    type V = ComposePlanView;

    open spec fn view(&self) -> ComposePlanView {
        match self {
            ComposePlan::Unset => ComposePlanView::Unset,
            ComposePlan::Brc20(request) => ComposePlanView::Brc20(request@),
        }
    }
}

/// The input that spends an inscription-bearing output: output 0 of the
/// transaction `txid`, holding `value`, with the builder's defaults for the
/// sequence number and the signature.
pub open spec fn inscription_input(
    txid: Seq<u8>,
    value: u64,
    inscription: InscriptionSpecView,
) -> InputView {
    InputView {
        txid,
        vout: 0,
        value,
        sequence: 0,
        sequence_enable_zero: false,
        sighash_type: SighashType::UseDefault,
        recipient: InputRecipientView::Brc20Inscribe(inscription),
    }
}

/// The inscription-bearing output: `value`, locked to the inscription's
/// recipient, ticker and amount.
pub open spec fn inscription_output(value: u64, inscription: InscriptionSpecView) -> OutputView {
    OutputView {
        value,
        recipient: OutputRecipientView::Brc20Inscribe {
            target_address: inscription.target_address,
            ticker: inscription.ticker,
            transfer_amount: inscription.transfer_amount,
        },
    }
}

/// The reveal transaction as it is estimated: its one input spends a
/// placeholder, and nothing is signed.
pub open spec fn dummy_reveal_request(
    inscription: InscriptionSpecView,
    tagged_output: OutputView,
    fee_per_unit: u64,
) -> TransactionRequestView {
    TransactionRequestView {
        private_key: Seq::empty(),
        inputs: seq![inscription_input(placeholder_txid_spec(), PLACEHOLDER_VALUE, inscription)],
        outputs: seq![tagged_output],
        input_selector: InputSelector::UseAll,
        fee_per_unit,
        change_output: None,
        disable_change_output: true,
    }
}

/// The commit transaction: the caller's inputs, selection and change, and one
/// output that parks `inscription_value` for the reveal transaction.
pub open spec fn commit_request(
    private_key: Seq<u8>,
    inputs: Seq<InputView>,
    input_selector: InputSelector,
    change_output: Option<OutputView>,
    fee_per_unit: u64,
    disable_change_output: bool,
    inscription: InscriptionSpecView,
    inscription_value: u64,
) -> TransactionRequestView {
    TransactionRequestView {
        private_key,
        inputs,
        outputs: seq![inscription_output(inscription_value, inscription)],
        input_selector,
        fee_per_unit,
        change_output,
        disable_change_output,
    }
}

/// The reveal transaction: its one input spends output 0 of the transaction
/// `commit_txid`, which holds `inscription_value`; its one output is the
/// tagged output.
pub open spec fn reveal_request(
    private_key: Seq<u8>,
    inscription: InscriptionSpecView,
    tagged_output: OutputView,
    fee_per_unit: u64,
    inscription_value: u64,
    commit_txid: Seq<u8>,
) -> TransactionRequestView {
    TransactionRequestView {
        private_key,
        inputs: seq![inscription_input(commit_txid, inscription_value, inscription)],
        outputs: seq![tagged_output],
        input_selector: InputSelector::UseAll,
        fee_per_unit,
        change_output: None,
        disable_change_output: true,
    }
}

impl Input {
    /// The input that spends the inscription-bearing output of the
    /// transaction `txid`.
    pub fn inscription(txid: Vec<u8>, value: u64, inscription: InscriptionSpec) -> (input: Input)
        ensures
            input@ == inscription_input(txid@, value, inscription@),
    {
        Input {
            txid,
            vout: 0,
            value,
            sequence: 0,
            sequence_enable_zero: false,
            sighash_type: SighashType::UseDefault,
            recipient: InputRecipient::Brc20Inscribe(inscription),
        }
    }
}

impl Output {
    /// The inscription-bearing output that holds `value`.
    pub fn inscription(value: u64, inscription: InscriptionSpec) -> (output: Output)
        ensures
            output@ == inscription_output(value, inscription@),
    {
        Output {
            value,
            recipient: OutputRecipient::Brc20Inscribe {
                target_address: inscription.target_address,
                ticker: inscription.ticker,
                transfer_amount: inscription.transfer_amount,
            },
        }
    }
}

impl TransactionRequest {
    /// The request for the fee estimate of the reveal transaction.
    pub fn for_estimate(
        inscription: InscriptionSpec,
        tagged_output: Output,
        fee_per_unit: u64,
    ) -> (request: TransactionRequest)
        ensures
            request@ == dummy_reveal_request(inscription@, tagged_output@, fee_per_unit),
    {
        let mut inputs: Vec<Input> = Vec::with_capacity(1);
        inputs.push(Input::inscription(placeholder_txid(), PLACEHOLDER_VALUE, inscription));
        let mut outputs: Vec<Output> = Vec::with_capacity(1);
        outputs.push(tagged_output);
        let request = TransactionRequest {
            private_key: Vec::new(),
            inputs,
            outputs,
            input_selector: InputSelector::UseAll,
            fee_per_unit,
            change_output: None,
            disable_change_output: true,
        };
        assert(request@.inputs =~= dummy_reveal_request(
            inscription@,
            tagged_output@,
            fee_per_unit,
        ).inputs);
        assert(request@.outputs =~= seq![tagged_output@]);
        assert(request@.private_key =~= Seq::empty());
        request
    }

    /// The request for the commit transaction.
    pub fn for_commit(
        private_key: Vec<u8>,
        inputs: Vec<Input>,
        input_selector: InputSelector,
        change_output: Option<Output>,
        fee_per_unit: u64,
        disable_change_output: bool,
        inscription: InscriptionSpec,
        inscription_value: u64,
    ) -> (request: TransactionRequest)
        ensures
            request@ == commit_request(
                private_key@,
                input_views(inputs@),
                input_selector,
                optional_output_view(change_output),
                fee_per_unit,
                disable_change_output,
                inscription@,
                inscription_value,
            ),
    {
        let mut outputs: Vec<Output> = Vec::with_capacity(1);
        outputs.push(Output::inscription(inscription_value, inscription));
        let request = TransactionRequest {
            private_key,
            inputs,
            outputs,
            input_selector,
            fee_per_unit,
            change_output,
            disable_change_output,
        };
        assert(request@.outputs =~= seq![inscription_output(inscription_value, inscription@)]);
        request
    }

    /// The request for the reveal transaction.
    pub fn for_reveal(
        private_key: Vec<u8>,
        inscription: InscriptionSpec,
        tagged_output: Output,
        fee_per_unit: u64,
        inscription_value: u64,
        commit_txid: Vec<u8>,
    ) -> (request: TransactionRequest)
        ensures
            request@ == reveal_request(
                private_key@,
                inscription@,
                tagged_output@,
                fee_per_unit,
                inscription_value,
                commit_txid@,
            ),
    {
        let mut inputs: Vec<Input> = Vec::with_capacity(1);
        inputs.push(Input::inscription(commit_txid, inscription_value, inscription));
        let mut outputs: Vec<Output> = Vec::with_capacity(1);
        outputs.push(tagged_output);
        let request = TransactionRequest {
            private_key,
            inputs,
            outputs,
            input_selector: InputSelector::UseAll,
            fee_per_unit,
            change_output: None,
            disable_change_output: true,
        };
        assert(request@.inputs =~= seq![
            inscription_input(commit_txid@, inscription_value, inscription@),
        ]);
        assert(request@.outputs =~= seq![tagged_output@]);
        request
    }
}

/// The two transactions of an inscription transfer, as the builder returned
/// them.
///
/// In a plan that the planner made, `commit` is a success. `reveal` is the
/// builder's answer such as it was: see [`InscriptionPlan::strict`].
#[derive(Clone, Debug, PartialEq, Eq)]
pub struct InscriptionPlan {
    pub commit: TransactionResult,
    pub reveal: TransactionResult,
}

/// The view of an [`InscriptionPlan`].
pub struct InscriptionPlanView {
    pub commit: TransactionResultView,
    pub reveal: TransactionResultView,
}

impl View for InscriptionPlan {
    type V = InscriptionPlanView;

    open spec fn view(&self) -> InscriptionPlanView {
        InscriptionPlanView { commit: self.commit@, reveal: self.reveal@ }
    }
}

/// The view of a plan or the error that stands in its place.
pub open spec fn plan_result_view(result: Result<InscriptionPlan, PlanError>) -> Result<
    InscriptionPlanView,
    PlanError,
> {
    match result {
        Ok(plan) => Ok(plan@),
        Err(error) => Err(error),
    }
}

impl InscriptionPlanView {
    /// What [`InscriptionPlan::strict`] returns.
    pub open spec fn strict(self) -> Result<InscriptionPlanView, PlanError> {
        if self.commit.error != OK {
            Err(PlanError::Builder(self.commit.error))
        } else if self.reveal.error != OK {
            Err(PlanError::Builder(self.reveal.error))
        } else {
            Ok(self)
        }
    }
}

impl InscriptionPlan {
    /// The plan, if both of its transactions are successes; else the error of
    /// the first that is not, with the builder's code.
    ///
    /// The planner returns a plan whatever the builder answered to the reveal
    /// request. A caller to whom a plan with a failed reveal transaction is of
    /// no use turns it into an error here.
    pub fn strict(self) -> (result: Result<InscriptionPlan, PlanError>)
        ensures
            plan_result_view(result) == self@.strict(),
    {
        if self.commit.error != OK {
            Err(PlanError::Builder(self.commit.error))
        } else if self.reveal.error != OK {
            Err(PlanError::Builder(self.reveal.error))
        } else {
            Ok(self)
        }
    }
}

/// What the planner reports to its caller: either a plan, or an error with a
/// message for people.
#[derive(Debug, PartialEq, Eq)]
pub struct TransactionPlan {
    /// Why there is no plan; `None` where there is one.
    pub error: Option<PlanError>,
    /// The message of `error`; empty where there is a plan.
    pub error_message: String,
    pub plan: Option<InscriptionPlan>,
}

/// The view of a [`TransactionPlan`].
pub struct TransactionPlanView {
    pub error: Option<PlanError>,
    pub error_message: Seq<char>,
    pub plan: Option<InscriptionPlanView>,
}

impl View for TransactionPlan {
    type V = TransactionPlanView;

    open spec fn view(&self) -> TransactionPlanView {
        TransactionPlanView {
            error: self.error,
            error_message: self.error_message@,
            plan: match self.plan {
                Some(plan) => Some(plan@),
                None => None,
            },
        }
    }
}

/// The report of a planning that ended with `result`.
pub open spec fn report_of(result: Result<InscriptionPlanView, PlanError>) -> TransactionPlanView {
    match result {
        Ok(plan) => TransactionPlanView {
            error: None,
            error_message: Seq::empty(),
            plan: Some(plan),
        },
        Err(error) => TransactionPlanView {
            error: Some(error),
            error_message: error.message_spec(),
            plan: None,
        },
    }
}

impl TransactionPlan {
    /// The report of a planning that ended with `result`: the plan and no
    /// error, or the error with its message and no plan.
    pub fn report(result: Result<InscriptionPlan, PlanError>) -> (report: TransactionPlan)
        ensures
            report@ == report_of(plan_result_view(result)),
            report.error is None <==> result is Ok,
            report.plan is Some <==> result is Ok,
    {
        match result {
            Ok(plan) => TransactionPlan {
                error: None,
                error_message: String::new(),
                plan: Some(plan),
            },
            Err(error) => TransactionPlan {
                error: Some(error),
                error_message: error.message(),
                plan: None,
            },
        }
    }
}

} // verus!
