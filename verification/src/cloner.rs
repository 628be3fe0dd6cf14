//! Independent copies of caller-supplied descriptors.
//!
//! A descriptor that goes into more than one request is copied first, so that
//! no request shares storage with another or with the caller. A malformed
//! descriptor is refused instead of being copied.
use crate::bytes::{copy_byte_strings, copy_bytes};
use crate::descriptor::{
    input_views, optional_output_view, Input, InputRecipient, InputView, InscriptionSpec,
    KeyOrHash, Output, OutputRecipient, OutputView, ScriptOrHash,
};
use crate::error::PlanError;
use vstd::prelude::*;

verus! {

/// What [`hard_clone_output`] returns for an output with the given view.
pub open spec fn cloned_output(output: OutputView) -> Result<OutputView, PlanError> {
    if output.well_formed() {
        Ok(output)
    } else {
        Err(PlanError::InvalidOutputVariant)
    }
}

/// What [`hard_clone_input`] returns for an input with the given view.
pub open spec fn cloned_input(input: InputView) -> Result<InputView, PlanError> {
    if input.well_formed() {
        Ok(input)
    } else {
        Err(PlanError::InvalidInputVariant)
    }
}

/// What [`hard_clone_inputs`] returns for inputs with the given views.
pub open spec fn cloned_inputs(inputs: Seq<InputView>) -> Result<Seq<InputView>, PlanError> {
    if forall|i: int| 0 <= i < inputs.len() ==> (#[trigger] inputs[i]).well_formed() {
        Ok(inputs)
    } else {
        Err(PlanError::InvalidInputVariant)
    }
}

/// What [`hard_clone_optional_output`] returns for the given view.
pub open spec fn cloned_optional_output(output: Option<OutputView>) -> Result<
    Option<OutputView>,
    PlanError,
> {
    match output {
        Some(output) => match cloned_output(output) {
            Ok(copy) => Ok(Some(copy)),
            Err(error) => Err(error),
        },
        None => Ok(None),
    }
}

/// The view of a copied output, or the error.
pub open spec fn output_result_view(result: Result<Output, PlanError>) -> Result<
    OutputView,
    PlanError,
> {
    match result {
        Ok(output) => Ok(output@),
        Err(error) => Err(error),
    }
}

/// The view of a copied input, or the error.
pub open spec fn input_result_view(result: Result<Input, PlanError>) -> Result<
    InputView,
    PlanError,
> {
    match result {
        Ok(input) => Ok(input@),
        Err(error) => Err(error),
    }
}

/// The views of copied inputs, or the error.
pub open spec fn inputs_result_view(result: Result<Vec<Input>, PlanError>) -> Result<
    Seq<InputView>,
    PlanError,
> {
    match result {
        Ok(inputs) => Ok(input_views(inputs@)),
        Err(error) => Err(error),
    }
}

/// The view of a copied optional output, or the error.
pub open spec fn optional_output_result_view(
    result: Result<Option<Output>, PlanError>,
) -> Result<Option<OutputView>, PlanError> {
    match result {
        Ok(output) => Ok(optional_output_view(output)),
        Err(error) => Err(error),
    }
}

/// An independent copy of an inscription.
pub fn hard_clone_inscription(inscription: &InscriptionSpec) -> (copy: InscriptionSpec)
    ensures
        copy@ == inscription@,
{
    InscriptionSpec {
        one_prevout: inscription.one_prevout,
        target_address: copy_bytes(&inscription.target_address),
        ticker: inscription.ticker.clone(),
        transfer_amount: inscription.transfer_amount,
    }
}

/// An independent copy of a public key or hash, or `InvalidOutputVariant`
/// where neither was given.
pub fn hard_clone_key_or_hash(key: &KeyOrHash) -> (result: Result<KeyOrHash, PlanError>)
    ensures
        result is Ok <==> !(key@ is Unset),
        result matches Ok(copy) ==> copy@ == key@,
        result matches Err(error) ==> error == PlanError::InvalidOutputVariant,
{
    match key {
        KeyOrHash::Unset => Err(PlanError::InvalidOutputVariant),
        KeyOrHash::PublicKey(key) => Ok(KeyOrHash::PublicKey(copy_bytes(key))),
        KeyOrHash::Hash(hash) => Ok(KeyOrHash::Hash(copy_bytes(hash))),
    }
}

/// An independent copy of a redeem script or hash, or `InvalidOutputVariant`
/// where neither was given.
pub fn hard_clone_script_or_hash(script: &ScriptOrHash) -> (result: Result<
    ScriptOrHash,
    PlanError,
>)
    ensures
        result is Ok <==> !(script@ is Unset),
        result matches Ok(copy) ==> copy@ == script@,
        result matches Err(error) ==> error == PlanError::InvalidOutputVariant,
{
    match script {
        ScriptOrHash::Unset => Err(PlanError::InvalidOutputVariant),
        ScriptOrHash::RedeemScript(script) => Ok(ScriptOrHash::RedeemScript(copy_bytes(script))),
        ScriptOrHash::Hash(hash) => Ok(ScriptOrHash::Hash(copy_bytes(hash))),
    }
}

/// An independent copy of `output`, or `InvalidOutputVariant` where `output`
/// is malformed: where it has no recipient, or its recipient lacks its key,
/// script or hash.
pub fn hard_clone_output(output: &Output) -> (result: Result<Output, PlanError>)
    ensures
        output_result_view(result) == cloned_output(output@),
        result is Ok <==> output@.well_formed(),
        result matches Ok(copy) ==> copy@ == output@,
        result matches Err(error) ==> error == PlanError::InvalidOutputVariant,
{
    let recipient = match &output.recipient {
        OutputRecipient::Unset => {
            return Err(PlanError::InvalidOutputVariant);
        },
        OutputRecipient::P2sh(script) => match hard_clone_script_or_hash(script) {
            Ok(copy) => OutputRecipient::P2sh(copy),
            Err(error) => {
                return Err(error);
            },
        },
        OutputRecipient::P2pkh(key) => match hard_clone_key_or_hash(key) {
            Ok(copy) => OutputRecipient::P2pkh(copy),
            Err(error) => {
                return Err(error);
            },
        },
        OutputRecipient::P2wsh(script) => match hard_clone_script_or_hash(script) {
            Ok(copy) => OutputRecipient::P2wsh(copy),
            Err(error) => {
                return Err(error);
            },
        },
        OutputRecipient::P2wpkh(key) => match hard_clone_key_or_hash(key) {
            Ok(copy) => OutputRecipient::P2wpkh(copy),
            Err(error) => {
                return Err(error);
            },
        },
        OutputRecipient::P2trKeyPath(key) => OutputRecipient::P2trKeyPath(copy_bytes(key)),
        OutputRecipient::P2trScriptPath { internal_key, merkle_root } => {
            OutputRecipient::P2trScriptPath {
                internal_key: copy_bytes(internal_key),
                merkle_root: copy_bytes(merkle_root),
            }
        },
        OutputRecipient::P2trAssumeTweaked(key) => OutputRecipient::P2trAssumeTweaked(
            copy_bytes(key),
        ),
        OutputRecipient::Brc20Inscribe { target_address, ticker, transfer_amount } => {
            OutputRecipient::Brc20Inscribe {
                target_address: copy_bytes(target_address),
                ticker: ticker.clone(),
                transfer_amount: *transfer_amount,
            }
        },
        OutputRecipient::OrdinalInscribe { target_address, mime_type, payload } => {
            OutputRecipient::OrdinalInscribe {
                target_address: copy_bytes(target_address),
                mime_type: mime_type.clone(),
                payload: copy_bytes(payload),
            }
        },
        OutputRecipient::CustomScriptPubkey(script) => OutputRecipient::CustomScriptPubkey(
            copy_bytes(script),
        ),
        OutputRecipient::FromAddress(address) => OutputRecipient::FromAddress(address.clone()),
    };
    Ok(Output { value: output.value, recipient })
}

/// An independent copy of an output that may be absent. An absent output is
/// copied as absent.
pub fn hard_clone_optional_output(output: &Option<Output>) -> (result: Result<
    Option<Output>,
    PlanError,
>)
    ensures
        optional_output_result_view(result) == cloned_optional_output(
            optional_output_view(*output),
        ),
{
    match output {
        Some(output) => match hard_clone_output(output) {
            Ok(copy) => Ok(Some(copy)),
            Err(error) => Err(error),
        },
        None => Ok(None),
    }
}

/// An independent copy of `input`, or `InvalidInputVariant` where `input` is
/// malformed: where it has no spending condition.
pub fn hard_clone_input(input: &Input) -> (result: Result<Input, PlanError>)
    ensures
        input_result_view(result) == cloned_input(input@),
        result is Ok <==> input@.well_formed(),
        result matches Ok(copy) ==> copy@ == input@,
        result matches Err(error) ==> error == PlanError::InvalidInputVariant,
{
    let recipient = match &input.recipient {
        InputRecipient::Unset => {
            return Err(PlanError::InvalidInputVariant);
        },
        InputRecipient::P2sh(script) => InputRecipient::P2sh(copy_bytes(script)),
        InputRecipient::P2pkh(key) => InputRecipient::P2pkh(copy_bytes(key)),
        InputRecipient::P2wsh(script) => InputRecipient::P2wsh(copy_bytes(script)),
        InputRecipient::P2wpkh(key) => InputRecipient::P2wpkh(copy_bytes(key)),
        InputRecipient::P2trKeyPath { one_prevout, public_key } => InputRecipient::P2trKeyPath {
            one_prevout: *one_prevout,
            public_key: copy_bytes(public_key),
        },
        InputRecipient::P2trScriptPath { one_prevout, payload, control_block } => {
            InputRecipient::P2trScriptPath {
                one_prevout: *one_prevout,
                payload: copy_bytes(payload),
                control_block: copy_bytes(control_block),
            }
        },
        InputRecipient::Brc20Inscribe(inscription) => InputRecipient::Brc20Inscribe(
            hard_clone_inscription(inscription),
        ),
        InputRecipient::OrdinalInscribe { one_prevout, target_address, mime_type, payload } => {
            InputRecipient::OrdinalInscribe {
                one_prevout: *one_prevout,
                target_address: copy_bytes(target_address),
                mime_type: mime_type.clone(),
                payload: copy_bytes(payload),
            }
        },
        InputRecipient::CustomScript {
            script_pubkey,
            script_sig,
            witness_items,
            signing_method,
        } => InputRecipient::CustomScript {
            script_pubkey: copy_bytes(script_pubkey),
            script_sig: copy_bytes(script_sig),
            witness_items: copy_byte_strings(witness_items),
            signing_method: *signing_method,
        },
    };
    Ok(
        Input {
            txid: copy_bytes(&input.txid),
            vout: input.vout,
            value: input.value,
            sequence: input.sequence,
            sequence_enable_zero: input.sequence_enable_zero,
            sighash_type: input.sighash_type,
            recipient,
        },
    )
}

/// Independent copies of all of `inputs`, in order, or `InvalidInputVariant`
/// where one of them has no spending condition.
pub fn hard_clone_inputs(inputs: &Vec<Input>) -> (result: Result<Vec<Input>, PlanError>)
    ensures
        inputs_result_view(result) == cloned_inputs(input_views(inputs@)),
{
    let mut copies: Vec<Input> = Vec::with_capacity(inputs.len());
    let mut i: usize = 0;
    while i < inputs.len()
        invariant
            i <= inputs.len(),
            copies.len() == i,
            forall|k: int| 0 <= k < i ==> (#[trigger] copies@[k])@ == inputs@[k]@,
            forall|k: int| 0 <= k < i ==> (#[trigger] input_views(inputs@)[k]).well_formed(),
        decreases inputs.len() - i,
    {
        match hard_clone_input(&inputs[i]) {
            Ok(copy) => {
                copies.push(copy);
            },
            Err(error) => {
                assert(!input_views(inputs@)[i as int].well_formed());
                return Err(error);
            },
        }
        i += 1;
    }
    assert(input_views(copies@) =~= input_views(inputs@));
    Ok(copies)
}

} // verus!
