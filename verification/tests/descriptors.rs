use inscription_plan::bytes::{copy_bytes, placeholder_txid, reverse_bytes, TXID_LEN};
use inscription_plan::cloner::{
    hard_clone_input, hard_clone_inputs, hard_clone_inscription, hard_clone_optional_output,
    hard_clone_output,
};
use inscription_plan::bytes::copy_byte_strings;
use inscription_plan::cloner::{hard_clone_key_or_hash, hard_clone_script_or_hash};
use inscription_plan::descriptor::{
    Input, InputRecipient, InscriptionSpec, KeyOrHash, Output, OutputRecipient, ScriptOrHash,
    SighashType, SigningMethod,
};
use inscription_plan::error::{PlanError, OK};
use inscription_plan::transaction::{
    InputSelector, InscriptionPlan, TransactionPlan, TransactionRequest, TransactionResult,
};

fn inscription() -> InscriptionSpec {
    InscriptionSpec {
        one_prevout: false,
        target_address: vec![1, 2, 3],
        ticker: "ORDI".to_string(),
        transfer_amount: 21,
    }
}

fn every_output_recipient() -> Vec<OutputRecipient> {
    vec![
        OutputRecipient::P2sh(ScriptOrHash::RedeemScript(vec![2, 2])),
        OutputRecipient::P2sh(ScriptOrHash::Hash(vec![2, 3])),
        OutputRecipient::P2pkh(KeyOrHash::PublicKey(vec![1])),
        OutputRecipient::P2pkh(KeyOrHash::Hash(vec![1, 1])),
        OutputRecipient::P2wsh(ScriptOrHash::RedeemScript(vec![4])),
        OutputRecipient::P2wsh(ScriptOrHash::Hash(vec![4, 4])),
        OutputRecipient::P2wpkh(KeyOrHash::PublicKey(vec![3, 3, 3])),
        OutputRecipient::P2wpkh(KeyOrHash::Hash(vec![3])),
        OutputRecipient::P2trKeyPath(vec![5, 6]),
        OutputRecipient::P2trScriptPath { internal_key: vec![5], merkle_root: vec![6, 7] },
        OutputRecipient::P2trAssumeTweaked(vec![8, 8]),
        OutputRecipient::Brc20Inscribe {
            target_address: vec![7],
            ticker: "SATS".to_string(),
            transfer_amount: 8,
        },
        OutputRecipient::OrdinalInscribe {
            target_address: vec![7, 1],
            mime_type: "text/plain".to_string(),
            payload: vec![104, 105],
        },
        OutputRecipient::CustomScriptPubkey(vec![9, 10]),
        OutputRecipient::FromAddress("bc1qexample".to_string()),
    ]
}

fn every_malformed_output_recipient() -> Vec<OutputRecipient> {
    vec![
        OutputRecipient::Unset,
        OutputRecipient::P2sh(ScriptOrHash::Unset),
        OutputRecipient::P2pkh(KeyOrHash::Unset),
        OutputRecipient::P2wsh(ScriptOrHash::Unset),
        OutputRecipient::P2wpkh(KeyOrHash::Unset),
    ]
}

fn every_input_recipient() -> Vec<InputRecipient> {
    vec![
        InputRecipient::P2sh(vec![2, 2]),
        InputRecipient::P2pkh(vec![1]),
        InputRecipient::P2wsh(vec![4]),
        InputRecipient::P2wpkh(vec![3, 3, 3]),
        InputRecipient::P2trKeyPath { one_prevout: true, public_key: vec![5, 6] },
        InputRecipient::P2trScriptPath {
            one_prevout: false,
            payload: vec![1, 2],
            control_block: vec![3],
        },
        InputRecipient::Brc20Inscribe(inscription()),
        InputRecipient::OrdinalInscribe {
            one_prevout: true,
            target_address: vec![7, 1],
            mime_type: "text/plain".to_string(),
            payload: vec![104, 105],
        },
        InputRecipient::CustomScript {
            script_pubkey: vec![9, 10],
            script_sig: vec![11],
            witness_items: vec![vec![1, 2], vec![], vec![3]],
            signing_method: SigningMethod::Segwit,
        },
    ]
}

fn input_with(recipient: InputRecipient) -> Input {
    Input {
        txid: vec![0xcd; 32],
        vout: 3,
        value: 1234,
        sequence: 5,
        sequence_enable_zero: true,
        sighash_type: SighashType::SingleAnyoneCanPay,
        recipient,
    }
}

#[test]
fn copy_of_an_output_equals_the_output() {
    for recipient in every_output_recipient() {
        let output = Output { value: 546, recipient };
        assert_eq!(hard_clone_output(&output), Ok(output.clone()));
    }
}

#[test]
fn output_without_recipient_is_refused() {
    for recipient in every_malformed_output_recipient() {
        let output = Output { value: 546, recipient };
        assert_eq!(hard_clone_output(&output), Err(PlanError::InvalidOutputVariant));
    }
}

#[test]
fn key_or_hash_is_copied_when_given() {
    assert_eq!(
        hard_clone_key_or_hash(&KeyOrHash::PublicKey(vec![1, 2])),
        Ok(KeyOrHash::PublicKey(vec![1, 2]))
    );
    assert_eq!(hard_clone_key_or_hash(&KeyOrHash::Hash(vec![3])), Ok(KeyOrHash::Hash(vec![3])));
    assert_eq!(hard_clone_key_or_hash(&KeyOrHash::Unset), Err(PlanError::InvalidOutputVariant));
}

#[test]
fn script_or_hash_is_copied_when_given() {
    assert_eq!(
        hard_clone_script_or_hash(&ScriptOrHash::RedeemScript(vec![1, 2])),
        Ok(ScriptOrHash::RedeemScript(vec![1, 2]))
    );
    assert_eq!(
        hard_clone_script_or_hash(&ScriptOrHash::Hash(vec![3])),
        Ok(ScriptOrHash::Hash(vec![3]))
    );
    assert_eq!(
        hard_clone_script_or_hash(&ScriptOrHash::Unset),
        Err(PlanError::InvalidOutputVariant)
    );
}

#[test]
fn copy_byte_strings_copies_each() {
    let source = vec![vec![1u8, 2], vec![], vec![3]];
    let mut copy = copy_byte_strings(&source);
    assert_eq!(copy, source);
    copy[0][0] = 9;
    copy.pop();
    assert_eq!(source, vec![vec![1u8, 2], vec![], vec![3]]);
    assert_eq!(copy_byte_strings(&Vec::new()), Vec::<Vec<u8>>::new());
}

#[test]
fn copy_of_an_input_equals_the_input() {
    for recipient in every_input_recipient() {
        let input = input_with(recipient);
        assert_eq!(hard_clone_input(&input), Ok(input.clone()));
    }
}

#[test]
fn input_without_spending_condition_is_refused() {
    let input = input_with(InputRecipient::Unset);
    assert_eq!(hard_clone_input(&input), Err(PlanError::InvalidInputVariant));
}

#[test]
fn changing_the_copy_of_an_output_leaves_the_source_unchanged() {
    let source =
        Output { value: 546, recipient: OutputRecipient::CustomScriptPubkey(vec![1, 2, 3]) };
    let mut copy = hard_clone_output(&source).unwrap();
    copy.value = 1;
    match &mut copy.recipient {
        OutputRecipient::CustomScriptPubkey(script) => {
            script[0] = 0xff;
            script.push(4);
        },
        _ => panic!("the copy has another recipient"),
    }
    assert_eq!(
        source,
        Output { value: 546, recipient: OutputRecipient::CustomScriptPubkey(vec![1, 2, 3]) }
    );
    assert_ne!(copy, source);
}

#[test]
fn changing_the_copy_of_an_input_leaves_the_source_unchanged() {
    let source = input_with(InputRecipient::Brc20Inscribe(inscription()));
    let mut copy = hard_clone_input(&source).unwrap();
    copy.txid[0] = 0;
    copy.value = 0;
    match &mut copy.recipient {
        InputRecipient::Brc20Inscribe(inscription) => {
            inscription.ticker.push('X');
            inscription.target_address.clear();
        },
        _ => panic!("the copy has another spending condition"),
    }
    assert_eq!(source, input_with(InputRecipient::Brc20Inscribe(inscription())));
    assert_ne!(copy, source);
}

#[test]
fn copy_of_an_inscription_equals_the_inscription() {
    let source = inscription();
    let mut copy = hard_clone_inscription(&source);
    assert_eq!(copy, source);
    copy.ticker.clear();
    assert_eq!(source, inscription());
}

#[test]
fn copy_of_an_absent_output_is_absent() {
    assert_eq!(hard_clone_optional_output(&None), Ok(None));
    let output = Output { value: 1, recipient: OutputRecipient::P2sh(ScriptOrHash::Hash(vec![1])) };
    assert_eq!(hard_clone_optional_output(&Some(output.clone())), Ok(Some(output)));
    let unset = Output { value: 1, recipient: OutputRecipient::Unset };
    assert_eq!(hard_clone_optional_output(&Some(unset)), Err(PlanError::InvalidOutputVariant));
}

#[test]
fn copies_of_inputs_keep_their_order() {
    let inputs: Vec<Input> = every_input_recipient().into_iter().map(input_with).collect();
    assert_eq!(hard_clone_inputs(&inputs), Ok(inputs.clone()));
    assert_eq!(hard_clone_inputs(&Vec::new()), Ok(Vec::new()));
}

#[test]
fn one_malformed_input_refuses_all() {
    let mut inputs: Vec<Input> = every_input_recipient().into_iter().map(input_with).collect();
    inputs.push(input_with(InputRecipient::Unset));
    assert_eq!(hard_clone_inputs(&inputs), Err(PlanError::InvalidInputVariant));
    inputs.rotate_right(1);
    assert_eq!(hard_clone_inputs(&inputs), Err(PlanError::InvalidInputVariant));
}

#[test]
fn reverse_bytes_turns_the_order_round() {
    assert_eq!(reverse_bytes(&vec![1, 2, 3]), vec![3, 2, 1]);
    assert_eq!(reverse_bytes(&vec![9]), vec![9]);
    assert_eq!(reverse_bytes(&Vec::new()), Vec::<u8>::new());
    let txid: Vec<u8> = (0u8..32).collect();
    let reversed = reverse_bytes(&txid);
    assert_eq!(reversed[0], 31);
    assert_eq!(reversed[31], 0);
    assert_eq!(reverse_bytes(&reversed), txid);
}

#[test]
fn placeholder_txid_is_all_zero() {
    assert_eq!(TXID_LEN, 32);
    assert_eq!(placeholder_txid(), vec![0u8; 32]);
}

#[test]
fn copy_bytes_copies() {
    let source = vec![1u8, 2, 3];
    let mut copy = copy_bytes(&source);
    assert_eq!(copy, source);
    copy[0] = 9;
    assert_eq!(source, vec![1, 2, 3]);
}

#[test]
fn inscription_input_and_output() {
    let input = Input::inscription(vec![1; 32], 2076, inscription());
    assert_eq!(
        input,
        Input {
            txid: vec![1; 32],
            vout: 0,
            value: 2076,
            sequence: 0,
            sequence_enable_zero: false,
            sighash_type: SighashType::UseDefault,
            recipient: InputRecipient::Brc20Inscribe(inscription()),
        }
    );
    let output = Output::inscription(2076, inscription());
    assert_eq!(
        output,
        Output {
            value: 2076,
            recipient: OutputRecipient::Brc20Inscribe {
                target_address: vec![1, 2, 3],
                ticker: "ORDI".to_string(),
                transfer_amount: 21,
            },
        }
    );
}

#[test]
fn request_builders() {
    let tagged = Output { value: 546, recipient: OutputRecipient::P2pkh(KeyOrHash::PublicKey(vec![1])) };
    let estimate = TransactionRequest::for_estimate(inscription(), tagged.clone(), 10);
    assert_eq!(estimate.inputs, vec![Input::inscription(vec![0; 32], u64::MAX, inscription())]);
    assert_eq!(estimate.outputs, vec![tagged.clone()]);
    assert_eq!(estimate.private_key, Vec::<u8>::new());

    let funding = input_with(InputRecipient::P2pkh(vec![1]));
    let commit = TransactionRequest::for_commit(
        vec![7],
        vec![funding.clone()],
        InputSelector::SelectDescending,
        None,
        10,
        true,
        inscription(),
        2076,
    );
    assert_eq!(
        commit,
        TransactionRequest {
            private_key: vec![7],
            inputs: vec![funding],
            outputs: vec![Output::inscription(2076, inscription())],
            input_selector: InputSelector::SelectDescending,
            fee_per_unit: 10,
            change_output: None,
            disable_change_output: true,
        }
    );

    let reveal =
        TransactionRequest::for_reveal(vec![7], inscription(), tagged.clone(), 10, 2076, vec![3; 32]);
    assert_eq!(
        reveal,
        TransactionRequest {
            private_key: vec![7],
            inputs: vec![Input::inscription(vec![3; 32], 2076, inscription())],
            outputs: vec![tagged],
            input_selector: InputSelector::UseAll,
            fee_per_unit: 10,
            change_output: None,
            disable_change_output: true,
        }
    );
}

#[test]
fn every_error_has_its_message() {
    assert_eq!(PlanError::MissingInscription.message(), "missing inscription");
    assert_eq!(PlanError::MissingTaggedOutput.message(), "missing tagged output");
    assert_eq!(PlanError::InvalidOutputVariant.message(), "output without a recipient");
    assert_eq!(PlanError::InvalidInputVariant.message(), "input without a spending condition");
    assert_eq!(PlanError::Builder(9).message(), "the transaction builder reported an error");
    assert_eq!(
        PlanError::AmountOverflow.message(),
        "fee and tagged output exceed the largest amount"
    );
    assert_eq!(PlanError::MissingCompose.message(), "missing kind of plan");
    assert_eq!(OK, 0);
}

#[test]
fn report_of_an_error_has_code_and_message() {
    let report = TransactionPlan::report(Err(PlanError::MissingTaggedOutput));
    assert_eq!(
        report,
        TransactionPlan {
            error: Some(PlanError::MissingTaggedOutput),
            error_message: "missing tagged output".to_string(),
            plan: None,
        }
    );
    let report = TransactionPlan::report(Err(PlanError::Builder(43)));
    assert_eq!(report.error, Some(PlanError::Builder(43)));
    assert_eq!(report.plan, None);
}

#[test]
fn report_of_a_plan_has_no_error() {
    let plan = InscriptionPlan {
        commit: TransactionResult { error: OK, txid: vec![1], fee_estimate: 2, raw_bytes: vec![3] },
        reveal: TransactionResult { error: OK, txid: vec![4], fee_estimate: 5, raw_bytes: vec![6] },
    };
    let report = TransactionPlan::report(Ok(plan.clone()));
    assert_eq!(
        report,
        TransactionPlan { error: None, error_message: String::new(), plan: Some(plan) }
    );
}
