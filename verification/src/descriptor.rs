//! Descriptions of transaction inputs and outputs, and their mathematical views.
//!
//! Every type that owns bytes or text has a view in which a `Vec<u8>` is a
//! `Seq<u8>` and a `String` a `Seq<char>`. The contracts of the library are
//! stated over those views.
//!
//! A description is a choice among variants, and a choice may have been left
//! open: each such type has a variant `Unset`. A description with an open
//! choice anywhere in it is malformed.
use vstd::prelude::*;

verus! {

/// How the signature of an input commits to the rest of the transaction.
#[derive(Clone, Copy, Debug, PartialEq, Eq, Structural)]
pub enum SighashType {
    /// Whatever the builder uses for the input's script kind.
    UseDefault,
    /// Commit to all inputs and outputs.
    All,
    /// Commit to all inputs and to no output.
    NoOutput,
    /// Commit to all inputs and to the output with the input's index.
    Single,
    /// Commit to this input only and to all outputs.
    AllAnyoneCanPay,
    /// Commit to this input only and to no output.
    NoOutputAnyoneCanPay,
    /// Commit to this input only and to the output with the input's index.
    SingleAnyoneCanPay,
}

/// The rules by which a custom input is signed.
#[derive(Clone, Copy, Debug, PartialEq, Eq, Structural)]
pub enum SigningMethod {
    /// The rules from before witness programs.
    Legacy,
    /// The rules of witness programs of version 0.
    Segwit,
    /// The taproot rules, committing to all spent outputs.
    TaprootAll,
    /// The taproot rules, committing to the one spent output.
    TaprootOnePrevout,
}

/// The token operation that an inscription stands for.
#[derive(Clone, Debug, PartialEq, Eq)]
pub struct InscriptionSpec {
    /// The inscription spends exactly one prior output.
    pub one_prevout: bool,
    /// The public key that the inscription is made out to.
    pub target_address: Vec<u8>,
    /// The token's short symbol.
    pub ticker: String,
    /// The quantity of the token to transfer.
    pub transfer_amount: u64,
}

/// The view of an [`InscriptionSpec`].
pub struct InscriptionSpecView {
    pub one_prevout: bool,
    pub target_address: Seq<u8>,
    pub ticker: Seq<char>,
    pub transfer_amount: u64,
}

impl View for InscriptionSpec {
    type V = InscriptionSpecView;

    open spec fn view(&self) -> InscriptionSpecView {
        InscriptionSpecView {
            one_prevout: self.one_prevout,
            target_address: self.target_address@,
            ticker: self.ticker@,
            transfer_amount: self.transfer_amount,
        }
    }
}

/// A public key, or the hash of one.
#[derive(Clone, Debug, PartialEq, Eq)]
pub enum KeyOrHash {
    /// Neither was given.
    Unset,
    PublicKey(Vec<u8>),
    Hash(Vec<u8>),
}

/// The view of a [`KeyOrHash`].
pub enum KeyOrHashView {
    Unset,
    PublicKey(Seq<u8>),
    Hash(Seq<u8>),
}

impl View for KeyOrHash {
    type V = KeyOrHashView;

    open spec fn view(&self) -> KeyOrHashView {
        match self {
            KeyOrHash::Unset => KeyOrHashView::Unset,
            KeyOrHash::PublicKey(key) => KeyOrHashView::PublicKey(key@),
            KeyOrHash::Hash(hash) => KeyOrHashView::Hash(hash@),
        }
    }
}

/// A redeem script, or the hash of one.
#[derive(Clone, Debug, PartialEq, Eq)]
pub enum ScriptOrHash {
    /// Neither was given.
    Unset,
    RedeemScript(Vec<u8>),
    Hash(Vec<u8>),
}

/// The view of a [`ScriptOrHash`].
pub enum ScriptOrHashView {
    Unset,
    RedeemScript(Seq<u8>),
    Hash(Seq<u8>),
}

impl View for ScriptOrHash {
    type V = ScriptOrHashView;

    open spec fn view(&self) -> ScriptOrHashView {
        match self {
            ScriptOrHash::Unset => ScriptOrHashView::Unset,
            ScriptOrHash::RedeemScript(script) => ScriptOrHashView::RedeemScript(script@),
            ScriptOrHash::Hash(hash) => ScriptOrHashView::Hash(hash@),
        }
    }
}

/// Who may spend an output.
#[derive(Clone, Debug, PartialEq, Eq)]
pub enum OutputRecipient {
    /// No recipient was chosen.
    Unset,
    /// Pay to the hash of a redeem script.
    P2sh(ScriptOrHash),
    /// Pay to the hash of a public key.
    P2pkh(KeyOrHash),
    /// Pay to the hash of a script, in a witness program.
    P2wsh(ScriptOrHash),
    /// Pay to the hash of a public key, in a witness program.
    P2wpkh(KeyOrHash),
    /// Pay to a taproot public key, to be spent by the key path.
    P2trKeyPath(Vec<u8>),
    /// Pay to a taproot public key with a tree of scripts behind it.
    P2trScriptPath { internal_key: Vec<u8>, merkle_root: Vec<u8> },
    /// Pay to a taproot public key that is taken as tweaked already.
    P2trAssumeTweaked(Vec<u8>),
    /// Pay to a taproot script that carries a token inscription.
    Brc20Inscribe { target_address: Vec<u8>, ticker: String, transfer_amount: u64 },
    /// Pay to a taproot script that carries an inscription of any content.
    OrdinalInscribe { target_address: Vec<u8>, mime_type: String, payload: Vec<u8> },
    /// Pay to a script public key given in full.
    CustomScriptPubkey(Vec<u8>),
    /// Pay to an address in its text form.
    FromAddress(String),
}

/// The view of an [`OutputRecipient`].
pub enum OutputRecipientView {
    Unset,
    P2sh(ScriptOrHashView),
    P2pkh(KeyOrHashView),
    P2wsh(ScriptOrHashView),
    P2wpkh(KeyOrHashView),
    P2trKeyPath(Seq<u8>),
    P2trScriptPath { internal_key: Seq<u8>, merkle_root: Seq<u8> },
    P2trAssumeTweaked(Seq<u8>),
    Brc20Inscribe { target_address: Seq<u8>, ticker: Seq<char>, transfer_amount: u64 },
    OrdinalInscribe { target_address: Seq<u8>, mime_type: Seq<char>, payload: Seq<u8> },
    CustomScriptPubkey(Seq<u8>),
    FromAddress(Seq<char>),
}

impl View for OutputRecipient {
    type V = OutputRecipientView;

    open spec fn view(&self) -> OutputRecipientView {
        match self {
            OutputRecipient::Unset => OutputRecipientView::Unset,
            OutputRecipient::P2sh(script) => OutputRecipientView::P2sh(script@),
            OutputRecipient::P2pkh(key) => OutputRecipientView::P2pkh(key@),
            OutputRecipient::P2wsh(script) => OutputRecipientView::P2wsh(script@),
            OutputRecipient::P2wpkh(key) => OutputRecipientView::P2wpkh(key@),
            OutputRecipient::P2trKeyPath(key) => OutputRecipientView::P2trKeyPath(key@),
            OutputRecipient::P2trScriptPath { internal_key, merkle_root } => {
                OutputRecipientView::P2trScriptPath {
                    internal_key: internal_key@,
                    merkle_root: merkle_root@,
                }
            },
            OutputRecipient::P2trAssumeTweaked(key) => OutputRecipientView::P2trAssumeTweaked(
                key@,
            ),
            OutputRecipient::Brc20Inscribe { target_address, ticker, transfer_amount } => {
                OutputRecipientView::Brc20Inscribe {
                    target_address: target_address@,
                    ticker: ticker@,
                    transfer_amount: *transfer_amount,
                }
            },
            OutputRecipient::OrdinalInscribe { target_address, mime_type, payload } => {
                OutputRecipientView::OrdinalInscribe {
                    target_address: target_address@,
                    mime_type: mime_type@,
                    payload: payload@,
                }
            },
            OutputRecipient::CustomScriptPubkey(script) => OutputRecipientView::CustomScriptPubkey(
                script@,
            ),
            OutputRecipient::FromAddress(address) => OutputRecipientView::FromAddress(address@),
        }
    }
}

impl OutputRecipientView {
    /// A recipient was chosen, and so was the key, script or hash that it
    /// takes.
    pub open spec fn well_formed(self) -> bool {
        match self {
            OutputRecipientView::Unset => false,
            OutputRecipientView::P2sh(script) => !(script is Unset),
            OutputRecipientView::P2pkh(key) => !(key is Unset),
            OutputRecipientView::P2wsh(script) => !(script is Unset),
            OutputRecipientView::P2wpkh(key) => !(key is Unset),
            _ => true,
        }
    }
}

/// A transaction output: an amount and who may spend it.
#[derive(Clone, Debug, PartialEq, Eq)]
pub struct Output {
    /// The amount, in the ledger's smallest unit.
    pub value: u64,
    pub recipient: OutputRecipient,
}

/// The view of an [`Output`].
pub struct OutputView {
    pub value: u64,
    pub recipient: OutputRecipientView,
}

impl View for Output {
    type V = OutputView;

    open spec fn view(&self) -> OutputView {
        OutputView { value: self.value, recipient: self.recipient@ }
    }
}

impl OutputView {
    /// An output is well formed when its recipient is.
    pub open spec fn well_formed(self) -> bool {
        self.recipient.well_formed()
    }
}

/// The views of a sequence of byte strings, in order.
pub open spec fn byte_string_views(items: Seq<Vec<u8>>) -> Seq<Seq<u8>> {
    items.map_values(|item: Vec<u8>| item@)
}

/// What it takes to spend the output that an input refers to.
#[derive(Clone, Debug, PartialEq, Eq)]
pub enum InputRecipient {
    /// No spending condition was chosen. An input in this state is malformed.
    Unset,
    /// Spend a pay-to-script-hash output with this redeem script.
    P2sh(Vec<u8>),
    /// Spend a pay-to-public-key-hash output with this public key.
    P2pkh(Vec<u8>),
    /// Spend a witness script-hash output with this script.
    P2wsh(Vec<u8>),
    /// Spend a witness public-key-hash output with this public key.
    P2wpkh(Vec<u8>),
    /// Spend a taproot output by the key path.
    P2trKeyPath { one_prevout: bool, public_key: Vec<u8> },
    /// Spend a taproot output by one of its scripts.
    P2trScriptPath { one_prevout: bool, payload: Vec<u8>, control_block: Vec<u8> },
    /// Spend a taproot output by the script that carries a token inscription.
    Brc20Inscribe(InscriptionSpec),
    /// Spend a taproot output by the script that carries an inscription of any
    /// content.
    OrdinalInscribe {
        one_prevout: bool,
        target_address: Vec<u8>,
        mime_type: String,
        payload: Vec<u8>,
    },
    /// Spend an output with scripts given in full.
    CustomScript {
        script_pubkey: Vec<u8>,
        script_sig: Vec<u8>,
        witness_items: Vec<Vec<u8>>,
        signing_method: SigningMethod,
    },
}

/// The view of an [`InputRecipient`].
pub enum InputRecipientView {
    Unset,
    P2sh(Seq<u8>),
    P2pkh(Seq<u8>),
    P2wsh(Seq<u8>),
    P2wpkh(Seq<u8>),
    P2trKeyPath { one_prevout: bool, public_key: Seq<u8> },
    P2trScriptPath { one_prevout: bool, payload: Seq<u8>, control_block: Seq<u8> },
    Brc20Inscribe(InscriptionSpecView),
    OrdinalInscribe {
        one_prevout: bool,
        target_address: Seq<u8>,
        mime_type: Seq<char>,
        payload: Seq<u8>,
    },
    CustomScript {
        script_pubkey: Seq<u8>,
        script_sig: Seq<u8>,
        witness_items: Seq<Seq<u8>>,
        signing_method: SigningMethod,
    },
}

impl View for InputRecipient {
    type V = InputRecipientView;

    open spec fn view(&self) -> InputRecipientView {
        match self {
            InputRecipient::Unset => InputRecipientView::Unset,
            InputRecipient::P2sh(script) => InputRecipientView::P2sh(script@),
            InputRecipient::P2pkh(key) => InputRecipientView::P2pkh(key@),
            InputRecipient::P2wsh(script) => InputRecipientView::P2wsh(script@),
            InputRecipient::P2wpkh(key) => InputRecipientView::P2wpkh(key@),
            InputRecipient::P2trKeyPath { one_prevout, public_key } => {
                InputRecipientView::P2trKeyPath {
                    one_prevout: *one_prevout,
                    public_key: public_key@,
                }
            },
            InputRecipient::P2trScriptPath { one_prevout, payload, control_block } => {
                InputRecipientView::P2trScriptPath {
                    one_prevout: *one_prevout,
                    payload: payload@,
                    control_block: control_block@,
                }
            },
            InputRecipient::Brc20Inscribe(inscription) => InputRecipientView::Brc20Inscribe(
                inscription@,
            ),
            InputRecipient::OrdinalInscribe { one_prevout, target_address, mime_type, payload } => {
                InputRecipientView::OrdinalInscribe {
                    one_prevout: *one_prevout,
                    target_address: target_address@,
                    mime_type: mime_type@,
                    payload: payload@,
                }
            },
            InputRecipient::CustomScript {
                script_pubkey,
                script_sig,
                witness_items,
                signing_method,
            } => InputRecipientView::CustomScript {
                script_pubkey: script_pubkey@,
                script_sig: script_sig@,
                witness_items: byte_string_views(witness_items@),
                signing_method: *signing_method,
            },
        }
    }
}

/// A transaction input: a reference to an earlier output and how to spend it.
#[derive(Clone, Debug, PartialEq, Eq)]
pub struct Input {
    /// The id of the transaction that made the output, in reference byte order.
    pub txid: Vec<u8>,
    /// The index of the output in that transaction.
    pub vout: u32,
    /// The amount that the output holds.
    pub value: u64,
    /// The sequence number. Zero stands for the builder's default unless
    /// `sequence_enable_zero` is set.
    pub sequence: u32,
    /// Take a `sequence` of zero as it is.
    pub sequence_enable_zero: bool,
    pub sighash_type: SighashType,
    pub recipient: InputRecipient,
}

/// The view of an [`Input`].
pub struct InputView {
    pub txid: Seq<u8>,
    pub vout: u32,
    pub value: u64,
    pub sequence: u32,
    pub sequence_enable_zero: bool,
    pub sighash_type: SighashType,
    pub recipient: InputRecipientView,
}

impl View for Input {
    type V = InputView;

    open spec fn view(&self) -> InputView {
        InputView {
            txid: self.txid@,
            vout: self.vout,
            value: self.value,
            sequence: self.sequence,
            sequence_enable_zero: self.sequence_enable_zero,
            sighash_type: self.sighash_type,
            recipient: self.recipient@,
        }
    }
}

impl InputView {
    /// An input is well formed when a spending condition was chosen.
    pub open spec fn well_formed(self) -> bool {
        !(self.recipient is Unset)
    }
}

/// The views of a sequence of inputs, in order.
pub open spec fn input_views(inputs: Seq<Input>) -> Seq<InputView> {
    inputs.map_values(|input: Input| input@)
}

/// The views of a sequence of outputs, in order.
pub open spec fn output_views(outputs: Seq<Output>) -> Seq<OutputView> {
    outputs.map_values(|output: Output| output@)
}

/// The view of an output that may be absent.
pub open spec fn optional_output_view(output: Option<Output>) -> Option<OutputView> {
    match output {
        Some(output) => Some(output@),
        None => None,
    }
}

} // verus!
