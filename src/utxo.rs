use vstd::prelude::*;
use bitcoin::TxOut;
use crate::keychain::KeychainKind;
use crate::primitives::{ConfirmationTime, OutPoint};

verus! {

/// An unspent output owned by the wallet.
#[derive(Debug, Clone, PartialEq, Eq)]
pub struct LocalUtxo {
    /// Reference to a transaction output.
    pub outpoint: OutPoint,
    /// Transaction output.
    pub txout: TxOut,
    /// Type of keychain.
    pub keychain: KeychainKind,
    /// Whether this output is spent or not.
    pub is_spent: bool,
    /// The derivation index for the script pubkey in the wallet.
    pub derivation_index: u32,
    /// The confirmation time for the transaction containing this output.
    pub confirmation_time: ConfirmationTime,
}

/// The part of a previous transaction that a foreign input is resolved in:
/// its outputs, in order.
#[derive(Debug, Clone, PartialEq, Eq)]
pub struct PrevTx {
    /// The outputs of the transaction.
    pub output: Vec<TxOut>,
}

/// What a partially signed transaction's input tells of the output it spends.
#[derive(Debug, Clone, PartialEq, Eq)]
pub struct ForeignInput {
    /// The full previous transaction, set for inputs that spend non-witness outputs.
    pub non_witness_utxo: Option<PrevTx>,
    /// The spent output alone, set for inputs that spend witness outputs.
    pub witness_utxo: Option<TxOut>,
}

/// An unspent transaction output.
#[derive(Debug, Clone, PartialEq, Eq)]
pub enum Utxo {
    /// An output owned by the local wallet.
    Local(LocalUtxo),
    /// An output owned by another wallet.
    Foreign {
        /// The location of the output.
        outpoint: OutPoint,
        /// The information about the input needed to add it to a transaction.
        psbt_input: Box<ForeignInput>,
    },
}

/// An unspent output with the weight that spending it adds.
#[derive(Debug, Clone, PartialEq, Eq)]
pub struct WeightedUtxo {
    /// The weight of the witness data and `scriptSig`, in weight units.
    pub satisfaction_weight: usize,
    /// The output.
    pub utxo: Utxo,
}

/// A foreign output can be resolved: its previous transaction is given and
/// holds the referenced index, or, failing that, the spent output is given.
pub open spec fn foreign_input_resolves(outpoint: OutPoint, input: ForeignInput) -> bool {
    match input.non_witness_utxo {
        Some(prev) => (outpoint.vout as int) < prev.output@.len(),
        None => input.witness_utxo is Some,
    }
}

/// The output that a foreign input refers to: the previous transaction's output
/// at the outpoint's index where that transaction is given, else the spent output.
pub open spec fn foreign_txout(outpoint: OutPoint, input: ForeignInput) -> TxOut
    recommends
        foreign_input_resolves(outpoint, input),
{
    match input.non_witness_utxo {
        Some(prev) => prev.output@[outpoint.vout as int],
        None => input.witness_utxo->0,
    }
}

/// How a foreign output is resolved: with the spent output alone it is that
/// output; with the previous transaction alone it is that transaction's output
/// at the outpoint's index; with both, the previous transaction decides.
pub proof fn lemma_foreign_txout_resolution(outpoint: OutPoint, input: ForeignInput)
    requires
        foreign_input_resolves(outpoint, input),
    ensures
        input.non_witness_utxo is None ==> foreign_txout(outpoint, input)
            == input.witness_utxo->0,
        input.non_witness_utxo matches Some(prev) ==> foreign_txout(outpoint, input)
            == prev.output@[outpoint.vout as int],
{
}

impl Utxo {
    /// A local output always holds its output; a foreign one must resolve.
    pub open spec fn wf(&self) -> bool {
        match self {
            Utxo::Local(_) => true,
            Utxo::Foreign { outpoint, psbt_input } => foreign_input_resolves(*outpoint, **psbt_input),
        }
    }

    /// The location of the output.
    pub open spec fn outpoint_spec(&self) -> OutPoint {
        match self {
            Utxo::Local(local) => local.outpoint,
            Utxo::Foreign { outpoint, .. } => *outpoint,
        }
    }

    /// The output itself.
    pub open spec fn txout_spec(&self) -> TxOut
        recommends
            self.wf(),
    {
        match self {
            Utxo::Local(local) => local.txout,
            Utxo::Foreign { outpoint, psbt_input } => foreign_txout(*outpoint, **psbt_input),
        }
    }

    /// Get the location of the output.
    pub fn outpoint(&self) -> (r: OutPoint)
        ensures
            r == self.outpoint_spec(),
    {
        match self {
            Utxo::Local(local) => local.outpoint,
            Utxo::Foreign { outpoint, .. } => *outpoint,
        }
    }

    /// Get the output.
    pub fn txout(&self) -> (r: &TxOut)
        requires
            self.wf(),
        ensures
            *r == self.txout_spec(),
    {
        match self {
            Utxo::Local(local) => &local.txout,
            Utxo::Foreign { outpoint, psbt_input } => {
                match &psbt_input.non_witness_utxo {
                    Some(prev_tx) => &prev_tx.output[outpoint.vout as usize],
                    None => psbt_input.witness_utxo.as_ref().unwrap(),
                }
            },
        }
    }
}

} // verus!
