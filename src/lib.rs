//! Value types shared by a Bitcoin wallet: keychain discriminators, the
//! weight-to-vbyte sizing rule and fee-rate validity, unspent outputs and
//! transaction history records with their total order.

mod bitcoin_specs;
mod details;
mod fee;
mod keychain;
mod primitives;
mod utxo;

pub use details::{
    details_cmp, lemma_details_cmp_antisymmetric, lemma_details_cmp_equal,
    lemma_details_cmp_transitive, reversed, TransactionDetails,
};
pub use fee::{
    ceil_vbytes, f32_exponent, f32_sign, fee_rate_bits_valid, is_valid_fee_rate_bits,
    lemma_ceil_vbytes_bounds, lemma_fee_rate_validity, Vbytes, WITNESS_SCALE_FACTOR,
};
pub use keychain::{keychain_byte, KeychainKind};
pub use primitives::{
    bytes_cmp_from, confirmation_cmp, int_cmp, txid_cmp, ConfirmationTime, OutPoint, Txid, TXID_LEN,
};
pub use utxo::{
    foreign_input_resolves, foreign_txout, lemma_foreign_txout_resolution, ForeignInput, LocalUtxo,
    PrevTx, Utxo, WeightedUtxo,
};
