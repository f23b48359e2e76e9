use vstd::prelude::*;

verus! {

/// A transaction output of the `bitcoin` crate (value and locking script),
/// carried through unread.
#[verifier::external_type_specification]
#[verifier::external_body]
pub struct ExTxOut(bitcoin::TxOut);

/// A full transaction of the `bitcoin` crate, carried through unread.
#[verifier::external_type_specification]
#[verifier::external_body]
pub struct ExTransaction(bitcoin::Transaction);

/// Relies on the `Clone` that `bitcoin` derives for `TxOut`: the copy holds the
/// same value and the same script.
pub assume_specification[ <bitcoin::TxOut as Clone>::clone ](t: &bitcoin::TxOut) -> (r:
    bitcoin::TxOut)
    ensures
        r == *t,
;

} // verus!
