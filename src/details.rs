use vstd::prelude::*;
use bitcoin::Transaction;
use core::cmp::Ordering;
use crate::primitives::{bytes_cmp_from, confirmation_cmp, int_cmp, txid_cmp, ConfirmationTime, Txid};

verus! {

/// A wallet transaction.
#[derive(Debug, Clone, PartialEq, Eq)]
pub struct TransactionDetails {
    /// The transaction, where it is known.
    pub transaction: Option<Transaction>,
    /// Transaction id.
    pub txid: Txid,
    /// Received value in satoshis: the sum of the owned outputs of this transaction.
    pub received: u64,
    /// Sent value in satoshis: the sum of the owned inputs of this transaction.
    pub sent: u64,
    /// Fee in satoshis, where it is known.
    pub fee: Option<u64>,
    /// Height and timestamp of the confirming block, or unconfirmed.
    pub confirmation_time: ConfirmationTime,
}

/// History order: by chain position, then by transaction id.
pub open spec fn details_cmp(a: TransactionDetails, b: TransactionDetails) -> Ordering {
    let by_position = confirmation_cmp(a.confirmation_time, b.confirmation_time);
    if by_position != Ordering::Equal {
        by_position
    } else {
        txid_cmp(a.txid, b.txid)
    }
}

/// The opposite of an ordering.
pub open spec fn reversed(o: Ordering) -> Ordering {
    match o {
        Ordering::Less => Ordering::Greater,
        Ordering::Equal => Ordering::Equal,
        Ordering::Greater => Ordering::Less,
    }
}

impl TransactionDetails {
    /// Compare two records in history order.
    pub fn cmp(&self, other: &Self) -> (r: Ordering)
        ensures
            r == details_cmp(*self, *other),
    {
        let by_position = self.confirmation_time.compare(&other.confirmation_time);
        match by_position {
            Ordering::Equal => self.txid.compare(&other.txid),
            _ => by_position,
        }
    }
}

impl PartialOrd for TransactionDetails {
    fn partial_cmp(&self, other: &Self) -> (r: Option<Ordering>) {
        Some(self.cmp(other))
    }
}

impl vstd::std_specs::cmp::PartialOrdSpecImpl for TransactionDetails {
    open spec fn obeys_partial_cmp_spec() -> bool {
        true
    }

    open spec fn partial_cmp_spec(&self, other: &Self) -> Option<Ordering> {
        Some(details_cmp(*self, *other))
    }
}

proof fn lemma_bytes_cmp_reversed(a: Seq<u8>, b: Seq<u8>, i: int)
    ensures
        bytes_cmp_from(b, a, i) == reversed(bytes_cmp_from(a, b, i)),
    decreases a.len() - i,
{
    if 0 <= i < a.len() && i < b.len() && a[i] == b[i] {
        lemma_bytes_cmp_reversed(a, b, i + 1);
    }
}

proof fn lemma_bytes_cmp_transitive(a: Seq<u8>, b: Seq<u8>, c: Seq<u8>, i: int, o: Ordering)
    requires
        a.len() == b.len() == c.len(),
        o != Ordering::Equal,
        bytes_cmp_from(a, b, i) == o,
        bytes_cmp_from(b, c, i) == o,
    ensures
        bytes_cmp_from(a, c, i) == o,
    decreases a.len() - i,
{
    if a[i] == b[i] && b[i] == c[i] {
        lemma_bytes_cmp_transitive(a, b, c, i + 1, o);
    }
}

proof fn lemma_bytes_cmp_equal(a: Seq<u8>, b: Seq<u8>, i: int)
    requires
        a.len() == b.len(),
        0 <= i <= a.len(),
        bytes_cmp_from(a, b, i) == Ordering::Equal,
    ensures
        a.subrange(i, a.len() as int) == b.subrange(i, b.len() as int),
    decreases a.len() - i,
{
    if i < a.len() {
        lemma_bytes_cmp_equal(a, b, i + 1);
        assert(a.subrange(i, a.len() as int) =~= seq![a[i]] + a.subrange(i + 1, a.len() as int));
        assert(b.subrange(i, b.len() as int) =~= seq![b[i]] + b.subrange(i + 1, b.len() as int));
    } else {
        assert(a.subrange(i, a.len() as int) =~= b.subrange(i, b.len() as int));
    }
}

/// Swapping the two records reverses the history order.
pub proof fn lemma_details_cmp_antisymmetric(a: TransactionDetails, b: TransactionDetails)
    ensures
        details_cmp(b, a) == reversed(details_cmp(a, b)),
{
    lemma_bytes_cmp_reversed(a.txid.bytes@, b.txid.bytes@, 0);
}

/// The history order is transitive: from `a` before `b` and `b` before `c`
/// follows `a` before `c`, and likewise for after.
pub proof fn lemma_details_cmp_transitive(
    a: TransactionDetails,
    b: TransactionDetails,
    c: TransactionDetails,
    o: Ordering,
)
    requires
        o != Ordering::Equal,
        details_cmp(a, b) == o,
        details_cmp(b, c) == o,
    ensures
        details_cmp(a, c) == o,
{
    let (x, y, z) = (a.confirmation_time, b.confirmation_time, c.confirmation_time);
    if confirmation_cmp(x, y) == Ordering::Equal && confirmation_cmp(y, z) == Ordering::Equal {
        lemma_bytes_cmp_transitive(a.txid.bytes@, b.txid.bytes@, c.txid.bytes@, 0, o);
    }
}

/// Two records are equal in history order exactly when they have the same
/// chain position and the same transaction id.
pub proof fn lemma_details_cmp_equal(a: TransactionDetails, b: TransactionDetails)
    ensures
        details_cmp(a, b) == Ordering::Equal <==> (a.confirmation_time == b.confirmation_time
            && a.txid == b.txid),
{
    if details_cmp(a, b) == Ordering::Equal {
        lemma_bytes_cmp_equal(a.txid.bytes@, b.txid.bytes@, 0);
        assert(a.txid.bytes@ =~= a.txid.bytes@.subrange(0, 32));
        assert(b.txid.bytes@ =~= b.txid.bytes@.subrange(0, 32));
        assert(a.txid.bytes == b.txid.bytes);
    }
    if a.txid == b.txid {
        lemma_bytes_cmp_self(a.txid.bytes@, 0);
    }
}

proof fn lemma_bytes_cmp_self(a: Seq<u8>, i: int)
    ensures
        bytes_cmp_from(a, a, i) == Ordering::Equal,
    decreases a.len() - i,
{
    if 0 <= i < a.len() {
        lemma_bytes_cmp_self(a, i + 1);
    }
}

} // verus!
