use vstd::prelude::*;
use core::cmp::Ordering;

verus! {

/// Length of a transaction id in bytes.
pub const TXID_LEN: usize = 32;

/// A transaction id, held as its 32 hash bytes in internal byte order.
#[derive(Debug, Clone, Copy, PartialEq, Eq, Hash, PartialOrd, Ord)]
pub struct Txid {
    pub bytes: [u8; 32],
}

/// A reference to one output of a transaction.
#[derive(Debug, Clone, Copy, PartialEq, Eq, Hash)]
pub struct OutPoint {
    /// The id of the transaction holding the output.
    pub txid: Txid,
    /// The index of the output in that transaction's outputs.
    pub vout: u32,
}

/// Where a transaction stands in the chain.
#[derive(Debug, Clone, Copy, PartialEq, Eq, Structural, Hash, PartialOrd, Ord)]
pub enum ConfirmationTime {
    /// Confirmed in the block at `height`, with block timestamp `time`.
    Confirmed { height: u32, time: u64 },
    /// Not yet confirmed.
    Unconfirmed,
}

/// Order two integers.
pub open spec fn int_cmp(a: int, b: int) -> Ordering {
    if a < b {
        Ordering::Less
    } else if a > b {
        Ordering::Greater
    } else {
        Ordering::Equal
    }
}

/// Lexicographic order of two byte strings from position `i` on, up to the
/// end of the shorter one.
pub open spec fn bytes_cmp_from(a: Seq<u8>, b: Seq<u8>, i: int) -> Ordering
    decreases a.len() - i,
{
    if i < 0 || i >= a.len() || i >= b.len() {
        Ordering::Equal
    } else if a[i] != b[i] {
        int_cmp(a[i] as int, b[i] as int)
    } else {
        bytes_cmp_from(a, b, i + 1)
    }
}

/// Order of transaction ids: lexicographic over their bytes.
pub open spec fn txid_cmp(a: Txid, b: Txid) -> Ordering {
    bytes_cmp_from(a.bytes@, b.bytes@, 0)
}

/// Order of chain positions: confirmed before unconfirmed, confirmed ones by
/// height and then by timestamp.
pub open spec fn confirmation_cmp(a: ConfirmationTime, b: ConfirmationTime) -> Ordering {
    match (a, b) {
        (
            ConfirmationTime::Confirmed { height: ha, time: ta },
            ConfirmationTime::Confirmed { height: hb, time: tb },
        ) => if ha != hb {
            int_cmp(ha as int, hb as int)
        } else {
            int_cmp(ta as int, tb as int)
        },
        (ConfirmationTime::Confirmed { .. }, ConfirmationTime::Unconfirmed) => Ordering::Less,
        (ConfirmationTime::Unconfirmed, ConfirmationTime::Confirmed { .. }) => Ordering::Greater,
        (ConfirmationTime::Unconfirmed, ConfirmationTime::Unconfirmed) => Ordering::Equal,
    }
}

fn u64_cmp(a: u64, b: u64) -> (r: Ordering)
    ensures
        r == int_cmp(a as int, b as int),
{
    if a < b {
        Ordering::Less
    } else if a > b {
        Ordering::Greater
    } else {
        Ordering::Equal
    }
}

impl Txid {
    /// Compare two transaction ids byte by byte.
    pub fn compare(&self, other: &Txid) -> (r: Ordering)
        ensures
            r == txid_cmp(*self, *other),
    {
        let mut i: usize = 0;
        while i < TXID_LEN
            invariant
                i <= TXID_LEN,
                self.bytes@.len() == TXID_LEN,
                other.bytes@.len() == TXID_LEN,
                txid_cmp(*self, *other) == bytes_cmp_from(self.bytes@, other.bytes@, i as int),
            decreases TXID_LEN - i,
        {
            let x: u8 = self.bytes[i];
            let y: u8 = other.bytes[i];
            if x != y {
                return u64_cmp(x as u64, y as u64);
            }
            i = i + 1;
        }
        Ordering::Equal
    }
}

impl ConfirmationTime {
    /// Compare two chain positions.
    pub fn compare(&self, other: &ConfirmationTime) -> (r: Ordering)
        ensures
            r == confirmation_cmp(*self, *other),
    {
        match (self, other) {
            (
                ConfirmationTime::Confirmed { height: ha, time: ta },
                ConfirmationTime::Confirmed { height: hb, time: tb },
            ) => if *ha != *hb {
                u64_cmp(*ha as u64, *hb as u64)
            } else {
                u64_cmp(*ta, *tb)
            },
            (ConfirmationTime::Confirmed { .. }, ConfirmationTime::Unconfirmed) => Ordering::Less,
            (ConfirmationTime::Unconfirmed, ConfirmationTime::Confirmed { .. }) => Ordering::Greater,
            (ConfirmationTime::Unconfirmed, ConfirmationTime::Unconfirmed) => Ordering::Equal,
        }
    }
}

} // verus!
