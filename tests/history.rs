use bdk_types::{ConfirmationTime, TransactionDetails, Txid};
use core::cmp::Ordering;

fn txid(first: u8, last: u8) -> Txid {
    let mut bytes = [0u8; 32];
    bytes[0] = first;
    bytes[31] = last;
    Txid { bytes }
}

fn details(id: Txid, confirmation_time: ConfirmationTime) -> TransactionDetails {
    TransactionDetails {
        transaction: None,
        txid: id,
        received: 0,
        sent: 0,
        fee: None,
        confirmation_time,
    }
}

#[test]
fn txid_compares_bytes_in_order() {
    assert_eq!(txid(1, 9).compare(&txid(2, 0)), Ordering::Less);
    assert_eq!(txid(2, 0).compare(&txid(1, 9)), Ordering::Greater);
    assert_eq!(txid(1, 1).compare(&txid(1, 2)), Ordering::Less);
    assert_eq!(txid(7, 7).compare(&txid(7, 7)), Ordering::Equal);
}

#[test]
fn confirmation_time_order() {
    let low = ConfirmationTime::Confirmed { height: 100, time: 50 };
    let later = ConfirmationTime::Confirmed { height: 100, time: 60 };
    let high = ConfirmationTime::Confirmed { height: 101, time: 0 };
    assert_eq!(low.compare(&later), Ordering::Less);
    assert_eq!(high.compare(&later), Ordering::Greater);
    assert_eq!(high.compare(&ConfirmationTime::Unconfirmed), Ordering::Less);
    assert_eq!(ConfirmationTime::Unconfirmed.compare(&low), Ordering::Greater);
    assert_eq!(ConfirmationTime::Unconfirmed.compare(&ConfirmationTime::Unconfirmed), Ordering::Equal);
    assert_eq!(low.compare(&later), low.cmp(&later));
    assert_eq!(high.compare(&ConfirmationTime::Unconfirmed), high.cmp(&ConfirmationTime::Unconfirmed));
}

#[test]
fn history_sorts_by_position_then_txid() {
    let t1 = details(txid(0, 5), ConfirmationTime::Unconfirmed);
    let t2 = details(txid(9, 0), ConfirmationTime::Confirmed { height: 100, time: 7 });
    let t3 = details(txid(3, 0), ConfirmationTime::Confirmed { height: 100, time: 7 });
    let mut history = vec![t1.clone(), t2.clone(), t3.clone()];
    history.sort_by(|a, b| a.cmp(b));
    assert_eq!(history, vec![t3.clone(), t2.clone(), t1.clone()]);
    assert_eq!(t3.partial_cmp(&t2), Some(Ordering::Less));
    assert!(t3 < t2);
    assert!(t2 < t1);
    assert!(t3 < t1);
}

#[test]
fn history_order_ignores_amounts() {
    let mut a = details(txid(4, 4), ConfirmationTime::Unconfirmed);
    let b = details(txid(4, 4), ConfirmationTime::Unconfirmed);
    a.received = 10;
    a.fee = Some(0);
    assert_eq!(a.cmp(&b), Ordering::Equal);
    assert_eq!(b.cmp(&a), Ordering::Equal);
}

#[test]
fn history_order_is_antisymmetric() {
    let a = details(txid(1, 0), ConfirmationTime::Confirmed { height: 5, time: 1 });
    let b = details(txid(0, 0), ConfirmationTime::Confirmed { height: 6, time: 0 });
    assert_eq!(a.cmp(&b), Ordering::Less);
    assert_eq!(b.cmp(&a), Ordering::Greater);
}
