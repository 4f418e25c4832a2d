use interledger_stream::delivery::{Account, StreamDelivery};
use interledger_stream::error::Error;
use interledger_stream::payment::{PaymentEvent, StreamPayment};

const SECOND: u128 = 1_000_000_000;

fn account() -> Account {
    Account {
        ilp_address: "example.sender".to_string(),
        asset_scale: 9,
        asset_code: "XYZ".to_string(),
    }
}

fn payment(source_amount: u64) -> StreamPayment {
    StreamPayment {
        receipt: StreamDelivery::new(&account(), "example.receiver".to_string(), source_amount),
        should_send_source_account: true,
        sequence: 1,
        fulfilled_packets: 0,
        rejected_packets: 0,
        last_fulfill_time: 0,
        stopped: None,
        closed: false,
    }
}

#[test]
fn receipt_starts_empty() {
    let receipt = StreamDelivery::new(&account(), "example.receiver".to_string(), 50);
    assert_eq!(receipt.from, "example.sender");
    assert_eq!(receipt.to, "example.receiver");
    assert_eq!(receipt.source_asset_scale, 9);
    assert_eq!(receipt.source_asset_code, "XYZ");
    assert_eq!(receipt.source_amount, 50);
    assert_eq!(receipt.sent_amount, 0);
    assert_eq!(receipt.in_flight_amount, 0);
    assert_eq!(receipt.delivered_amount, 0);
    assert_eq!(receipt.destination_asset_scale, None);
    assert_eq!(receipt.destination_asset_code, None);
    assert_eq!(receipt.clone(), receipt);
}

#[test]
fn amounts_add_up_on_the_way() {
    let mut p = payment(100);
    assert_eq!(p.apply_prepare(30), 30);
    assert_eq!(p.apply_prepare(80), 70);
    assert_eq!(p.get_amount_available_to_send(), 0);
    assert_eq!(p.receipt.in_flight_amount, 100);
    assert_eq!(p.get_remaining_amount(), 100);
    p.apply_fulfill(30, 12, 5 * SECOND);
    assert_eq!(p.get_fulfilled_amount(), 30);
    assert_eq!(p.get_remaining_amount(), 70);
    assert_eq!(p.receipt.delivered_amount, 12);
    assert_eq!(p.last_fulfill_time, 5 * SECOND);
    assert_eq!(p.fulfilled_packets, 1);
    assert!(!p.is_complete());
    p.apply_reject(70);
    assert_eq!(p.rejected_packets, 1);
    assert_eq!(p.get_fulfilled_amount(), 30);
    assert_eq!(p.get_amount_available_to_send(), 70);
    assert_eq!(p.receipt.in_flight_amount, 0);
    assert_eq!(p.apply_prepare(u64::MAX), 70);
    p.apply_fulfill(70, 28, 6 * SECOND);
    assert!(p.is_complete());
    assert_eq!(p.receipt.delivered_amount, 40);
}

#[test]
fn reject_undoes_prepare() {
    let mut p = payment(100);
    p.apply_prepare(40);
    let before = p.receipt.clone();
    let amount = p.apply_prepare(25);
    p.apply_reject(amount);
    assert_eq!(p.receipt, before);
    assert_eq!(p.rejected_packets, 1);
}

#[test]
fn amounts_saturate() {
    let mut p = payment(10);
    p.apply_reject(5);
    assert_eq!(p.receipt.sent_amount, 0);
    p.apply_fulfill(5, u64::MAX, 0);
    p.apply_fulfill(5, 1, 0);
    assert_eq!(p.receipt.delivered_amount, u64::MAX);
    assert_eq!(p.receipt.in_flight_amount, 0);
}

#[test]
fn sequence_counts_up() {
    let mut p = payment(10);
    assert_eq!(p.next_sequence(), 1);
    assert_eq!(p.next_sequence(), 2);
    assert_eq!(p.sequence, 3);
}

#[test]
fn sends_what_is_admitted() {
    let mut p = payment(100);
    assert_eq!(p.next_event(0, 60), PaymentEvent::SendMoney(60));
    assert_eq!(p.next_event(0, 60), PaymentEvent::SendMoney(40));
    assert_eq!(p.next_event(0, 60), PaymentEvent::MaxInFlight);
    p.apply_reject(40);
    assert!(p.is_max_in_flight(0));
    assert!(!p.is_max_in_flight(1));
    assert_eq!(p.next_event(0, 0), PaymentEvent::MaxInFlight);
    assert_eq!(p.next_event(0, 1), PaymentEvent::SendMoney(1));
}

#[test]
fn closes_when_complete() {
    let mut p = payment(10);
    p.apply_prepare(10);
    assert_eq!(p.next_event(0, 10), PaymentEvent::MaxInFlight);
    p.apply_fulfill(10, 3, 0);
    assert_eq!(p.next_event(0, 10), PaymentEvent::CloseConnection);
    // The recipient has to be told before the receipt is given
    assert_eq!(p.conclude(PaymentEvent::CloseConnection), None);
    p.closed = true;
    let receipt = p.conclude(PaymentEvent::CloseConnection).unwrap().unwrap();
    assert_eq!(receipt, p.receipt);
    // Nothing to send at all
    assert_eq!(payment(0).next_event(0, 10), PaymentEvent::CloseConnection);
}

#[test]
fn times_out_after_thirty_seconds() {
    let mut p = payment(10);
    assert!(!p.is_timed_out(30 * SECOND - 1));
    assert!(p.is_timed_out(30 * SECOND));
    assert_eq!(p.next_event(30 * SECOND, 10), PaymentEvent::Timeout);
    p.apply_fulfill(1, 1, 7 * SECOND);
    assert!(!p.is_timed_out(30 * SECOND));
    assert!(!p.is_timed_out(37 * SECOND - 1));
    assert!(p.is_timed_out(37 * SECOND));
    // A time before the last fulfill counts as no time at all
    assert!(!p.is_timed_out(0));
    assert_eq!(
        p.conclude(PaymentEvent::Timeout),
        Some(Err(Error::TimeoutError(
            "Time since last fulfill exceeded the maximum time limit".to_string()
        )))
    );
}

#[test]
fn fails_fast_at_99_percent() {
    let mut p = payment(10);
    p.rejected_packets = 199;
    assert!(!p.is_failing());
    p.rejected_packets = 200;
    assert!(p.is_failing());
    // Below 99 percent
    p.fulfilled_packets = 3;
    p.rejected_packets = 296;
    assert!(!p.is_failing());
    // Exactly 99 percent
    p.rejected_packets = 297;
    assert!(p.is_failing());
    p.fulfilled_packets = 2;
    p.rejected_packets = 198;
    assert!(p.is_failing());
    p.rejected_packets = 199;
    assert!(p.is_failing());
    assert_eq!(p.next_event(0, 10), PaymentEvent::FailFast);
    assert_eq!(p.next_event(30 * SECOND, 10), PaymentEvent::Timeout);
    assert_eq!(
        p.conclude(PaymentEvent::FailFast),
        Some(Err(Error::SendMoneyError(
            "Terminating payment since too many packets are rejected (2 packets fulfilled, 199 packets rejected)".to_string()
        )))
    );
}

#[test]
fn failing_agrees_with_floating_point_rate() {
    for fulfilled in 0..12u64 {
        for rejected in 0..1500u64 {
            let mut p = payment(10);
            p.fulfilled_packets = fulfilled;
            p.rejected_packets = rejected;
            let packets = fulfilled + rejected;
            let expected = packets >= 200 && (rejected as f64 / packets as f64) >= 0.99;
            assert_eq!(p.is_failing(), expected);
        }
    }
}

#[test]
fn goes_on_otherwise() {
    let p = payment(10);
    assert_eq!(p.conclude(PaymentEvent::SendMoney(3)), None);
    assert_eq!(p.conclude(PaymentEvent::MaxInFlight), None);
}

#[test]
fn order_of_replies_does_not_matter() {
    let run = |reject_first: bool| {
        let mut p = payment(100);
        p.apply_prepare(40);
        p.apply_prepare(35);
        if reject_first {
            p.apply_reject(35);
            p.apply_fulfill(40, 9, 3 * SECOND);
        } else {
            p.apply_fulfill(40, 9, 3 * SECOND);
            p.apply_reject(35);
        }
        (p.receipt, p.fulfilled_packets, p.rejected_packets)
    };
    assert_eq!(run(true), run(false));
    assert_eq!(run(true).0.sent_amount, 40);
}
