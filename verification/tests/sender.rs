use interledger_stream::clock::PaymentClock;
use interledger_stream::delivery::Account;
use interledger_stream::error::Error;
use interledger_stream::packet::{
    Condition, ConnectionAssetDetailsFrame, ErrorClass, ErrorCode, Frame, IlpErrorCode,
    IlpPacketType, IlpReply, OutgoingPacket, Reject, StreamPacket,
};
use interledger_stream::payment::PaymentEvent;
use interledger_stream::rates::Prices;
use interledger_stream::rational::Rational;
use interledger_stream::reply::{check_reject, find_asset_details, CongestionUpdate};
use interledger_stream::sender::{check_wait, send_money, StreamSender, WaitOutcome};

fn zero() -> Option<Rational> {
    Rational::new(vec![0], vec![1])
}

fn whole(n: u8) -> Option<Rational> {
    Rational::new(vec![n], vec![1])
}

fn open(address: &str, destination: &str, source_amount: u64) -> StreamSender {
    let account = Account {
        ilp_address: address.to_string(),
        asset_scale: 9,
        asset_code: "XYZ".to_string(),
    };
    send_money(&account, destination.to_string(), source_amount, zero())
}

fn reject(code: &[u8; 3], message: &[u8]) -> IlpReply {
    IlpReply::Reject(Reject {
        code: IlpErrorCode { bytes: *code },
        code_text: String::from_utf8(code.to_vec()).unwrap(),
        message: message.to_vec(),
    })
}

fn stream_reply(sequence: u64, kind: IlpPacketType, amount: u64, frames: Vec<Frame>) -> StreamPacket {
    StreamPacket { ilp_packet_type: kind, prepare_amount: amount, sequence, frames }
}

fn details(code: &str, scale: u8) -> Frame {
    Frame::ConnectionAssetDetails(ConnectionAssetDetailsFrame {
        source_asset_code: code.to_string(),
        source_asset_scale: scale,
    })
}

fn sends_address(packet: &OutgoingPacket) -> bool {
    packet.packet.frames.iter().any(|frame| match frame {
        Frame::ConnectionNewAddress(frame) => frame.source_account == "example.sender",
        _ => false,
    })
}

/// A congestion controller that keeps its window and learns the maximum packet amount.
struct Window {
    size: u64,
    in_flight: u64,
    max_packet_amount: Option<u64>,
}

impl Window {
    fn new(sender: &StreamSender) -> Window {
        Window {
            size: sender.congestion_parameters().start_amount,
            in_flight: 0,
            max_packet_amount: None,
        }
    }

    fn max_amount(&self) -> u64 {
        let left = self.size - self.in_flight;
        match self.max_packet_amount {
            Some(max) => left.min(max),
            None => left,
        }
    }

    fn update(&mut self, update: CongestionUpdate) {
        match update {
            CongestionUpdate::Fulfill(amount) | CongestionUpdate::Reject(amount) => {
                self.in_flight -= amount
            }
        }
    }
}

#[test]
fn stops_at_final_errors() {
    let mut sender = open("example.destination", "example.destination", 100);
    let mut window = Window::new(&sender);
    let mut requests: Vec<OutgoingPacket> = Vec::new();
    let result = loop {
        match sender.next_event(window.max_amount()) {
            PaymentEvent::SendMoney(amount) => {
                window.in_flight += amount;
                let packet = sender.send_money_packet(amount, &None).unwrap();
                let reply = reject(b"F00", b"just some final error");
                let outcome = sender.handle_reply(&packet, reply, &None);
                requests.push(packet);
                window.update(outcome.congestion);
                if let Some(error) = check_wait(WaitOutcome::Completed(outcome.result)) {
                    break Err(error);
                }
            }
            event => match sender.payment.conclude(event) {
                Some(result) => break result,
                None => panic!("nothing to wait for"),
            },
        }
    };
    assert!(result.is_err());
    assert_eq!(requests.len(), 1);
    assert_eq!(requests[0].amount, 100);
    assert_eq!(
        result,
        Err(Error::SendMoneyError(
            "Packet was rejected with error: F00 just some final error".to_string()
        ))
    );
}

#[test]
fn sends_concurrent_packets() {
    let max_packet_amount: u64 = 10; // Requires at least 5 packets
    let mut sender = open("example.receiver", "example.receiver", 50);
    let mut window = Window::new(&sender);
    let mut in_flight: Vec<OutgoingPacket> = Vec::new();
    let result = loop {
        match sender.next_event(window.max_amount()) {
            PaymentEvent::SendMoney(amount) => {
                window.in_flight += amount;
                let packet = sender.send_money_packet(amount, &None).unwrap();
                if amount > max_packet_amount {
                    let reply = reject(b"F08", b"");
                    let outcome = sender.handle_reply(&packet, reply, &None);
                    window.update(outcome.congestion);
                    window.max_packet_amount = Some(max_packet_amount);
                    assert!(outcome.result.is_ok());
                } else {
                    in_flight.push(packet);
                }
            }
            PaymentEvent::MaxInFlight => {
                let reply = reject(b"F00", b"some final error");
                let outcome = sender.handle_reply(&in_flight[0], reply, &None);
                if let Some(error) = check_wait(WaitOutcome::Completed(outcome.result)) {
                    break Err(error);
                }
            }
            event => break sender.payment.conclude(event).unwrap(),
        }
    };
    assert!(result.is_err());
    assert_eq!(in_flight.len(), 5);
    let mut sequences: Vec<u64> = in_flight.iter().map(|p| p.packet.sequence).collect();
    sequences.dedup();
    assert_eq!(sequences.len(), 5);
}

#[test]
fn opens_payment() {
    let sender = open("example.sender", "example.receiver", 105);
    assert_eq!(sender.payment.receipt.source_amount, 105);
    assert_eq!(sender.payment.receipt.to, "example.receiver");
    assert!(sender.payment.should_send_source_account);
    assert_eq!(sender.payment.sequence, 1);
    assert_eq!(sender.payment.last_fulfill_time, 0);
    let parameters = sender.congestion_parameters();
    assert_eq!(parameters.start_amount, 105);
    assert_eq!(parameters.increase_amount, 10);
    assert_eq!(parameters.decrease_factor, 2);
}

#[test]
fn first_packet_cannot_be_fulfilled() {
    let mut sender = open("example.sender", "example.receiver", 100);
    assert_eq!(sender.payment.required_prices(), None);
    let packet = sender.send_money_packet(100, &None).unwrap();
    assert_eq!(packet.destination, "example.receiver");
    assert_eq!(packet.amount, 100);
    assert_eq!(packet.expires_in_secs, 30);
    assert_eq!(packet.condition, Condition::Random);
    assert_eq!(packet.packet.ilp_packet_type, IlpPacketType::Prepare);
    assert_eq!(packet.packet.prepare_amount, 0);
    assert_eq!(packet.packet.sequence, 1);
    assert_eq!(packet.packet.frames.len(), 2);
    match &packet.packet.frames[0] {
        Frame::StreamMoney(frame) => assert_eq!((frame.stream_id, frame.shares), (1, 1)),
        _ => panic!("first frame carries the share"),
    }
    assert!(sends_address(&packet));
    assert_eq!(sender.payment.sequence, 2);
}

#[test]
fn learns_asset_from_first_reply() {
    let mut sender = open("example.sender", "example.receiver", 100);
    assert_eq!(sender.next_event(100), PaymentEvent::SendMoney(100));
    let packet = sender.send_money_packet(100, &None).unwrap();
    let reply = stream_reply(
        1,
        IlpPacketType::Reject,
        0,
        vec![Frame::Other, details("AAA", 1), details("ABC", 2), Frame::Other],
    );
    let outcome = sender.handle_reply(&packet, reject(b"F99", b""), &Some(reply));
    assert_eq!(outcome.congestion, CongestionUpdate::Reject(100));
    assert_eq!(outcome.result, Ok(()));
    assert!(!sender.payment.should_send_source_account);
    // The last of the details counts
    assert_eq!(sender.payment.receipt.destination_asset_code, Some("ABC".to_string()));
    assert_eq!(sender.payment.receipt.destination_asset_scale, Some(2));
    assert_eq!(
        sender.payment.required_prices(),
        Some(("XYZ".to_string(), "ABC".to_string()))
    );

    // 1000 * 10^-9 * (6/2) in hundredths is rounded up
    let quoted = Some(Prices { source: whole(6), destination: whole(2) });
    let packet = sender.send_money_packet(1000, &quoted).unwrap();
    assert_eq!(packet.packet.prepare_amount, 1);
    assert_eq!(packet.condition, Condition::Generated);
    assert!(!sends_address(&packet));
    assert_eq!(packet.packet.sequence, 2);

    // Later details do not count
    let reply = stream_reply(2, IlpPacketType::Fulfill, 5, vec![details("QQQ", 7)]);
    sender.handle_reply(&packet, IlpReply::Fulfill, &Some(reply));
    assert_eq!(sender.payment.receipt.destination_asset_code, Some("ABC".to_string()));
    assert_eq!(sender.payment.receipt.destination_asset_scale, Some(2));
    assert_eq!(sender.payment.receipt.delivered_amount, 5);

    // Without prices there is no minimum
    let packet = sender.send_money_packet(1000, &None).unwrap();
    assert_eq!(packet.packet.prepare_amount, 0);
    assert_eq!(packet.condition, Condition::Random);
}

#[test]
fn same_asset_requires_no_prices() {
    let mut sender = open("example.sender", "example.receiver", 100);
    sender.payment.set_destination_asset_details("XYZ".to_string(), 9);
    assert_eq!(sender.payment.required_prices(), None);
    let packet = sender.send_money_packet(40, &None).unwrap();
    assert_eq!(packet.packet.prepare_amount, 40);
    assert_eq!(packet.condition, Condition::Generated);
}

#[test]
fn counts_at_least_the_minimum_as_delivered() {
    let mut sender = open("example.sender", "example.receiver", 100);
    sender.payment.set_destination_asset_details("XYZ".to_string(), 9);
    // The recipient claims less than the minimum
    assert_eq!(sender.next_event(40), PaymentEvent::SendMoney(40));
    let packet = sender.send_money_packet(40, &None).unwrap();
    let reply = stream_reply(1, IlpPacketType::Fulfill, 10, vec![]);
    let outcome = sender.handle_reply(&packet, IlpReply::Fulfill, &Some(reply));
    assert_eq!(outcome.congestion, CongestionUpdate::Fulfill(40));
    assert_eq!(outcome.result, Ok(()));
    assert_eq!(sender.payment.receipt.delivered_amount, 40);
    // The recipient claims nothing that can be read
    assert_eq!(sender.next_event(30), PaymentEvent::SendMoney(30));
    let packet = sender.send_money_packet(30, &None).unwrap();
    sender.handle_reply(&packet, IlpReply::Fulfill, &None);
    assert_eq!(sender.payment.receipt.delivered_amount, 70);
    // The recipient claims more
    assert_eq!(sender.next_event(100), PaymentEvent::SendMoney(30));
    let packet = sender.send_money_packet(30, &None).unwrap();
    let reply = stream_reply(3, IlpPacketType::Fulfill, 31, vec![]);
    sender.handle_reply(&packet, IlpReply::Fulfill, &Some(reply));
    assert_eq!(sender.payment.receipt.delivered_amount, 101);
    assert_eq!(sender.payment.fulfilled_packets, 3);
    assert_eq!(sender.next_event(100), PaymentEvent::CloseConnection);
}

#[test]
fn discards_replayed_and_lying_replies() {
    let mut sender = open("example.sender", "example.receiver", 100);
    let packet = sender.send_money_packet(10, &None).unwrap();
    let replayed = stream_reply(9, IlpPacketType::Fulfill, 50, vec![details("ABC", 2)]);
    sender.handle_reply(&packet, IlpReply::Fulfill, &Some(replayed));
    assert_eq!(sender.payment.receipt.delivered_amount, 0);
    assert!(sender.payment.should_send_source_account);
    assert_eq!(sender.payment.receipt.destination_asset_scale, None);

    let packet = sender.send_money_packet(10, &None).unwrap();
    let lying = stream_reply(2, IlpPacketType::Reject, 50, vec![details("ABC", 2)]);
    sender.handle_reply(&packet, IlpReply::Fulfill, &Some(lying));
    assert_eq!(sender.payment.receipt.delivered_amount, 0);
    assert!(sender.payment.should_send_source_account);

    // The recipient may have sent a Fulfill that a connector turned into a Reject
    let packet = sender.send_money_packet(10, &None).unwrap();
    let possible = stream_reply(3, IlpPacketType::Fulfill, 50, vec![details("ABC", 2)]);
    sender.handle_reply(&packet, reject(b"T00", b""), &Some(possible));
    assert!(!sender.payment.should_send_source_account);
    assert_eq!(sender.payment.receipt.destination_asset_scale, Some(2));
    assert_eq!(sender.payment.receipt.delivered_amount, 0);
}

#[test]
fn closes_connection() {
    let mut sender = open("example.sender", "example.receiver", 100);
    let packet = sender.try_send_connection_close();
    assert_eq!(packet.destination, "example.receiver");
    assert_eq!(packet.amount, 0);
    assert_eq!(packet.condition, Condition::Random);
    assert_eq!(packet.expires_in_secs, 30);
    assert_eq!(packet.packet.ilp_packet_type, IlpPacketType::Prepare);
    assert_eq!(packet.packet.prepare_amount, 0);
    assert_eq!(packet.packet.sequence, 1);
    assert_eq!(packet.packet.frames.len(), 1);
    match &packet.packet.frames[0] {
        Frame::ConnectionClose(frame) => {
            assert_eq!(frame.code, ErrorCode::NoError);
            assert_eq!(frame.message, "");
        }
        _ => panic!("the only frame closes the connection"),
    }
    assert_eq!(sender.payment.sequence, 2);
}

#[test]
fn tolerates_some_rejections() {
    let result = |code: &[u8; 3]| match reject(code, b"\xff") {
        IlpReply::Reject(reject) => check_reject(&reject),
        IlpReply::Fulfill => Ok(()),
    };
    assert_eq!(result(b"T00"), Ok(()));
    assert_eq!(result(b"T99"), Ok(()));
    assert_eq!(result(b"F08"), Ok(()));
    assert_eq!(result(b"F99"), Ok(()));
    let stopped = |code: &str| {
        Err(Error::SendMoneyError(format!(
            "Packet was rejected with error: {} ",
            code
        )))
    };
    assert_eq!(result(b"F00"), stopped("F00"));
    assert_eq!(result(b"F09"), stopped("F09"));
    assert_eq!(result(b"R08"), stopped("R08"));
    assert_eq!(result(b"R00"), stopped("R00"));
}

#[test]
fn classifies_errors() {
    let class = |code: &[u8; 3]| IlpErrorCode { bytes: *code }.class();
    assert_eq!(class(b"F00"), ErrorClass::Final);
    assert_eq!(class(b"T04"), ErrorClass::Temporary);
    assert_eq!(class(b"R02"), ErrorClass::Relative);
    assert_eq!(class(b"Q00"), ErrorClass::Unknown);
    assert!(IlpErrorCode { bytes: *b"F08" }.is_amount_too_large());
    assert!(!IlpErrorCode { bytes: *b"F00" }.is_amount_too_large());
    assert!(IlpErrorCode { bytes: *b"F99" }.is_application_error());
    assert!(!IlpErrorCode { bytes: *b"T99" }.is_application_error());
}

#[test]
fn waiting_stops_only_at_errors() {
    let error = || Error::SendMoneyError("stop".to_string());
    assert_eq!(check_wait(WaitOutcome::TimedOut), None);
    assert_eq!(check_wait(WaitOutcome::Aborted), None);
    assert_eq!(check_wait(WaitOutcome::Completed(Ok(()))), None);
    assert_eq!(check_wait(WaitOutcome::Completed(Err(error()))), Some(error()));
}

#[test]
fn finds_last_asset_details() {
    assert!(find_asset_details(&vec![]).is_none());
    assert!(find_asset_details(&vec![Frame::Other]).is_none());
    let frames = vec![details("AAA", 1), Frame::Other, details("BBB", 2)];
    let found = find_asset_details(&frames).unwrap();
    assert_eq!(found.source_asset_code, "BBB");
    assert_eq!(found.source_asset_scale, 2);
}

#[test]
fn clock_starts_at_zero_and_runs() {
    let clock = PaymentClock::start();
    let first = clock.now();
    assert!(first < 10_000_000_000);
    while clock.now() <= first {}
    assert!(clock.now() > first);
}

#[test]
fn receipt_agrees_with_packets_in_any_order() {
    let mut sender = open("example.sender", "example.receiver", 1000);
    let mut pending: Vec<OutgoingPacket> = Vec::new();
    let mut fulfilled: u64 = 0;
    let mut turn: u64 = 0;
    while fulfilled < 1000 {
        turn += 1;
        match sender.next_event(turn % 97) {
            PaymentEvent::SendMoney(amount) => {
                pending.push(sender.send_money_packet(amount, &None).unwrap());
            }
            PaymentEvent::MaxInFlight => {}
            event => panic!("unexpected {:?}", event),
        }
        if turn % 3 == 0 && !pending.is_empty() {
            let index = (turn as usize * 7) % pending.len();
            let packet = pending.remove(index);
            if turn % 2 == 0 {
                sender.handle_reply(&packet, IlpReply::Fulfill, &None);
                fulfilled += packet.amount;
            } else {
                sender.handle_reply(&packet, reject(b"T00", b""), &None);
            }
        }
        let in_flight: u64 = pending.iter().map(|p| p.amount).sum();
        assert_eq!(sender.payment.receipt.in_flight_amount, in_flight);
        assert_eq!(sender.payment.get_fulfilled_amount(), fulfilled);
        assert!(fulfilled + in_flight <= 1000);
    }
    assert_eq!(sender.next_event(1), PaymentEvent::CloseConnection);
}

#[test]
fn final_rejection_stops_the_rest() {
    let mut sender = open("example.sender", "example.receiver", 100);
    assert_eq!(sender.next_event(30), PaymentEvent::SendMoney(30));
    let first = sender.send_money_packet(30, &None).unwrap();
    assert_eq!(sender.next_event(30), PaymentEvent::SendMoney(30));
    let second = sender.send_money_packet(30, &None).unwrap();
    // Put in flight, but not made into a packet yet
    assert_eq!(sender.next_event(40), PaymentEvent::SendMoney(40));

    // A tolerated rejection does not stop the payment
    let outcome = sender.handle_reply(&first, reject(b"T00", b"wait"), &None);
    assert_eq!(outcome.result, Ok(()));
    assert!(sender.payment.stopped.is_none());
    assert_eq!(sender.next_event(10), PaymentEvent::SendMoney(10));

    let outcome = sender.handle_reply(&second, reject(b"F02", b"no route"), &None);
    let expected = || {
        Error::SendMoneyError("Packet was rejected with error: F02 no route".to_string())
    };
    assert_eq!(outcome.result, Err(expected()));
    assert_eq!(sender.next_event(50), PaymentEvent::Stopped);
    assert_eq!(sender.payment.conclude(PaymentEvent::Stopped), Some(Err(expected())));
    let sequence = sender.payment.sequence;
    assert!(sender.send_money_packet(40, &None).is_none());
    assert_eq!(sender.payment.sequence, sequence);

    // The first such rejection counts, and nothing that is fulfilled later makes up for it
    sender.handle_reply(&second, reject(b"F00", b"later"), &None);
    sender.payment.receipt.sent_amount = 100;
    sender.payment.receipt.in_flight_amount = 0;
    assert!(sender.payment.is_complete());
    assert_eq!(sender.next_event(50), PaymentEvent::Stopped);
    assert_eq!(sender.payment.conclude(PaymentEvent::Stopped), Some(Err(expected())));
}

#[test]
fn packets_of_a_run_are_numbered() {
    let mut sender = open("example.sender", "example.receiver", 25);
    let mut numbers: Vec<u64> = Vec::new();
    loop {
        match sender.next_event(10) {
            PaymentEvent::SendMoney(amount) => {
                let packet = sender.send_money_packet(amount, &None).unwrap();
                assert_eq!(packet.destination, "example.receiver");
                assert!(1 <= packet.amount && packet.amount <= 25);
                numbers.push(packet.packet.sequence);
                sender.handle_reply(&packet, IlpReply::Fulfill, &None);
            }
            event => {
                assert_eq!(event, PaymentEvent::CloseConnection);
                assert_eq!(sender.payment.conclude(event), None);
                let packet = sender.try_send_connection_close();
                let receipt = sender.payment.conclude(event).unwrap().unwrap();
                assert_eq!(receipt.from, "example.sender");
                assert_eq!(receipt.to, "example.receiver");
                assert_eq!(receipt.source_asset_code, "XYZ");
                assert_eq!(receipt.source_asset_scale, 9);
                assert_eq!((receipt.source_amount, receipt.sent_amount), (25, 25));
                assert_eq!(receipt.in_flight_amount, 0);
                assert_eq!(packet.destination, "example.receiver");
                assert_eq!(packet.amount, 0);
                numbers.push(packet.packet.sequence);
                break;
            }
        }
    }
    assert_eq!(numbers, vec![1, 2, 3, 4]);
}

#[test]
fn empty_payment_is_closed_before_its_receipt() {
    let mut sender = open("example.sender", "example.receiver", 0);
    let event = sender.next_event(0);
    assert_eq!(event, PaymentEvent::CloseConnection);
    assert_eq!(sender.payment.conclude(event), None);
    assert_eq!(sender.try_send_connection_close().packet.sequence, 1);
    assert_eq!(sender.payment.conclude(event).unwrap().unwrap().delivered_amount, 0);
}
