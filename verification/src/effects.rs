//! What each operation on a payment comes to, field by field and in plain numbers.
use crate::clock::PaymentClock;
use crate::delivery::{Account, StreamDelivery};
use crate::error::Error;
use crate::packet::{
    Condition, ConnectionAssetDetailsFrame, ErrorCode, Frame, IlpPacketType, IlpReply,
    OutgoingPacket, Reject, StreamPacket,
};
use crate::payment::{PaymentEvent, StreamPayment};
use crate::rates::Prices;
use crate::rational::Rational;
use crate::reply::CongestionUpdate;
use crate::sender::{CongestionParameters, StreamSender, WaitOutcome};
use vstd::prelude::*;

verus! {

/// A new payment knows the two accounts, the source asset and the amount, and nothing else: nothing
/// is sent, in flight or delivered, no packet is counted, the first sequence number is one, and the
/// recipient has to be told the sender's address.
pub proof fn law_opening(account: Account, destination: String, source_amount: u64)
    ensures
        ({
            let p = crate::sender::opened_payment(account, destination, source_amount);
            let d = StreamDelivery::opened(account, destination, source_amount);
            &&& p.receipt == d
            &&& d.from == account.ilp_address && d.to == destination
            &&& d.source_asset_scale == account.asset_scale
            &&& d.source_asset_code == account.asset_code
            &&& d.source_amount == source_amount
            &&& d.sent_amount == 0 && d.in_flight_amount == 0 && d.delivered_amount == 0
            &&& d.destination_asset_scale is None && d.destination_asset_code is None
            &&& p.should_send_source_account
            &&& p.sequence == 1
            &&& p.fulfilled_packets == 0 && p.rejected_packets == 0
            &&& p.last_fulfill_time == 0
            &&& p.stopped is None
            &&& !p.closed
        }),
{
}

/// The amounts fulfilled, remaining and available are differences of the amounts of the receipt, and
/// zero where those are negative.
pub proof fn law_amounts_are_differences(p: StreamPayment)
    ensures
        ({
            let sent = p.receipt.sent_amount as int;
            let in_flight = p.receipt.in_flight_amount as int;
            let source = p.receipt.source_amount as int;
            &&& in_flight <= sent ==> p.fulfilled_amount() == sent - in_flight
            &&& in_flight > sent ==> p.fulfilled_amount() == 0
            &&& p.fulfilled_amount() <= source ==> p.remaining_amount() + p.fulfilled_amount()
                == source
            &&& p.fulfilled_amount() > source ==> p.remaining_amount() == 0
            &&& sent <= source ==> p.available_amount() + sent == source
            &&& sent > source ==> p.available_amount() == 0
            &&& p.accounted() <==> in_flight <= sent && sent <= source
            &&& p.answered_packets() == p.fulfilled_packets + p.rejected_packets
        }),
{
}

/// The next packet takes the most that is both available and admitted.
pub proof fn law_next_amount_is_the_most(p: StreamPayment, max_amount: u64)
    ensures
        p.next_amount(max_amount) <= max_amount,
        p.next_amount(max_amount) <= p.available_amount(),
        p.next_amount(max_amount) == max_amount || p.next_amount(max_amount)
            == p.available_amount(),
        p.max_in_flight(max_amount) <==> p.next_amount(max_amount) == 0,
{
}

/// Preparing a packet adds its amount to what is sent and in flight, as far as a `u64` goes, and
/// changes nothing else.
pub proof fn law_prepare_effect(p: StreamPayment, amount: u64)
    ensures
        ({
            let q = p.after_prepare(amount);
            &&& p.receipt.sent_amount + amount <= u64::MAX ==> q.receipt.sent_amount
                == p.receipt.sent_amount + amount
            &&& p.receipt.sent_amount + amount > u64::MAX ==> q.receipt.sent_amount == u64::MAX
            &&& p.receipt.in_flight_amount + amount <= u64::MAX ==> q.receipt.in_flight_amount
                == p.receipt.in_flight_amount + amount
            &&& p.receipt.in_flight_amount + amount > u64::MAX ==> q.receipt.in_flight_amount
                == u64::MAX
            &&& q == (StreamPayment {
                receipt: StreamDelivery {
                    sent_amount: q.receipt.sent_amount,
                    in_flight_amount: q.receipt.in_flight_amount,
                    ..p.receipt
                },
                ..p
            })
        }),
{
}

/// A fulfilled packet leaves what is in flight, adds what it delivered, as far as a `u64` goes, is
/// counted, restarts the time limit, and changes nothing else.
pub proof fn law_fulfill_effect(
    p: StreamPayment,
    source_amount: u64,
    destination_amount: u64,
    now: u128,
)
    requires
        p.fulfilled_packets < u64::MAX,
    ensures
        ({
            let q = p.after_fulfill(source_amount, destination_amount, now);
            &&& source_amount <= p.receipt.in_flight_amount ==> q.receipt.in_flight_amount
                == p.receipt.in_flight_amount - source_amount
            &&& source_amount > p.receipt.in_flight_amount ==> q.receipt.in_flight_amount == 0
            &&& p.receipt.delivered_amount + destination_amount <= u64::MAX
                ==> q.receipt.delivered_amount == p.receipt.delivered_amount + destination_amount
            &&& p.receipt.delivered_amount + destination_amount > u64::MAX
                ==> q.receipt.delivered_amount == u64::MAX
            &&& q.fulfilled_packets == p.fulfilled_packets + 1
            &&& q.last_fulfill_time == now
            &&& q == (StreamPayment {
                receipt: StreamDelivery {
                    in_flight_amount: q.receipt.in_flight_amount,
                    delivered_amount: q.receipt.delivered_amount,
                    ..p.receipt
                },
                fulfilled_packets: q.fulfilled_packets,
                last_fulfill_time: q.last_fulfill_time,
                ..p
            })
        }),
{
}

/// A rejected packet leaves what is sent and what is in flight, is counted, and changes nothing else.
pub proof fn law_reject_effect(p: StreamPayment, amount: u64)
    requires
        p.rejected_packets < u64::MAX,
    ensures
        ({
            let q = p.after_reject(amount);
            &&& amount <= p.receipt.sent_amount ==> q.receipt.sent_amount == p.receipt.sent_amount
                - amount
            &&& amount > p.receipt.sent_amount ==> q.receipt.sent_amount == 0
            &&& amount <= p.receipt.in_flight_amount ==> q.receipt.in_flight_amount
                == p.receipt.in_flight_amount - amount
            &&& amount > p.receipt.in_flight_amount ==> q.receipt.in_flight_amount == 0
            &&& q.rejected_packets == p.rejected_packets + 1
            &&& q == (StreamPayment {
                receipt: StreamDelivery {
                    sent_amount: q.receipt.sent_amount,
                    in_flight_amount: q.receipt.in_flight_amount,
                    ..p.receipt
                },
                rejected_packets: q.rejected_packets,
                ..p
            })
        }),
{
}

/// Taking a sequence number, closing the connection, and learning the recipient's asset each change
/// just that.
pub proof fn law_small_effects(p: StreamPayment, code: String, scale: u8)
    requires
        p.sequence < u64::MAX,
    ensures
        p.after_sequence() == (StreamPayment { sequence: (p.sequence + 1) as u64, ..p }),
        p.after_close() == (StreamPayment {
            sequence: (p.sequence + 1) as u64,
            closed: true,
            ..p
        }),
        p.with_destination_asset(code, scale).receipt.destination_asset_code == Some(code),
        p.with_destination_asset(code, scale).receipt.destination_asset_scale == Some(scale),
        p.with_destination_asset(code, scale) == (StreamPayment {
            receipt: StreamDelivery {
                destination_asset_code: Some(code),
                destination_asset_scale: Some(scale),
                ..p.receipt
            },
            ..p
        }),
{
}

/// Which decision is taken, by the numbers of the payment, in the order of precedence: 30 seconds
/// without a fulfilled packet, at least 200 answers of which at least 99 in a hundred are
/// rejections, a rejection that stops the payment, nothing left to fulfill, nothing that may be
/// sent, and otherwise to send the most that may be sent.
pub proof fn law_decision(p: StreamPayment, now: u128, max_amount: u64)
    ensures
        ({
            let event = p.event(now, max_amount);
            let late = now - p.last_fulfill_time >= 30_000_000_000;
            let answers = p.fulfilled_packets + p.rejected_packets;
            let failing = answers >= 200 && 100 * p.rejected_packets >= 99 * answers;
            let stopped = p.stopped is Some;
            let sent = p.receipt.sent_amount as int;
            let source = p.receipt.source_amount as int;
            let complete = source == 0 || sent - p.receipt.in_flight_amount >= source;
            let full = max_amount == 0 || sent >= source;
            &&& event is Timeout <==> late
            &&& event is FailFast <==> !late && failing
            &&& event is Stopped <==> !late && !failing && stopped
            &&& event is CloseConnection <==> !late && !failing && !stopped && complete
            &&& event is MaxInFlight <==> !late && !failing && !stopped && !complete && full
            &&& event is SendMoney <==> !late && !failing && !stopped && !complete && !full
            &&& event matches PaymentEvent::SendMoney(amount) ==> {
                &&& amount <= max_amount && amount <= source - sent
                &&& amount == max_amount || amount == source - sent
            }
            &&& p.failing() <==> failing
            &&& p.timed_out(now) <==> late
        }),
{
}

/// Only the decision to send changes the payment: it prepares a packet with that amount.
pub proof fn law_decision_effect(p: StreamPayment, amount: u64)
    ensures
        p.after_event(PaymentEvent::SendMoney(amount)) == p.after_prepare(amount),
        p.after_event(PaymentEvent::MaxInFlight) == p,
        p.after_event(PaymentEvent::CloseConnection) == p,
        p.after_event(PaymentEvent::Timeout) == p,
        p.after_event(PaymentEvent::FailFast) == p,
        p.after_event(PaymentEvent::Stopped) == p,
{
}

/// The decision is taken by what the sender's own clock returns: if that is 30 seconds or more since
/// the last fulfilled packet, the payment times out, and if it is less, it does not.
pub proof fn law_decision_goes_by_the_clock(
    sender: StreamSender,
    now: u128,
    max_amount: u64,
    event: PaymentEvent,
)
    requires
        call_ensures(PaymentClock::now, (&sender.clock,), now),
        event == sender.payment.event(now, max_amount),
    ensures
        sender.clock.reads(now),
        event is Timeout <==> now - sender.payment.last_fulfill_time >= 30_000_000_000,
{
}

/// A packet that carries money can be fulfilled exactly if it demands an amount. It demands the
/// minimum, if there is one, carries the given amount to the receiver under the next sequence
/// number, and expires after 30 seconds.
pub proof fn law_money_packet(
    p: StreamPayment,
    source_amount: u64,
    prices: Option<Prices>,
    slippage: Option<Rational>,
    outgoing: OutgoingPacket,
)
    requires
        p.money_packet(source_amount, prices, slippage, outgoing),
    ensures
        outgoing.condition == Condition::Generated <==> outgoing.packet.prepare_amount > 0,
        outgoing.condition == Condition::Random <==> outgoing.packet.prepare_amount == 0,
        outgoing.destination == p.receipt.to,
        outgoing.amount == source_amount,
        outgoing.expires_in_secs == 30,
        outgoing.packet.ilp_packet_type == IlpPacketType::Prepare,
        outgoing.packet.sequence == p.sequence,
        ({
            let minimum = crate::rates::min_destination_amount(
                prices,
                source_amount,
                p.receipt.source_asset_scale,
                p.receipt.source_asset_code@,
                p.receipt.destination_asset_scale,
                if p.receipt.destination_asset_code is Some {
                    Some(p.receipt.destination_asset_code->0@)
                } else {
                    None
                },
                if slippage is Some {
                    Some(slippage->0@)
                } else {
                    None
                },
            );
            &&& minimum matches Some(n) ==> outgoing.packet.prepare_amount == n
            &&& minimum is None ==> outgoing.packet.prepare_amount == 0
        }),
{
}

/// The frames of a packet that carries money: one share of the only stream, and after it the
/// sender's address exactly as long as that has to be told.
pub proof fn law_money_frames(
    p: StreamPayment,
    source_amount: u64,
    prices: Option<Prices>,
    slippage: Option<Rational>,
    outgoing: OutgoingPacket,
)
    requires
        p.money_packet(source_amount, prices, slippage, outgoing),
    ensures
        ({
            let frames = outgoing.packet.frames@;
            &&& frames.len() == if p.should_send_source_account {
                2int
            } else {
                1
            }
            &&& frames[0] matches Frame::StreamMoney(money)
            &&& money.stream_id == 1
            &&& money.shares == 1
            &&& p.should_send_source_account ==> (frames[1] matches Frame::ConnectionNewAddress(
                address,
            ) && address.source_account == p.receipt.from)
        }),
{
}

/// A condition can be fulfilled exactly if an amount is demanded.
pub proof fn law_condition(minimum: u64)
    ensures
        crate::sender::condition_for(minimum) == Condition::Generated <==> minimum > 0,
{
}

/// The packet that closes the connection carries nothing, demands nothing, cannot be fulfilled, and
/// says that there is no error.
pub proof fn law_close_packet(p: StreamPayment, outgoing: OutgoingPacket)
    requires
        p.close_packet(outgoing),
    ensures
        outgoing.destination == p.receipt.to,
        outgoing.amount == 0,
        outgoing.condition == Condition::Random,
        outgoing.expires_in_secs == 30,
        outgoing.packet.ilp_packet_type == IlpPacketType::Prepare,
        outgoing.packet.prepare_amount == 0,
        outgoing.packet.sequence == p.sequence,
        outgoing.packet.frames@.len() == 1,
        outgoing.packet.frames@[0] matches Frame::ConnectionClose(close) && close.code
            == ErrorCode::NoError && close.message@.len() == 0,
{
}

/// Prices are asked for exactly if the destination asset and its scale are known and the asset is
/// not the source asset; they are those of the source and the destination asset, in this order.
pub proof fn law_priced_codes(p: StreamPayment)
    ensures
        p.priced_codes() is Some <==> p.receipt.destination_asset_code is Some
            && p.receipt.destination_asset_scale is Some && p.receipt.destination_asset_code->0@
            != p.receipt.source_asset_code@,
        p.priced_codes() matches Some(codes) ==> codes.0 == p.receipt.source_asset_code@ && codes.1
            == p.receipt.destination_asset_code->0@,
{
}

/// A fulfilled packet raises the amount delivered by the larger of what it demanded and what the
/// STREAM reply says, if there is one that has the sequence number of the request and is not marked
/// as a Reject, and otherwise by just what it demanded, as far as a `u64` goes. It leaves what is in
/// flight, and changes nothing of what is sent.
pub proof fn law_fulfilled_packet_delivers(
    p: StreamPayment,
    sent: OutgoingPacket,
    stream_reply: Option<StreamPacket>,
    now: u128,
)
    requires
        p.fulfilled_packets < u64::MAX,
    ensures
        ({
            let q = p.after_reply(sent, IlpReply::Fulfill, stream_reply, now);
            let demanded = sent.packet.prepare_amount as int;
            let said = stream_reply->0.prepare_amount as int;
            let counted = stream_reply is Some && stream_reply->0.sequence == sent.packet.sequence
                && stream_reply->0.ilp_packet_type != IlpPacketType::Reject;
            let before = p.receipt.delivered_amount as int;
            let after = q.receipt.delivered_amount as int;
            &&& counted && said > demanded && before + said <= u64::MAX ==> after == before + said
            &&& counted && said > demanded && before + said > u64::MAX ==> after == u64::MAX
            &&& !(counted && said > demanded) && before + demanded <= u64::MAX ==> after == before
                + demanded
            &&& !(counted && said > demanded) && before + demanded > u64::MAX ==> after == u64::MAX
            &&& sent.amount <= p.receipt.in_flight_amount ==> q.receipt.in_flight_amount
                == p.receipt.in_flight_amount - sent.amount
            &&& sent.amount > p.receipt.in_flight_amount ==> q.receipt.in_flight_amount == 0
            &&& q.receipt.sent_amount == p.receipt.sent_amount
            &&& q.fulfilled_packets == p.fulfilled_packets + 1
            &&& q.rejected_packets == p.rejected_packets
            &&& q.last_fulfill_time == now
            &&& q.stopped == p.stopped
            &&& q.sequence == p.sequence
            &&& q.closed == p.closed
        }),
{
}

/// A rejected packet leaves what is sent and in flight, and delivers nothing. It stops the payment
/// exactly if it is the first to do so, and its code is neither `F08` nor `F99` nor starts with
/// `T`.
pub proof fn law_rejected_packet(
    p: StreamPayment,
    sent: OutgoingPacket,
    reject: Reject,
    stream_reply: Option<StreamPacket>,
    now: u128,
)
    requires
        p.rejected_packets < u64::MAX,
    ensures
        ({
            let q = p.after_reply(sent, IlpReply::Reject(reject), stream_reply, now);
            let code = reject.code.bytes@;
            let survived = code[0] == 84 || (code[0] == 70 && code[1] == 48 && code[2] == 56) || (
            code[0] == 70 && code[1] == 57 && code[2] == 57);
            &&& survived ==> q.stopped == p.stopped
            &&& p.stopped is Some ==> q.stopped == p.stopped
            &&& !survived && p.stopped is None ==> q.stopped == Some(reject)
            &&& q.receipt.delivered_amount == p.receipt.delivered_amount
            &&& sent.amount <= p.receipt.in_flight_amount ==> q.receipt.in_flight_amount
                == p.receipt.in_flight_amount - sent.amount
            &&& sent.amount > p.receipt.in_flight_amount ==> q.receipt.in_flight_amount == 0
            &&& sent.amount <= p.receipt.sent_amount ==> q.receipt.sent_amount
                == p.receipt.sent_amount - sent.amount
            &&& sent.amount > p.receipt.sent_amount ==> q.receipt.sent_amount == 0
            &&& q.rejected_packets == p.rejected_packets + 1
            &&& q.fulfilled_packets == p.fulfilled_packets
            &&& q.last_fulfill_time == p.last_fulfill_time
            &&& q.sequence == p.sequence
            &&& q.closed == p.closed
        }),
{
}

/// A rejection is survived exactly if its code starts with `T` or is `F08` or `F99`, whatever the
/// state of the payment; any other is an error, which names the code and gives the message.
pub proof fn law_survived_rejections(reject: Reject, result: Result<(), Error>)
    requires
        crate::reply::reply_result(IlpReply::Reject(reject), result),
    ensures
        ({
            let code = reject.code.bytes@;
            &&& result is Ok <==> code[0] == 84 || (code[0] == 70 && code[1] == 48 && code[2] == 56)
                || (code[0] == 70 && code[1] == 57 && code[2] == 57)
            &&& result matches Err(error) ==> {
                &&& error matches Error::SendMoneyError(message)
                &&& message@ == "Packet was rejected with error: "@ + reject.code_text@ + " "@
                    + crate::text::utf8_or_empty(reject.message@)
            }
        }),
{
}

/// A fulfilled packet is no error.
pub proof fn law_fulfill_is_no_error(result: Result<(), Error>)
    requires
        crate::reply::reply_result(IlpReply::Fulfill, result),
    ensures
        result is Ok,
{
}

/// What a reply tells of the recipient. Its STREAM packet counts if it has the sequence number of the
/// request and is not marked as a Reject where a Fulfill came. If so, the recipient knows the
/// sender's address, and the last asset details in the packet become those of the recipient, unless
/// the scale was known before. Otherwise nothing changes, nor does what the payment intends.
pub proof fn law_reply_tells_of_recipient(
    p: StreamPayment,
    sent: OutgoingPacket,
    reply: IlpReply,
    stream_reply: Option<StreamPacket>,
    now: u128,
    details: ConnectionAssetDetailsFrame,
    index: int,
)
    ensures
        ({
            let q = p.after_reply(sent, reply, stream_reply, now);
            let counted = stream_reply is Some && stream_reply->0.sequence == sent.packet.sequence
                && (reply is Reject || stream_reply->0.ilp_packet_type != IlpPacketType::Reject);
            let frames = stream_reply->0.frames@;
            let unknown = p.receipt.destination_asset_scale is None;
            &&& q.should_send_source_account <==> p.should_send_source_account && !counted
            &&& counted && unknown && 0 <= index < frames.len() && frames[index]
                == Frame::ConnectionAssetDetails(details) && (forall|j: int|
                index < j < frames.len() ==> !(#[trigger] frames[j] is ConnectionAssetDetails))
                ==> {
                &&& q.receipt.destination_asset_code == Some(details.source_asset_code)
                &&& q.receipt.destination_asset_scale == Some(details.source_asset_scale)
            }
            &&& !counted || !unknown || (forall|j: int|
                0 <= j < frames.len() ==> !(#[trigger] frames[j] is ConnectionAssetDetails)) ==> {
                &&& q.receipt.destination_asset_code == p.receipt.destination_asset_code
                &&& q.receipt.destination_asset_scale == p.receipt.destination_asset_scale
            }
            &&& q.receipt.from == p.receipt.from && q.receipt.to == p.receipt.to
            &&& q.receipt.source_amount == p.receipt.source_amount
            &&& q.receipt.source_asset_code == p.receipt.source_asset_code
            &&& q.receipt.source_asset_scale == p.receipt.source_asset_scale
        }),
{
    if stream_reply is Some {
        let frames = stream_reply->0.frames@;
        crate::packet::law_last_asset_details(frames);
        if let Some(last) = crate::packet::last_asset_details(frames) {
            let i = choose|i: int|
                0 <= i < frames.len() && #[trigger] frames[i] == Frame::ConnectionAssetDetails(last)
                    && forall|j: int|
                    i < j < frames.len() ==> !(#[trigger] frames[j] is ConnectionAssetDetails);
            assert(frames[i] is ConnectionAssetDetails);
        }
    }
}

/// The amount that the recipient claims is that of the STREAM packet, if it has the sequence number
/// of the request and is not marked as a Reject where a Fulfill came, and else zero.
pub proof fn law_claim(
    sent: OutgoingPacket,
    packet_type: IlpPacketType,
    stream_reply: Option<StreamPacket>,
)
    ensures
        ({
            let claimed = crate::reply::claimed_amount(
                sent.packet.sequence,
                packet_type,
                stream_reply,
            );
            let counted = stream_reply is Some && stream_reply->0.sequence == sent.packet.sequence
                && (packet_type != IlpPacketType::Fulfill || stream_reply->0.ilp_packet_type
                != IlpPacketType::Reject);
            &&& counted ==> claimed == stream_reply->0.prepare_amount
            &&& !counted ==> claimed == 0
            &&& crate::reply::credible(sent.packet.sequence, packet_type, stream_reply) <==> counted
        }),
{
}

/// The congestion controller is told the kind of the reply and the amount of the packet.
pub proof fn law_congestion_update(sent: OutgoingPacket, reply: IlpReply)
    ensures
        reply is Fulfill ==> crate::reply::congestion_update(sent, reply)
            == CongestionUpdate::Fulfill(sent.amount) && reply.spec_packet_type()
            == IlpPacketType::Fulfill,
        reply is Reject ==> crate::reply::congestion_update(sent, reply) == CongestionUpdate::Reject(
            sent.amount,
        ) && reply.spec_packet_type() == IlpPacketType::Reject,
{
}

/// What a payment ends with: a receipt exactly on closing a closed connection, an error on every
/// other decision that ends the payment, with its reason in words, and nothing otherwise.
pub proof fn law_conclusion(
    p: StreamPayment,
    event: PaymentEvent,
    result: Option<Result<StreamDelivery, Error>>,
)
    requires
        p.concluded(event, result),
    ensures
        result matches Some(Ok(receipt)) ==> event is CloseConnection && p.closed && receipt
            == p.receipt,
        event is CloseConnection && p.closed ==> result == Some(
            Ok::<StreamDelivery, Error>(p.receipt),
        ),
        event is CloseConnection && !p.closed ==> result is None,
        event is SendMoney || event is MaxInFlight ==> result is None,
        event is Stopped && p.stopped is None ==> result is None,
        event is Timeout ==> (result matches Some(Err(Error::TimeoutError(message))) && message@
            == "Time since last fulfill exceeded the maximum time limit"@),
        event is FailFast ==> (result matches Some(Err(Error::SendMoneyError(message))) && message@
            == "Terminating payment since too many packets are rejected ("@ + crate::text::decimal(
            p.fulfilled_packets as nat,
        ) + " packets fulfilled, "@ + crate::text::decimal(p.rejected_packets as nat)
            + " packets rejected)"@),
        event is Stopped && p.stopped is Some ==> (result matches Some(
            Err(Error::SendMoneyError(message)),
        ) && message@ == "Packet was rejected with error: "@ + p.stopped->0.code_text@ + " "@
            + crate::text::utf8_or_empty(p.stopped->0.message@)),
{
}

/// A rejection is checked by its code alone: one that starts with `T`, `F08` and `F99` let the
/// payment go on, and any other does not.
pub proof fn law_check_goes_by_the_code(reject: Reject, result: Result<(), Error>)
    requires
        call_ensures(crate::reply::check_reject, (&reject,), result),
    ensures
        ({
            let code = reject.code.bytes@;
            result is Ok <==> code[0] == 84 || (code[0] == 70 && code[1] == 48 && code[2] == 56) || (
            code[0] == 70 && code[1] == 57 && code[2] == 57)
        }),
{
}

/// Waiting stops the payment exactly with the error of a request that completed with one.
pub proof fn law_wait(outcome: WaitOutcome, stop: Option<Error>)
    requires
        call_ensures(crate::sender::check_wait, (outcome,), stop),
    ensures
        outcome is TimedOut || outcome is Aborted ==> stop is None,
        outcome matches WaitOutcome::Completed(result) ==> {
            &&& stop is Some <==> result is Err
            &&& stop is Some ==> stop->0 == result->Err_0
        },
{
}

/// At first the whole amount may be in flight; the limit grows by a tenth of it, rounded down, and
/// shrinks to the half.
pub proof fn law_congestion_start(sender: StreamSender, start: CongestionParameters)
    requires
        call_ensures(StreamSender::congestion_parameters, (&sender,), start),
    ensures
        start.start_amount == sender.payment.receipt.source_amount,
        10 * start.increase_amount <= sender.payment.receipt.source_amount < 10
            * start.increase_amount + 10,
        start.decrease_factor == 2,
{
}

/// The limits that callers keep: 30 seconds for a Prepare, and 100 milliseconds for waiting.
pub proof fn law_limits()
    ensures
        crate::sender::PREPARE_EXPIRY_SECS == 30,
        crate::sender::WAIT_FOR_REPLY_MILLIS == 100,
        crate::payment::MAX_TIME_SINCE_LAST_FULFILL == 30_000_000_000,
        crate::payment::FAIL_FAST_MINIMUM_PACKET_ATTEMPTS == 200,
        crate::payment::FAIL_FAST_MINIMUM_FAILURE_PERCENT == 99,
{
}

} // verus!
