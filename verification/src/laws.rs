//! Properties of payments that span several operations.
use crate::delivery::{Account, StreamDelivery};
use crate::error::Error;
use crate::packet::{Condition, IlpReply, OutgoingPacket, Reject, StreamPacket};
use crate::payment::{PaymentEvent, StreamPayment};
use crate::rates::Prices;
use crate::rational::Rational;
use vstd::prelude::*;

verus! {

/// A new payment is in order, and all of its amount is available.
pub proof fn law_opened_payment(account: Account, destination: String, source_amount: u64)
    ensures
        ({
            let p = crate::sender::opened_payment(account, destination, source_amount);
            &&& p.accounted()
            &&& p.available_amount() == source_amount
            &&& p.fulfilled_amount() == 0
            &&& p.answered_packets() == 0
        }),
{
}

/// Every part of the intended amount is fulfilled, in flight, or available, and what remains to be
/// fulfilled is in flight or available.
pub proof fn law_amounts_add_up(p: StreamPayment)
    requires
        p.accounted(),
    ensures
        p.fulfilled_amount() + p.receipt.in_flight_amount + p.available_amount()
            == p.receipt.source_amount,
        p.remaining_amount() == p.receipt.in_flight_amount + p.available_amount(),
{
}

/// Putting the next amount in flight takes it from what is available, and nothing else.
pub proof fn law_prepare_moves_available(p: StreamPayment, max_amount: u64)
    requires
        p.accounted(),
    ensures
        ({
            let amount = p.next_amount(max_amount);
            let q = p.after_prepare(amount);
            &&& q.accounted()
            &&& amount <= max_amount
            &&& q.available_amount() == p.available_amount() - amount
            &&& q.receipt.in_flight_amount == p.receipt.in_flight_amount + amount
            &&& q.fulfilled_amount() == p.fulfilled_amount()
            &&& q.remaining_amount() == p.remaining_amount()
        }),
{
}

/// Fulfilling an amount that is in flight takes it from what remains, and nothing else.
pub proof fn law_fulfill_moves_in_flight(
    p: StreamPayment,
    source_amount: u64,
    destination_amount: u64,
    now: u128,
)
    requires
        p.accounted(),
        source_amount <= p.receipt.in_flight_amount,
    ensures
        ({
            let q = p.after_fulfill(source_amount, destination_amount, now);
            &&& q.accounted()
            &&& q.receipt.in_flight_amount == p.receipt.in_flight_amount - source_amount
            &&& q.fulfilled_amount() == p.fulfilled_amount() + source_amount
            &&& q.remaining_amount() == p.remaining_amount() - source_amount
            &&& q.available_amount() == p.available_amount()
        }),
{
}

/// A rejection undoes the preparation of the packet: the receipt is as before, and so is all else
/// but for the number of rejected packets.
pub proof fn law_reject_undoes_prepare(p: StreamPayment, max_amount: u64)
    requires
        p.accounted(),
    ensures
        ({
            let amount = p.next_amount(max_amount);
            let q = p.after_prepare(amount).after_reject(amount);
            &&& q.receipt == p.receipt
            &&& q == (StreamPayment { rejected_packets: (p.rejected_packets + 1) as u64, ..p })
        }),
{
}

/// The order in which a fulfilled and a rejected packet are answered does not matter.
pub proof fn law_replies_commute(
    p: StreamPayment,
    fulfilled: u64,
    delivered: u64,
    now: u128,
    rejected: u64,
)
    requires
        fulfilled + rejected <= p.receipt.in_flight_amount <= p.receipt.sent_amount,
    ensures
        p.after_fulfill(fulfilled, delivered, now).after_reject(rejected) == p.after_reject(
            rejected,
        ).after_fulfill(fulfilled, delivered, now),
{
}

/// No operation, whatever its arguments, puts the amounts out of order.
pub proof fn law_accounting_is_kept(
    p: StreamPayment,
    amount: u64,
    delivered: u64,
    max_amount: u64,
    now: u128,
    sent: OutgoingPacket,
    reply: IlpReply,
    stream_reply: Option<StreamPacket>,
)
    requires
        p.accounted(),
    ensures
        p.after_event(p.event(now, max_amount)).accounted(),
        p.after_sequence().accounted(),
        p.after_close().accounted(),
        p.after_fulfill(amount, delivered, now).accounted(),
        p.after_reject(amount).accounted(),
        p.after_reply(sent, reply, stream_reply, now).accounted(),
{
}

/// Money is sent only in amounts that are not zero, available, and admitted by the congestion
/// controller, and only while the payment is neither complete, stopped, failing nor timed out.
pub proof fn law_sends_only_what_is_admitted(p: StreamPayment, now: u128, max_amount: u64)
    ensures
        p.event(now, max_amount) matches PaymentEvent::SendMoney(amount) ==> {
            &&& 0 < amount <= max_amount
            &&& amount <= p.available_amount()
            &&& p.remaining_amount() > 0
            &&& p.stopped is None
            &&& !p.failing()
            &&& !p.timed_out(now)
        },
{
}

/// The connection is closed only once the intended amount has been fulfilled, no more and no less,
/// and then nothing is in flight. It is closed then unless an error ends the payment.
pub proof fn law_closes_when_all_is_fulfilled(p: StreamPayment, now: u128, max_amount: u64)
    requires
        p.accounted(),
    ensures
        p.event(now, max_amount) is CloseConnection ==> {
            &&& p.fulfilled_amount() == p.receipt.source_amount
            &&& p.receipt.sent_amount == p.receipt.source_amount
            &&& p.receipt.in_flight_amount == 0
        },
        !p.timed_out(now) && !p.failing() && p.stopped is None && p.fulfilled_amount()
            == p.receipt.source_amount ==> p.event(now, max_amount) is CloseConnection,
{
}

/// A fulfilled packet restarts the time limit.
pub proof fn law_fulfill_restarts_timeout(
    p: StreamPayment,
    source_amount: u64,
    destination_amount: u64,
    now: u128,
    later: u128,
)
    ensures
        p.after_fulfill(source_amount, destination_amount, now).timed_out(later) <==> later - now
            >= crate::payment::MAX_TIME_SINCE_LAST_FULFILL,
{
}

/// A payment fails fast only after 200 packets of which at most one in a hundred was fulfilled.
pub proof fn law_failing_needs_rejections(p: StreamPayment)
    ensures
        p.failing() ==> p.answered_packets() >= 200 && 100 * p.fulfilled_packets
            <= p.answered_packets(),
        p.rejected_packets == 0 ==> !p.failing(),
{
}

/// As long as the recipient's asset is unknown, a packet demands nothing, and its condition is
/// random, so that it cannot be fulfilled.
pub proof fn law_unknown_asset_is_unfulfillable(
    p: StreamPayment,
    source_amount: u64,
    prices: Option<Prices>,
    slippage: Option<Rational>,
)
    requires
        p.receipt.destination_asset_scale is None || p.receipt.destination_asset_code is None,
    ensures
        p.minimum_for(source_amount, prices, slippage) == 0,
        crate::sender::condition_for(p.minimum_for(source_amount, prices, slippage))
            == Condition::Random,
{
}

/// The asset of the recipient, once known, does not change.
pub proof fn law_asset_details_are_final(
    p: StreamPayment,
    sent: OutgoingPacket,
    reply: IlpReply,
    stream_reply: Option<StreamPacket>,
    now: u128,
)
    requires
        p.receipt.destination_asset_scale is Some,
    ensures
        ({
            let q = p.after_reply(sent, reply, stream_reply, now);
            &&& q.receipt.destination_asset_scale == p.receipt.destination_asset_scale
            &&& q.receipt.destination_asset_code == p.receipt.destination_asset_code
        }),
{
}

/// Once a credible reply has come, the address of the sender is not sent again.
pub proof fn law_address_is_sent_until_known(
    p: StreamPayment,
    sent: OutgoingPacket,
    reply: IlpReply,
    stream_reply: Option<StreamPacket>,
    now: u128,
)
    ensures
        ({
            let q = p.after_reply(sent, reply, stream_reply, now);
            let credible = crate::reply::credible(
                sent.packet.sequence,
                reply.spec_packet_type(),
                stream_reply,
            );
            q.should_send_source_account <==> p.should_send_source_account && !credible
        }),
{
}

/// A STREAM packet that answers another request, contradicts the ILP reply, or cannot be read is
/// discarded: whatever it holds, the payment ends up the same, but for the time that is taken.
pub proof fn law_discarded_reply_is_ignored(
    p: StreamPayment,
    sent: OutgoingPacket,
    reply: IlpReply,
    one: Option<StreamPacket>,
    other: Option<StreamPacket>,
    now: u128,
    later: u128,
)
    requires
        !crate::reply::credible(sent.packet.sequence, reply.spec_packet_type(), one),
        !crate::reply::credible(sent.packet.sequence, reply.spec_packet_type(), other),
    ensures
        p.after_reply(sent, reply, one, now) == p.after_reply(sent, reply, other, now),
        ({
            let a = p.after_reply(sent, reply, one, now);
            let b = p.after_reply(sent, reply, other, later);
            &&& a.receipt == b.receipt
            &&& a.sequence == b.sequence
            &&& a.fulfilled_packets == b.fulfilled_packets
            &&& a.rejected_packets == b.rejected_packets
            &&& a.should_send_source_account == b.should_send_source_account
            &&& a.stopped == b.stopped
        }),
        forall|result: Result<(), Error>|
            reply is Fulfill && #[trigger] crate::reply::reply_result(reply, result)
                ==> result is Ok,
{
}

/// A rejection that is not tolerated is an error, and stops the payment: nothing more is sent, the
/// connection is not closed, and the payment ends with an error.
pub proof fn law_final_rejection_stops_payment(
    p: StreamPayment,
    sent: OutgoingPacket,
    reject: Reject,
    stream_reply: Option<StreamPacket>,
    now: u128,
    later: u128,
    max_amount: u64,
)
    requires
        !crate::reply::tolerated(reject),
    ensures
        ({
            let q = p.after_reply(sent, IlpReply::Reject(reject), stream_reply, now);
            let event = q.event(later, max_amount);
            &&& q.stopped is Some
            &&& event is Timeout || event is FailFast || event is Stopped
            &&& forall|result: Option<Result<StreamDelivery, Error>>| #[trigger]
                q.concluded(event, result) ==> result matches Some(Err(_))
        }),
        forall|result: Result<(), Error>| #[trigger]
            crate::reply::reply_result(IlpReply::Reject(reject), result) ==> result is Err,
{
}

/// A fulfilled packet is accounted for as delivering at least the amount that it demanded, whatever
/// the recipient claims.
pub proof fn law_delivers_at_least_minimum(
    p: StreamPayment,
    sent: OutgoingPacket,
    stream_reply: Option<StreamPacket>,
    now: u128,
)
    ensures
        ({
            let q = p.after_reply(sent, IlpReply::Fulfill, stream_reply, now);
            q.receipt.delivered_amount >= crate::payment::capped_sum(
                p.receipt.delivered_amount,
                sent.packet.prepare_amount,
            )
        }),
{
}

/// Nothing that happens to a payment lowers the amount delivered or changes what was intended: the
/// amount, the sender, the receiver and the source asset.
pub proof fn law_delivered_amount_grows(
    p: StreamPayment,
    sent: OutgoingPacket,
    reply: IlpReply,
    stream_reply: Option<StreamPacket>,
    now: u128,
    max_amount: u64,
)
    ensures
        ({
            let q = p.after_reply(sent, reply, stream_reply, now);
            let e = p.after_event(p.event(now, max_amount));
            &&& q.receipt.delivered_amount >= p.receipt.delivered_amount
            &&& e.receipt.delivered_amount == p.receipt.delivered_amount
            &&& q.receipt.source_amount == p.receipt.source_amount
            &&& e.receipt.source_amount == p.receipt.source_amount
            &&& q.receipt.from == p.receipt.from && q.receipt.to == p.receipt.to
            &&& e.receipt.from == p.receipt.from && e.receipt.to == p.receipt.to
            &&& q.receipt.source_asset_scale == p.receipt.source_asset_scale
            &&& e.receipt.source_asset_scale == p.receipt.source_asset_scale
            &&& q.receipt.source_asset_code == p.receipt.source_asset_code
            &&& e.receipt.source_asset_code == p.receipt.source_asset_code
        }),
{
}

/// A payment gives its receipt only once the packet has been made that closes the connection.
pub proof fn law_receipt_needs_close(
    p: StreamPayment,
    event: PaymentEvent,
    result: Option<Result<StreamDelivery, Error>>,
)
    requires
        p.concluded(event, result),
    ensures
        result matches Some(Ok(receipt)) ==> event is CloseConnection && p.closed && receipt
            == p.receipt,
        p.after_close().concluded(
            PaymentEvent::CloseConnection,
            Some(Ok::<StreamDelivery, Error>(p.receipt)),
        ),
{
}

} // verus!
