//! The sender of a payment: decides what to do next, makes the packets, and takes the replies.
//!
//! Encryption, the congestion controller and the network are left to the caller.
use crate::clock::PaymentClock;
use crate::delivery::{Account, StreamDelivery};
use crate::error::Error;
use crate::packet::{
    Condition, ConnectionCloseFrame, ConnectionNewAddressFrame, ErrorCode, Frame, IlpPacketType,
    IlpReply, OutgoingPacket, StreamMoneyFrame, StreamPacket,
};
use crate::payment::{PaymentEvent, StreamPayment};
use crate::rates::{get_min_destination_amount, Prices};
use crate::rational::Rational;
use crate::reply::ReplyOutcome;
use vstd::prelude::*;

verus! {

/// Seconds until a Prepare expires
pub const PREPARE_EXPIRY_SECS: u64 = 30;

/// How long to wait for any request to complete before looking at the payment again, in
/// milliseconds
pub const WAIT_FOR_REPLY_MILLIS: u64 = 100;

/// A packet is fulfillable only if it demands a minimum amount.
pub open spec fn condition_for(min_destination_amount: u64) -> Condition {
    if min_destination_amount > 0 {
        Condition::Generated
    } else {
        Condition::Random
    }
}

/// The state of a payment of which nothing has been sent yet.
pub open spec fn opened_payment(
    from_account: Account,
    destination_account: String,
    source_amount: u64,
) -> StreamPayment {
    StreamPayment {
        receipt: StreamDelivery::opened(from_account, destination_account, source_amount),
        should_send_source_account: true,
        sequence: 1,
        fulfilled_packets: 0,
        rejected_packets: 0,
        last_fulfill_time: 0,
        stopped: None,
        closed: false,
    }
}

/// Makes all packets of a payment, encapsulating all payment state
#[derive(Debug)]
pub struct StreamSender {
    /// Mutable payment state
    pub payment: StreamPayment,
    /// Maximum acceptable slippage below calculated minimum exchange rate, absent if it is no
    /// finite number
    pub slippage: Option<Rational>,
    /// Clock of the payment, which started when the payment did
    pub clock: PaymentClock,
}

/// How the congestion controller of a payment starts out
#[derive(Debug, Clone, Copy, PartialEq, Eq, Structural)]
pub struct CongestionParameters {
    /// Amount that may be in flight at first
    pub start_amount: u64,
    /// Amount by which that limit grows
    pub increase_amount: u64,
    /// Factor by which that limit shrinks
    pub decrease_factor: u32,
}

/// What came of waiting for a request to complete
#[derive(Debug)]
pub enum WaitOutcome {
    /// No request completed in time
    TimedOut,
    /// The task of a request ended without a result
    Aborted,
    /// A request completed with the given result
    Completed(Result<(), Error>),
}

/// Send the given source amount with packetized Interledger payments using the STREAM transport protocol
/// Returns the sender, on which the events of the payment are to be carried out
pub fn send_money(
    from_account: &Account,
    destination_account: String,
    source_amount: u64,
    slippage: Option<Rational>,
) -> (r: StreamSender)
    requires
        slippage matches Some(s) ==> s.wf(),
    ensures
        r.payment == opened_payment(*from_account, destination_account, source_amount),
        r.slippage == slippage,
        r.clock.started_now(),
        r.wf(),
{
    StreamSender {
        payment: StreamPayment {
            receipt: StreamDelivery::new(from_account, destination_account, source_amount),
            should_send_source_account: true,
            sequence: 1,
            fulfilled_packets: 0,
            rejected_packets: 0,
            last_fulfill_time: 0,
            stopped: None,
            closed: false,
        },
        slippage,
        clock: PaymentClock::start(),
    }
}

/// The error that stops the payment, if waiting brought one.
pub fn check_wait(outcome: WaitOutcome) -> (r: Option<Error>)
    ensures
        r == match outcome {
            WaitOutcome::Completed(Err(error)) => Some(error),
            _ => None::<Error>,
        },
{
    match outcome {
        WaitOutcome::Completed(Err(error)) => Some(error),
        _ => None,
    }
}

impl StreamSender {
    /// The slippage is a well-formed number.
    pub open spec fn wf(&self) -> bool {
        self.slippage matches Some(s) ==> s.wf()
    }

    /// How the congestion controller of this payment starts out: the whole amount may be in flight,
    /// and the limit grows by tenths of it.
    pub fn congestion_parameters(&self) -> (r: CongestionParameters)
        ensures
            r.start_amount == self.payment.receipt.source_amount,
            r.increase_amount == self.payment.receipt.source_amount / 10,
            r.decrease_factor == 2,
    {
        CongestionParameters {
            start_amount: self.payment.receipt.source_amount,
            increase_amount: self.payment.receipt.source_amount / 10,
            decrease_factor: 2,
        }
    }

    /// Decide what to do now, if the congestion controller admits `max_amount`. If that is to send
    /// money, the amount is put in flight.
    pub fn next_event(&mut self, max_amount: u64) -> (event: PaymentEvent)
        requires
            old(self).payment.answered_packets() <= u64::MAX,
        ensures
            exists|now: u128| #[trigger]
                call_ensures(PaymentClock::now, (&old(self).clock,), now) && event
                    == old(self).payment.event(now, max_amount),
            *final(self) == (StreamSender {
                payment: old(self).payment.after_event(event),
                ..*old(self)
            }),
            (forall|now: u128| #[trigger]
                call_ensures(PaymentClock::now, (&old(self).clock,), now) ==> now
                    - old(self).payment.last_fulfill_time >= 30_000_000_000) ==> event is Timeout,
            (forall|now: u128| #[trigger]
                call_ensures(PaymentClock::now, (&old(self).clock,), now) ==> now
                    - old(self).payment.last_fulfill_time < 30_000_000_000) ==> !(event is Timeout),
            old(self).payment.stopped is Some ==> event is Timeout || event is FailFast
                || event is Stopped,
    {
        let now = self.clock.now();
        self.payment.next_event(now, max_amount)
    }

    /// Make the Prepare for the given source amount, which has been put in flight before.
    /// `prices` are those of the required assets, if they could be looked up.
    /// There is no Prepare once the payment has been stopped.
    pub fn send_money_packet(
        &mut self,
        source_amount: u64,
        prices: &Option<Prices>,
    ) -> (r: Option<OutgoingPacket>)
        requires
            old(self).payment.sequence < u64::MAX,
            *prices matches Some(p) ==> p.wf(),
            old(self).wf(),
        ensures
            r is None <==> old(self).payment.stopped is Some,
            r is None ==> *final(self) == *old(self),
            r matches Some(outgoing) ==> {
                &&& old(self).payment.money_packet(
                    source_amount,
                    *prices,
                    old(self).slippage,
                    outgoing,
                )
                &&& *final(self) == (StreamSender {
                    payment: old(self).payment.after_sequence(),
                    ..*old(self)
                })
            },
    {
        if self.payment.stopped.is_some() {
            return None;
        }
        let sequence = self.payment.next_sequence();

        let mut frames: Vec<Frame> = Vec::new();
        frames.push(Frame::StreamMoney(StreamMoneyFrame { stream_id: 1, shares: 1 }));
        if self.payment.should_send_source_account {
            frames.push(
                Frame::ConnectionNewAddress(
                    ConnectionNewAddressFrame { source_account: self.payment.receipt.from.clone() },
                ),
            );
        }
        assert(frames@ == old(self).payment.money_frames());

        let dest_code = match &self.payment.receipt.destination_asset_code {
            Some(code) => Some(code.as_str()),
            None => None,
        };
        // Default to 0 if unable to calculate rate
        let min_destination_amount: u64 = match get_min_destination_amount(
            prices,
            source_amount,
            self.payment.receipt.source_asset_scale,
            self.payment.receipt.source_asset_code.as_str(),
            self.payment.receipt.destination_asset_scale,
            dest_code,
            &self.slippage,
        ) {
            Some(amount) => amount,
            None => 0,
        };

        // If we couldn't calculate a minimum destination amount (e.g. don't know asset details yet),
        // packet MUST be unfulfillable so no money is at risk
        let condition = if min_destination_amount > 0 {
            Condition::Generated
        } else {
            Condition::Random
        };

        Some(
            OutgoingPacket {
                destination: self.payment.receipt.to.clone(),
                amount: source_amount,
                packet: StreamPacket {
                    ilp_packet_type: IlpPacketType::Prepare,
                    prepare_amount: min_destination_amount,
                    sequence,
                    frames,
                },
                condition,
                expires_in_secs: PREPARE_EXPIRY_SECS,
            },
        )
    }

    /// Make an unfulfillable Prepare with a ConnectionClose frame for the peer
    /// There's no ACK from the recipient, so we can't confirm it closed
    pub fn try_send_connection_close(&mut self) -> (r: OutgoingPacket)
        requires
            old(self).payment.sequence < u64::MAX,
        ensures
            *final(self) == (StreamSender {
                payment: old(self).payment.after_close(),
                ..*old(self)
            }),
            old(self).payment.close_packet(r),
    {
        let sequence = self.payment.next_sequence();
        self.payment.closed = true;

        let mut frames: Vec<Frame> = Vec::new();
        frames.push(
            Frame::ConnectionClose(
                ConnectionCloseFrame { code: ErrorCode::NoError, message: String::new() },
            ),
        );
        OutgoingPacket {
            destination: self.payment.receipt.to.clone(),
            amount: 0,
            packet: StreamPacket {
                ilp_packet_type: IlpPacketType::Prepare,
                prepare_amount: 0,
                sequence,
                frames,
            },
            condition: Condition::Random,
            expires_in_secs: PREPARE_EXPIRY_SECS,
        }
    }

    /// Apply the Fulfill or Reject that came back for a packet. `stream_reply` is the STREAM packet
    /// in its data, absent if that could not be decrypted or parsed.
    pub fn handle_reply(
        &mut self,
        sent: &OutgoingPacket,
        reply: IlpReply,
        stream_reply: &Option<StreamPacket>,
    ) -> (r: ReplyOutcome)
        requires
            reply is Fulfill ==> old(self).payment.fulfilled_packets < u64::MAX,
            reply is Reject ==> old(self).payment.rejected_packets < u64::MAX,
        ensures
            exists|now: u128| #[trigger]
                call_ensures(PaymentClock::now, (&old(self).clock,), now) && *final(self)
                    == (StreamSender {
                    payment: old(self).payment.after_reply(
                        *sent,
                        reply,
                        *stream_reply,
                        now,
                    ),
                    ..*old(self)
                }),
            r.congestion == crate::reply::congestion_update(*sent, reply),
            crate::reply::reply_result(reply, r.result),
            r.result is Err ==> final(self).payment.stopped is Some,
            old(self).payment.receipt.destination_asset_scale is Some ==> {
                &&& final(self).payment.receipt.destination_asset_scale
                    == old(self).payment.receipt.destination_asset_scale
                &&& final(self).payment.receipt.destination_asset_code
                    == old(self).payment.receipt.destination_asset_code
            },
            !old(self).payment.should_send_source_account
                ==> !final(self).payment.should_send_source_account,
    {
        let now = self.clock.now();
        self.payment.apply_reply(sent, reply, stream_reply, now)
    }
}

impl StreamPayment {
    /// The asset codes whose prices are needed to send a packet: none if the destination asset is
    /// unknown, or the same as the source asset.
    pub open spec fn priced_codes(self) -> Option<(Seq<char>, Seq<char>)> {
        match (self.receipt.destination_asset_code, self.receipt.destination_asset_scale) {
            (Some(dest), Some(_)) => if self.receipt.source_asset_code@ == dest@ {
                None
            } else {
                Some((self.receipt.source_asset_code@, dest@))
            },
            _ => None,
        }
    }

    /// The asset codes to look up prices for before a packet is made, source asset first.
    pub fn required_prices(&self) -> (r: Option<(String, String)>)
        ensures
            r is Some <==> self.priced_codes() is Some,
            r matches Some(codes) ==> self.priced_codes() == Some((codes.0@, codes.1@)),
    {
        match (&self.receipt.destination_asset_code, self.receipt.destination_asset_scale) {
            (Some(dest), Some(_)) => {
                if self.receipt.source_asset_code == *dest {
                    None
                } else {
                    Some((self.receipt.source_asset_code.clone(), dest.clone()))
                }
            },
            _ => None,
        }
    }

    /// The least amount that the recipient has to accept for a packet, in destination units, or
    /// zero if that cannot be calculated.
    pub open spec fn minimum_for(
        self,
        source_amount: u64,
        prices: Option<Prices>,
        slippage: Option<Rational>,
    ) -> u64 {
        match crate::rates::min_destination_amount(
            prices,
            source_amount,
            self.receipt.source_asset_scale,
            self.receipt.source_asset_code@,
            self.receipt.destination_asset_scale,
            match self.receipt.destination_asset_code {
                Some(code) => Some(code@),
                None => None,
            },
            crate::rates::rational_view(slippage),
        ) {
            Some(amount) => amount,
            None => 0,
        }
    }

    /// The frames of a packet that carries money: the share of the only stream, and the address of
    /// the sender as long as the recipient may not know it.
    pub open spec fn money_frames(self) -> Seq<Frame> {
        let share = Frame::StreamMoney(StreamMoneyFrame { stream_id: 1, shares: 1 });
        if self.should_send_source_account {
            seq![
                share,
                Frame::ConnectionNewAddress(
                    ConnectionNewAddressFrame { source_account: self.receipt.from },
                ),
            ]
        } else {
            seq![share]
        }
    }

    /// `outgoing` is the Prepare that carries the given source amount.
    pub open spec fn money_packet(
        self,
        source_amount: u64,
        prices: Option<Prices>,
        slippage: Option<Rational>,
        outgoing: OutgoingPacket,
    ) -> bool {
        &&& outgoing.destination == self.receipt.to
        &&& outgoing.amount == source_amount
        &&& outgoing.packet.ilp_packet_type == IlpPacketType::Prepare
        &&& outgoing.packet.prepare_amount == self.minimum_for(source_amount, prices, slippage)
        &&& outgoing.packet.sequence == self.sequence
        &&& outgoing.packet.frames@ == self.money_frames()
        &&& outgoing.condition == condition_for(outgoing.packet.prepare_amount)
        &&& outgoing.expires_in_secs == PREPARE_EXPIRY_SECS
    }

    /// `outgoing` is the Prepare that closes the connection.
    pub open spec fn close_packet(self, outgoing: OutgoingPacket) -> bool {
        &&& outgoing.destination == self.receipt.to
        &&& outgoing.amount == 0
        &&& outgoing.packet.ilp_packet_type == IlpPacketType::Prepare
        &&& outgoing.packet.prepare_amount == 0
        &&& outgoing.packet.sequence == self.sequence
        &&& outgoing.packet.frames@.len() == 1
        &&& outgoing.packet.frames@[0] matches Frame::ConnectionClose(close)
        &&& close.code == ErrorCode::NoError
        &&& close.message@ == Seq::<char>::empty()
        &&& outgoing.condition == Condition::Random
        &&& outgoing.expires_in_secs == PREPARE_EXPIRY_SECS
    }
}

} // verus!
