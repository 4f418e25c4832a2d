//! What a reply to a packet does to a payment.
use crate::error::Error;
use crate::packet::{
    ConnectionAssetDetailsFrame, ErrorClass, Frame, IlpPacketType, IlpReply, OutgoingPacket, Reject,
    StreamPacket,
};
use crate::payment::StreamPayment;
use crate::text::append_utf8;
use vstd::prelude::*;

verus! {

/// What the congestion controller has to be told of a packet that was answered
#[derive(Debug, Clone, Copy, PartialEq, Eq, Structural)]
pub enum CongestionUpdate {
    /// A packet with the given source amount was fulfilled
    Fulfill(u64),
    /// A packet with the given source amount was rejected
    Reject(u64),
}

/// What became of a packet that was answered
#[derive(Debug)]
pub struct ReplyOutcome {
    /// What to tell the congestion controller
    pub congestion: CongestionUpdate,
    /// An error stops the payment
    pub result: Result<(), Error>,
}

/// The larger of two amounts.
pub open spec fn larger(a: u64, b: u64) -> u64 {
    if a >= b {
        a
    } else {
        b
    }
}

/// The STREAM packet of a reply could be read, answers the request with the given sequence number,
/// and does not claim a rejection where the packet was fulfilled.
pub open spec fn credible(
    sequence: u64,
    packet_type: IlpPacketType,
    stream_reply: Option<StreamPacket>,
) -> bool {
    &&& stream_reply is Some
    &&& stream_reply->0.sequence == sequence
    &&& !(stream_reply->0.ilp_packet_type == IlpPacketType::Reject && packet_type
        == IlpPacketType::Fulfill)
}

/// The amount that the recipient claims they received.
pub open spec fn claimed_amount(
    sequence: u64,
    packet_type: IlpPacketType,
    stream_reply: Option<StreamPacket>,
) -> u64 {
    if credible(sequence, packet_type, stream_reply) {
        stream_reply->0.prepare_amount
    } else {
        0
    }
}

/// The amount that a fulfilled packet delivered, at least what the request demanded.
pub open spec fn delivered_by(
    sent: OutgoingPacket,
    reply: IlpReply,
    stream_reply: Option<StreamPacket>,
) -> u64 {
    larger(
        sent.packet.prepare_amount,
        claimed_amount(sent.packet.sequence, reply.spec_packet_type(), stream_reply),
    )
}

/// What the congestion controller has to be told of a reply.
pub open spec fn congestion_update(sent: OutgoingPacket, reply: IlpReply) -> CongestionUpdate {
    match reply {
        IlpReply::Fulfill => CongestionUpdate::Fulfill(sent.amount),
        IlpReply::Reject(_) => CongestionUpdate::Reject(sent.amount),
    }
}

/// The payment goes on after this rejection: the error is temporary, or one that the congestion
/// controller or the recipient is responsible for.
pub open spec fn tolerated(reject: Reject) -> bool {
    ||| crate::packet::error_class(reject.code.bytes@[0]) == ErrorClass::Temporary
    ||| reject.code.is_f08()
    ||| reject.code.is_f99()
}

/// Why the payment is stopped by a rejection.
pub open spec fn reject_message(reject: Reject) -> Seq<char> {
    "Packet was rejected with error: "@ + reject.code_text@ + " "@ + crate::text::utf8_or_empty(
        reject.message@,
    )
}

/// `result` is success unless the reply is a rejection that is not tolerated.
pub open spec fn reply_result(reply: IlpReply, result: Result<(), Error>) -> bool {
    match reply {
        IlpReply::Fulfill => result is Ok,
        IlpReply::Reject(reject) => if tolerated(reject) {
            result is Ok
        } else {
            result matches Err(Error::SendMoneyError(message)) && message@ == reject_message(reject)
        },
    }
}

/// The rejection that the payment is stopped by after a reply: the first that is not tolerated.
pub open spec fn stopped_by(before: Option<Reject>, reply: IlpReply) -> Option<Reject> {
    match reply {
        IlpReply::Reject(reject) if before is None && !tolerated(reject) => Some(reject),
        _ => before,
    }
}

/// The error of a payment that is stopped by a rejection.
pub fn reject_error(reject: &Reject) -> (r: Error)
    ensures
        r matches Error::SendMoneyError(message) && message@ == reject_message(*reject),
{
    let mut message = "Packet was rejected with error: ".to_owned();
    message.append(reject.code_text.as_str());
    message.append(" ");
    append_utf8(&mut message, &reject.message);
    Error::SendMoneyError(message)
}

/// Does the payment go on after this rejection?
pub fn check_reject(reject: &Reject) -> (r: Result<(), Error>)
    ensures
        reply_result(IlpReply::Reject(*reject), r),
{
    if reject.code.class() == ErrorClass::Temporary {
        Ok(())
    } else if reject.code.is_amount_too_large() {
        // Handled by the congestion controller
        Ok(())
    } else if reject.code.is_application_error() {
        Ok(())
    } else {
        // Any other error will stop the rest of the payment
        Err(reject_error(reject))
    }
}

/// The last asset details in a list of frames.
pub fn find_asset_details(frames: &Vec<Frame>) -> (r: Option<&ConnectionAssetDetailsFrame>)
    ensures
        r is Some <==> crate::packet::last_asset_details(frames@) is Some,
        r matches Some(details) ==> crate::packet::last_asset_details(frames@) == Some(*details),
{
    let mut found: Option<&ConnectionAssetDetailsFrame> = None;
    let mut i: usize = 0;
    while i < frames.len()
        invariant
            i <= frames.len(),
            found is Some <==> crate::packet::last_asset_details(frames@.take(i as int)) is Some,
            found matches Some(details) ==> crate::packet::last_asset_details(frames@.take(i as int))
                == Some(*details),
        decreases frames.len() - i,
    {
        assert(frames@.take(i + 1).drop_last() == frames@.take(i as int));
        if let Frame::ConnectionAssetDetails(details) = &frames[i] {
            found = Some(details);
        }
        i += 1;
    }
    assert(frames@.take(frames@.len() as int) == frames@);
    found
}

impl StreamPayment {
    /// The payment after the STREAM packet of a reply was read.
    pub open spec fn after_stream_reply(
        self,
        sequence: u64,
        packet_type: IlpPacketType,
        stream_reply: Option<StreamPacket>,
    ) -> StreamPayment {
        if credible(sequence, packet_type, stream_reply) {
            let known = StreamPayment { should_send_source_account: false, ..self };
            match crate::packet::last_asset_details(stream_reply->0.frames@) {
                Some(details) if self.receipt.destination_asset_scale is None =>
                    known.with_destination_asset(
                    details.source_asset_code,
                    details.source_asset_scale,
                ),
                _ => known,
            }
        } else {
            self
        }
    }

    /// Read the STREAM packet of a reply, and return the amount the recipient claims they received.
    /// `stream_reply` is absent if the data of the reply could not be decrypted or parsed.
    pub fn apply_stream_reply(
        &mut self,
        sequence: u64,
        packet_type: IlpPacketType,
        stream_reply: &Option<StreamPacket>,
    ) -> (claimed: u64)
        ensures
            claimed == claimed_amount(sequence, packet_type, *stream_reply),
            *final(self) == old(self).after_stream_reply(sequence, packet_type, *stream_reply),
    {
        match stream_reply {
            Some(packet) => {
                if packet.sequence != sequence {
                    // Discard replayed STREAM packet
                    0
                } else if packet.ilp_packet_type == IlpPacketType::Reject && packet_type
                    == IlpPacketType::Fulfill {
                    // If receiver claimed they sent a Reject but we got a Fulfill, they lied!
                    // If receiver said they sent a Fulfill but we got a Reject, that's possible
                    0
                } else {
                    // Since we decrypted the response, the recipient read the request packet and knows our account
                    self.should_send_source_account = false;

                    // Update the destination asset scale & code, which do not change later on
                    if self.receipt.destination_asset_scale.is_none() {
                        match find_asset_details(&packet.frames) {
                            Some(details) => self.set_destination_asset_details(
                                details.source_asset_code.clone(),
                                details.source_asset_scale,
                            ),
                            None => {},
                        }
                    }
                    packet.prepare_amount
                }
            },
            None => 0,
        }
    }

    /// The payment after a packet was answered at the time `now`.
    pub open spec fn after_reply(
        self,
        sent: OutgoingPacket,
        reply: IlpReply,
        stream_reply: Option<StreamPacket>,
        now: u128,
    ) -> StreamPayment {
        let read = self.after_stream_reply(
            sent.packet.sequence,
            reply.spec_packet_type(),
            stream_reply,
        );
        match reply {
            IlpReply::Fulfill => read.after_fulfill(
                sent.amount,
                delivered_by(sent, reply, stream_reply),
                now,
            ),
            IlpReply::Reject(_) => StreamPayment {
                stopped: stopped_by(self.stopped, reply),
                ..read.after_reject(sent.amount)
            },
        }
    }

    /// Apply the Fulfill or Reject that came back for a packet.
    pub fn apply_reply(
        &mut self,
        sent: &OutgoingPacket,
        reply: IlpReply,
        stream_reply: &Option<StreamPacket>,
        now: u128,
    ) -> (r: ReplyOutcome)
        requires
            reply is Fulfill ==> old(self).fulfilled_packets < u64::MAX,
            reply is Reject ==> old(self).rejected_packets < u64::MAX,
        ensures
            *final(self) == old(self).after_reply(*sent, reply, *stream_reply, now),
            r.congestion == congestion_update(*sent, reply),
            reply_result(reply, r.result),
            r.result is Err ==> final(self).stopped is Some,
            old(self).stopped is Some ==> final(self).stopped == old(self).stopped,
            old(self).accounted() ==> final(self).accounted(),
            old(self).receipt.destination_asset_scale is Some ==> {
                &&& final(self).receipt.destination_asset_scale
                    == old(self).receipt.destination_asset_scale
                &&& final(self).receipt.destination_asset_code
                    == old(self).receipt.destination_asset_code
            },
            !old(self).should_send_source_account ==> !final(self).should_send_source_account,
    {
        let claimed_amount = self.apply_stream_reply(
            sent.packet.sequence,
            reply.packet_type(),
            stream_reply,
        );
        match reply {
            // Handle ILP Fulfill
            IlpReply::Fulfill => {
                // Delivered amount must be *at least* the minimum acceptable amount we told the receiver
                // Even if the data was invalid, since it was fulfilled, we must assume they got at least the minimum
                let delivered_amount = if sent.packet.prepare_amount >= claimed_amount {
                    sent.packet.prepare_amount
                } else {
                    claimed_amount
                };
                self.apply_fulfill(sent.amount, delivered_amount, now);
                ReplyOutcome { congestion: CongestionUpdate::Fulfill(sent.amount), result: Ok(()) }
            },
            // Handle ILP Reject
            IlpReply::Reject(reject) => {
                self.apply_reject(sent.amount);
                let result = check_reject(&reject);
                if result.is_err() && self.stopped.is_none() {
                    self.stopped = Some(reject);
                }
                ReplyOutcome { congestion: CongestionUpdate::Reject(sent.amount), result }
            },
        }
    }
}

} // verus!
