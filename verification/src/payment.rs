//! State of a payment: amounts & assets sent and received, sequence, and packet counts.
//!
//! How much may be in flight is the business of a congestion controller, which lives outside this
//! module: methods that depend on it take its current limit as `max_amount`. Times are nanoseconds
//! on the clock of the payment.
use crate::delivery::StreamDelivery;
use crate::error::Error;
use crate::packet::Reject;
use crate::reply::reject_error;
use crate::text::append_decimal;
use vstd::prelude::*;

verus! {

/// Maximum time we should wait since last fulfill before we error out to avoid
/// getting into an infinite loop of sending packets and effectively DoSing ourselves,
/// in nanoseconds
pub const MAX_TIME_SINCE_LAST_FULFILL: u128 = 30_000_000_000;

/// Minimum number of packet attempts before defaulting to failure rate
pub const FAIL_FAST_MINIMUM_PACKET_ATTEMPTS: u64 = 200;

/// Minimum rate of rejected packets in order to terminate the payment, in percent
pub const FAIL_FAST_MINIMUM_FAILURE_PERCENT: u128 = 99;

/// Stream payment mutable state: amounts & assets sent and received, sequence, and packet counts
#[derive(Debug)]
pub struct StreamPayment {
    /// The receipt to account for the delivered amounts
    pub receipt: StreamDelivery,
    /// Do we need to send our source account information to the recipient?
    pub should_send_source_account: bool,
    /// Monotonically increasing sequence number for this STREAM payment
    pub sequence: u64,
    /// Number of fulfilled packets throughout the STREAM payment
    pub fulfilled_packets: u64,
    /// Number of rejected packets throughout the STREAM payment
    pub rejected_packets: u64,
    /// Time when a packet was last fulfilled for this payment
    pub last_fulfill_time: u128,
    /// The first rejection after which the rest of the payment is not sent
    pub stopped: Option<Reject>,
    /// Was the packet made that tells the recipient the connection is closed?
    pub closed: bool,
}

/// Actions corresponding to the state of the payment
#[derive(Debug, Clone, Copy, PartialEq, Eq, Structural)]
pub enum PaymentEvent {
    /// Send more money: send a packet with the given amount
    SendMoney(u64),
    /// Congestion controller has limited the amount in flight: wait for pending request to complete
    MaxInFlight,
    /// Send full source amount: close the connection and return success
    CloseConnection,
    /// Maximum timeout since last fulfill has elapsed: terminate the payment
    Timeout,
    /// Too many packets are rejected, such as if the exchange rate is too low: terminate the payment
    FailFast,
    /// A packet was rejected with an error that stops the payment: terminate the payment
    Stopped,
}

/// `a - b`, or zero if that is negative.
pub open spec fn monus(a: u64, b: u64) -> u64 {
    if a >= b {
        (a - b) as u64
    } else {
        0
    }
}

/// `a + b`, or the largest `u64` if that is exceeded.
pub open spec fn capped_sum(a: u64, b: u64) -> u64 {
    if a + b <= u64::MAX {
        (a + b) as u64
    } else {
        u64::MAX
    }
}

/// The smaller of two amounts.
pub open spec fn smaller(a: u64, b: u64) -> u64 {
    if a <= b {
        a
    } else {
        b
    }
}

impl StreamPayment {
    /// No more than what is sent is in flight, and no more is sent than intended.
    pub open spec fn accounted(self) -> bool {
        self.receipt.in_flight_amount <= self.receipt.sent_amount <= self.receipt.source_amount
    }

    /// Number of packets that have been answered.
    pub open spec fn answered_packets(self) -> int {
        self.fulfilled_packets + self.rejected_packets
    }

    /// Amount of money fulfilled in source units.
    pub open spec fn fulfilled_amount(self) -> u64 {
        monus(self.receipt.sent_amount, self.receipt.in_flight_amount)
    }

    /// Amount that must still be fulfilled for the payment to complete.
    pub open spec fn remaining_amount(self) -> u64 {
        monus(self.receipt.source_amount, self.fulfilled_amount())
    }

    /// Amount that is neither fulfilled nor in flight.
    pub open spec fn available_amount(self) -> u64 {
        monus(self.receipt.source_amount, self.receipt.sent_amount)
    }

    /// Amount of the next Prepare, if the congestion controller admits `max_amount`.
    pub open spec fn next_amount(self, max_amount: u64) -> u64 {
        smaller(self.available_amount(), max_amount)
    }

    /// Nothing can be sent for now.
    pub open spec fn max_in_flight(self, max_amount: u64) -> bool {
        max_amount == 0 || self.available_amount() == 0
    }

    /// Enough packets were answered, and at least 99 percent of them were rejected.
    pub open spec fn failing(self) -> bool {
        &&& self.answered_packets() >= FAIL_FAST_MINIMUM_PACKET_ATTEMPTS
        &&& self.rejected_packets * 100 >= FAIL_FAST_MINIMUM_FAILURE_PERCENT
            * self.answered_packets()
    }

    /// It is at least 30 seconds since a packet was last fulfilled.
    pub open spec fn timed_out(self, now: u128) -> bool {
        now - self.last_fulfill_time >= MAX_TIME_SINCE_LAST_FULFILL
    }

    /// The payment after a packet of the given amount was put in flight.
    pub open spec fn after_prepare(self, amount: u64) -> StreamPayment {
        StreamPayment {
            receipt: StreamDelivery {
                sent_amount: capped_sum(self.receipt.sent_amount, amount),
                in_flight_amount: capped_sum(self.receipt.in_flight_amount, amount),
                ..self.receipt
            },
            ..self
        }
    }

    /// The payment after a packet was fulfilled at the time `now`.
    pub open spec fn after_fulfill(
        self,
        source_amount: u64,
        destination_amount: u64,
        now: u128,
    ) -> StreamPayment {
        StreamPayment {
            receipt: StreamDelivery {
                in_flight_amount: monus(self.receipt.in_flight_amount, source_amount),
                delivered_amount: capped_sum(self.receipt.delivered_amount, destination_amount),
                ..self.receipt
            },
            last_fulfill_time: now,
            fulfilled_packets: (self.fulfilled_packets + 1) as u64,
            ..self
        }
    }

    /// The payment after a packet was rejected.
    pub open spec fn after_reject(self, amount: u64) -> StreamPayment {
        StreamPayment {
            receipt: StreamDelivery {
                sent_amount: monus(self.receipt.sent_amount, amount),
                in_flight_amount: monus(self.receipt.in_flight_amount, amount),
                ..self.receipt
            },
            rejected_packets: (self.rejected_packets + 1) as u64,
            ..self
        }
    }

    /// What to do next, at the time `now`.
    pub open spec fn event(self, now: u128, max_amount: u64) -> PaymentEvent {
        if self.timed_out(now) {
            PaymentEvent::Timeout
        } else if self.failing() {
            PaymentEvent::FailFast
        } else if self.stopped is Some {
            PaymentEvent::Stopped
        } else if self.remaining_amount() == 0 {
            PaymentEvent::CloseConnection
        } else if self.max_in_flight(max_amount) {
            PaymentEvent::MaxInFlight
        } else {
            PaymentEvent::SendMoney(self.next_amount(max_amount))
        }
    }

    /// The payment once `event` has been chosen: money to send is put in flight.
    pub open spec fn after_event(self, event: PaymentEvent) -> StreamPayment {
        match event {
            PaymentEvent::SendMoney(amount) => self.after_prepare(amount),
            _ => self,
        }
    }

    /// Account for and return amount to send in the next Prepare
    pub fn apply_prepare(&mut self, max_amount: u64) -> (amount: u64)
        ensures
            amount == old(self).next_amount(max_amount),
            *final(self) == old(self).after_prepare(amount),
            old(self).accounted() ==> final(self).accounted(),
    {
        let available = self.get_amount_available_to_send();
        let amount = if available <= max_amount {
            available
        } else {
            max_amount
        };

        self.receipt.sent_amount = self.receipt.sent_amount.saturating_add(amount);
        self.receipt.in_flight_amount = self.receipt.in_flight_amount.saturating_add(amount);
        amount
    }

    /// Account for a fulfilled packet
    pub fn apply_fulfill(&mut self, source_amount: u64, destination_amount: u64, now: u128)
        requires
            old(self).fulfilled_packets < u64::MAX,
        ensures
            *final(self) == old(self).after_fulfill(source_amount, destination_amount, now),
            old(self).accounted() ==> final(self).accounted(),
            old(self).accounted() && source_amount <= old(self).receipt.in_flight_amount ==> {
                &&& final(self).fulfilled_amount() == old(self).fulfilled_amount() + source_amount
                &&& final(self).remaining_amount() == old(self).remaining_amount() - source_amount
                &&& final(self).available_amount() == old(self).available_amount()
            },
    {
        self.receipt.in_flight_amount = self.receipt.in_flight_amount.saturating_sub(source_amount);
        self.receipt.delivered_amount =
            self.receipt.delivered_amount.saturating_add(destination_amount);

        self.last_fulfill_time = now;
        self.fulfilled_packets += 1;
    }

    /// Account for a rejected packet
    pub fn apply_reject(&mut self, amount: u64)
        requires
            old(self).rejected_packets < u64::MAX,
        ensures
            *final(self) == old(self).after_reject(amount),
            old(self).accounted() ==> final(self).accounted(),
            old(self).accounted() && amount <= old(self).receipt.in_flight_amount ==> {
                &&& final(self).fulfilled_amount() == old(self).fulfilled_amount()
                &&& final(self).available_amount() == old(self).available_amount() + amount
            },
    {
        self.receipt.sent_amount = self.receipt.sent_amount.saturating_sub(amount);
        self.receipt.in_flight_amount = self.receipt.in_flight_amount.saturating_sub(amount);

        self.rejected_packets += 1;
    }

    /// Amount of money fulfilled in source units
    pub fn get_fulfilled_amount(&self) -> (r: u64)
        ensures
            r == self.fulfilled_amount(),
    {
        self.receipt.sent_amount.saturating_sub(self.receipt.in_flight_amount)
    }

    /// Get remaining amount that must be fulfilled for the payment to complete
    pub fn get_remaining_amount(&self) -> (r: u64)
        ensures
            r == self.remaining_amount(),
    {
        self.receipt.source_amount.saturating_sub(self.get_fulfilled_amount())
    }

    /// Has the entire intended source amount been fulfilled by the recipient?
    pub fn is_complete(&self) -> (r: bool)
        ensures
            r == (self.remaining_amount() == 0),
    {
        self.get_remaining_amount() == 0
    }

    /// Return the amount of money available to be sent in the payment (amount remaining minus in-flight)
    pub fn get_amount_available_to_send(&self) -> (r: u64)
        ensures
            r == self.available_amount(),
    {
        // Sent amount also includes the amount in-flight, which should be subtracted from the amount available
        self.receipt.source_amount.saturating_sub(self.receipt.sent_amount)
    }

    /// Is as much money as possible in-flight?
    /// (If so, the intended source amount may be fulfilled or in-flight, or the congestion controller
    /// has temporarily limited sending more money)
    pub fn is_max_in_flight(&self, max_amount: u64) -> (r: bool)
        ensures
            r == self.max_in_flight(max_amount),
    {
        max_amount == 0 || self.get_amount_available_to_send() == 0
    }

    /// Given we've attempted sending enough packets, does our rejected packet rate indicate the payment is failing?
    pub fn is_failing(&self) -> (r: bool)
        requires
            self.answered_packets() <= u64::MAX,
        ensures
            r == self.failing(),
    {
        let num_packets: u64 = self.fulfilled_packets + self.rejected_packets;
        num_packets >= FAIL_FAST_MINIMUM_PACKET_ATTEMPTS && self.rejected_packets as u128 * 100
            >= FAIL_FAST_MINIMUM_FAILURE_PERCENT * num_packets as u128
    }

    /// Has it been too long since a packet was fulfilled?
    pub fn is_timed_out(&self, now: u128) -> (r: bool)
        ensures
            r == self.timed_out(now),
    {
        now >= self.last_fulfill_time && now - self.last_fulfill_time >= MAX_TIME_SINCE_LAST_FULFILL
    }

    /// Decide what to do next. If that is to send money, the amount is put in flight.
    pub fn next_event(&mut self, now: u128, max_amount: u64) -> (event: PaymentEvent)
        requires
            old(self).answered_packets() <= u64::MAX,
        ensures
            event == old(self).event(now, max_amount),
            *final(self) == old(self).after_event(event),
            old(self).stopped is Some ==> event is Timeout || event is FailFast || event is Stopped,
            old(self).accounted() ==> final(self).accounted(),
    {
        if self.is_timed_out(now) {
            PaymentEvent::Timeout
        } else if self.is_failing() {
            PaymentEvent::FailFast
        } else if self.stopped.is_some() {
            PaymentEvent::Stopped
        } else if self.is_complete() {
            PaymentEvent::CloseConnection
        } else if self.is_max_in_flight(max_amount) {
            PaymentEvent::MaxInFlight
        } else {
            PaymentEvent::SendMoney(self.apply_prepare(max_amount))
        }
    }

    /// The payment after the recipient told its asset.
    pub open spec fn with_destination_asset(
        self,
        asset_code: String,
        asset_scale: u8,
    ) -> StreamPayment {
        StreamPayment {
            receipt: StreamDelivery {
                destination_asset_code: Some(asset_code),
                destination_asset_scale: Some(asset_scale),
                ..self.receipt
            },
            ..self
        }
    }

    /// Save the recipient's destination asset details for calculating minimum exchange rates
    pub fn set_destination_asset_details(&mut self, asset_code: String, asset_scale: u8)
        ensures
            *final(self) == old(self).with_destination_asset(asset_code, asset_scale),
    {
        self.receipt.destination_asset_code = Some(asset_code);
        self.receipt.destination_asset_scale = Some(asset_scale);
    }

    /// The payment once the current sequence number has been used.
    pub open spec fn after_sequence(self) -> StreamPayment {
        StreamPayment { sequence: (self.sequence + 1) as u64, ..self }
    }

    /// The payment once the packet that closes the connection has been made.
    pub open spec fn after_close(self) -> StreamPayment {
        StreamPayment { closed: true, ..self.after_sequence() }
    }

    /// Return the current sequence number and increment the value for subsequent packets
    pub fn next_sequence(&mut self) -> (r: u64)
        requires
            old(self).sequence < u64::MAX,
        ensures
            r == old(self).sequence,
            *final(self) == old(self).after_sequence(),
    {
        let seq = self.sequence;
        self.sequence += 1;
        seq
    }

    /// Why the payment is terminated when too many packets are rejected.
    pub open spec fn fail_fast_message(self) -> Seq<char> {
        "Terminating payment since too many packets are rejected ("@ + crate::text::decimal(
            self.fulfilled_packets as nat,
        ) + " packets fulfilled, "@ + crate::text::decimal(self.rejected_packets as nat)
            + " packets rejected)"@
    }

    /// `result` is what a payment ends with on the given event: an error after a timeout, too many
    /// rejections or one that stops the payment, the receipt once everything is fulfilled and the
    /// connection is closed, and nothing as long as the payment goes on.
    pub open spec fn concluded(
        self,
        event: PaymentEvent,
        result: Option<Result<StreamDelivery, Error>>,
    ) -> bool {
        match event {
            PaymentEvent::Timeout => result matches Some(Err(Error::TimeoutError(message)))
                && message@ == "Time since last fulfill exceeded the maximum time limit"@,
            PaymentEvent::FailFast => result matches Some(Err(Error::SendMoneyError(message)))
                && message@ == self.fail_fast_message(),
            PaymentEvent::Stopped => match self.stopped {
                Some(reject) => result matches Some(Err(Error::SendMoneyError(message)))
                    && message@ == crate::reply::reject_message(reject),
                None => result is None,
            },
            PaymentEvent::CloseConnection => if self.closed {
                result == Some(Ok::<StreamDelivery, Error>(self.receipt))
            } else {
                result is None
            },
            PaymentEvent::SendMoney(_) => result is None,
            PaymentEvent::MaxInFlight => result is None,
        }
    }

    /// What the payment ends with on the given event, if it does end.
    pub fn conclude(&self, event: PaymentEvent) -> (r: Option<Result<StreamDelivery, Error>>)
        ensures
            self.concluded(event, r),
    {
        match event {
            PaymentEvent::Timeout => {
                let message = "Time since last fulfill exceeded the maximum time limit".to_owned();
                Some(Err(Error::TimeoutError(message)))
            },
            PaymentEvent::FailFast => {
                let mut message =
                    "Terminating payment since too many packets are rejected (".to_owned();
                append_decimal(&mut message, self.fulfilled_packets);
                message.append(" packets fulfilled, ");
                append_decimal(&mut message, self.rejected_packets);
                message.append(" packets rejected)");
                Some(Err(Error::SendMoneyError(message)))
            },
            PaymentEvent::Stopped => match &self.stopped {
                Some(reject) => Some(Err(reject_error(reject))),
                None => None,
            },
            PaymentEvent::CloseConnection => {
                // The recipient has to be told first
                if self.closed {
                    Some(Ok(self.receipt.clone()))
                } else {
                    None
                }
            },
            PaymentEvent::SendMoney(_) => None,
            PaymentEvent::MaxInFlight => None,
        }
    }
}

} // verus!
