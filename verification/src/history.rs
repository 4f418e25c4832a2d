//! Whole runs of a payment, with several packets on their way at a time.
use crate::delivery::{Account, StreamDelivery};
use crate::error::Error;
use crate::packet::{IlpReply, OutgoingPacket, StreamPacket};
use crate::payment::{PaymentEvent, StreamPayment};
use crate::rates::Prices;
use crate::rational::Rational;
use vstd::prelude::*;

verus! {

/// A payment together with what happened to its packets.
pub ghost struct History {
    /// State of the payment
    pub payment: StreamPayment,
    /// Maximum acceptable slippage
    pub slippage: Option<Rational>,
    /// Amounts that were decided to be sent, and for which no packet has been made yet
    pub ordered: Seq<u64>,
    /// All packets that were made to carry money, in that order
    pub made: Seq<OutgoingPacket>,
    /// The packets among them that have not been answered yet
    pub pending: Seq<OutgoingPacket>,
    /// Sum of the amounts of all packets that were fulfilled
    pub fulfilled: int,
    /// Sum of what the fulfilled packets delivered, in destination units
    pub delivered: int,
    /// The decision that ends the payment, after which nothing else is decided
    pub ending: Option<PaymentEvent>,
    /// The packet that was made to close the connection
    pub close: Option<OutgoingPacket>,
    /// What the payment ended with
    pub result: Option<Result<StreamDelivery, Error>>,
}

/// Something that happens to a payment.
pub ghost enum Step {
    /// The sender decides what to do
    Decide { now: u128, max_amount: u64 },
    /// The packet is made for the amount at the given place of the ordered ones
    Make { index: int, prices: Option<Prices>, outgoing: OutgoingPacket },
    /// The packet at the given place of the pending ones is answered
    Answer { index: int, reply: IlpReply, stream_reply: Option<StreamPacket>, now: u128 },
    /// The packet is made that closes the connection
    Close { outgoing: OutgoingPacket },
    /// The payment ends with the given result
    Conclude { result: Result<StreamDelivery, Error> },
}

/// The sum of some amounts.
pub open spec fn total(amounts: Seq<u64>) -> int
    decreases amounts.len(),
{
    if amounts.len() == 0 {
        0
    } else {
        amounts[0] + total(amounts.drop_first())
    }
}

/// The amounts that some packets carry.
pub open spec fn amounts(packets: Seq<OutgoingPacket>) -> Seq<u64> {
    packets.map_values(|packet: OutgoingPacket| packet.amount)
}

/// `n`, or the largest `u64` if that is less.
pub open spec fn capped(n: int) -> int {
    if n <= u64::MAX {
        n
    } else {
        u64::MAX as int
    }
}

impl History {
    /// A payment of which nothing has been sent yet.
    pub open spec fn opened(
        account: Account,
        destination: String,
        source_amount: u64,
        slippage: Option<Rational>,
    ) -> History {
        History {
            payment: crate::sender::opened_payment(account, destination, source_amount),
            slippage,
            ordered: Seq::empty(),
            made: Seq::empty(),
            pending: Seq::empty(),
            fulfilled: 0,
            delivered: 0,
            ending: None,
            close: None,
            result: None,
        }
    }

    /// It was decided to close the connection.
    pub open spec fn closing(self) -> bool {
        self.ending == Some(PaymentEvent::CloseConnection)
    }

    /// Packets are made only for what was decided, once each, and only those that are pending are
    /// answered. A packet that is made has the next sequence number, as long as there is one; none
    /// is made to carry money once the payment has been stopped. The payment ends with what its
    /// last decision calls for.
    pub open spec fn admits(self, step: Step) -> bool {
        match step {
            Step::Decide { .. } => self.ending is None,
            Step::Make { index, prices, outgoing } => {
                &&& 0 <= index < self.ordered.len()
                &&& self.payment.stopped is None ==> {
                    &&& self.payment.sequence < u64::MAX
                    &&& self.payment.money_packet(
                        self.ordered[index],
                        prices,
                        self.slippage,
                        outgoing,
                    )
                }
            },
            Step::Answer { index, .. } => 0 <= index < self.pending.len(),
            Step::Close { outgoing } => {
                &&& self.closing()
                &&& self.close is None
                &&& self.payment.sequence < u64::MAX
                &&& self.payment.close_packet(outgoing)
            },
            Step::Conclude { result } => {
                &&& self.ending is Some
                &&& self.result is None
                &&& self.payment.concluded(self.ending->0, Some(result))
            },
        }
    }

    /// The payment after a step.
    pub open spec fn after(self, step: Step) -> History {
        match step {
            Step::Decide { now, max_amount } => {
                let event = self.payment.event(now, max_amount);
                History {
                    payment: self.payment.after_event(event),
                    ordered: match event {
                        PaymentEvent::SendMoney(amount) => self.ordered.push(amount),
                        _ => self.ordered,
                    },
                    ending: match event {
                        PaymentEvent::SendMoney(_) => None,
                        PaymentEvent::MaxInFlight => None,
                        _ => Some(event),
                    },
                    ..self
                }
            },
            Step::Make { index, outgoing, .. } => if self.payment.stopped is Some {
                self
            } else {
                History {
                    payment: self.payment.after_sequence(),
                    ordered: self.ordered.remove(index),
                    made: self.made.push(outgoing),
                    pending: self.pending.push(outgoing),
                    ..self
                }
            },
            Step::Answer { index, reply, stream_reply, now } => {
                let sent = self.pending[index];
                History {
                    payment: self.payment.after_reply(sent, reply, stream_reply, now),
                    pending: self.pending.remove(index),
                    fulfilled: self.fulfilled + if reply is Fulfill {
                        sent.amount as int
                    } else {
                        0
                    },
                    delivered: self.delivered + if reply is Fulfill {
                        crate::reply::delivered_by(sent, reply, stream_reply) as int
                    } else {
                        0
                    },
                    ..self
                }
            },
            Step::Close { outgoing } => History {
                payment: self.payment.after_close(),
                close: Some(outgoing),
                ..self
            },
            Step::Conclude { result } => History { result: Some(result), ..self },
        }
    }

    /// The payment after some steps.
    pub open spec fn after_all(self, steps: Seq<Step>) -> History
        decreases steps.len(),
    {
        if steps.len() == 0 {
            self
        } else {
            self.after_all(steps.drop_last()).after(steps.last())
        }
    }

    /// Every step is possible when it is taken.
    pub open spec fn admits_all(self, steps: Seq<Step>) -> bool
        decreases steps.len(),
    {
        steps.len() > 0 ==> {
            &&& self.admits_all(steps.drop_last())
            &&& self.after_all(steps.drop_last()).admits(steps.last())
        }
    }

    /// The receipt agrees with what happened to the packets.
    pub open spec fn balanced(self) -> bool {
        &&& self.payment.accounted()
        &&& self.payment.receipt.in_flight_amount == total(self.ordered) + total(
            amounts(self.pending),
        )
        &&& self.payment.fulfilled_amount() == self.fulfilled
        &&& self.payment.receipt.delivered_amount == capped(self.delivered)
    }

    /// The packet carries some money, no more than intended, to the given destination.
    pub open spec fn carries_money(
        packet: OutgoingPacket,
        destination: String,
        source_amount: u64,
    ) -> bool {
        packet.destination == destination && 1 <= packet.amount <= source_amount
    }

    /// The packets that carry money go to the destination and are numbered from one, in the order
    /// in which they are made; the one that closes the connection carries none, and its number is
    /// the next.
    pub open spec fn numbered(self, destination: String, source_amount: u64) -> bool {
        &&& forall|i: int|
            0 <= i < self.made.len() ==> {
                &&& Self::carries_money(#[trigger] self.made[i], destination, source_amount)
                &&& self.made[i].packet.sequence == i + 1
            }
        &&& self.close matches Some(close) ==> {
            &&& close.destination == destination
            &&& close.amount == 0
            &&& close.packet.sequence == self.made.len() + 1
        }
        &&& self.payment.sequence == self.made.len() + 1 + if self.close is Some {
            1int
        } else {
            0
        }
    }

    /// Sender, receiver, source asset and intended amount are those that the payment was opened with.
    pub open spec fn as_opened(
        receipt: StreamDelivery,
        account: Account,
        destination: String,
        source_amount: u64,
    ) -> bool {
        &&& receipt.from == account.ilp_address
        &&& receipt.to == destination
        &&& receipt.source_asset_scale == account.asset_scale
        &&& receipt.source_asset_code == account.asset_code
        &&& receipt.source_amount == source_amount
    }

    /// What every run keeps.
    spec fn sound(self, account: Account, destination: String, source_amount: u64) -> bool {
        &&& self.balanced()
        &&& self.numbered(destination, source_amount)
        &&& Self::as_opened(self.payment.receipt, account, destination, source_amount)
        &&& self.delivered >= 0
        &&& forall|i: int|
            0 <= i < self.ordered.len() ==> 1 <= #[trigger] self.ordered[i] <= source_amount
        &&& forall|i: int|
            0 <= i < self.pending.len() ==> Self::carries_money(
                #[trigger] self.pending[i],
                destination,
                source_amount,
            )
        &&& self.payment.closed <==> self.close is Some
        &&& self.close is Some ==> self.closing()
        &&& self.closing() ==> {
            &&& self.payment.stopped is None
            &&& self.fulfilled == source_amount
            &&& self.ordered.len() == 0
            &&& self.pending.len() == 0
        }
        &&& self.result is Some ==> self.ending is Some
        &&& self.result matches Some(Ok(receipt)) ==> {
            &&& self.close is Some
            &&& receipt == self.payment.receipt
        }
        &&& self.result matches Some(Err(_)) ==> !self.closing()
    }
}

proof fn lemma_total_push(amounts: Seq<u64>, amount: u64)
    ensures
        total(amounts.push(amount)) == total(amounts) + amount,
    decreases amounts.len(),
{
    reveal_with_fuel(total, 2);
    if amounts.len() == 0 {
        assert(amounts.push(amount).drop_first() == Seq::<u64>::empty());
    } else {
        assert(amounts.push(amount).drop_first() == amounts.drop_first().push(amount));
        lemma_total_push(amounts.drop_first(), amount);
    }
}

proof fn lemma_total_remove(amounts: Seq<u64>, index: int)
    requires
        0 <= index < amounts.len(),
    ensures
        total(amounts.remove(index)) == total(amounts) - amounts[index],
    decreases amounts.len(),
{
    if index == 0 {
        assert(amounts.remove(0) == amounts.drop_first());
    } else {
        assert(amounts.remove(index).drop_first() == amounts.drop_first().remove(index - 1));
        lemma_total_remove(amounts.drop_first(), index - 1);
    }
}

proof fn lemma_total_bounds(amounts: Seq<u64>)
    ensures
        total(amounts) >= 0,
        forall|i: int| 0 <= i < amounts.len() ==> #[trigger] amounts[i] <= total(amounts),
    decreases amounts.len(),
{
    if amounts.len() > 0 {
        let rest = amounts.drop_first();
        lemma_total_bounds(rest);
        assert forall|i: int| 0 <= i < amounts.len() implies #[trigger] amounts[i] <= total(
            amounts,
        ) by {
            if i > 0 {
                assert(rest[i - 1] == amounts[i]);
            }
        }
    }
}

proof fn lemma_nothing_left_to_close(
    h: History,
    account: Account,
    destination: String,
    source_amount: u64,
)
    requires
        h.sound(account, destination, source_amount),
        h.payment.remaining_amount() == 0,
    ensures
        h.fulfilled == source_amount,
        h.ordered.len() == 0,
        h.pending.len() == 0,
{
    lemma_total_bounds(h.ordered);
    lemma_total_bounds(amounts(h.pending));
    if h.ordered.len() > 0 {
        assert(h.ordered[0] >= 1);
    }
    if h.pending.len() > 0 {
        assert(History::carries_money(h.pending[0], destination, source_amount));
        assert(amounts(h.pending)[0] == h.pending[0].amount);
    }
}

proof fn lemma_step_is_sound(
    h: History,
    step: Step,
    account: Account,
    destination: String,
    source_amount: u64,
)
    requires
        h.sound(account, destination, source_amount),
        h.admits(step),
    ensures
        h.after(step).sound(account, destination, source_amount),
{
    let k = h.after(step);
    lemma_total_bounds(h.ordered);
    lemma_total_bounds(amounts(h.pending));
    match step {
        Step::Decide { now, max_amount } => {
            let event = h.payment.event(now, max_amount);
            if let PaymentEvent::SendMoney(amount) = event {
                lemma_total_push(h.ordered, amount);
            }
            if event is CloseConnection {
                lemma_nothing_left_to_close(h, account, destination, source_amount);
            }
        },
        Step::Make { index, prices, outgoing } => {
            if h.payment.stopped is None {
                lemma_total_remove(h.ordered, index);
                lemma_total_push(amounts(h.pending), outgoing.amount);
                assert(amounts(k.pending) == amounts(h.pending).push(outgoing.amount));
                assert(1 <= h.ordered[index] <= source_amount);
                assert(History::carries_money(outgoing, destination, source_amount));
            }
        },
        Step::Answer { index, reply, stream_reply, now } => {
            let sent = h.pending[index];
            lemma_total_remove(amounts(h.pending), index);
            assert(amounts(k.pending) == amounts(h.pending).remove(index));
            assert(amounts(h.pending)[index] == sent.amount);
        },
        Step::Close { outgoing } => {},
        Step::Conclude { result } => {},
    }
}

proof fn lemma_run_is_sound(
    account: Account,
    destination: String,
    source_amount: u64,
    slippage: Option<Rational>,
    steps: Seq<Step>,
)
    requires
        History::opened(account, destination, source_amount, slippage).admits_all(steps),
    ensures
        History::opened(account, destination, source_amount, slippage).after_all(steps).sound(
            account,
            destination,
            source_amount,
        ),
    decreases steps.len(),
{
    let start = History::opened(account, destination, source_amount, slippage);
    if steps.len() == 0 {
        assert(amounts(start.pending) == Seq::<u64>::empty());
    } else {
        lemma_run_is_sound(account, destination, source_amount, slippage, steps.drop_last());
        lemma_step_is_sound(
            start.after_all(steps.drop_last()),
            steps.last(),
            account,
            destination,
            source_amount,
        );
    }
}

/// Whatever is decided, and in whatever order packets are answered: the receipt says exactly how
/// much is in flight, how much was fulfilled, and, as far as a `u64` can tell, how much was
/// delivered. What is in flight and what was fulfilled never exceed the amount that was intended.
pub proof fn law_receipt_agrees_with_packets(
    account: Account,
    destination: String,
    source_amount: u64,
    slippage: Option<Rational>,
    steps: Seq<Step>,
)
    requires
        History::opened(account, destination, source_amount, slippage).admits_all(steps),
    ensures
        ({
            let h = History::opened(account, destination, source_amount, slippage).after_all(steps);
            &&& h.balanced()
            &&& h.payment.receipt.source_amount == source_amount
            &&& h.fulfilled + total(h.ordered) + total(amounts(h.pending)) <= source_amount
        }),
{
    lemma_run_is_sound(account, destination, source_amount, slippage, steps);
}

/// When it is decided to close the connection, exactly the amount that was intended has been
/// fulfilled, and every packet has been made and answered.
pub proof fn law_closed_payment_is_exact(
    account: Account,
    destination: String,
    source_amount: u64,
    slippage: Option<Rational>,
    steps: Seq<Step>,
    now: u128,
    max_amount: u64,
)
    requires
        History::opened(account, destination, source_amount, slippage).admits_all(steps),
    ensures
        ({
            let h = History::opened(account, destination, source_amount, slippage).after_all(steps);
            h.closing() || h.payment.event(now, max_amount) is CloseConnection ==> {
                &&& h.fulfilled == source_amount
                &&& h.ordered.len() == 0
                &&& h.pending.len() == 0
            }
        }),
{
    let h = History::opened(account, destination, source_amount, slippage).after_all(steps);
    lemma_run_is_sound(account, destination, source_amount, slippage, steps);
    if !h.closing() && h.payment.event(now, max_amount) is CloseConnection {
        lemma_nothing_left_to_close(h, account, destination, source_amount);
    }
}

/// Every packet of a run that carries money goes to the destination, with at least one unit and no
/// more than the intended amount. The `n` packets of a run, that which closes the connection
/// included, are numbered from one to `n` in the order in which they are made. The one that closes
/// the connection is the last, goes to the destination too, and carries nothing.
pub proof fn law_packets_of_a_run(
    account: Account,
    destination: String,
    source_amount: u64,
    slippage: Option<Rational>,
    steps: Seq<Step>,
)
    requires
        History::opened(account, destination, source_amount, slippage).admits_all(steps),
    ensures
        ({
            let h = History::opened(account, destination, source_amount, slippage).after_all(steps);
            &&& h.numbered(destination, source_amount)
            // After the packet that closes the connection there is none to make or answer
            &&& h.close is Some ==> forall|step: Step| #[trigger]
                h.admits(step) ==> step is Conclude
        }),
{
    lemma_run_is_sound(account, destination, source_amount, slippage, steps);
}

proof fn lemma_stopped_stays_stopped(h: History, more: Seq<Step>)
    requires
        h.payment.stopped is Some,
        !h.closing(),
        h.close is None,
        !(h.result matches Some(Ok(_))),
        h.admits_all(more),
    ensures
        ({
            let k = h.after_all(more);
            &&& k.payment.stopped == h.payment.stopped
            &&& k.made == h.made
            &&& !k.closing()
            &&& k.close is None
            &&& !(k.result matches Some(Ok(_)))
        }),
    decreases more.len(),
{
    if more.len() > 0 {
        lemma_stopped_stays_stopped(h, more.drop_last());
    }
}

/// Once a packet has been answered with a rejection that is not tolerated, nothing that happens
/// later makes a packet, be it to carry money or to close the connection, or leads to a decision to do
/// so, and the payment ends with an error.
pub proof fn law_final_rejection_ends_run(
    account: Account,
    destination: String,
    source_amount: u64,
    slippage: Option<Rational>,
    steps: Seq<Step>,
    last: Step,
    more: Seq<Step>,
    now: u128,
    max_amount: u64,
)
    requires
        History::opened(account, destination, source_amount, slippage).admits_all(steps),
        History::opened(account, destination, source_amount, slippage).after_all(steps).admits(
            last,
        ),
        last matches Step::Answer { reply: IlpReply::Reject(reject), .. }
            && !crate::reply::tolerated(reject),
        History::opened(account, destination, source_amount, slippage).after_all(steps).after(
            last,
        ).admits_all(more),
    ensures
        ({
            let h = History::opened(account, destination, source_amount, slippage).after_all(
                steps,
            ).after(last);
            let k = h.after_all(more);
            let event = k.payment.event(now, max_amount);
            &&& k.made == h.made
            &&& k.close is None
            &&& !(k.result matches Some(Ok(_)))
            &&& event is Timeout || event is FailFast || event is Stopped
            &&& forall|result: Option<Result<StreamDelivery, Error>>| #[trigger]
                k.payment.concluded(event, result) ==> result matches Some(Err(_))
        }),
{
    let g = History::opened(account, destination, source_amount, slippage).after_all(steps);
    let h = g.after(last);
    lemma_run_is_sound(account, destination, source_amount, slippage, steps);
    lemma_step_is_sound(g, last, account, destination, source_amount);
    lemma_stopped_stays_stopped(h, more);
}

/// A run that ends with a receipt has made exactly one packet that closes the connection, as the last
/// of its packets and after all others were answered, and nothing happens after the receipt is
/// given. The receipt says that the intended amount was sent and nothing is in flight, and how much
/// was delivered, as far as a `u64` can tell; sender, receiver and source asset are those that the
/// payment was opened with. A run that ends with an error has made no such packet.
pub proof fn law_result_of_a_run(
    account: Account,
    destination: String,
    source_amount: u64,
    slippage: Option<Rational>,
    steps: Seq<Step>,
)
    requires
        History::opened(account, destination, source_amount, slippage).admits_all(steps),
    ensures
        ({
            let h = History::opened(account, destination, source_amount, slippage).after_all(steps);
            &&& h.result matches Some(Ok(d)) ==> {
                &&& h.close is Some
                &&& h.numbered(destination, source_amount)
                &&& h.ordered.len() == 0
                &&& h.pending.len() == 0
                &&& forall|step: Step| !#[trigger] h.admits(step)
                &&& d == h.payment.receipt
                &&& History::as_opened(d, account, destination, source_amount)
                &&& d.sent_amount == source_amount
                &&& d.in_flight_amount == 0
                &&& d.delivered_amount == capped(h.delivered)
                &&& h.fulfilled == source_amount
            }
            &&& h.result matches Some(Err(_)) ==> h.close is None
        }),
{
    let h = History::opened(account, destination, source_amount, slippage).after_all(steps);
    lemma_run_is_sound(account, destination, source_amount, slippage, steps);
    lemma_total_bounds(h.ordered);
    lemma_total_bounds(amounts(h.pending));
}

/// Once the packet that closes the connection has been made, the payment can end with its receipt,
/// and with nothing else.
pub proof fn law_closed_run_gives_receipt(
    account: Account,
    destination: String,
    source_amount: u64,
    slippage: Option<Rational>,
    steps: Seq<Step>,
    result: Result<StreamDelivery, Error>,
)
    requires
        History::opened(account, destination, source_amount, slippage).admits_all(steps),
    ensures
        ({
            let h = History::opened(account, destination, source_amount, slippage).after_all(steps);
            h.close is Some && h.result is None ==> (h.admits(Step::Conclude { result }) <==> result
                == Ok::<StreamDelivery, Error>(h.payment.receipt))
        }),
        ({
            let h = History::opened(account, destination, source_amount, slippage).after_all(steps);
            h.closing() && h.close is None ==> !h.admits(Step::Conclude { result })
        }),
{
    lemma_run_is_sound(account, destination, source_amount, slippage, steps);
}

} // verus!
