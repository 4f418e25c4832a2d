//! Receipt of a payment.
use vstd::prelude::*;

verus! {

/// What a payment needs to know of the account that sends it.
#[derive(Debug)]
pub struct Account {
    /// ILP address of the account
    pub ilp_address: String,
    /// Asset scale of the account
    pub asset_scale: u8,
    /// Asset code of the account
    pub asset_code: String,
}

/// Receipt for STREAM payment to account for how much and what assets were sent & delivered
#[derive(Debug, PartialEq, Eq)]
pub struct StreamDelivery {
    /// Sender's ILP Address
    pub from: String,
    /// Receiver's ILP Address
    pub to: String,
    /// Asset scale of sender
    pub source_asset_scale: u8,
    /// Asset code of sender
    pub source_asset_code: String,
    /// Total amount *intended* to be sent, in source units
    pub source_amount: u64,
    /// Amount fulfilled or currently in-flight, in source units
    pub sent_amount: u64,
    /// Amount in-flight (yet to be fulfilled or rejected), in source units
    pub in_flight_amount: u64,
    /// Amount fulfilled and received by the recipient, in destination units
    pub delivered_amount: u64,
    /// Receiver's asset scale, known once the recipient has told it
    pub destination_asset_scale: Option<u8>,
    /// Receiver's asset code, known once the recipient has told it
    pub destination_asset_code: Option<String>,
}

impl StreamDelivery {
    /// The receipt of a payment of which nothing has been sent yet.
    pub open spec fn opened(
        from_account: Account,
        destination: String,
        source_amount: u64,
    ) -> StreamDelivery {
        StreamDelivery {
            from: from_account.ilp_address,
            to: destination,
            source_asset_scale: from_account.asset_scale,
            source_asset_code: from_account.asset_code,
            source_amount,
            sent_amount: 0,
            in_flight_amount: 0,
            delivered_amount: 0,
            destination_asset_scale: None,
            destination_asset_code: None,
        }
    }

    /// The receipt of a payment of which nothing has been sent yet.
    pub fn new(from_account: &Account, destination: String, source_amount: u64) -> (r: Self)
        ensures
            r == Self::opened(*from_account, destination, source_amount),
    {
        StreamDelivery {
            from: from_account.ilp_address.clone(),
            to: destination,
            source_asset_scale: from_account.asset_scale,
            source_asset_code: from_account.asset_code.clone(),
            source_amount,
            sent_amount: 0,
            in_flight_amount: 0,
            delivered_amount: 0,
            destination_asset_scale: None,
            destination_asset_code: None,
        }
    }
}

impl Clone for StreamDelivery {
    fn clone(&self) -> (r: Self)
        ensures
            r == *self,
    {
        StreamDelivery {
            from: self.from.clone(),
            to: self.to.clone(),
            source_asset_scale: self.source_asset_scale,
            source_asset_code: self.source_asset_code.clone(),
            source_amount: self.source_amount,
            sent_amount: self.sent_amount,
            in_flight_amount: self.in_flight_amount,
            delivered_amount: self.delivered_amount,
            destination_asset_scale: self.destination_asset_scale,
            destination_asset_code: match &self.destination_asset_code {
                Some(code) => Some(code.clone()),
                None => None,
            },
        }
    }
}

} // verus!
