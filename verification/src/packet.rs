//! The parts of ILP and STREAM packets that the sender of a payment writes and reads.
use vstd::prelude::*;

verus! {

/// The kinds of ILP packets.
#[derive(Debug, Clone, Copy, PartialEq, Eq, Structural)]
pub enum IlpPacketType {
    Prepare,
    Fulfill,
    Reject,
}

/// What a rejection says about trying again.
#[derive(Debug, Clone, Copy, PartialEq, Eq, Structural)]
pub enum ErrorClass {
    Final,
    Temporary,
    Relative,
    Unknown,
}

/// Three-character code of an ILP rejection, such as `F00`.
#[derive(Debug, Clone, Copy, PartialEq, Eq)]
pub struct IlpErrorCode {
    /// The characters of the code, in ASCII
    pub bytes: [u8; 3],
}

/// The class that the first character of an error code stands for.
pub open spec fn error_class(first: u8) -> ErrorClass {
    if first == 'F' as u8 {
        ErrorClass::Final
    } else if first == 'T' as u8 {
        ErrorClass::Temporary
    } else if first == 'R' as u8 {
        ErrorClass::Relative
    } else {
        ErrorClass::Unknown
    }
}

impl IlpErrorCode {
    /// The code is `F08`: the amount was too large for some connector.
    pub open spec fn is_f08(self) -> bool {
        self.bytes@[0] == 'F' as u8 && self.bytes@[1] == '0' as u8 && self.bytes@[2] == '8' as u8
    }

    /// The code is `F99`: the application of the recipient refused the packet.
    pub open spec fn is_f99(self) -> bool {
        self.bytes@[0] == 'F' as u8 && self.bytes@[1] == '9' as u8 && self.bytes@[2] == '9' as u8
    }

    /// The class of the error.
    pub fn class(&self) -> (r: ErrorClass)
        ensures
            r == error_class(self.bytes@[0]),
    {
        match self.bytes[0] {
            0x46 => ErrorClass::Final,
            0x54 => ErrorClass::Temporary,
            0x52 => ErrorClass::Relative,
            _ => ErrorClass::Unknown,
        }
    }

    /// Is this the code `F08`?
    pub fn is_amount_too_large(&self) -> (r: bool)
        ensures
            r == self.is_f08(),
    {
        self.bytes[0] == 0x46 && self.bytes[1] == 0x30 && self.bytes[2] == 0x38
    }

    /// Is this the code `F99`?
    pub fn is_application_error(&self) -> (r: bool)
        ensures
            r == self.is_f99(),
    {
        self.bytes[0] == 0x46 && self.bytes[1] == 0x39 && self.bytes[2] == 0x39
    }
}

/// An ILP rejection.
#[derive(Debug)]
pub struct Reject {
    /// Code of the error
    pub code: IlpErrorCode,
    /// The code as it is shown to people
    pub code_text: String,
    /// Message for the sender, expected to be UTF-8
    pub message: Vec<u8>,
}

/// The answer of the network to a Prepare.
#[derive(Debug)]
pub enum IlpReply {
    Fulfill,
    Reject(Reject),
}

impl IlpReply {
    /// The kind of packet that came back.
    pub open spec fn spec_packet_type(self) -> IlpPacketType {
        match self {
            IlpReply::Fulfill => IlpPacketType::Fulfill,
            IlpReply::Reject(_) => IlpPacketType::Reject,
        }
    }

    /// The kind of packet that came back.
    pub fn packet_type(&self) -> (r: IlpPacketType)
        ensures
            r == self.spec_packet_type(),
    {
        match self {
            IlpReply::Fulfill => IlpPacketType::Fulfill,
            IlpReply::Reject(_) => IlpPacketType::Reject,
        }
    }
}

/// Asks the recipient to share incoming money among streams.
#[derive(Debug)]
pub struct StreamMoneyFrame {
    pub stream_id: u64,
    pub shares: u64,
}

/// Tells the recipient the address of the sender.
#[derive(Debug)]
pub struct ConnectionNewAddressFrame {
    pub source_account: String,
}

/// Tells the peer which asset the account of the writer holds.
#[derive(Debug)]
pub struct ConnectionAssetDetailsFrame {
    pub source_asset_code: String,
    pub source_asset_scale: u8,
}

/// Why a connection is closed.
#[derive(Debug, Clone, Copy, PartialEq, Eq, Structural)]
pub enum ErrorCode {
    NoError,
}

/// Tells the peer that the connection is closed.
#[derive(Debug)]
pub struct ConnectionCloseFrame {
    pub code: ErrorCode,
    pub message: String,
}

/// A piece of a STREAM packet.
#[derive(Debug)]
pub enum Frame {
    StreamMoney(StreamMoneyFrame),
    ConnectionNewAddress(ConnectionNewAddressFrame),
    ConnectionAssetDetails(ConnectionAssetDetailsFrame),
    ConnectionClose(ConnectionCloseFrame),
    /// Any frame that the sender of a payment neither writes nor reads
    Other,
}

/// A STREAM packet, as it stands inside an ILP packet before encryption.
#[derive(Debug)]
pub struct StreamPacket {
    /// Kind of the ILP packet that carries this packet
    pub ilp_packet_type: IlpPacketType,
    /// In a request the least amount to accept, in a reply the amount received
    pub prepare_amount: u64,
    /// Number of the request within the connection
    pub sequence: u64,
    pub frames: Vec<Frame>,
}

/// The last asset details in a list of frames.
pub open spec fn last_asset_details(frames: Seq<Frame>) -> Option<ConnectionAssetDetailsFrame>
    decreases frames.len(),
{
    if frames.len() == 0 {
        None
    } else {
        match frames.last() {
            Frame::ConnectionAssetDetails(details) => Some(details),
            _ => last_asset_details(frames.drop_last()),
        }
    }
}

/// How the condition of a Prepare is chosen.
#[derive(Debug, Clone, Copy, PartialEq, Eq, Structural)]
pub enum Condition {
    /// Derived from the shared secret and the encrypted packet, so that the recipient can fulfill
    Generated,
    /// Random, so that nobody can fulfill
    Random,
}

/// A Prepare that is ready to be encrypted and sent.
#[derive(Debug)]
pub struct OutgoingPacket {
    /// Address to send to
    pub destination: String,
    /// Amount to send, in source units
    pub amount: u64,
    /// The STREAM packet to encrypt into the data of the Prepare
    pub packet: StreamPacket,
    /// How to choose the condition of the Prepare
    pub condition: Condition,
    /// Seconds from now until the Prepare expires
    pub expires_in_secs: u64,
}

/// The class goes by the first character alone, and the two named codes are `F08` and `F99`.
pub proof fn law_error_codes(code: IlpErrorCode)
    ensures
        error_class(code.bytes@[0]) == ErrorClass::Final <==> code.bytes@[0] == 70,
        error_class(code.bytes@[0]) == ErrorClass::Temporary <==> code.bytes@[0] == 84,
        error_class(code.bytes@[0]) == ErrorClass::Relative <==> code.bytes@[0] == 82,
        code.is_f08() <==> code.bytes@[0] == 70 && code.bytes@[1] == 48 && code.bytes@[2] == 56,
        code.is_f99() <==> code.bytes@[0] == 70 && code.bytes@[1] == 57 && code.bytes@[2] == 57,
{
}

/// The last asset details are those of a frame after which none has any, and there are none only if
/// no frame has any.
pub proof fn law_last_asset_details(frames: Seq<Frame>)
    ensures
        match last_asset_details(frames) {
            Some(details) => exists|i: int|
                0 <= i < frames.len() && #[trigger] frames[i] == Frame::ConnectionAssetDetails(
                    details,
                ) && forall|j: int|
                    i < j < frames.len() ==> !(#[trigger] frames[j] is ConnectionAssetDetails),
            None => forall|j: int|
                0 <= j < frames.len() ==> !(#[trigger] frames[j] is ConnectionAssetDetails),
        },
    decreases frames.len(),
{
    if frames.len() > 0 {
        let n = frames.len() - 1;
        let rest = frames.drop_last();
        law_last_asset_details(rest);
        match frames.last() {
            Frame::ConnectionAssetDetails(details) => {
                assert(frames[n] == Frame::ConnectionAssetDetails(details));
            },
            _ => {
                match last_asset_details(rest) {
                    Some(details) => {
                        let i = choose|i: int|
                            0 <= i < rest.len() && #[trigger] rest[i]
                                == Frame::ConnectionAssetDetails(details) && forall|j: int|
                                i < j < rest.len() ==> !(
                                #[trigger] rest[j] is ConnectionAssetDetails);
                        assert(frames[i] == Frame::ConnectionAssetDetails(details));
                        assert forall|j: int| i < j < frames.len() implies !(
                        #[trigger] frames[j] is ConnectionAssetDetails) by {
                            if j < n {
                                assert(rest[j] == frames[j]);
                            }
                        }
                    },
                    None => {
                        assert forall|j: int| 0 <= j < frames.len() implies !(
                        #[trigger] frames[j] is ConnectionAssetDetails) by {
                            if j < n {
                                assert(rest[j] == frames[j]);
                            }
                        }
                    },
                }
            },
        }
    }
}

} // verus!
