//! AIS messages: the message types, their field values, and the decoding
//! of a message from its bits or from NMEA sentences.

pub mod codes;
pub mod common;
pub mod converters;
pub mod reader;
pub mod type1;
pub mod type4;
pub mod type5;
pub mod type6;
pub mod type7;
pub mod type8;
pub mod type9;
pub mod type10;
pub mod type12;
pub mod type14;
pub mod type15;
pub mod type16;
pub mod type17;
pub mod type18;
pub mod type19;
pub mod type20;
pub mod type21;
pub mod type22;
pub mod type23;
pub mod type24;
pub mod type25;
pub mod type26;
pub mod type27;

use vstd::prelude::*;
use crate::bits::{bits_at, get_bits};
pub use reader::DecodeError;
use crate::decode::nmea::{
    MessageAssembler, NmeaAisMessage, NmeaError, NmeaView, assemble_safe, fill_fits,
    fill_fits_exec, msgs_view, outcome_view, result_view, spec_add_fragment, spec_assemble,
    spec_parse, spec_payload_to_binary,
};
use crate::text::chars_of;
pub use common::{
    EpfdType, InlandLoadedType, ManeuverIndicator, NavAid, NavigationStatus, ShipType,
    StationIntervals, StationType, Timestamp, TransmitMode,
};
pub use type1::PositionReport;
pub use type4::BaseStationTimeReport;
pub use type5::StaticAndVoyageData;
pub use type6::BinaryAddressedMessage;
pub use type7::BinaryAcknowledge;
pub use type8::{BinaryBroadcastMessage, MessageType8Dac200Fid10, MessageType8Default};
pub use type9::SarAircraftPositionReport;
pub use type10::UtcDateInquiry;
pub use type12::AddressedSafetyMessage;
pub use type14::SafetyBroadcastMessage;
pub use type15::Interrogation;
pub use type16::{AssignmentCommandDouble, AssignmentCommandSingle, AssignmentModeCommand};
pub use type17::DgnssBroadcastMessage;
pub use type18::ClassBPositionReport;
pub use type19::ExtendedClassBPositionReport;
pub use type20::DataLinkManagementMessage;
pub use type21::AidToNavigationReport;
pub use type22::{ChannelManagement, ChannelManagementAddressed, ChannelManagementBroadcast};
pub use type23::GroupAssignmentCommand;
pub use type24::{StaticDataReport, StaticDataReportPartA, StaticDataReportPartB};
pub use type25::{SingleSlotBinaryAddressedStructured, SingleSlotBinaryAddressedUnstructured, SingleSlotBinaryBroadcastStructured, SingleSlotBinaryBroadcastUnstructured, SingleSlotBinaryMessage};
pub use type26::{MultipleSlotBinaryAddressedStructured, MultipleSlotBinaryAddressedUnstructured, MultipleSlotBinaryBroadcastStructured, MultipleSlotBinaryBroadcastUnstructured, MultipleSlotBinaryMessage};
pub use type27::LongRangeAisBroadcastMessage;

verus! {

/// An AIS message of any of the decoded types, by its 6-bit message type.
#[derive(Debug, Clone, PartialEq)]
pub enum Message {
    PositionReport1(PositionReport),
    PositionReport2(PositionReport),
    PositionReport3(PositionReport),
    BaseStationTimeReport(BaseStationTimeReport),
    StaticAndVoyageData(StaticAndVoyageData),
    BinaryAddressedMessage(BinaryAddressedMessage),
    BinaryAcknowledge(BinaryAcknowledge),
    BinaryBroadcastMessage(BinaryBroadcastMessage),
    SarAircraftPositionReport(SarAircraftPositionReport),
    UtcDateInquiry(UtcDateInquiry),
    BaseStationTimeReport11(BaseStationTimeReport),
    AddressedSafetyMessage(AddressedSafetyMessage),
    SafetyBroadcastMessage(SafetyBroadcastMessage),
    Interrogation(Interrogation),
    AssignmentModeCommand(AssignmentModeCommand),
    DgnssBroadcastMessage(DgnssBroadcastMessage),
    ClassBPositionReport(ClassBPositionReport),
    ExtendedClassBPositionReport(ExtendedClassBPositionReport),
    DataLinkManagementMessage(DataLinkManagementMessage),
    AidToNavigationReport(AidToNavigationReport),
    ChannelManagement(ChannelManagement),
    GroupAssignmentCommand(GroupAssignmentCommand),
    StaticDataReport(StaticDataReport),
    SingleSlotBinaryMessage(SingleSlotBinaryMessage),
    MultipleSlotBinaryMessage(MultipleSlotBinaryMessage),
    LongRangeAisBroadcastMessage(LongRangeAisBroadcastMessage),
}

/// Why NMEA sentences gave no message.
#[derive(Debug, Clone, Copy, PartialEq, Eq, Structural)]
pub enum MessageError {
    /// A sentence did not parse, or the fragments did not assemble.
    Nmea(NmeaError),
    /// The binary message did not decode.
    Decode(DecodeError),
}

impl Message {
    /// The message type: the first 6 bits.
    pub open spec fn type_of(s: Seq<u8>) -> nat {
        bits_at(s, 0, 6)
    }

    /// Whether `s` decodes: the message type needs a first byte, must be a
    /// decoded type, and then the message of that type must decode.
    pub open spec fn outcome(s: Seq<u8>) -> Result<(), DecodeError> {
        let t = Self::type_of(s);
        if s.len() == 0 {
            Err(DecodeError::Incomplete)
        } else if t == 1 || t == 2 || t == 3 {
            PositionReport::outcome(s)
        } else if t == 4 || t == 11 {
            BaseStationTimeReport::outcome(s)
        } else if t == 5 {
            StaticAndVoyageData::outcome(s)
        } else if t == 6 {
            BinaryAddressedMessage::outcome(s)
        } else if t == 7 {
            BinaryAcknowledge::outcome(s)
        } else if t == 8 {
            BinaryBroadcastMessage::outcome(s)
        } else if t == 9 {
            SarAircraftPositionReport::outcome(s)
        } else if t == 10 {
            UtcDateInquiry::outcome(s)
        } else if t == 12 {
            AddressedSafetyMessage::outcome(s)
        } else if t == 14 {
            SafetyBroadcastMessage::outcome(s)
        } else if t == 15 {
            Interrogation::outcome(s)
        } else if t == 16 {
            AssignmentModeCommand::outcome(s)
        } else if t == 17 {
            DgnssBroadcastMessage::outcome(s)
        } else if t == 18 {
            ClassBPositionReport::outcome(s)
        } else if t == 19 {
            ExtendedClassBPositionReport::outcome(s)
        } else if t == 20 {
            DataLinkManagementMessage::outcome(s)
        } else if t == 21 {
            AidToNavigationReport::outcome(s)
        } else if t == 22 {
            ChannelManagement::outcome(s)
        } else if t == 23 {
            GroupAssignmentCommand::outcome(s)
        } else if t == 24 {
            StaticDataReport::outcome(s)
        } else if t == 25 {
            SingleSlotBinaryMessage::outcome(s)
        } else if t == 26 {
            MultipleSlotBinaryMessage::outcome(s)
        } else if t == 27 {
            LongRangeAisBroadcastMessage::outcome(s)
        } else {
            Err(DecodeError::UnknownMessageType(t as u8))
        }
    }

    /// Whether `self` is the variant of the message type of `s`, holding
    /// the message decoded from `s`.
    pub open spec fn decodes(self, s: Seq<u8>) -> bool {
        &&& s.len() > 0
        &&& match self {
            Message::PositionReport1(m) => Self::type_of(s) == 1 && m.decodes(s),
            Message::PositionReport2(m) => Self::type_of(s) == 2 && m.decodes(s),
            Message::PositionReport3(m) => Self::type_of(s) == 3 && m.decodes(s),
            Message::BaseStationTimeReport(m) => Self::type_of(s) == 4 && m.decodes(s),
            Message::StaticAndVoyageData(m) => Self::type_of(s) == 5 && m.decodes(s),
            Message::BinaryAddressedMessage(m) => Self::type_of(s) == 6 && m.decodes(s),
            Message::BinaryAcknowledge(m) => Self::type_of(s) == 7 && m.decodes(s),
            Message::BinaryBroadcastMessage(m) => Self::type_of(s) == 8 && m.decodes(s),
            Message::SarAircraftPositionReport(m) => Self::type_of(s) == 9 && m.decodes(s),
            Message::UtcDateInquiry(m) => Self::type_of(s) == 10 && m.decodes(s),
            Message::BaseStationTimeReport11(m) => Self::type_of(s) == 11 && m.decodes(s),
            Message::AddressedSafetyMessage(m) => Self::type_of(s) == 12 && m.decodes(s),
            Message::SafetyBroadcastMessage(m) => Self::type_of(s) == 14 && m.decodes(s),
            Message::Interrogation(m) => Self::type_of(s) == 15 && m.decodes(s),
            Message::AssignmentModeCommand(m) => Self::type_of(s) == 16 && m.decodes(s),
            Message::DgnssBroadcastMessage(m) => Self::type_of(s) == 17 && m.decodes(s),
            Message::ClassBPositionReport(m) => Self::type_of(s) == 18 && m.decodes(s),
            Message::ExtendedClassBPositionReport(m) => Self::type_of(s) == 19 && m.decodes(s),
            Message::DataLinkManagementMessage(m) => Self::type_of(s) == 20 && m.decodes(s),
            Message::AidToNavigationReport(m) => Self::type_of(s) == 21 && m.decodes(s),
            Message::ChannelManagement(m) => Self::type_of(s) == 22 && m.decodes(s),
            Message::GroupAssignmentCommand(m) => Self::type_of(s) == 23 && m.decodes(s),
            Message::StaticDataReport(m) => Self::type_of(s) == 24 && m.decodes(s),
            Message::SingleSlotBinaryMessage(m) => Self::type_of(s) == 25 && m.decodes(s),
            Message::MultipleSlotBinaryMessage(m) => Self::type_of(s) == 26 && m.decodes(s),
            Message::LongRangeAisBroadcastMessage(m) => Self::type_of(s) == 27 && m.decodes(s),
        }
    }

    /// Decodes a binary AIS message, dispatching on its message type.
    #[verifier::rlimit(40)]
    pub fn from_bytes(bytes: &[u8]) -> (r: Result<Message, DecodeError>)
        ensures
            match r {
                Ok(m) => Self::outcome(bytes@) is Ok && m.decodes(bytes@),
                Err(e) => Self::outcome(bytes@) == Err::<(), DecodeError>(e),
            },
    {
        if bytes.len() == 0 {
            return Err(DecodeError::Incomplete);
        }
        let t = get_bits(bytes, 0, 6);
        proof {
            vstd::arithmetic::power2::lemma2_to64();
        }
        if t == 1 {
            match PositionReport::from_bytes(bytes) {
                Ok(m) => Ok(Message::PositionReport1(m)),
                Err(e) => Err(e),
            }
        } else if t == 2 {
            match PositionReport::from_bytes(bytes) {
                Ok(m) => Ok(Message::PositionReport2(m)),
                Err(e) => Err(e),
            }
        } else if t == 3 {
            match PositionReport::from_bytes(bytes) {
                Ok(m) => Ok(Message::PositionReport3(m)),
                Err(e) => Err(e),
            }
        } else if t == 4 {
            match BaseStationTimeReport::from_bytes(bytes) {
                Ok(m) => Ok(Message::BaseStationTimeReport(m)),
                Err(e) => Err(e),
            }
        } else if t == 5 {
            match StaticAndVoyageData::from_bytes(bytes) {
                Ok(m) => Ok(Message::StaticAndVoyageData(m)),
                Err(e) => Err(e),
            }
        } else if t == 6 {
            match BinaryAddressedMessage::from_bytes(bytes) {
                Ok(m) => Ok(Message::BinaryAddressedMessage(m)),
                Err(e) => Err(e),
            }
        } else if t == 7 {
            match BinaryAcknowledge::from_bytes(bytes) {
                Ok(m) => Ok(Message::BinaryAcknowledge(m)),
                Err(e) => Err(e),
            }
        } else if t == 8 {
            match BinaryBroadcastMessage::from_bytes(bytes) {
                Ok(m) => Ok(Message::BinaryBroadcastMessage(m)),
                Err(e) => Err(e),
            }
        } else if t == 9 {
            match SarAircraftPositionReport::from_bytes(bytes) {
                Ok(m) => Ok(Message::SarAircraftPositionReport(m)),
                Err(e) => Err(e),
            }
        } else if t == 10 {
            match UtcDateInquiry::from_bytes(bytes) {
                Ok(m) => Ok(Message::UtcDateInquiry(m)),
                Err(e) => Err(e),
            }
        } else if t == 11 {
            match BaseStationTimeReport::from_bytes(bytes) {
                Ok(m) => Ok(Message::BaseStationTimeReport11(m)),
                Err(e) => Err(e),
            }
        } else if t == 12 {
            match AddressedSafetyMessage::from_bytes(bytes) {
                Ok(m) => Ok(Message::AddressedSafetyMessage(m)),
                Err(e) => Err(e),
            }
        } else if t == 14 {
            match SafetyBroadcastMessage::from_bytes(bytes) {
                Ok(m) => Ok(Message::SafetyBroadcastMessage(m)),
                Err(e) => Err(e),
            }
        } else if t == 15 {
            match Interrogation::from_bytes(bytes) {
                Ok(m) => Ok(Message::Interrogation(m)),
                Err(e) => Err(e),
            }
        } else if t == 16 {
            match AssignmentModeCommand::from_bytes(bytes) {
                Ok(m) => Ok(Message::AssignmentModeCommand(m)),
                Err(e) => Err(e),
            }
        } else if t == 17 {
            match DgnssBroadcastMessage::from_bytes(bytes) {
                Ok(m) => Ok(Message::DgnssBroadcastMessage(m)),
                Err(e) => Err(e),
            }
        } else if t == 18 {
            match ClassBPositionReport::from_bytes(bytes) {
                Ok(m) => Ok(Message::ClassBPositionReport(m)),
                Err(e) => Err(e),
            }
        } else if t == 19 {
            match ExtendedClassBPositionReport::from_bytes(bytes) {
                Ok(m) => Ok(Message::ExtendedClassBPositionReport(m)),
                Err(e) => Err(e),
            }
        } else if t == 20 {
            match DataLinkManagementMessage::from_bytes(bytes) {
                Ok(m) => Ok(Message::DataLinkManagementMessage(m)),
                Err(e) => Err(e),
            }
        } else if t == 21 {
            match AidToNavigationReport::from_bytes(bytes) {
                Ok(m) => Ok(Message::AidToNavigationReport(m)),
                Err(e) => Err(e),
            }
        } else if t == 22 {
            match ChannelManagement::from_bytes(bytes) {
                Ok(m) => Ok(Message::ChannelManagement(m)),
                Err(e) => Err(e),
            }
        } else if t == 23 {
            match GroupAssignmentCommand::from_bytes(bytes) {
                Ok(m) => Ok(Message::GroupAssignmentCommand(m)),
                Err(e) => Err(e),
            }
        } else if t == 24 {
            match StaticDataReport::from_bytes(bytes) {
                Ok(m) => Ok(Message::StaticDataReport(m)),
                Err(e) => Err(e),
            }
        } else if t == 25 {
            match SingleSlotBinaryMessage::from_bytes(bytes) {
                Ok(m) => Ok(Message::SingleSlotBinaryMessage(m)),
                Err(e) => Err(e),
            }
        } else if t == 26 {
            match MultipleSlotBinaryMessage::from_bytes(bytes) {
                Ok(m) => Ok(Message::MultipleSlotBinaryMessage(m)),
                Err(e) => Err(e),
            }
        } else if t == 27 {
            match LongRangeAisBroadcastMessage::from_bytes(bytes) {
                Ok(m) => Ok(Message::LongRangeAisBroadcastMessage(m)),
                Err(e) => Err(e),
            }
        } else {
            Err(DecodeError::UnknownMessageType(t as u8))
        }
    }

    /// The MMSI of the station that sent the message.
    pub open spec fn source_mmsi(self) -> u32 {
        match self {
            Message::PositionReport1(m) => m.mmsi,
            Message::PositionReport2(m) => m.mmsi,
            Message::PositionReport3(m) => m.mmsi,
            Message::BaseStationTimeReport(m) => m.mmsi,
            Message::StaticAndVoyageData(m) => m.mmsi,
            Message::BinaryAddressedMessage(m) => m.mmsi,
            Message::BinaryAcknowledge(m) => m.mmsi,
            Message::BinaryBroadcastMessage(m) => match m {
                BinaryBroadcastMessage::Default(x) => x.mmsi,
                BinaryBroadcastMessage::Inland(x) => x.mmsi,
            },
            Message::SarAircraftPositionReport(m) => m.mmsi,
            Message::UtcDateInquiry(m) => m.mmsi,
            Message::BaseStationTimeReport11(m) => m.mmsi,
            Message::AddressedSafetyMessage(m) => m.mmsi,
            Message::SafetyBroadcastMessage(m) => m.mmsi,
            Message::Interrogation(m) => m.mmsi,
            Message::AssignmentModeCommand(m) => match m {
                AssignmentModeCommand::Single(x) => x.mmsi,
                AssignmentModeCommand::Double(x) => x.mmsi,
            },
            Message::DgnssBroadcastMessage(m) => m.mmsi,
            Message::ClassBPositionReport(m) => m.mmsi,
            Message::ExtendedClassBPositionReport(m) => m.mmsi,
            Message::DataLinkManagementMessage(m) => m.mmsi,
            Message::AidToNavigationReport(m) => m.mmsi,
            Message::ChannelManagement(m) => match m {
                ChannelManagement::Broadcast(x) => x.mmsi,
                ChannelManagement::Addressed(x) => x.mmsi,
            },
            Message::GroupAssignmentCommand(m) => m.mmsi,
            Message::StaticDataReport(m) => match m {
                StaticDataReport::PartA(x) => x.mmsi,
                StaticDataReport::PartB(x) => x.mmsi,
            },
            Message::SingleSlotBinaryMessage(m) => match m {
                SingleSlotBinaryMessage::AddressedStructured(x) => x.mmsi,
                SingleSlotBinaryMessage::BroadcastStructured(x) => x.mmsi,
                SingleSlotBinaryMessage::AddressedUnstructured(x) => x.mmsi,
                SingleSlotBinaryMessage::BroadcastUnstructured(x) => x.mmsi,
            },
            Message::MultipleSlotBinaryMessage(m) => match m {
                MultipleSlotBinaryMessage::AddressedStructured(x) => x.mmsi,
                MultipleSlotBinaryMessage::BroadcastStructured(x) => x.mmsi,
                MultipleSlotBinaryMessage::AddressedUnstructured(x) => x.mmsi,
                MultipleSlotBinaryMessage::BroadcastUnstructured(x) => x.mmsi,
            },
            Message::LongRangeAisBroadcastMessage(m) => m.mmsi,
        }
    }

    /// The MMSI of the station that sent the message.
    pub fn mmsi(&self) -> (r: u32)
        ensures
            r == self.source_mmsi(),
    {
        match self {
            Message::PositionReport1(m) => m.mmsi,
            Message::PositionReport2(m) => m.mmsi,
            Message::PositionReport3(m) => m.mmsi,
            Message::BaseStationTimeReport(m) => m.mmsi,
            Message::StaticAndVoyageData(m) => m.mmsi,
            Message::BinaryAddressedMessage(m) => m.mmsi,
            Message::BinaryAcknowledge(m) => m.mmsi,
            Message::BinaryBroadcastMessage(m) => match m {
                BinaryBroadcastMessage::Default(x) => x.mmsi,
                BinaryBroadcastMessage::Inland(x) => x.mmsi,
            },
            Message::SarAircraftPositionReport(m) => m.mmsi,
            Message::UtcDateInquiry(m) => m.mmsi,
            Message::BaseStationTimeReport11(m) => m.mmsi,
            Message::AddressedSafetyMessage(m) => m.mmsi,
            Message::SafetyBroadcastMessage(m) => m.mmsi,
            Message::Interrogation(m) => m.mmsi,
            Message::AssignmentModeCommand(m) => match m {
                AssignmentModeCommand::Single(x) => x.mmsi,
                AssignmentModeCommand::Double(x) => x.mmsi,
            },
            Message::DgnssBroadcastMessage(m) => m.mmsi,
            Message::ClassBPositionReport(m) => m.mmsi,
            Message::ExtendedClassBPositionReport(m) => m.mmsi,
            Message::DataLinkManagementMessage(m) => m.mmsi,
            Message::AidToNavigationReport(m) => m.mmsi,
            Message::ChannelManagement(m) => match m {
                ChannelManagement::Broadcast(x) => x.mmsi,
                ChannelManagement::Addressed(x) => x.mmsi,
            },
            Message::GroupAssignmentCommand(m) => m.mmsi,
            Message::StaticDataReport(m) => match m {
                StaticDataReport::PartA(x) => x.mmsi,
                StaticDataReport::PartB(x) => x.mmsi,
            },
            Message::SingleSlotBinaryMessage(m) => match m {
                SingleSlotBinaryMessage::AddressedStructured(x) => x.mmsi,
                SingleSlotBinaryMessage::BroadcastStructured(x) => x.mmsi,
                SingleSlotBinaryMessage::AddressedUnstructured(x) => x.mmsi,
                SingleSlotBinaryMessage::BroadcastUnstructured(x) => x.mmsi,
            },
            Message::MultipleSlotBinaryMessage(m) => match m {
                MultipleSlotBinaryMessage::AddressedStructured(x) => x.mmsi,
                MultipleSlotBinaryMessage::BroadcastStructured(x) => x.mmsi,
                MultipleSlotBinaryMessage::AddressedUnstructured(x) => x.mmsi,
                MultipleSlotBinaryMessage::BroadcastUnstructured(x) => x.mmsi,
            },
            Message::LongRangeAisBroadcastMessage(m) => m.mmsi,
        }
    }
}

impl Message {
    /// The message type field that the decoded message holds.
    pub open spec fn type_field(self) -> u8 {
        match self {
            Message::PositionReport1(m) => m.msg_type,
            Message::PositionReport2(m) => m.msg_type,
            Message::PositionReport3(m) => m.msg_type,
            Message::BaseStationTimeReport(m) => m.msg_type,
            Message::StaticAndVoyageData(m) => m.msg_type,
            Message::BinaryAddressedMessage(m) => m.msg_type,
            Message::BinaryAcknowledge(m) => m.msg_type,
            Message::BinaryBroadcastMessage(m) => match m {
                BinaryBroadcastMessage::Default(x) => x.msg_type,
                BinaryBroadcastMessage::Inland(x) => x.msg_type,
            },
            Message::SarAircraftPositionReport(m) => m.msg_type,
            Message::UtcDateInquiry(m) => m.msg_type,
            Message::BaseStationTimeReport11(m) => m.msg_type,
            Message::AddressedSafetyMessage(m) => m.msg_type,
            Message::SafetyBroadcastMessage(m) => m.msg_type,
            Message::Interrogation(m) => m.msg_type,
            Message::AssignmentModeCommand(m) => match m {
                AssignmentModeCommand::Single(x) => x.msg_type,
                AssignmentModeCommand::Double(x) => x.msg_type,
            },
            Message::DgnssBroadcastMessage(m) => m.msg_type,
            Message::ClassBPositionReport(m) => m.msg_type,
            Message::ExtendedClassBPositionReport(m) => m.msg_type,
            Message::DataLinkManagementMessage(m) => m.msg_type,
            Message::AidToNavigationReport(m) => m.msg_type,
            Message::ChannelManagement(m) => match m {
                ChannelManagement::Broadcast(x) => x.msg_type,
                ChannelManagement::Addressed(x) => x.msg_type,
            },
            Message::GroupAssignmentCommand(m) => m.msg_type,
            Message::StaticDataReport(m) => match m {
                StaticDataReport::PartA(x) => x.msg_type,
                StaticDataReport::PartB(x) => x.msg_type,
            },
            Message::SingleSlotBinaryMessage(m) => match m {
                SingleSlotBinaryMessage::AddressedStructured(x) => x.msg_type,
                SingleSlotBinaryMessage::BroadcastStructured(x) => x.msg_type,
                SingleSlotBinaryMessage::AddressedUnstructured(x) => x.msg_type,
                SingleSlotBinaryMessage::BroadcastUnstructured(x) => x.msg_type,
            },
            Message::MultipleSlotBinaryMessage(m) => match m {
                MultipleSlotBinaryMessage::AddressedStructured(x) => x.msg_type,
                MultipleSlotBinaryMessage::BroadcastStructured(x) => x.msg_type,
                MultipleSlotBinaryMessage::AddressedUnstructured(x) => x.msg_type,
                MultipleSlotBinaryMessage::BroadcastUnstructured(x) => x.msg_type,
            },
            Message::LongRangeAisBroadcastMessage(m) => m.msg_type,
        }
    }
}

/// A decoded message is the variant of its message type, and holds that
/// type in its type field.
pub proof fn lemma_decoded_type_field(m: Message, s: Seq<u8>)
    requires
        m.decodes(s),
    ensures
        m.type_field() as nat == Message::type_of(s),
{
}

/// The text of each sentence.
pub open spec fn sentence_views(s: Seq<&str>) -> Seq<Seq<char>> {
    Seq::new(s.len(), |i: int| s[i]@)
}

/// Every sentence parsed, in order, or the error of the first one that does
/// not parse.
pub open spec fn parse_all(s: Seq<Seq<char>>) -> Result<Seq<NmeaView>, NmeaError>
    decreases s.len(),
{
    if s.len() == 0 {
        Ok(Seq::empty())
    } else {
        match parse_all(s.drop_last()) {
            Err(e) => Err(e),
            Ok(v) => match spec_parse(s.last()) {
                Err(e) => Err(e),
                Ok(m) => Ok(v.push(m)),
            },
        }
    }
}

/// Once a prefix of the sentences fails to parse, all of them fail with
/// that prefix's error.
proof fn lemma_parse_all_prefix(s: Seq<Seq<char>>, k: int)
    requires
        0 <= k <= s.len(),
        parse_all(s.take(k)) is Err,
    ensures
        parse_all(s) == parse_all(s.take(k)),
    decreases s.len(),
{
    if s.len() > k {
        assert(s.drop_last().take(k) =~= s.take(k));
        lemma_parse_all_prefix(s.drop_last(), k);
    } else {
        assert(s.take(k) =~= s);
    }
}

/// Parsing one more sentence.
proof fn lemma_parse_all_step(s: Seq<Seq<char>>, i: int)
    requires
        0 <= i < s.len(),
    ensures
        parse_all(s.take(i + 1)) == match parse_all(s.take(i)) {
            Err(e) => Err(e),
            Ok(v) => match spec_parse(s[i]) {
                Err(e) => Err(e),
                Ok(m) => Ok(v.push(m)),
            },
        },
{
    assert(s.take(i + 1).drop_last() =~= s.take(i));
}

/// The binary message that NMEA sentences carry: the payload of a single
/// sentence, or the message assembled from several.
pub open spec fn nmea_binary(s: Seq<Seq<char>>) -> Result<Seq<u8>, NmeaError> {
    if s.len() == 1 {
        match spec_parse(s[0]) {
            Err(e) => Err(e),
            Ok(m) => spec_payload_to_binary(m.payload, m.fill_bits),
        }
    } else {
        match parse_all(s) {
            Err(e) => Err(e),
            Ok(ms) => spec_assemble(Seq::empty(), ms),
        }
    }
}

/// The payloads that are de-armored on the way to the binary message have
/// room for their fill bits.
pub open spec fn nmea_safe(s: Seq<Seq<char>>) -> bool {
    if s.len() == 1 {
        match spec_parse(s[0]) {
            Err(_) => true,
            Ok(m) => fill_fits(m.payload, m.fill_bits),
        }
    } else {
        match parse_all(s) {
            Err(_) => true,
            Ok(ms) => assemble_safe(Seq::empty(), ms),
        }
    }
}

impl Message {
    /// Whether the sentences `s` give a message: their binary message must
    /// come out, then decode.
    pub open spec fn nmea_outcome(s: Seq<Seq<char>>) -> Result<(), MessageError> {
        match nmea_binary(s) {
            Err(e) => Err(MessageError::Nmea(e)),
            Ok(b) => match Self::outcome(b) {
                Ok(_) => Ok(()),
                Err(e) => Err(MessageError::Decode(e)),
            },
        }
    }

    /// Decodes the AIS message carried by one NMEA sentence, or by all the
    /// fragments of a multi-sentence message in order.
    pub fn from_nmea(sentences: &[&str]) -> (r: Result<Message, MessageError>)
        requires
            nmea_safe(sentence_views(sentences@)),
        ensures
            match r {
                Ok(m) => Self::nmea_outcome(sentence_views(sentences@)) is Ok && (nmea_binary(
                    sentence_views(sentences@),
                ) matches Ok(b) && m.decodes(b)),
                Err(e) => Self::nmea_outcome(sentence_views(sentences@)) == Err::<(), MessageError>(
                    e,
                ),
            },
    {
        match binary_from_nmea(sentences) {
            Err(e) => Err(MessageError::Nmea(e)),
            Ok(binary) => match Message::from_bytes(binary.as_slice()) {
                Ok(m) => Ok(m),
                Err(e) => Err(MessageError::Decode(e)),
            },
        }
    }
}

impl Message {
    /// Whether [`Message::from_nmea`] can take `sentences`: every payload
    /// that is de-armored on the way to the binary message has room for its
    /// fill bits.
    pub fn accepts_nmea(sentences: &[&str]) -> (r: bool)
        ensures
            r == nmea_safe(sentence_views(sentences@)),
    {
        let ghost v = sentence_views(sentences@);
        if sentences.len() == 1 {
            assert(v[0] == sentences@[0]@);
            return match NmeaAisMessage::parse(sentences[0]) {
                Ok(m) => {
                    let cs = chars_of(m.payload.as_str());
                    fill_fits_exec(cs.as_slice(), m.fill_bits)
                },
                Err(_) => true,
            };
        }
        let mut msgs: Vec<NmeaAisMessage> = Vec::new();
        let mut i: usize = 0;
        assert(v.take(0) =~= Seq::<Seq<char>>::empty());
        assert(msgs_view(msgs@) =~= Seq::<NmeaView>::empty());
        while i < sentences.len()
            invariant
                i <= sentences@.len(),
                v == sentence_views(sentences@),
                parse_all(v.take(i as int)) == Ok::<Seq<NmeaView>, NmeaError>(msgs_view(msgs@)),
            decreases sentences@.len() - i,
        {
            proof {
                lemma_parse_all_step(v, i as int);
            }
            let ghost before = msgs_view(msgs@);
            assert(v[i as int] == sentences@[i as int]@);
            match NmeaAisMessage::parse(sentences[i]) {
                Ok(m) => {
                    msgs.push(m);
                    assert(msgs_view(msgs@) =~= before.push(m@));
                },
                Err(_) => {
                    proof {
                        lemma_parse_all_prefix(v, i + 1);
                    }
                    return true;
                },
            }
            i = i + 1;
        }
        assert(v.take(v.len() as int) =~= v);
        let ghost all = msgs_view(msgs@);
        let mut assembler = MessageAssembler::new();
        let mut rest = msgs;
        while rest.len() > 0
            invariant
                assembler.wf(),
                v == sentence_views(sentences@),
                v.len() != 1,
                parse_all(v) == Ok::<Seq<NmeaView>, NmeaError>(all),
                assemble_safe(assembler.pending(), msgs_view(rest@)) == assemble_safe(
                    Seq::empty(),
                    all,
                ),
            decreases rest@.len(),
        {
            let ghost rv = msgs_view(rest@);
            let message = rest.remove(0);
            assert(msgs_view(rest@) =~= rv.drop_first());
            assert(message@ == rv[0]);
            let ghost p0 = assembler.pending();
            if !assembler.accepts(&message) {
                return false;
            }
            let r = assembler.add_fragment(message);
            assert(spec_add_fragment(p0, rv[0]).1 == outcome_view(r));
            match r {
                Ok(None) => {},
                _ => {
                    return true;
                },
            }
        }
        assert(msgs_view(rest@) =~= Seq::<NmeaView>::empty());
        true
    }
}

/// The binary message carried by NMEA sentences.
fn binary_from_nmea(sentences: &[&str]) -> (r: Result<Vec<u8>, NmeaError>)
    requires
        nmea_safe(sentence_views(sentences@)),
    ensures
        match r {
            Ok(b) => nmea_binary(sentence_views(sentences@)) == Ok::<Seq<u8>, NmeaError>(b@),
            Err(e) => nmea_binary(sentence_views(sentences@)) == Err::<Seq<u8>, NmeaError>(e),
        },
{
    let ghost v = sentence_views(sentences@);
    if sentences.len() == 1 {
        let m = match NmeaAisMessage::parse(sentences[0]) {
            Ok(m) => m,
            Err(e) => {
                return Err(e);
            },
        };
        m.payload_to_binary()
    } else {
        let mut msgs: Vec<NmeaAisMessage> = Vec::new();
        let mut i: usize = 0;
        assert(v.take(0) =~= Seq::<Seq<char>>::empty());
        assert(msgs_view(msgs@) =~= Seq::<NmeaView>::empty());
        while i < sentences.len()
            invariant
                i <= sentences@.len(),
                v == sentence_views(sentences@),
                parse_all(v.take(i as int)) == Ok::<Seq<NmeaView>, NmeaError>(msgs_view(msgs@)),
            decreases sentences@.len() - i,
        {
            proof {
                lemma_parse_all_step(v, i as int);
            }
            let ghost before = msgs_view(msgs@);
            assert(v[i as int] == sentences@[i as int]@);
            match NmeaAisMessage::parse(sentences[i]) {
                Ok(m) => {
                    msgs.push(m);
                    assert(msgs_view(msgs@) =~= before.push(m@));
                },
                Err(e) => {
                    proof {
                        lemma_parse_all_prefix(v, i + 1);
                    }
                    return Err(e);
                },
            }
            i = i + 1;
        }
        assert(v.take(v.len() as int) =~= v);
        MessageAssembler::assemble_from_iterable(msgs)
    }
}

} // verus!
