//! Enumerated field values of AIS messages.

use vstd::prelude::*;

verus! {

/// Navigation status values for AIS messages
#[derive(Debug, Clone, Copy, PartialEq, Eq, Hash, Structural)]
pub enum NavigationStatus {
    UnderWayUsingEngine,
    AtAnchor,
    NotUnderCommand,
    RestrictedManoeuverability,
    ConstrainedByHerDraught,
    Moored,
    Aground,
    EngagedInFishing,
    UnderWaySailing,
    ReservedForFutureAmendment9,
    ReservedForFutureAmendment10,
    PowerDrivenVesselTowingAstern,
    PowerDrivenVesselPushingAhead,
    ReservedForFutureUse13,
    AisSartIsActive,
    Undefined,
}

impl NavigationStatus {
    /// The code of this value in a message.
    pub open spec fn code(self) -> u8 {
        match self {
            NavigationStatus::UnderWayUsingEngine => 0,
            NavigationStatus::AtAnchor => 1,
            NavigationStatus::NotUnderCommand => 2,
            NavigationStatus::RestrictedManoeuverability => 3,
            NavigationStatus::ConstrainedByHerDraught => 4,
            NavigationStatus::Moored => 5,
            NavigationStatus::Aground => 6,
            NavigationStatus::EngagedInFishing => 7,
            NavigationStatus::UnderWaySailing => 8,
            NavigationStatus::ReservedForFutureAmendment9 => 9,
            NavigationStatus::ReservedForFutureAmendment10 => 10,
            NavigationStatus::PowerDrivenVesselTowingAstern => 11,
            NavigationStatus::PowerDrivenVesselPushingAhead => 12,
            NavigationStatus::ReservedForFutureUse13 => 13,
            NavigationStatus::AisSartIsActive => 14,
            NavigationStatus::Undefined => 15,
        }
    }

    /// The value of a code; codes without a value give `Undefined`.
    pub open spec fn spec_from_bits(bits: u8) -> Self {
        match bits {
            0 => NavigationStatus::UnderWayUsingEngine,
            1 => NavigationStatus::AtAnchor,
            2 => NavigationStatus::NotUnderCommand,
            3 => NavigationStatus::RestrictedManoeuverability,
            4 => NavigationStatus::ConstrainedByHerDraught,
            5 => NavigationStatus::Moored,
            6 => NavigationStatus::Aground,
            7 => NavigationStatus::EngagedInFishing,
            8 => NavigationStatus::UnderWaySailing,
            9 => NavigationStatus::ReservedForFutureAmendment9,
            10 => NavigationStatus::ReservedForFutureAmendment10,
            11 => NavigationStatus::PowerDrivenVesselTowingAstern,
            12 => NavigationStatus::PowerDrivenVesselPushingAhead,
            13 => NavigationStatus::ReservedForFutureUse13,
            14 => NavigationStatus::AisSartIsActive,
            _ => NavigationStatus::Undefined,
        }
    }

    pub fn from_bits(bits: u8) -> (r: Self)
        ensures
            r == Self::spec_from_bits(bits),
    {
        match bits {
            0 => NavigationStatus::UnderWayUsingEngine,
            1 => NavigationStatus::AtAnchor,
            2 => NavigationStatus::NotUnderCommand,
            3 => NavigationStatus::RestrictedManoeuverability,
            4 => NavigationStatus::ConstrainedByHerDraught,
            5 => NavigationStatus::Moored,
            6 => NavigationStatus::Aground,
            7 => NavigationStatus::EngagedInFishing,
            8 => NavigationStatus::UnderWaySailing,
            9 => NavigationStatus::ReservedForFutureAmendment9,
            10 => NavigationStatus::ReservedForFutureAmendment10,
            11 => NavigationStatus::PowerDrivenVesselTowingAstern,
            12 => NavigationStatus::PowerDrivenVesselPushingAhead,
            13 => NavigationStatus::ReservedForFutureUse13,
            14 => NavigationStatus::AisSartIsActive,
            _ => NavigationStatus::Undefined,
        }
    }

    pub fn to_bits(self) -> (r: u8)
        ensures
            r == self.code(),
    {
        match self {
            NavigationStatus::UnderWayUsingEngine => 0,
            NavigationStatus::AtAnchor => 1,
            NavigationStatus::NotUnderCommand => 2,
            NavigationStatus::RestrictedManoeuverability => 3,
            NavigationStatus::ConstrainedByHerDraught => 4,
            NavigationStatus::Moored => 5,
            NavigationStatus::Aground => 6,
            NavigationStatus::EngagedInFishing => 7,
            NavigationStatus::UnderWaySailing => 8,
            NavigationStatus::ReservedForFutureAmendment9 => 9,
            NavigationStatus::ReservedForFutureAmendment10 => 10,
            NavigationStatus::PowerDrivenVesselTowingAstern => 11,
            NavigationStatus::PowerDrivenVesselPushingAhead => 12,
            NavigationStatus::ReservedForFutureUse13 => 13,
            NavigationStatus::AisSartIsActive => 14,
            NavigationStatus::Undefined => 15,
        }
    }
}

/// Decoding the code of a value gives the value back.
pub proof fn lemma_navigation_status_code_roundtrip(v: NavigationStatus)
    ensures
        NavigationStatus::spec_from_bits(v.code()) == v,
{
}

/// Every code up to 15 names a value, whose code it is.
pub proof fn lemma_navigation_status_bits_roundtrip(bits: u8)
    requires
        bits <= 15,
    ensures
        NavigationStatus::spec_from_bits(bits).code() == bits,
{
}

/// Maneuver indicator values
#[derive(Debug, Clone, Copy, PartialEq, Eq, Hash, Structural)]
pub enum ManeuverIndicator {
    NotAvailable,
    NoSpecialManeuver,
    SpecialManeuver,
    UNDEFINED,
}

impl ManeuverIndicator {
    /// The code of this value in a message.
    pub open spec fn code(self) -> u8 {
        match self {
            ManeuverIndicator::NotAvailable => 0,
            ManeuverIndicator::NoSpecialManeuver => 1,
            ManeuverIndicator::SpecialManeuver => 2,
            ManeuverIndicator::UNDEFINED => 3,
        }
    }

    /// The value of a code; codes without a value give `UNDEFINED`.
    pub open spec fn spec_from_bits(bits: u8) -> Self {
        match bits {
            0 => ManeuverIndicator::NotAvailable,
            1 => ManeuverIndicator::NoSpecialManeuver,
            2 => ManeuverIndicator::SpecialManeuver,
            _ => ManeuverIndicator::UNDEFINED,
        }
    }

    pub fn from_bits(bits: u8) -> (r: Self)
        ensures
            r == Self::spec_from_bits(bits),
    {
        match bits {
            0 => ManeuverIndicator::NotAvailable,
            1 => ManeuverIndicator::NoSpecialManeuver,
            2 => ManeuverIndicator::SpecialManeuver,
            _ => ManeuverIndicator::UNDEFINED,
        }
    }

    pub fn to_bits(self) -> (r: u8)
        ensures
            r == self.code(),
    {
        match self {
            ManeuverIndicator::NotAvailable => 0,
            ManeuverIndicator::NoSpecialManeuver => 1,
            ManeuverIndicator::SpecialManeuver => 2,
            ManeuverIndicator::UNDEFINED => 3,
        }
    }
}

/// Decoding the code of a value gives the value back.
pub proof fn lemma_maneuver_indicator_code_roundtrip(v: ManeuverIndicator)
    ensures
        ManeuverIndicator::spec_from_bits(v.code()) == v,
{
}

/// Every code up to 3 names a value, whose code it is.
pub proof fn lemma_maneuver_indicator_bits_roundtrip(bits: u8)
    requires
        bits <= 3,
    ensures
        ManeuverIndicator::spec_from_bits(bits).code() == bits,
{
}

/// Electronic Position Fixing Device (EPFD) types
#[derive(Debug, Clone, Copy, PartialEq, Eq, Hash, Structural)]
pub enum EpfdType {
    Undefined,
    Gps,
    Glonass,
    CombinedGpsGlonass,
    LoranC,
    Chayka,
    IntegratedNavigationSystem,
    Surveyed,
    Galileo,
    InternalGnss,
}

impl EpfdType {
    /// The code of this value in a message.
    pub open spec fn code(self) -> u8 {
        match self {
            EpfdType::Undefined => 0,
            EpfdType::Gps => 1,
            EpfdType::Glonass => 2,
            EpfdType::CombinedGpsGlonass => 3,
            EpfdType::LoranC => 4,
            EpfdType::Chayka => 5,
            EpfdType::IntegratedNavigationSystem => 6,
            EpfdType::Surveyed => 7,
            EpfdType::Galileo => 8,
            EpfdType::InternalGnss => 15,
        }
    }

    /// The value of a code; codes without a value give `Undefined`.
    pub open spec fn spec_from_bits(bits: u8) -> Self {
        match bits {
            1 => EpfdType::Gps,
            2 => EpfdType::Glonass,
            3 => EpfdType::CombinedGpsGlonass,
            4 => EpfdType::LoranC,
            5 => EpfdType::Chayka,
            6 => EpfdType::IntegratedNavigationSystem,
            7 => EpfdType::Surveyed,
            8 => EpfdType::Galileo,
            15 => EpfdType::InternalGnss,
            _ => EpfdType::Undefined,
        }
    }

    pub fn from_bits(bits: u8) -> (r: Self)
        ensures
            r == Self::spec_from_bits(bits),
    {
        match bits {
            1 => EpfdType::Gps,
            2 => EpfdType::Glonass,
            3 => EpfdType::CombinedGpsGlonass,
            4 => EpfdType::LoranC,
            5 => EpfdType::Chayka,
            6 => EpfdType::IntegratedNavigationSystem,
            7 => EpfdType::Surveyed,
            8 => EpfdType::Galileo,
            15 => EpfdType::InternalGnss,
            _ => EpfdType::Undefined,
        }
    }

    /// The code of this value in a message.
    pub fn to_bits(self) -> (r: u8)
        ensures
            r == self.code(),
    {
        match self {
            EpfdType::Undefined => 0,
            EpfdType::Gps => 1,
            EpfdType::Glonass => 2,
            EpfdType::CombinedGpsGlonass => 3,
            EpfdType::LoranC => 4,
            EpfdType::Chayka => 5,
            EpfdType::IntegratedNavigationSystem => 6,
            EpfdType::Surveyed => 7,
            EpfdType::Galileo => 8,
            EpfdType::InternalGnss => 15,
        }
    }
}

/// Decoding the code of a value gives the value back.
pub proof fn lemma_epfd_type_code_roundtrip(v: EpfdType)
    ensures
        EpfdType::spec_from_bits(v.code()) == v,
{
}

/// Ship and cargo type values
#[derive(Debug, Clone, Copy, PartialEq, Eq, Hash, Structural)]
pub enum ShipType {
    NotAvailable,
    WingInGround,
    Fishing,
    Towing,
    TowingLarge,
    DredgingOrUnderwaterOps,
    DivingOps,
    MilitaryOps,
    Sailing,
    PleasureCraft,
    HighSpeedCraft,
    PilotVessel,
    SearchAndRescue,
    Tug,
    PortTender,
    AntiPollutionEquipment,
    LawEnforcement,
    MedicalTransport,
    NoncombatantShip,
    Passenger,
    Cargo,
    Tanker,
    Other,
}

impl ShipType {
    /// The code of this value in a message.
    pub open spec fn code(self) -> u8 {
        match self {
            ShipType::NotAvailable => 0,
            ShipType::WingInGround => 20,
            ShipType::Fishing => 30,
            ShipType::Towing => 31,
            ShipType::TowingLarge => 32,
            ShipType::DredgingOrUnderwaterOps => 33,
            ShipType::DivingOps => 34,
            ShipType::MilitaryOps => 35,
            ShipType::Sailing => 36,
            ShipType::PleasureCraft => 37,
            ShipType::HighSpeedCraft => 40,
            ShipType::PilotVessel => 50,
            ShipType::SearchAndRescue => 51,
            ShipType::Tug => 52,
            ShipType::PortTender => 53,
            ShipType::AntiPollutionEquipment => 54,
            ShipType::LawEnforcement => 55,
            ShipType::MedicalTransport => 58,
            ShipType::NoncombatantShip => 59,
            ShipType::Passenger => 60,
            ShipType::Cargo => 70,
            ShipType::Tanker => 80,
            ShipType::Other => 90,
        }
    }

    /// The value of a code; codes without a value give `NotAvailable`.
    pub open spec fn spec_from_bits(bits: u8) -> Self {
        match bits {
            20 => ShipType::WingInGround,
            30 => ShipType::Fishing,
            31 => ShipType::Towing,
            32 => ShipType::TowingLarge,
            33 => ShipType::DredgingOrUnderwaterOps,
            34 => ShipType::DivingOps,
            35 => ShipType::MilitaryOps,
            36 => ShipType::Sailing,
            37 => ShipType::PleasureCraft,
            40 => ShipType::HighSpeedCraft,
            50 => ShipType::PilotVessel,
            51 => ShipType::SearchAndRescue,
            52 => ShipType::Tug,
            53 => ShipType::PortTender,
            54 => ShipType::AntiPollutionEquipment,
            55 => ShipType::LawEnforcement,
            58 => ShipType::MedicalTransport,
            59 => ShipType::NoncombatantShip,
            60 => ShipType::Passenger,
            70 => ShipType::Cargo,
            80 => ShipType::Tanker,
            90 => ShipType::Other,
            _ => ShipType::NotAvailable,
        }
    }

    pub fn from_bits(bits: u8) -> (r: Self)
        ensures
            r == Self::spec_from_bits(bits),
    {
        match bits {
            20 => ShipType::WingInGround,
            30 => ShipType::Fishing,
            31 => ShipType::Towing,
            32 => ShipType::TowingLarge,
            33 => ShipType::DredgingOrUnderwaterOps,
            34 => ShipType::DivingOps,
            35 => ShipType::MilitaryOps,
            36 => ShipType::Sailing,
            37 => ShipType::PleasureCraft,
            40 => ShipType::HighSpeedCraft,
            50 => ShipType::PilotVessel,
            51 => ShipType::SearchAndRescue,
            52 => ShipType::Tug,
            53 => ShipType::PortTender,
            54 => ShipType::AntiPollutionEquipment,
            55 => ShipType::LawEnforcement,
            58 => ShipType::MedicalTransport,
            59 => ShipType::NoncombatantShip,
            60 => ShipType::Passenger,
            70 => ShipType::Cargo,
            80 => ShipType::Tanker,
            90 => ShipType::Other,
            _ => ShipType::NotAvailable,
        }
    }

    /// The code of this value in a message.
    pub fn to_bits(self) -> (r: u8)
        ensures
            r == self.code(),
    {
        match self {
            ShipType::NotAvailable => 0,
            ShipType::WingInGround => 20,
            ShipType::Fishing => 30,
            ShipType::Towing => 31,
            ShipType::TowingLarge => 32,
            ShipType::DredgingOrUnderwaterOps => 33,
            ShipType::DivingOps => 34,
            ShipType::MilitaryOps => 35,
            ShipType::Sailing => 36,
            ShipType::PleasureCraft => 37,
            ShipType::HighSpeedCraft => 40,
            ShipType::PilotVessel => 50,
            ShipType::SearchAndRescue => 51,
            ShipType::Tug => 52,
            ShipType::PortTender => 53,
            ShipType::AntiPollutionEquipment => 54,
            ShipType::LawEnforcement => 55,
            ShipType::MedicalTransport => 58,
            ShipType::NoncombatantShip => 59,
            ShipType::Passenger => 60,
            ShipType::Cargo => 70,
            ShipType::Tanker => 80,
            ShipType::Other => 90,
        }
    }
}

/// Decoding the code of a value gives the value back.
pub proof fn lemma_ship_type_code_roundtrip(v: ShipType)
    ensures
        ShipType::spec_from_bits(v.code()) == v,
{
}

/// Inland navigation load status
#[derive(Debug, Clone, Copy, PartialEq, Eq, Hash, Structural)]
pub enum InlandLoadedType {
    NotAvailable,
    Loaded,
    Unloaded,
    Reserved,
}

impl InlandLoadedType {
    /// The code of this value in a message.
    pub open spec fn code(self) -> u8 {
        match self {
            InlandLoadedType::NotAvailable => 0,
            InlandLoadedType::Loaded => 1,
            InlandLoadedType::Unloaded => 2,
            InlandLoadedType::Reserved => 3,
        }
    }

    /// The value of a code; codes without a value give `Reserved`.
    pub open spec fn spec_from_bits(bits: u8) -> Self {
        match bits {
            0 => InlandLoadedType::NotAvailable,
            1 => InlandLoadedType::Loaded,
            2 => InlandLoadedType::Unloaded,
            _ => InlandLoadedType::Reserved,
        }
    }

    pub fn from_bits(bits: u8) -> (r: Self)
        ensures
            r == Self::spec_from_bits(bits),
    {
        match bits {
            0 => InlandLoadedType::NotAvailable,
            1 => InlandLoadedType::Loaded,
            2 => InlandLoadedType::Unloaded,
            _ => InlandLoadedType::Reserved,
        }
    }

    /// The code of this value in a message.
    pub fn to_bits(self) -> (r: u8)
        ensures
            r == self.code(),
    {
        match self {
            InlandLoadedType::NotAvailable => 0,
            InlandLoadedType::Loaded => 1,
            InlandLoadedType::Unloaded => 2,
            InlandLoadedType::Reserved => 3,
        }
    }
}

/// Decoding the code of a value gives the value back.
pub proof fn lemma_inland_loaded_type_code_roundtrip(v: InlandLoadedType)
    ensures
        InlandLoadedType::spec_from_bits(v.code()) == v,
{
}

/// Every code up to 3 names a value, whose code it is.
pub proof fn lemma_inland_loaded_type_bits_roundtrip(bits: u8)
    requires
        bits <= 3,
    ensures
        InlandLoadedType::spec_from_bits(bits).code() == bits,
{
}

/// Type of aid to navigation
#[derive(Debug, Clone, Copy, PartialEq, Eq, Hash, Structural)]
pub enum NavAid {
    NotSpecified,
    ReferencePoint,
    Racon,
    FixedStructure,
    Spare,
    Light,
    LightWithSectors,
    LeadingLightFront,
    LeadingLightRear,
    BeaconCardinalN,
    BeaconCardinalE,
    BeaconCardinalS,
    BeaconCardinalW,
    BeaconPortHand,
    BeaconStarboardHand,
    BeaconPreferredChannelPortHand,
    BeaconPreferredChannelStarboardHand,
    BeaconIsolatedDanger,
    BeaconSafeWater,
    BeaconSpecialMark,
    CardinalMarkN,
    CardinalMarkE,
    CardinalMarkS,
    CardinalMarkW,
    PortHandMark,
    StarboardHandMark,
    PreferredChannelPortHand,
    PreferredChannelStarboardHand,
    IsolatedDanger,
    SafeWater,
    SpecialMark,
    LightVessel,
}

impl NavAid {
    /// The code of this value in a message.
    pub open spec fn code(self) -> u8 {
        match self {
            NavAid::NotSpecified => 0,
            NavAid::ReferencePoint => 1,
            NavAid::Racon => 2,
            NavAid::FixedStructure => 3,
            NavAid::Spare => 4,
            NavAid::Light => 5,
            NavAid::LightWithSectors => 6,
            NavAid::LeadingLightFront => 7,
            NavAid::LeadingLightRear => 8,
            NavAid::BeaconCardinalN => 9,
            NavAid::BeaconCardinalE => 10,
            NavAid::BeaconCardinalS => 11,
            NavAid::BeaconCardinalW => 12,
            NavAid::BeaconPortHand => 13,
            NavAid::BeaconStarboardHand => 14,
            NavAid::BeaconPreferredChannelPortHand => 15,
            NavAid::BeaconPreferredChannelStarboardHand => 16,
            NavAid::BeaconIsolatedDanger => 17,
            NavAid::BeaconSafeWater => 18,
            NavAid::BeaconSpecialMark => 19,
            NavAid::CardinalMarkN => 20,
            NavAid::CardinalMarkE => 21,
            NavAid::CardinalMarkS => 22,
            NavAid::CardinalMarkW => 23,
            NavAid::PortHandMark => 24,
            NavAid::StarboardHandMark => 25,
            NavAid::PreferredChannelPortHand => 26,
            NavAid::PreferredChannelStarboardHand => 27,
            NavAid::IsolatedDanger => 28,
            NavAid::SafeWater => 29,
            NavAid::SpecialMark => 30,
            NavAid::LightVessel => 31,
        }
    }

    /// The value of a code; codes without a value give `NotSpecified`.
    pub open spec fn spec_from_bits(bits: u8) -> Self {
        match bits {
            1 => NavAid::ReferencePoint,
            2 => NavAid::Racon,
            3 => NavAid::FixedStructure,
            4 => NavAid::Spare,
            5 => NavAid::Light,
            6 => NavAid::LightWithSectors,
            7 => NavAid::LeadingLightFront,
            8 => NavAid::LeadingLightRear,
            9 => NavAid::BeaconCardinalN,
            10 => NavAid::BeaconCardinalE,
            11 => NavAid::BeaconCardinalS,
            12 => NavAid::BeaconCardinalW,
            13 => NavAid::BeaconPortHand,
            14 => NavAid::BeaconStarboardHand,
            15 => NavAid::BeaconPreferredChannelPortHand,
            16 => NavAid::BeaconPreferredChannelStarboardHand,
            17 => NavAid::BeaconIsolatedDanger,
            18 => NavAid::BeaconSafeWater,
            19 => NavAid::BeaconSpecialMark,
            20 => NavAid::CardinalMarkN,
            21 => NavAid::CardinalMarkE,
            22 => NavAid::CardinalMarkS,
            23 => NavAid::CardinalMarkW,
            24 => NavAid::PortHandMark,
            25 => NavAid::StarboardHandMark,
            26 => NavAid::PreferredChannelPortHand,
            27 => NavAid::PreferredChannelStarboardHand,
            28 => NavAid::IsolatedDanger,
            29 => NavAid::SafeWater,
            30 => NavAid::SpecialMark,
            31 => NavAid::LightVessel,
            _ => NavAid::NotSpecified,
        }
    }

    pub fn from_bits(bits: u8) -> (r: Self)
        ensures
            r == Self::spec_from_bits(bits),
    {
        match bits {
            1 => NavAid::ReferencePoint,
            2 => NavAid::Racon,
            3 => NavAid::FixedStructure,
            4 => NavAid::Spare,
            5 => NavAid::Light,
            6 => NavAid::LightWithSectors,
            7 => NavAid::LeadingLightFront,
            8 => NavAid::LeadingLightRear,
            9 => NavAid::BeaconCardinalN,
            10 => NavAid::BeaconCardinalE,
            11 => NavAid::BeaconCardinalS,
            12 => NavAid::BeaconCardinalW,
            13 => NavAid::BeaconPortHand,
            14 => NavAid::BeaconStarboardHand,
            15 => NavAid::BeaconPreferredChannelPortHand,
            16 => NavAid::BeaconPreferredChannelStarboardHand,
            17 => NavAid::BeaconIsolatedDanger,
            18 => NavAid::BeaconSafeWater,
            19 => NavAid::BeaconSpecialMark,
            20 => NavAid::CardinalMarkN,
            21 => NavAid::CardinalMarkE,
            22 => NavAid::CardinalMarkS,
            23 => NavAid::CardinalMarkW,
            24 => NavAid::PortHandMark,
            25 => NavAid::StarboardHandMark,
            26 => NavAid::PreferredChannelPortHand,
            27 => NavAid::PreferredChannelStarboardHand,
            28 => NavAid::IsolatedDanger,
            29 => NavAid::SafeWater,
            30 => NavAid::SpecialMark,
            31 => NavAid::LightVessel,
            _ => NavAid::NotSpecified,
        }
    }

    /// The code of this value in a message.
    pub fn to_bits(self) -> (r: u8)
        ensures
            r == self.code(),
    {
        match self {
            NavAid::NotSpecified => 0,
            NavAid::ReferencePoint => 1,
            NavAid::Racon => 2,
            NavAid::FixedStructure => 3,
            NavAid::Spare => 4,
            NavAid::Light => 5,
            NavAid::LightWithSectors => 6,
            NavAid::LeadingLightFront => 7,
            NavAid::LeadingLightRear => 8,
            NavAid::BeaconCardinalN => 9,
            NavAid::BeaconCardinalE => 10,
            NavAid::BeaconCardinalS => 11,
            NavAid::BeaconCardinalW => 12,
            NavAid::BeaconPortHand => 13,
            NavAid::BeaconStarboardHand => 14,
            NavAid::BeaconPreferredChannelPortHand => 15,
            NavAid::BeaconPreferredChannelStarboardHand => 16,
            NavAid::BeaconIsolatedDanger => 17,
            NavAid::BeaconSafeWater => 18,
            NavAid::BeaconSpecialMark => 19,
            NavAid::CardinalMarkN => 20,
            NavAid::CardinalMarkE => 21,
            NavAid::CardinalMarkS => 22,
            NavAid::CardinalMarkW => 23,
            NavAid::PortHandMark => 24,
            NavAid::StarboardHandMark => 25,
            NavAid::PreferredChannelPortHand => 26,
            NavAid::PreferredChannelStarboardHand => 27,
            NavAid::IsolatedDanger => 28,
            NavAid::SafeWater => 29,
            NavAid::SpecialMark => 30,
            NavAid::LightVessel => 31,
        }
    }
}

/// Decoding the code of a value gives the value back.
pub proof fn lemma_nav_aid_code_roundtrip(v: NavAid)
    ensures
        NavAid::spec_from_bits(v.code()) == v,
{
}

/// Every code up to 31 names a value, whose code it is.
pub proof fn lemma_nav_aid_bits_roundtrip(bits: u8)
    requires
        bits <= 31,
    ensures
        NavAid::spec_from_bits(bits).code() == bits,
{
}

/// Station type
#[derive(Debug, Clone, Copy, PartialEq, Eq, Hash, Structural)]
pub enum StationType {
    AllMobiles,
    Reserved1,
    AllClassB,
    SarAirborne,
    AidToNavigation,
    ClassBShipborne,
    Regional,
    Regional2,
    Regional3,
    Regional4,
    Reserved10,
    Reserved11,
    Reserved12,
    Reserved13,
    Reserved14,
    Reserved15,
}

impl StationType {
    /// The code of this value in a message.
    pub open spec fn code(self) -> u8 {
        match self {
            StationType::AllMobiles => 0,
            StationType::Reserved1 => 1,
            StationType::AllClassB => 2,
            StationType::SarAirborne => 3,
            StationType::AidToNavigation => 4,
            StationType::ClassBShipborne => 5,
            StationType::Regional => 6,
            StationType::Regional2 => 7,
            StationType::Regional3 => 8,
            StationType::Regional4 => 9,
            StationType::Reserved10 => 10,
            StationType::Reserved11 => 11,
            StationType::Reserved12 => 12,
            StationType::Reserved13 => 13,
            StationType::Reserved14 => 14,
            StationType::Reserved15 => 15,
        }
    }

    /// The value of a code; codes without a value give `AllMobiles`.
    pub open spec fn spec_from_bits(bits: u8) -> Self {
        match bits {
            1 => StationType::Reserved1,
            2 => StationType::AllClassB,
            3 => StationType::SarAirborne,
            4 => StationType::AidToNavigation,
            5 => StationType::ClassBShipborne,
            6 => StationType::Regional,
            7 => StationType::Regional2,
            8 => StationType::Regional3,
            9 => StationType::Regional4,
            10 => StationType::Reserved10,
            11 => StationType::Reserved11,
            12 => StationType::Reserved12,
            13 => StationType::Reserved13,
            14 => StationType::Reserved14,
            15 => StationType::Reserved15,
            _ => StationType::AllMobiles,
        }
    }

    pub fn from_bits(bits: u8) -> (r: Self)
        ensures
            r == Self::spec_from_bits(bits),
    {
        match bits {
            1 => StationType::Reserved1,
            2 => StationType::AllClassB,
            3 => StationType::SarAirborne,
            4 => StationType::AidToNavigation,
            5 => StationType::ClassBShipborne,
            6 => StationType::Regional,
            7 => StationType::Regional2,
            8 => StationType::Regional3,
            9 => StationType::Regional4,
            10 => StationType::Reserved10,
            11 => StationType::Reserved11,
            12 => StationType::Reserved12,
            13 => StationType::Reserved13,
            14 => StationType::Reserved14,
            15 => StationType::Reserved15,
            _ => StationType::AllMobiles,
        }
    }

    /// The code of this value in a message.
    pub fn to_bits(self) -> (r: u8)
        ensures
            r == self.code(),
    {
        match self {
            StationType::AllMobiles => 0,
            StationType::Reserved1 => 1,
            StationType::AllClassB => 2,
            StationType::SarAirborne => 3,
            StationType::AidToNavigation => 4,
            StationType::ClassBShipborne => 5,
            StationType::Regional => 6,
            StationType::Regional2 => 7,
            StationType::Regional3 => 8,
            StationType::Regional4 => 9,
            StationType::Reserved10 => 10,
            StationType::Reserved11 => 11,
            StationType::Reserved12 => 12,
            StationType::Reserved13 => 13,
            StationType::Reserved14 => 14,
            StationType::Reserved15 => 15,
        }
    }
}

/// Decoding the code of a value gives the value back.
pub proof fn lemma_station_type_code_roundtrip(v: StationType)
    ensures
        StationType::spec_from_bits(v.code()) == v,
{
}

/// Every code up to 15 names a value, whose code it is.
pub proof fn lemma_station_type_bits_roundtrip(bits: u8)
    requires
        bits <= 15,
    ensures
        StationType::spec_from_bits(bits).code() == bits,
{
}

/// Transmit/receive mode
#[derive(Debug, Clone, Copy, PartialEq, Eq, Hash, Structural)]
pub enum TransmitMode {
    TxATxBRxARxB,
    TxARxARxB,
    TxBRxARxB,
    Reserved,
}

impl TransmitMode {
    /// The code of this value in a message.
    pub open spec fn code(self) -> u8 {
        match self {
            TransmitMode::TxATxBRxARxB => 0,
            TransmitMode::TxARxARxB => 1,
            TransmitMode::TxBRxARxB => 2,
            TransmitMode::Reserved => 3,
        }
    }

    /// The value of a code; codes without a value give `TxATxBRxARxB`.
    pub open spec fn spec_from_bits(bits: u8) -> Self {
        match bits {
            1 => TransmitMode::TxARxARxB,
            2 => TransmitMode::TxBRxARxB,
            3 => TransmitMode::Reserved,
            _ => TransmitMode::TxATxBRxARxB,
        }
    }

    pub fn from_bits(bits: u8) -> (r: Self)
        ensures
            r == Self::spec_from_bits(bits),
    {
        match bits {
            1 => TransmitMode::TxARxARxB,
            2 => TransmitMode::TxBRxARxB,
            3 => TransmitMode::Reserved,
            _ => TransmitMode::TxATxBRxARxB,
        }
    }

    /// The code of this value in a message.
    pub fn to_bits(self) -> (r: u8)
        ensures
            r == self.code(),
    {
        match self {
            TransmitMode::TxATxBRxARxB => 0,
            TransmitMode::TxARxARxB => 1,
            TransmitMode::TxBRxARxB => 2,
            TransmitMode::Reserved => 3,
        }
    }
}

/// Decoding the code of a value gives the value back.
pub proof fn lemma_transmit_mode_code_roundtrip(v: TransmitMode)
    ensures
        TransmitMode::spec_from_bits(v.code()) == v,
{
}

/// Every code up to 3 names a value, whose code it is.
pub proof fn lemma_transmit_mode_bits_roundtrip(bits: u8)
    requires
        bits <= 3,
    ensures
        TransmitMode::spec_from_bits(bits).code() == bits,
{
}

/// Station reporting intervals
#[derive(Debug, Clone, Copy, PartialEq, Eq, Hash, Structural)]
pub enum StationIntervals {
    Autonomous,
    Minutes10,
    Minutes6,
    Minutes3,
    Minute1,
    Seconds30,
    Seconds15,
    Seconds10,
    Seconds5,
    NextShorter,
    NextLonger,
    Reserved11,
    Reserved12,
    Reserved13,
    Reserved14,
    Reserved15,
}

impl StationIntervals {
    /// The code of this value in a message.
    pub open spec fn code(self) -> u8 {
        match self {
            StationIntervals::Autonomous => 0,
            StationIntervals::Minutes10 => 1,
            StationIntervals::Minutes6 => 2,
            StationIntervals::Minutes3 => 3,
            StationIntervals::Minute1 => 4,
            StationIntervals::Seconds30 => 5,
            StationIntervals::Seconds15 => 6,
            StationIntervals::Seconds10 => 7,
            StationIntervals::Seconds5 => 8,
            StationIntervals::NextShorter => 9,
            StationIntervals::NextLonger => 10,
            StationIntervals::Reserved11 => 11,
            StationIntervals::Reserved12 => 12,
            StationIntervals::Reserved13 => 13,
            StationIntervals::Reserved14 => 14,
            StationIntervals::Reserved15 => 15,
        }
    }

    /// The value of a code; codes without a value give `Autonomous`.
    pub open spec fn spec_from_bits(bits: u8) -> Self {
        match bits {
            1 => StationIntervals::Minutes10,
            2 => StationIntervals::Minutes6,
            3 => StationIntervals::Minutes3,
            4 => StationIntervals::Minute1,
            5 => StationIntervals::Seconds30,
            6 => StationIntervals::Seconds15,
            7 => StationIntervals::Seconds10,
            8 => StationIntervals::Seconds5,
            9 => StationIntervals::NextShorter,
            10 => StationIntervals::NextLonger,
            11 => StationIntervals::Reserved11,
            12 => StationIntervals::Reserved12,
            13 => StationIntervals::Reserved13,
            14 => StationIntervals::Reserved14,
            15 => StationIntervals::Reserved15,
            _ => StationIntervals::Autonomous,
        }
    }

    pub fn from_bits(bits: u8) -> (r: Self)
        ensures
            r == Self::spec_from_bits(bits),
    {
        match bits {
            1 => StationIntervals::Minutes10,
            2 => StationIntervals::Minutes6,
            3 => StationIntervals::Minutes3,
            4 => StationIntervals::Minute1,
            5 => StationIntervals::Seconds30,
            6 => StationIntervals::Seconds15,
            7 => StationIntervals::Seconds10,
            8 => StationIntervals::Seconds5,
            9 => StationIntervals::NextShorter,
            10 => StationIntervals::NextLonger,
            11 => StationIntervals::Reserved11,
            12 => StationIntervals::Reserved12,
            13 => StationIntervals::Reserved13,
            14 => StationIntervals::Reserved14,
            15 => StationIntervals::Reserved15,
            _ => StationIntervals::Autonomous,
        }
    }

    /// The code of this value in a message.
    pub fn to_bits(self) -> (r: u8)
        ensures
            r == self.code(),
    {
        match self {
            StationIntervals::Autonomous => 0,
            StationIntervals::Minutes10 => 1,
            StationIntervals::Minutes6 => 2,
            StationIntervals::Minutes3 => 3,
            StationIntervals::Minute1 => 4,
            StationIntervals::Seconds30 => 5,
            StationIntervals::Seconds15 => 6,
            StationIntervals::Seconds10 => 7,
            StationIntervals::Seconds5 => 8,
            StationIntervals::NextShorter => 9,
            StationIntervals::NextLonger => 10,
            StationIntervals::Reserved11 => 11,
            StationIntervals::Reserved12 => 12,
            StationIntervals::Reserved13 => 13,
            StationIntervals::Reserved14 => 14,
            StationIntervals::Reserved15 => 15,
        }
    }
}

/// Decoding the code of a value gives the value back.
pub proof fn lemma_station_intervals_code_roundtrip(v: StationIntervals)
    ensures
        StationIntervals::spec_from_bits(v.code()) == v,
{
}

/// Every code up to 15 names a value, whose code it is.
pub proof fn lemma_station_intervals_bits_roundtrip(bits: u8)
    requires
        bits <= 15,
    ensures
        StationIntervals::spec_from_bits(bits).code() == bits,
{
}
/// Time stamp field of position reports: the UTC second of the report,
/// or the reason it is missing.
#[derive(Debug, Clone, Copy, PartialEq, Eq, Hash, Structural)]
pub enum Timestamp {
    /// UTC second, 0-59
    Second(u8),
    /// 60: time stamp not available
    NotAvailable,
    /// 61: positioning system in manual input mode
    ManualInput,
    /// 62: electronic position fixing system in estimated (dead reckoning) mode
    DeadReckoning,
    /// 63: positioning system inoperative
    Inoperative,
}

impl Timestamp {
    pub open spec fn spec_from_bits(bits: u8) -> Self {
        if bits < 60 {
            Timestamp::Second(bits)
        } else if bits == 61 {
            Timestamp::ManualInput
        } else if bits == 62 {
            Timestamp::DeadReckoning
        } else if bits == 63 {
            Timestamp::Inoperative
        } else {
            Timestamp::NotAvailable
        }
    }

    pub fn from_bits(bits: u8) -> (r: Self)
        ensures
            r == Self::spec_from_bits(bits),
    {
        if bits < 60 {
            Timestamp::Second(bits)
        } else if bits == 61 {
            Timestamp::ManualInput
        } else if bits == 62 {
            Timestamp::DeadReckoning
        } else if bits == 63 {
            Timestamp::Inoperative
        } else {
            Timestamp::NotAvailable
        }
    }
}

/// Rate-of-turn indicator codes (see `PositionReport::turn`).
pub struct TurnRate;

impl TurnRate {
    /// No turn information available (default)
    pub const NO_TI_DEFAULT: i8 = -128;
    /// Turn information not available
    pub const NOT_AVAILABLE: i8 = -128;
    /// No turn
    pub const NO_TURN: i8 = 0;
}

} // verus!
