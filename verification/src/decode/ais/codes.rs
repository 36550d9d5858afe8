//! The code tables of the message fields, as the AIS message formats
//! (ITU-R M.1371) number them: each law lists every code with its value,
//! and the value of every code that is not listed.

use vstd::prelude::*;
use crate::decode::ais::common::{
    EpfdType, InlandLoadedType, ManeuverIndicator, NavAid, NavigationStatus, ShipType,
    StationIntervals, StationType, Timestamp, TransmitMode,
};

verus! {

/// Navigation status: the value of every 8-bit code, and the code of every value.
pub proof fn lemma_navigation_status_table()
    ensures
        NavigationStatus::spec_from_bits(0) == NavigationStatus::UnderWayUsingEngine,
        NavigationStatus::spec_from_bits(1) == NavigationStatus::AtAnchor,
        NavigationStatus::spec_from_bits(2) == NavigationStatus::NotUnderCommand,
        NavigationStatus::spec_from_bits(3) == NavigationStatus::RestrictedManoeuverability,
        NavigationStatus::spec_from_bits(4) == NavigationStatus::ConstrainedByHerDraught,
        NavigationStatus::spec_from_bits(5) == NavigationStatus::Moored,
        NavigationStatus::spec_from_bits(6) == NavigationStatus::Aground,
        NavigationStatus::spec_from_bits(7) == NavigationStatus::EngagedInFishing,
        NavigationStatus::spec_from_bits(8) == NavigationStatus::UnderWaySailing,
        NavigationStatus::spec_from_bits(9) == NavigationStatus::ReservedForFutureAmendment9,
        NavigationStatus::spec_from_bits(10) == NavigationStatus::ReservedForFutureAmendment10,
        NavigationStatus::spec_from_bits(11) == NavigationStatus::PowerDrivenVesselTowingAstern,
        NavigationStatus::spec_from_bits(12) == NavigationStatus::PowerDrivenVesselPushingAhead,
        NavigationStatus::spec_from_bits(13) == NavigationStatus::ReservedForFutureUse13,
        NavigationStatus::spec_from_bits(14) == NavigationStatus::AisSartIsActive,
        forall|b: u8|
            b != 0 && b != 1 && b != 2 && b != 3 && b != 4 && b != 5 && b != 6 && b != 7
                && b != 8 && b != 9 && b != 10 && b != 11 && b != 12 && b != 13 && b != 14
                ==> #[trigger] NavigationStatus::spec_from_bits(b) == NavigationStatus::Undefined,
        NavigationStatus::UnderWayUsingEngine.code() == 0,
        NavigationStatus::AtAnchor.code() == 1,
        NavigationStatus::NotUnderCommand.code() == 2,
        NavigationStatus::RestrictedManoeuverability.code() == 3,
        NavigationStatus::ConstrainedByHerDraught.code() == 4,
        NavigationStatus::Moored.code() == 5,
        NavigationStatus::Aground.code() == 6,
        NavigationStatus::EngagedInFishing.code() == 7,
        NavigationStatus::UnderWaySailing.code() == 8,
        NavigationStatus::ReservedForFutureAmendment9.code() == 9,
        NavigationStatus::ReservedForFutureAmendment10.code() == 10,
        NavigationStatus::PowerDrivenVesselTowingAstern.code() == 11,
        NavigationStatus::PowerDrivenVesselPushingAhead.code() == 12,
        NavigationStatus::ReservedForFutureUse13.code() == 13,
        NavigationStatus::AisSartIsActive.code() == 14,
        NavigationStatus::Undefined.code() == 15,
{
}

/// Special manoeuvre indicator: the value of every 8-bit code, and the code of every value.
pub proof fn lemma_maneuver_indicator_table()
    ensures
        ManeuverIndicator::spec_from_bits(0) == ManeuverIndicator::NotAvailable,
        ManeuverIndicator::spec_from_bits(1) == ManeuverIndicator::NoSpecialManeuver,
        ManeuverIndicator::spec_from_bits(2) == ManeuverIndicator::SpecialManeuver,
        forall|b: u8|
            b != 0 && b != 1 && b != 2
                ==> #[trigger] ManeuverIndicator::spec_from_bits(b) == ManeuverIndicator::UNDEFINED,
        ManeuverIndicator::NotAvailable.code() == 0,
        ManeuverIndicator::NoSpecialManeuver.code() == 1,
        ManeuverIndicator::SpecialManeuver.code() == 2,
        ManeuverIndicator::UNDEFINED.code() == 3,
{
}

/// Type of electronic position fixing device: the value of every 8-bit code, and the code of every value.
pub proof fn lemma_epfd_type_table()
    ensures
        EpfdType::spec_from_bits(0) == EpfdType::Undefined,
        EpfdType::spec_from_bits(1) == EpfdType::Gps,
        EpfdType::spec_from_bits(2) == EpfdType::Glonass,
        EpfdType::spec_from_bits(3) == EpfdType::CombinedGpsGlonass,
        EpfdType::spec_from_bits(4) == EpfdType::LoranC,
        EpfdType::spec_from_bits(5) == EpfdType::Chayka,
        EpfdType::spec_from_bits(6) == EpfdType::IntegratedNavigationSystem,
        EpfdType::spec_from_bits(7) == EpfdType::Surveyed,
        EpfdType::spec_from_bits(8) == EpfdType::Galileo,
        EpfdType::spec_from_bits(15) == EpfdType::InternalGnss,
        forall|b: u8|
            b != 0 && b != 1 && b != 2 && b != 3 && b != 4 && b != 5 && b != 6 && b != 7
                && b != 8 && b != 15
                ==> #[trigger] EpfdType::spec_from_bits(b) == EpfdType::Undefined,
        EpfdType::Undefined.code() == 0,
        EpfdType::Gps.code() == 1,
        EpfdType::Glonass.code() == 2,
        EpfdType::CombinedGpsGlonass.code() == 3,
        EpfdType::LoranC.code() == 4,
        EpfdType::Chayka.code() == 5,
        EpfdType::IntegratedNavigationSystem.code() == 6,
        EpfdType::Surveyed.code() == 7,
        EpfdType::Galileo.code() == 8,
        EpfdType::InternalGnss.code() == 15,
{
}

/// Ship and cargo type: the value of every 8-bit code, and the code of every value.
pub proof fn lemma_ship_type_table()
    ensures
        ShipType::spec_from_bits(0) == ShipType::NotAvailable,
        ShipType::spec_from_bits(20) == ShipType::WingInGround,
        ShipType::spec_from_bits(30) == ShipType::Fishing,
        ShipType::spec_from_bits(31) == ShipType::Towing,
        ShipType::spec_from_bits(32) == ShipType::TowingLarge,
        ShipType::spec_from_bits(33) == ShipType::DredgingOrUnderwaterOps,
        ShipType::spec_from_bits(34) == ShipType::DivingOps,
        ShipType::spec_from_bits(35) == ShipType::MilitaryOps,
        ShipType::spec_from_bits(36) == ShipType::Sailing,
        ShipType::spec_from_bits(37) == ShipType::PleasureCraft,
        ShipType::spec_from_bits(40) == ShipType::HighSpeedCraft,
        ShipType::spec_from_bits(50) == ShipType::PilotVessel,
        ShipType::spec_from_bits(51) == ShipType::SearchAndRescue,
        ShipType::spec_from_bits(52) == ShipType::Tug,
        ShipType::spec_from_bits(53) == ShipType::PortTender,
        ShipType::spec_from_bits(54) == ShipType::AntiPollutionEquipment,
        ShipType::spec_from_bits(55) == ShipType::LawEnforcement,
        ShipType::spec_from_bits(58) == ShipType::MedicalTransport,
        ShipType::spec_from_bits(59) == ShipType::NoncombatantShip,
        ShipType::spec_from_bits(60) == ShipType::Passenger,
        ShipType::spec_from_bits(70) == ShipType::Cargo,
        ShipType::spec_from_bits(80) == ShipType::Tanker,
        ShipType::spec_from_bits(90) == ShipType::Other,
        forall|b: u8|
            b != 0 && b != 20 && b != 30 && b != 31 && b != 32 && b != 33 && b != 34 && b != 35
                && b != 36 && b != 37 && b != 40 && b != 50 && b != 51 && b != 52 && b != 53 && b != 54
                && b != 55 && b != 58 && b != 59 && b != 60 && b != 70 && b != 80 && b != 90
                ==> #[trigger] ShipType::spec_from_bits(b) == ShipType::NotAvailable,
        ShipType::NotAvailable.code() == 0,
        ShipType::WingInGround.code() == 20,
        ShipType::Fishing.code() == 30,
        ShipType::Towing.code() == 31,
        ShipType::TowingLarge.code() == 32,
        ShipType::DredgingOrUnderwaterOps.code() == 33,
        ShipType::DivingOps.code() == 34,
        ShipType::MilitaryOps.code() == 35,
        ShipType::Sailing.code() == 36,
        ShipType::PleasureCraft.code() == 37,
        ShipType::HighSpeedCraft.code() == 40,
        ShipType::PilotVessel.code() == 50,
        ShipType::SearchAndRescue.code() == 51,
        ShipType::Tug.code() == 52,
        ShipType::PortTender.code() == 53,
        ShipType::AntiPollutionEquipment.code() == 54,
        ShipType::LawEnforcement.code() == 55,
        ShipType::MedicalTransport.code() == 58,
        ShipType::NoncombatantShip.code() == 59,
        ShipType::Passenger.code() == 60,
        ShipType::Cargo.code() == 70,
        ShipType::Tanker.code() == 80,
        ShipType::Other.code() == 90,
{
}

/// Inland load status: the value of every 8-bit code, and the code of every value.
pub proof fn lemma_inland_loaded_type_table()
    ensures
        InlandLoadedType::spec_from_bits(0) == InlandLoadedType::NotAvailable,
        InlandLoadedType::spec_from_bits(1) == InlandLoadedType::Loaded,
        InlandLoadedType::spec_from_bits(2) == InlandLoadedType::Unloaded,
        forall|b: u8|
            b != 0 && b != 1 && b != 2
                ==> #[trigger] InlandLoadedType::spec_from_bits(b) == InlandLoadedType::Reserved,
        InlandLoadedType::NotAvailable.code() == 0,
        InlandLoadedType::Loaded.code() == 1,
        InlandLoadedType::Unloaded.code() == 2,
        InlandLoadedType::Reserved.code() == 3,
{
}

/// Type of aid to navigation: the value of every 8-bit code, and the code of every value.
pub proof fn lemma_nav_aid_table()
    ensures
        NavAid::spec_from_bits(0) == NavAid::NotSpecified,
        NavAid::spec_from_bits(1) == NavAid::ReferencePoint,
        NavAid::spec_from_bits(2) == NavAid::Racon,
        NavAid::spec_from_bits(3) == NavAid::FixedStructure,
        NavAid::spec_from_bits(4) == NavAid::Spare,
        NavAid::spec_from_bits(5) == NavAid::Light,
        NavAid::spec_from_bits(6) == NavAid::LightWithSectors,
        NavAid::spec_from_bits(7) == NavAid::LeadingLightFront,
        NavAid::spec_from_bits(8) == NavAid::LeadingLightRear,
        NavAid::spec_from_bits(9) == NavAid::BeaconCardinalN,
        NavAid::spec_from_bits(10) == NavAid::BeaconCardinalE,
        NavAid::spec_from_bits(11) == NavAid::BeaconCardinalS,
        NavAid::spec_from_bits(12) == NavAid::BeaconCardinalW,
        NavAid::spec_from_bits(13) == NavAid::BeaconPortHand,
        NavAid::spec_from_bits(14) == NavAid::BeaconStarboardHand,
        NavAid::spec_from_bits(15) == NavAid::BeaconPreferredChannelPortHand,
        NavAid::spec_from_bits(16) == NavAid::BeaconPreferredChannelStarboardHand,
        NavAid::spec_from_bits(17) == NavAid::BeaconIsolatedDanger,
        NavAid::spec_from_bits(18) == NavAid::BeaconSafeWater,
        NavAid::spec_from_bits(19) == NavAid::BeaconSpecialMark,
        NavAid::spec_from_bits(20) == NavAid::CardinalMarkN,
        NavAid::spec_from_bits(21) == NavAid::CardinalMarkE,
        NavAid::spec_from_bits(22) == NavAid::CardinalMarkS,
        NavAid::spec_from_bits(23) == NavAid::CardinalMarkW,
        NavAid::spec_from_bits(24) == NavAid::PortHandMark,
        NavAid::spec_from_bits(25) == NavAid::StarboardHandMark,
        NavAid::spec_from_bits(26) == NavAid::PreferredChannelPortHand,
        NavAid::spec_from_bits(27) == NavAid::PreferredChannelStarboardHand,
        NavAid::spec_from_bits(28) == NavAid::IsolatedDanger,
        NavAid::spec_from_bits(29) == NavAid::SafeWater,
        NavAid::spec_from_bits(30) == NavAid::SpecialMark,
        NavAid::spec_from_bits(31) == NavAid::LightVessel,
        forall|b: u8|
            b != 0 && b != 1 && b != 2 && b != 3 && b != 4 && b != 5 && b != 6 && b != 7
                && b != 8 && b != 9 && b != 10 && b != 11 && b != 12 && b != 13 && b != 14 && b != 15
                && b != 16 && b != 17 && b != 18 && b != 19 && b != 20 && b != 21 && b != 22 && b != 23
                && b != 24 && b != 25 && b != 26 && b != 27 && b != 28 && b != 29 && b != 30 && b != 31
                ==> #[trigger] NavAid::spec_from_bits(b) == NavAid::NotSpecified,
        NavAid::NotSpecified.code() == 0,
        NavAid::ReferencePoint.code() == 1,
        NavAid::Racon.code() == 2,
        NavAid::FixedStructure.code() == 3,
        NavAid::Spare.code() == 4,
        NavAid::Light.code() == 5,
        NavAid::LightWithSectors.code() == 6,
        NavAid::LeadingLightFront.code() == 7,
        NavAid::LeadingLightRear.code() == 8,
        NavAid::BeaconCardinalN.code() == 9,
        NavAid::BeaconCardinalE.code() == 10,
        NavAid::BeaconCardinalS.code() == 11,
        NavAid::BeaconCardinalW.code() == 12,
        NavAid::BeaconPortHand.code() == 13,
        NavAid::BeaconStarboardHand.code() == 14,
        NavAid::BeaconPreferredChannelPortHand.code() == 15,
        NavAid::BeaconPreferredChannelStarboardHand.code() == 16,
        NavAid::BeaconIsolatedDanger.code() == 17,
        NavAid::BeaconSafeWater.code() == 18,
        NavAid::BeaconSpecialMark.code() == 19,
        NavAid::CardinalMarkN.code() == 20,
        NavAid::CardinalMarkE.code() == 21,
        NavAid::CardinalMarkS.code() == 22,
        NavAid::CardinalMarkW.code() == 23,
        NavAid::PortHandMark.code() == 24,
        NavAid::StarboardHandMark.code() == 25,
        NavAid::PreferredChannelPortHand.code() == 26,
        NavAid::PreferredChannelStarboardHand.code() == 27,
        NavAid::IsolatedDanger.code() == 28,
        NavAid::SafeWater.code() == 29,
        NavAid::SpecialMark.code() == 30,
        NavAid::LightVessel.code() == 31,
{
}

/// Station type of group assignment: the value of every 8-bit code, and the code of every value.
pub proof fn lemma_station_type_table()
    ensures
        StationType::spec_from_bits(0) == StationType::AllMobiles,
        StationType::spec_from_bits(1) == StationType::Reserved1,
        StationType::spec_from_bits(2) == StationType::AllClassB,
        StationType::spec_from_bits(3) == StationType::SarAirborne,
        StationType::spec_from_bits(4) == StationType::AidToNavigation,
        StationType::spec_from_bits(5) == StationType::ClassBShipborne,
        StationType::spec_from_bits(6) == StationType::Regional,
        StationType::spec_from_bits(7) == StationType::Regional2,
        StationType::spec_from_bits(8) == StationType::Regional3,
        StationType::spec_from_bits(9) == StationType::Regional4,
        StationType::spec_from_bits(10) == StationType::Reserved10,
        StationType::spec_from_bits(11) == StationType::Reserved11,
        StationType::spec_from_bits(12) == StationType::Reserved12,
        StationType::spec_from_bits(13) == StationType::Reserved13,
        StationType::spec_from_bits(14) == StationType::Reserved14,
        StationType::spec_from_bits(15) == StationType::Reserved15,
        forall|b: u8|
            b != 0 && b != 1 && b != 2 && b != 3 && b != 4 && b != 5 && b != 6 && b != 7
                && b != 8 && b != 9 && b != 10 && b != 11 && b != 12 && b != 13 && b != 14 && b != 15
                ==> #[trigger] StationType::spec_from_bits(b) == StationType::AllMobiles,
        StationType::AllMobiles.code() == 0,
        StationType::Reserved1.code() == 1,
        StationType::AllClassB.code() == 2,
        StationType::SarAirborne.code() == 3,
        StationType::AidToNavigation.code() == 4,
        StationType::ClassBShipborne.code() == 5,
        StationType::Regional.code() == 6,
        StationType::Regional2.code() == 7,
        StationType::Regional3.code() == 8,
        StationType::Regional4.code() == 9,
        StationType::Reserved10.code() == 10,
        StationType::Reserved11.code() == 11,
        StationType::Reserved12.code() == 12,
        StationType::Reserved13.code() == 13,
        StationType::Reserved14.code() == 14,
        StationType::Reserved15.code() == 15,
{
}

/// Transmit/receive mode: the value of every 8-bit code, and the code of every value.
pub proof fn lemma_transmit_mode_table()
    ensures
        TransmitMode::spec_from_bits(0) == TransmitMode::TxATxBRxARxB,
        TransmitMode::spec_from_bits(1) == TransmitMode::TxARxARxB,
        TransmitMode::spec_from_bits(2) == TransmitMode::TxBRxARxB,
        TransmitMode::spec_from_bits(3) == TransmitMode::Reserved,
        forall|b: u8|
            b != 0 && b != 1 && b != 2 && b != 3
                ==> #[trigger] TransmitMode::spec_from_bits(b) == TransmitMode::TxATxBRxARxB,
        TransmitMode::TxATxBRxARxB.code() == 0,
        TransmitMode::TxARxARxB.code() == 1,
        TransmitMode::TxBRxARxB.code() == 2,
        TransmitMode::Reserved.code() == 3,
{
}

/// Reporting interval: the value of every 8-bit code, and the code of every value.
pub proof fn lemma_station_intervals_table()
    ensures
        StationIntervals::spec_from_bits(0) == StationIntervals::Autonomous,
        StationIntervals::spec_from_bits(1) == StationIntervals::Minutes10,
        StationIntervals::spec_from_bits(2) == StationIntervals::Minutes6,
        StationIntervals::spec_from_bits(3) == StationIntervals::Minutes3,
        StationIntervals::spec_from_bits(4) == StationIntervals::Minute1,
        StationIntervals::spec_from_bits(5) == StationIntervals::Seconds30,
        StationIntervals::spec_from_bits(6) == StationIntervals::Seconds15,
        StationIntervals::spec_from_bits(7) == StationIntervals::Seconds10,
        StationIntervals::spec_from_bits(8) == StationIntervals::Seconds5,
        StationIntervals::spec_from_bits(9) == StationIntervals::NextShorter,
        StationIntervals::spec_from_bits(10) == StationIntervals::NextLonger,
        StationIntervals::spec_from_bits(11) == StationIntervals::Reserved11,
        StationIntervals::spec_from_bits(12) == StationIntervals::Reserved12,
        StationIntervals::spec_from_bits(13) == StationIntervals::Reserved13,
        StationIntervals::spec_from_bits(14) == StationIntervals::Reserved14,
        StationIntervals::spec_from_bits(15) == StationIntervals::Reserved15,
        forall|b: u8|
            b != 0 && b != 1 && b != 2 && b != 3 && b != 4 && b != 5 && b != 6 && b != 7
                && b != 8 && b != 9 && b != 10 && b != 11 && b != 12 && b != 13 && b != 14 && b != 15
                ==> #[trigger] StationIntervals::spec_from_bits(b) == StationIntervals::Autonomous,
        StationIntervals::Autonomous.code() == 0,
        StationIntervals::Minutes10.code() == 1,
        StationIntervals::Minutes6.code() == 2,
        StationIntervals::Minutes3.code() == 3,
        StationIntervals::Minute1.code() == 4,
        StationIntervals::Seconds30.code() == 5,
        StationIntervals::Seconds15.code() == 6,
        StationIntervals::Seconds10.code() == 7,
        StationIntervals::Seconds5.code() == 8,
        StationIntervals::NextShorter.code() == 9,
        StationIntervals::NextLonger.code() == 10,
        StationIntervals::Reserved11.code() == 11,
        StationIntervals::Reserved12.code() == 12,
        StationIntervals::Reserved13.code() == 13,
        StationIntervals::Reserved14.code() == 14,
        StationIntervals::Reserved15.code() == 15,
{
}

/// Time stamp: the UTC second for 0 to 59; 60 means not available, 61
/// manual input mode, 62 dead reckoning, 63 positioning system inoperative.
pub proof fn lemma_timestamp_table()
    ensures
        forall|b: u8| b < 60 ==> #[trigger] Timestamp::spec_from_bits(b) == Timestamp::Second(b),
        Timestamp::spec_from_bits(60) == Timestamp::NotAvailable,
        Timestamp::spec_from_bits(61) == Timestamp::ManualInput,
        Timestamp::spec_from_bits(62) == Timestamp::DeadReckoning,
        Timestamp::spec_from_bits(63) == Timestamp::Inoperative,
{
}

} // verus!
