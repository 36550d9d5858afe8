//! Interpretation of Maritime Mobile Service Identities (ITU-R M.585).
//!
//! The first digit of an MMSI tells the kind of station it is assigned to;
//! the Maritime Identification Digits (MID) within it tell the flag.

use vstd::prelude::*;
use vstd::string::StringExecFns;
use crate::text::string_from_chars;
use crate::decode::ais::Message;

verus! {

/// Flag state of a station.
#[derive(Debug, Clone)]
pub struct Country {
    pub country: String,
    pub flag: String,
    pub iso_3166_1: String,
}

/// The mathematical content of a [`Country`].
pub type CountryView = (Seq<char>, Seq<char>, Seq<char>);

impl View for Country {
    type V = CountryView;

    open spec fn view(&self) -> CountryView {
        (self.country@, self.flag@, self.iso_3166_1@)
    }
}

/// The country of stations whose MID is not allocated.
pub open spec fn unknown_country() -> CountryView {
    ("Unknown"@, "\u{1F3F3}\u{FE0F}"@, "XX"@)
}

impl Default for Country {
    fn default() -> (r: Self)
        ensures
            r@ == unknown_country(),
    {
        Country {
            country: String::from_str("Unknown"),
            flag: String::from_str("\u{1F3F3}\u{FE0F}"),
            iso_3166_1: String::from_str("XX"),
        }
    }
}

/// The ITU table of Maritime Identification Digits.
pub open spec fn mid_country(mid: u16) -> Option<CountryView> {
    match mid {
        201 => Some(("Albania"@, "\u{1F1E6}\u{1F1F1}"@, "AL"@)),
        202 => Some(("Andorra"@, "\u{1F1E6}\u{1F1E9}"@, "AD"@)),
        203 => Some(("Austria"@, "\u{1F1E6}\u{1F1F9}"@, "AT"@)),
        204 => Some(("Portugal"@, "\u{1F1F5}\u{1F1F9}"@, "PT"@)),
        205 => Some(("Belgium"@, "\u{1F1E7}\u{1F1EA}"@, "BE"@)),
        206 => Some(("Belarus"@, "\u{1F1E7}\u{1F1FE}"@, "BY"@)),
        207 => Some(("Bulgaria"@, "\u{1F1E7}\u{1F1EC}"@, "BG"@)),
        208 => Some(("Vatican City"@, "\u{1F1FB}\u{1F1E6}"@, "VA"@)),
        209 => Some(("Cyprus"@, "\u{1F1E8}\u{1F1FE}"@, "CY"@)),
        210 => Some(("Cyprus"@, "\u{1F1E8}\u{1F1FE}"@, "CY"@)),
        211 => Some(("Germany"@, "\u{1F1E9}\u{1F1EA}"@, "DE"@)),
        212 => Some(("Cyprus"@, "\u{1F1E8}\u{1F1FE}"@, "CY"@)),
        213 => Some(("Georgia"@, "\u{1F1EC}\u{1F1EA}"@, "GE"@)),
        214 => Some(("Moldova"@, "\u{1F1F2}\u{1F1E9}"@, "MD"@)),
        215 => Some(("Malta"@, "\u{1F1F2}\u{1F1F9}"@, "MT"@)),
        216 => Some(("Armenia"@, "\u{1F1E6}\u{1F1F2}"@, "AM"@)),
        218 => Some(("Germany"@, "\u{1F1E9}\u{1F1EA}"@, "DE"@)),
        219 => Some(("Denmark"@, "\u{1F1E9}\u{1F1F0}"@, "DK"@)),
        220 => Some(("Denmark"@, "\u{1F1E9}\u{1F1F0}"@, "DK"@)),
        224 => Some(("Spain"@, "\u{1F1EA}\u{1F1F8}"@, "ES"@)),
        225 => Some(("Spain"@, "\u{1F1EA}\u{1F1F8}"@, "ES"@)),
        226 => Some(("France"@, "\u{1F1EB}\u{1F1F7}"@, "FR"@)),
        227 => Some(("France"@, "\u{1F1EB}\u{1F1F7}"@, "FR"@)),
        228 => Some(("France"@, "\u{1F1EB}\u{1F1F7}"@, "FR"@)),
        229 => Some(("Malta"@, "\u{1F1F2}\u{1F1F9}"@, "MT"@)),
        230 => Some(("Finland"@, "\u{1F1EB}\u{1F1EE}"@, "FI"@)),
        231 => Some(("Faroe Islands"@, "\u{1F1EB}\u{1F1F4}"@, "FO"@)),
        232 => Some(("United Kingdom"@, "\u{1F1EC}\u{1F1E7}"@, "GB"@)),
        233 => Some(("United Kingdom"@, "\u{1F1EC}\u{1F1E7}"@, "GB"@)),
        234 => Some(("United Kingdom"@, "\u{1F1EC}\u{1F1E7}"@, "GB"@)),
        235 => Some(("United Kingdom"@, "\u{1F1EC}\u{1F1E7}"@, "GB"@)),
        236 => Some(("Gibraltar"@, "\u{1F1EC}\u{1F1EE}"@, "GI"@)),
        237 => Some(("Greece"@, "\u{1F1EC}\u{1F1F7}"@, "GR"@)),
        238 => Some(("Croatia"@, "\u{1F1ED}\u{1F1F7}"@, "HR"@)),
        239 => Some(("Greece"@, "\u{1F1EC}\u{1F1F7}"@, "GR"@)),
        240 => Some(("Greece"@, "\u{1F1EC}\u{1F1F7}"@, "GR"@)),
        241 => Some(("Greece"@, "\u{1F1EC}\u{1F1F7}"@, "GR"@)),
        242 => Some(("Morocco"@, "\u{1F1F2}\u{1F1E6}"@, "MA"@)),
        243 => Some(("Hungary"@, "\u{1F1ED}\u{1F1FA}"@, "HU"@)),
        244 => Some(("Netherlands"@, "\u{1F1F3}\u{1F1F1}"@, "NL"@)),
        245 => Some(("Netherlands"@, "\u{1F1F3}\u{1F1F1}"@, "NL"@)),
        246 => Some(("Netherlands"@, "\u{1F1F3}\u{1F1F1}"@, "NL"@)),
        247 => Some(("Italy"@, "\u{1F1EE}\u{1F1F9}"@, "IT"@)),
        248 => Some(("Malta"@, "\u{1F1F2}\u{1F1F9}"@, "MT"@)),
        249 => Some(("Malta"@, "\u{1F1F2}\u{1F1F9}"@, "MT"@)),
        250 => Some(("Ireland"@, "\u{1F1EE}\u{1F1EA}"@, "IE"@)),
        251 => Some(("Iceland"@, "\u{1F1EE}\u{1F1F8}"@, "IS"@)),
        252 => Some(("Liechtenstein"@, "\u{1F1F1}\u{1F1EE}"@, "LI"@)),
        253 => Some(("Luxembourg"@, "\u{1F1F1}\u{1F1FA}"@, "LU"@)),
        254 => Some(("Monaco"@, "\u{1F1F2}\u{1F1E8}"@, "MC"@)),
        255 => Some(("Portugal"@, "\u{1F1F5}\u{1F1F9}"@, "PT"@)),
        256 => Some(("Malta"@, "\u{1F1F2}\u{1F1F9}"@, "MT"@)),
        257 => Some(("Norway"@, "\u{1F1F3}\u{1F1F4}"@, "NO"@)),
        258 => Some(("Norway"@, "\u{1F1F3}\u{1F1F4}"@, "NO"@)),
        259 => Some(("Norway"@, "\u{1F1F3}\u{1F1F4}"@, "NO"@)),
        261 => Some(("Poland"@, "\u{1F1F5}\u{1F1F1}"@, "PL"@)),
        262 => Some(("Montenegro"@, "\u{1F1F2}\u{1F1EA}"@, "ME"@)),
        263 => Some(("Portugal"@, "\u{1F1F5}\u{1F1F9}"@, "PT"@)),
        264 => Some(("Romania"@, "\u{1F1F7}\u{1F1F4}"@, "RO"@)),
        265 => Some(("Sweden"@, "\u{1F1F8}\u{1F1EA}"@, "SE"@)),
        266 => Some(("Sweden"@, "\u{1F1F8}\u{1F1EA}"@, "SE"@)),
        267 => Some(("Slovakia"@, "\u{1F1F8}\u{1F1F0}"@, "SK"@)),
        268 => Some(("San Marino"@, "\u{1F1F8}\u{1F1F2}"@, "SM"@)),
        269 => Some(("Switzerland"@, "\u{1F1E8}\u{1F1ED}"@, "CH"@)),
        270 => Some(("Czech Republic"@, "\u{1F1E8}\u{1F1FF}"@, "CZ"@)),
        271 => Some(("Turkey"@, "\u{1F1F9}\u{1F1F7}"@, "TR"@)),
        272 => Some(("Ukraine"@, "\u{1F1FA}\u{1F1E6}"@, "UA"@)),
        273 => Some(("Russia"@, "\u{1F1F7}\u{1F1FA}"@, "RU"@)),
        274 => Some(("North Macedonia"@, "\u{1F1F2}\u{1F1F0}"@, "MK"@)),
        275 => Some(("Latvia"@, "\u{1F1F1}\u{1F1FB}"@, "LV"@)),
        276 => Some(("Estonia"@, "\u{1F1EA}\u{1F1EA}"@, "EE"@)),
        277 => Some(("Lithuania"@, "\u{1F1F1}\u{1F1F9}"@, "LT"@)),
        278 => Some(("Slovenia"@, "\u{1F1F8}\u{1F1EE}"@, "SI"@)),
        279 => Some(("Serbia"@, "\u{1F1F7}\u{1F1F8}"@, "RS"@)),
        301 => Some(("Anguilla"@, "\u{1F1E6}\u{1F1EE}"@, "AI"@)),
        303 => Some(("United States"@, "\u{1F1FA}\u{1F1F8}"@, "US"@)),
        304 => Some(("Antigua and Barbuda"@, "\u{1F1E6}\u{1F1EC}"@, "AG"@)),
        305 => Some(("Antigua and Barbuda"@, "\u{1F1E6}\u{1F1EC}"@, "AG"@)),
        306 => Some(("Curacao"@, "\u{1F1E8}\u{1F1FC}"@, "CW"@)),
        307 => Some(("Aruba"@, "\u{1F1E6}\u{1F1FC}"@, "AW"@)),
        308 => Some(("Bahamas"@, "\u{1F1E7}\u{1F1F8}"@, "BS"@)),
        309 => Some(("Bahamas"@, "\u{1F1E7}\u{1F1F8}"@, "BS"@)),
        310 => Some(("Bermuda"@, "\u{1F1E7}\u{1F1F2}"@, "BM"@)),
        311 => Some(("Bahamas"@, "\u{1F1E7}\u{1F1F8}"@, "BS"@)),
        312 => Some(("Belize"@, "\u{1F1E7}\u{1F1FF}"@, "BZ"@)),
        314 => Some(("Barbados"@, "\u{1F1E7}\u{1F1E7}"@, "BB"@)),
        316 => Some(("Canada"@, "\u{1F1E8}\u{1F1E6}"@, "CA"@)),
        319 => Some(("Cayman Islands"@, "\u{1F1F0}\u{1F1FE}"@, "KY"@)),
        321 => Some(("Costa Rica"@, "\u{1F1E8}\u{1F1F7}"@, "CR"@)),
        323 => Some(("Cuba"@, "\u{1F1E8}\u{1F1FA}"@, "CU"@)),
        325 => Some(("Dominica"@, "\u{1F1E9}\u{1F1F2}"@, "DM"@)),
        327 => Some(("Dominican Republic"@, "\u{1F1E9}\u{1F1F4}"@, "DO"@)),
        329 => Some(("Guadeloupe"@, "\u{1F1EC}\u{1F1F5}"@, "GP"@)),
        330 => Some(("Grenada"@, "\u{1F1EC}\u{1F1E9}"@, "GD"@)),
        331 => Some(("Greenland"@, "\u{1F1EC}\u{1F1F1}"@, "GL"@)),
        332 => Some(("Guatemala"@, "\u{1F1EC}\u{1F1F9}"@, "GT"@)),
        334 => Some(("Honduras"@, "\u{1F1ED}\u{1F1F3}"@, "HN"@)),
        336 => Some(("Haiti"@, "\u{1F1ED}\u{1F1F9}"@, "HT"@)),
        338 => Some(("United States"@, "\u{1F1FA}\u{1F1F8}"@, "US"@)),
        339 => Some(("Jamaica"@, "\u{1F1EF}\u{1F1F2}"@, "JM"@)),
        341 => Some(("Saint Kitts and Nevis"@, "\u{1F1F0}\u{1F1F3}"@, "KN"@)),
        343 => Some(("Saint Lucia"@, "\u{1F1F1}\u{1F1E8}"@, "LC"@)),
        345 => Some(("Mexico"@, "\u{1F1F2}\u{1F1FD}"@, "MX"@)),
        347 => Some(("Martinique"@, "\u{1F1F2}\u{1F1F6}"@, "MQ"@)),
        348 => Some(("Montserrat"@, "\u{1F1F2}\u{1F1F8}"@, "MS"@)),
        350 => Some(("Nicaragua"@, "\u{1F1F3}\u{1F1EE}"@, "NI"@)),
        351 => Some(("Panama"@, "\u{1F1F5}\u{1F1E6}"@, "PA"@)),
        352 => Some(("Panama"@, "\u{1F1F5}\u{1F1E6}"@, "PA"@)),
        353 => Some(("Panama"@, "\u{1F1F5}\u{1F1E6}"@, "PA"@)),
        354 => Some(("Panama"@, "\u{1F1F5}\u{1F1E6}"@, "PA"@)),
        355 => Some(("Panama"@, "\u{1F1F5}\u{1F1E6}"@, "PA"@)),
        356 => Some(("Panama"@, "\u{1F1F5}\u{1F1E6}"@, "PA"@)),
        357 => Some(("Panama"@, "\u{1F1F5}\u{1F1E6}"@, "PA"@)),
        358 => Some(("Puerto Rico"@, "\u{1F1F5}\u{1F1F7}"@, "PR"@)),
        359 => Some(("El Salvador"@, "\u{1F1F8}\u{1F1FB}"@, "SV"@)),
        361 => Some(("Saint Pierre and Miquelon"@, "\u{1F1F5}\u{1F1F2}"@, "PM"@)),
        362 => Some(("Trinidad and Tobago"@, "\u{1F1F9}\u{1F1F9}"@, "TT"@)),
        364 => Some(("Turks and Caicos Islands"@, "\u{1F1F9}\u{1F1E8}"@, "TC"@)),
        366 => Some(("United States"@, "\u{1F1FA}\u{1F1F8}"@, "US"@)),
        367 => Some(("United States"@, "\u{1F1FA}\u{1F1F8}"@, "US"@)),
        368 => Some(("United States"@, "\u{1F1FA}\u{1F1F8}"@, "US"@)),
        369 => Some(("United States"@, "\u{1F1FA}\u{1F1F8}"@, "US"@)),
        370 => Some(("Panama"@, "\u{1F1F5}\u{1F1E6}"@, "PA"@)),
        371 => Some(("Panama"@, "\u{1F1F5}\u{1F1E6}"@, "PA"@)),
        372 => Some(("Panama"@, "\u{1F1F5}\u{1F1E6}"@, "PA"@)),
        373 => Some(("Panama"@, "\u{1F1F5}\u{1F1E6}"@, "PA"@)),
        374 => Some(("Panama"@, "\u{1F1F5}\u{1F1E6}"@, "PA"@)),
        375 => Some(("Saint Vincent and the Grenadines"@, "\u{1F1FB}\u{1F1E8}"@, "VC"@)),
        376 => Some(("Saint Vincent and the Grenadines"@, "\u{1F1FB}\u{1F1E8}"@, "VC"@)),
        377 => Some(("Saint Vincent and the Grenadines"@, "\u{1F1FB}\u{1F1E8}"@, "VC"@)),
        378 => Some(("British Virgin Islands"@, "\u{1F1FB}\u{1F1EC}"@, "VG"@)),
        379 => Some(("United States Virgin Islands"@, "\u{1F1FB}\u{1F1EE}"@, "VI"@)),
        401 => Some(("Afghanistan"@, "\u{1F1E6}\u{1F1EB}"@, "AF"@)),
        403 => Some(("Saudi Arabia"@, "\u{1F1F8}\u{1F1E6}"@, "SA"@)),
        405 => Some(("Bangladesh"@, "\u{1F1E7}\u{1F1E9}"@, "BD"@)),
        408 => Some(("Bahrain"@, "\u{1F1E7}\u{1F1ED}"@, "BH"@)),
        410 => Some(("Bhutan"@, "\u{1F1E7}\u{1F1F9}"@, "BT"@)),
        412 => Some(("China"@, "\u{1F1E8}\u{1F1F3}"@, "CN"@)),
        413 => Some(("China"@, "\u{1F1E8}\u{1F1F3}"@, "CN"@)),
        414 => Some(("China"@, "\u{1F1E8}\u{1F1F3}"@, "CN"@)),
        416 => Some(("Taiwan"@, "\u{1F1F9}\u{1F1FC}"@, "TW"@)),
        417 => Some(("Sri Lanka"@, "\u{1F1F1}\u{1F1F0}"@, "LK"@)),
        419 => Some(("India"@, "\u{1F1EE}\u{1F1F3}"@, "IN"@)),
        422 => Some(("Iran"@, "\u{1F1EE}\u{1F1F7}"@, "IR"@)),
        423 => Some(("Azerbaijan"@, "\u{1F1E6}\u{1F1FF}"@, "AZ"@)),
        425 => Some(("Iraq"@, "\u{1F1EE}\u{1F1F6}"@, "IQ"@)),
        428 => Some(("Israel"@, "\u{1F1EE}\u{1F1F1}"@, "IL"@)),
        431 => Some(("Japan"@, "\u{1F1EF}\u{1F1F5}"@, "JP"@)),
        432 => Some(("Japan"@, "\u{1F1EF}\u{1F1F5}"@, "JP"@)),
        434 => Some(("Turkmenistan"@, "\u{1F1F9}\u{1F1F2}"@, "TM"@)),
        436 => Some(("Kazakhstan"@, "\u{1F1F0}\u{1F1FF}"@, "KZ"@)),
        437 => Some(("Uzbekistan"@, "\u{1F1FA}\u{1F1FF}"@, "UZ"@)),
        438 => Some(("Jordan"@, "\u{1F1EF}\u{1F1F4}"@, "JO"@)),
        440 => Some(("South Korea"@, "\u{1F1F0}\u{1F1F7}"@, "KR"@)),
        441 => Some(("South Korea"@, "\u{1F1F0}\u{1F1F7}"@, "KR"@)),
        443 => Some(("Palestine"@, "\u{1F1F5}\u{1F1F8}"@, "PS"@)),
        445 => Some(("North Korea"@, "\u{1F1F0}\u{1F1F5}"@, "KP"@)),
        447 => Some(("Kuwait"@, "\u{1F1F0}\u{1F1FC}"@, "KW"@)),
        450 => Some(("Lebanon"@, "\u{1F1F1}\u{1F1E7}"@, "LB"@)),
        451 => Some(("Kyrgyzstan"@, "\u{1F1F0}\u{1F1EC}"@, "KG"@)),
        453 => Some(("Macao"@, "\u{1F1F2}\u{1F1F4}"@, "MO"@)),
        455 => Some(("Maldives"@, "\u{1F1F2}\u{1F1FB}"@, "MV"@)),
        457 => Some(("Mongolia"@, "\u{1F1F2}\u{1F1F3}"@, "MN"@)),
        459 => Some(("Nepal"@, "\u{1F1F3}\u{1F1F5}"@, "NP"@)),
        461 => Some(("Oman"@, "\u{1F1F4}\u{1F1F2}"@, "OM"@)),
        463 => Some(("Pakistan"@, "\u{1F1F5}\u{1F1F0}"@, "PK"@)),
        466 => Some(("Qatar"@, "\u{1F1F6}\u{1F1E6}"@, "QA"@)),
        468 => Some(("Syria"@, "\u{1F1F8}\u{1F1FE}"@, "SY"@)),
        470 => Some(("United Arab Emirates"@, "\u{1F1E6}\u{1F1EA}"@, "AE"@)),
        471 => Some(("United Arab Emirates"@, "\u{1F1E6}\u{1F1EA}"@, "AE"@)),
        472 => Some(("Tajikistan"@, "\u{1F1F9}\u{1F1EF}"@, "TJ"@)),
        473 => Some(("Yemen"@, "\u{1F1FE}\u{1F1EA}"@, "YE"@)),
        475 => Some(("Yemen"@, "\u{1F1FE}\u{1F1EA}"@, "YE"@)),
        477 => Some(("Hong Kong"@, "\u{1F1ED}\u{1F1F0}"@, "HK"@)),
        478 => Some(("Bosnia and Herzegovina"@, "\u{1F1E7}\u{1F1E6}"@, "BA"@)),
        501 => Some(("Adelie Land"@, "\u{1F1F9}\u{1F1EB}"@, "TF"@)),
        503 => Some(("Australia"@, "\u{1F1E6}\u{1F1FA}"@, "AU"@)),
        506 => Some(("Myanmar"@, "\u{1F1F2}\u{1F1F2}"@, "MM"@)),
        508 => Some(("Brunei"@, "\u{1F1E7}\u{1F1F3}"@, "BN"@)),
        510 => Some(("Micronesia"@, "\u{1F1EB}\u{1F1F2}"@, "FM"@)),
        511 => Some(("Palau"@, "\u{1F1F5}\u{1F1FC}"@, "PW"@)),
        512 => Some(("New Zealand"@, "\u{1F1F3}\u{1F1FF}"@, "NZ"@)),
        514 => Some(("Cambodia"@, "\u{1F1F0}\u{1F1ED}"@, "KH"@)),
        515 => Some(("Cambodia"@, "\u{1F1F0}\u{1F1ED}"@, "KH"@)),
        516 => Some(("Christmas Island"@, "\u{1F1E8}\u{1F1FD}"@, "CX"@)),
        518 => Some(("Cook Islands"@, "\u{1F1E8}\u{1F1F0}"@, "CK"@)),
        520 => Some(("Fiji"@, "\u{1F1EB}\u{1F1EF}"@, "FJ"@)),
        523 => Some(("Cocos (Keeling) Islands"@, "\u{1F1E8}\u{1F1E8}"@, "CC"@)),
        525 => Some(("Indonesia"@, "\u{1F1EE}\u{1F1E9}"@, "ID"@)),
        529 => Some(("Kiribati"@, "\u{1F1F0}\u{1F1EE}"@, "KI"@)),
        531 => Some(("Laos"@, "\u{1F1F1}\u{1F1E6}"@, "LA"@)),
        533 => Some(("Malaysia"@, "\u{1F1F2}\u{1F1FE}"@, "MY"@)),
        536 => Some(("Northern Mariana Islands"@, "\u{1F1F2}\u{1F1F5}"@, "MP"@)),
        538 => Some(("Marshall Islands"@, "\u{1F1F2}\u{1F1ED}"@, "MH"@)),
        540 => Some(("New Caledonia"@, "\u{1F1F3}\u{1F1E8}"@, "NC"@)),
        542 => Some(("Niue"@, "\u{1F1F3}\u{1F1FA}"@, "NU"@)),
        544 => Some(("Nauru"@, "\u{1F1F3}\u{1F1F7}"@, "NR"@)),
        546 => Some(("French Polynesia"@, "\u{1F1F5}\u{1F1EB}"@, "PF"@)),
        548 => Some(("Philippines"@, "\u{1F1F5}\u{1F1ED}"@, "PH"@)),
        550 => Some(("Timor-Leste"@, "\u{1F1F9}\u{1F1F1}"@, "TL"@)),
        553 => Some(("Papua New Guinea"@, "\u{1F1F5}\u{1F1EC}"@, "PG"@)),
        555 => Some(("Pitcairn Islands"@, "\u{1F1F5}\u{1F1F3}"@, "PN"@)),
        557 => Some(("Solomon Islands"@, "\u{1F1F8}\u{1F1E7}"@, "SB"@)),
        559 => Some(("American Samoa"@, "\u{1F1E6}\u{1F1F8}"@, "AS"@)),
        561 => Some(("Samoa"@, "\u{1F1FC}\u{1F1F8}"@, "WS"@)),
        563 => Some(("Singapore"@, "\u{1F1F8}\u{1F1EC}"@, "SG"@)),
        564 => Some(("Singapore"@, "\u{1F1F8}\u{1F1EC}"@, "SG"@)),
        565 => Some(("Singapore"@, "\u{1F1F8}\u{1F1EC}"@, "SG"@)),
        566 => Some(("Singapore"@, "\u{1F1F8}\u{1F1EC}"@, "SG"@)),
        567 => Some(("Thailand"@, "\u{1F1F9}\u{1F1ED}"@, "TH"@)),
        570 => Some(("Tonga"@, "\u{1F1F9}\u{1F1F4}"@, "TO"@)),
        572 => Some(("Tuvalu"@, "\u{1F1F9}\u{1F1FB}"@, "TV"@)),
        574 => Some(("Vietnam"@, "\u{1F1FB}\u{1F1F3}"@, "VN"@)),
        576 => Some(("Vanuatu"@, "\u{1F1FB}\u{1F1FA}"@, "VU"@)),
        577 => Some(("Vanuatu"@, "\u{1F1FB}\u{1F1FA}"@, "VU"@)),
        578 => Some(("Wallis and Futuna"@, "\u{1F1FC}\u{1F1EB}"@, "WF"@)),
        601 => Some(("South Africa"@, "\u{1F1FF}\u{1F1E6}"@, "ZA"@)),
        603 => Some(("Angola"@, "\u{1F1E6}\u{1F1F4}"@, "AO"@)),
        605 => Some(("Algeria"@, "\u{1F1E9}\u{1F1FF}"@, "DZ"@)),
        607 => Some(("Saint Paul and Amsterdam Islands"@, "\u{1F1F9}\u{1F1EB}"@, "TF"@)),
        608 => Some(("Ascension Island"@, "\u{1F1F8}\u{1F1ED}"@, "SH"@)),
        609 => Some(("Burundi"@, "\u{1F1E7}\u{1F1EE}"@, "BI"@)),
        610 => Some(("Benin"@, "\u{1F1E7}\u{1F1EF}"@, "BJ"@)),
        611 => Some(("Botswana"@, "\u{1F1E7}\u{1F1FC}"@, "BW"@)),
        612 => Some(("Central African Republic"@, "\u{1F1E8}\u{1F1EB}"@, "CF"@)),
        613 => Some(("Cameroon"@, "\u{1F1E8}\u{1F1F2}"@, "CM"@)),
        615 => Some(("Congo"@, "\u{1F1E8}\u{1F1EC}"@, "CG"@)),
        616 => Some(("Comoros"@, "\u{1F1F0}\u{1F1F2}"@, "KM"@)),
        617 => Some(("Cape Verde"@, "\u{1F1E8}\u{1F1FB}"@, "CV"@)),
        618 => Some(("Crozet Archipelago"@, "\u{1F1F9}\u{1F1EB}"@, "TF"@)),
        619 => Some(("Ivory Coast"@, "\u{1F1E8}\u{1F1EE}"@, "CI"@)),
        620 => Some(("Comoros"@, "\u{1F1F0}\u{1F1F2}"@, "KM"@)),
        621 => Some(("Djibouti"@, "\u{1F1E9}\u{1F1EF}"@, "DJ"@)),
        622 => Some(("Egypt"@, "\u{1F1EA}\u{1F1EC}"@, "EG"@)),
        624 => Some(("Ethiopia"@, "\u{1F1EA}\u{1F1F9}"@, "ET"@)),
        625 => Some(("Eritrea"@, "\u{1F1EA}\u{1F1F7}"@, "ER"@)),
        626 => Some(("Gabon"@, "\u{1F1EC}\u{1F1E6}"@, "GA"@)),
        627 => Some(("Ghana"@, "\u{1F1EC}\u{1F1ED}"@, "GH"@)),
        629 => Some(("Gambia"@, "\u{1F1EC}\u{1F1F2}"@, "GM"@)),
        630 => Some(("Guinea-Bissau"@, "\u{1F1EC}\u{1F1FC}"@, "GW"@)),
        631 => Some(("Equatorial Guinea"@, "\u{1F1EC}\u{1F1F6}"@, "GQ"@)),
        632 => Some(("Guinea"@, "\u{1F1EC}\u{1F1F3}"@, "GN"@)),
        633 => Some(("Burkina Faso"@, "\u{1F1E7}\u{1F1EB}"@, "BF"@)),
        634 => Some(("Kenya"@, "\u{1F1F0}\u{1F1EA}"@, "KE"@)),
        635 => Some(("Kerguelen Islands"@, "\u{1F1F9}\u{1F1EB}"@, "TF"@)),
        636 => Some(("Liberia"@, "\u{1F1F1}\u{1F1F7}"@, "LR"@)),
        637 => Some(("Liberia"@, "\u{1F1F1}\u{1F1F7}"@, "LR"@)),
        638 => Some(("South Sudan"@, "\u{1F1F8}\u{1F1F8}"@, "SS"@)),
        642 => Some(("Libya"@, "\u{1F1F1}\u{1F1FE}"@, "LY"@)),
        644 => Some(("Lesotho"@, "\u{1F1F1}\u{1F1F8}"@, "LS"@)),
        645 => Some(("Mauritius"@, "\u{1F1F2}\u{1F1FA}"@, "MU"@)),
        647 => Some(("Madagascar"@, "\u{1F1F2}\u{1F1EC}"@, "MG"@)),
        649 => Some(("Mali"@, "\u{1F1F2}\u{1F1F1}"@, "ML"@)),
        650 => Some(("Mozambique"@, "\u{1F1F2}\u{1F1FF}"@, "MZ"@)),
        654 => Some(("Mauritania"@, "\u{1F1F2}\u{1F1F7}"@, "MR"@)),
        655 => Some(("Malawi"@, "\u{1F1F2}\u{1F1FC}"@, "MW"@)),
        656 => Some(("Niger"@, "\u{1F1F3}\u{1F1EA}"@, "NE"@)),
        657 => Some(("Nigeria"@, "\u{1F1F3}\u{1F1EC}"@, "NG"@)),
        659 => Some(("Namibia"@, "\u{1F1F3}\u{1F1E6}"@, "NA"@)),
        660 => Some(("Reunion"@, "\u{1F1F7}\u{1F1EA}"@, "RE"@)),
        661 => Some(("Rwanda"@, "\u{1F1F7}\u{1F1FC}"@, "RW"@)),
        662 => Some(("Sudan"@, "\u{1F1F8}\u{1F1E9}"@, "SD"@)),
        663 => Some(("Senegal"@, "\u{1F1F8}\u{1F1F3}"@, "SN"@)),
        664 => Some(("Seychelles"@, "\u{1F1F8}\u{1F1E8}"@, "SC"@)),
        665 => Some(("Saint Helena"@, "\u{1F1F8}\u{1F1ED}"@, "SH"@)),
        666 => Some(("Somalia"@, "\u{1F1F8}\u{1F1F4}"@, "SO"@)),
        667 => Some(("Sierra Leone"@, "\u{1F1F8}\u{1F1F1}"@, "SL"@)),
        668 => Some(("Sao Tome and Principe"@, "\u{1F1F8}\u{1F1F9}"@, "ST"@)),
        669 => Some(("Eswatini"@, "\u{1F1F8}\u{1F1FF}"@, "SZ"@)),
        670 => Some(("Chad"@, "\u{1F1F9}\u{1F1E9}"@, "TD"@)),
        671 => Some(("Togo"@, "\u{1F1F9}\u{1F1EC}"@, "TG"@)),
        672 => Some(("Tunisia"@, "\u{1F1F9}\u{1F1F3}"@, "TN"@)),
        674 => Some(("Tanzania"@, "\u{1F1F9}\u{1F1FF}"@, "TZ"@)),
        675 => Some(("Uganda"@, "\u{1F1FA}\u{1F1EC}"@, "UG"@)),
        676 => Some(("Democratic Republic of the Congo"@, "\u{1F1E8}\u{1F1E9}"@, "CD"@)),
        677 => Some(("Tanzania"@, "\u{1F1F9}\u{1F1FF}"@, "TZ"@)),
        678 => Some(("Zambia"@, "\u{1F1FF}\u{1F1F2}"@, "ZM"@)),
        679 => Some(("Zimbabwe"@, "\u{1F1FF}\u{1F1FC}"@, "ZW"@)),
        701 => Some(("Argentina"@, "\u{1F1E6}\u{1F1F7}"@, "AR"@)),
        710 => Some(("Brazil"@, "\u{1F1E7}\u{1F1F7}"@, "BR"@)),
        720 => Some(("Bolivia"@, "\u{1F1E7}\u{1F1F4}"@, "BO"@)),
        725 => Some(("Chile"@, "\u{1F1E8}\u{1F1F1}"@, "CL"@)),
        730 => Some(("Colombia"@, "\u{1F1E8}\u{1F1F4}"@, "CO"@)),
        735 => Some(("Ecuador"@, "\u{1F1EA}\u{1F1E8}"@, "EC"@)),
        740 => Some(("Falkland Islands"@, "\u{1F1EB}\u{1F1F0}"@, "FK"@)),
        745 => Some(("Guiana"@, "\u{1F1EC}\u{1F1EB}"@, "GF"@)),
        750 => Some(("Guyana"@, "\u{1F1EC}\u{1F1FE}"@, "GY"@)),
        755 => Some(("Paraguay"@, "\u{1F1F5}\u{1F1FE}"@, "PY"@)),
        760 => Some(("Peru"@, "\u{1F1F5}\u{1F1EA}"@, "PE"@)),
        765 => Some(("Suriname"@, "\u{1F1F8}\u{1F1F7}"@, "SR"@)),
        770 => Some(("Uruguay"@, "\u{1F1FA}\u{1F1FE}"@, "UY"@)),
        775 => Some(("Venezuela"@, "\u{1F1FB}\u{1F1EA}"@, "VE"@)),
        _ => None,
    }
}

/// The Maritime Identification Digits that the ITU allocates in Europe
/// (MIDs 200 to 299): the country, flag and ISO 3166-1 code of each, and
/// no country for the MIDs of the range that are not allocated.
#[verifier::rlimit(40)]
pub proof fn lemma_mids_europe()
    ensures
        mid_country(201) == Some(("Albania"@, "\u{1F1E6}\u{1F1F1}"@, "AL"@)),
        mid_country(202) == Some(("Andorra"@, "\u{1F1E6}\u{1F1E9}"@, "AD"@)),
        mid_country(203) == Some(("Austria"@, "\u{1F1E6}\u{1F1F9}"@, "AT"@)),
        mid_country(204) == Some(("Portugal"@, "\u{1F1F5}\u{1F1F9}"@, "PT"@)),
        mid_country(205) == Some(("Belgium"@, "\u{1F1E7}\u{1F1EA}"@, "BE"@)),
        mid_country(206) == Some(("Belarus"@, "\u{1F1E7}\u{1F1FE}"@, "BY"@)),
        mid_country(207) == Some(("Bulgaria"@, "\u{1F1E7}\u{1F1EC}"@, "BG"@)),
        mid_country(208) == Some(("Vatican City"@, "\u{1F1FB}\u{1F1E6}"@, "VA"@)),
        mid_country(209) == Some(("Cyprus"@, "\u{1F1E8}\u{1F1FE}"@, "CY"@)),
        mid_country(210) == Some(("Cyprus"@, "\u{1F1E8}\u{1F1FE}"@, "CY"@)),
        mid_country(211) == Some(("Germany"@, "\u{1F1E9}\u{1F1EA}"@, "DE"@)),
        mid_country(212) == Some(("Cyprus"@, "\u{1F1E8}\u{1F1FE}"@, "CY"@)),
        mid_country(213) == Some(("Georgia"@, "\u{1F1EC}\u{1F1EA}"@, "GE"@)),
        mid_country(214) == Some(("Moldova"@, "\u{1F1F2}\u{1F1E9}"@, "MD"@)),
        mid_country(215) == Some(("Malta"@, "\u{1F1F2}\u{1F1F9}"@, "MT"@)),
        mid_country(216) == Some(("Armenia"@, "\u{1F1E6}\u{1F1F2}"@, "AM"@)),
        mid_country(218) == Some(("Germany"@, "\u{1F1E9}\u{1F1EA}"@, "DE"@)),
        mid_country(219) == Some(("Denmark"@, "\u{1F1E9}\u{1F1F0}"@, "DK"@)),
        mid_country(220) == Some(("Denmark"@, "\u{1F1E9}\u{1F1F0}"@, "DK"@)),
        mid_country(224) == Some(("Spain"@, "\u{1F1EA}\u{1F1F8}"@, "ES"@)),
        mid_country(225) == Some(("Spain"@, "\u{1F1EA}\u{1F1F8}"@, "ES"@)),
        mid_country(226) == Some(("France"@, "\u{1F1EB}\u{1F1F7}"@, "FR"@)),
        mid_country(227) == Some(("France"@, "\u{1F1EB}\u{1F1F7}"@, "FR"@)),
        mid_country(228) == Some(("France"@, "\u{1F1EB}\u{1F1F7}"@, "FR"@)),
        mid_country(229) == Some(("Malta"@, "\u{1F1F2}\u{1F1F9}"@, "MT"@)),
        mid_country(230) == Some(("Finland"@, "\u{1F1EB}\u{1F1EE}"@, "FI"@)),
        mid_country(231) == Some(("Faroe Islands"@, "\u{1F1EB}\u{1F1F4}"@, "FO"@)),
        mid_country(232) == Some(("United Kingdom"@, "\u{1F1EC}\u{1F1E7}"@, "GB"@)),
        mid_country(233) == Some(("United Kingdom"@, "\u{1F1EC}\u{1F1E7}"@, "GB"@)),
        mid_country(234) == Some(("United Kingdom"@, "\u{1F1EC}\u{1F1E7}"@, "GB"@)),
        mid_country(235) == Some(("United Kingdom"@, "\u{1F1EC}\u{1F1E7}"@, "GB"@)),
        mid_country(236) == Some(("Gibraltar"@, "\u{1F1EC}\u{1F1EE}"@, "GI"@)),
        mid_country(237) == Some(("Greece"@, "\u{1F1EC}\u{1F1F7}"@, "GR"@)),
        mid_country(238) == Some(("Croatia"@, "\u{1F1ED}\u{1F1F7}"@, "HR"@)),
        mid_country(239) == Some(("Greece"@, "\u{1F1EC}\u{1F1F7}"@, "GR"@)),
        mid_country(240) == Some(("Greece"@, "\u{1F1EC}\u{1F1F7}"@, "GR"@)),
        mid_country(241) == Some(("Greece"@, "\u{1F1EC}\u{1F1F7}"@, "GR"@)),
        mid_country(242) == Some(("Morocco"@, "\u{1F1F2}\u{1F1E6}"@, "MA"@)),
        mid_country(243) == Some(("Hungary"@, "\u{1F1ED}\u{1F1FA}"@, "HU"@)),
        mid_country(244) == Some(("Netherlands"@, "\u{1F1F3}\u{1F1F1}"@, "NL"@)),
        mid_country(245) == Some(("Netherlands"@, "\u{1F1F3}\u{1F1F1}"@, "NL"@)),
        mid_country(246) == Some(("Netherlands"@, "\u{1F1F3}\u{1F1F1}"@, "NL"@)),
        mid_country(247) == Some(("Italy"@, "\u{1F1EE}\u{1F1F9}"@, "IT"@)),
        mid_country(248) == Some(("Malta"@, "\u{1F1F2}\u{1F1F9}"@, "MT"@)),
        mid_country(249) == Some(("Malta"@, "\u{1F1F2}\u{1F1F9}"@, "MT"@)),
        mid_country(250) == Some(("Ireland"@, "\u{1F1EE}\u{1F1EA}"@, "IE"@)),
        mid_country(251) == Some(("Iceland"@, "\u{1F1EE}\u{1F1F8}"@, "IS"@)),
        mid_country(252) == Some(("Liechtenstein"@, "\u{1F1F1}\u{1F1EE}"@, "LI"@)),
        mid_country(253) == Some(("Luxembourg"@, "\u{1F1F1}\u{1F1FA}"@, "LU"@)),
        mid_country(254) == Some(("Monaco"@, "\u{1F1F2}\u{1F1E8}"@, "MC"@)),
        mid_country(255) == Some(("Portugal"@, "\u{1F1F5}\u{1F1F9}"@, "PT"@)),
        mid_country(256) == Some(("Malta"@, "\u{1F1F2}\u{1F1F9}"@, "MT"@)),
        mid_country(257) == Some(("Norway"@, "\u{1F1F3}\u{1F1F4}"@, "NO"@)),
        mid_country(258) == Some(("Norway"@, "\u{1F1F3}\u{1F1F4}"@, "NO"@)),
        mid_country(259) == Some(("Norway"@, "\u{1F1F3}\u{1F1F4}"@, "NO"@)),
        mid_country(261) == Some(("Poland"@, "\u{1F1F5}\u{1F1F1}"@, "PL"@)),
        mid_country(262) == Some(("Montenegro"@, "\u{1F1F2}\u{1F1EA}"@, "ME"@)),
        mid_country(263) == Some(("Portugal"@, "\u{1F1F5}\u{1F1F9}"@, "PT"@)),
        mid_country(264) == Some(("Romania"@, "\u{1F1F7}\u{1F1F4}"@, "RO"@)),
        mid_country(265) == Some(("Sweden"@, "\u{1F1F8}\u{1F1EA}"@, "SE"@)),
        mid_country(266) == Some(("Sweden"@, "\u{1F1F8}\u{1F1EA}"@, "SE"@)),
        mid_country(267) == Some(("Slovakia"@, "\u{1F1F8}\u{1F1F0}"@, "SK"@)),
        mid_country(268) == Some(("San Marino"@, "\u{1F1F8}\u{1F1F2}"@, "SM"@)),
        mid_country(269) == Some(("Switzerland"@, "\u{1F1E8}\u{1F1ED}"@, "CH"@)),
        mid_country(270) == Some(("Czech Republic"@, "\u{1F1E8}\u{1F1FF}"@, "CZ"@)),
        mid_country(271) == Some(("Turkey"@, "\u{1F1F9}\u{1F1F7}"@, "TR"@)),
        mid_country(272) == Some(("Ukraine"@, "\u{1F1FA}\u{1F1E6}"@, "UA"@)),
        mid_country(273) == Some(("Russia"@, "\u{1F1F7}\u{1F1FA}"@, "RU"@)),
        mid_country(274) == Some(("North Macedonia"@, "\u{1F1F2}\u{1F1F0}"@, "MK"@)),
        mid_country(275) == Some(("Latvia"@, "\u{1F1F1}\u{1F1FB}"@, "LV"@)),
        mid_country(276) == Some(("Estonia"@, "\u{1F1EA}\u{1F1EA}"@, "EE"@)),
        mid_country(277) == Some(("Lithuania"@, "\u{1F1F1}\u{1F1F9}"@, "LT"@)),
        mid_country(278) == Some(("Slovenia"@, "\u{1F1F8}\u{1F1EE}"@, "SI"@)),
        mid_country(279) == Some(("Serbia"@, "\u{1F1F7}\u{1F1F8}"@, "RS"@)),
        forall|m: u16|
            200 <= m < 300
                && m != 201 && m != 202 && m != 203 && m != 204 && m != 205 && m != 206 && m != 207 && m != 208
                && m != 209 && m != 210 && m != 211 && m != 212 && m != 213 && m != 214 && m != 215 && m != 216
                && m != 218 && m != 219 && m != 220 && m != 224 && m != 225 && m != 226 && m != 227 && m != 228
                && m != 229 && m != 230 && m != 231 && m != 232 && m != 233 && m != 234 && m != 235 && m != 236
                && m != 237 && m != 238 && m != 239 && m != 240 && m != 241 && m != 242 && m != 243 && m != 244
                && m != 245 && m != 246 && m != 247 && m != 248 && m != 249 && m != 250 && m != 251 && m != 252
                && m != 253 && m != 254 && m != 255 && m != 256 && m != 257 && m != 258 && m != 259 && m != 261
                && m != 262 && m != 263 && m != 264 && m != 265 && m != 266 && m != 267 && m != 268 && m != 269
                && m != 270 && m != 271 && m != 272 && m != 273 && m != 274 && m != 275 && m != 276 && m != 277
                && m != 278 && m != 279
                ==> #[trigger] mid_country(m) is None,
{
}

/// The Maritime Identification Digits that the ITU allocates in North and Central America and the Caribbean
/// (MIDs 300 to 399): the country, flag and ISO 3166-1 code of each, and
/// no country for the MIDs of the range that are not allocated.
#[verifier::rlimit(40)]
pub proof fn lemma_mids_north_america()
    ensures
        mid_country(301) == Some(("Anguilla"@, "\u{1F1E6}\u{1F1EE}"@, "AI"@)),
        mid_country(303) == Some(("United States"@, "\u{1F1FA}\u{1F1F8}"@, "US"@)),
        mid_country(304) == Some(("Antigua and Barbuda"@, "\u{1F1E6}\u{1F1EC}"@, "AG"@)),
        mid_country(305) == Some(("Antigua and Barbuda"@, "\u{1F1E6}\u{1F1EC}"@, "AG"@)),
        mid_country(306) == Some(("Curacao"@, "\u{1F1E8}\u{1F1FC}"@, "CW"@)),
        mid_country(307) == Some(("Aruba"@, "\u{1F1E6}\u{1F1FC}"@, "AW"@)),
        mid_country(308) == Some(("Bahamas"@, "\u{1F1E7}\u{1F1F8}"@, "BS"@)),
        mid_country(309) == Some(("Bahamas"@, "\u{1F1E7}\u{1F1F8}"@, "BS"@)),
        mid_country(310) == Some(("Bermuda"@, "\u{1F1E7}\u{1F1F2}"@, "BM"@)),
        mid_country(311) == Some(("Bahamas"@, "\u{1F1E7}\u{1F1F8}"@, "BS"@)),
        mid_country(312) == Some(("Belize"@, "\u{1F1E7}\u{1F1FF}"@, "BZ"@)),
        mid_country(314) == Some(("Barbados"@, "\u{1F1E7}\u{1F1E7}"@, "BB"@)),
        mid_country(316) == Some(("Canada"@, "\u{1F1E8}\u{1F1E6}"@, "CA"@)),
        mid_country(319) == Some(("Cayman Islands"@, "\u{1F1F0}\u{1F1FE}"@, "KY"@)),
        mid_country(321) == Some(("Costa Rica"@, "\u{1F1E8}\u{1F1F7}"@, "CR"@)),
        mid_country(323) == Some(("Cuba"@, "\u{1F1E8}\u{1F1FA}"@, "CU"@)),
        mid_country(325) == Some(("Dominica"@, "\u{1F1E9}\u{1F1F2}"@, "DM"@)),
        mid_country(327) == Some(("Dominican Republic"@, "\u{1F1E9}\u{1F1F4}"@, "DO"@)),
        mid_country(329) == Some(("Guadeloupe"@, "\u{1F1EC}\u{1F1F5}"@, "GP"@)),
        mid_country(330) == Some(("Grenada"@, "\u{1F1EC}\u{1F1E9}"@, "GD"@)),
        mid_country(331) == Some(("Greenland"@, "\u{1F1EC}\u{1F1F1}"@, "GL"@)),
        mid_country(332) == Some(("Guatemala"@, "\u{1F1EC}\u{1F1F9}"@, "GT"@)),
        mid_country(334) == Some(("Honduras"@, "\u{1F1ED}\u{1F1F3}"@, "HN"@)),
        mid_country(336) == Some(("Haiti"@, "\u{1F1ED}\u{1F1F9}"@, "HT"@)),
        mid_country(338) == Some(("United States"@, "\u{1F1FA}\u{1F1F8}"@, "US"@)),
        mid_country(339) == Some(("Jamaica"@, "\u{1F1EF}\u{1F1F2}"@, "JM"@)),
        mid_country(341) == Some(("Saint Kitts and Nevis"@, "\u{1F1F0}\u{1F1F3}"@, "KN"@)),
        mid_country(343) == Some(("Saint Lucia"@, "\u{1F1F1}\u{1F1E8}"@, "LC"@)),
        mid_country(345) == Some(("Mexico"@, "\u{1F1F2}\u{1F1FD}"@, "MX"@)),
        mid_country(347) == Some(("Martinique"@, "\u{1F1F2}\u{1F1F6}"@, "MQ"@)),
        mid_country(348) == Some(("Montserrat"@, "\u{1F1F2}\u{1F1F8}"@, "MS"@)),
        mid_country(350) == Some(("Nicaragua"@, "\u{1F1F3}\u{1F1EE}"@, "NI"@)),
        mid_country(351) == Some(("Panama"@, "\u{1F1F5}\u{1F1E6}"@, "PA"@)),
        mid_country(352) == Some(("Panama"@, "\u{1F1F5}\u{1F1E6}"@, "PA"@)),
        mid_country(353) == Some(("Panama"@, "\u{1F1F5}\u{1F1E6}"@, "PA"@)),
        mid_country(354) == Some(("Panama"@, "\u{1F1F5}\u{1F1E6}"@, "PA"@)),
        mid_country(355) == Some(("Panama"@, "\u{1F1F5}\u{1F1E6}"@, "PA"@)),
        mid_country(356) == Some(("Panama"@, "\u{1F1F5}\u{1F1E6}"@, "PA"@)),
        mid_country(357) == Some(("Panama"@, "\u{1F1F5}\u{1F1E6}"@, "PA"@)),
        mid_country(358) == Some(("Puerto Rico"@, "\u{1F1F5}\u{1F1F7}"@, "PR"@)),
        mid_country(359) == Some(("El Salvador"@, "\u{1F1F8}\u{1F1FB}"@, "SV"@)),
        mid_country(361) == Some(("Saint Pierre and Miquelon"@, "\u{1F1F5}\u{1F1F2}"@, "PM"@)),
        mid_country(362) == Some(("Trinidad and Tobago"@, "\u{1F1F9}\u{1F1F9}"@, "TT"@)),
        mid_country(364) == Some(("Turks and Caicos Islands"@, "\u{1F1F9}\u{1F1E8}"@, "TC"@)),
        mid_country(366) == Some(("United States"@, "\u{1F1FA}\u{1F1F8}"@, "US"@)),
        mid_country(367) == Some(("United States"@, "\u{1F1FA}\u{1F1F8}"@, "US"@)),
        mid_country(368) == Some(("United States"@, "\u{1F1FA}\u{1F1F8}"@, "US"@)),
        mid_country(369) == Some(("United States"@, "\u{1F1FA}\u{1F1F8}"@, "US"@)),
        mid_country(370) == Some(("Panama"@, "\u{1F1F5}\u{1F1E6}"@, "PA"@)),
        mid_country(371) == Some(("Panama"@, "\u{1F1F5}\u{1F1E6}"@, "PA"@)),
        mid_country(372) == Some(("Panama"@, "\u{1F1F5}\u{1F1E6}"@, "PA"@)),
        mid_country(373) == Some(("Panama"@, "\u{1F1F5}\u{1F1E6}"@, "PA"@)),
        mid_country(374) == Some(("Panama"@, "\u{1F1F5}\u{1F1E6}"@, "PA"@)),
        mid_country(375) == Some(
            ("Saint Vincent and the Grenadines"@, "\u{1F1FB}\u{1F1E8}"@, "VC"@),
        ),
        mid_country(376) == Some(
            ("Saint Vincent and the Grenadines"@, "\u{1F1FB}\u{1F1E8}"@, "VC"@),
        ),
        mid_country(377) == Some(
            ("Saint Vincent and the Grenadines"@, "\u{1F1FB}\u{1F1E8}"@, "VC"@),
        ),
        mid_country(378) == Some(("British Virgin Islands"@, "\u{1F1FB}\u{1F1EC}"@, "VG"@)),
        mid_country(379) == Some(("United States Virgin Islands"@, "\u{1F1FB}\u{1F1EE}"@, "VI"@)),
        forall|m: u16|
            300 <= m < 400
                && m != 301 && m != 303 && m != 304 && m != 305 && m != 306 && m != 307 && m != 308 && m != 309
                && m != 310 && m != 311 && m != 312 && m != 314 && m != 316 && m != 319 && m != 321 && m != 323
                && m != 325 && m != 327 && m != 329 && m != 330 && m != 331 && m != 332 && m != 334 && m != 336
                && m != 338 && m != 339 && m != 341 && m != 343 && m != 345 && m != 347 && m != 348 && m != 350
                && m != 351 && m != 352 && m != 353 && m != 354 && m != 355 && m != 356 && m != 357 && m != 358
                && m != 359 && m != 361 && m != 362 && m != 364 && m != 366 && m != 367 && m != 368 && m != 369
                && m != 370 && m != 371 && m != 372 && m != 373 && m != 374 && m != 375 && m != 376 && m != 377
                && m != 378 && m != 379
                ==> #[trigger] mid_country(m) is None,
{
}

/// The Maritime Identification Digits that the ITU allocates in Asia
/// (MIDs 400 to 499): the country, flag and ISO 3166-1 code of each, and
/// no country for the MIDs of the range that are not allocated.
#[verifier::rlimit(40)]
pub proof fn lemma_mids_asia()
    ensures
        mid_country(401) == Some(("Afghanistan"@, "\u{1F1E6}\u{1F1EB}"@, "AF"@)),
        mid_country(403) == Some(("Saudi Arabia"@, "\u{1F1F8}\u{1F1E6}"@, "SA"@)),
        mid_country(405) == Some(("Bangladesh"@, "\u{1F1E7}\u{1F1E9}"@, "BD"@)),
        mid_country(408) == Some(("Bahrain"@, "\u{1F1E7}\u{1F1ED}"@, "BH"@)),
        mid_country(410) == Some(("Bhutan"@, "\u{1F1E7}\u{1F1F9}"@, "BT"@)),
        mid_country(412) == Some(("China"@, "\u{1F1E8}\u{1F1F3}"@, "CN"@)),
        mid_country(413) == Some(("China"@, "\u{1F1E8}\u{1F1F3}"@, "CN"@)),
        mid_country(414) == Some(("China"@, "\u{1F1E8}\u{1F1F3}"@, "CN"@)),
        mid_country(416) == Some(("Taiwan"@, "\u{1F1F9}\u{1F1FC}"@, "TW"@)),
        mid_country(417) == Some(("Sri Lanka"@, "\u{1F1F1}\u{1F1F0}"@, "LK"@)),
        mid_country(419) == Some(("India"@, "\u{1F1EE}\u{1F1F3}"@, "IN"@)),
        mid_country(422) == Some(("Iran"@, "\u{1F1EE}\u{1F1F7}"@, "IR"@)),
        mid_country(423) == Some(("Azerbaijan"@, "\u{1F1E6}\u{1F1FF}"@, "AZ"@)),
        mid_country(425) == Some(("Iraq"@, "\u{1F1EE}\u{1F1F6}"@, "IQ"@)),
        mid_country(428) == Some(("Israel"@, "\u{1F1EE}\u{1F1F1}"@, "IL"@)),
        mid_country(431) == Some(("Japan"@, "\u{1F1EF}\u{1F1F5}"@, "JP"@)),
        mid_country(432) == Some(("Japan"@, "\u{1F1EF}\u{1F1F5}"@, "JP"@)),
        mid_country(434) == Some(("Turkmenistan"@, "\u{1F1F9}\u{1F1F2}"@, "TM"@)),
        mid_country(436) == Some(("Kazakhstan"@, "\u{1F1F0}\u{1F1FF}"@, "KZ"@)),
        mid_country(437) == Some(("Uzbekistan"@, "\u{1F1FA}\u{1F1FF}"@, "UZ"@)),
        mid_country(438) == Some(("Jordan"@, "\u{1F1EF}\u{1F1F4}"@, "JO"@)),
        mid_country(440) == Some(("South Korea"@, "\u{1F1F0}\u{1F1F7}"@, "KR"@)),
        mid_country(441) == Some(("South Korea"@, "\u{1F1F0}\u{1F1F7}"@, "KR"@)),
        mid_country(443) == Some(("Palestine"@, "\u{1F1F5}\u{1F1F8}"@, "PS"@)),
        mid_country(445) == Some(("North Korea"@, "\u{1F1F0}\u{1F1F5}"@, "KP"@)),
        mid_country(447) == Some(("Kuwait"@, "\u{1F1F0}\u{1F1FC}"@, "KW"@)),
        mid_country(450) == Some(("Lebanon"@, "\u{1F1F1}\u{1F1E7}"@, "LB"@)),
        mid_country(451) == Some(("Kyrgyzstan"@, "\u{1F1F0}\u{1F1EC}"@, "KG"@)),
        mid_country(453) == Some(("Macao"@, "\u{1F1F2}\u{1F1F4}"@, "MO"@)),
        mid_country(455) == Some(("Maldives"@, "\u{1F1F2}\u{1F1FB}"@, "MV"@)),
        mid_country(457) == Some(("Mongolia"@, "\u{1F1F2}\u{1F1F3}"@, "MN"@)),
        mid_country(459) == Some(("Nepal"@, "\u{1F1F3}\u{1F1F5}"@, "NP"@)),
        mid_country(461) == Some(("Oman"@, "\u{1F1F4}\u{1F1F2}"@, "OM"@)),
        mid_country(463) == Some(("Pakistan"@, "\u{1F1F5}\u{1F1F0}"@, "PK"@)),
        mid_country(466) == Some(("Qatar"@, "\u{1F1F6}\u{1F1E6}"@, "QA"@)),
        mid_country(468) == Some(("Syria"@, "\u{1F1F8}\u{1F1FE}"@, "SY"@)),
        mid_country(470) == Some(("United Arab Emirates"@, "\u{1F1E6}\u{1F1EA}"@, "AE"@)),
        mid_country(471) == Some(("United Arab Emirates"@, "\u{1F1E6}\u{1F1EA}"@, "AE"@)),
        mid_country(472) == Some(("Tajikistan"@, "\u{1F1F9}\u{1F1EF}"@, "TJ"@)),
        mid_country(473) == Some(("Yemen"@, "\u{1F1FE}\u{1F1EA}"@, "YE"@)),
        mid_country(475) == Some(("Yemen"@, "\u{1F1FE}\u{1F1EA}"@, "YE"@)),
        mid_country(477) == Some(("Hong Kong"@, "\u{1F1ED}\u{1F1F0}"@, "HK"@)),
        mid_country(478) == Some(("Bosnia and Herzegovina"@, "\u{1F1E7}\u{1F1E6}"@, "BA"@)),
        forall|m: u16|
            400 <= m < 500
                && m != 401 && m != 403 && m != 405 && m != 408 && m != 410 && m != 412 && m != 413 && m != 414
                && m != 416 && m != 417 && m != 419 && m != 422 && m != 423 && m != 425 && m != 428 && m != 431
                && m != 432 && m != 434 && m != 436 && m != 437 && m != 438 && m != 440 && m != 441 && m != 443
                && m != 445 && m != 447 && m != 450 && m != 451 && m != 453 && m != 455 && m != 457 && m != 459
                && m != 461 && m != 463 && m != 466 && m != 468 && m != 470 && m != 471 && m != 472 && m != 473
                && m != 475 && m != 477 && m != 478
                ==> #[trigger] mid_country(m) is None,
{
}

/// The Maritime Identification Digits that the ITU allocates in Oceania
/// (MIDs 500 to 599): the country, flag and ISO 3166-1 code of each, and
/// no country for the MIDs of the range that are not allocated.
#[verifier::rlimit(40)]
pub proof fn lemma_mids_oceania()
    ensures
        mid_country(501) == Some(("Adelie Land"@, "\u{1F1F9}\u{1F1EB}"@, "TF"@)),
        mid_country(503) == Some(("Australia"@, "\u{1F1E6}\u{1F1FA}"@, "AU"@)),
        mid_country(506) == Some(("Myanmar"@, "\u{1F1F2}\u{1F1F2}"@, "MM"@)),
        mid_country(508) == Some(("Brunei"@, "\u{1F1E7}\u{1F1F3}"@, "BN"@)),
        mid_country(510) == Some(("Micronesia"@, "\u{1F1EB}\u{1F1F2}"@, "FM"@)),
        mid_country(511) == Some(("Palau"@, "\u{1F1F5}\u{1F1FC}"@, "PW"@)),
        mid_country(512) == Some(("New Zealand"@, "\u{1F1F3}\u{1F1FF}"@, "NZ"@)),
        mid_country(514) == Some(("Cambodia"@, "\u{1F1F0}\u{1F1ED}"@, "KH"@)),
        mid_country(515) == Some(("Cambodia"@, "\u{1F1F0}\u{1F1ED}"@, "KH"@)),
        mid_country(516) == Some(("Christmas Island"@, "\u{1F1E8}\u{1F1FD}"@, "CX"@)),
        mid_country(518) == Some(("Cook Islands"@, "\u{1F1E8}\u{1F1F0}"@, "CK"@)),
        mid_country(520) == Some(("Fiji"@, "\u{1F1EB}\u{1F1EF}"@, "FJ"@)),
        mid_country(523) == Some(("Cocos (Keeling) Islands"@, "\u{1F1E8}\u{1F1E8}"@, "CC"@)),
        mid_country(525) == Some(("Indonesia"@, "\u{1F1EE}\u{1F1E9}"@, "ID"@)),
        mid_country(529) == Some(("Kiribati"@, "\u{1F1F0}\u{1F1EE}"@, "KI"@)),
        mid_country(531) == Some(("Laos"@, "\u{1F1F1}\u{1F1E6}"@, "LA"@)),
        mid_country(533) == Some(("Malaysia"@, "\u{1F1F2}\u{1F1FE}"@, "MY"@)),
        mid_country(536) == Some(("Northern Mariana Islands"@, "\u{1F1F2}\u{1F1F5}"@, "MP"@)),
        mid_country(538) == Some(("Marshall Islands"@, "\u{1F1F2}\u{1F1ED}"@, "MH"@)),
        mid_country(540) == Some(("New Caledonia"@, "\u{1F1F3}\u{1F1E8}"@, "NC"@)),
        mid_country(542) == Some(("Niue"@, "\u{1F1F3}\u{1F1FA}"@, "NU"@)),
        mid_country(544) == Some(("Nauru"@, "\u{1F1F3}\u{1F1F7}"@, "NR"@)),
        mid_country(546) == Some(("French Polynesia"@, "\u{1F1F5}\u{1F1EB}"@, "PF"@)),
        mid_country(548) == Some(("Philippines"@, "\u{1F1F5}\u{1F1ED}"@, "PH"@)),
        mid_country(550) == Some(("Timor-Leste"@, "\u{1F1F9}\u{1F1F1}"@, "TL"@)),
        mid_country(553) == Some(("Papua New Guinea"@, "\u{1F1F5}\u{1F1EC}"@, "PG"@)),
        mid_country(555) == Some(("Pitcairn Islands"@, "\u{1F1F5}\u{1F1F3}"@, "PN"@)),
        mid_country(557) == Some(("Solomon Islands"@, "\u{1F1F8}\u{1F1E7}"@, "SB"@)),
        mid_country(559) == Some(("American Samoa"@, "\u{1F1E6}\u{1F1F8}"@, "AS"@)),
        mid_country(561) == Some(("Samoa"@, "\u{1F1FC}\u{1F1F8}"@, "WS"@)),
        mid_country(563) == Some(("Singapore"@, "\u{1F1F8}\u{1F1EC}"@, "SG"@)),
        mid_country(564) == Some(("Singapore"@, "\u{1F1F8}\u{1F1EC}"@, "SG"@)),
        mid_country(565) == Some(("Singapore"@, "\u{1F1F8}\u{1F1EC}"@, "SG"@)),
        mid_country(566) == Some(("Singapore"@, "\u{1F1F8}\u{1F1EC}"@, "SG"@)),
        mid_country(567) == Some(("Thailand"@, "\u{1F1F9}\u{1F1ED}"@, "TH"@)),
        mid_country(570) == Some(("Tonga"@, "\u{1F1F9}\u{1F1F4}"@, "TO"@)),
        mid_country(572) == Some(("Tuvalu"@, "\u{1F1F9}\u{1F1FB}"@, "TV"@)),
        mid_country(574) == Some(("Vietnam"@, "\u{1F1FB}\u{1F1F3}"@, "VN"@)),
        mid_country(576) == Some(("Vanuatu"@, "\u{1F1FB}\u{1F1FA}"@, "VU"@)),
        mid_country(577) == Some(("Vanuatu"@, "\u{1F1FB}\u{1F1FA}"@, "VU"@)),
        mid_country(578) == Some(("Wallis and Futuna"@, "\u{1F1FC}\u{1F1EB}"@, "WF"@)),
        forall|m: u16|
            500 <= m < 600
                && m != 501 && m != 503 && m != 506 && m != 508 && m != 510 && m != 511 && m != 512 && m != 514
                && m != 515 && m != 516 && m != 518 && m != 520 && m != 523 && m != 525 && m != 529 && m != 531
                && m != 533 && m != 536 && m != 538 && m != 540 && m != 542 && m != 544 && m != 546 && m != 548
                && m != 550 && m != 553 && m != 555 && m != 557 && m != 559 && m != 561 && m != 563 && m != 564
                && m != 565 && m != 566 && m != 567 && m != 570 && m != 572 && m != 574 && m != 576 && m != 577
                && m != 578
                ==> #[trigger] mid_country(m) is None,
{
}

/// The Maritime Identification Digits that the ITU allocates in Africa
/// (MIDs 600 to 699): the country, flag and ISO 3166-1 code of each, and
/// no country for the MIDs of the range that are not allocated.
#[verifier::rlimit(40)]
pub proof fn lemma_mids_africa()
    ensures
        mid_country(601) == Some(("South Africa"@, "\u{1F1FF}\u{1F1E6}"@, "ZA"@)),
        mid_country(603) == Some(("Angola"@, "\u{1F1E6}\u{1F1F4}"@, "AO"@)),
        mid_country(605) == Some(("Algeria"@, "\u{1F1E9}\u{1F1FF}"@, "DZ"@)),
        mid_country(607) == Some(
            ("Saint Paul and Amsterdam Islands"@, "\u{1F1F9}\u{1F1EB}"@, "TF"@),
        ),
        mid_country(608) == Some(("Ascension Island"@, "\u{1F1F8}\u{1F1ED}"@, "SH"@)),
        mid_country(609) == Some(("Burundi"@, "\u{1F1E7}\u{1F1EE}"@, "BI"@)),
        mid_country(610) == Some(("Benin"@, "\u{1F1E7}\u{1F1EF}"@, "BJ"@)),
        mid_country(611) == Some(("Botswana"@, "\u{1F1E7}\u{1F1FC}"@, "BW"@)),
        mid_country(612) == Some(("Central African Republic"@, "\u{1F1E8}\u{1F1EB}"@, "CF"@)),
        mid_country(613) == Some(("Cameroon"@, "\u{1F1E8}\u{1F1F2}"@, "CM"@)),
        mid_country(615) == Some(("Congo"@, "\u{1F1E8}\u{1F1EC}"@, "CG"@)),
        mid_country(616) == Some(("Comoros"@, "\u{1F1F0}\u{1F1F2}"@, "KM"@)),
        mid_country(617) == Some(("Cape Verde"@, "\u{1F1E8}\u{1F1FB}"@, "CV"@)),
        mid_country(618) == Some(("Crozet Archipelago"@, "\u{1F1F9}\u{1F1EB}"@, "TF"@)),
        mid_country(619) == Some(("Ivory Coast"@, "\u{1F1E8}\u{1F1EE}"@, "CI"@)),
        mid_country(620) == Some(("Comoros"@, "\u{1F1F0}\u{1F1F2}"@, "KM"@)),
        mid_country(621) == Some(("Djibouti"@, "\u{1F1E9}\u{1F1EF}"@, "DJ"@)),
        mid_country(622) == Some(("Egypt"@, "\u{1F1EA}\u{1F1EC}"@, "EG"@)),
        mid_country(624) == Some(("Ethiopia"@, "\u{1F1EA}\u{1F1F9}"@, "ET"@)),
        mid_country(625) == Some(("Eritrea"@, "\u{1F1EA}\u{1F1F7}"@, "ER"@)),
        mid_country(626) == Some(("Gabon"@, "\u{1F1EC}\u{1F1E6}"@, "GA"@)),
        mid_country(627) == Some(("Ghana"@, "\u{1F1EC}\u{1F1ED}"@, "GH"@)),
        mid_country(629) == Some(("Gambia"@, "\u{1F1EC}\u{1F1F2}"@, "GM"@)),
        mid_country(630) == Some(("Guinea-Bissau"@, "\u{1F1EC}\u{1F1FC}"@, "GW"@)),
        mid_country(631) == Some(("Equatorial Guinea"@, "\u{1F1EC}\u{1F1F6}"@, "GQ"@)),
        mid_country(632) == Some(("Guinea"@, "\u{1F1EC}\u{1F1F3}"@, "GN"@)),
        mid_country(633) == Some(("Burkina Faso"@, "\u{1F1E7}\u{1F1EB}"@, "BF"@)),
        mid_country(634) == Some(("Kenya"@, "\u{1F1F0}\u{1F1EA}"@, "KE"@)),
        mid_country(635) == Some(("Kerguelen Islands"@, "\u{1F1F9}\u{1F1EB}"@, "TF"@)),
        mid_country(636) == Some(("Liberia"@, "\u{1F1F1}\u{1F1F7}"@, "LR"@)),
        mid_country(637) == Some(("Liberia"@, "\u{1F1F1}\u{1F1F7}"@, "LR"@)),
        mid_country(638) == Some(("South Sudan"@, "\u{1F1F8}\u{1F1F8}"@, "SS"@)),
        mid_country(642) == Some(("Libya"@, "\u{1F1F1}\u{1F1FE}"@, "LY"@)),
        mid_country(644) == Some(("Lesotho"@, "\u{1F1F1}\u{1F1F8}"@, "LS"@)),
        mid_country(645) == Some(("Mauritius"@, "\u{1F1F2}\u{1F1FA}"@, "MU"@)),
        mid_country(647) == Some(("Madagascar"@, "\u{1F1F2}\u{1F1EC}"@, "MG"@)),
        mid_country(649) == Some(("Mali"@, "\u{1F1F2}\u{1F1F1}"@, "ML"@)),
        mid_country(650) == Some(("Mozambique"@, "\u{1F1F2}\u{1F1FF}"@, "MZ"@)),
        mid_country(654) == Some(("Mauritania"@, "\u{1F1F2}\u{1F1F7}"@, "MR"@)),
        mid_country(655) == Some(("Malawi"@, "\u{1F1F2}\u{1F1FC}"@, "MW"@)),
        mid_country(656) == Some(("Niger"@, "\u{1F1F3}\u{1F1EA}"@, "NE"@)),
        mid_country(657) == Some(("Nigeria"@, "\u{1F1F3}\u{1F1EC}"@, "NG"@)),
        mid_country(659) == Some(("Namibia"@, "\u{1F1F3}\u{1F1E6}"@, "NA"@)),
        mid_country(660) == Some(("Reunion"@, "\u{1F1F7}\u{1F1EA}"@, "RE"@)),
        mid_country(661) == Some(("Rwanda"@, "\u{1F1F7}\u{1F1FC}"@, "RW"@)),
        mid_country(662) == Some(("Sudan"@, "\u{1F1F8}\u{1F1E9}"@, "SD"@)),
        mid_country(663) == Some(("Senegal"@, "\u{1F1F8}\u{1F1F3}"@, "SN"@)),
        mid_country(664) == Some(("Seychelles"@, "\u{1F1F8}\u{1F1E8}"@, "SC"@)),
        mid_country(665) == Some(("Saint Helena"@, "\u{1F1F8}\u{1F1ED}"@, "SH"@)),
        mid_country(666) == Some(("Somalia"@, "\u{1F1F8}\u{1F1F4}"@, "SO"@)),
        mid_country(667) == Some(("Sierra Leone"@, "\u{1F1F8}\u{1F1F1}"@, "SL"@)),
        mid_country(668) == Some(("Sao Tome and Principe"@, "\u{1F1F8}\u{1F1F9}"@, "ST"@)),
        mid_country(669) == Some(("Eswatini"@, "\u{1F1F8}\u{1F1FF}"@, "SZ"@)),
        mid_country(670) == Some(("Chad"@, "\u{1F1F9}\u{1F1E9}"@, "TD"@)),
        mid_country(671) == Some(("Togo"@, "\u{1F1F9}\u{1F1EC}"@, "TG"@)),
        mid_country(672) == Some(("Tunisia"@, "\u{1F1F9}\u{1F1F3}"@, "TN"@)),
        mid_country(674) == Some(("Tanzania"@, "\u{1F1F9}\u{1F1FF}"@, "TZ"@)),
        mid_country(675) == Some(("Uganda"@, "\u{1F1FA}\u{1F1EC}"@, "UG"@)),
        mid_country(676) == Some(
            ("Democratic Republic of the Congo"@, "\u{1F1E8}\u{1F1E9}"@, "CD"@),
        ),
        mid_country(677) == Some(("Tanzania"@, "\u{1F1F9}\u{1F1FF}"@, "TZ"@)),
        mid_country(678) == Some(("Zambia"@, "\u{1F1FF}\u{1F1F2}"@, "ZM"@)),
        mid_country(679) == Some(("Zimbabwe"@, "\u{1F1FF}\u{1F1FC}"@, "ZW"@)),
        forall|m: u16|
            600 <= m < 700
                && m != 601 && m != 603 && m != 605 && m != 607 && m != 608 && m != 609 && m != 610 && m != 611
                && m != 612 && m != 613 && m != 615 && m != 616 && m != 617 && m != 618 && m != 619 && m != 620
                && m != 621 && m != 622 && m != 624 && m != 625 && m != 626 && m != 627 && m != 629 && m != 630
                && m != 631 && m != 632 && m != 633 && m != 634 && m != 635 && m != 636 && m != 637 && m != 638
                && m != 642 && m != 644 && m != 645 && m != 647 && m != 649 && m != 650 && m != 654 && m != 655
                && m != 656 && m != 657 && m != 659 && m != 660 && m != 661 && m != 662 && m != 663 && m != 664
                && m != 665 && m != 666 && m != 667 && m != 668 && m != 669 && m != 670 && m != 671 && m != 672
                && m != 674 && m != 675 && m != 676 && m != 677 && m != 678 && m != 679
                ==> #[trigger] mid_country(m) is None,
{
}

/// The Maritime Identification Digits that the ITU allocates in South America
/// (MIDs 700 to 799): the country, flag and ISO 3166-1 code of each, and
/// no country for the MIDs of the range that are not allocated.
#[verifier::rlimit(40)]
pub proof fn lemma_mids_south_america()
    ensures
        mid_country(701) == Some(("Argentina"@, "\u{1F1E6}\u{1F1F7}"@, "AR"@)),
        mid_country(710) == Some(("Brazil"@, "\u{1F1E7}\u{1F1F7}"@, "BR"@)),
        mid_country(720) == Some(("Bolivia"@, "\u{1F1E7}\u{1F1F4}"@, "BO"@)),
        mid_country(725) == Some(("Chile"@, "\u{1F1E8}\u{1F1F1}"@, "CL"@)),
        mid_country(730) == Some(("Colombia"@, "\u{1F1E8}\u{1F1F4}"@, "CO"@)),
        mid_country(735) == Some(("Ecuador"@, "\u{1F1EA}\u{1F1E8}"@, "EC"@)),
        mid_country(740) == Some(("Falkland Islands"@, "\u{1F1EB}\u{1F1F0}"@, "FK"@)),
        mid_country(745) == Some(("Guiana"@, "\u{1F1EC}\u{1F1EB}"@, "GF"@)),
        mid_country(750) == Some(("Guyana"@, "\u{1F1EC}\u{1F1FE}"@, "GY"@)),
        mid_country(755) == Some(("Paraguay"@, "\u{1F1F5}\u{1F1FE}"@, "PY"@)),
        mid_country(760) == Some(("Peru"@, "\u{1F1F5}\u{1F1EA}"@, "PE"@)),
        mid_country(765) == Some(("Suriname"@, "\u{1F1F8}\u{1F1F7}"@, "SR"@)),
        mid_country(770) == Some(("Uruguay"@, "\u{1F1FA}\u{1F1FE}"@, "UY"@)),
        mid_country(775) == Some(("Venezuela"@, "\u{1F1FB}\u{1F1EA}"@, "VE"@)),
        forall|m: u16|
            700 <= m < 800
                && m != 701 && m != 710 && m != 720 && m != 725 && m != 730 && m != 735 && m != 740 && m != 745
                && m != 750 && m != 755 && m != 760 && m != 765 && m != 770 && m != 775
                ==> #[trigger] mid_country(m) is None,
{
}

/// MIDs below 200 and from 800 up are allocated to no country.
pub proof fn lemma_mids_outside_regions()
    ensures
        forall|m: u16| m < 200 || m >= 800 ==> #[trigger] mid_country(m) is None,
{
}

fn mid_entry(mid: u16) -> (r: Option<(&'static str, &'static str, &'static str)>)
    ensures
        match r {
            Some(t) => mid_country(mid) == Some((t.0@, t.1@, t.2@)),
            None => mid_country(mid) is None,
        },
{
    match mid {
        201 => Some(("Albania", "\u{1F1E6}\u{1F1F1}", "AL")),
        202 => Some(("Andorra", "\u{1F1E6}\u{1F1E9}", "AD")),
        203 => Some(("Austria", "\u{1F1E6}\u{1F1F9}", "AT")),
        204 => Some(("Portugal", "\u{1F1F5}\u{1F1F9}", "PT")),
        205 => Some(("Belgium", "\u{1F1E7}\u{1F1EA}", "BE")),
        206 => Some(("Belarus", "\u{1F1E7}\u{1F1FE}", "BY")),
        207 => Some(("Bulgaria", "\u{1F1E7}\u{1F1EC}", "BG")),
        208 => Some(("Vatican City", "\u{1F1FB}\u{1F1E6}", "VA")),
        209 => Some(("Cyprus", "\u{1F1E8}\u{1F1FE}", "CY")),
        210 => Some(("Cyprus", "\u{1F1E8}\u{1F1FE}", "CY")),
        211 => Some(("Germany", "\u{1F1E9}\u{1F1EA}", "DE")),
        212 => Some(("Cyprus", "\u{1F1E8}\u{1F1FE}", "CY")),
        213 => Some(("Georgia", "\u{1F1EC}\u{1F1EA}", "GE")),
        214 => Some(("Moldova", "\u{1F1F2}\u{1F1E9}", "MD")),
        215 => Some(("Malta", "\u{1F1F2}\u{1F1F9}", "MT")),
        216 => Some(("Armenia", "\u{1F1E6}\u{1F1F2}", "AM")),
        218 => Some(("Germany", "\u{1F1E9}\u{1F1EA}", "DE")),
        219 => Some(("Denmark", "\u{1F1E9}\u{1F1F0}", "DK")),
        220 => Some(("Denmark", "\u{1F1E9}\u{1F1F0}", "DK")),
        224 => Some(("Spain", "\u{1F1EA}\u{1F1F8}", "ES")),
        225 => Some(("Spain", "\u{1F1EA}\u{1F1F8}", "ES")),
        226 => Some(("France", "\u{1F1EB}\u{1F1F7}", "FR")),
        227 => Some(("France", "\u{1F1EB}\u{1F1F7}", "FR")),
        228 => Some(("France", "\u{1F1EB}\u{1F1F7}", "FR")),
        229 => Some(("Malta", "\u{1F1F2}\u{1F1F9}", "MT")),
        230 => Some(("Finland", "\u{1F1EB}\u{1F1EE}", "FI")),
        231 => Some(("Faroe Islands", "\u{1F1EB}\u{1F1F4}", "FO")),
        232 => Some(("United Kingdom", "\u{1F1EC}\u{1F1E7}", "GB")),
        233 => Some(("United Kingdom", "\u{1F1EC}\u{1F1E7}", "GB")),
        234 => Some(("United Kingdom", "\u{1F1EC}\u{1F1E7}", "GB")),
        235 => Some(("United Kingdom", "\u{1F1EC}\u{1F1E7}", "GB")),
        236 => Some(("Gibraltar", "\u{1F1EC}\u{1F1EE}", "GI")),
        237 => Some(("Greece", "\u{1F1EC}\u{1F1F7}", "GR")),
        238 => Some(("Croatia", "\u{1F1ED}\u{1F1F7}", "HR")),
        239 => Some(("Greece", "\u{1F1EC}\u{1F1F7}", "GR")),
        240 => Some(("Greece", "\u{1F1EC}\u{1F1F7}", "GR")),
        241 => Some(("Greece", "\u{1F1EC}\u{1F1F7}", "GR")),
        242 => Some(("Morocco", "\u{1F1F2}\u{1F1E6}", "MA")),
        243 => Some(("Hungary", "\u{1F1ED}\u{1F1FA}", "HU")),
        244 => Some(("Netherlands", "\u{1F1F3}\u{1F1F1}", "NL")),
        245 => Some(("Netherlands", "\u{1F1F3}\u{1F1F1}", "NL")),
        246 => Some(("Netherlands", "\u{1F1F3}\u{1F1F1}", "NL")),
        247 => Some(("Italy", "\u{1F1EE}\u{1F1F9}", "IT")),
        248 => Some(("Malta", "\u{1F1F2}\u{1F1F9}", "MT")),
        249 => Some(("Malta", "\u{1F1F2}\u{1F1F9}", "MT")),
        250 => Some(("Ireland", "\u{1F1EE}\u{1F1EA}", "IE")),
        251 => Some(("Iceland", "\u{1F1EE}\u{1F1F8}", "IS")),
        252 => Some(("Liechtenstein", "\u{1F1F1}\u{1F1EE}", "LI")),
        253 => Some(("Luxembourg", "\u{1F1F1}\u{1F1FA}", "LU")),
        254 => Some(("Monaco", "\u{1F1F2}\u{1F1E8}", "MC")),
        255 => Some(("Portugal", "\u{1F1F5}\u{1F1F9}", "PT")),
        256 => Some(("Malta", "\u{1F1F2}\u{1F1F9}", "MT")),
        257 => Some(("Norway", "\u{1F1F3}\u{1F1F4}", "NO")),
        258 => Some(("Norway", "\u{1F1F3}\u{1F1F4}", "NO")),
        259 => Some(("Norway", "\u{1F1F3}\u{1F1F4}", "NO")),
        261 => Some(("Poland", "\u{1F1F5}\u{1F1F1}", "PL")),
        262 => Some(("Montenegro", "\u{1F1F2}\u{1F1EA}", "ME")),
        263 => Some(("Portugal", "\u{1F1F5}\u{1F1F9}", "PT")),
        264 => Some(("Romania", "\u{1F1F7}\u{1F1F4}", "RO")),
        265 => Some(("Sweden", "\u{1F1F8}\u{1F1EA}", "SE")),
        266 => Some(("Sweden", "\u{1F1F8}\u{1F1EA}", "SE")),
        267 => Some(("Slovakia", "\u{1F1F8}\u{1F1F0}", "SK")),
        268 => Some(("San Marino", "\u{1F1F8}\u{1F1F2}", "SM")),
        269 => Some(("Switzerland", "\u{1F1E8}\u{1F1ED}", "CH")),
        270 => Some(("Czech Republic", "\u{1F1E8}\u{1F1FF}", "CZ")),
        271 => Some(("Turkey", "\u{1F1F9}\u{1F1F7}", "TR")),
        272 => Some(("Ukraine", "\u{1F1FA}\u{1F1E6}", "UA")),
        273 => Some(("Russia", "\u{1F1F7}\u{1F1FA}", "RU")),
        274 => Some(("North Macedonia", "\u{1F1F2}\u{1F1F0}", "MK")),
        275 => Some(("Latvia", "\u{1F1F1}\u{1F1FB}", "LV")),
        276 => Some(("Estonia", "\u{1F1EA}\u{1F1EA}", "EE")),
        277 => Some(("Lithuania", "\u{1F1F1}\u{1F1F9}", "LT")),
        278 => Some(("Slovenia", "\u{1F1F8}\u{1F1EE}", "SI")),
        279 => Some(("Serbia", "\u{1F1F7}\u{1F1F8}", "RS")),
        301 => Some(("Anguilla", "\u{1F1E6}\u{1F1EE}", "AI")),
        303 => Some(("United States", "\u{1F1FA}\u{1F1F8}", "US")),
        304 => Some(("Antigua and Barbuda", "\u{1F1E6}\u{1F1EC}", "AG")),
        305 => Some(("Antigua and Barbuda", "\u{1F1E6}\u{1F1EC}", "AG")),
        306 => Some(("Curacao", "\u{1F1E8}\u{1F1FC}", "CW")),
        307 => Some(("Aruba", "\u{1F1E6}\u{1F1FC}", "AW")),
        308 => Some(("Bahamas", "\u{1F1E7}\u{1F1F8}", "BS")),
        309 => Some(("Bahamas", "\u{1F1E7}\u{1F1F8}", "BS")),
        310 => Some(("Bermuda", "\u{1F1E7}\u{1F1F2}", "BM")),
        311 => Some(("Bahamas", "\u{1F1E7}\u{1F1F8}", "BS")),
        312 => Some(("Belize", "\u{1F1E7}\u{1F1FF}", "BZ")),
        314 => Some(("Barbados", "\u{1F1E7}\u{1F1E7}", "BB")),
        316 => Some(("Canada", "\u{1F1E8}\u{1F1E6}", "CA")),
        319 => Some(("Cayman Islands", "\u{1F1F0}\u{1F1FE}", "KY")),
        321 => Some(("Costa Rica", "\u{1F1E8}\u{1F1F7}", "CR")),
        323 => Some(("Cuba", "\u{1F1E8}\u{1F1FA}", "CU")),
        325 => Some(("Dominica", "\u{1F1E9}\u{1F1F2}", "DM")),
        327 => Some(("Dominican Republic", "\u{1F1E9}\u{1F1F4}", "DO")),
        329 => Some(("Guadeloupe", "\u{1F1EC}\u{1F1F5}", "GP")),
        330 => Some(("Grenada", "\u{1F1EC}\u{1F1E9}", "GD")),
        331 => Some(("Greenland", "\u{1F1EC}\u{1F1F1}", "GL")),
        332 => Some(("Guatemala", "\u{1F1EC}\u{1F1F9}", "GT")),
        334 => Some(("Honduras", "\u{1F1ED}\u{1F1F3}", "HN")),
        336 => Some(("Haiti", "\u{1F1ED}\u{1F1F9}", "HT")),
        338 => Some(("United States", "\u{1F1FA}\u{1F1F8}", "US")),
        339 => Some(("Jamaica", "\u{1F1EF}\u{1F1F2}", "JM")),
        341 => Some(("Saint Kitts and Nevis", "\u{1F1F0}\u{1F1F3}", "KN")),
        343 => Some(("Saint Lucia", "\u{1F1F1}\u{1F1E8}", "LC")),
        345 => Some(("Mexico", "\u{1F1F2}\u{1F1FD}", "MX")),
        347 => Some(("Martinique", "\u{1F1F2}\u{1F1F6}", "MQ")),
        348 => Some(("Montserrat", "\u{1F1F2}\u{1F1F8}", "MS")),
        350 => Some(("Nicaragua", "\u{1F1F3}\u{1F1EE}", "NI")),
        351 => Some(("Panama", "\u{1F1F5}\u{1F1E6}", "PA")),
        352 => Some(("Panama", "\u{1F1F5}\u{1F1E6}", "PA")),
        353 => Some(("Panama", "\u{1F1F5}\u{1F1E6}", "PA")),
        354 => Some(("Panama", "\u{1F1F5}\u{1F1E6}", "PA")),
        355 => Some(("Panama", "\u{1F1F5}\u{1F1E6}", "PA")),
        356 => Some(("Panama", "\u{1F1F5}\u{1F1E6}", "PA")),
        357 => Some(("Panama", "\u{1F1F5}\u{1F1E6}", "PA")),
        358 => Some(("Puerto Rico", "\u{1F1F5}\u{1F1F7}", "PR")),
        359 => Some(("El Salvador", "\u{1F1F8}\u{1F1FB}", "SV")),
        361 => Some(("Saint Pierre and Miquelon", "\u{1F1F5}\u{1F1F2}", "PM")),
        362 => Some(("Trinidad and Tobago", "\u{1F1F9}\u{1F1F9}", "TT")),
        364 => Some(("Turks and Caicos Islands", "\u{1F1F9}\u{1F1E8}", "TC")),
        366 => Some(("United States", "\u{1F1FA}\u{1F1F8}", "US")),
        367 => Some(("United States", "\u{1F1FA}\u{1F1F8}", "US")),
        368 => Some(("United States", "\u{1F1FA}\u{1F1F8}", "US")),
        369 => Some(("United States", "\u{1F1FA}\u{1F1F8}", "US")),
        370 => Some(("Panama", "\u{1F1F5}\u{1F1E6}", "PA")),
        371 => Some(("Panama", "\u{1F1F5}\u{1F1E6}", "PA")),
        372 => Some(("Panama", "\u{1F1F5}\u{1F1E6}", "PA")),
        373 => Some(("Panama", "\u{1F1F5}\u{1F1E6}", "PA")),
        374 => Some(("Panama", "\u{1F1F5}\u{1F1E6}", "PA")),
        375 => Some(("Saint Vincent and the Grenadines", "\u{1F1FB}\u{1F1E8}", "VC")),
        376 => Some(("Saint Vincent and the Grenadines", "\u{1F1FB}\u{1F1E8}", "VC")),
        377 => Some(("Saint Vincent and the Grenadines", "\u{1F1FB}\u{1F1E8}", "VC")),
        378 => Some(("British Virgin Islands", "\u{1F1FB}\u{1F1EC}", "VG")),
        379 => Some(("United States Virgin Islands", "\u{1F1FB}\u{1F1EE}", "VI")),
        401 => Some(("Afghanistan", "\u{1F1E6}\u{1F1EB}", "AF")),
        403 => Some(("Saudi Arabia", "\u{1F1F8}\u{1F1E6}", "SA")),
        405 => Some(("Bangladesh", "\u{1F1E7}\u{1F1E9}", "BD")),
        408 => Some(("Bahrain", "\u{1F1E7}\u{1F1ED}", "BH")),
        410 => Some(("Bhutan", "\u{1F1E7}\u{1F1F9}", "BT")),
        412 => Some(("China", "\u{1F1E8}\u{1F1F3}", "CN")),
        413 => Some(("China", "\u{1F1E8}\u{1F1F3}", "CN")),
        414 => Some(("China", "\u{1F1E8}\u{1F1F3}", "CN")),
        416 => Some(("Taiwan", "\u{1F1F9}\u{1F1FC}", "TW")),
        417 => Some(("Sri Lanka", "\u{1F1F1}\u{1F1F0}", "LK")),
        419 => Some(("India", "\u{1F1EE}\u{1F1F3}", "IN")),
        422 => Some(("Iran", "\u{1F1EE}\u{1F1F7}", "IR")),
        423 => Some(("Azerbaijan", "\u{1F1E6}\u{1F1FF}", "AZ")),
        425 => Some(("Iraq", "\u{1F1EE}\u{1F1F6}", "IQ")),
        428 => Some(("Israel", "\u{1F1EE}\u{1F1F1}", "IL")),
        431 => Some(("Japan", "\u{1F1EF}\u{1F1F5}", "JP")),
        432 => Some(("Japan", "\u{1F1EF}\u{1F1F5}", "JP")),
        434 => Some(("Turkmenistan", "\u{1F1F9}\u{1F1F2}", "TM")),
        436 => Some(("Kazakhstan", "\u{1F1F0}\u{1F1FF}", "KZ")),
        437 => Some(("Uzbekistan", "\u{1F1FA}\u{1F1FF}", "UZ")),
        438 => Some(("Jordan", "\u{1F1EF}\u{1F1F4}", "JO")),
        440 => Some(("South Korea", "\u{1F1F0}\u{1F1F7}", "KR")),
        441 => Some(("South Korea", "\u{1F1F0}\u{1F1F7}", "KR")),
        443 => Some(("Palestine", "\u{1F1F5}\u{1F1F8}", "PS")),
        445 => Some(("North Korea", "\u{1F1F0}\u{1F1F5}", "KP")),
        447 => Some(("Kuwait", "\u{1F1F0}\u{1F1FC}", "KW")),
        450 => Some(("Lebanon", "\u{1F1F1}\u{1F1E7}", "LB")),
        451 => Some(("Kyrgyzstan", "\u{1F1F0}\u{1F1EC}", "KG")),
        453 => Some(("Macao", "\u{1F1F2}\u{1F1F4}", "MO")),
        455 => Some(("Maldives", "\u{1F1F2}\u{1F1FB}", "MV")),
        457 => Some(("Mongolia", "\u{1F1F2}\u{1F1F3}", "MN")),
        459 => Some(("Nepal", "\u{1F1F3}\u{1F1F5}", "NP")),
        461 => Some(("Oman", "\u{1F1F4}\u{1F1F2}", "OM")),
        463 => Some(("Pakistan", "\u{1F1F5}\u{1F1F0}", "PK")),
        466 => Some(("Qatar", "\u{1F1F6}\u{1F1E6}", "QA")),
        468 => Some(("Syria", "\u{1F1F8}\u{1F1FE}", "SY")),
        470 => Some(("United Arab Emirates", "\u{1F1E6}\u{1F1EA}", "AE")),
        471 => Some(("United Arab Emirates", "\u{1F1E6}\u{1F1EA}", "AE")),
        472 => Some(("Tajikistan", "\u{1F1F9}\u{1F1EF}", "TJ")),
        473 => Some(("Yemen", "\u{1F1FE}\u{1F1EA}", "YE")),
        475 => Some(("Yemen", "\u{1F1FE}\u{1F1EA}", "YE")),
        477 => Some(("Hong Kong", "\u{1F1ED}\u{1F1F0}", "HK")),
        478 => Some(("Bosnia and Herzegovina", "\u{1F1E7}\u{1F1E6}", "BA")),
        501 => Some(("Adelie Land", "\u{1F1F9}\u{1F1EB}", "TF")),
        503 => Some(("Australia", "\u{1F1E6}\u{1F1FA}", "AU")),
        506 => Some(("Myanmar", "\u{1F1F2}\u{1F1F2}", "MM")),
        508 => Some(("Brunei", "\u{1F1E7}\u{1F1F3}", "BN")),
        510 => Some(("Micronesia", "\u{1F1EB}\u{1F1F2}", "FM")),
        511 => Some(("Palau", "\u{1F1F5}\u{1F1FC}", "PW")),
        512 => Some(("New Zealand", "\u{1F1F3}\u{1F1FF}", "NZ")),
        514 => Some(("Cambodia", "\u{1F1F0}\u{1F1ED}", "KH")),
        515 => Some(("Cambodia", "\u{1F1F0}\u{1F1ED}", "KH")),
        516 => Some(("Christmas Island", "\u{1F1E8}\u{1F1FD}", "CX")),
        518 => Some(("Cook Islands", "\u{1F1E8}\u{1F1F0}", "CK")),
        520 => Some(("Fiji", "\u{1F1EB}\u{1F1EF}", "FJ")),
        523 => Some(("Cocos (Keeling) Islands", "\u{1F1E8}\u{1F1E8}", "CC")),
        525 => Some(("Indonesia", "\u{1F1EE}\u{1F1E9}", "ID")),
        529 => Some(("Kiribati", "\u{1F1F0}\u{1F1EE}", "KI")),
        531 => Some(("Laos", "\u{1F1F1}\u{1F1E6}", "LA")),
        533 => Some(("Malaysia", "\u{1F1F2}\u{1F1FE}", "MY")),
        536 => Some(("Northern Mariana Islands", "\u{1F1F2}\u{1F1F5}", "MP")),
        538 => Some(("Marshall Islands", "\u{1F1F2}\u{1F1ED}", "MH")),
        540 => Some(("New Caledonia", "\u{1F1F3}\u{1F1E8}", "NC")),
        542 => Some(("Niue", "\u{1F1F3}\u{1F1FA}", "NU")),
        544 => Some(("Nauru", "\u{1F1F3}\u{1F1F7}", "NR")),
        546 => Some(("French Polynesia", "\u{1F1F5}\u{1F1EB}", "PF")),
        548 => Some(("Philippines", "\u{1F1F5}\u{1F1ED}", "PH")),
        550 => Some(("Timor-Leste", "\u{1F1F9}\u{1F1F1}", "TL")),
        553 => Some(("Papua New Guinea", "\u{1F1F5}\u{1F1EC}", "PG")),
        555 => Some(("Pitcairn Islands", "\u{1F1F5}\u{1F1F3}", "PN")),
        557 => Some(("Solomon Islands", "\u{1F1F8}\u{1F1E7}", "SB")),
        559 => Some(("American Samoa", "\u{1F1E6}\u{1F1F8}", "AS")),
        561 => Some(("Samoa", "\u{1F1FC}\u{1F1F8}", "WS")),
        563 => Some(("Singapore", "\u{1F1F8}\u{1F1EC}", "SG")),
        564 => Some(("Singapore", "\u{1F1F8}\u{1F1EC}", "SG")),
        565 => Some(("Singapore", "\u{1F1F8}\u{1F1EC}", "SG")),
        566 => Some(("Singapore", "\u{1F1F8}\u{1F1EC}", "SG")),
        567 => Some(("Thailand", "\u{1F1F9}\u{1F1ED}", "TH")),
        570 => Some(("Tonga", "\u{1F1F9}\u{1F1F4}", "TO")),
        572 => Some(("Tuvalu", "\u{1F1F9}\u{1F1FB}", "TV")),
        574 => Some(("Vietnam", "\u{1F1FB}\u{1F1F3}", "VN")),
        576 => Some(("Vanuatu", "\u{1F1FB}\u{1F1FA}", "VU")),
        577 => Some(("Vanuatu", "\u{1F1FB}\u{1F1FA}", "VU")),
        578 => Some(("Wallis and Futuna", "\u{1F1FC}\u{1F1EB}", "WF")),
        601 => Some(("South Africa", "\u{1F1FF}\u{1F1E6}", "ZA")),
        603 => Some(("Angola", "\u{1F1E6}\u{1F1F4}", "AO")),
        605 => Some(("Algeria", "\u{1F1E9}\u{1F1FF}", "DZ")),
        607 => Some(("Saint Paul and Amsterdam Islands", "\u{1F1F9}\u{1F1EB}", "TF")),
        608 => Some(("Ascension Island", "\u{1F1F8}\u{1F1ED}", "SH")),
        609 => Some(("Burundi", "\u{1F1E7}\u{1F1EE}", "BI")),
        610 => Some(("Benin", "\u{1F1E7}\u{1F1EF}", "BJ")),
        611 => Some(("Botswana", "\u{1F1E7}\u{1F1FC}", "BW")),
        612 => Some(("Central African Republic", "\u{1F1E8}\u{1F1EB}", "CF")),
        613 => Some(("Cameroon", "\u{1F1E8}\u{1F1F2}", "CM")),
        615 => Some(("Congo", "\u{1F1E8}\u{1F1EC}", "CG")),
        616 => Some(("Comoros", "\u{1F1F0}\u{1F1F2}", "KM")),
        617 => Some(("Cape Verde", "\u{1F1E8}\u{1F1FB}", "CV")),
        618 => Some(("Crozet Archipelago", "\u{1F1F9}\u{1F1EB}", "TF")),
        619 => Some(("Ivory Coast", "\u{1F1E8}\u{1F1EE}", "CI")),
        620 => Some(("Comoros", "\u{1F1F0}\u{1F1F2}", "KM")),
        621 => Some(("Djibouti", "\u{1F1E9}\u{1F1EF}", "DJ")),
        622 => Some(("Egypt", "\u{1F1EA}\u{1F1EC}", "EG")),
        624 => Some(("Ethiopia", "\u{1F1EA}\u{1F1F9}", "ET")),
        625 => Some(("Eritrea", "\u{1F1EA}\u{1F1F7}", "ER")),
        626 => Some(("Gabon", "\u{1F1EC}\u{1F1E6}", "GA")),
        627 => Some(("Ghana", "\u{1F1EC}\u{1F1ED}", "GH")),
        629 => Some(("Gambia", "\u{1F1EC}\u{1F1F2}", "GM")),
        630 => Some(("Guinea-Bissau", "\u{1F1EC}\u{1F1FC}", "GW")),
        631 => Some(("Equatorial Guinea", "\u{1F1EC}\u{1F1F6}", "GQ")),
        632 => Some(("Guinea", "\u{1F1EC}\u{1F1F3}", "GN")),
        633 => Some(("Burkina Faso", "\u{1F1E7}\u{1F1EB}", "BF")),
        634 => Some(("Kenya", "\u{1F1F0}\u{1F1EA}", "KE")),
        635 => Some(("Kerguelen Islands", "\u{1F1F9}\u{1F1EB}", "TF")),
        636 => Some(("Liberia", "\u{1F1F1}\u{1F1F7}", "LR")),
        637 => Some(("Liberia", "\u{1F1F1}\u{1F1F7}", "LR")),
        638 => Some(("South Sudan", "\u{1F1F8}\u{1F1F8}", "SS")),
        642 => Some(("Libya", "\u{1F1F1}\u{1F1FE}", "LY")),
        644 => Some(("Lesotho", "\u{1F1F1}\u{1F1F8}", "LS")),
        645 => Some(("Mauritius", "\u{1F1F2}\u{1F1FA}", "MU")),
        647 => Some(("Madagascar", "\u{1F1F2}\u{1F1EC}", "MG")),
        649 => Some(("Mali", "\u{1F1F2}\u{1F1F1}", "ML")),
        650 => Some(("Mozambique", "\u{1F1F2}\u{1F1FF}", "MZ")),
        654 => Some(("Mauritania", "\u{1F1F2}\u{1F1F7}", "MR")),
        655 => Some(("Malawi", "\u{1F1F2}\u{1F1FC}", "MW")),
        656 => Some(("Niger", "\u{1F1F3}\u{1F1EA}", "NE")),
        657 => Some(("Nigeria", "\u{1F1F3}\u{1F1EC}", "NG")),
        659 => Some(("Namibia", "\u{1F1F3}\u{1F1E6}", "NA")),
        660 => Some(("Reunion", "\u{1F1F7}\u{1F1EA}", "RE")),
        661 => Some(("Rwanda", "\u{1F1F7}\u{1F1FC}", "RW")),
        662 => Some(("Sudan", "\u{1F1F8}\u{1F1E9}", "SD")),
        663 => Some(("Senegal", "\u{1F1F8}\u{1F1F3}", "SN")),
        664 => Some(("Seychelles", "\u{1F1F8}\u{1F1E8}", "SC")),
        665 => Some(("Saint Helena", "\u{1F1F8}\u{1F1ED}", "SH")),
        666 => Some(("Somalia", "\u{1F1F8}\u{1F1F4}", "SO")),
        667 => Some(("Sierra Leone", "\u{1F1F8}\u{1F1F1}", "SL")),
        668 => Some(("Sao Tome and Principe", "\u{1F1F8}\u{1F1F9}", "ST")),
        669 => Some(("Eswatini", "\u{1F1F8}\u{1F1FF}", "SZ")),
        670 => Some(("Chad", "\u{1F1F9}\u{1F1E9}", "TD")),
        671 => Some(("Togo", "\u{1F1F9}\u{1F1EC}", "TG")),
        672 => Some(("Tunisia", "\u{1F1F9}\u{1F1F3}", "TN")),
        674 => Some(("Tanzania", "\u{1F1F9}\u{1F1FF}", "TZ")),
        675 => Some(("Uganda", "\u{1F1FA}\u{1F1EC}", "UG")),
        676 => Some(("Democratic Republic of the Congo", "\u{1F1E8}\u{1F1E9}", "CD")),
        677 => Some(("Tanzania", "\u{1F1F9}\u{1F1FF}", "TZ")),
        678 => Some(("Zambia", "\u{1F1FF}\u{1F1F2}", "ZM")),
        679 => Some(("Zimbabwe", "\u{1F1FF}\u{1F1FC}", "ZW")),
        701 => Some(("Argentina", "\u{1F1E6}\u{1F1F7}", "AR")),
        710 => Some(("Brazil", "\u{1F1E7}\u{1F1F7}", "BR")),
        720 => Some(("Bolivia", "\u{1F1E7}\u{1F1F4}", "BO")),
        725 => Some(("Chile", "\u{1F1E8}\u{1F1F1}", "CL")),
        730 => Some(("Colombia", "\u{1F1E8}\u{1F1F4}", "CO")),
        735 => Some(("Ecuador", "\u{1F1EA}\u{1F1E8}", "EC")),
        740 => Some(("Falkland Islands", "\u{1F1EB}\u{1F1F0}", "FK")),
        745 => Some(("Guiana", "\u{1F1EC}\u{1F1EB}", "GF")),
        750 => Some(("Guyana", "\u{1F1EC}\u{1F1FE}", "GY")),
        755 => Some(("Paraguay", "\u{1F1F5}\u{1F1FE}", "PY")),
        760 => Some(("Peru", "\u{1F1F5}\u{1F1EA}", "PE")),
        765 => Some(("Suriname", "\u{1F1F8}\u{1F1F7}", "SR")),
        770 => Some(("Uruguay", "\u{1F1FA}\u{1F1FE}", "UY")),
        775 => Some(("Venezuela", "\u{1F1FB}\u{1F1EA}", "VE")),
        _ => None,
    }
}

/// The country that a MID is allocated to, or the unknown country.
pub open spec fn spec_country_from_mid(mid: u16) -> CountryView {
    match mid_country(mid) {
        Some(c) => c,
        None => unknown_country(),
    }
}

/// Look up the flag state of a MID.
pub fn country_from_mid(mid: u16) -> (r: Country)
    ensures
        r@ == spec_country_from_mid(mid),
{
    match mid_entry(mid) {
        Some((name, flag, iso)) => Country {
            country: String::from_str(name),
            flag: String::from_str(flag),
            iso_3166_1: String::from_str(iso),
        },
        None => Country::default(),
    }
}

/// Kinds of stations that an MMSI can be assigned to.
#[derive(Debug, Clone, Copy, PartialEq, Eq, Structural)]
pub enum MmsiType {
    CoastStation,
    GroupOfShips,
    SarAircraft,
    AisAton,
    AisSartMobEpirb,
    StandardShipStation,
}

/// What an MMSI identifies.
#[derive(Debug, Clone)]
pub struct MmsiInfo {
    pub mmsi: String,
    pub mmsi_type: MmsiType,
    pub country: Country,
}

/// The mathematical content of an [`MmsiInfo`].
pub type MmsiView = (Seq<char>, MmsiType, CountryView);

impl View for MmsiInfo {
    type V = MmsiView;

    open spec fn view(&self) -> MmsiView {
        (self.mmsi@, self.mmsi_type, self.country@)
    }
}

pub open spec fn digit_char(d: nat) -> char {
    ((d + 48) as u8) as char
}

/// Decimal digits of `n`, without leading zeros.
pub open spec fn dec_chars(n: nat) -> Seq<char>
    decreases n,
{
    if n < 10 {
        seq![digit_char(n)]
    } else {
        dec_chars(n / 10).push(digit_char(n % 10))
    }
}

/// Decimal digits of `n`, zero-padded to at least nine digits (`{:09}`).
pub open spec fn padded9(n: nat) -> Seq<char> {
    let d = dec_chars(n);
    if d.len() < 9 {
        Seq::new((9 - d.len()) as nat, |i: int| '0') + d
    } else {
        d
    }
}

pub open spec fn dval(c: char) -> nat {
    ((c as u32) - 48) as nat
}

/// The number written by the three digits of `s` from index `a`.
pub open spec fn num3(s: Seq<char>, a: int) -> nat {
    dval(s[a]) * 100 + dval(s[a + 1]) * 10 + dval(s[a + 2])
}

pub open spec fn mid_message(mid: nat, kind: Seq<char>) -> Seq<char> {
    "Invalid MID ("@ + dec_chars(mid) + kind
}

pub open spec fn is_mid(mid: nat) -> bool {
    200 <= mid < 800
}

/// Interpretation of an MMSI (ITU-R M.585): coast stations `00MIDXXXX`,
/// groups of ships `0MIDXXXXX`, SAR aircraft `111MIDXXX`, aids to navigation
/// `99MIDXXXX`, SART/MOB/EPIRB `970`-`979`, ship stations `MIDXXXXXX`.
pub open spec fn spec_from_mmsi(n: nat) -> Result<MmsiView, Seq<char>> {
    let s = padded9(n);
    let prefix3 = num3(s, 0);
    if s[0] == '0' && s[1] == '0' {
        let mid = num3(s, 2);
        if is_mid(mid) {
            Ok((s, MmsiType::CoastStation, spec_country_from_mid(mid as u16)))
        } else {
            Err(mid_message(mid, ") for coast station"@))
        }
    } else if s[0] == '0' {
        let mid = num3(s, 1);
        if is_mid(mid) {
            Ok((s, MmsiType::GroupOfShips, spec_country_from_mid(mid as u16)))
        } else {
            Err(mid_message(mid, ") for group"@))
        }
    } else if s[0] == '1' && s[1] == '1' && s[2] == '1' {
        let mid = num3(s, 3);
        if is_mid(mid) {
            Ok((s, MmsiType::SarAircraft, spec_country_from_mid(mid as u16)))
        } else {
            Err(mid_message(mid, ") for SAR aircraft"@))
        }
    } else if s[0] == '9' && s[1] == '9' {
        let mid = num3(s, 2);
        if spec_country_from_mid(mid as u16).0 == "Unknown"@ {
            Err(mid_message(mid, ") for AtoN"@))
        } else {
            Ok((s, MmsiType::AisAton, spec_country_from_mid(mid as u16)))
        }
    } else if 970 <= prefix3 < 980 {
        Ok((s, MmsiType::AisSartMobEpirb, unknown_country()))
    } else if is_mid(prefix3) {
        Ok((s, MmsiType::StandardShipStation, spec_country_from_mid(prefix3 as u16)))
    } else {
        Err("Invalid or unrecognized MMSI (prefix = "@ + dec_chars(prefix3) + ")"@)
    }
}

pub(crate) fn dec_vec(n: u64) -> (r: Vec<char>)
    ensures
        r@ == dec_chars(n as nat),
        1 <= r@.len(),
        forall|i: int| 0 <= i < r@.len() ==> '0' <= #[trigger] r@[i] <= '9',
    decreases n,
{
    if n < 10 {
        let mut v = Vec::new();
        v.push(((n + 48) as u8) as char);
        v
    } else {
        let mut v = dec_vec(n / 10);
        v.push(((n % 10 + 48) as u8) as char);
        v
    }
}

fn append_chars(s: &mut String, cs: &[char])
    ensures
        final(s)@ == old(s)@ + cs@,
{
    let t = string_from_chars(cs);
    s.append(t.as_str());
}

fn mid_error(mid: u16, kind: &str) -> (r: String)
    ensures
        r@ == mid_message(mid as nat, kind@),
{
    let mut s = String::from_str("Invalid MID (");
    let d = dec_vec(mid as u64);
    append_chars(&mut s, d.as_slice());
    s.append(kind);
    s
}

impl MmsiInfo {
    pub fn new(mmsi: String, mmsi_type: MmsiType, country: Country) -> (r: Self)
        ensures
            r.mmsi == mmsi,
            r.mmsi_type == mmsi_type,
            r.country == country,
    {
        Self { mmsi, mmsi_type, country }
    }

    /// Validate and interpret an MMSI.
    /// Identifies the station that sent `msg`.
    pub fn from_message(msg: &Message) -> (r: Result<Self, String>)
        ensures
            match r {
                Ok(info) => spec_from_mmsi(msg.source_mmsi() as nat) == Ok::<MmsiView, Seq<char>>(
                    info@,
                ),
                Err(e) => spec_from_mmsi(msg.source_mmsi() as nat) == Err::<MmsiView, Seq<char>>(
                    e@,
                ),
            },
    {
        Self::from_mmsi(msg.mmsi())
    }

    pub fn from_mmsi(mmsi_num: u32) -> (r: Result<Self, String>)
        ensures
            match r {
                Ok(info) => spec_from_mmsi(mmsi_num as nat) == Ok::<MmsiView, Seq<char>>(info@),
                Err(e) => spec_from_mmsi(mmsi_num as nat) == Err::<MmsiView, Seq<char>>(e@),
            },
    {
        let d = dec_vec(mmsi_num as u64);
        let mut s: Vec<char> = Vec::new();
        if d.len() < 9 {
            let pad = 9 - d.len();
            let mut i: usize = 0;
            while i < pad
                invariant
                    i <= pad,
                    s@ == Seq::new(i as nat, |k: int| '0'),
                decreases pad - i,
            {
                s.push('0');
                i = i + 1;
                assert(s@ =~= Seq::new(i as nat, |k: int| '0'));
            }
        }
        let mut j: usize = 0;
        let ghost pre = s@;
        while j < d.len()
            invariant
                j <= d@.len(),
                s@ == pre + d@.take(j as int),
            decreases d@.len() - j,
        {
            s.push(d[j]);
            j = j + 1;
            assert(s@ =~= pre + d@.take(j as int));
        }
        assert(d@.take(d@.len() as int) =~= d@);
        assert(s@ == padded9(mmsi_num as nat));
        assert(s@.len() >= 9);
        assert(forall|i: int| 0 <= i < s@.len() ==> '0' <= #[trigger] s@[i] <= '9') by {
            assert forall|i: int| 0 <= i < s@.len() implies '0' <= #[trigger] s@[i] <= '9' by {
                if i >= pre.len() {
                    assert(s@[i] == d@[i - pre.len()]);
                }
            }
        }
        let v0 = (s[0] as u32 - 48) as u16;
        let v1 = (s[1] as u32 - 48) as u16;
        let v2 = (s[2] as u32 - 48) as u16;
        let v3 = (s[3] as u32 - 48) as u16;
        let v4 = (s[4] as u32 - 48) as u16;
        let v5 = (s[5] as u32 - 48) as u16;
        let prefix3 = v0 * 100 + v1 * 10 + v2;
        let mmsi_str = string_from_chars(s.as_slice());
        if s[0] == '0' && s[1] == '0' {
            let mid = v2 * 100 + v3 * 10 + v4;
            if 200 <= mid && mid < 800 {
                return Ok(MmsiInfo::new(mmsi_str, MmsiType::CoastStation, country_from_mid(mid)));
            } else {
                return Err(mid_error(mid, ") for coast station"));
            }
        }
        if s[0] == '0' {
            let mid = v1 * 100 + v2 * 10 + v3;
            if 200 <= mid && mid < 800 {
                return Ok(MmsiInfo::new(mmsi_str, MmsiType::GroupOfShips, country_from_mid(mid)));
            } else {
                return Err(mid_error(mid, ") for group"));
            }
        }
        if s[0] == '1' && s[1] == '1' && s[2] == '1' {
            let mid = v3 * 100 + v4 * 10 + v5;
            if 200 <= mid && mid < 800 {
                return Ok(MmsiInfo::new(mmsi_str, MmsiType::SarAircraft, country_from_mid(mid)));
            } else {
                return Err(mid_error(mid, ") for SAR aircraft"));
            }
        }
        if s[0] == '9' && s[1] == '9' {
            let mid = v2 * 100 + v3 * 10 + v4;
            let country = country_from_mid(mid);
            if country.country == String::from_str("Unknown") {
                return Err(mid_error(mid, ") for AtoN"));
            }
            return Ok(MmsiInfo::new(mmsi_str, MmsiType::AisAton, country));
        }
        if 970 <= prefix3 && prefix3 < 980 {
            return Ok(MmsiInfo::new(mmsi_str, MmsiType::AisSartMobEpirb, Country::default()));
        }
        if 200 <= prefix3 && prefix3 < 800 {
            return Ok(
                MmsiInfo::new(mmsi_str, MmsiType::StandardShipStation, country_from_mid(prefix3)),
            );
        }
        let mut e = String::from_str("Invalid or unrecognized MMSI (prefix = ");
        let pd = dec_vec(prefix3 as u64);
        append_chars(&mut e, pd.as_slice());
        e.append(")");
        Err(e)
    }
}

} // verus!
