//! Parsing and name lookup over the country tables.
//!
//! `spec_parse` and `spec_from_name` are the specification-level lookup
//! tables; the executable routines mirror them and the lemmas of the
//! `laws` module characterize them against the per-value accessors.

use vstd::prelude::*;
use vstd::string::StrSliceExecFns;

use crate::country::{Country, spec_alpha2, spec_name};
use crate::inverse::{lemma_from_name_complete, lemma_from_name_sound, lemma_parse_complete, lemma_parse_sound};
use crate::text::str_eq;

verus! {

/// Error returned when a string is not a known alpha-2 country code;
/// carries the offending input.
#[derive(Debug, PartialEq, Eq)]
pub enum CountryParseError {
    InvalidCountryCode(String),
}

impl CountryParseError {
    /// A short static description of the error kind.
    pub fn description(&self) -> (r: &'static str)
        ensures
            r@ == "error parsing country code"@,
    {
        "error parsing country code"
    }
}

/// The lookup table from alpha-2 codes to countries, as a specification:
/// the empty string maps to the sentinel, every dataset code maps to its
/// country, and every other string maps to nothing.
pub open spec fn spec_parse(s: Seq<char>) -> Option<Country> {
    if s.len() == 0 {
        Some(Country::Unspecified)
    } else if s.len() != 2 {
        None
    } else if s[0] == 'A' {
        if s[1] == 'D' {
            Some(Country::AD)
        } else if s[1] == 'E' {
            Some(Country::AE)
        } else if s[1] == 'F' {
            Some(Country::AF)
        } else if s[1] == 'G' {
            Some(Country::AG)
        } else if s[1] == 'I' {
            Some(Country::AI)
        } else if s[1] == 'L' {
            Some(Country::AL)
        } else if s[1] == 'M' {
            Some(Country::AM)
        } else if s[1] == 'O' {
            Some(Country::AO)
        } else if s[1] == 'Q' {
            Some(Country::AQ)
        } else if s[1] == 'R' {
            Some(Country::AR)
        } else if s[1] == 'S' {
            Some(Country::AS)
        } else if s[1] == 'T' {
            Some(Country::AT)
        } else if s[1] == 'U' {
            Some(Country::AU)
        } else if s[1] == 'W' {
            Some(Country::AW)
        } else if s[1] == 'X' {
            Some(Country::AX)
        } else if s[1] == 'Z' {
            Some(Country::AZ)
        } else {
            None
        }
    } else if s[0] == 'B' {
        if s[1] == 'A' {
            Some(Country::BA)
        } else if s[1] == 'B' {
            Some(Country::BB)
        } else if s[1] == 'D' {
            Some(Country::BD)
        } else if s[1] == 'E' {
            Some(Country::BE)
        } else if s[1] == 'F' {
            Some(Country::BF)
        } else if s[1] == 'G' {
            Some(Country::BG)
        } else if s[1] == 'H' {
            Some(Country::BH)
        } else if s[1] == 'I' {
            Some(Country::BI)
        } else if s[1] == 'J' {
            Some(Country::BJ)
        } else if s[1] == 'L' {
            Some(Country::BL)
        } else if s[1] == 'M' {
            Some(Country::BM)
        } else if s[1] == 'N' {
            Some(Country::BN)
        } else if s[1] == 'O' {
            Some(Country::BO)
        } else if s[1] == 'Q' {
            Some(Country::BQ)
        } else if s[1] == 'R' {
            Some(Country::BR)
        } else if s[1] == 'S' {
            Some(Country::BS)
        } else if s[1] == 'T' {
            Some(Country::BT)
        } else if s[1] == 'V' {
            Some(Country::BV)
        } else if s[1] == 'W' {
            Some(Country::BW)
        } else if s[1] == 'Y' {
            Some(Country::BY)
        } else if s[1] == 'Z' {
            Some(Country::BZ)
        } else {
            None
        }
    } else if s[0] == 'C' {
        if s[1] == 'A' {
            Some(Country::CA)
        } else if s[1] == 'C' {
            Some(Country::CC)
        } else if s[1] == 'D' {
            Some(Country::CD)
        } else if s[1] == 'F' {
            Some(Country::CF)
        } else if s[1] == 'G' {
            Some(Country::CG)
        } else if s[1] == 'H' {
            Some(Country::CH)
        } else if s[1] == 'I' {
            Some(Country::CI)
        } else if s[1] == 'K' {
            Some(Country::CK)
        } else if s[1] == 'L' {
            Some(Country::CL)
        } else if s[1] == 'M' {
            Some(Country::CM)
        } else if s[1] == 'N' {
            Some(Country::CN)
        } else if s[1] == 'O' {
            Some(Country::CO)
        } else if s[1] == 'R' {
            Some(Country::CR)
        } else if s[1] == 'U' {
            Some(Country::CU)
        } else if s[1] == 'V' {
            Some(Country::CV)
        } else if s[1] == 'W' {
            Some(Country::CW)
        } else if s[1] == 'X' {
            Some(Country::CX)
        } else if s[1] == 'Y' {
            Some(Country::CY)
        } else if s[1] == 'Z' {
            Some(Country::CZ)
        } else {
            None
        }
    } else if s[0] == 'D' {
        if s[1] == 'E' {
            Some(Country::DE)
        } else if s[1] == 'J' {
            Some(Country::DJ)
        } else if s[1] == 'K' {
            Some(Country::DK)
        } else if s[1] == 'M' {
            Some(Country::DM)
        } else if s[1] == 'O' {
            Some(Country::DO)
        } else if s[1] == 'Z' {
            Some(Country::DZ)
        } else {
            None
        }
    } else if s[0] == 'E' {
        if s[1] == 'C' {
            Some(Country::EC)
        } else if s[1] == 'E' {
            Some(Country::EE)
        } else if s[1] == 'G' {
            Some(Country::EG)
        } else if s[1] == 'H' {
            Some(Country::EH)
        } else if s[1] == 'R' {
            Some(Country::ER)
        } else if s[1] == 'S' {
            Some(Country::ES)
        } else if s[1] == 'T' {
            Some(Country::ET)
        } else {
            None
        }
    } else if s[0] == 'F' {
        if s[1] == 'I' {
            Some(Country::FI)
        } else if s[1] == 'J' {
            Some(Country::FJ)
        } else if s[1] == 'K' {
            Some(Country::FK)
        } else if s[1] == 'M' {
            Some(Country::FM)
        } else if s[1] == 'O' {
            Some(Country::FO)
        } else if s[1] == 'R' {
            Some(Country::FR)
        } else {
            None
        }
    } else if s[0] == 'G' {
        if s[1] == 'A' {
            Some(Country::GA)
        } else if s[1] == 'B' {
            Some(Country::GB)
        } else if s[1] == 'D' {
            Some(Country::GD)
        } else if s[1] == 'E' {
            Some(Country::GE)
        } else if s[1] == 'F' {
            Some(Country::GF)
        } else if s[1] == 'G' {
            Some(Country::GG)
        } else if s[1] == 'H' {
            Some(Country::GH)
        } else if s[1] == 'I' {
            Some(Country::GI)
        } else if s[1] == 'L' {
            Some(Country::GL)
        } else if s[1] == 'M' {
            Some(Country::GM)
        } else if s[1] == 'N' {
            Some(Country::GN)
        } else if s[1] == 'P' {
            Some(Country::GP)
        } else if s[1] == 'Q' {
            Some(Country::GQ)
        } else if s[1] == 'R' {
            Some(Country::GR)
        } else if s[1] == 'S' {
            Some(Country::GS)
        } else if s[1] == 'T' {
            Some(Country::GT)
        } else if s[1] == 'U' {
            Some(Country::GU)
        } else if s[1] == 'W' {
            Some(Country::GW)
        } else if s[1] == 'Y' {
            Some(Country::GY)
        } else {
            None
        }
    } else if s[0] == 'H' {
        if s[1] == 'K' {
            Some(Country::HK)
        } else if s[1] == 'M' {
            Some(Country::HM)
        } else if s[1] == 'N' {
            Some(Country::HN)
        } else if s[1] == 'R' {
            Some(Country::HR)
        } else if s[1] == 'T' {
            Some(Country::HT)
        } else if s[1] == 'U' {
            Some(Country::HU)
        } else {
            None
        }
    } else if s[0] == 'I' {
        if s[1] == 'D' {
            Some(Country::ID)
        } else if s[1] == 'E' {
            Some(Country::IE)
        } else if s[1] == 'L' {
            Some(Country::IL)
        } else if s[1] == 'M' {
            Some(Country::IM)
        } else if s[1] == 'N' {
            Some(Country::IN)
        } else if s[1] == 'O' {
            Some(Country::IO)
        } else if s[1] == 'Q' {
            Some(Country::IQ)
        } else if s[1] == 'R' {
            Some(Country::IR)
        } else if s[1] == 'S' {
            Some(Country::IS)
        } else if s[1] == 'T' {
            Some(Country::IT)
        } else {
            None
        }
    } else if s[0] == 'J' {
        if s[1] == 'E' {
            Some(Country::JE)
        } else if s[1] == 'M' {
            Some(Country::JM)
        } else if s[1] == 'O' {
            Some(Country::JO)
        } else if s[1] == 'P' {
            Some(Country::JP)
        } else {
            None
        }
    } else if s[0] == 'K' {
        if s[1] == 'E' {
            Some(Country::KE)
        } else if s[1] == 'G' {
            Some(Country::KG)
        } else if s[1] == 'H' {
            Some(Country::KH)
        } else if s[1] == 'I' {
            Some(Country::KI)
        } else if s[1] == 'M' {
            Some(Country::KM)
        } else if s[1] == 'N' {
            Some(Country::KN)
        } else if s[1] == 'P' {
            Some(Country::KP)
        } else if s[1] == 'R' {
            Some(Country::KR)
        } else if s[1] == 'W' {
            Some(Country::KW)
        } else if s[1] == 'Y' {
            Some(Country::KY)
        } else if s[1] == 'Z' {
            Some(Country::KZ)
        } else {
            None
        }
    } else if s[0] == 'L' {
        if s[1] == 'A' {
            Some(Country::LA)
        } else if s[1] == 'B' {
            Some(Country::LB)
        } else if s[1] == 'C' {
            Some(Country::LC)
        } else if s[1] == 'I' {
            Some(Country::LI)
        } else if s[1] == 'K' {
            Some(Country::LK)
        } else if s[1] == 'R' {
            Some(Country::LR)
        } else if s[1] == 'S' {
            Some(Country::LS)
        } else if s[1] == 'T' {
            Some(Country::LT)
        } else if s[1] == 'U' {
            Some(Country::LU)
        } else if s[1] == 'V' {
            Some(Country::LV)
        } else if s[1] == 'Y' {
            Some(Country::LY)
        } else {
            None
        }
    } else if s[0] == 'M' {
        if s[1] == 'A' {
            Some(Country::MA)
        } else if s[1] == 'C' {
            Some(Country::MC)
        } else if s[1] == 'D' {
            Some(Country::MD)
        } else if s[1] == 'E' {
            Some(Country::ME)
        } else if s[1] == 'F' {
            Some(Country::MF)
        } else if s[1] == 'G' {
            Some(Country::MG)
        } else if s[1] == 'H' {
            Some(Country::MH)
        } else if s[1] == 'K' {
            Some(Country::MK)
        } else if s[1] == 'L' {
            Some(Country::ML)
        } else if s[1] == 'M' {
            Some(Country::MM)
        } else if s[1] == 'N' {
            Some(Country::MN)
        } else if s[1] == 'O' {
            Some(Country::MO)
        } else if s[1] == 'P' {
            Some(Country::MP)
        } else if s[1] == 'Q' {
            Some(Country::MQ)
        } else if s[1] == 'R' {
            Some(Country::MR)
        } else if s[1] == 'S' {
            Some(Country::MS)
        } else if s[1] == 'T' {
            Some(Country::MT)
        } else if s[1] == 'U' {
            Some(Country::MU)
        } else if s[1] == 'V' {
            Some(Country::MV)
        } else if s[1] == 'W' {
            Some(Country::MW)
        } else if s[1] == 'X' {
            Some(Country::MX)
        } else if s[1] == 'Y' {
            Some(Country::MY)
        } else if s[1] == 'Z' {
            Some(Country::MZ)
        } else {
            None
        }
    } else if s[0] == 'N' {
        if s[1] == 'A' {
            Some(Country::NA)
        } else if s[1] == 'C' {
            Some(Country::NC)
        } else if s[1] == 'E' {
            Some(Country::NE)
        } else if s[1] == 'F' {
            Some(Country::NF)
        } else if s[1] == 'G' {
            Some(Country::NG)
        } else if s[1] == 'I' {
            Some(Country::NI)
        } else if s[1] == 'L' {
            Some(Country::NL)
        } else if s[1] == 'O' {
            Some(Country::NO)
        } else if s[1] == 'P' {
            Some(Country::NP)
        } else if s[1] == 'R' {
            Some(Country::NR)
        } else if s[1] == 'U' {
            Some(Country::NU)
        } else if s[1] == 'Z' {
            Some(Country::NZ)
        } else {
            None
        }
    } else if s[0] == 'O' {
        if s[1] == 'M' {
            Some(Country::OM)
        } else {
            None
        }
    } else if s[0] == 'P' {
        if s[1] == 'A' {
            Some(Country::PA)
        } else if s[1] == 'E' {
            Some(Country::PE)
        } else if s[1] == 'F' {
            Some(Country::PF)
        } else if s[1] == 'G' {
            Some(Country::PG)
        } else if s[1] == 'H' {
            Some(Country::PH)
        } else if s[1] == 'K' {
            Some(Country::PK)
        } else if s[1] == 'L' {
            Some(Country::PL)
        } else if s[1] == 'M' {
            Some(Country::PM)
        } else if s[1] == 'N' {
            Some(Country::PN)
        } else if s[1] == 'R' {
            Some(Country::PR)
        } else if s[1] == 'S' {
            Some(Country::PS)
        } else if s[1] == 'T' {
            Some(Country::PT)
        } else if s[1] == 'W' {
            Some(Country::PW)
        } else if s[1] == 'Y' {
            Some(Country::PY)
        } else {
            None
        }
    } else if s[0] == 'Q' {
        if s[1] == 'A' {
            Some(Country::QA)
        } else {
            None
        }
    } else if s[0] == 'R' {
        if s[1] == 'E' {
            Some(Country::RE)
        } else if s[1] == 'O' {
            Some(Country::RO)
        } else if s[1] == 'S' {
            Some(Country::RS)
        } else if s[1] == 'U' {
            Some(Country::RU)
        } else if s[1] == 'W' {
            Some(Country::RW)
        } else {
            None
        }
    } else if s[0] == 'S' {
        if s[1] == 'A' {
            Some(Country::SA)
        } else if s[1] == 'B' {
            Some(Country::SB)
        } else if s[1] == 'C' {
            Some(Country::SC)
        } else if s[1] == 'D' {
            Some(Country::SD)
        } else if s[1] == 'E' {
            Some(Country::SE)
        } else if s[1] == 'G' {
            Some(Country::SG)
        } else if s[1] == 'H' {
            Some(Country::SH)
        } else if s[1] == 'I' {
            Some(Country::SI)
        } else if s[1] == 'J' {
            Some(Country::SJ)
        } else if s[1] == 'K' {
            Some(Country::SK)
        } else if s[1] == 'L' {
            Some(Country::SL)
        } else if s[1] == 'M' {
            Some(Country::SM)
        } else if s[1] == 'N' {
            Some(Country::SN)
        } else if s[1] == 'O' {
            Some(Country::SO)
        } else if s[1] == 'R' {
            Some(Country::SR)
        } else if s[1] == 'S' {
            Some(Country::SS)
        } else if s[1] == 'T' {
            Some(Country::ST)
        } else if s[1] == 'V' {
            Some(Country::SV)
        } else if s[1] == 'X' {
            Some(Country::SX)
        } else if s[1] == 'Y' {
            Some(Country::SY)
        } else if s[1] == 'Z' {
            Some(Country::SZ)
        } else {
            None
        }
    } else if s[0] == 'T' {
        if s[1] == 'C' {
            Some(Country::TC)
        } else if s[1] == 'D' {
            Some(Country::TD)
        } else if s[1] == 'F' {
            Some(Country::TF)
        } else if s[1] == 'G' {
            Some(Country::TG)
        } else if s[1] == 'H' {
            Some(Country::TH)
        } else if s[1] == 'J' {
            Some(Country::TJ)
        } else if s[1] == 'K' {
            Some(Country::TK)
        } else if s[1] == 'L' {
            Some(Country::TL)
        } else if s[1] == 'M' {
            Some(Country::TM)
        } else if s[1] == 'N' {
            Some(Country::TN)
        } else if s[1] == 'O' {
            Some(Country::TO)
        } else if s[1] == 'R' {
            Some(Country::TR)
        } else if s[1] == 'T' {
            Some(Country::TT)
        } else if s[1] == 'V' {
            Some(Country::TV)
        } else if s[1] == 'W' {
            Some(Country::TW)
        } else if s[1] == 'Z' {
            Some(Country::TZ)
        } else {
            None
        }
    } else if s[0] == 'U' {
        if s[1] == 'A' {
            Some(Country::UA)
        } else if s[1] == 'G' {
            Some(Country::UG)
        } else if s[1] == 'M' {
            Some(Country::UM)
        } else if s[1] == 'S' {
            Some(Country::US)
        } else if s[1] == 'Y' {
            Some(Country::UY)
        } else if s[1] == 'Z' {
            Some(Country::UZ)
        } else {
            None
        }
    } else if s[0] == 'V' {
        if s[1] == 'A' {
            Some(Country::VA)
        } else if s[1] == 'C' {
            Some(Country::VC)
        } else if s[1] == 'E' {
            Some(Country::VE)
        } else if s[1] == 'G' {
            Some(Country::VG)
        } else if s[1] == 'I' {
            Some(Country::VI)
        } else if s[1] == 'N' {
            Some(Country::VN)
        } else if s[1] == 'U' {
            Some(Country::VU)
        } else {
            None
        }
    } else if s[0] == 'W' {
        if s[1] == 'F' {
            Some(Country::WF)
        } else if s[1] == 'S' {
            Some(Country::WS)
        } else {
            None
        }
    } else if s[0] == 'Y' {
        if s[1] == 'E' {
            Some(Country::YE)
        } else if s[1] == 'T' {
            Some(Country::YT)
        } else {
            None
        }
    } else if s[0] == 'Z' {
        if s[1] == 'A' {
            Some(Country::ZA)
        } else if s[1] == 'M' {
            Some(Country::ZM)
        } else if s[1] == 'W' {
            Some(Country::ZW)
        } else {
            None
        }
    } else {
        None
    }
}

/// The lookup table from English short names to countries, as a
/// specification: every dataset name maps to its country and every other
/// string (the empty name of the sentinel included) maps to nothing.
pub open spec fn spec_from_name(s: Seq<char>) -> Option<Country> {
    if s.len() == 0 {
        None
    } else if s[0] == 'A' {
        if s == "Afghanistan"@ {
            Some(Country::AF)
        } else if s == "Albania"@ {
            Some(Country::AL)
        } else if s == "Algeria"@ {
            Some(Country::DZ)
        } else if s == "American Samoa"@ {
            Some(Country::AS)
        } else if s == "Andorra"@ {
            Some(Country::AD)
        } else if s == "Angola"@ {
            Some(Country::AO)
        } else if s == "Anguilla"@ {
            Some(Country::AI)
        } else if s == "Antarctica"@ {
            Some(Country::AQ)
        } else if s == "Antigua and Barbuda"@ {
            Some(Country::AG)
        } else if s == "Argentina"@ {
            Some(Country::AR)
        } else if s == "Armenia"@ {
            Some(Country::AM)
        } else if s == "Aruba"@ {
            Some(Country::AW)
        } else if s == "Australia"@ {
            Some(Country::AU)
        } else if s == "Austria"@ {
            Some(Country::AT)
        } else if s == "Azerbaijan"@ {
            Some(Country::AZ)
        } else {
            None
        }
    } else if s[0] == 'B' {
        if s == "Bahamas"@ {
            Some(Country::BS)
        } else if s == "Bahrain"@ {
            Some(Country::BH)
        } else if s == "Bangladesh"@ {
            Some(Country::BD)
        } else if s == "Barbados"@ {
            Some(Country::BB)
        } else if s == "Belarus"@ {
            Some(Country::BY)
        } else if s == "Belgium"@ {
            Some(Country::BE)
        } else if s == "Belize"@ {
            Some(Country::BZ)
        } else if s == "Benin"@ {
            Some(Country::BJ)
        } else if s == "Bermuda"@ {
            Some(Country::BM)
        } else if s == "Bhutan"@ {
            Some(Country::BT)
        } else if s == "Bolivia (Plurinational State of)"@ {
            Some(Country::BO)
        } else if s == "Bonaire, Sint Eustatius and Saba"@ {
            Some(Country::BQ)
        } else if s == "Bosnia and Herzegovina"@ {
            Some(Country::BA)
        } else if s == "Botswana"@ {
            Some(Country::BW)
        } else if s == "Bouvet Island"@ {
            Some(Country::BV)
        } else if s == "Brazil"@ {
            Some(Country::BR)
        } else if s == "British Indian Ocean Territory"@ {
            Some(Country::IO)
        } else if s == "Brunei Darussalam"@ {
            Some(Country::BN)
        } else if s == "Bulgaria"@ {
            Some(Country::BG)
        } else if s == "Burkina Faso"@ {
            Some(Country::BF)
        } else if s == "Burundi"@ {
            Some(Country::BI)
        } else {
            None
        }
    } else if s[0] == 'C' {
        if s == "Cabo Verde"@ {
            Some(Country::CV)
        } else if s == "Cambodia"@ {
            Some(Country::KH)
        } else if s == "Cameroon"@ {
            Some(Country::CM)
        } else if s == "Canada"@ {
            Some(Country::CA)
        } else if s == "Cayman Islands"@ {
            Some(Country::KY)
        } else if s == "Central African Republic"@ {
            Some(Country::CF)
        } else if s == "Chad"@ {
            Some(Country::TD)
        } else if s == "Chile"@ {
            Some(Country::CL)
        } else if s == "China"@ {
            Some(Country::CN)
        } else if s == "Christmas Island"@ {
            Some(Country::CX)
        } else if s == "Cocos (Keeling) Islands"@ {
            Some(Country::CC)
        } else if s == "Colombia"@ {
            Some(Country::CO)
        } else if s == "Comoros"@ {
            Some(Country::KM)
        } else if s == "Congo"@ {
            Some(Country::CG)
        } else if s == "Congo (Democratic Republic of the)"@ {
            Some(Country::CD)
        } else if s == "Cook Islands"@ {
            Some(Country::CK)
        } else if s == "Costa Rica"@ {
            Some(Country::CR)
        } else if s == "Croatia"@ {
            Some(Country::HR)
        } else if s == "Cuba"@ {
            Some(Country::CU)
        } else if s == "Curaçao"@ {
            Some(Country::CW)
        } else if s == "Cyprus"@ {
            Some(Country::CY)
        } else if s == "Czech Republic"@ {
            Some(Country::CZ)
        } else if s == "Côte d'Ivoire"@ {
            Some(Country::CI)
        } else {
            None
        }
    } else if s[0] == 'D' {
        if s == "Denmark"@ {
            Some(Country::DK)
        } else if s == "Djibouti"@ {
            Some(Country::DJ)
        } else if s == "Dominica"@ {
            Some(Country::DM)
        } else if s == "Dominican Republic"@ {
            Some(Country::DO)
        } else {
            None
        }
    } else if s[0] == 'E' {
        if s == "Ecuador"@ {
            Some(Country::EC)
        } else if s == "Egypt"@ {
            Some(Country::EG)
        } else if s == "El Salvador"@ {
            Some(Country::SV)
        } else if s == "Equatorial Guinea"@ {
            Some(Country::GQ)
        } else if s == "Eritrea"@ {
            Some(Country::ER)
        } else if s == "Estonia"@ {
            Some(Country::EE)
        } else if s == "Ethiopia"@ {
            Some(Country::ET)
        } else {
            None
        }
    } else if s[0] == 'F' {
        if s == "Falkland Islands"@ {
            Some(Country::FK)
        } else if s == "Faroe Islands"@ {
            Some(Country::FO)
        } else if s == "Fiji"@ {
            Some(Country::FJ)
        } else if s == "Finland"@ {
            Some(Country::FI)
        } else if s == "France"@ {
            Some(Country::FR)
        } else if s == "French Guiana"@ {
            Some(Country::GF)
        } else if s == "French Polynesia"@ {
            Some(Country::PF)
        } else if s == "French Southern Territories"@ {
            Some(Country::TF)
        } else {
            None
        }
    } else if s[0] == 'G' {
        if s == "Gabon"@ {
            Some(Country::GA)
        } else if s == "Gambia"@ {
            Some(Country::GM)
        } else if s == "Georgia"@ {
            Some(Country::GE)
        } else if s == "Germany"@ {
            Some(Country::DE)
        } else if s == "Ghana"@ {
            Some(Country::GH)
        } else if s == "Gibraltar"@ {
            Some(Country::GI)
        } else if s == "Greece"@ {
            Some(Country::GR)
        } else if s == "Greenland"@ {
            Some(Country::GL)
        } else if s == "Grenada"@ {
            Some(Country::GD)
        } else if s == "Guadeloupe"@ {
            Some(Country::GP)
        } else if s == "Guam"@ {
            Some(Country::GU)
        } else if s == "Guatemala"@ {
            Some(Country::GT)
        } else if s == "Guernsey"@ {
            Some(Country::GG)
        } else if s == "Guinea"@ {
            Some(Country::GN)
        } else if s == "Guinea-Bissau"@ {
            Some(Country::GW)
        } else if s == "Guyana"@ {
            Some(Country::GY)
        } else {
            None
        }
    } else if s[0] == 'H' {
        if s == "Haiti"@ {
            Some(Country::HT)
        } else if s == "Heard Island and McDonald Islands"@ {
            Some(Country::HM)
        } else if s == "Holy See"@ {
            Some(Country::VA)
        } else if s == "Honduras"@ {
            Some(Country::HN)
        } else if s == "Hong Kong"@ {
            Some(Country::HK)
        } else if s == "Hungary"@ {
            Some(Country::HU)
        } else {
            None
        }
    } else if s[0] == 'I' {
        if s == "Iceland"@ {
            Some(Country::IS)
        } else if s == "India"@ {
            Some(Country::IN)
        } else if s == "Indonesia"@ {
            Some(Country::ID)
        } else if s == "Iran (Islamic Republic of)"@ {
            Some(Country::IR)
        } else if s == "Iraq"@ {
            Some(Country::IQ)
        } else if s == "Ireland"@ {
            Some(Country::IE)
        } else if s == "Isle of Man"@ {
            Some(Country::IM)
        } else if s == "Israel"@ {
            Some(Country::IL)
        } else if s == "Italy"@ {
            Some(Country::IT)
        } else {
            None
        }
    } else if s[0] == 'J' {
        if s == "Jamaica"@ {
            Some(Country::JM)
        } else if s == "Japan"@ {
            Some(Country::JP)
        } else if s == "Jersey"@ {
            Some(Country::JE)
        } else if s == "Jordan"@ {
            Some(Country::JO)
        } else {
            None
        }
    } else if s[0] == 'K' {
        if s == "Kazakhstan"@ {
            Some(Country::KZ)
        } else if s == "Kenya"@ {
            Some(Country::KE)
        } else if s == "Kiribati"@ {
            Some(Country::KI)
        } else if s == "Korea (Democratic People's Republic of)"@ {
            Some(Country::KP)
        } else if s == "Korea (Republic of)"@ {
            Some(Country::KR)
        } else if s == "Kuwait"@ {
            Some(Country::KW)
        } else if s == "Kyrgyzstan"@ {
            Some(Country::KG)
        } else {
            None
        }
    } else if s[0] == 'L' {
        if s == "Lao People's Democratic Republic"@ {
            Some(Country::LA)
        } else if s == "Latvia"@ {
            Some(Country::LV)
        } else if s == "Lebanon"@ {
            Some(Country::LB)
        } else if s == "Lesotho"@ {
            Some(Country::LS)
        } else if s == "Liberia"@ {
            Some(Country::LR)
        } else if s == "Libya"@ {
            Some(Country::LY)
        } else if s == "Liechtenstein"@ {
            Some(Country::LI)
        } else if s == "Lithuania"@ {
            Some(Country::LT)
        } else if s == "Luxembourg"@ {
            Some(Country::LU)
        } else {
            None
        }
    } else if s[0] == 'M' {
        if s == "Macao"@ {
            Some(Country::MO)
        } else if s == "Macedonia (the former Yugoslav Republic of)"@ {
            Some(Country::MK)
        } else if s == "Madagascar"@ {
            Some(Country::MG)
        } else if s == "Malawi"@ {
            Some(Country::MW)
        } else if s == "Malaysia"@ {
            Some(Country::MY)
        } else if s == "Maldives"@ {
            Some(Country::MV)
        } else if s == "Mali"@ {
            Some(Country::ML)
        } else if s == "Malta"@ {
            Some(Country::MT)
        } else if s == "Marshall Islands"@ {
            Some(Country::MH)
        } else if s == "Martinique"@ {
            Some(Country::MQ)
        } else if s == "Mauritania"@ {
            Some(Country::MR)
        } else if s == "Mauritius"@ {
            Some(Country::MU)
        } else if s == "Mayotte"@ {
            Some(Country::YT)
        } else if s == "Mexico"@ {
            Some(Country::MX)
        } else if s == "Micronesia (Federated States of)"@ {
            Some(Country::FM)
        } else if s == "Moldova (Republic of)"@ {
            Some(Country::MD)
        } else if s == "Monaco"@ {
            Some(Country::MC)
        } else if s == "Mongolia"@ {
            Some(Country::MN)
        } else if s == "Montenegro"@ {
            Some(Country::ME)
        } else if s == "Montserrat"@ {
            Some(Country::MS)
        } else if s == "Morocco"@ {
            Some(Country::MA)
        } else if s == "Mozambique"@ {
            Some(Country::MZ)
        } else if s == "Myanmar"@ {
            Some(Country::MM)
        } else {
            None
        }
    } else if s[0] == 'N' {
        if s == "Namibia"@ {
            Some(Country::NA)
        } else if s == "Nauru"@ {
            Some(Country::NR)
        } else if s == "Nepal"@ {
            Some(Country::NP)
        } else if s == "Netherlands"@ {
            Some(Country::NL)
        } else if s == "New Caledonia"@ {
            Some(Country::NC)
        } else if s == "New Zealand"@ {
            Some(Country::NZ)
        } else if s == "Nicaragua"@ {
            Some(Country::NI)
        } else if s == "Niger"@ {
            Some(Country::NE)
        } else if s == "Nigeria"@ {
            Some(Country::NG)
        } else if s == "Niue"@ {
            Some(Country::NU)
        } else if s == "Norfolk Island"@ {
            Some(Country::NF)
        } else if s == "Northern Mariana Islands"@ {
            Some(Country::MP)
        } else if s == "Norway"@ {
            Some(Country::NO)
        } else {
            None
        }
    } else if s[0] == 'O' {
        if s == "Oman"@ {
            Some(Country::OM)
        } else {
            None
        }
    } else if s[0] == 'P' {
        if s == "Pakistan"@ {
            Some(Country::PK)
        } else if s == "Palau"@ {
            Some(Country::PW)
        } else if s == "Palestine, State of"@ {
            Some(Country::PS)
        } else if s == "Panama"@ {
            Some(Country::PA)
        } else if s == "Papua New Guinea"@ {
            Some(Country::PG)
        } else if s == "Paraguay"@ {
            Some(Country::PY)
        } else if s == "Peru"@ {
            Some(Country::PE)
        } else if s == "Philippines"@ {
            Some(Country::PH)
        } else if s == "Pitcairn"@ {
            Some(Country::PN)
        } else if s == "Poland"@ {
            Some(Country::PL)
        } else if s == "Portugal"@ {
            Some(Country::PT)
        } else if s == "Puerto Rico"@ {
            Some(Country::PR)
        } else {
            None
        }
    } else if s[0] == 'Q' {
        if s == "Qatar"@ {
            Some(Country::QA)
        } else {
            None
        }
    } else if s[0] == 'R' {
        if s == "Romania"@ {
            Some(Country::RO)
        } else if s == "Russian Federation"@ {
            Some(Country::RU)
        } else if s == "Rwanda"@ {
            Some(Country::RW)
        } else if s == "Réunion"@ {
            Some(Country::RE)
        } else {
            None
        }
    } else if s[0] == 'S' {
        if s == "Saint Barthélemy"@ {
            Some(Country::BL)
        } else if s == "Saint Helena, Ascension and Tristan da Cunha"@ {
            Some(Country::SH)
        } else if s == "Saint Kitts and Nevis"@ {
            Some(Country::KN)
        } else if s == "Saint Lucia"@ {
            Some(Country::LC)
        } else if s == "Saint Martin (French part)"@ {
            Some(Country::MF)
        } else if s == "Saint Pierre and Miquelon"@ {
            Some(Country::PM)
        } else if s == "Saint Vincent and the Grenadines"@ {
            Some(Country::VC)
        } else if s == "Samoa"@ {
            Some(Country::WS)
        } else if s == "San Marino"@ {
            Some(Country::SM)
        } else if s == "Sao Tome and Principe"@ {
            Some(Country::ST)
        } else if s == "Saudi Arabia"@ {
            Some(Country::SA)
        } else if s == "Senegal"@ {
            Some(Country::SN)
        } else if s == "Serbia"@ {
            Some(Country::RS)
        } else if s == "Seychelles"@ {
            Some(Country::SC)
        } else if s == "Sierra Leone"@ {
            Some(Country::SL)
        } else if s == "Singapore"@ {
            Some(Country::SG)
        } else if s == "Sint Maarten (Dutch part)"@ {
            Some(Country::SX)
        } else if s == "Slovakia"@ {
            Some(Country::SK)
        } else if s == "Slovenia"@ {
            Some(Country::SI)
        } else if s == "Solomon Islands"@ {
            Some(Country::SB)
        } else if s == "Somalia"@ {
            Some(Country::SO)
        } else if s == "South Africa"@ {
            Some(Country::ZA)
        } else if s == "South Georgia and the South Sandwich Islands"@ {
            Some(Country::GS)
        } else if s == "South Sudan"@ {
            Some(Country::SS)
        } else if s == "Spain"@ {
            Some(Country::ES)
        } else if s == "Sri Lanka"@ {
            Some(Country::LK)
        } else if s == "Sudan"@ {
            Some(Country::SD)
        } else if s == "Suriname"@ {
            Some(Country::SR)
        } else if s == "Svalbard and Jan Mayen"@ {
            Some(Country::SJ)
        } else if s == "Swaziland"@ {
            Some(Country::SZ)
        } else if s == "Sweden"@ {
            Some(Country::SE)
        } else if s == "Switzerland"@ {
            Some(Country::CH)
        } else if s == "Syrian Arab Republic"@ {
            Some(Country::SY)
        } else {
            None
        }
    } else if s[0] == 'T' {
        if s == "Taiwan, Province of China[a]"@ {
            Some(Country::TW)
        } else if s == "Tajikistan"@ {
            Some(Country::TJ)
        } else if s == "Tanzania, United Republic of"@ {
            Some(Country::TZ)
        } else if s == "Thailand"@ {
            Some(Country::TH)
        } else if s == "Timor-Leste"@ {
            Some(Country::TL)
        } else if s == "Togo"@ {
            Some(Country::TG)
        } else if s == "Tokelau"@ {
            Some(Country::TK)
        } else if s == "Tonga"@ {
            Some(Country::TO)
        } else if s == "Trinidad and Tobago"@ {
            Some(Country::TT)
        } else if s == "Tunisia"@ {
            Some(Country::TN)
        } else if s == "Turkey"@ {
            Some(Country::TR)
        } else if s == "Turkmenistan"@ {
            Some(Country::TM)
        } else if s == "Turks and Caicos Islands"@ {
            Some(Country::TC)
        } else if s == "Tuvalu"@ {
            Some(Country::TV)
        } else {
            None
        }
    } else if s[0] == 'U' {
        if s == "Uganda"@ {
            Some(Country::UG)
        } else if s == "Ukraine"@ {
            Some(Country::UA)
        } else if s == "United Arab Emirates"@ {
            Some(Country::AE)
        } else if s == "United Kingdom of Great Britain and Northern Ireland"@ {
            Some(Country::GB)
        } else if s == "United States Minor Outlying Islands"@ {
            Some(Country::UM)
        } else if s == "United States of America"@ {
            Some(Country::US)
        } else if s == "Uruguay"@ {
            Some(Country::UY)
        } else if s == "Uzbekistan"@ {
            Some(Country::UZ)
        } else {
            None
        }
    } else if s[0] == 'V' {
        if s == "Vanuatu"@ {
            Some(Country::VU)
        } else if s == "Venezuela (Bolivarian Republic of)"@ {
            Some(Country::VE)
        } else if s == "Viet Nam"@ {
            Some(Country::VN)
        } else if s == "Virgin Islands (British)"@ {
            Some(Country::VG)
        } else if s == "Virgin Islands (U.S.)"@ {
            Some(Country::VI)
        } else {
            None
        }
    } else if s[0] == 'W' {
        if s == "Wallis and Futuna"@ {
            Some(Country::WF)
        } else if s == "Western Sahara"@ {
            Some(Country::EH)
        } else {
            None
        }
    } else if s[0] == 'Y' {
        if s == "Yemen"@ {
            Some(Country::YE)
        } else {
            None
        }
    } else if s[0] == 'Z' {
        if s == "Zambia"@ {
            Some(Country::ZM)
        } else if s == "Zimbabwe"@ {
            Some(Country::ZW)
        } else {
            None
        }
    } else if s[0] == 'Å' {
        if s == "Åland Islands"@ {
            Some(Country::AX)
        } else {
            None
        }
    } else {
        None
    }
}

fn lookup_alpha2(s: &str) -> (r: Option<Country>)
    ensures
        r == spec_parse(s@),
{
    let n = s.unicode_len();
    if n == 0 {
        return Some(Country::Unspecified);
    }
    if n != 2 {
        return None;
    }
    let c0 = s.get_char(0);
    let c1 = s.get_char(1);
    if c0 == 'A' {
        if c1 == 'D' {
            Some(Country::AD)
        } else if c1 == 'E' {
            Some(Country::AE)
        } else if c1 == 'F' {
            Some(Country::AF)
        } else if c1 == 'G' {
            Some(Country::AG)
        } else if c1 == 'I' {
            Some(Country::AI)
        } else if c1 == 'L' {
            Some(Country::AL)
        } else if c1 == 'M' {
            Some(Country::AM)
        } else if c1 == 'O' {
            Some(Country::AO)
        } else if c1 == 'Q' {
            Some(Country::AQ)
        } else if c1 == 'R' {
            Some(Country::AR)
        } else if c1 == 'S' {
            Some(Country::AS)
        } else if c1 == 'T' {
            Some(Country::AT)
        } else if c1 == 'U' {
            Some(Country::AU)
        } else if c1 == 'W' {
            Some(Country::AW)
        } else if c1 == 'X' {
            Some(Country::AX)
        } else if c1 == 'Z' {
            Some(Country::AZ)
        } else {
            None
        }
    } else if c0 == 'B' {
        if c1 == 'A' {
            Some(Country::BA)
        } else if c1 == 'B' {
            Some(Country::BB)
        } else if c1 == 'D' {
            Some(Country::BD)
        } else if c1 == 'E' {
            Some(Country::BE)
        } else if c1 == 'F' {
            Some(Country::BF)
        } else if c1 == 'G' {
            Some(Country::BG)
        } else if c1 == 'H' {
            Some(Country::BH)
        } else if c1 == 'I' {
            Some(Country::BI)
        } else if c1 == 'J' {
            Some(Country::BJ)
        } else if c1 == 'L' {
            Some(Country::BL)
        } else if c1 == 'M' {
            Some(Country::BM)
        } else if c1 == 'N' {
            Some(Country::BN)
        } else if c1 == 'O' {
            Some(Country::BO)
        } else if c1 == 'Q' {
            Some(Country::BQ)
        } else if c1 == 'R' {
            Some(Country::BR)
        } else if c1 == 'S' {
            Some(Country::BS)
        } else if c1 == 'T' {
            Some(Country::BT)
        } else if c1 == 'V' {
            Some(Country::BV)
        } else if c1 == 'W' {
            Some(Country::BW)
        } else if c1 == 'Y' {
            Some(Country::BY)
        } else if c1 == 'Z' {
            Some(Country::BZ)
        } else {
            None
        }
    } else if c0 == 'C' {
        if c1 == 'A' {
            Some(Country::CA)
        } else if c1 == 'C' {
            Some(Country::CC)
        } else if c1 == 'D' {
            Some(Country::CD)
        } else if c1 == 'F' {
            Some(Country::CF)
        } else if c1 == 'G' {
            Some(Country::CG)
        } else if c1 == 'H' {
            Some(Country::CH)
        } else if c1 == 'I' {
            Some(Country::CI)
        } else if c1 == 'K' {
            Some(Country::CK)
        } else if c1 == 'L' {
            Some(Country::CL)
        } else if c1 == 'M' {
            Some(Country::CM)
        } else if c1 == 'N' {
            Some(Country::CN)
        } else if c1 == 'O' {
            Some(Country::CO)
        } else if c1 == 'R' {
            Some(Country::CR)
        } else if c1 == 'U' {
            Some(Country::CU)
        } else if c1 == 'V' {
            Some(Country::CV)
        } else if c1 == 'W' {
            Some(Country::CW)
        } else if c1 == 'X' {
            Some(Country::CX)
        } else if c1 == 'Y' {
            Some(Country::CY)
        } else if c1 == 'Z' {
            Some(Country::CZ)
        } else {
            None
        }
    } else if c0 == 'D' {
        if c1 == 'E' {
            Some(Country::DE)
        } else if c1 == 'J' {
            Some(Country::DJ)
        } else if c1 == 'K' {
            Some(Country::DK)
        } else if c1 == 'M' {
            Some(Country::DM)
        } else if c1 == 'O' {
            Some(Country::DO)
        } else if c1 == 'Z' {
            Some(Country::DZ)
        } else {
            None
        }
    } else if c0 == 'E' {
        if c1 == 'C' {
            Some(Country::EC)
        } else if c1 == 'E' {
            Some(Country::EE)
        } else if c1 == 'G' {
            Some(Country::EG)
        } else if c1 == 'H' {
            Some(Country::EH)
        } else if c1 == 'R' {
            Some(Country::ER)
        } else if c1 == 'S' {
            Some(Country::ES)
        } else if c1 == 'T' {
            Some(Country::ET)
        } else {
            None
        }
    } else if c0 == 'F' {
        if c1 == 'I' {
            Some(Country::FI)
        } else if c1 == 'J' {
            Some(Country::FJ)
        } else if c1 == 'K' {
            Some(Country::FK)
        } else if c1 == 'M' {
            Some(Country::FM)
        } else if c1 == 'O' {
            Some(Country::FO)
        } else if c1 == 'R' {
            Some(Country::FR)
        } else {
            None
        }
    } else if c0 == 'G' {
        if c1 == 'A' {
            Some(Country::GA)
        } else if c1 == 'B' {
            Some(Country::GB)
        } else if c1 == 'D' {
            Some(Country::GD)
        } else if c1 == 'E' {
            Some(Country::GE)
        } else if c1 == 'F' {
            Some(Country::GF)
        } else if c1 == 'G' {
            Some(Country::GG)
        } else if c1 == 'H' {
            Some(Country::GH)
        } else if c1 == 'I' {
            Some(Country::GI)
        } else if c1 == 'L' {
            Some(Country::GL)
        } else if c1 == 'M' {
            Some(Country::GM)
        } else if c1 == 'N' {
            Some(Country::GN)
        } else if c1 == 'P' {
            Some(Country::GP)
        } else if c1 == 'Q' {
            Some(Country::GQ)
        } else if c1 == 'R' {
            Some(Country::GR)
        } else if c1 == 'S' {
            Some(Country::GS)
        } else if c1 == 'T' {
            Some(Country::GT)
        } else if c1 == 'U' {
            Some(Country::GU)
        } else if c1 == 'W' {
            Some(Country::GW)
        } else if c1 == 'Y' {
            Some(Country::GY)
        } else {
            None
        }
    } else if c0 == 'H' {
        if c1 == 'K' {
            Some(Country::HK)
        } else if c1 == 'M' {
            Some(Country::HM)
        } else if c1 == 'N' {
            Some(Country::HN)
        } else if c1 == 'R' {
            Some(Country::HR)
        } else if c1 == 'T' {
            Some(Country::HT)
        } else if c1 == 'U' {
            Some(Country::HU)
        } else {
            None
        }
    } else if c0 == 'I' {
        if c1 == 'D' {
            Some(Country::ID)
        } else if c1 == 'E' {
            Some(Country::IE)
        } else if c1 == 'L' {
            Some(Country::IL)
        } else if c1 == 'M' {
            Some(Country::IM)
        } else if c1 == 'N' {
            Some(Country::IN)
        } else if c1 == 'O' {
            Some(Country::IO)
        } else if c1 == 'Q' {
            Some(Country::IQ)
        } else if c1 == 'R' {
            Some(Country::IR)
        } else if c1 == 'S' {
            Some(Country::IS)
        } else if c1 == 'T' {
            Some(Country::IT)
        } else {
            None
        }
    } else if c0 == 'J' {
        if c1 == 'E' {
            Some(Country::JE)
        } else if c1 == 'M' {
            Some(Country::JM)
        } else if c1 == 'O' {
            Some(Country::JO)
        } else if c1 == 'P' {
            Some(Country::JP)
        } else {
            None
        }
    } else if c0 == 'K' {
        if c1 == 'E' {
            Some(Country::KE)
        } else if c1 == 'G' {
            Some(Country::KG)
        } else if c1 == 'H' {
            Some(Country::KH)
        } else if c1 == 'I' {
            Some(Country::KI)
        } else if c1 == 'M' {
            Some(Country::KM)
        } else if c1 == 'N' {
            Some(Country::KN)
        } else if c1 == 'P' {
            Some(Country::KP)
        } else if c1 == 'R' {
            Some(Country::KR)
        } else if c1 == 'W' {
            Some(Country::KW)
        } else if c1 == 'Y' {
            Some(Country::KY)
        } else if c1 == 'Z' {
            Some(Country::KZ)
        } else {
            None
        }
    } else if c0 == 'L' {
        if c1 == 'A' {
            Some(Country::LA)
        } else if c1 == 'B' {
            Some(Country::LB)
        } else if c1 == 'C' {
            Some(Country::LC)
        } else if c1 == 'I' {
            Some(Country::LI)
        } else if c1 == 'K' {
            Some(Country::LK)
        } else if c1 == 'R' {
            Some(Country::LR)
        } else if c1 == 'S' {
            Some(Country::LS)
        } else if c1 == 'T' {
            Some(Country::LT)
        } else if c1 == 'U' {
            Some(Country::LU)
        } else if c1 == 'V' {
            Some(Country::LV)
        } else if c1 == 'Y' {
            Some(Country::LY)
        } else {
            None
        }
    } else if c0 == 'M' {
        if c1 == 'A' {
            Some(Country::MA)
        } else if c1 == 'C' {
            Some(Country::MC)
        } else if c1 == 'D' {
            Some(Country::MD)
        } else if c1 == 'E' {
            Some(Country::ME)
        } else if c1 == 'F' {
            Some(Country::MF)
        } else if c1 == 'G' {
            Some(Country::MG)
        } else if c1 == 'H' {
            Some(Country::MH)
        } else if c1 == 'K' {
            Some(Country::MK)
        } else if c1 == 'L' {
            Some(Country::ML)
        } else if c1 == 'M' {
            Some(Country::MM)
        } else if c1 == 'N' {
            Some(Country::MN)
        } else if c1 == 'O' {
            Some(Country::MO)
        } else if c1 == 'P' {
            Some(Country::MP)
        } else if c1 == 'Q' {
            Some(Country::MQ)
        } else if c1 == 'R' {
            Some(Country::MR)
        } else if c1 == 'S' {
            Some(Country::MS)
        } else if c1 == 'T' {
            Some(Country::MT)
        } else if c1 == 'U' {
            Some(Country::MU)
        } else if c1 == 'V' {
            Some(Country::MV)
        } else if c1 == 'W' {
            Some(Country::MW)
        } else if c1 == 'X' {
            Some(Country::MX)
        } else if c1 == 'Y' {
            Some(Country::MY)
        } else if c1 == 'Z' {
            Some(Country::MZ)
        } else {
            None
        }
    } else if c0 == 'N' {
        if c1 == 'A' {
            Some(Country::NA)
        } else if c1 == 'C' {
            Some(Country::NC)
        } else if c1 == 'E' {
            Some(Country::NE)
        } else if c1 == 'F' {
            Some(Country::NF)
        } else if c1 == 'G' {
            Some(Country::NG)
        } else if c1 == 'I' {
            Some(Country::NI)
        } else if c1 == 'L' {
            Some(Country::NL)
        } else if c1 == 'O' {
            Some(Country::NO)
        } else if c1 == 'P' {
            Some(Country::NP)
        } else if c1 == 'R' {
            Some(Country::NR)
        } else if c1 == 'U' {
            Some(Country::NU)
        } else if c1 == 'Z' {
            Some(Country::NZ)
        } else {
            None
        }
    } else if c0 == 'O' {
        if c1 == 'M' {
            Some(Country::OM)
        } else {
            None
        }
    } else if c0 == 'P' {
        if c1 == 'A' {
            Some(Country::PA)
        } else if c1 == 'E' {
            Some(Country::PE)
        } else if c1 == 'F' {
            Some(Country::PF)
        } else if c1 == 'G' {
            Some(Country::PG)
        } else if c1 == 'H' {
            Some(Country::PH)
        } else if c1 == 'K' {
            Some(Country::PK)
        } else if c1 == 'L' {
            Some(Country::PL)
        } else if c1 == 'M' {
            Some(Country::PM)
        } else if c1 == 'N' {
            Some(Country::PN)
        } else if c1 == 'R' {
            Some(Country::PR)
        } else if c1 == 'S' {
            Some(Country::PS)
        } else if c1 == 'T' {
            Some(Country::PT)
        } else if c1 == 'W' {
            Some(Country::PW)
        } else if c1 == 'Y' {
            Some(Country::PY)
        } else {
            None
        }
    } else if c0 == 'Q' {
        if c1 == 'A' {
            Some(Country::QA)
        } else {
            None
        }
    } else if c0 == 'R' {
        if c1 == 'E' {
            Some(Country::RE)
        } else if c1 == 'O' {
            Some(Country::RO)
        } else if c1 == 'S' {
            Some(Country::RS)
        } else if c1 == 'U' {
            Some(Country::RU)
        } else if c1 == 'W' {
            Some(Country::RW)
        } else {
            None
        }
    } else if c0 == 'S' {
        if c1 == 'A' {
            Some(Country::SA)
        } else if c1 == 'B' {
            Some(Country::SB)
        } else if c1 == 'C' {
            Some(Country::SC)
        } else if c1 == 'D' {
            Some(Country::SD)
        } else if c1 == 'E' {
            Some(Country::SE)
        } else if c1 == 'G' {
            Some(Country::SG)
        } else if c1 == 'H' {
            Some(Country::SH)
        } else if c1 == 'I' {
            Some(Country::SI)
        } else if c1 == 'J' {
            Some(Country::SJ)
        } else if c1 == 'K' {
            Some(Country::SK)
        } else if c1 == 'L' {
            Some(Country::SL)
        } else if c1 == 'M' {
            Some(Country::SM)
        } else if c1 == 'N' {
            Some(Country::SN)
        } else if c1 == 'O' {
            Some(Country::SO)
        } else if c1 == 'R' {
            Some(Country::SR)
        } else if c1 == 'S' {
            Some(Country::SS)
        } else if c1 == 'T' {
            Some(Country::ST)
        } else if c1 == 'V' {
            Some(Country::SV)
        } else if c1 == 'X' {
            Some(Country::SX)
        } else if c1 == 'Y' {
            Some(Country::SY)
        } else if c1 == 'Z' {
            Some(Country::SZ)
        } else {
            None
        }
    } else if c0 == 'T' {
        if c1 == 'C' {
            Some(Country::TC)
        } else if c1 == 'D' {
            Some(Country::TD)
        } else if c1 == 'F' {
            Some(Country::TF)
        } else if c1 == 'G' {
            Some(Country::TG)
        } else if c1 == 'H' {
            Some(Country::TH)
        } else if c1 == 'J' {
            Some(Country::TJ)
        } else if c1 == 'K' {
            Some(Country::TK)
        } else if c1 == 'L' {
            Some(Country::TL)
        } else if c1 == 'M' {
            Some(Country::TM)
        } else if c1 == 'N' {
            Some(Country::TN)
        } else if c1 == 'O' {
            Some(Country::TO)
        } else if c1 == 'R' {
            Some(Country::TR)
        } else if c1 == 'T' {
            Some(Country::TT)
        } else if c1 == 'V' {
            Some(Country::TV)
        } else if c1 == 'W' {
            Some(Country::TW)
        } else if c1 == 'Z' {
            Some(Country::TZ)
        } else {
            None
        }
    } else if c0 == 'U' {
        if c1 == 'A' {
            Some(Country::UA)
        } else if c1 == 'G' {
            Some(Country::UG)
        } else if c1 == 'M' {
            Some(Country::UM)
        } else if c1 == 'S' {
            Some(Country::US)
        } else if c1 == 'Y' {
            Some(Country::UY)
        } else if c1 == 'Z' {
            Some(Country::UZ)
        } else {
            None
        }
    } else if c0 == 'V' {
        if c1 == 'A' {
            Some(Country::VA)
        } else if c1 == 'C' {
            Some(Country::VC)
        } else if c1 == 'E' {
            Some(Country::VE)
        } else if c1 == 'G' {
            Some(Country::VG)
        } else if c1 == 'I' {
            Some(Country::VI)
        } else if c1 == 'N' {
            Some(Country::VN)
        } else if c1 == 'U' {
            Some(Country::VU)
        } else {
            None
        }
    } else if c0 == 'W' {
        if c1 == 'F' {
            Some(Country::WF)
        } else if c1 == 'S' {
            Some(Country::WS)
        } else {
            None
        }
    } else if c0 == 'Y' {
        if c1 == 'E' {
            Some(Country::YE)
        } else if c1 == 'T' {
            Some(Country::YT)
        } else {
            None
        }
    } else if c0 == 'Z' {
        if c1 == 'A' {
            Some(Country::ZA)
        } else if c1 == 'M' {
            Some(Country::ZM)
        } else if c1 == 'W' {
            Some(Country::ZW)
        } else {
            None
        }
    } else {
        None
    }
}

fn lookup_name(s: &str) -> (r: Option<Country>)
    ensures
        r == spec_from_name(s@),
{
    let n = s.unicode_len();
    if n == 0 {
        return None;
    }
    let c0 = s.get_char(0);
    if c0 == 'A' {
        if str_eq(s, "Afghanistan") {
            Some(Country::AF)
        } else if str_eq(s, "Albania") {
            Some(Country::AL)
        } else if str_eq(s, "Algeria") {
            Some(Country::DZ)
        } else if str_eq(s, "American Samoa") {
            Some(Country::AS)
        } else if str_eq(s, "Andorra") {
            Some(Country::AD)
        } else if str_eq(s, "Angola") {
            Some(Country::AO)
        } else if str_eq(s, "Anguilla") {
            Some(Country::AI)
        } else if str_eq(s, "Antarctica") {
            Some(Country::AQ)
        } else if str_eq(s, "Antigua and Barbuda") {
            Some(Country::AG)
        } else if str_eq(s, "Argentina") {
            Some(Country::AR)
        } else if str_eq(s, "Armenia") {
            Some(Country::AM)
        } else if str_eq(s, "Aruba") {
            Some(Country::AW)
        } else if str_eq(s, "Australia") {
            Some(Country::AU)
        } else if str_eq(s, "Austria") {
            Some(Country::AT)
        } else if str_eq(s, "Azerbaijan") {
            Some(Country::AZ)
        } else {
            None
        }
    } else if c0 == 'B' {
        if str_eq(s, "Bahamas") {
            Some(Country::BS)
        } else if str_eq(s, "Bahrain") {
            Some(Country::BH)
        } else if str_eq(s, "Bangladesh") {
            Some(Country::BD)
        } else if str_eq(s, "Barbados") {
            Some(Country::BB)
        } else if str_eq(s, "Belarus") {
            Some(Country::BY)
        } else if str_eq(s, "Belgium") {
            Some(Country::BE)
        } else if str_eq(s, "Belize") {
            Some(Country::BZ)
        } else if str_eq(s, "Benin") {
            Some(Country::BJ)
        } else if str_eq(s, "Bermuda") {
            Some(Country::BM)
        } else if str_eq(s, "Bhutan") {
            Some(Country::BT)
        } else if str_eq(s, "Bolivia (Plurinational State of)") {
            Some(Country::BO)
        } else if str_eq(s, "Bonaire, Sint Eustatius and Saba") {
            Some(Country::BQ)
        } else if str_eq(s, "Bosnia and Herzegovina") {
            Some(Country::BA)
        } else if str_eq(s, "Botswana") {
            Some(Country::BW)
        } else if str_eq(s, "Bouvet Island") {
            Some(Country::BV)
        } else if str_eq(s, "Brazil") {
            Some(Country::BR)
        } else if str_eq(s, "British Indian Ocean Territory") {
            Some(Country::IO)
        } else if str_eq(s, "Brunei Darussalam") {
            Some(Country::BN)
        } else if str_eq(s, "Bulgaria") {
            Some(Country::BG)
        } else if str_eq(s, "Burkina Faso") {
            Some(Country::BF)
        } else if str_eq(s, "Burundi") {
            Some(Country::BI)
        } else {
            None
        }
    } else if c0 == 'C' {
        if str_eq(s, "Cabo Verde") {
            Some(Country::CV)
        } else if str_eq(s, "Cambodia") {
            Some(Country::KH)
        } else if str_eq(s, "Cameroon") {
            Some(Country::CM)
        } else if str_eq(s, "Canada") {
            Some(Country::CA)
        } else if str_eq(s, "Cayman Islands") {
            Some(Country::KY)
        } else if str_eq(s, "Central African Republic") {
            Some(Country::CF)
        } else if str_eq(s, "Chad") {
            Some(Country::TD)
        } else if str_eq(s, "Chile") {
            Some(Country::CL)
        } else if str_eq(s, "China") {
            Some(Country::CN)
        } else if str_eq(s, "Christmas Island") {
            Some(Country::CX)
        } else if str_eq(s, "Cocos (Keeling) Islands") {
            Some(Country::CC)
        } else if str_eq(s, "Colombia") {
            Some(Country::CO)
        } else if str_eq(s, "Comoros") {
            Some(Country::KM)
        } else if str_eq(s, "Congo") {
            Some(Country::CG)
        } else if str_eq(s, "Congo (Democratic Republic of the)") {
            Some(Country::CD)
        } else if str_eq(s, "Cook Islands") {
            Some(Country::CK)
        } else if str_eq(s, "Costa Rica") {
            Some(Country::CR)
        } else if str_eq(s, "Croatia") {
            Some(Country::HR)
        } else if str_eq(s, "Cuba") {
            Some(Country::CU)
        } else if str_eq(s, "Curaçao") {
            Some(Country::CW)
        } else if str_eq(s, "Cyprus") {
            Some(Country::CY)
        } else if str_eq(s, "Czech Republic") {
            Some(Country::CZ)
        } else if str_eq(s, "Côte d'Ivoire") {
            Some(Country::CI)
        } else {
            None
        }
    } else if c0 == 'D' {
        if str_eq(s, "Denmark") {
            Some(Country::DK)
        } else if str_eq(s, "Djibouti") {
            Some(Country::DJ)
        } else if str_eq(s, "Dominica") {
            Some(Country::DM)
        } else if str_eq(s, "Dominican Republic") {
            Some(Country::DO)
        } else {
            None
        }
    } else if c0 == 'E' {
        if str_eq(s, "Ecuador") {
            Some(Country::EC)
        } else if str_eq(s, "Egypt") {
            Some(Country::EG)
        } else if str_eq(s, "El Salvador") {
            Some(Country::SV)
        } else if str_eq(s, "Equatorial Guinea") {
            Some(Country::GQ)
        } else if str_eq(s, "Eritrea") {
            Some(Country::ER)
        } else if str_eq(s, "Estonia") {
            Some(Country::EE)
        } else if str_eq(s, "Ethiopia") {
            Some(Country::ET)
        } else {
            None
        }
    } else if c0 == 'F' {
        if str_eq(s, "Falkland Islands") {
            Some(Country::FK)
        } else if str_eq(s, "Faroe Islands") {
            Some(Country::FO)
        } else if str_eq(s, "Fiji") {
            Some(Country::FJ)
        } else if str_eq(s, "Finland") {
            Some(Country::FI)
        } else if str_eq(s, "France") {
            Some(Country::FR)
        } else if str_eq(s, "French Guiana") {
            Some(Country::GF)
        } else if str_eq(s, "French Polynesia") {
            Some(Country::PF)
        } else if str_eq(s, "French Southern Territories") {
            Some(Country::TF)
        } else {
            None
        }
    } else if c0 == 'G' {
        if str_eq(s, "Gabon") {
            Some(Country::GA)
        } else if str_eq(s, "Gambia") {
            Some(Country::GM)
        } else if str_eq(s, "Georgia") {
            Some(Country::GE)
        } else if str_eq(s, "Germany") {
            Some(Country::DE)
        } else if str_eq(s, "Ghana") {
            Some(Country::GH)
        } else if str_eq(s, "Gibraltar") {
            Some(Country::GI)
        } else if str_eq(s, "Greece") {
            Some(Country::GR)
        } else if str_eq(s, "Greenland") {
            Some(Country::GL)
        } else if str_eq(s, "Grenada") {
            Some(Country::GD)
        } else if str_eq(s, "Guadeloupe") {
            Some(Country::GP)
        } else if str_eq(s, "Guam") {
            Some(Country::GU)
        } else if str_eq(s, "Guatemala") {
            Some(Country::GT)
        } else if str_eq(s, "Guernsey") {
            Some(Country::GG)
        } else if str_eq(s, "Guinea") {
            Some(Country::GN)
        } else if str_eq(s, "Guinea-Bissau") {
            Some(Country::GW)
        } else if str_eq(s, "Guyana") {
            Some(Country::GY)
        } else {
            None
        }
    } else if c0 == 'H' {
        if str_eq(s, "Haiti") {
            Some(Country::HT)
        } else if str_eq(s, "Heard Island and McDonald Islands") {
            Some(Country::HM)
        } else if str_eq(s, "Holy See") {
            Some(Country::VA)
        } else if str_eq(s, "Honduras") {
            Some(Country::HN)
        } else if str_eq(s, "Hong Kong") {
            Some(Country::HK)
        } else if str_eq(s, "Hungary") {
            Some(Country::HU)
        } else {
            None
        }
    } else if c0 == 'I' {
        if str_eq(s, "Iceland") {
            Some(Country::IS)
        } else if str_eq(s, "India") {
            Some(Country::IN)
        } else if str_eq(s, "Indonesia") {
            Some(Country::ID)
        } else if str_eq(s, "Iran (Islamic Republic of)") {
            Some(Country::IR)
        } else if str_eq(s, "Iraq") {
            Some(Country::IQ)
        } else if str_eq(s, "Ireland") {
            Some(Country::IE)
        } else if str_eq(s, "Isle of Man") {
            Some(Country::IM)
        } else if str_eq(s, "Israel") {
            Some(Country::IL)
        } else if str_eq(s, "Italy") {
            Some(Country::IT)
        } else {
            None
        }
    } else if c0 == 'J' {
        if str_eq(s, "Jamaica") {
            Some(Country::JM)
        } else if str_eq(s, "Japan") {
            Some(Country::JP)
        } else if str_eq(s, "Jersey") {
            Some(Country::JE)
        } else if str_eq(s, "Jordan") {
            Some(Country::JO)
        } else {
            None
        }
    } else if c0 == 'K' {
        if str_eq(s, "Kazakhstan") {
            Some(Country::KZ)
        } else if str_eq(s, "Kenya") {
            Some(Country::KE)
        } else if str_eq(s, "Kiribati") {
            Some(Country::KI)
        } else if str_eq(s, "Korea (Democratic People's Republic of)") {
            Some(Country::KP)
        } else if str_eq(s, "Korea (Republic of)") {
            Some(Country::KR)
        } else if str_eq(s, "Kuwait") {
            Some(Country::KW)
        } else if str_eq(s, "Kyrgyzstan") {
            Some(Country::KG)
        } else {
            None
        }
    } else if c0 == 'L' {
        if str_eq(s, "Lao People's Democratic Republic") {
            Some(Country::LA)
        } else if str_eq(s, "Latvia") {
            Some(Country::LV)
        } else if str_eq(s, "Lebanon") {
            Some(Country::LB)
        } else if str_eq(s, "Lesotho") {
            Some(Country::LS)
        } else if str_eq(s, "Liberia") {
            Some(Country::LR)
        } else if str_eq(s, "Libya") {
            Some(Country::LY)
        } else if str_eq(s, "Liechtenstein") {
            Some(Country::LI)
        } else if str_eq(s, "Lithuania") {
            Some(Country::LT)
        } else if str_eq(s, "Luxembourg") {
            Some(Country::LU)
        } else {
            None
        }
    } else if c0 == 'M' {
        if str_eq(s, "Macao") {
            Some(Country::MO)
        } else if str_eq(s, "Macedonia (the former Yugoslav Republic of)") {
            Some(Country::MK)
        } else if str_eq(s, "Madagascar") {
            Some(Country::MG)
        } else if str_eq(s, "Malawi") {
            Some(Country::MW)
        } else if str_eq(s, "Malaysia") {
            Some(Country::MY)
        } else if str_eq(s, "Maldives") {
            Some(Country::MV)
        } else if str_eq(s, "Mali") {
            Some(Country::ML)
        } else if str_eq(s, "Malta") {
            Some(Country::MT)
        } else if str_eq(s, "Marshall Islands") {
            Some(Country::MH)
        } else if str_eq(s, "Martinique") {
            Some(Country::MQ)
        } else if str_eq(s, "Mauritania") {
            Some(Country::MR)
        } else if str_eq(s, "Mauritius") {
            Some(Country::MU)
        } else if str_eq(s, "Mayotte") {
            Some(Country::YT)
        } else if str_eq(s, "Mexico") {
            Some(Country::MX)
        } else if str_eq(s, "Micronesia (Federated States of)") {
            Some(Country::FM)
        } else if str_eq(s, "Moldova (Republic of)") {
            Some(Country::MD)
        } else if str_eq(s, "Monaco") {
            Some(Country::MC)
        } else if str_eq(s, "Mongolia") {
            Some(Country::MN)
        } else if str_eq(s, "Montenegro") {
            Some(Country::ME)
        } else if str_eq(s, "Montserrat") {
            Some(Country::MS)
        } else if str_eq(s, "Morocco") {
            Some(Country::MA)
        } else if str_eq(s, "Mozambique") {
            Some(Country::MZ)
        } else if str_eq(s, "Myanmar") {
            Some(Country::MM)
        } else {
            None
        }
    } else if c0 == 'N' {
        if str_eq(s, "Namibia") {
            Some(Country::NA)
        } else if str_eq(s, "Nauru") {
            Some(Country::NR)
        } else if str_eq(s, "Nepal") {
            Some(Country::NP)
        } else if str_eq(s, "Netherlands") {
            Some(Country::NL)
        } else if str_eq(s, "New Caledonia") {
            Some(Country::NC)
        } else if str_eq(s, "New Zealand") {
            Some(Country::NZ)
        } else if str_eq(s, "Nicaragua") {
            Some(Country::NI)
        } else if str_eq(s, "Niger") {
            Some(Country::NE)
        } else if str_eq(s, "Nigeria") {
            Some(Country::NG)
        } else if str_eq(s, "Niue") {
            Some(Country::NU)
        } else if str_eq(s, "Norfolk Island") {
            Some(Country::NF)
        } else if str_eq(s, "Northern Mariana Islands") {
            Some(Country::MP)
        } else if str_eq(s, "Norway") {
            Some(Country::NO)
        } else {
            None
        }
    } else if c0 == 'O' {
        if str_eq(s, "Oman") {
            Some(Country::OM)
        } else {
            None
        }
    } else if c0 == 'P' {
        if str_eq(s, "Pakistan") {
            Some(Country::PK)
        } else if str_eq(s, "Palau") {
            Some(Country::PW)
        } else if str_eq(s, "Palestine, State of") {
            Some(Country::PS)
        } else if str_eq(s, "Panama") {
            Some(Country::PA)
        } else if str_eq(s, "Papua New Guinea") {
            Some(Country::PG)
        } else if str_eq(s, "Paraguay") {
            Some(Country::PY)
        } else if str_eq(s, "Peru") {
            Some(Country::PE)
        } else if str_eq(s, "Philippines") {
            Some(Country::PH)
        } else if str_eq(s, "Pitcairn") {
            Some(Country::PN)
        } else if str_eq(s, "Poland") {
            Some(Country::PL)
        } else if str_eq(s, "Portugal") {
            Some(Country::PT)
        } else if str_eq(s, "Puerto Rico") {
            Some(Country::PR)
        } else {
            None
        }
    } else if c0 == 'Q' {
        if str_eq(s, "Qatar") {
            Some(Country::QA)
        } else {
            None
        }
    } else if c0 == 'R' {
        if str_eq(s, "Romania") {
            Some(Country::RO)
        } else if str_eq(s, "Russian Federation") {
            Some(Country::RU)
        } else if str_eq(s, "Rwanda") {
            Some(Country::RW)
        } else if str_eq(s, "Réunion") {
            Some(Country::RE)
        } else {
            None
        }
    } else if c0 == 'S' {
        if str_eq(s, "Saint Barthélemy") {
            Some(Country::BL)
        } else if str_eq(s, "Saint Helena, Ascension and Tristan da Cunha") {
            Some(Country::SH)
        } else if str_eq(s, "Saint Kitts and Nevis") {
            Some(Country::KN)
        } else if str_eq(s, "Saint Lucia") {
            Some(Country::LC)
        } else if str_eq(s, "Saint Martin (French part)") {
            Some(Country::MF)
        } else if str_eq(s, "Saint Pierre and Miquelon") {
            Some(Country::PM)
        } else if str_eq(s, "Saint Vincent and the Grenadines") {
            Some(Country::VC)
        } else if str_eq(s, "Samoa") {
            Some(Country::WS)
        } else if str_eq(s, "San Marino") {
            Some(Country::SM)
        } else if str_eq(s, "Sao Tome and Principe") {
            Some(Country::ST)
        } else if str_eq(s, "Saudi Arabia") {
            Some(Country::SA)
        } else if str_eq(s, "Senegal") {
            Some(Country::SN)
        } else if str_eq(s, "Serbia") {
            Some(Country::RS)
        } else if str_eq(s, "Seychelles") {
            Some(Country::SC)
        } else if str_eq(s, "Sierra Leone") {
            Some(Country::SL)
        } else if str_eq(s, "Singapore") {
            Some(Country::SG)
        } else if str_eq(s, "Sint Maarten (Dutch part)") {
            Some(Country::SX)
        } else if str_eq(s, "Slovakia") {
            Some(Country::SK)
        } else if str_eq(s, "Slovenia") {
            Some(Country::SI)
        } else if str_eq(s, "Solomon Islands") {
            Some(Country::SB)
        } else if str_eq(s, "Somalia") {
            Some(Country::SO)
        } else if str_eq(s, "South Africa") {
            Some(Country::ZA)
        } else if str_eq(s, "South Georgia and the South Sandwich Islands") {
            Some(Country::GS)
        } else if str_eq(s, "South Sudan") {
            Some(Country::SS)
        } else if str_eq(s, "Spain") {
            Some(Country::ES)
        } else if str_eq(s, "Sri Lanka") {
            Some(Country::LK)
        } else if str_eq(s, "Sudan") {
            Some(Country::SD)
        } else if str_eq(s, "Suriname") {
            Some(Country::SR)
        } else if str_eq(s, "Svalbard and Jan Mayen") {
            Some(Country::SJ)
        } else if str_eq(s, "Swaziland") {
            Some(Country::SZ)
        } else if str_eq(s, "Sweden") {
            Some(Country::SE)
        } else if str_eq(s, "Switzerland") {
            Some(Country::CH)
        } else if str_eq(s, "Syrian Arab Republic") {
            Some(Country::SY)
        } else {
            None
        }
    } else if c0 == 'T' {
        if str_eq(s, "Taiwan, Province of China[a]") {
            Some(Country::TW)
        } else if str_eq(s, "Tajikistan") {
            Some(Country::TJ)
        } else if str_eq(s, "Tanzania, United Republic of") {
            Some(Country::TZ)
        } else if str_eq(s, "Thailand") {
            Some(Country::TH)
        } else if str_eq(s, "Timor-Leste") {
            Some(Country::TL)
        } else if str_eq(s, "Togo") {
            Some(Country::TG)
        } else if str_eq(s, "Tokelau") {
            Some(Country::TK)
        } else if str_eq(s, "Tonga") {
            Some(Country::TO)
        } else if str_eq(s, "Trinidad and Tobago") {
            Some(Country::TT)
        } else if str_eq(s, "Tunisia") {
            Some(Country::TN)
        } else if str_eq(s, "Turkey") {
            Some(Country::TR)
        } else if str_eq(s, "Turkmenistan") {
            Some(Country::TM)
        } else if str_eq(s, "Turks and Caicos Islands") {
            Some(Country::TC)
        } else if str_eq(s, "Tuvalu") {
            Some(Country::TV)
        } else {
            None
        }
    } else if c0 == 'U' {
        if str_eq(s, "Uganda") {
            Some(Country::UG)
        } else if str_eq(s, "Ukraine") {
            Some(Country::UA)
        } else if str_eq(s, "United Arab Emirates") {
            Some(Country::AE)
        } else if str_eq(s, "United Kingdom of Great Britain and Northern Ireland") {
            Some(Country::GB)
        } else if str_eq(s, "United States Minor Outlying Islands") {
            Some(Country::UM)
        } else if str_eq(s, "United States of America") {
            Some(Country::US)
        } else if str_eq(s, "Uruguay") {
            Some(Country::UY)
        } else if str_eq(s, "Uzbekistan") {
            Some(Country::UZ)
        } else {
            None
        }
    } else if c0 == 'V' {
        if str_eq(s, "Vanuatu") {
            Some(Country::VU)
        } else if str_eq(s, "Venezuela (Bolivarian Republic of)") {
            Some(Country::VE)
        } else if str_eq(s, "Viet Nam") {
            Some(Country::VN)
        } else if str_eq(s, "Virgin Islands (British)") {
            Some(Country::VG)
        } else if str_eq(s, "Virgin Islands (U.S.)") {
            Some(Country::VI)
        } else {
            None
        }
    } else if c0 == 'W' {
        if str_eq(s, "Wallis and Futuna") {
            Some(Country::WF)
        } else if str_eq(s, "Western Sahara") {
            Some(Country::EH)
        } else {
            None
        }
    } else if c0 == 'Y' {
        if str_eq(s, "Yemen") {
            Some(Country::YE)
        } else {
            None
        }
    } else if c0 == 'Z' {
        if str_eq(s, "Zambia") {
            Some(Country::ZM)
        } else if str_eq(s, "Zimbabwe") {
            Some(Country::ZW)
        } else {
            None
        }
    } else if c0 == 'Å' {
        if str_eq(s, "Åland Islands") {
            Some(Country::AX)
        } else {
            None
        }
    } else {
        None
    }
}

impl Country {
    /// Parses an alpha-2 country code, case-sensitively and without
    /// normalization.  The empty string yields the `Unspecified`
    /// sentinel; any string that is not the alpha-2 code of a country
    /// yields an `InvalidCountryCode` error carrying the input.
    pub fn parse(s: &str) -> (r: Result<Country, CountryParseError>)
        ensures
            match r {
                Ok(c) => spec_alpha2(c) == s@,
                Err(CountryParseError::InvalidCountryCode(t)) => t@ == s@
                    && forall|c: Country| spec_alpha2(c) != s@,
            },
    {
        match lookup_alpha2(s) {
            Some(c) => {
                proof {
                    lemma_parse_sound(s@);
                }
                Ok(c)
            },
            None => {
                proof {
                    assert forall|c: Country| spec_alpha2(c) != s@ by {
                        lemma_parse_complete(c);
                    }
                }
                Err(CountryParseError::InvalidCountryCode(s.to_owned()))
            },
        }
    }

    /// Looks up a country by its canonical English short name, exactly
    /// and case-sensitively.  An unknown name is an expected negative
    /// result, not an error.
    pub fn from_name(s: &str) -> (r: Option<Country>)
        ensures
            match r {
                Some(c) => c != Country::Unspecified && spec_name(c) == s@,
                None => forall|c: Country|
                    c != Country::Unspecified ==> spec_name(c) != s@,
            },
    {
        let r = lookup_name(s);
        proof {
            lemma_from_name_sound(s@);
            if r is None {
                assert forall|c: Country|
                    c != Country::Unspecified implies spec_name(c) != s@ by {
                    lemma_from_name_complete(c);
                }
            }
        }
        r
    }
}

impl core::str::FromStr for Country {
    type Err = CountryParseError;

    fn from_str(s: &str) -> Result<Country, CountryParseError> {
        Country::parse(s)
    }
}

} // verus!
