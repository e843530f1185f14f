//! The `Country` value type and its per-value static data.
//!
//! `Country` is a closed enumeration: one value per dataset row plus the
//! `Unspecified` sentinel.  Each accessor is a total function realized as
//! an exhaustive match over the enumeration, and each has a spec-level
//! counterpart that the contracts of the whole crate are stated over.

use vstd::prelude::*;

verus! {

/// A country of the dataset, or the `Unspecified` sentinel.
///
/// Values are listed in ascending numeric-code order, with the sentinel
/// (numeric code 0) first.
#[derive(Copy, Clone, Debug, PartialEq, Eq, Hash, Structural)]
pub enum Country {
    Unspecified,
    AF,
    AL,
    AQ,
    DZ,
    AS,
    AD,
    AO,
    AG,
    AZ,
    AR,
    AU,
    AT,
    BS,
    BH,
    BD,
    AM,
    BB,
    BE,
    BM,
    BT,
    BO,
    BA,
    BW,
    BV,
    BR,
    BZ,
    IO,
    SB,
    VG,
    BN,
    BG,
    MM,
    BI,
    BY,
    KH,
    CM,
    CA,
    CV,
    KY,
    CF,
    LK,
    TD,
    CL,
    CN,
    TW,
    CX,
    CC,
    CO,
    KM,
    YT,
    CG,
    CD,
    CK,
    CR,
    HR,
    CU,
    CY,
    CZ,
    BJ,
    DK,
    DM,
    DO,
    EC,
    SV,
    GQ,
    ET,
    ER,
    EE,
    FO,
    FK,
    GS,
    FJ,
    FI,
    AX,
    FR,
    GF,
    PF,
    TF,
    DJ,
    GA,
    GE,
    GM,
    PS,
    DE,
    GH,
    GI,
    KI,
    GR,
    GL,
    GD,
    GP,
    GU,
    GT,
    GN,
    GY,
    HT,
    HM,
    VA,
    HN,
    HK,
    HU,
    IS,
    IN,
    ID,
    IR,
    IQ,
    IE,
    IL,
    IT,
    CI,
    JM,
    JP,
    KZ,
    JO,
    KE,
    KP,
    KR,
    KW,
    KG,
    LA,
    LB,
    LS,
    LV,
    LR,
    LY,
    LI,
    LT,
    LU,
    MO,
    MG,
    MW,
    MY,
    MV,
    ML,
    MT,
    MQ,
    MR,
    MU,
    MX,
    MC,
    MN,
    MD,
    ME,
    MS,
    MA,
    MZ,
    OM,
    NA,
    NR,
    NP,
    NL,
    CW,
    AW,
    SX,
    BQ,
    NC,
    VU,
    NZ,
    NI,
    NE,
    NG,
    NU,
    NF,
    NO,
    MP,
    UM,
    FM,
    MH,
    PW,
    PK,
    PA,
    PG,
    PY,
    PE,
    PH,
    PN,
    PL,
    PT,
    GW,
    TL,
    PR,
    QA,
    RE,
    RO,
    RU,
    RW,
    BL,
    SH,
    KN,
    AI,
    LC,
    MF,
    PM,
    VC,
    SM,
    ST,
    SA,
    SN,
    RS,
    SC,
    SL,
    SG,
    SK,
    VN,
    SI,
    SO,
    ZA,
    ZW,
    ES,
    SS,
    SD,
    EH,
    SR,
    SJ,
    SZ,
    SE,
    CH,
    SY,
    TJ,
    TH,
    TG,
    TK,
    TO,
    TT,
    AE,
    TN,
    TR,
    TM,
    TC,
    TV,
    UG,
    UA,
    MK,
    EG,
    GB,
    GG,
    JE,
    IM,
    TZ,
    US,
    VI,
    BF,
    UY,
    UZ,
    VE,
    WF,
    WS,
    YE,
    ZM,
}

/// The alpha-2 code of `c`; the sentinel has the empty code.
pub open spec fn spec_alpha2(c: Country) -> Seq<char> {
    match c {
        Country::Unspecified => ""@,
        Country::AF => "AF"@,
        Country::AL => "AL"@,
        Country::AQ => "AQ"@,
        Country::DZ => "DZ"@,
        Country::AS => "AS"@,
        Country::AD => "AD"@,
        Country::AO => "AO"@,
        Country::AG => "AG"@,
        Country::AZ => "AZ"@,
        Country::AR => "AR"@,
        Country::AU => "AU"@,
        Country::AT => "AT"@,
        Country::BS => "BS"@,
        Country::BH => "BH"@,
        Country::BD => "BD"@,
        Country::AM => "AM"@,
        Country::BB => "BB"@,
        Country::BE => "BE"@,
        Country::BM => "BM"@,
        Country::BT => "BT"@,
        Country::BO => "BO"@,
        Country::BA => "BA"@,
        Country::BW => "BW"@,
        Country::BV => "BV"@,
        Country::BR => "BR"@,
        Country::BZ => "BZ"@,
        Country::IO => "IO"@,
        Country::SB => "SB"@,
        Country::VG => "VG"@,
        Country::BN => "BN"@,
        Country::BG => "BG"@,
        Country::MM => "MM"@,
        Country::BI => "BI"@,
        Country::BY => "BY"@,
        Country::KH => "KH"@,
        Country::CM => "CM"@,
        Country::CA => "CA"@,
        Country::CV => "CV"@,
        Country::KY => "KY"@,
        Country::CF => "CF"@,
        Country::LK => "LK"@,
        Country::TD => "TD"@,
        Country::CL => "CL"@,
        Country::CN => "CN"@,
        Country::TW => "TW"@,
        Country::CX => "CX"@,
        Country::CC => "CC"@,
        Country::CO => "CO"@,
        Country::KM => "KM"@,
        Country::YT => "YT"@,
        Country::CG => "CG"@,
        Country::CD => "CD"@,
        Country::CK => "CK"@,
        Country::CR => "CR"@,
        Country::HR => "HR"@,
        Country::CU => "CU"@,
        Country::CY => "CY"@,
        Country::CZ => "CZ"@,
        Country::BJ => "BJ"@,
        Country::DK => "DK"@,
        Country::DM => "DM"@,
        Country::DO => "DO"@,
        Country::EC => "EC"@,
        Country::SV => "SV"@,
        Country::GQ => "GQ"@,
        Country::ET => "ET"@,
        Country::ER => "ER"@,
        Country::EE => "EE"@,
        Country::FO => "FO"@,
        Country::FK => "FK"@,
        Country::GS => "GS"@,
        Country::FJ => "FJ"@,
        Country::FI => "FI"@,
        Country::AX => "AX"@,
        Country::FR => "FR"@,
        Country::GF => "GF"@,
        Country::PF => "PF"@,
        Country::TF => "TF"@,
        Country::DJ => "DJ"@,
        Country::GA => "GA"@,
        Country::GE => "GE"@,
        Country::GM => "GM"@,
        Country::PS => "PS"@,
        Country::DE => "DE"@,
        Country::GH => "GH"@,
        Country::GI => "GI"@,
        Country::KI => "KI"@,
        Country::GR => "GR"@,
        Country::GL => "GL"@,
        Country::GD => "GD"@,
        Country::GP => "GP"@,
        Country::GU => "GU"@,
        Country::GT => "GT"@,
        Country::GN => "GN"@,
        Country::GY => "GY"@,
        Country::HT => "HT"@,
        Country::HM => "HM"@,
        Country::VA => "VA"@,
        Country::HN => "HN"@,
        Country::HK => "HK"@,
        Country::HU => "HU"@,
        Country::IS => "IS"@,
        Country::IN => "IN"@,
        Country::ID => "ID"@,
        Country::IR => "IR"@,
        Country::IQ => "IQ"@,
        Country::IE => "IE"@,
        Country::IL => "IL"@,
        Country::IT => "IT"@,
        Country::CI => "CI"@,
        Country::JM => "JM"@,
        Country::JP => "JP"@,
        Country::KZ => "KZ"@,
        Country::JO => "JO"@,
        Country::KE => "KE"@,
        Country::KP => "KP"@,
        Country::KR => "KR"@,
        Country::KW => "KW"@,
        Country::KG => "KG"@,
        Country::LA => "LA"@,
        Country::LB => "LB"@,
        Country::LS => "LS"@,
        Country::LV => "LV"@,
        Country::LR => "LR"@,
        Country::LY => "LY"@,
        Country::LI => "LI"@,
        Country::LT => "LT"@,
        Country::LU => "LU"@,
        Country::MO => "MO"@,
        Country::MG => "MG"@,
        Country::MW => "MW"@,
        Country::MY => "MY"@,
        Country::MV => "MV"@,
        Country::ML => "ML"@,
        Country::MT => "MT"@,
        Country::MQ => "MQ"@,
        Country::MR => "MR"@,
        Country::MU => "MU"@,
        Country::MX => "MX"@,
        Country::MC => "MC"@,
        Country::MN => "MN"@,
        Country::MD => "MD"@,
        Country::ME => "ME"@,
        Country::MS => "MS"@,
        Country::MA => "MA"@,
        Country::MZ => "MZ"@,
        Country::OM => "OM"@,
        Country::NA => "NA"@,
        Country::NR => "NR"@,
        Country::NP => "NP"@,
        Country::NL => "NL"@,
        Country::CW => "CW"@,
        Country::AW => "AW"@,
        Country::SX => "SX"@,
        Country::BQ => "BQ"@,
        Country::NC => "NC"@,
        Country::VU => "VU"@,
        Country::NZ => "NZ"@,
        Country::NI => "NI"@,
        Country::NE => "NE"@,
        Country::NG => "NG"@,
        Country::NU => "NU"@,
        Country::NF => "NF"@,
        Country::NO => "NO"@,
        Country::MP => "MP"@,
        Country::UM => "UM"@,
        Country::FM => "FM"@,
        Country::MH => "MH"@,
        Country::PW => "PW"@,
        Country::PK => "PK"@,
        Country::PA => "PA"@,
        Country::PG => "PG"@,
        Country::PY => "PY"@,
        Country::PE => "PE"@,
        Country::PH => "PH"@,
        Country::PN => "PN"@,
        Country::PL => "PL"@,
        Country::PT => "PT"@,
        Country::GW => "GW"@,
        Country::TL => "TL"@,
        Country::PR => "PR"@,
        Country::QA => "QA"@,
        Country::RE => "RE"@,
        Country::RO => "RO"@,
        Country::RU => "RU"@,
        Country::RW => "RW"@,
        Country::BL => "BL"@,
        Country::SH => "SH"@,
        Country::KN => "KN"@,
        Country::AI => "AI"@,
        Country::LC => "LC"@,
        Country::MF => "MF"@,
        Country::PM => "PM"@,
        Country::VC => "VC"@,
        Country::SM => "SM"@,
        Country::ST => "ST"@,
        Country::SA => "SA"@,
        Country::SN => "SN"@,
        Country::RS => "RS"@,
        Country::SC => "SC"@,
        Country::SL => "SL"@,
        Country::SG => "SG"@,
        Country::SK => "SK"@,
        Country::VN => "VN"@,
        Country::SI => "SI"@,
        Country::SO => "SO"@,
        Country::ZA => "ZA"@,
        Country::ZW => "ZW"@,
        Country::ES => "ES"@,
        Country::SS => "SS"@,
        Country::SD => "SD"@,
        Country::EH => "EH"@,
        Country::SR => "SR"@,
        Country::SJ => "SJ"@,
        Country::SZ => "SZ"@,
        Country::SE => "SE"@,
        Country::CH => "CH"@,
        Country::SY => "SY"@,
        Country::TJ => "TJ"@,
        Country::TH => "TH"@,
        Country::TG => "TG"@,
        Country::TK => "TK"@,
        Country::TO => "TO"@,
        Country::TT => "TT"@,
        Country::AE => "AE"@,
        Country::TN => "TN"@,
        Country::TR => "TR"@,
        Country::TM => "TM"@,
        Country::TC => "TC"@,
        Country::TV => "TV"@,
        Country::UG => "UG"@,
        Country::UA => "UA"@,
        Country::MK => "MK"@,
        Country::EG => "EG"@,
        Country::GB => "GB"@,
        Country::GG => "GG"@,
        Country::JE => "JE"@,
        Country::IM => "IM"@,
        Country::TZ => "TZ"@,
        Country::US => "US"@,
        Country::VI => "VI"@,
        Country::BF => "BF"@,
        Country::UY => "UY"@,
        Country::UZ => "UZ"@,
        Country::VE => "VE"@,
        Country::WF => "WF"@,
        Country::WS => "WS"@,
        Country::YE => "YE"@,
        Country::ZM => "ZM"@,
    }
}

/// The alpha-3 code of `c`; the sentinel has the empty code.
pub open spec fn spec_alpha3(c: Country) -> Seq<char> {
    match c {
        Country::Unspecified => ""@,
        Country::AF => "AFG"@,
        Country::AL => "ALB"@,
        Country::AQ => "ATA"@,
        Country::DZ => "DZA"@,
        Country::AS => "ASM"@,
        Country::AD => "AND"@,
        Country::AO => "AGO"@,
        Country::AG => "ATG"@,
        Country::AZ => "AZE"@,
        Country::AR => "ARG"@,
        Country::AU => "AUS"@,
        Country::AT => "AUT"@,
        Country::BS => "BHS"@,
        Country::BH => "BHR"@,
        Country::BD => "BGD"@,
        Country::AM => "ARM"@,
        Country::BB => "BRB"@,
        Country::BE => "BEL"@,
        Country::BM => "BMU"@,
        Country::BT => "BTN"@,
        Country::BO => "BOL"@,
        Country::BA => "BIH"@,
        Country::BW => "BWA"@,
        Country::BV => "BVT"@,
        Country::BR => "BRA"@,
        Country::BZ => "BLZ"@,
        Country::IO => "IOT"@,
        Country::SB => "SLB"@,
        Country::VG => "VGB"@,
        Country::BN => "BRN"@,
        Country::BG => "BGR"@,
        Country::MM => "MMR"@,
        Country::BI => "BDI"@,
        Country::BY => "BLR"@,
        Country::KH => "KHM"@,
        Country::CM => "CMR"@,
        Country::CA => "CAN"@,
        Country::CV => "CPV"@,
        Country::KY => "CYM"@,
        Country::CF => "CAF"@,
        Country::LK => "LKA"@,
        Country::TD => "TCD"@,
        Country::CL => "CHL"@,
        Country::CN => "CHN"@,
        Country::TW => "TWN"@,
        Country::CX => "CXR"@,
        Country::CC => "CCK"@,
        Country::CO => "COL"@,
        Country::KM => "COM"@,
        Country::YT => "MYT"@,
        Country::CG => "COG"@,
        Country::CD => "COD"@,
        Country::CK => "COK"@,
        Country::CR => "CRI"@,
        Country::HR => "HRV"@,
        Country::CU => "CUB"@,
        Country::CY => "CYP"@,
        Country::CZ => "CZE"@,
        Country::BJ => "BEN"@,
        Country::DK => "DNK"@,
        Country::DM => "DMA"@,
        Country::DO => "DOM"@,
        Country::EC => "ECU"@,
        Country::SV => "SLV"@,
        Country::GQ => "GNQ"@,
        Country::ET => "ETH"@,
        Country::ER => "ERI"@,
        Country::EE => "EST"@,
        Country::FO => "FRO"@,
        Country::FK => "FLK"@,
        Country::GS => "SGS"@,
        Country::FJ => "FJI"@,
        Country::FI => "FIN"@,
        Country::AX => "ALA"@,
        Country::FR => "FRA"@,
        Country::GF => "GUF"@,
        Country::PF => "PYF"@,
        Country::TF => "ATF"@,
        Country::DJ => "DJI"@,
        Country::GA => "GAB"@,
        Country::GE => "GEO"@,
        Country::GM => "GMB"@,
        Country::PS => "PSE"@,
        Country::DE => "DEU"@,
        Country::GH => "GHA"@,
        Country::GI => "GIB"@,
        Country::KI => "KIR"@,
        Country::GR => "GRC"@,
        Country::GL => "GRL"@,
        Country::GD => "GRD"@,
        Country::GP => "GLP"@,
        Country::GU => "GUM"@,
        Country::GT => "GTM"@,
        Country::GN => "GIN"@,
        Country::GY => "GUY"@,
        Country::HT => "HTI"@,
        Country::HM => "HMD"@,
        Country::VA => "VAT"@,
        Country::HN => "HND"@,
        Country::HK => "HKG"@,
        Country::HU => "HUN"@,
        Country::IS => "ISL"@,
        Country::IN => "IND"@,
        Country::ID => "IDN"@,
        Country::IR => "IRN"@,
        Country::IQ => "IRQ"@,
        Country::IE => "IRL"@,
        Country::IL => "ISR"@,
        Country::IT => "ITA"@,
        Country::CI => "CIV"@,
        Country::JM => "JAM"@,
        Country::JP => "JPN"@,
        Country::KZ => "KAZ"@,
        Country::JO => "JOR"@,
        Country::KE => "KEN"@,
        Country::KP => "PRK"@,
        Country::KR => "KOR"@,
        Country::KW => "KWT"@,
        Country::KG => "KGZ"@,
        Country::LA => "LAO"@,
        Country::LB => "LBN"@,
        Country::LS => "LSO"@,
        Country::LV => "LVA"@,
        Country::LR => "LBR"@,
        Country::LY => "LBY"@,
        Country::LI => "LIE"@,
        Country::LT => "LTU"@,
        Country::LU => "LUX"@,
        Country::MO => "MAC"@,
        Country::MG => "MDG"@,
        Country::MW => "MWI"@,
        Country::MY => "MYS"@,
        Country::MV => "MDV"@,
        Country::ML => "MLI"@,
        Country::MT => "MLT"@,
        Country::MQ => "MTQ"@,
        Country::MR => "MRT"@,
        Country::MU => "MUS"@,
        Country::MX => "MEX"@,
        Country::MC => "MCO"@,
        Country::MN => "MNG"@,
        Country::MD => "MDA"@,
        Country::ME => "MNE"@,
        Country::MS => "MSR"@,
        Country::MA => "MAR"@,
        Country::MZ => "MOZ"@,
        Country::OM => "OMN"@,
        Country::NA => "NAM"@,
        Country::NR => "NRU"@,
        Country::NP => "NPL"@,
        Country::NL => "NLD"@,
        Country::CW => "CUW"@,
        Country::AW => "ABW"@,
        Country::SX => "SXM"@,
        Country::BQ => "BES"@,
        Country::NC => "NCL"@,
        Country::VU => "VUT"@,
        Country::NZ => "NZL"@,
        Country::NI => "NIC"@,
        Country::NE => "NER"@,
        Country::NG => "NGA"@,
        Country::NU => "NIU"@,
        Country::NF => "NFK"@,
        Country::NO => "NOR"@,
        Country::MP => "MNP"@,
        Country::UM => "UMI"@,
        Country::FM => "FSM"@,
        Country::MH => "MHL"@,
        Country::PW => "PLW"@,
        Country::PK => "PAK"@,
        Country::PA => "PAN"@,
        Country::PG => "PNG"@,
        Country::PY => "PRY"@,
        Country::PE => "PER"@,
        Country::PH => "PHL"@,
        Country::PN => "PCN"@,
        Country::PL => "POL"@,
        Country::PT => "PRT"@,
        Country::GW => "GNB"@,
        Country::TL => "TLS"@,
        Country::PR => "PRI"@,
        Country::QA => "QAT"@,
        Country::RE => "REU"@,
        Country::RO => "ROU"@,
        Country::RU => "RUS"@,
        Country::RW => "RWA"@,
        Country::BL => "BLM"@,
        Country::SH => "SHN"@,
        Country::KN => "KNA"@,
        Country::AI => "AIA"@,
        Country::LC => "LCA"@,
        Country::MF => "MAF"@,
        Country::PM => "SPM"@,
        Country::VC => "VCT"@,
        Country::SM => "SMR"@,
        Country::ST => "STP"@,
        Country::SA => "SAU"@,
        Country::SN => "SEN"@,
        Country::RS => "SRB"@,
        Country::SC => "SYC"@,
        Country::SL => "SLE"@,
        Country::SG => "SGP"@,
        Country::SK => "SVK"@,
        Country::VN => "VNM"@,
        Country::SI => "SVN"@,
        Country::SO => "SOM"@,
        Country::ZA => "ZAF"@,
        Country::ZW => "ZWE"@,
        Country::ES => "ESP"@,
        Country::SS => "SSD"@,
        Country::SD => "SDN"@,
        Country::EH => "ESH"@,
        Country::SR => "SUR"@,
        Country::SJ => "SJM"@,
        Country::SZ => "SWZ"@,
        Country::SE => "SWE"@,
        Country::CH => "CHE"@,
        Country::SY => "SYR"@,
        Country::TJ => "TJK"@,
        Country::TH => "THA"@,
        Country::TG => "TGO"@,
        Country::TK => "TKL"@,
        Country::TO => "TON"@,
        Country::TT => "TTO"@,
        Country::AE => "ARE"@,
        Country::TN => "TUN"@,
        Country::TR => "TUR"@,
        Country::TM => "TKM"@,
        Country::TC => "TCA"@,
        Country::TV => "TUV"@,
        Country::UG => "UGA"@,
        Country::UA => "UKR"@,
        Country::MK => "MKD"@,
        Country::EG => "EGY"@,
        Country::GB => "GBR"@,
        Country::GG => "GGY"@,
        Country::JE => "JEY"@,
        Country::IM => "IMN"@,
        Country::TZ => "TZA"@,
        Country::US => "USA"@,
        Country::VI => "VIR"@,
        Country::BF => "BFA"@,
        Country::UY => "URY"@,
        Country::UZ => "UZB"@,
        Country::VE => "VEN"@,
        Country::WF => "WLF"@,
        Country::WS => "WSM"@,
        Country::YE => "YEM"@,
        Country::ZM => "ZMB"@,
    }
}

/// The canonical English short name of `c`; the sentinel has the empty name.
pub open spec fn spec_name(c: Country) -> Seq<char> {
    match c {
        Country::Unspecified => ""@,
        Country::AF => "Afghanistan"@,
        Country::AL => "Albania"@,
        Country::AQ => "Antarctica"@,
        Country::DZ => "Algeria"@,
        Country::AS => "American Samoa"@,
        Country::AD => "Andorra"@,
        Country::AO => "Angola"@,
        Country::AG => "Antigua and Barbuda"@,
        Country::AZ => "Azerbaijan"@,
        Country::AR => "Argentina"@,
        Country::AU => "Australia"@,
        Country::AT => "Austria"@,
        Country::BS => "Bahamas"@,
        Country::BH => "Bahrain"@,
        Country::BD => "Bangladesh"@,
        Country::AM => "Armenia"@,
        Country::BB => "Barbados"@,
        Country::BE => "Belgium"@,
        Country::BM => "Bermuda"@,
        Country::BT => "Bhutan"@,
        Country::BO => "Bolivia (Plurinational State of)"@,
        Country::BA => "Bosnia and Herzegovina"@,
        Country::BW => "Botswana"@,
        Country::BV => "Bouvet Island"@,
        Country::BR => "Brazil"@,
        Country::BZ => "Belize"@,
        Country::IO => "British Indian Ocean Territory"@,
        Country::SB => "Solomon Islands"@,
        Country::VG => "Virgin Islands (British)"@,
        Country::BN => "Brunei Darussalam"@,
        Country::BG => "Bulgaria"@,
        Country::MM => "Myanmar"@,
        Country::BI => "Burundi"@,
        Country::BY => "Belarus"@,
        Country::KH => "Cambodia"@,
        Country::CM => "Cameroon"@,
        Country::CA => "Canada"@,
        Country::CV => "Cabo Verde"@,
        Country::KY => "Cayman Islands"@,
        Country::CF => "Central African Republic"@,
        Country::LK => "Sri Lanka"@,
        Country::TD => "Chad"@,
        Country::CL => "Chile"@,
        Country::CN => "China"@,
        Country::TW => "Taiwan, Province of China[a]"@,
        Country::CX => "Christmas Island"@,
        Country::CC => "Cocos (Keeling) Islands"@,
        Country::CO => "Colombia"@,
        Country::KM => "Comoros"@,
        Country::YT => "Mayotte"@,
        Country::CG => "Congo"@,
        Country::CD => "Congo (Democratic Republic of the)"@,
        Country::CK => "Cook Islands"@,
        Country::CR => "Costa Rica"@,
        Country::HR => "Croatia"@,
        Country::CU => "Cuba"@,
        Country::CY => "Cyprus"@,
        Country::CZ => "Czech Republic"@,
        Country::BJ => "Benin"@,
        Country::DK => "Denmark"@,
        Country::DM => "Dominica"@,
        Country::DO => "Dominican Republic"@,
        Country::EC => "Ecuador"@,
        Country::SV => "El Salvador"@,
        Country::GQ => "Equatorial Guinea"@,
        Country::ET => "Ethiopia"@,
        Country::ER => "Eritrea"@,
        Country::EE => "Estonia"@,
        Country::FO => "Faroe Islands"@,
        Country::FK => "Falkland Islands"@,
        Country::GS => "South Georgia and the South Sandwich Islands"@,
        Country::FJ => "Fiji"@,
        Country::FI => "Finland"@,
        Country::AX => "Åland Islands"@,
        Country::FR => "France"@,
        Country::GF => "French Guiana"@,
        Country::PF => "French Polynesia"@,
        Country::TF => "French Southern Territories"@,
        Country::DJ => "Djibouti"@,
        Country::GA => "Gabon"@,
        Country::GE => "Georgia"@,
        Country::GM => "Gambia"@,
        Country::PS => "Palestine, State of"@,
        Country::DE => "Germany"@,
        Country::GH => "Ghana"@,
        Country::GI => "Gibraltar"@,
        Country::KI => "Kiribati"@,
        Country::GR => "Greece"@,
        Country::GL => "Greenland"@,
        Country::GD => "Grenada"@,
        Country::GP => "Guadeloupe"@,
        Country::GU => "Guam"@,
        Country::GT => "Guatemala"@,
        Country::GN => "Guinea"@,
        Country::GY => "Guyana"@,
        Country::HT => "Haiti"@,
        Country::HM => "Heard Island and McDonald Islands"@,
        Country::VA => "Holy See"@,
        Country::HN => "Honduras"@,
        Country::HK => "Hong Kong"@,
        Country::HU => "Hungary"@,
        Country::IS => "Iceland"@,
        Country::IN => "India"@,
        Country::ID => "Indonesia"@,
        Country::IR => "Iran (Islamic Republic of)"@,
        Country::IQ => "Iraq"@,
        Country::IE => "Ireland"@,
        Country::IL => "Israel"@,
        Country::IT => "Italy"@,
        Country::CI => "Côte d'Ivoire"@,
        Country::JM => "Jamaica"@,
        Country::JP => "Japan"@,
        Country::KZ => "Kazakhstan"@,
        Country::JO => "Jordan"@,
        Country::KE => "Kenya"@,
        Country::KP => "Korea (Democratic People's Republic of)"@,
        Country::KR => "Korea (Republic of)"@,
        Country::KW => "Kuwait"@,
        Country::KG => "Kyrgyzstan"@,
        Country::LA => "Lao People's Democratic Republic"@,
        Country::LB => "Lebanon"@,
        Country::LS => "Lesotho"@,
        Country::LV => "Latvia"@,
        Country::LR => "Liberia"@,
        Country::LY => "Libya"@,
        Country::LI => "Liechtenstein"@,
        Country::LT => "Lithuania"@,
        Country::LU => "Luxembourg"@,
        Country::MO => "Macao"@,
        Country::MG => "Madagascar"@,
        Country::MW => "Malawi"@,
        Country::MY => "Malaysia"@,
        Country::MV => "Maldives"@,
        Country::ML => "Mali"@,
        Country::MT => "Malta"@,
        Country::MQ => "Martinique"@,
        Country::MR => "Mauritania"@,
        Country::MU => "Mauritius"@,
        Country::MX => "Mexico"@,
        Country::MC => "Monaco"@,
        Country::MN => "Mongolia"@,
        Country::MD => "Moldova (Republic of)"@,
        Country::ME => "Montenegro"@,
        Country::MS => "Montserrat"@,
        Country::MA => "Morocco"@,
        Country::MZ => "Mozambique"@,
        Country::OM => "Oman"@,
        Country::NA => "Namibia"@,
        Country::NR => "Nauru"@,
        Country::NP => "Nepal"@,
        Country::NL => "Netherlands"@,
        Country::CW => "Curaçao"@,
        Country::AW => "Aruba"@,
        Country::SX => "Sint Maarten (Dutch part)"@,
        Country::BQ => "Bonaire, Sint Eustatius and Saba"@,
        Country::NC => "New Caledonia"@,
        Country::VU => "Vanuatu"@,
        Country::NZ => "New Zealand"@,
        Country::NI => "Nicaragua"@,
        Country::NE => "Niger"@,
        Country::NG => "Nigeria"@,
        Country::NU => "Niue"@,
        Country::NF => "Norfolk Island"@,
        Country::NO => "Norway"@,
        Country::MP => "Northern Mariana Islands"@,
        Country::UM => "United States Minor Outlying Islands"@,
        Country::FM => "Micronesia (Federated States of)"@,
        Country::MH => "Marshall Islands"@,
        Country::PW => "Palau"@,
        Country::PK => "Pakistan"@,
        Country::PA => "Panama"@,
        Country::PG => "Papua New Guinea"@,
        Country::PY => "Paraguay"@,
        Country::PE => "Peru"@,
        Country::PH => "Philippines"@,
        Country::PN => "Pitcairn"@,
        Country::PL => "Poland"@,
        Country::PT => "Portugal"@,
        Country::GW => "Guinea-Bissau"@,
        Country::TL => "Timor-Leste"@,
        Country::PR => "Puerto Rico"@,
        Country::QA => "Qatar"@,
        Country::RE => "Réunion"@,
        Country::RO => "Romania"@,
        Country::RU => "Russian Federation"@,
        Country::RW => "Rwanda"@,
        Country::BL => "Saint Barthélemy"@,
        Country::SH => "Saint Helena, Ascension and Tristan da Cunha"@,
        Country::KN => "Saint Kitts and Nevis"@,
        Country::AI => "Anguilla"@,
        Country::LC => "Saint Lucia"@,
        Country::MF => "Saint Martin (French part)"@,
        Country::PM => "Saint Pierre and Miquelon"@,
        Country::VC => "Saint Vincent and the Grenadines"@,
        Country::SM => "San Marino"@,
        Country::ST => "Sao Tome and Principe"@,
        Country::SA => "Saudi Arabia"@,
        Country::SN => "Senegal"@,
        Country::RS => "Serbia"@,
        Country::SC => "Seychelles"@,
        Country::SL => "Sierra Leone"@,
        Country::SG => "Singapore"@,
        Country::SK => "Slovakia"@,
        Country::VN => "Viet Nam"@,
        Country::SI => "Slovenia"@,
        Country::SO => "Somalia"@,
        Country::ZA => "South Africa"@,
        Country::ZW => "Zimbabwe"@,
        Country::ES => "Spain"@,
        Country::SS => "South Sudan"@,
        Country::SD => "Sudan"@,
        Country::EH => "Western Sahara"@,
        Country::SR => "Suriname"@,
        Country::SJ => "Svalbard and Jan Mayen"@,
        Country::SZ => "Swaziland"@,
        Country::SE => "Sweden"@,
        Country::CH => "Switzerland"@,
        Country::SY => "Syrian Arab Republic"@,
        Country::TJ => "Tajikistan"@,
        Country::TH => "Thailand"@,
        Country::TG => "Togo"@,
        Country::TK => "Tokelau"@,
        Country::TO => "Tonga"@,
        Country::TT => "Trinidad and Tobago"@,
        Country::AE => "United Arab Emirates"@,
        Country::TN => "Tunisia"@,
        Country::TR => "Turkey"@,
        Country::TM => "Turkmenistan"@,
        Country::TC => "Turks and Caicos Islands"@,
        Country::TV => "Tuvalu"@,
        Country::UG => "Uganda"@,
        Country::UA => "Ukraine"@,
        Country::MK => "Macedonia (the former Yugoslav Republic of)"@,
        Country::EG => "Egypt"@,
        Country::GB => "United Kingdom of Great Britain and Northern Ireland"@,
        Country::GG => "Guernsey"@,
        Country::JE => "Jersey"@,
        Country::IM => "Isle of Man"@,
        Country::TZ => "Tanzania, United Republic of"@,
        Country::US => "United States of America"@,
        Country::VI => "Virgin Islands (U.S.)"@,
        Country::BF => "Burkina Faso"@,
        Country::UY => "Uruguay"@,
        Country::UZ => "Uzbekistan"@,
        Country::VE => "Venezuela (Bolivarian Republic of)"@,
        Country::WF => "Wallis and Futuna"@,
        Country::WS => "Samoa"@,
        Country::YE => "Yemen"@,
        Country::ZM => "Zambia"@,
    }
}

/// The numeric code of `c`; the sentinel has numeric code 0.
pub open spec fn spec_numeric(c: Country) -> int {
    match c {
        Country::Unspecified => 0,
        Country::AF => 4,
        Country::AL => 8,
        Country::AQ => 10,
        Country::DZ => 12,
        Country::AS => 16,
        Country::AD => 20,
        Country::AO => 24,
        Country::AG => 28,
        Country::AZ => 31,
        Country::AR => 32,
        Country::AU => 36,
        Country::AT => 40,
        Country::BS => 44,
        Country::BH => 48,
        Country::BD => 50,
        Country::AM => 51,
        Country::BB => 52,
        Country::BE => 56,
        Country::BM => 60,
        Country::BT => 64,
        Country::BO => 68,
        Country::BA => 70,
        Country::BW => 72,
        Country::BV => 74,
        Country::BR => 76,
        Country::BZ => 84,
        Country::IO => 86,
        Country::SB => 90,
        Country::VG => 92,
        Country::BN => 96,
        Country::BG => 100,
        Country::MM => 104,
        Country::BI => 108,
        Country::BY => 112,
        Country::KH => 116,
        Country::CM => 120,
        Country::CA => 124,
        Country::CV => 132,
        Country::KY => 136,
        Country::CF => 140,
        Country::LK => 144,
        Country::TD => 148,
        Country::CL => 152,
        Country::CN => 156,
        Country::TW => 158,
        Country::CX => 162,
        Country::CC => 166,
        Country::CO => 170,
        Country::KM => 174,
        Country::YT => 175,
        Country::CG => 178,
        Country::CD => 180,
        Country::CK => 184,
        Country::CR => 188,
        Country::HR => 191,
        Country::CU => 192,
        Country::CY => 196,
        Country::CZ => 203,
        Country::BJ => 204,
        Country::DK => 208,
        Country::DM => 212,
        Country::DO => 214,
        Country::EC => 218,
        Country::SV => 222,
        Country::GQ => 226,
        Country::ET => 231,
        Country::ER => 232,
        Country::EE => 233,
        Country::FO => 234,
        Country::FK => 238,
        Country::GS => 239,
        Country::FJ => 242,
        Country::FI => 246,
        Country::AX => 248,
        Country::FR => 250,
        Country::GF => 254,
        Country::PF => 258,
        Country::TF => 260,
        Country::DJ => 262,
        Country::GA => 266,
        Country::GE => 268,
        Country::GM => 270,
        Country::PS => 275,
        Country::DE => 276,
        Country::GH => 288,
        Country::GI => 292,
        Country::KI => 296,
        Country::GR => 300,
        Country::GL => 304,
        Country::GD => 308,
        Country::GP => 312,
        Country::GU => 316,
        Country::GT => 320,
        Country::GN => 324,
        Country::GY => 328,
        Country::HT => 332,
        Country::HM => 334,
        Country::VA => 336,
        Country::HN => 340,
        Country::HK => 344,
        Country::HU => 348,
        Country::IS => 352,
        Country::IN => 356,
        Country::ID => 360,
        Country::IR => 364,
        Country::IQ => 368,
        Country::IE => 372,
        Country::IL => 376,
        Country::IT => 380,
        Country::CI => 384,
        Country::JM => 388,
        Country::JP => 392,
        Country::KZ => 398,
        Country::JO => 400,
        Country::KE => 404,
        Country::KP => 408,
        Country::KR => 410,
        Country::KW => 414,
        Country::KG => 417,
        Country::LA => 418,
        Country::LB => 422,
        Country::LS => 426,
        Country::LV => 428,
        Country::LR => 430,
        Country::LY => 434,
        Country::LI => 438,
        Country::LT => 440,
        Country::LU => 442,
        Country::MO => 446,
        Country::MG => 450,
        Country::MW => 454,
        Country::MY => 458,
        Country::MV => 462,
        Country::ML => 466,
        Country::MT => 470,
        Country::MQ => 474,
        Country::MR => 478,
        Country::MU => 480,
        Country::MX => 484,
        Country::MC => 492,
        Country::MN => 496,
        Country::MD => 498,
        Country::ME => 499,
        Country::MS => 500,
        Country::MA => 504,
        Country::MZ => 508,
        Country::OM => 512,
        Country::NA => 516,
        Country::NR => 520,
        Country::NP => 524,
        Country::NL => 528,
        Country::CW => 531,
        Country::AW => 533,
        Country::SX => 534,
        Country::BQ => 535,
        Country::NC => 540,
        Country::VU => 548,
        Country::NZ => 554,
        Country::NI => 558,
        Country::NE => 562,
        Country::NG => 566,
        Country::NU => 570,
        Country::NF => 574,
        Country::NO => 578,
        Country::MP => 580,
        Country::UM => 581,
        Country::FM => 583,
        Country::MH => 584,
        Country::PW => 585,
        Country::PK => 586,
        Country::PA => 591,
        Country::PG => 598,
        Country::PY => 600,
        Country::PE => 604,
        Country::PH => 608,
        Country::PN => 612,
        Country::PL => 616,
        Country::PT => 620,
        Country::GW => 624,
        Country::TL => 626,
        Country::PR => 630,
        Country::QA => 634,
        Country::RE => 638,
        Country::RO => 642,
        Country::RU => 643,
        Country::RW => 646,
        Country::BL => 652,
        Country::SH => 654,
        Country::KN => 659,
        Country::AI => 660,
        Country::LC => 662,
        Country::MF => 663,
        Country::PM => 666,
        Country::VC => 670,
        Country::SM => 674,
        Country::ST => 678,
        Country::SA => 682,
        Country::SN => 686,
        Country::RS => 688,
        Country::SC => 690,
        Country::SL => 694,
        Country::SG => 702,
        Country::SK => 703,
        Country::VN => 704,
        Country::SI => 705,
        Country::SO => 706,
        Country::ZA => 710,
        Country::ZW => 716,
        Country::ES => 724,
        Country::SS => 728,
        Country::SD => 729,
        Country::EH => 732,
        Country::SR => 740,
        Country::SJ => 744,
        Country::SZ => 748,
        Country::SE => 752,
        Country::CH => 756,
        Country::SY => 760,
        Country::TJ => 762,
        Country::TH => 764,
        Country::TG => 768,
        Country::TK => 772,
        Country::TO => 776,
        Country::TT => 780,
        Country::AE => 784,
        Country::TN => 788,
        Country::TR => 792,
        Country::TM => 795,
        Country::TC => 796,
        Country::TV => 798,
        Country::UG => 800,
        Country::UA => 804,
        Country::MK => 807,
        Country::EG => 818,
        Country::GB => 826,
        Country::GG => 831,
        Country::JE => 832,
        Country::IM => 833,
        Country::TZ => 834,
        Country::US => 840,
        Country::VI => 850,
        Country::BF => 854,
        Country::UY => 858,
        Country::UZ => 860,
        Country::VE => 862,
        Country::WF => 876,
        Country::WS => 882,
        Country::YE => 887,
        Country::ZM => 894,
    }
}

/// The canonical textual form of `c`: its alpha-2 code, so that parsing
/// the displayed form yields `c` again; the sentinel displays as the
/// empty string.
pub open spec fn spec_display(c: Country) -> Seq<char> {
    spec_alpha2(c)
}

impl Country {
    /// The two-letter code of this country; empty for `Unspecified`.
    pub fn alpha2(self) -> (r: &'static str)
        ensures
            r@ == spec_alpha2(self),
    {
        match self {
            Country::Unspecified => "",
            Country::AF => "AF",
            Country::AL => "AL",
            Country::AQ => "AQ",
            Country::DZ => "DZ",
            Country::AS => "AS",
            Country::AD => "AD",
            Country::AO => "AO",
            Country::AG => "AG",
            Country::AZ => "AZ",
            Country::AR => "AR",
            Country::AU => "AU",
            Country::AT => "AT",
            Country::BS => "BS",
            Country::BH => "BH",
            Country::BD => "BD",
            Country::AM => "AM",
            Country::BB => "BB",
            Country::BE => "BE",
            Country::BM => "BM",
            Country::BT => "BT",
            Country::BO => "BO",
            Country::BA => "BA",
            Country::BW => "BW",
            Country::BV => "BV",
            Country::BR => "BR",
            Country::BZ => "BZ",
            Country::IO => "IO",
            Country::SB => "SB",
            Country::VG => "VG",
            Country::BN => "BN",
            Country::BG => "BG",
            Country::MM => "MM",
            Country::BI => "BI",
            Country::BY => "BY",
            Country::KH => "KH",
            Country::CM => "CM",
            Country::CA => "CA",
            Country::CV => "CV",
            Country::KY => "KY",
            Country::CF => "CF",
            Country::LK => "LK",
            Country::TD => "TD",
            Country::CL => "CL",
            Country::CN => "CN",
            Country::TW => "TW",
            Country::CX => "CX",
            Country::CC => "CC",
            Country::CO => "CO",
            Country::KM => "KM",
            Country::YT => "YT",
            Country::CG => "CG",
            Country::CD => "CD",
            Country::CK => "CK",
            Country::CR => "CR",
            Country::HR => "HR",
            Country::CU => "CU",
            Country::CY => "CY",
            Country::CZ => "CZ",
            Country::BJ => "BJ",
            Country::DK => "DK",
            Country::DM => "DM",
            Country::DO => "DO",
            Country::EC => "EC",
            Country::SV => "SV",
            Country::GQ => "GQ",
            Country::ET => "ET",
            Country::ER => "ER",
            Country::EE => "EE",
            Country::FO => "FO",
            Country::FK => "FK",
            Country::GS => "GS",
            Country::FJ => "FJ",
            Country::FI => "FI",
            Country::AX => "AX",
            Country::FR => "FR",
            Country::GF => "GF",
            Country::PF => "PF",
            Country::TF => "TF",
            Country::DJ => "DJ",
            Country::GA => "GA",
            Country::GE => "GE",
            Country::GM => "GM",
            Country::PS => "PS",
            Country::DE => "DE",
            Country::GH => "GH",
            Country::GI => "GI",
            Country::KI => "KI",
            Country::GR => "GR",
            Country::GL => "GL",
            Country::GD => "GD",
            Country::GP => "GP",
            Country::GU => "GU",
            Country::GT => "GT",
            Country::GN => "GN",
            Country::GY => "GY",
            Country::HT => "HT",
            Country::HM => "HM",
            Country::VA => "VA",
            Country::HN => "HN",
            Country::HK => "HK",
            Country::HU => "HU",
            Country::IS => "IS",
            Country::IN => "IN",
            Country::ID => "ID",
            Country::IR => "IR",
            Country::IQ => "IQ",
            Country::IE => "IE",
            Country::IL => "IL",
            Country::IT => "IT",
            Country::CI => "CI",
            Country::JM => "JM",
            Country::JP => "JP",
            Country::KZ => "KZ",
            Country::JO => "JO",
            Country::KE => "KE",
            Country::KP => "KP",
            Country::KR => "KR",
            Country::KW => "KW",
            Country::KG => "KG",
            Country::LA => "LA",
            Country::LB => "LB",
            Country::LS => "LS",
            Country::LV => "LV",
            Country::LR => "LR",
            Country::LY => "LY",
            Country::LI => "LI",
            Country::LT => "LT",
            Country::LU => "LU",
            Country::MO => "MO",
            Country::MG => "MG",
            Country::MW => "MW",
            Country::MY => "MY",
            Country::MV => "MV",
            Country::ML => "ML",
            Country::MT => "MT",
            Country::MQ => "MQ",
            Country::MR => "MR",
            Country::MU => "MU",
            Country::MX => "MX",
            Country::MC => "MC",
            Country::MN => "MN",
            Country::MD => "MD",
            Country::ME => "ME",
            Country::MS => "MS",
            Country::MA => "MA",
            Country::MZ => "MZ",
            Country::OM => "OM",
            Country::NA => "NA",
            Country::NR => "NR",
            Country::NP => "NP",
            Country::NL => "NL",
            Country::CW => "CW",
            Country::AW => "AW",
            Country::SX => "SX",
            Country::BQ => "BQ",
            Country::NC => "NC",
            Country::VU => "VU",
            Country::NZ => "NZ",
            Country::NI => "NI",
            Country::NE => "NE",
            Country::NG => "NG",
            Country::NU => "NU",
            Country::NF => "NF",
            Country::NO => "NO",
            Country::MP => "MP",
            Country::UM => "UM",
            Country::FM => "FM",
            Country::MH => "MH",
            Country::PW => "PW",
            Country::PK => "PK",
            Country::PA => "PA",
            Country::PG => "PG",
            Country::PY => "PY",
            Country::PE => "PE",
            Country::PH => "PH",
            Country::PN => "PN",
            Country::PL => "PL",
            Country::PT => "PT",
            Country::GW => "GW",
            Country::TL => "TL",
            Country::PR => "PR",
            Country::QA => "QA",
            Country::RE => "RE",
            Country::RO => "RO",
            Country::RU => "RU",
            Country::RW => "RW",
            Country::BL => "BL",
            Country::SH => "SH",
            Country::KN => "KN",
            Country::AI => "AI",
            Country::LC => "LC",
            Country::MF => "MF",
            Country::PM => "PM",
            Country::VC => "VC",
            Country::SM => "SM",
            Country::ST => "ST",
            Country::SA => "SA",
            Country::SN => "SN",
            Country::RS => "RS",
            Country::SC => "SC",
            Country::SL => "SL",
            Country::SG => "SG",
            Country::SK => "SK",
            Country::VN => "VN",
            Country::SI => "SI",
            Country::SO => "SO",
            Country::ZA => "ZA",
            Country::ZW => "ZW",
            Country::ES => "ES",
            Country::SS => "SS",
            Country::SD => "SD",
            Country::EH => "EH",
            Country::SR => "SR",
            Country::SJ => "SJ",
            Country::SZ => "SZ",
            Country::SE => "SE",
            Country::CH => "CH",
            Country::SY => "SY",
            Country::TJ => "TJ",
            Country::TH => "TH",
            Country::TG => "TG",
            Country::TK => "TK",
            Country::TO => "TO",
            Country::TT => "TT",
            Country::AE => "AE",
            Country::TN => "TN",
            Country::TR => "TR",
            Country::TM => "TM",
            Country::TC => "TC",
            Country::TV => "TV",
            Country::UG => "UG",
            Country::UA => "UA",
            Country::MK => "MK",
            Country::EG => "EG",
            Country::GB => "GB",
            Country::GG => "GG",
            Country::JE => "JE",
            Country::IM => "IM",
            Country::TZ => "TZ",
            Country::US => "US",
            Country::VI => "VI",
            Country::BF => "BF",
            Country::UY => "UY",
            Country::UZ => "UZ",
            Country::VE => "VE",
            Country::WF => "WF",
            Country::WS => "WS",
            Country::YE => "YE",
            Country::ZM => "ZM",
        }
    }

    /// The three-letter code of this country; empty for `Unspecified`.
    pub fn alpha3(self) -> (r: &'static str)
        ensures
            r@ == spec_alpha3(self),
    {
        match self {
            Country::Unspecified => "",
            Country::AF => "AFG",
            Country::AL => "ALB",
            Country::AQ => "ATA",
            Country::DZ => "DZA",
            Country::AS => "ASM",
            Country::AD => "AND",
            Country::AO => "AGO",
            Country::AG => "ATG",
            Country::AZ => "AZE",
            Country::AR => "ARG",
            Country::AU => "AUS",
            Country::AT => "AUT",
            Country::BS => "BHS",
            Country::BH => "BHR",
            Country::BD => "BGD",
            Country::AM => "ARM",
            Country::BB => "BRB",
            Country::BE => "BEL",
            Country::BM => "BMU",
            Country::BT => "BTN",
            Country::BO => "BOL",
            Country::BA => "BIH",
            Country::BW => "BWA",
            Country::BV => "BVT",
            Country::BR => "BRA",
            Country::BZ => "BLZ",
            Country::IO => "IOT",
            Country::SB => "SLB",
            Country::VG => "VGB",
            Country::BN => "BRN",
            Country::BG => "BGR",
            Country::MM => "MMR",
            Country::BI => "BDI",
            Country::BY => "BLR",
            Country::KH => "KHM",
            Country::CM => "CMR",
            Country::CA => "CAN",
            Country::CV => "CPV",
            Country::KY => "CYM",
            Country::CF => "CAF",
            Country::LK => "LKA",
            Country::TD => "TCD",
            Country::CL => "CHL",
            Country::CN => "CHN",
            Country::TW => "TWN",
            Country::CX => "CXR",
            Country::CC => "CCK",
            Country::CO => "COL",
            Country::KM => "COM",
            Country::YT => "MYT",
            Country::CG => "COG",
            Country::CD => "COD",
            Country::CK => "COK",
            Country::CR => "CRI",
            Country::HR => "HRV",
            Country::CU => "CUB",
            Country::CY => "CYP",
            Country::CZ => "CZE",
            Country::BJ => "BEN",
            Country::DK => "DNK",
            Country::DM => "DMA",
            Country::DO => "DOM",
            Country::EC => "ECU",
            Country::SV => "SLV",
            Country::GQ => "GNQ",
            Country::ET => "ETH",
            Country::ER => "ERI",
            Country::EE => "EST",
            Country::FO => "FRO",
            Country::FK => "FLK",
            Country::GS => "SGS",
            Country::FJ => "FJI",
            Country::FI => "FIN",
            Country::AX => "ALA",
            Country::FR => "FRA",
            Country::GF => "GUF",
            Country::PF => "PYF",
            Country::TF => "ATF",
            Country::DJ => "DJI",
            Country::GA => "GAB",
            Country::GE => "GEO",
            Country::GM => "GMB",
            Country::PS => "PSE",
            Country::DE => "DEU",
            Country::GH => "GHA",
            Country::GI => "GIB",
            Country::KI => "KIR",
            Country::GR => "GRC",
            Country::GL => "GRL",
            Country::GD => "GRD",
            Country::GP => "GLP",
            Country::GU => "GUM",
            Country::GT => "GTM",
            Country::GN => "GIN",
            Country::GY => "GUY",
            Country::HT => "HTI",
            Country::HM => "HMD",
            Country::VA => "VAT",
            Country::HN => "HND",
            Country::HK => "HKG",
            Country::HU => "HUN",
            Country::IS => "ISL",
            Country::IN => "IND",
            Country::ID => "IDN",
            Country::IR => "IRN",
            Country::IQ => "IRQ",
            Country::IE => "IRL",
            Country::IL => "ISR",
            Country::IT => "ITA",
            Country::CI => "CIV",
            Country::JM => "JAM",
            Country::JP => "JPN",
            Country::KZ => "KAZ",
            Country::JO => "JOR",
            Country::KE => "KEN",
            Country::KP => "PRK",
            Country::KR => "KOR",
            Country::KW => "KWT",
            Country::KG => "KGZ",
            Country::LA => "LAO",
            Country::LB => "LBN",
            Country::LS => "LSO",
            Country::LV => "LVA",
            Country::LR => "LBR",
            Country::LY => "LBY",
            Country::LI => "LIE",
            Country::LT => "LTU",
            Country::LU => "LUX",
            Country::MO => "MAC",
            Country::MG => "MDG",
            Country::MW => "MWI",
            Country::MY => "MYS",
            Country::MV => "MDV",
            Country::ML => "MLI",
            Country::MT => "MLT",
            Country::MQ => "MTQ",
            Country::MR => "MRT",
            Country::MU => "MUS",
            Country::MX => "MEX",
            Country::MC => "MCO",
            Country::MN => "MNG",
            Country::MD => "MDA",
            Country::ME => "MNE",
            Country::MS => "MSR",
            Country::MA => "MAR",
            Country::MZ => "MOZ",
            Country::OM => "OMN",
            Country::NA => "NAM",
            Country::NR => "NRU",
            Country::NP => "NPL",
            Country::NL => "NLD",
            Country::CW => "CUW",
            Country::AW => "ABW",
            Country::SX => "SXM",
            Country::BQ => "BES",
            Country::NC => "NCL",
            Country::VU => "VUT",
            Country::NZ => "NZL",
            Country::NI => "NIC",
            Country::NE => "NER",
            Country::NG => "NGA",
            Country::NU => "NIU",
            Country::NF => "NFK",
            Country::NO => "NOR",
            Country::MP => "MNP",
            Country::UM => "UMI",
            Country::FM => "FSM",
            Country::MH => "MHL",
            Country::PW => "PLW",
            Country::PK => "PAK",
            Country::PA => "PAN",
            Country::PG => "PNG",
            Country::PY => "PRY",
            Country::PE => "PER",
            Country::PH => "PHL",
            Country::PN => "PCN",
            Country::PL => "POL",
            Country::PT => "PRT",
            Country::GW => "GNB",
            Country::TL => "TLS",
            Country::PR => "PRI",
            Country::QA => "QAT",
            Country::RE => "REU",
            Country::RO => "ROU",
            Country::RU => "RUS",
            Country::RW => "RWA",
            Country::BL => "BLM",
            Country::SH => "SHN",
            Country::KN => "KNA",
            Country::AI => "AIA",
            Country::LC => "LCA",
            Country::MF => "MAF",
            Country::PM => "SPM",
            Country::VC => "VCT",
            Country::SM => "SMR",
            Country::ST => "STP",
            Country::SA => "SAU",
            Country::SN => "SEN",
            Country::RS => "SRB",
            Country::SC => "SYC",
            Country::SL => "SLE",
            Country::SG => "SGP",
            Country::SK => "SVK",
            Country::VN => "VNM",
            Country::SI => "SVN",
            Country::SO => "SOM",
            Country::ZA => "ZAF",
            Country::ZW => "ZWE",
            Country::ES => "ESP",
            Country::SS => "SSD",
            Country::SD => "SDN",
            Country::EH => "ESH",
            Country::SR => "SUR",
            Country::SJ => "SJM",
            Country::SZ => "SWZ",
            Country::SE => "SWE",
            Country::CH => "CHE",
            Country::SY => "SYR",
            Country::TJ => "TJK",
            Country::TH => "THA",
            Country::TG => "TGO",
            Country::TK => "TKL",
            Country::TO => "TON",
            Country::TT => "TTO",
            Country::AE => "ARE",
            Country::TN => "TUN",
            Country::TR => "TUR",
            Country::TM => "TKM",
            Country::TC => "TCA",
            Country::TV => "TUV",
            Country::UG => "UGA",
            Country::UA => "UKR",
            Country::MK => "MKD",
            Country::EG => "EGY",
            Country::GB => "GBR",
            Country::GG => "GGY",
            Country::JE => "JEY",
            Country::IM => "IMN",
            Country::TZ => "TZA",
            Country::US => "USA",
            Country::VI => "VIR",
            Country::BF => "BFA",
            Country::UY => "URY",
            Country::UZ => "UZB",
            Country::VE => "VEN",
            Country::WF => "WLF",
            Country::WS => "WSM",
            Country::YE => "YEM",
            Country::ZM => "ZMB",
        }
    }

    /// The canonical English short name; empty for `Unspecified`.
    pub fn name(self) -> (r: &'static str)
        ensures
            r@ == spec_name(self),
    {
        match self {
            Country::Unspecified => "",
            Country::AF => "Afghanistan",
            Country::AL => "Albania",
            Country::AQ => "Antarctica",
            Country::DZ => "Algeria",
            Country::AS => "American Samoa",
            Country::AD => "Andorra",
            Country::AO => "Angola",
            Country::AG => "Antigua and Barbuda",
            Country::AZ => "Azerbaijan",
            Country::AR => "Argentina",
            Country::AU => "Australia",
            Country::AT => "Austria",
            Country::BS => "Bahamas",
            Country::BH => "Bahrain",
            Country::BD => "Bangladesh",
            Country::AM => "Armenia",
            Country::BB => "Barbados",
            Country::BE => "Belgium",
            Country::BM => "Bermuda",
            Country::BT => "Bhutan",
            Country::BO => "Bolivia (Plurinational State of)",
            Country::BA => "Bosnia and Herzegovina",
            Country::BW => "Botswana",
            Country::BV => "Bouvet Island",
            Country::BR => "Brazil",
            Country::BZ => "Belize",
            Country::IO => "British Indian Ocean Territory",
            Country::SB => "Solomon Islands",
            Country::VG => "Virgin Islands (British)",
            Country::BN => "Brunei Darussalam",
            Country::BG => "Bulgaria",
            Country::MM => "Myanmar",
            Country::BI => "Burundi",
            Country::BY => "Belarus",
            Country::KH => "Cambodia",
            Country::CM => "Cameroon",
            Country::CA => "Canada",
            Country::CV => "Cabo Verde",
            Country::KY => "Cayman Islands",
            Country::CF => "Central African Republic",
            Country::LK => "Sri Lanka",
            Country::TD => "Chad",
            Country::CL => "Chile",
            Country::CN => "China",
            Country::TW => "Taiwan, Province of China[a]",
            Country::CX => "Christmas Island",
            Country::CC => "Cocos (Keeling) Islands",
            Country::CO => "Colombia",
            Country::KM => "Comoros",
            Country::YT => "Mayotte",
            Country::CG => "Congo",
            Country::CD => "Congo (Democratic Republic of the)",
            Country::CK => "Cook Islands",
            Country::CR => "Costa Rica",
            Country::HR => "Croatia",
            Country::CU => "Cuba",
            Country::CY => "Cyprus",
            Country::CZ => "Czech Republic",
            Country::BJ => "Benin",
            Country::DK => "Denmark",
            Country::DM => "Dominica",
            Country::DO => "Dominican Republic",
            Country::EC => "Ecuador",
            Country::SV => "El Salvador",
            Country::GQ => "Equatorial Guinea",
            Country::ET => "Ethiopia",
            Country::ER => "Eritrea",
            Country::EE => "Estonia",
            Country::FO => "Faroe Islands",
            Country::FK => "Falkland Islands",
            Country::GS => "South Georgia and the South Sandwich Islands",
            Country::FJ => "Fiji",
            Country::FI => "Finland",
            Country::AX => "Åland Islands",
            Country::FR => "France",
            Country::GF => "French Guiana",
            Country::PF => "French Polynesia",
            Country::TF => "French Southern Territories",
            Country::DJ => "Djibouti",
            Country::GA => "Gabon",
            Country::GE => "Georgia",
            Country::GM => "Gambia",
            Country::PS => "Palestine, State of",
            Country::DE => "Germany",
            Country::GH => "Ghana",
            Country::GI => "Gibraltar",
            Country::KI => "Kiribati",
            Country::GR => "Greece",
            Country::GL => "Greenland",
            Country::GD => "Grenada",
            Country::GP => "Guadeloupe",
            Country::GU => "Guam",
            Country::GT => "Guatemala",
            Country::GN => "Guinea",
            Country::GY => "Guyana",
            Country::HT => "Haiti",
            Country::HM => "Heard Island and McDonald Islands",
            Country::VA => "Holy See",
            Country::HN => "Honduras",
            Country::HK => "Hong Kong",
            Country::HU => "Hungary",
            Country::IS => "Iceland",
            Country::IN => "India",
            Country::ID => "Indonesia",
            Country::IR => "Iran (Islamic Republic of)",
            Country::IQ => "Iraq",
            Country::IE => "Ireland",
            Country::IL => "Israel",
            Country::IT => "Italy",
            Country::CI => "Côte d'Ivoire",
            Country::JM => "Jamaica",
            Country::JP => "Japan",
            Country::KZ => "Kazakhstan",
            Country::JO => "Jordan",
            Country::KE => "Kenya",
            Country::KP => "Korea (Democratic People's Republic of)",
            Country::KR => "Korea (Republic of)",
            Country::KW => "Kuwait",
            Country::KG => "Kyrgyzstan",
            Country::LA => "Lao People's Democratic Republic",
            Country::LB => "Lebanon",
            Country::LS => "Lesotho",
            Country::LV => "Latvia",
            Country::LR => "Liberia",
            Country::LY => "Libya",
            Country::LI => "Liechtenstein",
            Country::LT => "Lithuania",
            Country::LU => "Luxembourg",
            Country::MO => "Macao",
            Country::MG => "Madagascar",
            Country::MW => "Malawi",
            Country::MY => "Malaysia",
            Country::MV => "Maldives",
            Country::ML => "Mali",
            Country::MT => "Malta",
            Country::MQ => "Martinique",
            Country::MR => "Mauritania",
            Country::MU => "Mauritius",
            Country::MX => "Mexico",
            Country::MC => "Monaco",
            Country::MN => "Mongolia",
            Country::MD => "Moldova (Republic of)",
            Country::ME => "Montenegro",
            Country::MS => "Montserrat",
            Country::MA => "Morocco",
            Country::MZ => "Mozambique",
            Country::OM => "Oman",
            Country::NA => "Namibia",
            Country::NR => "Nauru",
            Country::NP => "Nepal",
            Country::NL => "Netherlands",
            Country::CW => "Curaçao",
            Country::AW => "Aruba",
            Country::SX => "Sint Maarten (Dutch part)",
            Country::BQ => "Bonaire, Sint Eustatius and Saba",
            Country::NC => "New Caledonia",
            Country::VU => "Vanuatu",
            Country::NZ => "New Zealand",
            Country::NI => "Nicaragua",
            Country::NE => "Niger",
            Country::NG => "Nigeria",
            Country::NU => "Niue",
            Country::NF => "Norfolk Island",
            Country::NO => "Norway",
            Country::MP => "Northern Mariana Islands",
            Country::UM => "United States Minor Outlying Islands",
            Country::FM => "Micronesia (Federated States of)",
            Country::MH => "Marshall Islands",
            Country::PW => "Palau",
            Country::PK => "Pakistan",
            Country::PA => "Panama",
            Country::PG => "Papua New Guinea",
            Country::PY => "Paraguay",
            Country::PE => "Peru",
            Country::PH => "Philippines",
            Country::PN => "Pitcairn",
            Country::PL => "Poland",
            Country::PT => "Portugal",
            Country::GW => "Guinea-Bissau",
            Country::TL => "Timor-Leste",
            Country::PR => "Puerto Rico",
            Country::QA => "Qatar",
            Country::RE => "Réunion",
            Country::RO => "Romania",
            Country::RU => "Russian Federation",
            Country::RW => "Rwanda",
            Country::BL => "Saint Barthélemy",
            Country::SH => "Saint Helena, Ascension and Tristan da Cunha",
            Country::KN => "Saint Kitts and Nevis",
            Country::AI => "Anguilla",
            Country::LC => "Saint Lucia",
            Country::MF => "Saint Martin (French part)",
            Country::PM => "Saint Pierre and Miquelon",
            Country::VC => "Saint Vincent and the Grenadines",
            Country::SM => "San Marino",
            Country::ST => "Sao Tome and Principe",
            Country::SA => "Saudi Arabia",
            Country::SN => "Senegal",
            Country::RS => "Serbia",
            Country::SC => "Seychelles",
            Country::SL => "Sierra Leone",
            Country::SG => "Singapore",
            Country::SK => "Slovakia",
            Country::VN => "Viet Nam",
            Country::SI => "Slovenia",
            Country::SO => "Somalia",
            Country::ZA => "South Africa",
            Country::ZW => "Zimbabwe",
            Country::ES => "Spain",
            Country::SS => "South Sudan",
            Country::SD => "Sudan",
            Country::EH => "Western Sahara",
            Country::SR => "Suriname",
            Country::SJ => "Svalbard and Jan Mayen",
            Country::SZ => "Swaziland",
            Country::SE => "Sweden",
            Country::CH => "Switzerland",
            Country::SY => "Syrian Arab Republic",
            Country::TJ => "Tajikistan",
            Country::TH => "Thailand",
            Country::TG => "Togo",
            Country::TK => "Tokelau",
            Country::TO => "Tonga",
            Country::TT => "Trinidad and Tobago",
            Country::AE => "United Arab Emirates",
            Country::TN => "Tunisia",
            Country::TR => "Turkey",
            Country::TM => "Turkmenistan",
            Country::TC => "Turks and Caicos Islands",
            Country::TV => "Tuvalu",
            Country::UG => "Uganda",
            Country::UA => "Ukraine",
            Country::MK => "Macedonia (the former Yugoslav Republic of)",
            Country::EG => "Egypt",
            Country::GB => "United Kingdom of Great Britain and Northern Ireland",
            Country::GG => "Guernsey",
            Country::JE => "Jersey",
            Country::IM => "Isle of Man",
            Country::TZ => "Tanzania, United Republic of",
            Country::US => "United States of America",
            Country::VI => "Virgin Islands (U.S.)",
            Country::BF => "Burkina Faso",
            Country::UY => "Uruguay",
            Country::UZ => "Uzbekistan",
            Country::VE => "Venezuela (Bolivarian Republic of)",
            Country::WF => "Wallis and Futuna",
            Country::WS => "Samoa",
            Country::YE => "Yemen",
            Country::ZM => "Zambia",
        }
    }

    /// The numeric code; 0 for `Unspecified`.
    pub fn numeric(self) -> (r: u16)
        ensures
            r as int == spec_numeric(self),
    {
        match self {
            Country::Unspecified => 0,
            Country::AF => 4,
            Country::AL => 8,
            Country::AQ => 10,
            Country::DZ => 12,
            Country::AS => 16,
            Country::AD => 20,
            Country::AO => 24,
            Country::AG => 28,
            Country::AZ => 31,
            Country::AR => 32,
            Country::AU => 36,
            Country::AT => 40,
            Country::BS => 44,
            Country::BH => 48,
            Country::BD => 50,
            Country::AM => 51,
            Country::BB => 52,
            Country::BE => 56,
            Country::BM => 60,
            Country::BT => 64,
            Country::BO => 68,
            Country::BA => 70,
            Country::BW => 72,
            Country::BV => 74,
            Country::BR => 76,
            Country::BZ => 84,
            Country::IO => 86,
            Country::SB => 90,
            Country::VG => 92,
            Country::BN => 96,
            Country::BG => 100,
            Country::MM => 104,
            Country::BI => 108,
            Country::BY => 112,
            Country::KH => 116,
            Country::CM => 120,
            Country::CA => 124,
            Country::CV => 132,
            Country::KY => 136,
            Country::CF => 140,
            Country::LK => 144,
            Country::TD => 148,
            Country::CL => 152,
            Country::CN => 156,
            Country::TW => 158,
            Country::CX => 162,
            Country::CC => 166,
            Country::CO => 170,
            Country::KM => 174,
            Country::YT => 175,
            Country::CG => 178,
            Country::CD => 180,
            Country::CK => 184,
            Country::CR => 188,
            Country::HR => 191,
            Country::CU => 192,
            Country::CY => 196,
            Country::CZ => 203,
            Country::BJ => 204,
            Country::DK => 208,
            Country::DM => 212,
            Country::DO => 214,
            Country::EC => 218,
            Country::SV => 222,
            Country::GQ => 226,
            Country::ET => 231,
            Country::ER => 232,
            Country::EE => 233,
            Country::FO => 234,
            Country::FK => 238,
            Country::GS => 239,
            Country::FJ => 242,
            Country::FI => 246,
            Country::AX => 248,
            Country::FR => 250,
            Country::GF => 254,
            Country::PF => 258,
            Country::TF => 260,
            Country::DJ => 262,
            Country::GA => 266,
            Country::GE => 268,
            Country::GM => 270,
            Country::PS => 275,
            Country::DE => 276,
            Country::GH => 288,
            Country::GI => 292,
            Country::KI => 296,
            Country::GR => 300,
            Country::GL => 304,
            Country::GD => 308,
            Country::GP => 312,
            Country::GU => 316,
            Country::GT => 320,
            Country::GN => 324,
            Country::GY => 328,
            Country::HT => 332,
            Country::HM => 334,
            Country::VA => 336,
            Country::HN => 340,
            Country::HK => 344,
            Country::HU => 348,
            Country::IS => 352,
            Country::IN => 356,
            Country::ID => 360,
            Country::IR => 364,
            Country::IQ => 368,
            Country::IE => 372,
            Country::IL => 376,
            Country::IT => 380,
            Country::CI => 384,
            Country::JM => 388,
            Country::JP => 392,
            Country::KZ => 398,
            Country::JO => 400,
            Country::KE => 404,
            Country::KP => 408,
            Country::KR => 410,
            Country::KW => 414,
            Country::KG => 417,
            Country::LA => 418,
            Country::LB => 422,
            Country::LS => 426,
            Country::LV => 428,
            Country::LR => 430,
            Country::LY => 434,
            Country::LI => 438,
            Country::LT => 440,
            Country::LU => 442,
            Country::MO => 446,
            Country::MG => 450,
            Country::MW => 454,
            Country::MY => 458,
            Country::MV => 462,
            Country::ML => 466,
            Country::MT => 470,
            Country::MQ => 474,
            Country::MR => 478,
            Country::MU => 480,
            Country::MX => 484,
            Country::MC => 492,
            Country::MN => 496,
            Country::MD => 498,
            Country::ME => 499,
            Country::MS => 500,
            Country::MA => 504,
            Country::MZ => 508,
            Country::OM => 512,
            Country::NA => 516,
            Country::NR => 520,
            Country::NP => 524,
            Country::NL => 528,
            Country::CW => 531,
            Country::AW => 533,
            Country::SX => 534,
            Country::BQ => 535,
            Country::NC => 540,
            Country::VU => 548,
            Country::NZ => 554,
            Country::NI => 558,
            Country::NE => 562,
            Country::NG => 566,
            Country::NU => 570,
            Country::NF => 574,
            Country::NO => 578,
            Country::MP => 580,
            Country::UM => 581,
            Country::FM => 583,
            Country::MH => 584,
            Country::PW => 585,
            Country::PK => 586,
            Country::PA => 591,
            Country::PG => 598,
            Country::PY => 600,
            Country::PE => 604,
            Country::PH => 608,
            Country::PN => 612,
            Country::PL => 616,
            Country::PT => 620,
            Country::GW => 624,
            Country::TL => 626,
            Country::PR => 630,
            Country::QA => 634,
            Country::RE => 638,
            Country::RO => 642,
            Country::RU => 643,
            Country::RW => 646,
            Country::BL => 652,
            Country::SH => 654,
            Country::KN => 659,
            Country::AI => 660,
            Country::LC => 662,
            Country::MF => 663,
            Country::PM => 666,
            Country::VC => 670,
            Country::SM => 674,
            Country::ST => 678,
            Country::SA => 682,
            Country::SN => 686,
            Country::RS => 688,
            Country::SC => 690,
            Country::SL => 694,
            Country::SG => 702,
            Country::SK => 703,
            Country::VN => 704,
            Country::SI => 705,
            Country::SO => 706,
            Country::ZA => 710,
            Country::ZW => 716,
            Country::ES => 724,
            Country::SS => 728,
            Country::SD => 729,
            Country::EH => 732,
            Country::SR => 740,
            Country::SJ => 744,
            Country::SZ => 748,
            Country::SE => 752,
            Country::CH => 756,
            Country::SY => 760,
            Country::TJ => 762,
            Country::TH => 764,
            Country::TG => 768,
            Country::TK => 772,
            Country::TO => 776,
            Country::TT => 780,
            Country::AE => 784,
            Country::TN => 788,
            Country::TR => 792,
            Country::TM => 795,
            Country::TC => 796,
            Country::TV => 798,
            Country::UG => 800,
            Country::UA => 804,
            Country::MK => 807,
            Country::EG => 818,
            Country::GB => 826,
            Country::GG => 831,
            Country::JE => 832,
            Country::IM => 833,
            Country::TZ => 834,
            Country::US => 840,
            Country::VI => 850,
            Country::BF => 854,
            Country::UY => 858,
            Country::UZ => 860,
            Country::VE => 862,
            Country::WF => 876,
            Country::WS => 882,
            Country::YE => 887,
            Country::ZM => 894,
        }
    }

    /// The canonical textual form: the alpha-2 code as an owned string,
    /// empty for `Unspecified`.
    pub fn display(self) -> (r: String)
        ensures
            r@ == spec_display(self),
    {
        self.alpha2().to_owned()
    }
}

} // verus!
