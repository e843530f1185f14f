//! Inverse-evaluation lemmas for the lookup tables.
//!
//! Evaluating `spec_parse` on every alpha-2 code (and `spec_from_name` on
//! every name) shows that the lookup tables invert the accessors; the
//! injectivity of the codes follows.  The proofs are split into parts so
//! that each solver query stays small.

use vstd::prelude::*;

use crate::country::{Country, spec_alpha2, spec_name, spec_numeric};
use crate::lookup::{spec_from_name, spec_parse};

verus! {

proof fn lemma_parse_complete_part0()
    ensures
        spec_parse(spec_alpha2(Country::Unspecified)) == Some(Country::Unspecified),
        spec_parse(spec_alpha2(Country::AF)) == Some(Country::AF),
        spec_parse(spec_alpha2(Country::AL)) == Some(Country::AL),
        spec_parse(spec_alpha2(Country::AQ)) == Some(Country::AQ),
        spec_parse(spec_alpha2(Country::DZ)) == Some(Country::DZ),
        spec_parse(spec_alpha2(Country::AS)) == Some(Country::AS),
        spec_parse(spec_alpha2(Country::AD)) == Some(Country::AD),
        spec_parse(spec_alpha2(Country::AO)) == Some(Country::AO),
        spec_parse(spec_alpha2(Country::AG)) == Some(Country::AG),
        spec_parse(spec_alpha2(Country::AZ)) == Some(Country::AZ),
        spec_parse(spec_alpha2(Country::AR)) == Some(Country::AR),
        spec_parse(spec_alpha2(Country::AU)) == Some(Country::AU),
        spec_parse(spec_alpha2(Country::AT)) == Some(Country::AT),
        spec_parse(spec_alpha2(Country::BS)) == Some(Country::BS),
        spec_parse(spec_alpha2(Country::BH)) == Some(Country::BH),
        spec_parse(spec_alpha2(Country::BD)) == Some(Country::BD),
        spec_parse(spec_alpha2(Country::AM)) == Some(Country::AM),
        spec_parse(spec_alpha2(Country::BB)) == Some(Country::BB),
        spec_parse(spec_alpha2(Country::BE)) == Some(Country::BE),
        spec_parse(spec_alpha2(Country::BM)) == Some(Country::BM),
        spec_parse(spec_alpha2(Country::BT)) == Some(Country::BT),
        spec_parse(spec_alpha2(Country::BO)) == Some(Country::BO),
        spec_parse(spec_alpha2(Country::BA)) == Some(Country::BA),
        spec_parse(spec_alpha2(Country::BW)) == Some(Country::BW),
        spec_parse(spec_alpha2(Country::BV)) == Some(Country::BV),
{
    reveal_strlit("");
    reveal_strlit("AF");
    reveal_strlit("AL");
    reveal_strlit("AQ");
    reveal_strlit("DZ");
    reveal_strlit("AS");
    reveal_strlit("AD");
    reveal_strlit("AO");
    reveal_strlit("AG");
    reveal_strlit("AZ");
    reveal_strlit("AR");
    reveal_strlit("AU");
    reveal_strlit("AT");
    reveal_strlit("BS");
    reveal_strlit("BH");
    reveal_strlit("BD");
    reveal_strlit("AM");
    reveal_strlit("BB");
    reveal_strlit("BE");
    reveal_strlit("BM");
    reveal_strlit("BT");
    reveal_strlit("BO");
    reveal_strlit("BA");
    reveal_strlit("BW");
    reveal_strlit("BV");
}

proof fn lemma_parse_complete_part1()
    ensures
        spec_parse(spec_alpha2(Country::BR)) == Some(Country::BR),
        spec_parse(spec_alpha2(Country::BZ)) == Some(Country::BZ),
        spec_parse(spec_alpha2(Country::IO)) == Some(Country::IO),
        spec_parse(spec_alpha2(Country::SB)) == Some(Country::SB),
        spec_parse(spec_alpha2(Country::VG)) == Some(Country::VG),
        spec_parse(spec_alpha2(Country::BN)) == Some(Country::BN),
        spec_parse(spec_alpha2(Country::BG)) == Some(Country::BG),
        spec_parse(spec_alpha2(Country::MM)) == Some(Country::MM),
        spec_parse(spec_alpha2(Country::BI)) == Some(Country::BI),
        spec_parse(spec_alpha2(Country::BY)) == Some(Country::BY),
        spec_parse(spec_alpha2(Country::KH)) == Some(Country::KH),
        spec_parse(spec_alpha2(Country::CM)) == Some(Country::CM),
        spec_parse(spec_alpha2(Country::CA)) == Some(Country::CA),
        spec_parse(spec_alpha2(Country::CV)) == Some(Country::CV),
        spec_parse(spec_alpha2(Country::KY)) == Some(Country::KY),
        spec_parse(spec_alpha2(Country::CF)) == Some(Country::CF),
        spec_parse(spec_alpha2(Country::LK)) == Some(Country::LK),
        spec_parse(spec_alpha2(Country::TD)) == Some(Country::TD),
        spec_parse(spec_alpha2(Country::CL)) == Some(Country::CL),
        spec_parse(spec_alpha2(Country::CN)) == Some(Country::CN),
        spec_parse(spec_alpha2(Country::TW)) == Some(Country::TW),
        spec_parse(spec_alpha2(Country::CX)) == Some(Country::CX),
        spec_parse(spec_alpha2(Country::CC)) == Some(Country::CC),
        spec_parse(spec_alpha2(Country::CO)) == Some(Country::CO),
        spec_parse(spec_alpha2(Country::KM)) == Some(Country::KM),
{
    reveal_strlit("BR");
    reveal_strlit("BZ");
    reveal_strlit("IO");
    reveal_strlit("SB");
    reveal_strlit("VG");
    reveal_strlit("BN");
    reveal_strlit("BG");
    reveal_strlit("MM");
    reveal_strlit("BI");
    reveal_strlit("BY");
    reveal_strlit("KH");
    reveal_strlit("CM");
    reveal_strlit("CA");
    reveal_strlit("CV");
    reveal_strlit("KY");
    reveal_strlit("CF");
    reveal_strlit("LK");
    reveal_strlit("TD");
    reveal_strlit("CL");
    reveal_strlit("CN");
    reveal_strlit("TW");
    reveal_strlit("CX");
    reveal_strlit("CC");
    reveal_strlit("CO");
    reveal_strlit("KM");
}

proof fn lemma_parse_complete_part2()
    ensures
        spec_parse(spec_alpha2(Country::YT)) == Some(Country::YT),
        spec_parse(spec_alpha2(Country::CG)) == Some(Country::CG),
        spec_parse(spec_alpha2(Country::CD)) == Some(Country::CD),
        spec_parse(spec_alpha2(Country::CK)) == Some(Country::CK),
        spec_parse(spec_alpha2(Country::CR)) == Some(Country::CR),
        spec_parse(spec_alpha2(Country::HR)) == Some(Country::HR),
        spec_parse(spec_alpha2(Country::CU)) == Some(Country::CU),
        spec_parse(spec_alpha2(Country::CY)) == Some(Country::CY),
        spec_parse(spec_alpha2(Country::CZ)) == Some(Country::CZ),
        spec_parse(spec_alpha2(Country::BJ)) == Some(Country::BJ),
        spec_parse(spec_alpha2(Country::DK)) == Some(Country::DK),
        spec_parse(spec_alpha2(Country::DM)) == Some(Country::DM),
        spec_parse(spec_alpha2(Country::DO)) == Some(Country::DO),
        spec_parse(spec_alpha2(Country::EC)) == Some(Country::EC),
        spec_parse(spec_alpha2(Country::SV)) == Some(Country::SV),
        spec_parse(spec_alpha2(Country::GQ)) == Some(Country::GQ),
        spec_parse(spec_alpha2(Country::ET)) == Some(Country::ET),
        spec_parse(spec_alpha2(Country::ER)) == Some(Country::ER),
        spec_parse(spec_alpha2(Country::EE)) == Some(Country::EE),
        spec_parse(spec_alpha2(Country::FO)) == Some(Country::FO),
        spec_parse(spec_alpha2(Country::FK)) == Some(Country::FK),
        spec_parse(spec_alpha2(Country::GS)) == Some(Country::GS),
        spec_parse(spec_alpha2(Country::FJ)) == Some(Country::FJ),
        spec_parse(spec_alpha2(Country::FI)) == Some(Country::FI),
        spec_parse(spec_alpha2(Country::AX)) == Some(Country::AX),
{
    reveal_strlit("YT");
    reveal_strlit("CG");
    reveal_strlit("CD");
    reveal_strlit("CK");
    reveal_strlit("CR");
    reveal_strlit("HR");
    reveal_strlit("CU");
    reveal_strlit("CY");
    reveal_strlit("CZ");
    reveal_strlit("BJ");
    reveal_strlit("DK");
    reveal_strlit("DM");
    reveal_strlit("DO");
    reveal_strlit("EC");
    reveal_strlit("SV");
    reveal_strlit("GQ");
    reveal_strlit("ET");
    reveal_strlit("ER");
    reveal_strlit("EE");
    reveal_strlit("FO");
    reveal_strlit("FK");
    reveal_strlit("GS");
    reveal_strlit("FJ");
    reveal_strlit("FI");
    reveal_strlit("AX");
}

proof fn lemma_parse_complete_part3()
    ensures
        spec_parse(spec_alpha2(Country::FR)) == Some(Country::FR),
        spec_parse(spec_alpha2(Country::GF)) == Some(Country::GF),
        spec_parse(spec_alpha2(Country::PF)) == Some(Country::PF),
        spec_parse(spec_alpha2(Country::TF)) == Some(Country::TF),
        spec_parse(spec_alpha2(Country::DJ)) == Some(Country::DJ),
        spec_parse(spec_alpha2(Country::GA)) == Some(Country::GA),
        spec_parse(spec_alpha2(Country::GE)) == Some(Country::GE),
        spec_parse(spec_alpha2(Country::GM)) == Some(Country::GM),
        spec_parse(spec_alpha2(Country::PS)) == Some(Country::PS),
        spec_parse(spec_alpha2(Country::DE)) == Some(Country::DE),
        spec_parse(spec_alpha2(Country::GH)) == Some(Country::GH),
        spec_parse(spec_alpha2(Country::GI)) == Some(Country::GI),
        spec_parse(spec_alpha2(Country::KI)) == Some(Country::KI),
        spec_parse(spec_alpha2(Country::GR)) == Some(Country::GR),
        spec_parse(spec_alpha2(Country::GL)) == Some(Country::GL),
        spec_parse(spec_alpha2(Country::GD)) == Some(Country::GD),
        spec_parse(spec_alpha2(Country::GP)) == Some(Country::GP),
        spec_parse(spec_alpha2(Country::GU)) == Some(Country::GU),
        spec_parse(spec_alpha2(Country::GT)) == Some(Country::GT),
        spec_parse(spec_alpha2(Country::GN)) == Some(Country::GN),
        spec_parse(spec_alpha2(Country::GY)) == Some(Country::GY),
        spec_parse(spec_alpha2(Country::HT)) == Some(Country::HT),
        spec_parse(spec_alpha2(Country::HM)) == Some(Country::HM),
        spec_parse(spec_alpha2(Country::VA)) == Some(Country::VA),
        spec_parse(spec_alpha2(Country::HN)) == Some(Country::HN),
{
    reveal_strlit("FR");
    reveal_strlit("GF");
    reveal_strlit("PF");
    reveal_strlit("TF");
    reveal_strlit("DJ");
    reveal_strlit("GA");
    reveal_strlit("GE");
    reveal_strlit("GM");
    reveal_strlit("PS");
    reveal_strlit("DE");
    reveal_strlit("GH");
    reveal_strlit("GI");
    reveal_strlit("KI");
    reveal_strlit("GR");
    reveal_strlit("GL");
    reveal_strlit("GD");
    reveal_strlit("GP");
    reveal_strlit("GU");
    reveal_strlit("GT");
    reveal_strlit("GN");
    reveal_strlit("GY");
    reveal_strlit("HT");
    reveal_strlit("HM");
    reveal_strlit("VA");
    reveal_strlit("HN");
}

proof fn lemma_parse_complete_part4()
    ensures
        spec_parse(spec_alpha2(Country::HK)) == Some(Country::HK),
        spec_parse(spec_alpha2(Country::HU)) == Some(Country::HU),
        spec_parse(spec_alpha2(Country::IS)) == Some(Country::IS),
        spec_parse(spec_alpha2(Country::IN)) == Some(Country::IN),
        spec_parse(spec_alpha2(Country::ID)) == Some(Country::ID),
        spec_parse(spec_alpha2(Country::IR)) == Some(Country::IR),
        spec_parse(spec_alpha2(Country::IQ)) == Some(Country::IQ),
        spec_parse(spec_alpha2(Country::IE)) == Some(Country::IE),
        spec_parse(spec_alpha2(Country::IL)) == Some(Country::IL),
        spec_parse(spec_alpha2(Country::IT)) == Some(Country::IT),
        spec_parse(spec_alpha2(Country::CI)) == Some(Country::CI),
        spec_parse(spec_alpha2(Country::JM)) == Some(Country::JM),
        spec_parse(spec_alpha2(Country::JP)) == Some(Country::JP),
        spec_parse(spec_alpha2(Country::KZ)) == Some(Country::KZ),
        spec_parse(spec_alpha2(Country::JO)) == Some(Country::JO),
        spec_parse(spec_alpha2(Country::KE)) == Some(Country::KE),
        spec_parse(spec_alpha2(Country::KP)) == Some(Country::KP),
        spec_parse(spec_alpha2(Country::KR)) == Some(Country::KR),
        spec_parse(spec_alpha2(Country::KW)) == Some(Country::KW),
        spec_parse(spec_alpha2(Country::KG)) == Some(Country::KG),
        spec_parse(spec_alpha2(Country::LA)) == Some(Country::LA),
        spec_parse(spec_alpha2(Country::LB)) == Some(Country::LB),
        spec_parse(spec_alpha2(Country::LS)) == Some(Country::LS),
        spec_parse(spec_alpha2(Country::LV)) == Some(Country::LV),
        spec_parse(spec_alpha2(Country::LR)) == Some(Country::LR),
{
    reveal_strlit("HK");
    reveal_strlit("HU");
    reveal_strlit("IS");
    reveal_strlit("IN");
    reveal_strlit("ID");
    reveal_strlit("IR");
    reveal_strlit("IQ");
    reveal_strlit("IE");
    reveal_strlit("IL");
    reveal_strlit("IT");
    reveal_strlit("CI");
    reveal_strlit("JM");
    reveal_strlit("JP");
    reveal_strlit("KZ");
    reveal_strlit("JO");
    reveal_strlit("KE");
    reveal_strlit("KP");
    reveal_strlit("KR");
    reveal_strlit("KW");
    reveal_strlit("KG");
    reveal_strlit("LA");
    reveal_strlit("LB");
    reveal_strlit("LS");
    reveal_strlit("LV");
    reveal_strlit("LR");
}

proof fn lemma_parse_complete_part5()
    ensures
        spec_parse(spec_alpha2(Country::LY)) == Some(Country::LY),
        spec_parse(spec_alpha2(Country::LI)) == Some(Country::LI),
        spec_parse(spec_alpha2(Country::LT)) == Some(Country::LT),
        spec_parse(spec_alpha2(Country::LU)) == Some(Country::LU),
        spec_parse(spec_alpha2(Country::MO)) == Some(Country::MO),
        spec_parse(spec_alpha2(Country::MG)) == Some(Country::MG),
        spec_parse(spec_alpha2(Country::MW)) == Some(Country::MW),
        spec_parse(spec_alpha2(Country::MY)) == Some(Country::MY),
        spec_parse(spec_alpha2(Country::MV)) == Some(Country::MV),
        spec_parse(spec_alpha2(Country::ML)) == Some(Country::ML),
        spec_parse(spec_alpha2(Country::MT)) == Some(Country::MT),
        spec_parse(spec_alpha2(Country::MQ)) == Some(Country::MQ),
        spec_parse(spec_alpha2(Country::MR)) == Some(Country::MR),
        spec_parse(spec_alpha2(Country::MU)) == Some(Country::MU),
        spec_parse(spec_alpha2(Country::MX)) == Some(Country::MX),
        spec_parse(spec_alpha2(Country::MC)) == Some(Country::MC),
        spec_parse(spec_alpha2(Country::MN)) == Some(Country::MN),
        spec_parse(spec_alpha2(Country::MD)) == Some(Country::MD),
        spec_parse(spec_alpha2(Country::ME)) == Some(Country::ME),
        spec_parse(spec_alpha2(Country::MS)) == Some(Country::MS),
        spec_parse(spec_alpha2(Country::MA)) == Some(Country::MA),
        spec_parse(spec_alpha2(Country::MZ)) == Some(Country::MZ),
        spec_parse(spec_alpha2(Country::OM)) == Some(Country::OM),
        spec_parse(spec_alpha2(Country::NA)) == Some(Country::NA),
        spec_parse(spec_alpha2(Country::NR)) == Some(Country::NR),
{
    reveal_strlit("LY");
    reveal_strlit("LI");
    reveal_strlit("LT");
    reveal_strlit("LU");
    reveal_strlit("MO");
    reveal_strlit("MG");
    reveal_strlit("MW");
    reveal_strlit("MY");
    reveal_strlit("MV");
    reveal_strlit("ML");
    reveal_strlit("MT");
    reveal_strlit("MQ");
    reveal_strlit("MR");
    reveal_strlit("MU");
    reveal_strlit("MX");
    reveal_strlit("MC");
    reveal_strlit("MN");
    reveal_strlit("MD");
    reveal_strlit("ME");
    reveal_strlit("MS");
    reveal_strlit("MA");
    reveal_strlit("MZ");
    reveal_strlit("OM");
    reveal_strlit("NA");
    reveal_strlit("NR");
}

proof fn lemma_parse_complete_part6()
    ensures
        spec_parse(spec_alpha2(Country::NP)) == Some(Country::NP),
        spec_parse(spec_alpha2(Country::NL)) == Some(Country::NL),
        spec_parse(spec_alpha2(Country::CW)) == Some(Country::CW),
        spec_parse(spec_alpha2(Country::AW)) == Some(Country::AW),
        spec_parse(spec_alpha2(Country::SX)) == Some(Country::SX),
        spec_parse(spec_alpha2(Country::BQ)) == Some(Country::BQ),
        spec_parse(spec_alpha2(Country::NC)) == Some(Country::NC),
        spec_parse(spec_alpha2(Country::VU)) == Some(Country::VU),
        spec_parse(spec_alpha2(Country::NZ)) == Some(Country::NZ),
        spec_parse(spec_alpha2(Country::NI)) == Some(Country::NI),
        spec_parse(spec_alpha2(Country::NE)) == Some(Country::NE),
        spec_parse(spec_alpha2(Country::NG)) == Some(Country::NG),
        spec_parse(spec_alpha2(Country::NU)) == Some(Country::NU),
        spec_parse(spec_alpha2(Country::NF)) == Some(Country::NF),
        spec_parse(spec_alpha2(Country::NO)) == Some(Country::NO),
        spec_parse(spec_alpha2(Country::MP)) == Some(Country::MP),
        spec_parse(spec_alpha2(Country::UM)) == Some(Country::UM),
        spec_parse(spec_alpha2(Country::FM)) == Some(Country::FM),
        spec_parse(spec_alpha2(Country::MH)) == Some(Country::MH),
        spec_parse(spec_alpha2(Country::PW)) == Some(Country::PW),
        spec_parse(spec_alpha2(Country::PK)) == Some(Country::PK),
        spec_parse(spec_alpha2(Country::PA)) == Some(Country::PA),
        spec_parse(spec_alpha2(Country::PG)) == Some(Country::PG),
        spec_parse(spec_alpha2(Country::PY)) == Some(Country::PY),
        spec_parse(spec_alpha2(Country::PE)) == Some(Country::PE),
{
    reveal_strlit("NP");
    reveal_strlit("NL");
    reveal_strlit("CW");
    reveal_strlit("AW");
    reveal_strlit("SX");
    reveal_strlit("BQ");
    reveal_strlit("NC");
    reveal_strlit("VU");
    reveal_strlit("NZ");
    reveal_strlit("NI");
    reveal_strlit("NE");
    reveal_strlit("NG");
    reveal_strlit("NU");
    reveal_strlit("NF");
    reveal_strlit("NO");
    reveal_strlit("MP");
    reveal_strlit("UM");
    reveal_strlit("FM");
    reveal_strlit("MH");
    reveal_strlit("PW");
    reveal_strlit("PK");
    reveal_strlit("PA");
    reveal_strlit("PG");
    reveal_strlit("PY");
    reveal_strlit("PE");
}

proof fn lemma_parse_complete_part7()
    ensures
        spec_parse(spec_alpha2(Country::PH)) == Some(Country::PH),
        spec_parse(spec_alpha2(Country::PN)) == Some(Country::PN),
        spec_parse(spec_alpha2(Country::PL)) == Some(Country::PL),
        spec_parse(spec_alpha2(Country::PT)) == Some(Country::PT),
        spec_parse(spec_alpha2(Country::GW)) == Some(Country::GW),
        spec_parse(spec_alpha2(Country::TL)) == Some(Country::TL),
        spec_parse(spec_alpha2(Country::PR)) == Some(Country::PR),
        spec_parse(spec_alpha2(Country::QA)) == Some(Country::QA),
        spec_parse(spec_alpha2(Country::RE)) == Some(Country::RE),
        spec_parse(spec_alpha2(Country::RO)) == Some(Country::RO),
        spec_parse(spec_alpha2(Country::RU)) == Some(Country::RU),
        spec_parse(spec_alpha2(Country::RW)) == Some(Country::RW),
        spec_parse(spec_alpha2(Country::BL)) == Some(Country::BL),
        spec_parse(spec_alpha2(Country::SH)) == Some(Country::SH),
        spec_parse(spec_alpha2(Country::KN)) == Some(Country::KN),
        spec_parse(spec_alpha2(Country::AI)) == Some(Country::AI),
        spec_parse(spec_alpha2(Country::LC)) == Some(Country::LC),
        spec_parse(spec_alpha2(Country::MF)) == Some(Country::MF),
        spec_parse(spec_alpha2(Country::PM)) == Some(Country::PM),
        spec_parse(spec_alpha2(Country::VC)) == Some(Country::VC),
        spec_parse(spec_alpha2(Country::SM)) == Some(Country::SM),
        spec_parse(spec_alpha2(Country::ST)) == Some(Country::ST),
        spec_parse(spec_alpha2(Country::SA)) == Some(Country::SA),
        spec_parse(spec_alpha2(Country::SN)) == Some(Country::SN),
        spec_parse(spec_alpha2(Country::RS)) == Some(Country::RS),
{
    reveal_strlit("PH");
    reveal_strlit("PN");
    reveal_strlit("PL");
    reveal_strlit("PT");
    reveal_strlit("GW");
    reveal_strlit("TL");
    reveal_strlit("PR");
    reveal_strlit("QA");
    reveal_strlit("RE");
    reveal_strlit("RO");
    reveal_strlit("RU");
    reveal_strlit("RW");
    reveal_strlit("BL");
    reveal_strlit("SH");
    reveal_strlit("KN");
    reveal_strlit("AI");
    reveal_strlit("LC");
    reveal_strlit("MF");
    reveal_strlit("PM");
    reveal_strlit("VC");
    reveal_strlit("SM");
    reveal_strlit("ST");
    reveal_strlit("SA");
    reveal_strlit("SN");
    reveal_strlit("RS");
}

proof fn lemma_parse_complete_part8()
    ensures
        spec_parse(spec_alpha2(Country::SC)) == Some(Country::SC),
        spec_parse(spec_alpha2(Country::SL)) == Some(Country::SL),
        spec_parse(spec_alpha2(Country::SG)) == Some(Country::SG),
        spec_parse(spec_alpha2(Country::SK)) == Some(Country::SK),
        spec_parse(spec_alpha2(Country::VN)) == Some(Country::VN),
        spec_parse(spec_alpha2(Country::SI)) == Some(Country::SI),
        spec_parse(spec_alpha2(Country::SO)) == Some(Country::SO),
        spec_parse(spec_alpha2(Country::ZA)) == Some(Country::ZA),
        spec_parse(spec_alpha2(Country::ZW)) == Some(Country::ZW),
        spec_parse(spec_alpha2(Country::ES)) == Some(Country::ES),
        spec_parse(spec_alpha2(Country::SS)) == Some(Country::SS),
        spec_parse(spec_alpha2(Country::SD)) == Some(Country::SD),
        spec_parse(spec_alpha2(Country::EH)) == Some(Country::EH),
        spec_parse(spec_alpha2(Country::SR)) == Some(Country::SR),
        spec_parse(spec_alpha2(Country::SJ)) == Some(Country::SJ),
        spec_parse(spec_alpha2(Country::SZ)) == Some(Country::SZ),
        spec_parse(spec_alpha2(Country::SE)) == Some(Country::SE),
        spec_parse(spec_alpha2(Country::CH)) == Some(Country::CH),
        spec_parse(spec_alpha2(Country::SY)) == Some(Country::SY),
        spec_parse(spec_alpha2(Country::TJ)) == Some(Country::TJ),
        spec_parse(spec_alpha2(Country::TH)) == Some(Country::TH),
        spec_parse(spec_alpha2(Country::TG)) == Some(Country::TG),
        spec_parse(spec_alpha2(Country::TK)) == Some(Country::TK),
        spec_parse(spec_alpha2(Country::TO)) == Some(Country::TO),
        spec_parse(spec_alpha2(Country::TT)) == Some(Country::TT),
{
    reveal_strlit("SC");
    reveal_strlit("SL");
    reveal_strlit("SG");
    reveal_strlit("SK");
    reveal_strlit("VN");
    reveal_strlit("SI");
    reveal_strlit("SO");
    reveal_strlit("ZA");
    reveal_strlit("ZW");
    reveal_strlit("ES");
    reveal_strlit("SS");
    reveal_strlit("SD");
    reveal_strlit("EH");
    reveal_strlit("SR");
    reveal_strlit("SJ");
    reveal_strlit("SZ");
    reveal_strlit("SE");
    reveal_strlit("CH");
    reveal_strlit("SY");
    reveal_strlit("TJ");
    reveal_strlit("TH");
    reveal_strlit("TG");
    reveal_strlit("TK");
    reveal_strlit("TO");
    reveal_strlit("TT");
}

proof fn lemma_parse_complete_part9()
    ensures
        spec_parse(spec_alpha2(Country::AE)) == Some(Country::AE),
        spec_parse(spec_alpha2(Country::TN)) == Some(Country::TN),
        spec_parse(spec_alpha2(Country::TR)) == Some(Country::TR),
        spec_parse(spec_alpha2(Country::TM)) == Some(Country::TM),
        spec_parse(spec_alpha2(Country::TC)) == Some(Country::TC),
        spec_parse(spec_alpha2(Country::TV)) == Some(Country::TV),
        spec_parse(spec_alpha2(Country::UG)) == Some(Country::UG),
        spec_parse(spec_alpha2(Country::UA)) == Some(Country::UA),
        spec_parse(spec_alpha2(Country::MK)) == Some(Country::MK),
        spec_parse(spec_alpha2(Country::EG)) == Some(Country::EG),
        spec_parse(spec_alpha2(Country::GB)) == Some(Country::GB),
        spec_parse(spec_alpha2(Country::GG)) == Some(Country::GG),
        spec_parse(spec_alpha2(Country::JE)) == Some(Country::JE),
        spec_parse(spec_alpha2(Country::IM)) == Some(Country::IM),
        spec_parse(spec_alpha2(Country::TZ)) == Some(Country::TZ),
        spec_parse(spec_alpha2(Country::US)) == Some(Country::US),
        spec_parse(spec_alpha2(Country::VI)) == Some(Country::VI),
        spec_parse(spec_alpha2(Country::BF)) == Some(Country::BF),
        spec_parse(spec_alpha2(Country::UY)) == Some(Country::UY),
        spec_parse(spec_alpha2(Country::UZ)) == Some(Country::UZ),
        spec_parse(spec_alpha2(Country::VE)) == Some(Country::VE),
        spec_parse(spec_alpha2(Country::WF)) == Some(Country::WF),
        spec_parse(spec_alpha2(Country::WS)) == Some(Country::WS),
        spec_parse(spec_alpha2(Country::YE)) == Some(Country::YE),
        spec_parse(spec_alpha2(Country::ZM)) == Some(Country::ZM),
{
    reveal_strlit("AE");
    reveal_strlit("TN");
    reveal_strlit("TR");
    reveal_strlit("TM");
    reveal_strlit("TC");
    reveal_strlit("TV");
    reveal_strlit("UG");
    reveal_strlit("UA");
    reveal_strlit("MK");
    reveal_strlit("EG");
    reveal_strlit("GB");
    reveal_strlit("GG");
    reveal_strlit("JE");
    reveal_strlit("IM");
    reveal_strlit("TZ");
    reveal_strlit("US");
    reveal_strlit("VI");
    reveal_strlit("BF");
    reveal_strlit("UY");
    reveal_strlit("UZ");
    reveal_strlit("VE");
    reveal_strlit("WF");
    reveal_strlit("WS");
    reveal_strlit("YE");
    reveal_strlit("ZM");
}

/// Every country is recovered by parsing its own alpha-2 code.
pub proof fn lemma_parse_complete(c: Country)
    ensures
        spec_parse(spec_alpha2(c)) == Some(c),
{
    lemma_parse_complete_part0();
    lemma_parse_complete_part1();
    lemma_parse_complete_part2();
    lemma_parse_complete_part3();
    lemma_parse_complete_part4();
    lemma_parse_complete_part5();
    lemma_parse_complete_part6();
    lemma_parse_complete_part7();
    lemma_parse_complete_part8();
    lemma_parse_complete_part9();
}

proof fn lemma_parse_sound_part0(s: Seq<char>)
    requires
        s.len() == 2,
        s[0] == 'A',
    ensures
        spec_parse(s) matches Some(c) ==> spec_alpha2(c) == s,
{
    if s[1] == 'D' {
        reveal_strlit("AD");
        assert("AD"@ =~= s);
    } else if s[1] == 'E' {
        reveal_strlit("AE");
        assert("AE"@ =~= s);
    } else if s[1] == 'F' {
        reveal_strlit("AF");
        assert("AF"@ =~= s);
    } else if s[1] == 'G' {
        reveal_strlit("AG");
        assert("AG"@ =~= s);
    } else if s[1] == 'I' {
        reveal_strlit("AI");
        assert("AI"@ =~= s);
    } else if s[1] == 'L' {
        reveal_strlit("AL");
        assert("AL"@ =~= s);
    } else if s[1] == 'M' {
        reveal_strlit("AM");
        assert("AM"@ =~= s);
    } else if s[1] == 'O' {
        reveal_strlit("AO");
        assert("AO"@ =~= s);
    } else if s[1] == 'Q' {
        reveal_strlit("AQ");
        assert("AQ"@ =~= s);
    } else if s[1] == 'R' {
        reveal_strlit("AR");
        assert("AR"@ =~= s);
    } else if s[1] == 'S' {
        reveal_strlit("AS");
        assert("AS"@ =~= s);
    } else if s[1] == 'T' {
        reveal_strlit("AT");
        assert("AT"@ =~= s);
    } else if s[1] == 'U' {
        reveal_strlit("AU");
        assert("AU"@ =~= s);
    } else if s[1] == 'W' {
        reveal_strlit("AW");
        assert("AW"@ =~= s);
    } else if s[1] == 'X' {
        reveal_strlit("AX");
        assert("AX"@ =~= s);
    } else if s[1] == 'Z' {
        reveal_strlit("AZ");
        assert("AZ"@ =~= s);
    }
}

proof fn lemma_parse_sound_part1(s: Seq<char>)
    requires
        s.len() == 2,
        s[0] == 'B',
    ensures
        spec_parse(s) matches Some(c) ==> spec_alpha2(c) == s,
{
    if s[1] == 'A' {
        reveal_strlit("BA");
        assert("BA"@ =~= s);
    } else if s[1] == 'B' {
        reveal_strlit("BB");
        assert("BB"@ =~= s);
    } else if s[1] == 'D' {
        reveal_strlit("BD");
        assert("BD"@ =~= s);
    } else if s[1] == 'E' {
        reveal_strlit("BE");
        assert("BE"@ =~= s);
    } else if s[1] == 'F' {
        reveal_strlit("BF");
        assert("BF"@ =~= s);
    } else if s[1] == 'G' {
        reveal_strlit("BG");
        assert("BG"@ =~= s);
    } else if s[1] == 'H' {
        reveal_strlit("BH");
        assert("BH"@ =~= s);
    } else if s[1] == 'I' {
        reveal_strlit("BI");
        assert("BI"@ =~= s);
    } else if s[1] == 'J' {
        reveal_strlit("BJ");
        assert("BJ"@ =~= s);
    } else if s[1] == 'L' {
        reveal_strlit("BL");
        assert("BL"@ =~= s);
    } else if s[1] == 'M' {
        reveal_strlit("BM");
        assert("BM"@ =~= s);
    } else if s[1] == 'N' {
        reveal_strlit("BN");
        assert("BN"@ =~= s);
    } else if s[1] == 'O' {
        reveal_strlit("BO");
        assert("BO"@ =~= s);
    } else if s[1] == 'Q' {
        reveal_strlit("BQ");
        assert("BQ"@ =~= s);
    } else if s[1] == 'R' {
        reveal_strlit("BR");
        assert("BR"@ =~= s);
    } else if s[1] == 'S' {
        reveal_strlit("BS");
        assert("BS"@ =~= s);
    } else if s[1] == 'T' {
        reveal_strlit("BT");
        assert("BT"@ =~= s);
    } else if s[1] == 'V' {
        reveal_strlit("BV");
        assert("BV"@ =~= s);
    } else if s[1] == 'W' {
        reveal_strlit("BW");
        assert("BW"@ =~= s);
    } else if s[1] == 'Y' {
        reveal_strlit("BY");
        assert("BY"@ =~= s);
    } else if s[1] == 'Z' {
        reveal_strlit("BZ");
        assert("BZ"@ =~= s);
    }
}

proof fn lemma_parse_sound_part2(s: Seq<char>)
    requires
        s.len() == 2,
        s[0] == 'C',
    ensures
        spec_parse(s) matches Some(c) ==> spec_alpha2(c) == s,
{
    if s[1] == 'A' {
        reveal_strlit("CA");
        assert("CA"@ =~= s);
    } else if s[1] == 'C' {
        reveal_strlit("CC");
        assert("CC"@ =~= s);
    } else if s[1] == 'D' {
        reveal_strlit("CD");
        assert("CD"@ =~= s);
    } else if s[1] == 'F' {
        reveal_strlit("CF");
        assert("CF"@ =~= s);
    } else if s[1] == 'G' {
        reveal_strlit("CG");
        assert("CG"@ =~= s);
    } else if s[1] == 'H' {
        reveal_strlit("CH");
        assert("CH"@ =~= s);
    } else if s[1] == 'I' {
        reveal_strlit("CI");
        assert("CI"@ =~= s);
    } else if s[1] == 'K' {
        reveal_strlit("CK");
        assert("CK"@ =~= s);
    } else if s[1] == 'L' {
        reveal_strlit("CL");
        assert("CL"@ =~= s);
    } else if s[1] == 'M' {
        reveal_strlit("CM");
        assert("CM"@ =~= s);
    } else if s[1] == 'N' {
        reveal_strlit("CN");
        assert("CN"@ =~= s);
    } else if s[1] == 'O' {
        reveal_strlit("CO");
        assert("CO"@ =~= s);
    } else if s[1] == 'R' {
        reveal_strlit("CR");
        assert("CR"@ =~= s);
    } else if s[1] == 'U' {
        reveal_strlit("CU");
        assert("CU"@ =~= s);
    } else if s[1] == 'V' {
        reveal_strlit("CV");
        assert("CV"@ =~= s);
    } else if s[1] == 'W' {
        reveal_strlit("CW");
        assert("CW"@ =~= s);
    } else if s[1] == 'X' {
        reveal_strlit("CX");
        assert("CX"@ =~= s);
    } else if s[1] == 'Y' {
        reveal_strlit("CY");
        assert("CY"@ =~= s);
    } else if s[1] == 'Z' {
        reveal_strlit("CZ");
        assert("CZ"@ =~= s);
    }
}

proof fn lemma_parse_sound_part3(s: Seq<char>)
    requires
        s.len() == 2,
        s[0] == 'D',
    ensures
        spec_parse(s) matches Some(c) ==> spec_alpha2(c) == s,
{
    if s[1] == 'E' {
        reveal_strlit("DE");
        assert("DE"@ =~= s);
    } else if s[1] == 'J' {
        reveal_strlit("DJ");
        assert("DJ"@ =~= s);
    } else if s[1] == 'K' {
        reveal_strlit("DK");
        assert("DK"@ =~= s);
    } else if s[1] == 'M' {
        reveal_strlit("DM");
        assert("DM"@ =~= s);
    } else if s[1] == 'O' {
        reveal_strlit("DO");
        assert("DO"@ =~= s);
    } else if s[1] == 'Z' {
        reveal_strlit("DZ");
        assert("DZ"@ =~= s);
    }
}

proof fn lemma_parse_sound_part4(s: Seq<char>)
    requires
        s.len() == 2,
        s[0] == 'E',
    ensures
        spec_parse(s) matches Some(c) ==> spec_alpha2(c) == s,
{
    if s[1] == 'C' {
        reveal_strlit("EC");
        assert("EC"@ =~= s);
    } else if s[1] == 'E' {
        reveal_strlit("EE");
        assert("EE"@ =~= s);
    } else if s[1] == 'G' {
        reveal_strlit("EG");
        assert("EG"@ =~= s);
    } else if s[1] == 'H' {
        reveal_strlit("EH");
        assert("EH"@ =~= s);
    } else if s[1] == 'R' {
        reveal_strlit("ER");
        assert("ER"@ =~= s);
    } else if s[1] == 'S' {
        reveal_strlit("ES");
        assert("ES"@ =~= s);
    } else if s[1] == 'T' {
        reveal_strlit("ET");
        assert("ET"@ =~= s);
    }
}

proof fn lemma_parse_sound_part5(s: Seq<char>)
    requires
        s.len() == 2,
        s[0] == 'F',
    ensures
        spec_parse(s) matches Some(c) ==> spec_alpha2(c) == s,
{
    if s[1] == 'I' {
        reveal_strlit("FI");
        assert("FI"@ =~= s);
    } else if s[1] == 'J' {
        reveal_strlit("FJ");
        assert("FJ"@ =~= s);
    } else if s[1] == 'K' {
        reveal_strlit("FK");
        assert("FK"@ =~= s);
    } else if s[1] == 'M' {
        reveal_strlit("FM");
        assert("FM"@ =~= s);
    } else if s[1] == 'O' {
        reveal_strlit("FO");
        assert("FO"@ =~= s);
    } else if s[1] == 'R' {
        reveal_strlit("FR");
        assert("FR"@ =~= s);
    }
}

proof fn lemma_parse_sound_part6(s: Seq<char>)
    requires
        s.len() == 2,
        s[0] == 'G',
    ensures
        spec_parse(s) matches Some(c) ==> spec_alpha2(c) == s,
{
    if s[1] == 'A' {
        reveal_strlit("GA");
        assert("GA"@ =~= s);
    } else if s[1] == 'B' {
        reveal_strlit("GB");
        assert("GB"@ =~= s);
    } else if s[1] == 'D' {
        reveal_strlit("GD");
        assert("GD"@ =~= s);
    } else if s[1] == 'E' {
        reveal_strlit("GE");
        assert("GE"@ =~= s);
    } else if s[1] == 'F' {
        reveal_strlit("GF");
        assert("GF"@ =~= s);
    } else if s[1] == 'G' {
        reveal_strlit("GG");
        assert("GG"@ =~= s);
    } else if s[1] == 'H' {
        reveal_strlit("GH");
        assert("GH"@ =~= s);
    } else if s[1] == 'I' {
        reveal_strlit("GI");
        assert("GI"@ =~= s);
    } else if s[1] == 'L' {
        reveal_strlit("GL");
        assert("GL"@ =~= s);
    } else if s[1] == 'M' {
        reveal_strlit("GM");
        assert("GM"@ =~= s);
    } else if s[1] == 'N' {
        reveal_strlit("GN");
        assert("GN"@ =~= s);
    } else if s[1] == 'P' {
        reveal_strlit("GP");
        assert("GP"@ =~= s);
    } else if s[1] == 'Q' {
        reveal_strlit("GQ");
        assert("GQ"@ =~= s);
    } else if s[1] == 'R' {
        reveal_strlit("GR");
        assert("GR"@ =~= s);
    } else if s[1] == 'S' {
        reveal_strlit("GS");
        assert("GS"@ =~= s);
    } else if s[1] == 'T' {
        reveal_strlit("GT");
        assert("GT"@ =~= s);
    } else if s[1] == 'U' {
        reveal_strlit("GU");
        assert("GU"@ =~= s);
    } else if s[1] == 'W' {
        reveal_strlit("GW");
        assert("GW"@ =~= s);
    } else if s[1] == 'Y' {
        reveal_strlit("GY");
        assert("GY"@ =~= s);
    }
}

proof fn lemma_parse_sound_part7(s: Seq<char>)
    requires
        s.len() == 2,
        s[0] == 'H',
    ensures
        spec_parse(s) matches Some(c) ==> spec_alpha2(c) == s,
{
    if s[1] == 'K' {
        reveal_strlit("HK");
        assert("HK"@ =~= s);
    } else if s[1] == 'M' {
        reveal_strlit("HM");
        assert("HM"@ =~= s);
    } else if s[1] == 'N' {
        reveal_strlit("HN");
        assert("HN"@ =~= s);
    } else if s[1] == 'R' {
        reveal_strlit("HR");
        assert("HR"@ =~= s);
    } else if s[1] == 'T' {
        reveal_strlit("HT");
        assert("HT"@ =~= s);
    } else if s[1] == 'U' {
        reveal_strlit("HU");
        assert("HU"@ =~= s);
    }
}

proof fn lemma_parse_sound_part8(s: Seq<char>)
    requires
        s.len() == 2,
        s[0] == 'I',
    ensures
        spec_parse(s) matches Some(c) ==> spec_alpha2(c) == s,
{
    if s[1] == 'D' {
        reveal_strlit("ID");
        assert("ID"@ =~= s);
    } else if s[1] == 'E' {
        reveal_strlit("IE");
        assert("IE"@ =~= s);
    } else if s[1] == 'L' {
        reveal_strlit("IL");
        assert("IL"@ =~= s);
    } else if s[1] == 'M' {
        reveal_strlit("IM");
        assert("IM"@ =~= s);
    } else if s[1] == 'N' {
        reveal_strlit("IN");
        assert("IN"@ =~= s);
    } else if s[1] == 'O' {
        reveal_strlit("IO");
        assert("IO"@ =~= s);
    } else if s[1] == 'Q' {
        reveal_strlit("IQ");
        assert("IQ"@ =~= s);
    } else if s[1] == 'R' {
        reveal_strlit("IR");
        assert("IR"@ =~= s);
    } else if s[1] == 'S' {
        reveal_strlit("IS");
        assert("IS"@ =~= s);
    } else if s[1] == 'T' {
        reveal_strlit("IT");
        assert("IT"@ =~= s);
    }
}

proof fn lemma_parse_sound_part9(s: Seq<char>)
    requires
        s.len() == 2,
        s[0] == 'J',
    ensures
        spec_parse(s) matches Some(c) ==> spec_alpha2(c) == s,
{
    if s[1] == 'E' {
        reveal_strlit("JE");
        assert("JE"@ =~= s);
    } else if s[1] == 'M' {
        reveal_strlit("JM");
        assert("JM"@ =~= s);
    } else if s[1] == 'O' {
        reveal_strlit("JO");
        assert("JO"@ =~= s);
    } else if s[1] == 'P' {
        reveal_strlit("JP");
        assert("JP"@ =~= s);
    }
}

proof fn lemma_parse_sound_part10(s: Seq<char>)
    requires
        s.len() == 2,
        s[0] == 'K',
    ensures
        spec_parse(s) matches Some(c) ==> spec_alpha2(c) == s,
{
    if s[1] == 'E' {
        reveal_strlit("KE");
        assert("KE"@ =~= s);
    } else if s[1] == 'G' {
        reveal_strlit("KG");
        assert("KG"@ =~= s);
    } else if s[1] == 'H' {
        reveal_strlit("KH");
        assert("KH"@ =~= s);
    } else if s[1] == 'I' {
        reveal_strlit("KI");
        assert("KI"@ =~= s);
    } else if s[1] == 'M' {
        reveal_strlit("KM");
        assert("KM"@ =~= s);
    } else if s[1] == 'N' {
        reveal_strlit("KN");
        assert("KN"@ =~= s);
    } else if s[1] == 'P' {
        reveal_strlit("KP");
        assert("KP"@ =~= s);
    } else if s[1] == 'R' {
        reveal_strlit("KR");
        assert("KR"@ =~= s);
    } else if s[1] == 'W' {
        reveal_strlit("KW");
        assert("KW"@ =~= s);
    } else if s[1] == 'Y' {
        reveal_strlit("KY");
        assert("KY"@ =~= s);
    } else if s[1] == 'Z' {
        reveal_strlit("KZ");
        assert("KZ"@ =~= s);
    }
}

proof fn lemma_parse_sound_part11(s: Seq<char>)
    requires
        s.len() == 2,
        s[0] == 'L',
    ensures
        spec_parse(s) matches Some(c) ==> spec_alpha2(c) == s,
{
    if s[1] == 'A' {
        reveal_strlit("LA");
        assert("LA"@ =~= s);
    } else if s[1] == 'B' {
        reveal_strlit("LB");
        assert("LB"@ =~= s);
    } else if s[1] == 'C' {
        reveal_strlit("LC");
        assert("LC"@ =~= s);
    } else if s[1] == 'I' {
        reveal_strlit("LI");
        assert("LI"@ =~= s);
    } else if s[1] == 'K' {
        reveal_strlit("LK");
        assert("LK"@ =~= s);
    } else if s[1] == 'R' {
        reveal_strlit("LR");
        assert("LR"@ =~= s);
    } else if s[1] == 'S' {
        reveal_strlit("LS");
        assert("LS"@ =~= s);
    } else if s[1] == 'T' {
        reveal_strlit("LT");
        assert("LT"@ =~= s);
    } else if s[1] == 'U' {
        reveal_strlit("LU");
        assert("LU"@ =~= s);
    } else if s[1] == 'V' {
        reveal_strlit("LV");
        assert("LV"@ =~= s);
    } else if s[1] == 'Y' {
        reveal_strlit("LY");
        assert("LY"@ =~= s);
    }
}

proof fn lemma_parse_sound_part12(s: Seq<char>)
    requires
        s.len() == 2,
        s[0] == 'M',
    ensures
        spec_parse(s) matches Some(c) ==> spec_alpha2(c) == s,
{
    if s[1] == 'A' {
        reveal_strlit("MA");
        assert("MA"@ =~= s);
    } else if s[1] == 'C' {
        reveal_strlit("MC");
        assert("MC"@ =~= s);
    } else if s[1] == 'D' {
        reveal_strlit("MD");
        assert("MD"@ =~= s);
    } else if s[1] == 'E' {
        reveal_strlit("ME");
        assert("ME"@ =~= s);
    } else if s[1] == 'F' {
        reveal_strlit("MF");
        assert("MF"@ =~= s);
    } else if s[1] == 'G' {
        reveal_strlit("MG");
        assert("MG"@ =~= s);
    } else if s[1] == 'H' {
        reveal_strlit("MH");
        assert("MH"@ =~= s);
    } else if s[1] == 'K' {
        reveal_strlit("MK");
        assert("MK"@ =~= s);
    } else if s[1] == 'L' {
        reveal_strlit("ML");
        assert("ML"@ =~= s);
    } else if s[1] == 'M' {
        reveal_strlit("MM");
        assert("MM"@ =~= s);
    } else if s[1] == 'N' {
        reveal_strlit("MN");
        assert("MN"@ =~= s);
    } else if s[1] == 'O' {
        reveal_strlit("MO");
        assert("MO"@ =~= s);
    } else if s[1] == 'P' {
        reveal_strlit("MP");
        assert("MP"@ =~= s);
    } else if s[1] == 'Q' {
        reveal_strlit("MQ");
        assert("MQ"@ =~= s);
    } else if s[1] == 'R' {
        reveal_strlit("MR");
        assert("MR"@ =~= s);
    } else if s[1] == 'S' {
        reveal_strlit("MS");
        assert("MS"@ =~= s);
    } else if s[1] == 'T' {
        reveal_strlit("MT");
        assert("MT"@ =~= s);
    } else if s[1] == 'U' {
        reveal_strlit("MU");
        assert("MU"@ =~= s);
    } else if s[1] == 'V' {
        reveal_strlit("MV");
        assert("MV"@ =~= s);
    } else if s[1] == 'W' {
        reveal_strlit("MW");
        assert("MW"@ =~= s);
    } else if s[1] == 'X' {
        reveal_strlit("MX");
        assert("MX"@ =~= s);
    } else if s[1] == 'Y' {
        reveal_strlit("MY");
        assert("MY"@ =~= s);
    } else if s[1] == 'Z' {
        reveal_strlit("MZ");
        assert("MZ"@ =~= s);
    }
}

proof fn lemma_parse_sound_part13(s: Seq<char>)
    requires
        s.len() == 2,
        s[0] == 'N',
    ensures
        spec_parse(s) matches Some(c) ==> spec_alpha2(c) == s,
{
    if s[1] == 'A' {
        reveal_strlit("NA");
        assert("NA"@ =~= s);
    } else if s[1] == 'C' {
        reveal_strlit("NC");
        assert("NC"@ =~= s);
    } else if s[1] == 'E' {
        reveal_strlit("NE");
        assert("NE"@ =~= s);
    } else if s[1] == 'F' {
        reveal_strlit("NF");
        assert("NF"@ =~= s);
    } else if s[1] == 'G' {
        reveal_strlit("NG");
        assert("NG"@ =~= s);
    } else if s[1] == 'I' {
        reveal_strlit("NI");
        assert("NI"@ =~= s);
    } else if s[1] == 'L' {
        reveal_strlit("NL");
        assert("NL"@ =~= s);
    } else if s[1] == 'O' {
        reveal_strlit("NO");
        assert("NO"@ =~= s);
    } else if s[1] == 'P' {
        reveal_strlit("NP");
        assert("NP"@ =~= s);
    } else if s[1] == 'R' {
        reveal_strlit("NR");
        assert("NR"@ =~= s);
    } else if s[1] == 'U' {
        reveal_strlit("NU");
        assert("NU"@ =~= s);
    } else if s[1] == 'Z' {
        reveal_strlit("NZ");
        assert("NZ"@ =~= s);
    }
}

proof fn lemma_parse_sound_part14(s: Seq<char>)
    requires
        s.len() == 2,
        s[0] == 'O',
    ensures
        spec_parse(s) matches Some(c) ==> spec_alpha2(c) == s,
{
    if s[1] == 'M' {
        reveal_strlit("OM");
        assert("OM"@ =~= s);
    }
}

proof fn lemma_parse_sound_part15(s: Seq<char>)
    requires
        s.len() == 2,
        s[0] == 'P',
    ensures
        spec_parse(s) matches Some(c) ==> spec_alpha2(c) == s,
{
    if s[1] == 'A' {
        reveal_strlit("PA");
        assert("PA"@ =~= s);
    } else if s[1] == 'E' {
        reveal_strlit("PE");
        assert("PE"@ =~= s);
    } else if s[1] == 'F' {
        reveal_strlit("PF");
        assert("PF"@ =~= s);
    } else if s[1] == 'G' {
        reveal_strlit("PG");
        assert("PG"@ =~= s);
    } else if s[1] == 'H' {
        reveal_strlit("PH");
        assert("PH"@ =~= s);
    } else if s[1] == 'K' {
        reveal_strlit("PK");
        assert("PK"@ =~= s);
    } else if s[1] == 'L' {
        reveal_strlit("PL");
        assert("PL"@ =~= s);
    } else if s[1] == 'M' {
        reveal_strlit("PM");
        assert("PM"@ =~= s);
    } else if s[1] == 'N' {
        reveal_strlit("PN");
        assert("PN"@ =~= s);
    } else if s[1] == 'R' {
        reveal_strlit("PR");
        assert("PR"@ =~= s);
    } else if s[1] == 'S' {
        reveal_strlit("PS");
        assert("PS"@ =~= s);
    } else if s[1] == 'T' {
        reveal_strlit("PT");
        assert("PT"@ =~= s);
    } else if s[1] == 'W' {
        reveal_strlit("PW");
        assert("PW"@ =~= s);
    } else if s[1] == 'Y' {
        reveal_strlit("PY");
        assert("PY"@ =~= s);
    }
}

proof fn lemma_parse_sound_part16(s: Seq<char>)
    requires
        s.len() == 2,
        s[0] == 'Q',
    ensures
        spec_parse(s) matches Some(c) ==> spec_alpha2(c) == s,
{
    if s[1] == 'A' {
        reveal_strlit("QA");
        assert("QA"@ =~= s);
    }
}

proof fn lemma_parse_sound_part17(s: Seq<char>)
    requires
        s.len() == 2,
        s[0] == 'R',
    ensures
        spec_parse(s) matches Some(c) ==> spec_alpha2(c) == s,
{
    if s[1] == 'E' {
        reveal_strlit("RE");
        assert("RE"@ =~= s);
    } else if s[1] == 'O' {
        reveal_strlit("RO");
        assert("RO"@ =~= s);
    } else if s[1] == 'S' {
        reveal_strlit("RS");
        assert("RS"@ =~= s);
    } else if s[1] == 'U' {
        reveal_strlit("RU");
        assert("RU"@ =~= s);
    } else if s[1] == 'W' {
        reveal_strlit("RW");
        assert("RW"@ =~= s);
    }
}

proof fn lemma_parse_sound_part18(s: Seq<char>)
    requires
        s.len() == 2,
        s[0] == 'S',
    ensures
        spec_parse(s) matches Some(c) ==> spec_alpha2(c) == s,
{
    if s[1] == 'A' {
        reveal_strlit("SA");
        assert("SA"@ =~= s);
    } else if s[1] == 'B' {
        reveal_strlit("SB");
        assert("SB"@ =~= s);
    } else if s[1] == 'C' {
        reveal_strlit("SC");
        assert("SC"@ =~= s);
    } else if s[1] == 'D' {
        reveal_strlit("SD");
        assert("SD"@ =~= s);
    } else if s[1] == 'E' {
        reveal_strlit("SE");
        assert("SE"@ =~= s);
    } else if s[1] == 'G' {
        reveal_strlit("SG");
        assert("SG"@ =~= s);
    } else if s[1] == 'H' {
        reveal_strlit("SH");
        assert("SH"@ =~= s);
    } else if s[1] == 'I' {
        reveal_strlit("SI");
        assert("SI"@ =~= s);
    } else if s[1] == 'J' {
        reveal_strlit("SJ");
        assert("SJ"@ =~= s);
    } else if s[1] == 'K' {
        reveal_strlit("SK");
        assert("SK"@ =~= s);
    } else if s[1] == 'L' {
        reveal_strlit("SL");
        assert("SL"@ =~= s);
    } else if s[1] == 'M' {
        reveal_strlit("SM");
        assert("SM"@ =~= s);
    } else if s[1] == 'N' {
        reveal_strlit("SN");
        assert("SN"@ =~= s);
    } else if s[1] == 'O' {
        reveal_strlit("SO");
        assert("SO"@ =~= s);
    } else if s[1] == 'R' {
        reveal_strlit("SR");
        assert("SR"@ =~= s);
    } else if s[1] == 'S' {
        reveal_strlit("SS");
        assert("SS"@ =~= s);
    } else if s[1] == 'T' {
        reveal_strlit("ST");
        assert("ST"@ =~= s);
    } else if s[1] == 'V' {
        reveal_strlit("SV");
        assert("SV"@ =~= s);
    } else if s[1] == 'X' {
        reveal_strlit("SX");
        assert("SX"@ =~= s);
    } else if s[1] == 'Y' {
        reveal_strlit("SY");
        assert("SY"@ =~= s);
    } else if s[1] == 'Z' {
        reveal_strlit("SZ");
        assert("SZ"@ =~= s);
    }
}

proof fn lemma_parse_sound_part19(s: Seq<char>)
    requires
        s.len() == 2,
        s[0] == 'T',
    ensures
        spec_parse(s) matches Some(c) ==> spec_alpha2(c) == s,
{
    if s[1] == 'C' {
        reveal_strlit("TC");
        assert("TC"@ =~= s);
    } else if s[1] == 'D' {
        reveal_strlit("TD");
        assert("TD"@ =~= s);
    } else if s[1] == 'F' {
        reveal_strlit("TF");
        assert("TF"@ =~= s);
    } else if s[1] == 'G' {
        reveal_strlit("TG");
        assert("TG"@ =~= s);
    } else if s[1] == 'H' {
        reveal_strlit("TH");
        assert("TH"@ =~= s);
    } else if s[1] == 'J' {
        reveal_strlit("TJ");
        assert("TJ"@ =~= s);
    } else if s[1] == 'K' {
        reveal_strlit("TK");
        assert("TK"@ =~= s);
    } else if s[1] == 'L' {
        reveal_strlit("TL");
        assert("TL"@ =~= s);
    } else if s[1] == 'M' {
        reveal_strlit("TM");
        assert("TM"@ =~= s);
    } else if s[1] == 'N' {
        reveal_strlit("TN");
        assert("TN"@ =~= s);
    } else if s[1] == 'O' {
        reveal_strlit("TO");
        assert("TO"@ =~= s);
    } else if s[1] == 'R' {
        reveal_strlit("TR");
        assert("TR"@ =~= s);
    } else if s[1] == 'T' {
        reveal_strlit("TT");
        assert("TT"@ =~= s);
    } else if s[1] == 'V' {
        reveal_strlit("TV");
        assert("TV"@ =~= s);
    } else if s[1] == 'W' {
        reveal_strlit("TW");
        assert("TW"@ =~= s);
    } else if s[1] == 'Z' {
        reveal_strlit("TZ");
        assert("TZ"@ =~= s);
    }
}

proof fn lemma_parse_sound_part20(s: Seq<char>)
    requires
        s.len() == 2,
        s[0] == 'U',
    ensures
        spec_parse(s) matches Some(c) ==> spec_alpha2(c) == s,
{
    if s[1] == 'A' {
        reveal_strlit("UA");
        assert("UA"@ =~= s);
    } else if s[1] == 'G' {
        reveal_strlit("UG");
        assert("UG"@ =~= s);
    } else if s[1] == 'M' {
        reveal_strlit("UM");
        assert("UM"@ =~= s);
    } else if s[1] == 'S' {
        reveal_strlit("US");
        assert("US"@ =~= s);
    } else if s[1] == 'Y' {
        reveal_strlit("UY");
        assert("UY"@ =~= s);
    } else if s[1] == 'Z' {
        reveal_strlit("UZ");
        assert("UZ"@ =~= s);
    }
}

proof fn lemma_parse_sound_part21(s: Seq<char>)
    requires
        s.len() == 2,
        s[0] == 'V',
    ensures
        spec_parse(s) matches Some(c) ==> spec_alpha2(c) == s,
{
    if s[1] == 'A' {
        reveal_strlit("VA");
        assert("VA"@ =~= s);
    } else if s[1] == 'C' {
        reveal_strlit("VC");
        assert("VC"@ =~= s);
    } else if s[1] == 'E' {
        reveal_strlit("VE");
        assert("VE"@ =~= s);
    } else if s[1] == 'G' {
        reveal_strlit("VG");
        assert("VG"@ =~= s);
    } else if s[1] == 'I' {
        reveal_strlit("VI");
        assert("VI"@ =~= s);
    } else if s[1] == 'N' {
        reveal_strlit("VN");
        assert("VN"@ =~= s);
    } else if s[1] == 'U' {
        reveal_strlit("VU");
        assert("VU"@ =~= s);
    }
}

proof fn lemma_parse_sound_part22(s: Seq<char>)
    requires
        s.len() == 2,
        s[0] == 'W',
    ensures
        spec_parse(s) matches Some(c) ==> spec_alpha2(c) == s,
{
    if s[1] == 'F' {
        reveal_strlit("WF");
        assert("WF"@ =~= s);
    } else if s[1] == 'S' {
        reveal_strlit("WS");
        assert("WS"@ =~= s);
    }
}

proof fn lemma_parse_sound_part23(s: Seq<char>)
    requires
        s.len() == 2,
        s[0] == 'Y',
    ensures
        spec_parse(s) matches Some(c) ==> spec_alpha2(c) == s,
{
    if s[1] == 'E' {
        reveal_strlit("YE");
        assert("YE"@ =~= s);
    } else if s[1] == 'T' {
        reveal_strlit("YT");
        assert("YT"@ =~= s);
    }
}

proof fn lemma_parse_sound_part24(s: Seq<char>)
    requires
        s.len() == 2,
        s[0] == 'Z',
    ensures
        spec_parse(s) matches Some(c) ==> spec_alpha2(c) == s,
{
    if s[1] == 'A' {
        reveal_strlit("ZA");
        assert("ZA"@ =~= s);
    } else if s[1] == 'M' {
        reveal_strlit("ZM");
        assert("ZM"@ =~= s);
    } else if s[1] == 'W' {
        reveal_strlit("ZW");
        assert("ZW"@ =~= s);
    }
}

/// A successful specification-level parse returns a country whose
/// alpha-2 code is the parsed string.
pub proof fn lemma_parse_sound(s: Seq<char>)
    ensures
        spec_parse(s) matches Some(c) ==> spec_alpha2(c) == s,
{
    if s.len() == 0 {
        reveal_strlit("");
        assert(""@ =~= s);
    } else if s.len() == 2 {
        if s[0] == 'A' {
            lemma_parse_sound_part0(s);
        } else if s[0] == 'B' {
            lemma_parse_sound_part1(s);
        } else if s[0] == 'C' {
            lemma_parse_sound_part2(s);
        } else if s[0] == 'D' {
            lemma_parse_sound_part3(s);
        } else if s[0] == 'E' {
            lemma_parse_sound_part4(s);
        } else if s[0] == 'F' {
            lemma_parse_sound_part5(s);
        } else if s[0] == 'G' {
            lemma_parse_sound_part6(s);
        } else if s[0] == 'H' {
            lemma_parse_sound_part7(s);
        } else if s[0] == 'I' {
            lemma_parse_sound_part8(s);
        } else if s[0] == 'J' {
            lemma_parse_sound_part9(s);
        } else if s[0] == 'K' {
            lemma_parse_sound_part10(s);
        } else if s[0] == 'L' {
            lemma_parse_sound_part11(s);
        } else if s[0] == 'M' {
            lemma_parse_sound_part12(s);
        } else if s[0] == 'N' {
            lemma_parse_sound_part13(s);
        } else if s[0] == 'O' {
            lemma_parse_sound_part14(s);
        } else if s[0] == 'P' {
            lemma_parse_sound_part15(s);
        } else if s[0] == 'Q' {
            lemma_parse_sound_part16(s);
        } else if s[0] == 'R' {
            lemma_parse_sound_part17(s);
        } else if s[0] == 'S' {
            lemma_parse_sound_part18(s);
        } else if s[0] == 'T' {
            lemma_parse_sound_part19(s);
        } else if s[0] == 'U' {
            lemma_parse_sound_part20(s);
        } else if s[0] == 'V' {
            lemma_parse_sound_part21(s);
        } else if s[0] == 'W' {
            lemma_parse_sound_part22(s);
        } else if s[0] == 'Y' {
            lemma_parse_sound_part23(s);
        } else if s[0] == 'Z' {
            lemma_parse_sound_part24(s);
        }
    }
}

proof fn lemma_from_name_complete_part0()
    ensures
        spec_from_name(spec_name(Country::AF)) == Some(Country::AF),
        spec_from_name(spec_name(Country::AL)) == Some(Country::AL),
        spec_from_name(spec_name(Country::DZ)) == Some(Country::DZ),
        spec_from_name(spec_name(Country::AS)) == Some(Country::AS),
        spec_from_name(spec_name(Country::AD)) == Some(Country::AD),
        spec_from_name(spec_name(Country::AO)) == Some(Country::AO),
        spec_from_name(spec_name(Country::AI)) == Some(Country::AI),
        spec_from_name(spec_name(Country::AQ)) == Some(Country::AQ),
        spec_from_name(spec_name(Country::AG)) == Some(Country::AG),
        spec_from_name(spec_name(Country::AR)) == Some(Country::AR),
        spec_from_name(spec_name(Country::AM)) == Some(Country::AM),
        spec_from_name(spec_name(Country::AW)) == Some(Country::AW),
        spec_from_name(spec_name(Country::AU)) == Some(Country::AU),
        spec_from_name(spec_name(Country::AT)) == Some(Country::AT),
        spec_from_name(spec_name(Country::AZ)) == Some(Country::AZ),
{
    reveal_strlit("Afghanistan");
    reveal_strlit("Albania");
    reveal_strlit("Algeria");
    reveal_strlit("American Samoa");
    reveal_strlit("Andorra");
    reveal_strlit("Angola");
    reveal_strlit("Anguilla");
    reveal_strlit("Antarctica");
    reveal_strlit("Antigua and Barbuda");
    reveal_strlit("Argentina");
    reveal_strlit("Armenia");
    reveal_strlit("Aruba");
    reveal_strlit("Australia");
    reveal_strlit("Austria");
    reveal_strlit("Azerbaijan");
    assert(("Algeria"@)[2] != ("Albania"@)[2]);
    assert(("Andorra"@)[1] != ("Albania"@)[1]);
    assert(("Andorra"@)[1] != ("Algeria"@)[1]);
    assert(("Armenia"@)[1] != ("Albania"@)[1]);
    assert(("Armenia"@)[1] != ("Algeria"@)[1]);
    assert(("Armenia"@)[1] != ("Andorra"@)[1]);
    assert(("Australia"@)[1] != ("Argentina"@)[1]);
    assert(("Austria"@)[1] != ("Albania"@)[1]);
    assert(("Austria"@)[1] != ("Algeria"@)[1]);
    assert(("Austria"@)[1] != ("Andorra"@)[1]);
    assert(("Austria"@)[1] != ("Armenia"@)[1]);
    assert(("Azerbaijan"@)[1] != ("Antarctica"@)[1]);
}

proof fn lemma_from_name_complete_part1()
    ensures
        spec_from_name(spec_name(Country::BS)) == Some(Country::BS),
        spec_from_name(spec_name(Country::BH)) == Some(Country::BH),
        spec_from_name(spec_name(Country::BD)) == Some(Country::BD),
        spec_from_name(spec_name(Country::BB)) == Some(Country::BB),
        spec_from_name(spec_name(Country::BY)) == Some(Country::BY),
        spec_from_name(spec_name(Country::BE)) == Some(Country::BE),
        spec_from_name(spec_name(Country::BZ)) == Some(Country::BZ),
        spec_from_name(spec_name(Country::BJ)) == Some(Country::BJ),
        spec_from_name(spec_name(Country::BM)) == Some(Country::BM),
        spec_from_name(spec_name(Country::BT)) == Some(Country::BT),
        spec_from_name(spec_name(Country::BO)) == Some(Country::BO),
        spec_from_name(spec_name(Country::BQ)) == Some(Country::BQ),
        spec_from_name(spec_name(Country::BA)) == Some(Country::BA),
        spec_from_name(spec_name(Country::BW)) == Some(Country::BW),
        spec_from_name(spec_name(Country::BV)) == Some(Country::BV),
        spec_from_name(spec_name(Country::BR)) == Some(Country::BR),
        spec_from_name(spec_name(Country::IO)) == Some(Country::IO),
        spec_from_name(spec_name(Country::BN)) == Some(Country::BN),
        spec_from_name(spec_name(Country::BG)) == Some(Country::BG),
        spec_from_name(spec_name(Country::BF)) == Some(Country::BF),
        spec_from_name(spec_name(Country::BI)) == Some(Country::BI),
{
    reveal_strlit("Bahamas");
    reveal_strlit("Bahrain");
    reveal_strlit("Bangladesh");
    reveal_strlit("Barbados");
    reveal_strlit("Belarus");
    reveal_strlit("Belgium");
    reveal_strlit("Belize");
    reveal_strlit("Benin");
    reveal_strlit("Bermuda");
    reveal_strlit("Bhutan");
    reveal_strlit("Bolivia (Plurinational State of)");
    reveal_strlit("Bonaire, Sint Eustatius and Saba");
    reveal_strlit("Bosnia and Herzegovina");
    reveal_strlit("Botswana");
    reveal_strlit("Bouvet Island");
    reveal_strlit("Brazil");
    reveal_strlit("British Indian Ocean Territory");
    reveal_strlit("Brunei Darussalam");
    reveal_strlit("Bulgaria");
    reveal_strlit("Burkina Faso");
    reveal_strlit("Burundi");
    assert(("Bahrain"@)[3] != ("Bahamas"@)[3]);
    assert(("Belarus"@)[1] != ("Bahamas"@)[1]);
    assert(("Belarus"@)[1] != ("Bahrain"@)[1]);
    assert(("Belgium"@)[1] != ("Bahamas"@)[1]);
    assert(("Belgium"@)[1] != ("Bahrain"@)[1]);
    assert(("Belgium"@)[3] != ("Belarus"@)[3]);
    assert(("Bermuda"@)[1] != ("Bahamas"@)[1]);
    assert(("Bermuda"@)[1] != ("Bahrain"@)[1]);
    assert(("Bermuda"@)[2] != ("Belarus"@)[2]);
    assert(("Bermuda"@)[2] != ("Belgium"@)[2]);
    assert(("Bhutan"@)[1] != ("Belize"@)[1]);
    assert(("Bonaire, Sint Eustatius and Saba"@)[2] != ("Bolivia (Plurinational State of)"@)[2]);
    assert(("Botswana"@)[1] != ("Barbados"@)[1]);
    assert(("Brazil"@)[1] != ("Belize"@)[1]);
    assert(("Brazil"@)[1] != ("Bhutan"@)[1]);
    assert(("Bulgaria"@)[1] != ("Barbados"@)[1]);
    assert(("Bulgaria"@)[1] != ("Botswana"@)[1]);
    assert(("Burundi"@)[1] != ("Bahamas"@)[1]);
    assert(("Burundi"@)[1] != ("Bahrain"@)[1]);
    assert(("Burundi"@)[1] != ("Belarus"@)[1]);
    assert(("Burundi"@)[1] != ("Belgium"@)[1]);
    assert(("Burundi"@)[1] != ("Bermuda"@)[1]);
}

proof fn lemma_from_name_complete_part2()
    ensures
        spec_from_name(spec_name(Country::CV)) == Some(Country::CV),
        spec_from_name(spec_name(Country::KH)) == Some(Country::KH),
        spec_from_name(spec_name(Country::CM)) == Some(Country::CM),
        spec_from_name(spec_name(Country::CA)) == Some(Country::CA),
        spec_from_name(spec_name(Country::KY)) == Some(Country::KY),
        spec_from_name(spec_name(Country::CF)) == Some(Country::CF),
        spec_from_name(spec_name(Country::TD)) == Some(Country::TD),
        spec_from_name(spec_name(Country::CL)) == Some(Country::CL),
        spec_from_name(spec_name(Country::CN)) == Some(Country::CN),
        spec_from_name(spec_name(Country::CX)) == Some(Country::CX),
        spec_from_name(spec_name(Country::CC)) == Some(Country::CC),
        spec_from_name(spec_name(Country::CO)) == Some(Country::CO),
        spec_from_name(spec_name(Country::KM)) == Some(Country::KM),
        spec_from_name(spec_name(Country::CG)) == Some(Country::CG),
        spec_from_name(spec_name(Country::CD)) == Some(Country::CD),
        spec_from_name(spec_name(Country::CK)) == Some(Country::CK),
        spec_from_name(spec_name(Country::CR)) == Some(Country::CR),
        spec_from_name(spec_name(Country::HR)) == Some(Country::HR),
        spec_from_name(spec_name(Country::CU)) == Some(Country::CU),
        spec_from_name(spec_name(Country::CW)) == Some(Country::CW),
        spec_from_name(spec_name(Country::CY)) == Some(Country::CY),
        spec_from_name(spec_name(Country::CZ)) == Some(Country::CZ),
        spec_from_name(spec_name(Country::CI)) == Some(Country::CI),
{
    reveal_strlit("Cabo Verde");
    reveal_strlit("Cambodia");
    reveal_strlit("Cameroon");
    reveal_strlit("Canada");
    reveal_strlit("Cayman Islands");
    reveal_strlit("Central African Republic");
    reveal_strlit("Chad");
    reveal_strlit("Chile");
    reveal_strlit("China");
    reveal_strlit("Christmas Island");
    reveal_strlit("Cocos (Keeling) Islands");
    reveal_strlit("Colombia");
    reveal_strlit("Comoros");
    reveal_strlit("Congo");
    reveal_strlit("Congo (Democratic Republic of the)");
    reveal_strlit("Cook Islands");
    reveal_strlit("Costa Rica");
    reveal_strlit("Croatia");
    reveal_strlit("Cuba");
    reveal_strlit("Curaçao");
    reveal_strlit("Cyprus");
    reveal_strlit("Czech Republic");
    reveal_strlit("Côte d'Ivoire");
    assert(("Cameroon"@)[3] != ("Cambodia"@)[3]);
    assert(("China"@)[3] != ("Chile"@)[3]);
    assert(("Colombia"@)[1] != ("Cambodia"@)[1]);
    assert(("Colombia"@)[1] != ("Cameroon"@)[1]);
    assert(("Congo"@)[1] != ("Chile"@)[1]);
    assert(("Congo"@)[1] != ("China"@)[1]);
    assert(("Costa Rica"@)[1] != ("Cabo Verde"@)[1]);
    assert(("Croatia"@)[1] != ("Comoros"@)[1]);
    assert(("Cuba"@)[1] != ("Chad"@)[1]);
    assert(("Curaçao"@)[1] != ("Comoros"@)[1]);
    assert(("Curaçao"@)[1] != ("Croatia"@)[1]);
    assert(("Cyprus"@)[1] != ("Canada"@)[1]);
    assert(("Czech Republic"@)[1] != ("Cayman Islands"@)[1]);
}

proof fn lemma_from_name_complete_part3()
    ensures
        spec_from_name(spec_name(Country::DK)) == Some(Country::DK),
        spec_from_name(spec_name(Country::DJ)) == Some(Country::DJ),
        spec_from_name(spec_name(Country::DM)) == Some(Country::DM),
        spec_from_name(spec_name(Country::DO)) == Some(Country::DO),
{
    reveal_strlit("Denmark");
    reveal_strlit("Djibouti");
    reveal_strlit("Dominica");
    reveal_strlit("Dominican Republic");
    assert(("Dominica"@)[1] != ("Djibouti"@)[1]);
}

proof fn lemma_from_name_complete_part4()
    ensures
        spec_from_name(spec_name(Country::EC)) == Some(Country::EC),
        spec_from_name(spec_name(Country::EG)) == Some(Country::EG),
        spec_from_name(spec_name(Country::SV)) == Some(Country::SV),
        spec_from_name(spec_name(Country::GQ)) == Some(Country::GQ),
        spec_from_name(spec_name(Country::ER)) == Some(Country::ER),
        spec_from_name(spec_name(Country::EE)) == Some(Country::EE),
        spec_from_name(spec_name(Country::ET)) == Some(Country::ET),
{
    reveal_strlit("Ecuador");
    reveal_strlit("Egypt");
    reveal_strlit("El Salvador");
    reveal_strlit("Equatorial Guinea");
    reveal_strlit("Eritrea");
    reveal_strlit("Estonia");
    reveal_strlit("Ethiopia");
    assert(("Eritrea"@)[1] != ("Ecuador"@)[1]);
    assert(("Estonia"@)[1] != ("Ecuador"@)[1]);
    assert(("Estonia"@)[1] != ("Eritrea"@)[1]);
}

proof fn lemma_from_name_complete_part5()
    ensures
        spec_from_name(spec_name(Country::FK)) == Some(Country::FK),
        spec_from_name(spec_name(Country::FO)) == Some(Country::FO),
        spec_from_name(spec_name(Country::FJ)) == Some(Country::FJ),
        spec_from_name(spec_name(Country::FI)) == Some(Country::FI),
        spec_from_name(spec_name(Country::FR)) == Some(Country::FR),
        spec_from_name(spec_name(Country::GF)) == Some(Country::GF),
        spec_from_name(spec_name(Country::PF)) == Some(Country::PF),
        spec_from_name(spec_name(Country::TF)) == Some(Country::TF),
{
    reveal_strlit("Falkland Islands");
    reveal_strlit("Faroe Islands");
    reveal_strlit("Fiji");
    reveal_strlit("Finland");
    reveal_strlit("France");
    reveal_strlit("French Guiana");
    reveal_strlit("French Polynesia");
    reveal_strlit("French Southern Territories");
    assert(("French Guiana"@)[1] != ("Faroe Islands"@)[1]);
    assert(("French Polynesia"@)[1] != ("Falkland Islands"@)[1]);
}

proof fn lemma_from_name_complete_part6()
    ensures
        spec_from_name(spec_name(Country::GA)) == Some(Country::GA),
        spec_from_name(spec_name(Country::GM)) == Some(Country::GM),
        spec_from_name(spec_name(Country::GE)) == Some(Country::GE),
        spec_from_name(spec_name(Country::DE)) == Some(Country::DE),
        spec_from_name(spec_name(Country::GH)) == Some(Country::GH),
        spec_from_name(spec_name(Country::GI)) == Some(Country::GI),
        spec_from_name(spec_name(Country::GR)) == Some(Country::GR),
        spec_from_name(spec_name(Country::GL)) == Some(Country::GL),
        spec_from_name(spec_name(Country::GD)) == Some(Country::GD),
        spec_from_name(spec_name(Country::GP)) == Some(Country::GP),
        spec_from_name(spec_name(Country::GU)) == Some(Country::GU),
        spec_from_name(spec_name(Country::GT)) == Some(Country::GT),
        spec_from_name(spec_name(Country::GG)) == Some(Country::GG),
        spec_from_name(spec_name(Country::GN)) == Some(Country::GN),
        spec_from_name(spec_name(Country::GW)) == Some(Country::GW),
        spec_from_name(spec_name(Country::GY)) == Some(Country::GY),
{
    reveal_strlit("Gabon");
    reveal_strlit("Gambia");
    reveal_strlit("Georgia");
    reveal_strlit("Germany");
    reveal_strlit("Ghana");
    reveal_strlit("Gibraltar");
    reveal_strlit("Greece");
    reveal_strlit("Greenland");
    reveal_strlit("Grenada");
    reveal_strlit("Guadeloupe");
    reveal_strlit("Guam");
    reveal_strlit("Guatemala");
    reveal_strlit("Guernsey");
    reveal_strlit("Guinea");
    reveal_strlit("Guinea-Bissau");
    reveal_strlit("Guyana");
    assert(("Germany"@)[2] != ("Georgia"@)[2]);
    assert(("Ghana"@)[1] != ("Gabon"@)[1]);
    assert(("Greece"@)[1] != ("Gambia"@)[1]);
    assert(("Greenland"@)[1] != ("Gibraltar"@)[1]);
    assert(("Grenada"@)[1] != ("Georgia"@)[1]);
    assert(("Grenada"@)[1] != ("Germany"@)[1]);
    assert(("Guatemala"@)[1] != ("Gibraltar"@)[1]);
    assert(("Guatemala"@)[1] != ("Greenland"@)[1]);
    assert(("Guinea"@)[1] != ("Gambia"@)[1]);
    assert(("Guinea"@)[1] != ("Greece"@)[1]);
    assert(("Guyana"@)[1] != ("Gambia"@)[1]);
    assert(("Guyana"@)[1] != ("Greece"@)[1]);
    assert(("Guyana"@)[2] != ("Guinea"@)[2]);
}

proof fn lemma_from_name_complete_part7()
    ensures
        spec_from_name(spec_name(Country::HT)) == Some(Country::HT),
        spec_from_name(spec_name(Country::HM)) == Some(Country::HM),
        spec_from_name(spec_name(Country::VA)) == Some(Country::VA),
        spec_from_name(spec_name(Country::HN)) == Some(Country::HN),
        spec_from_name(spec_name(Country::HK)) == Some(Country::HK),
        spec_from_name(spec_name(Country::HU)) == Some(Country::HU),
{
    reveal_strlit("Haiti");
    reveal_strlit("Heard Island and McDonald Islands");
    reveal_strlit("Holy See");
    reveal_strlit("Honduras");
    reveal_strlit("Hong Kong");
    reveal_strlit("Hungary");
    assert(("Honduras"@)[2] != ("Holy See"@)[2]);
}

proof fn lemma_from_name_complete_part8()
    ensures
        spec_from_name(spec_name(Country::IS)) == Some(Country::IS),
        spec_from_name(spec_name(Country::IN)) == Some(Country::IN),
        spec_from_name(spec_name(Country::ID)) == Some(Country::ID),
        spec_from_name(spec_name(Country::IR)) == Some(Country::IR),
        spec_from_name(spec_name(Country::IQ)) == Some(Country::IQ),
        spec_from_name(spec_name(Country::IE)) == Some(Country::IE),
        spec_from_name(spec_name(Country::IM)) == Some(Country::IM),
        spec_from_name(spec_name(Country::IL)) == Some(Country::IL),
        spec_from_name(spec_name(Country::IT)) == Some(Country::IT),
{
    reveal_strlit("Iceland");
    reveal_strlit("India");
    reveal_strlit("Indonesia");
    reveal_strlit("Iran (Islamic Republic of)");
    reveal_strlit("Iraq");
    reveal_strlit("Ireland");
    reveal_strlit("Isle of Man");
    reveal_strlit("Israel");
    reveal_strlit("Italy");
    assert(("Ireland"@)[1] != ("Iceland"@)[1]);
    assert(("Italy"@)[1] != ("India"@)[1]);
}

proof fn lemma_from_name_complete_part9()
    ensures
        spec_from_name(spec_name(Country::JM)) == Some(Country::JM),
        spec_from_name(spec_name(Country::JP)) == Some(Country::JP),
        spec_from_name(spec_name(Country::JE)) == Some(Country::JE),
        spec_from_name(spec_name(Country::JO)) == Some(Country::JO),
{
    reveal_strlit("Jamaica");
    reveal_strlit("Japan");
    reveal_strlit("Jersey");
    reveal_strlit("Jordan");
    assert(("Jordan"@)[1] != ("Jersey"@)[1]);
}

proof fn lemma_from_name_complete_part10()
    ensures
        spec_from_name(spec_name(Country::KZ)) == Some(Country::KZ),
        spec_from_name(spec_name(Country::KE)) == Some(Country::KE),
        spec_from_name(spec_name(Country::KI)) == Some(Country::KI),
        spec_from_name(spec_name(Country::KP)) == Some(Country::KP),
        spec_from_name(spec_name(Country::KR)) == Some(Country::KR),
        spec_from_name(spec_name(Country::KW)) == Some(Country::KW),
        spec_from_name(spec_name(Country::KG)) == Some(Country::KG),
{
    reveal_strlit("Kazakhstan");
    reveal_strlit("Kenya");
    reveal_strlit("Kiribati");
    reveal_strlit("Korea (Democratic People's Republic of)");
    reveal_strlit("Korea (Republic of)");
    reveal_strlit("Kuwait");
    reveal_strlit("Kyrgyzstan");
    assert(("Kyrgyzstan"@)[1] != ("Kazakhstan"@)[1]);
}

proof fn lemma_from_name_complete_part11()
    ensures
        spec_from_name(spec_name(Country::LA)) == Some(Country::LA),
        spec_from_name(spec_name(Country::LV)) == Some(Country::LV),
        spec_from_name(spec_name(Country::LB)) == Some(Country::LB),
        spec_from_name(spec_name(Country::LS)) == Some(Country::LS),
        spec_from_name(spec_name(Country::LR)) == Some(Country::LR),
        spec_from_name(spec_name(Country::LY)) == Some(Country::LY),
        spec_from_name(spec_name(Country::LI)) == Some(Country::LI),
        spec_from_name(spec_name(Country::LT)) == Some(Country::LT),
        spec_from_name(spec_name(Country::LU)) == Some(Country::LU),
{
    reveal_strlit("Lao People's Democratic Republic");
    reveal_strlit("Latvia");
    reveal_strlit("Lebanon");
    reveal_strlit("Lesotho");
    reveal_strlit("Liberia");
    reveal_strlit("Libya");
    reveal_strlit("Liechtenstein");
    reveal_strlit("Lithuania");
    reveal_strlit("Luxembourg");
    assert(("Lesotho"@)[2] != ("Lebanon"@)[2]);
    assert(("Liberia"@)[1] != ("Lebanon"@)[1]);
    assert(("Liberia"@)[1] != ("Lesotho"@)[1]);
}

proof fn lemma_from_name_complete_part12()
    ensures
        spec_from_name(spec_name(Country::MO)) == Some(Country::MO),
        spec_from_name(spec_name(Country::MK)) == Some(Country::MK),
        spec_from_name(spec_name(Country::MG)) == Some(Country::MG),
        spec_from_name(spec_name(Country::MW)) == Some(Country::MW),
        spec_from_name(spec_name(Country::MY)) == Some(Country::MY),
        spec_from_name(spec_name(Country::MV)) == Some(Country::MV),
        spec_from_name(spec_name(Country::ML)) == Some(Country::ML),
        spec_from_name(spec_name(Country::MT)) == Some(Country::MT),
        spec_from_name(spec_name(Country::MH)) == Some(Country::MH),
        spec_from_name(spec_name(Country::MQ)) == Some(Country::MQ),
        spec_from_name(spec_name(Country::MR)) == Some(Country::MR),
        spec_from_name(spec_name(Country::MU)) == Some(Country::MU),
        spec_from_name(spec_name(Country::YT)) == Some(Country::YT),
        spec_from_name(spec_name(Country::MX)) == Some(Country::MX),
        spec_from_name(spec_name(Country::FM)) == Some(Country::FM),
        spec_from_name(spec_name(Country::MD)) == Some(Country::MD),
        spec_from_name(spec_name(Country::MC)) == Some(Country::MC),
        spec_from_name(spec_name(Country::MN)) == Some(Country::MN),
        spec_from_name(spec_name(Country::ME)) == Some(Country::ME),
        spec_from_name(spec_name(Country::MS)) == Some(Country::MS),
        spec_from_name(spec_name(Country::MA)) == Some(Country::MA),
        spec_from_name(spec_name(Country::MZ)) == Some(Country::MZ),
        spec_from_name(spec_name(Country::MM)) == Some(Country::MM),
{
    reveal_strlit("Macao");
    reveal_strlit("Macedonia (the former Yugoslav Republic of)");
    reveal_strlit("Madagascar");
    reveal_strlit("Malawi");
    reveal_strlit("Malaysia");
    reveal_strlit("Maldives");
    reveal_strlit("Mali");
    reveal_strlit("Malta");
    reveal_strlit("Marshall Islands");
    reveal_strlit("Martinique");
    reveal_strlit("Mauritania");
    reveal_strlit("Mauritius");
    reveal_strlit("Mayotte");
    reveal_strlit("Mexico");
    reveal_strlit("Micronesia (Federated States of)");
    reveal_strlit("Moldova (Republic of)");
    reveal_strlit("Monaco");
    reveal_strlit("Mongolia");
    reveal_strlit("Montenegro");
    reveal_strlit("Montserrat");
    reveal_strlit("Morocco");
    reveal_strlit("Mozambique");
    reveal_strlit("Myanmar");
    assert(("Maldives"@)[3] != ("Malaysia"@)[3]);
    assert(("Malta"@)[2] != ("Macao"@)[2]);
    assert(("Martinique"@)[2] != ("Madagascar"@)[2]);
    assert(("Mauritania"@)[2] != ("Madagascar"@)[2]);
    assert(("Mauritania"@)[2] != ("Martinique"@)[2]);
    assert(("Mexico"@)[1] != ("Malawi"@)[1]);
    assert(("Monaco"@)[1] != ("Malawi"@)[1]);
    assert(("Monaco"@)[1] != ("Mexico"@)[1]);
    assert(("Mongolia"@)[1] != ("Malaysia"@)[1]);
    assert(("Mongolia"@)[1] != ("Maldives"@)[1]);
    assert(("Montenegro"@)[1] != ("Madagascar"@)[1]);
    assert(("Montenegro"@)[1] != ("Martinique"@)[1]);
    assert(("Montenegro"@)[1] != ("Mauritania"@)[1]);
    assert(("Montserrat"@)[1] != ("Madagascar"@)[1]);
    assert(("Montserrat"@)[1] != ("Martinique"@)[1]);
    assert(("Montserrat"@)[1] != ("Mauritania"@)[1]);
    assert(("Montserrat"@)[4] != ("Montenegro"@)[4]);
    assert(("Morocco"@)[1] != ("Mayotte"@)[1]);
    assert(("Mozambique"@)[1] != ("Madagascar"@)[1]);
    assert(("Mozambique"@)[1] != ("Martinique"@)[1]);
    assert(("Mozambique"@)[1] != ("Mauritania"@)[1]);
    assert(("Mozambique"@)[2] != ("Montenegro"@)[2]);
    assert(("Mozambique"@)[2] != ("Montserrat"@)[2]);
    assert(("Myanmar"@)[1] != ("Mayotte"@)[1]);
    assert(("Myanmar"@)[1] != ("Morocco"@)[1]);
}

proof fn lemma_from_name_complete_part13()
    ensures
        spec_from_name(spec_name(Country::NA)) == Some(Country::NA),
        spec_from_name(spec_name(Country::NR)) == Some(Country::NR),
        spec_from_name(spec_name(Country::NP)) == Some(Country::NP),
        spec_from_name(spec_name(Country::NL)) == Some(Country::NL),
        spec_from_name(spec_name(Country::NC)) == Some(Country::NC),
        spec_from_name(spec_name(Country::NZ)) == Some(Country::NZ),
        spec_from_name(spec_name(Country::NI)) == Some(Country::NI),
        spec_from_name(spec_name(Country::NE)) == Some(Country::NE),
        spec_from_name(spec_name(Country::NG)) == Some(Country::NG),
        spec_from_name(spec_name(Country::NU)) == Some(Country::NU),
        spec_from_name(spec_name(Country::NF)) == Some(Country::NF),
        spec_from_name(spec_name(Country::MP)) == Some(Country::MP),
        spec_from_name(spec_name(Country::NO)) == Some(Country::NO),
{
    reveal_strlit("Namibia");
    reveal_strlit("Nauru");
    reveal_strlit("Nepal");
    reveal_strlit("Netherlands");
    reveal_strlit("New Caledonia");
    reveal_strlit("New Zealand");
    reveal_strlit("Nicaragua");
    reveal_strlit("Niger");
    reveal_strlit("Nigeria");
    reveal_strlit("Niue");
    reveal_strlit("Norfolk Island");
    reveal_strlit("Northern Mariana Islands");
    reveal_strlit("Norway");
    assert(("Nepal"@)[1] != ("Nauru"@)[1]);
    assert(("New Zealand"@)[2] != ("Netherlands"@)[2]);
    assert(("Niger"@)[1] != ("Nauru"@)[1]);
    assert(("Niger"@)[1] != ("Nepal"@)[1]);
    assert(("Nigeria"@)[1] != ("Namibia"@)[1]);
}

proof fn lemma_from_name_complete_part14()
    ensures
        spec_from_name(spec_name(Country::OM)) == Some(Country::OM),
{
    reveal_strlit("Oman");
}

proof fn lemma_from_name_complete_part15()
    ensures
        spec_from_name(spec_name(Country::PK)) == Some(Country::PK),
        spec_from_name(spec_name(Country::PW)) == Some(Country::PW),
        spec_from_name(spec_name(Country::PS)) == Some(Country::PS),
        spec_from_name(spec_name(Country::PA)) == Some(Country::PA),
        spec_from_name(spec_name(Country::PG)) == Some(Country::PG),
        spec_from_name(spec_name(Country::PY)) == Some(Country::PY),
        spec_from_name(spec_name(Country::PE)) == Some(Country::PE),
        spec_from_name(spec_name(Country::PH)) == Some(Country::PH),
        spec_from_name(spec_name(Country::PN)) == Some(Country::PN),
        spec_from_name(spec_name(Country::PL)) == Some(Country::PL),
        spec_from_name(spec_name(Country::PT)) == Some(Country::PT),
        spec_from_name(spec_name(Country::PR)) == Some(Country::PR),
{
    reveal_strlit("Pakistan");
    reveal_strlit("Palau");
    reveal_strlit("Palestine, State of");
    reveal_strlit("Panama");
    reveal_strlit("Papua New Guinea");
    reveal_strlit("Paraguay");
    reveal_strlit("Peru");
    reveal_strlit("Philippines");
    reveal_strlit("Pitcairn");
    reveal_strlit("Poland");
    reveal_strlit("Portugal");
    reveal_strlit("Puerto Rico");
    assert(("Paraguay"@)[2] != ("Pakistan"@)[2]);
    assert(("Pitcairn"@)[1] != ("Pakistan"@)[1]);
    assert(("Pitcairn"@)[1] != ("Paraguay"@)[1]);
    assert(("Poland"@)[1] != ("Panama"@)[1]);
    assert(("Portugal"@)[1] != ("Pakistan"@)[1]);
    assert(("Portugal"@)[1] != ("Paraguay"@)[1]);
    assert(("Portugal"@)[1] != ("Pitcairn"@)[1]);
    assert(("Puerto Rico"@)[1] != ("Philippines"@)[1]);
}

proof fn lemma_from_name_complete_part16()
    ensures
        spec_from_name(spec_name(Country::QA)) == Some(Country::QA),
{
    reveal_strlit("Qatar");
}

proof fn lemma_from_name_complete_part17()
    ensures
        spec_from_name(spec_name(Country::RO)) == Some(Country::RO),
        spec_from_name(spec_name(Country::RU)) == Some(Country::RU),
        spec_from_name(spec_name(Country::RW)) == Some(Country::RW),
        spec_from_name(spec_name(Country::RE)) == Some(Country::RE),
{
    reveal_strlit("Romania");
    reveal_strlit("Russian Federation");
    reveal_strlit("Rwanda");
    reveal_strlit("Réunion");
    assert(("Réunion"@)[1] != ("Romania"@)[1]);
}

proof fn lemma_from_name_complete_part18()
    ensures
        spec_from_name(spec_name(Country::BL)) == Some(Country::BL),
        spec_from_name(spec_name(Country::SH)) == Some(Country::SH),
        spec_from_name(spec_name(Country::KN)) == Some(Country::KN),
        spec_from_name(spec_name(Country::LC)) == Some(Country::LC),
        spec_from_name(spec_name(Country::MF)) == Some(Country::MF),
        spec_from_name(spec_name(Country::PM)) == Some(Country::PM),
        spec_from_name(spec_name(Country::VC)) == Some(Country::VC),
        spec_from_name(spec_name(Country::WS)) == Some(Country::WS),
        spec_from_name(spec_name(Country::SM)) == Some(Country::SM),
        spec_from_name(spec_name(Country::ST)) == Some(Country::ST),
        spec_from_name(spec_name(Country::SA)) == Some(Country::SA),
        spec_from_name(spec_name(Country::SN)) == Some(Country::SN),
        spec_from_name(spec_name(Country::RS)) == Some(Country::RS),
        spec_from_name(spec_name(Country::SC)) == Some(Country::SC),
        spec_from_name(spec_name(Country::SL)) == Some(Country::SL),
        spec_from_name(spec_name(Country::SG)) == Some(Country::SG),
        spec_from_name(spec_name(Country::SX)) == Some(Country::SX),
        spec_from_name(spec_name(Country::SK)) == Some(Country::SK),
        spec_from_name(spec_name(Country::SI)) == Some(Country::SI),
        spec_from_name(spec_name(Country::SB)) == Some(Country::SB),
        spec_from_name(spec_name(Country::SO)) == Some(Country::SO),
        spec_from_name(spec_name(Country::ZA)) == Some(Country::ZA),
        spec_from_name(spec_name(Country::GS)) == Some(Country::GS),
        spec_from_name(spec_name(Country::SS)) == Some(Country::SS),
        spec_from_name(spec_name(Country::ES)) == Some(Country::ES),
        spec_from_name(spec_name(Country::LK)) == Some(Country::LK),
        spec_from_name(spec_name(Country::SD)) == Some(Country::SD),
        spec_from_name(spec_name(Country::SR)) == Some(Country::SR),
        spec_from_name(spec_name(Country::SJ)) == Some(Country::SJ),
        spec_from_name(spec_name(Country::SZ)) == Some(Country::SZ),
        spec_from_name(spec_name(Country::SE)) == Some(Country::SE),
        spec_from_name(spec_name(Country::CH)) == Some(Country::CH),
        spec_from_name(spec_name(Country::SY)) == Some(Country::SY),
{
    reveal_strlit("Saint Barthélemy");
    reveal_strlit("Saint Helena, Ascension and Tristan da Cunha");
    reveal_strlit("Saint Kitts and Nevis");
    reveal_strlit("Saint Lucia");
    reveal_strlit("Saint Martin (French part)");
    reveal_strlit("Saint Pierre and Miquelon");
    reveal_strlit("Saint Vincent and the Grenadines");
    reveal_strlit("Samoa");
    reveal_strlit("San Marino");
    reveal_strlit("Sao Tome and Principe");
    reveal_strlit("Saudi Arabia");
    reveal_strlit("Senegal");
    reveal_strlit("Serbia");
    reveal_strlit("Seychelles");
    reveal_strlit("Sierra Leone");
    reveal_strlit("Singapore");
    reveal_strlit("Sint Maarten (Dutch part)");
    reveal_strlit("Slovakia");
    reveal_strlit("Slovenia");
    reveal_strlit("Solomon Islands");
    reveal_strlit("Somalia");
    reveal_strlit("South Africa");
    reveal_strlit("South Georgia and the South Sandwich Islands");
    reveal_strlit("South Sudan");
    reveal_strlit("Spain");
    reveal_strlit("Sri Lanka");
    reveal_strlit("Sudan");
    reveal_strlit("Suriname");
    reveal_strlit("Svalbard and Jan Mayen");
    reveal_strlit("Swaziland");
    reveal_strlit("Sweden");
    reveal_strlit("Switzerland");
    reveal_strlit("Syrian Arab Republic");
    assert(("Sao Tome and Principe"@)[2] != ("Saint Kitts and Nevis"@)[2]);
    assert(("Seychelles"@)[1] != ("San Marino"@)[1]);
    assert(("Sierra Leone"@)[1] != ("Saudi Arabia"@)[1]);
    assert(("Sint Maarten (Dutch part)"@)[1] != ("Saint Pierre and Miquelon"@)[1]);
    assert(("Slovenia"@)[4] != ("Slovakia"@)[4]);
    assert(("Somalia"@)[1] != ("Senegal"@)[1]);
    assert(("South Africa"@)[1] != ("Saudi Arabia"@)[1]);
    assert(("South Africa"@)[1] != ("Sierra Leone"@)[1]);
    assert(("South Georgia and the South Sandwich Islands"@)[1] != ("Saint Helena, Ascension and Tristan da Cunha"@)[1]);
    assert(("South Sudan"@)[1] != ("Saint Lucia"@)[1]);
    assert(("Spain"@)[1] != ("Samoa"@)[1]);
    assert(("Sri Lanka"@)[1] != ("Singapore"@)[1]);
    assert(("Sudan"@)[1] != ("Samoa"@)[1]);
    assert(("Sudan"@)[1] != ("Spain"@)[1]);
    assert(("Suriname"@)[1] != ("Slovakia"@)[1]);
    assert(("Suriname"@)[1] != ("Slovenia"@)[1]);
    assert(("Swaziland"@)[1] != ("Singapore"@)[1]);
    assert(("Swaziland"@)[1] != ("Sri Lanka"@)[1]);
    assert(("Sweden"@)[1] != ("Serbia"@)[1]);
    assert(("Switzerland"@)[1] != ("Saint Lucia"@)[1]);
    assert(("Switzerland"@)[1] != ("South Sudan"@)[1]);
}

proof fn lemma_from_name_complete_part19()
    ensures
        spec_from_name(spec_name(Country::TW)) == Some(Country::TW),
        spec_from_name(spec_name(Country::TJ)) == Some(Country::TJ),
        spec_from_name(spec_name(Country::TZ)) == Some(Country::TZ),
        spec_from_name(spec_name(Country::TH)) == Some(Country::TH),
        spec_from_name(spec_name(Country::TL)) == Some(Country::TL),
        spec_from_name(spec_name(Country::TG)) == Some(Country::TG),
        spec_from_name(spec_name(Country::TK)) == Some(Country::TK),
        spec_from_name(spec_name(Country::TO)) == Some(Country::TO),
        spec_from_name(spec_name(Country::TT)) == Some(Country::TT),
        spec_from_name(spec_name(Country::TN)) == Some(Country::TN),
        spec_from_name(spec_name(Country::TR)) == Some(Country::TR),
        spec_from_name(spec_name(Country::TM)) == Some(Country::TM),
        spec_from_name(spec_name(Country::TC)) == Some(Country::TC),
        spec_from_name(spec_name(Country::TV)) == Some(Country::TV),
{
    reveal_strlit("Taiwan, Province of China[a]");
    reveal_strlit("Tajikistan");
    reveal_strlit("Tanzania, United Republic of");
    reveal_strlit("Thailand");
    reveal_strlit("Timor-Leste");
    reveal_strlit("Togo");
    reveal_strlit("Tokelau");
    reveal_strlit("Tonga");
    reveal_strlit("Trinidad and Tobago");
    reveal_strlit("Tunisia");
    reveal_strlit("Turkey");
    reveal_strlit("Turkmenistan");
    reveal_strlit("Turks and Caicos Islands");
    reveal_strlit("Tuvalu");
    assert(("Tanzania, United Republic of"@)[2] != ("Taiwan, Province of China[a]"@)[2]);
    assert(("Tunisia"@)[1] != ("Tokelau"@)[1]);
    assert(("Tuvalu"@)[2] != ("Turkey"@)[2]);
}

proof fn lemma_from_name_complete_part20()
    ensures
        spec_from_name(spec_name(Country::UG)) == Some(Country::UG),
        spec_from_name(spec_name(Country::UA)) == Some(Country::UA),
        spec_from_name(spec_name(Country::AE)) == Some(Country::AE),
        spec_from_name(spec_name(Country::GB)) == Some(Country::GB),
        spec_from_name(spec_name(Country::UM)) == Some(Country::UM),
        spec_from_name(spec_name(Country::US)) == Some(Country::US),
        spec_from_name(spec_name(Country::UY)) == Some(Country::UY),
        spec_from_name(spec_name(Country::UZ)) == Some(Country::UZ),
{
    reveal_strlit("Uganda");
    reveal_strlit("Ukraine");
    reveal_strlit("United Arab Emirates");
    reveal_strlit("United Kingdom of Great Britain and Northern Ireland");
    reveal_strlit("United States Minor Outlying Islands");
    reveal_strlit("United States of America");
    reveal_strlit("Uruguay");
    reveal_strlit("Uzbekistan");
    assert(("Uruguay"@)[1] != ("Ukraine"@)[1]);
}

proof fn lemma_from_name_complete_part21()
    ensures
        spec_from_name(spec_name(Country::VU)) == Some(Country::VU),
        spec_from_name(spec_name(Country::VE)) == Some(Country::VE),
        spec_from_name(spec_name(Country::VN)) == Some(Country::VN),
        spec_from_name(spec_name(Country::VG)) == Some(Country::VG),
        spec_from_name(spec_name(Country::VI)) == Some(Country::VI),
{
    reveal_strlit("Vanuatu");
    reveal_strlit("Venezuela (Bolivarian Republic of)");
    reveal_strlit("Viet Nam");
    reveal_strlit("Virgin Islands (British)");
    reveal_strlit("Virgin Islands (U.S.)");
}

proof fn lemma_from_name_complete_part22()
    ensures
        spec_from_name(spec_name(Country::WF)) == Some(Country::WF),
        spec_from_name(spec_name(Country::EH)) == Some(Country::EH),
{
    reveal_strlit("Wallis and Futuna");
    reveal_strlit("Western Sahara");
}

proof fn lemma_from_name_complete_part23()
    ensures
        spec_from_name(spec_name(Country::YE)) == Some(Country::YE),
{
    reveal_strlit("Yemen");
}

proof fn lemma_from_name_complete_part24()
    ensures
        spec_from_name(spec_name(Country::ZM)) == Some(Country::ZM),
        spec_from_name(spec_name(Country::ZW)) == Some(Country::ZW),
{
    reveal_strlit("Zambia");
    reveal_strlit("Zimbabwe");
}

proof fn lemma_from_name_complete_part25()
    ensures
        spec_from_name(spec_name(Country::AX)) == Some(Country::AX),
{
    reveal_strlit("Åland Islands");
}

/// Every country other than the sentinel is recovered by looking up its
/// own name.
pub proof fn lemma_from_name_complete(c: Country)
    ensures
        c != Country::Unspecified ==> spec_from_name(spec_name(c)) == Some(c),
{
    lemma_from_name_complete_part0();
    lemma_from_name_complete_part1();
    lemma_from_name_complete_part2();
    lemma_from_name_complete_part3();
    lemma_from_name_complete_part4();
    lemma_from_name_complete_part5();
    lemma_from_name_complete_part6();
    lemma_from_name_complete_part7();
    lemma_from_name_complete_part8();
    lemma_from_name_complete_part9();
    lemma_from_name_complete_part10();
    lemma_from_name_complete_part11();
    lemma_from_name_complete_part12();
    lemma_from_name_complete_part13();
    lemma_from_name_complete_part14();
    lemma_from_name_complete_part15();
    lemma_from_name_complete_part16();
    lemma_from_name_complete_part17();
    lemma_from_name_complete_part18();
    lemma_from_name_complete_part19();
    lemma_from_name_complete_part20();
    lemma_from_name_complete_part21();
    lemma_from_name_complete_part22();
    lemma_from_name_complete_part23();
    lemma_from_name_complete_part24();
    lemma_from_name_complete_part25();
}

proof fn lemma_from_name_sound_part0(s: Seq<char>)
    requires
        s.len() > 0,
        s[0] == 'A',
    ensures
        spec_from_name(s) matches Some(c) ==> c != Country::Unspecified && spec_name(c) == s,
{
}

proof fn lemma_from_name_sound_part1(s: Seq<char>)
    requires
        s.len() > 0,
        s[0] == 'B',
    ensures
        spec_from_name(s) matches Some(c) ==> c != Country::Unspecified && spec_name(c) == s,
{
}

proof fn lemma_from_name_sound_part2(s: Seq<char>)
    requires
        s.len() > 0,
        s[0] == 'C',
    ensures
        spec_from_name(s) matches Some(c) ==> c != Country::Unspecified && spec_name(c) == s,
{
}

proof fn lemma_from_name_sound_part3(s: Seq<char>)
    requires
        s.len() > 0,
        s[0] == 'D',
    ensures
        spec_from_name(s) matches Some(c) ==> c != Country::Unspecified && spec_name(c) == s,
{
}

proof fn lemma_from_name_sound_part4(s: Seq<char>)
    requires
        s.len() > 0,
        s[0] == 'E',
    ensures
        spec_from_name(s) matches Some(c) ==> c != Country::Unspecified && spec_name(c) == s,
{
}

proof fn lemma_from_name_sound_part5(s: Seq<char>)
    requires
        s.len() > 0,
        s[0] == 'F',
    ensures
        spec_from_name(s) matches Some(c) ==> c != Country::Unspecified && spec_name(c) == s,
{
}

proof fn lemma_from_name_sound_part6(s: Seq<char>)
    requires
        s.len() > 0,
        s[0] == 'G',
    ensures
        spec_from_name(s) matches Some(c) ==> c != Country::Unspecified && spec_name(c) == s,
{
}

proof fn lemma_from_name_sound_part7(s: Seq<char>)
    requires
        s.len() > 0,
        s[0] == 'H',
    ensures
        spec_from_name(s) matches Some(c) ==> c != Country::Unspecified && spec_name(c) == s,
{
}

proof fn lemma_from_name_sound_part8(s: Seq<char>)
    requires
        s.len() > 0,
        s[0] == 'I',
    ensures
        spec_from_name(s) matches Some(c) ==> c != Country::Unspecified && spec_name(c) == s,
{
}

proof fn lemma_from_name_sound_part9(s: Seq<char>)
    requires
        s.len() > 0,
        s[0] == 'J',
    ensures
        spec_from_name(s) matches Some(c) ==> c != Country::Unspecified && spec_name(c) == s,
{
}

proof fn lemma_from_name_sound_part10(s: Seq<char>)
    requires
        s.len() > 0,
        s[0] == 'K',
    ensures
        spec_from_name(s) matches Some(c) ==> c != Country::Unspecified && spec_name(c) == s,
{
}

proof fn lemma_from_name_sound_part11(s: Seq<char>)
    requires
        s.len() > 0,
        s[0] == 'L',
    ensures
        spec_from_name(s) matches Some(c) ==> c != Country::Unspecified && spec_name(c) == s,
{
}

proof fn lemma_from_name_sound_part12(s: Seq<char>)
    requires
        s.len() > 0,
        s[0] == 'M',
    ensures
        spec_from_name(s) matches Some(c) ==> c != Country::Unspecified && spec_name(c) == s,
{
}

proof fn lemma_from_name_sound_part13(s: Seq<char>)
    requires
        s.len() > 0,
        s[0] == 'N',
    ensures
        spec_from_name(s) matches Some(c) ==> c != Country::Unspecified && spec_name(c) == s,
{
}

proof fn lemma_from_name_sound_part14(s: Seq<char>)
    requires
        s.len() > 0,
        s[0] == 'O',
    ensures
        spec_from_name(s) matches Some(c) ==> c != Country::Unspecified && spec_name(c) == s,
{
}

proof fn lemma_from_name_sound_part15(s: Seq<char>)
    requires
        s.len() > 0,
        s[0] == 'P',
    ensures
        spec_from_name(s) matches Some(c) ==> c != Country::Unspecified && spec_name(c) == s,
{
}

proof fn lemma_from_name_sound_part16(s: Seq<char>)
    requires
        s.len() > 0,
        s[0] == 'Q',
    ensures
        spec_from_name(s) matches Some(c) ==> c != Country::Unspecified && spec_name(c) == s,
{
}

proof fn lemma_from_name_sound_part17(s: Seq<char>)
    requires
        s.len() > 0,
        s[0] == 'R',
    ensures
        spec_from_name(s) matches Some(c) ==> c != Country::Unspecified && spec_name(c) == s,
{
}

proof fn lemma_from_name_sound_part18(s: Seq<char>)
    requires
        s.len() > 0,
        s[0] == 'S',
    ensures
        spec_from_name(s) matches Some(c) ==> c != Country::Unspecified && spec_name(c) == s,
{
}

proof fn lemma_from_name_sound_part19(s: Seq<char>)
    requires
        s.len() > 0,
        s[0] == 'T',
    ensures
        spec_from_name(s) matches Some(c) ==> c != Country::Unspecified && spec_name(c) == s,
{
}

proof fn lemma_from_name_sound_part20(s: Seq<char>)
    requires
        s.len() > 0,
        s[0] == 'U',
    ensures
        spec_from_name(s) matches Some(c) ==> c != Country::Unspecified && spec_name(c) == s,
{
}

proof fn lemma_from_name_sound_part21(s: Seq<char>)
    requires
        s.len() > 0,
        s[0] == 'V',
    ensures
        spec_from_name(s) matches Some(c) ==> c != Country::Unspecified && spec_name(c) == s,
{
}

proof fn lemma_from_name_sound_part22(s: Seq<char>)
    requires
        s.len() > 0,
        s[0] == 'W',
    ensures
        spec_from_name(s) matches Some(c) ==> c != Country::Unspecified && spec_name(c) == s,
{
}

proof fn lemma_from_name_sound_part23(s: Seq<char>)
    requires
        s.len() > 0,
        s[0] == 'Y',
    ensures
        spec_from_name(s) matches Some(c) ==> c != Country::Unspecified && spec_name(c) == s,
{
}

proof fn lemma_from_name_sound_part24(s: Seq<char>)
    requires
        s.len() > 0,
        s[0] == 'Z',
    ensures
        spec_from_name(s) matches Some(c) ==> c != Country::Unspecified && spec_name(c) == s,
{
}

proof fn lemma_from_name_sound_part25(s: Seq<char>)
    requires
        s.len() > 0,
        s[0] == 'Å',
    ensures
        spec_from_name(s) matches Some(c) ==> c != Country::Unspecified && spec_name(c) == s,
{
}

/// A successful specification-level name lookup returns a country whose
/// name is the string looked up; the sentinel is never returned.
pub proof fn lemma_from_name_sound(s: Seq<char>)
    ensures
        spec_from_name(s) matches Some(c) ==> c != Country::Unspecified && spec_name(c) == s,
{
    if s.len() > 0 {
        if s[0] == 'A' {
            lemma_from_name_sound_part0(s);
        } else if s[0] == 'B' {
            lemma_from_name_sound_part1(s);
        } else if s[0] == 'C' {
            lemma_from_name_sound_part2(s);
        } else if s[0] == 'D' {
            lemma_from_name_sound_part3(s);
        } else if s[0] == 'E' {
            lemma_from_name_sound_part4(s);
        } else if s[0] == 'F' {
            lemma_from_name_sound_part5(s);
        } else if s[0] == 'G' {
            lemma_from_name_sound_part6(s);
        } else if s[0] == 'H' {
            lemma_from_name_sound_part7(s);
        } else if s[0] == 'I' {
            lemma_from_name_sound_part8(s);
        } else if s[0] == 'J' {
            lemma_from_name_sound_part9(s);
        } else if s[0] == 'K' {
            lemma_from_name_sound_part10(s);
        } else if s[0] == 'L' {
            lemma_from_name_sound_part11(s);
        } else if s[0] == 'M' {
            lemma_from_name_sound_part12(s);
        } else if s[0] == 'N' {
            lemma_from_name_sound_part13(s);
        } else if s[0] == 'O' {
            lemma_from_name_sound_part14(s);
        } else if s[0] == 'P' {
            lemma_from_name_sound_part15(s);
        } else if s[0] == 'Q' {
            lemma_from_name_sound_part16(s);
        } else if s[0] == 'R' {
            lemma_from_name_sound_part17(s);
        } else if s[0] == 'S' {
            lemma_from_name_sound_part18(s);
        } else if s[0] == 'T' {
            lemma_from_name_sound_part19(s);
        } else if s[0] == 'U' {
            lemma_from_name_sound_part20(s);
        } else if s[0] == 'V' {
            lemma_from_name_sound_part21(s);
        } else if s[0] == 'W' {
            lemma_from_name_sound_part22(s);
        } else if s[0] == 'Y' {
            lemma_from_name_sound_part23(s);
        } else if s[0] == 'Z' {
            lemma_from_name_sound_part24(s);
        } else if s[0] == 'Å' {
            lemma_from_name_sound_part25(s);
        }
    }
}

/// The lookup table from numeric codes to countries, as a specification.
pub open spec fn spec_from_numeric(n: int) -> Option<Country> {
    if n == 0 {
        Some(Country::Unspecified)
    } else if n == 4 {
        Some(Country::AF)
    } else if n == 8 {
        Some(Country::AL)
    } else if n == 10 {
        Some(Country::AQ)
    } else if n == 12 {
        Some(Country::DZ)
    } else if n == 16 {
        Some(Country::AS)
    } else if n == 20 {
        Some(Country::AD)
    } else if n == 24 {
        Some(Country::AO)
    } else if n == 28 {
        Some(Country::AG)
    } else if n == 31 {
        Some(Country::AZ)
    } else if n == 32 {
        Some(Country::AR)
    } else if n == 36 {
        Some(Country::AU)
    } else if n == 40 {
        Some(Country::AT)
    } else if n == 44 {
        Some(Country::BS)
    } else if n == 48 {
        Some(Country::BH)
    } else if n == 50 {
        Some(Country::BD)
    } else if n == 51 {
        Some(Country::AM)
    } else if n == 52 {
        Some(Country::BB)
    } else if n == 56 {
        Some(Country::BE)
    } else if n == 60 {
        Some(Country::BM)
    } else if n == 64 {
        Some(Country::BT)
    } else if n == 68 {
        Some(Country::BO)
    } else if n == 70 {
        Some(Country::BA)
    } else if n == 72 {
        Some(Country::BW)
    } else if n == 74 {
        Some(Country::BV)
    } else if n == 76 {
        Some(Country::BR)
    } else if n == 84 {
        Some(Country::BZ)
    } else if n == 86 {
        Some(Country::IO)
    } else if n == 90 {
        Some(Country::SB)
    } else if n == 92 {
        Some(Country::VG)
    } else if n == 96 {
        Some(Country::BN)
    } else if n == 100 {
        Some(Country::BG)
    } else if n == 104 {
        Some(Country::MM)
    } else if n == 108 {
        Some(Country::BI)
    } else if n == 112 {
        Some(Country::BY)
    } else if n == 116 {
        Some(Country::KH)
    } else if n == 120 {
        Some(Country::CM)
    } else if n == 124 {
        Some(Country::CA)
    } else if n == 132 {
        Some(Country::CV)
    } else if n == 136 {
        Some(Country::KY)
    } else if n == 140 {
        Some(Country::CF)
    } else if n == 144 {
        Some(Country::LK)
    } else if n == 148 {
        Some(Country::TD)
    } else if n == 152 {
        Some(Country::CL)
    } else if n == 156 {
        Some(Country::CN)
    } else if n == 158 {
        Some(Country::TW)
    } else if n == 162 {
        Some(Country::CX)
    } else if n == 166 {
        Some(Country::CC)
    } else if n == 170 {
        Some(Country::CO)
    } else if n == 174 {
        Some(Country::KM)
    } else if n == 175 {
        Some(Country::YT)
    } else if n == 178 {
        Some(Country::CG)
    } else if n == 180 {
        Some(Country::CD)
    } else if n == 184 {
        Some(Country::CK)
    } else if n == 188 {
        Some(Country::CR)
    } else if n == 191 {
        Some(Country::HR)
    } else if n == 192 {
        Some(Country::CU)
    } else if n == 196 {
        Some(Country::CY)
    } else if n == 203 {
        Some(Country::CZ)
    } else if n == 204 {
        Some(Country::BJ)
    } else if n == 208 {
        Some(Country::DK)
    } else if n == 212 {
        Some(Country::DM)
    } else if n == 214 {
        Some(Country::DO)
    } else if n == 218 {
        Some(Country::EC)
    } else if n == 222 {
        Some(Country::SV)
    } else if n == 226 {
        Some(Country::GQ)
    } else if n == 231 {
        Some(Country::ET)
    } else if n == 232 {
        Some(Country::ER)
    } else if n == 233 {
        Some(Country::EE)
    } else if n == 234 {
        Some(Country::FO)
    } else if n == 238 {
        Some(Country::FK)
    } else if n == 239 {
        Some(Country::GS)
    } else if n == 242 {
        Some(Country::FJ)
    } else if n == 246 {
        Some(Country::FI)
    } else if n == 248 {
        Some(Country::AX)
    } else if n == 250 {
        Some(Country::FR)
    } else if n == 254 {
        Some(Country::GF)
    } else if n == 258 {
        Some(Country::PF)
    } else if n == 260 {
        Some(Country::TF)
    } else if n == 262 {
        Some(Country::DJ)
    } else if n == 266 {
        Some(Country::GA)
    } else if n == 268 {
        Some(Country::GE)
    } else if n == 270 {
        Some(Country::GM)
    } else if n == 275 {
        Some(Country::PS)
    } else if n == 276 {
        Some(Country::DE)
    } else if n == 288 {
        Some(Country::GH)
    } else if n == 292 {
        Some(Country::GI)
    } else if n == 296 {
        Some(Country::KI)
    } else if n == 300 {
        Some(Country::GR)
    } else if n == 304 {
        Some(Country::GL)
    } else if n == 308 {
        Some(Country::GD)
    } else if n == 312 {
        Some(Country::GP)
    } else if n == 316 {
        Some(Country::GU)
    } else if n == 320 {
        Some(Country::GT)
    } else if n == 324 {
        Some(Country::GN)
    } else if n == 328 {
        Some(Country::GY)
    } else if n == 332 {
        Some(Country::HT)
    } else if n == 334 {
        Some(Country::HM)
    } else if n == 336 {
        Some(Country::VA)
    } else if n == 340 {
        Some(Country::HN)
    } else if n == 344 {
        Some(Country::HK)
    } else if n == 348 {
        Some(Country::HU)
    } else if n == 352 {
        Some(Country::IS)
    } else if n == 356 {
        Some(Country::IN)
    } else if n == 360 {
        Some(Country::ID)
    } else if n == 364 {
        Some(Country::IR)
    } else if n == 368 {
        Some(Country::IQ)
    } else if n == 372 {
        Some(Country::IE)
    } else if n == 376 {
        Some(Country::IL)
    } else if n == 380 {
        Some(Country::IT)
    } else if n == 384 {
        Some(Country::CI)
    } else if n == 388 {
        Some(Country::JM)
    } else if n == 392 {
        Some(Country::JP)
    } else if n == 398 {
        Some(Country::KZ)
    } else if n == 400 {
        Some(Country::JO)
    } else if n == 404 {
        Some(Country::KE)
    } else if n == 408 {
        Some(Country::KP)
    } else if n == 410 {
        Some(Country::KR)
    } else if n == 414 {
        Some(Country::KW)
    } else if n == 417 {
        Some(Country::KG)
    } else if n == 418 {
        Some(Country::LA)
    } else if n == 422 {
        Some(Country::LB)
    } else if n == 426 {
        Some(Country::LS)
    } else if n == 428 {
        Some(Country::LV)
    } else if n == 430 {
        Some(Country::LR)
    } else if n == 434 {
        Some(Country::LY)
    } else if n == 438 {
        Some(Country::LI)
    } else if n == 440 {
        Some(Country::LT)
    } else if n == 442 {
        Some(Country::LU)
    } else if n == 446 {
        Some(Country::MO)
    } else if n == 450 {
        Some(Country::MG)
    } else if n == 454 {
        Some(Country::MW)
    } else if n == 458 {
        Some(Country::MY)
    } else if n == 462 {
        Some(Country::MV)
    } else if n == 466 {
        Some(Country::ML)
    } else if n == 470 {
        Some(Country::MT)
    } else if n == 474 {
        Some(Country::MQ)
    } else if n == 478 {
        Some(Country::MR)
    } else if n == 480 {
        Some(Country::MU)
    } else if n == 484 {
        Some(Country::MX)
    } else if n == 492 {
        Some(Country::MC)
    } else if n == 496 {
        Some(Country::MN)
    } else if n == 498 {
        Some(Country::MD)
    } else if n == 499 {
        Some(Country::ME)
    } else if n == 500 {
        Some(Country::MS)
    } else if n == 504 {
        Some(Country::MA)
    } else if n == 508 {
        Some(Country::MZ)
    } else if n == 512 {
        Some(Country::OM)
    } else if n == 516 {
        Some(Country::NA)
    } else if n == 520 {
        Some(Country::NR)
    } else if n == 524 {
        Some(Country::NP)
    } else if n == 528 {
        Some(Country::NL)
    } else if n == 531 {
        Some(Country::CW)
    } else if n == 533 {
        Some(Country::AW)
    } else if n == 534 {
        Some(Country::SX)
    } else if n == 535 {
        Some(Country::BQ)
    } else if n == 540 {
        Some(Country::NC)
    } else if n == 548 {
        Some(Country::VU)
    } else if n == 554 {
        Some(Country::NZ)
    } else if n == 558 {
        Some(Country::NI)
    } else if n == 562 {
        Some(Country::NE)
    } else if n == 566 {
        Some(Country::NG)
    } else if n == 570 {
        Some(Country::NU)
    } else if n == 574 {
        Some(Country::NF)
    } else if n == 578 {
        Some(Country::NO)
    } else if n == 580 {
        Some(Country::MP)
    } else if n == 581 {
        Some(Country::UM)
    } else if n == 583 {
        Some(Country::FM)
    } else if n == 584 {
        Some(Country::MH)
    } else if n == 585 {
        Some(Country::PW)
    } else if n == 586 {
        Some(Country::PK)
    } else if n == 591 {
        Some(Country::PA)
    } else if n == 598 {
        Some(Country::PG)
    } else if n == 600 {
        Some(Country::PY)
    } else if n == 604 {
        Some(Country::PE)
    } else if n == 608 {
        Some(Country::PH)
    } else if n == 612 {
        Some(Country::PN)
    } else if n == 616 {
        Some(Country::PL)
    } else if n == 620 {
        Some(Country::PT)
    } else if n == 624 {
        Some(Country::GW)
    } else if n == 626 {
        Some(Country::TL)
    } else if n == 630 {
        Some(Country::PR)
    } else if n == 634 {
        Some(Country::QA)
    } else if n == 638 {
        Some(Country::RE)
    } else if n == 642 {
        Some(Country::RO)
    } else if n == 643 {
        Some(Country::RU)
    } else if n == 646 {
        Some(Country::RW)
    } else if n == 652 {
        Some(Country::BL)
    } else if n == 654 {
        Some(Country::SH)
    } else if n == 659 {
        Some(Country::KN)
    } else if n == 660 {
        Some(Country::AI)
    } else if n == 662 {
        Some(Country::LC)
    } else if n == 663 {
        Some(Country::MF)
    } else if n == 666 {
        Some(Country::PM)
    } else if n == 670 {
        Some(Country::VC)
    } else if n == 674 {
        Some(Country::SM)
    } else if n == 678 {
        Some(Country::ST)
    } else if n == 682 {
        Some(Country::SA)
    } else if n == 686 {
        Some(Country::SN)
    } else if n == 688 {
        Some(Country::RS)
    } else if n == 690 {
        Some(Country::SC)
    } else if n == 694 {
        Some(Country::SL)
    } else if n == 702 {
        Some(Country::SG)
    } else if n == 703 {
        Some(Country::SK)
    } else if n == 704 {
        Some(Country::VN)
    } else if n == 705 {
        Some(Country::SI)
    } else if n == 706 {
        Some(Country::SO)
    } else if n == 710 {
        Some(Country::ZA)
    } else if n == 716 {
        Some(Country::ZW)
    } else if n == 724 {
        Some(Country::ES)
    } else if n == 728 {
        Some(Country::SS)
    } else if n == 729 {
        Some(Country::SD)
    } else if n == 732 {
        Some(Country::EH)
    } else if n == 740 {
        Some(Country::SR)
    } else if n == 744 {
        Some(Country::SJ)
    } else if n == 748 {
        Some(Country::SZ)
    } else if n == 752 {
        Some(Country::SE)
    } else if n == 756 {
        Some(Country::CH)
    } else if n == 760 {
        Some(Country::SY)
    } else if n == 762 {
        Some(Country::TJ)
    } else if n == 764 {
        Some(Country::TH)
    } else if n == 768 {
        Some(Country::TG)
    } else if n == 772 {
        Some(Country::TK)
    } else if n == 776 {
        Some(Country::TO)
    } else if n == 780 {
        Some(Country::TT)
    } else if n == 784 {
        Some(Country::AE)
    } else if n == 788 {
        Some(Country::TN)
    } else if n == 792 {
        Some(Country::TR)
    } else if n == 795 {
        Some(Country::TM)
    } else if n == 796 {
        Some(Country::TC)
    } else if n == 798 {
        Some(Country::TV)
    } else if n == 800 {
        Some(Country::UG)
    } else if n == 804 {
        Some(Country::UA)
    } else if n == 807 {
        Some(Country::MK)
    } else if n == 818 {
        Some(Country::EG)
    } else if n == 826 {
        Some(Country::GB)
    } else if n == 831 {
        Some(Country::GG)
    } else if n == 832 {
        Some(Country::JE)
    } else if n == 833 {
        Some(Country::IM)
    } else if n == 834 {
        Some(Country::TZ)
    } else if n == 840 {
        Some(Country::US)
    } else if n == 850 {
        Some(Country::VI)
    } else if n == 854 {
        Some(Country::BF)
    } else if n == 858 {
        Some(Country::UY)
    } else if n == 860 {
        Some(Country::UZ)
    } else if n == 862 {
        Some(Country::VE)
    } else if n == 876 {
        Some(Country::WF)
    } else if n == 882 {
        Some(Country::WS)
    } else if n == 887 {
        Some(Country::YE)
    } else if n == 894 {
        Some(Country::ZM)
    } else {
        None
    }
}

proof fn lemma_numeric_complete_part0()
    ensures
        spec_numeric(Country::Unspecified) == 0,
        spec_from_numeric(spec_numeric(Country::Unspecified)) == Some(Country::Unspecified),
        spec_numeric(Country::AF) == 4,
        spec_from_numeric(spec_numeric(Country::AF)) == Some(Country::AF),
        spec_numeric(Country::AL) == 8,
        spec_from_numeric(spec_numeric(Country::AL)) == Some(Country::AL),
        spec_numeric(Country::AQ) == 10,
        spec_from_numeric(spec_numeric(Country::AQ)) == Some(Country::AQ),
        spec_numeric(Country::DZ) == 12,
        spec_from_numeric(spec_numeric(Country::DZ)) == Some(Country::DZ),
        spec_numeric(Country::AS) == 16,
        spec_from_numeric(spec_numeric(Country::AS)) == Some(Country::AS),
        spec_numeric(Country::AD) == 20,
        spec_from_numeric(spec_numeric(Country::AD)) == Some(Country::AD),
        spec_numeric(Country::AO) == 24,
        spec_from_numeric(spec_numeric(Country::AO)) == Some(Country::AO),
        spec_numeric(Country::AG) == 28,
        spec_from_numeric(spec_numeric(Country::AG)) == Some(Country::AG),
        spec_numeric(Country::AZ) == 31,
        spec_from_numeric(spec_numeric(Country::AZ)) == Some(Country::AZ),
        spec_numeric(Country::AR) == 32,
        spec_from_numeric(spec_numeric(Country::AR)) == Some(Country::AR),
        spec_numeric(Country::AU) == 36,
        spec_from_numeric(spec_numeric(Country::AU)) == Some(Country::AU),
        spec_numeric(Country::AT) == 40,
        spec_from_numeric(spec_numeric(Country::AT)) == Some(Country::AT),
        spec_numeric(Country::BS) == 44,
        spec_from_numeric(spec_numeric(Country::BS)) == Some(Country::BS),
        spec_numeric(Country::BH) == 48,
        spec_from_numeric(spec_numeric(Country::BH)) == Some(Country::BH),
        spec_numeric(Country::BD) == 50,
        spec_from_numeric(spec_numeric(Country::BD)) == Some(Country::BD),
        spec_numeric(Country::AM) == 51,
        spec_from_numeric(spec_numeric(Country::AM)) == Some(Country::AM),
        spec_numeric(Country::BB) == 52,
        spec_from_numeric(spec_numeric(Country::BB)) == Some(Country::BB),
        spec_numeric(Country::BE) == 56,
        spec_from_numeric(spec_numeric(Country::BE)) == Some(Country::BE),
        spec_numeric(Country::BM) == 60,
        spec_from_numeric(spec_numeric(Country::BM)) == Some(Country::BM),
        spec_numeric(Country::BT) == 64,
        spec_from_numeric(spec_numeric(Country::BT)) == Some(Country::BT),
        spec_numeric(Country::BO) == 68,
        spec_from_numeric(spec_numeric(Country::BO)) == Some(Country::BO),
        spec_numeric(Country::BA) == 70,
        spec_from_numeric(spec_numeric(Country::BA)) == Some(Country::BA),
        spec_numeric(Country::BW) == 72,
        spec_from_numeric(spec_numeric(Country::BW)) == Some(Country::BW),
        spec_numeric(Country::BV) == 74,
        spec_from_numeric(spec_numeric(Country::BV)) == Some(Country::BV),
{
}

proof fn lemma_numeric_complete_part1()
    ensures
        spec_numeric(Country::BR) == 76,
        spec_from_numeric(spec_numeric(Country::BR)) == Some(Country::BR),
        spec_numeric(Country::BZ) == 84,
        spec_from_numeric(spec_numeric(Country::BZ)) == Some(Country::BZ),
        spec_numeric(Country::IO) == 86,
        spec_from_numeric(spec_numeric(Country::IO)) == Some(Country::IO),
        spec_numeric(Country::SB) == 90,
        spec_from_numeric(spec_numeric(Country::SB)) == Some(Country::SB),
        spec_numeric(Country::VG) == 92,
        spec_from_numeric(spec_numeric(Country::VG)) == Some(Country::VG),
        spec_numeric(Country::BN) == 96,
        spec_from_numeric(spec_numeric(Country::BN)) == Some(Country::BN),
        spec_numeric(Country::BG) == 100,
        spec_from_numeric(spec_numeric(Country::BG)) == Some(Country::BG),
        spec_numeric(Country::MM) == 104,
        spec_from_numeric(spec_numeric(Country::MM)) == Some(Country::MM),
        spec_numeric(Country::BI) == 108,
        spec_from_numeric(spec_numeric(Country::BI)) == Some(Country::BI),
        spec_numeric(Country::BY) == 112,
        spec_from_numeric(spec_numeric(Country::BY)) == Some(Country::BY),
        spec_numeric(Country::KH) == 116,
        spec_from_numeric(spec_numeric(Country::KH)) == Some(Country::KH),
        spec_numeric(Country::CM) == 120,
        spec_from_numeric(spec_numeric(Country::CM)) == Some(Country::CM),
        spec_numeric(Country::CA) == 124,
        spec_from_numeric(spec_numeric(Country::CA)) == Some(Country::CA),
        spec_numeric(Country::CV) == 132,
        spec_from_numeric(spec_numeric(Country::CV)) == Some(Country::CV),
        spec_numeric(Country::KY) == 136,
        spec_from_numeric(spec_numeric(Country::KY)) == Some(Country::KY),
        spec_numeric(Country::CF) == 140,
        spec_from_numeric(spec_numeric(Country::CF)) == Some(Country::CF),
        spec_numeric(Country::LK) == 144,
        spec_from_numeric(spec_numeric(Country::LK)) == Some(Country::LK),
        spec_numeric(Country::TD) == 148,
        spec_from_numeric(spec_numeric(Country::TD)) == Some(Country::TD),
        spec_numeric(Country::CL) == 152,
        spec_from_numeric(spec_numeric(Country::CL)) == Some(Country::CL),
        spec_numeric(Country::CN) == 156,
        spec_from_numeric(spec_numeric(Country::CN)) == Some(Country::CN),
        spec_numeric(Country::TW) == 158,
        spec_from_numeric(spec_numeric(Country::TW)) == Some(Country::TW),
        spec_numeric(Country::CX) == 162,
        spec_from_numeric(spec_numeric(Country::CX)) == Some(Country::CX),
        spec_numeric(Country::CC) == 166,
        spec_from_numeric(spec_numeric(Country::CC)) == Some(Country::CC),
        spec_numeric(Country::CO) == 170,
        spec_from_numeric(spec_numeric(Country::CO)) == Some(Country::CO),
        spec_numeric(Country::KM) == 174,
        spec_from_numeric(spec_numeric(Country::KM)) == Some(Country::KM),
{
}

proof fn lemma_numeric_complete_part2()
    ensures
        spec_numeric(Country::YT) == 175,
        spec_from_numeric(spec_numeric(Country::YT)) == Some(Country::YT),
        spec_numeric(Country::CG) == 178,
        spec_from_numeric(spec_numeric(Country::CG)) == Some(Country::CG),
        spec_numeric(Country::CD) == 180,
        spec_from_numeric(spec_numeric(Country::CD)) == Some(Country::CD),
        spec_numeric(Country::CK) == 184,
        spec_from_numeric(spec_numeric(Country::CK)) == Some(Country::CK),
        spec_numeric(Country::CR) == 188,
        spec_from_numeric(spec_numeric(Country::CR)) == Some(Country::CR),
        spec_numeric(Country::HR) == 191,
        spec_from_numeric(spec_numeric(Country::HR)) == Some(Country::HR),
        spec_numeric(Country::CU) == 192,
        spec_from_numeric(spec_numeric(Country::CU)) == Some(Country::CU),
        spec_numeric(Country::CY) == 196,
        spec_from_numeric(spec_numeric(Country::CY)) == Some(Country::CY),
        spec_numeric(Country::CZ) == 203,
        spec_from_numeric(spec_numeric(Country::CZ)) == Some(Country::CZ),
        spec_numeric(Country::BJ) == 204,
        spec_from_numeric(spec_numeric(Country::BJ)) == Some(Country::BJ),
        spec_numeric(Country::DK) == 208,
        spec_from_numeric(spec_numeric(Country::DK)) == Some(Country::DK),
        spec_numeric(Country::DM) == 212,
        spec_from_numeric(spec_numeric(Country::DM)) == Some(Country::DM),
        spec_numeric(Country::DO) == 214,
        spec_from_numeric(spec_numeric(Country::DO)) == Some(Country::DO),
        spec_numeric(Country::EC) == 218,
        spec_from_numeric(spec_numeric(Country::EC)) == Some(Country::EC),
        spec_numeric(Country::SV) == 222,
        spec_from_numeric(spec_numeric(Country::SV)) == Some(Country::SV),
        spec_numeric(Country::GQ) == 226,
        spec_from_numeric(spec_numeric(Country::GQ)) == Some(Country::GQ),
        spec_numeric(Country::ET) == 231,
        spec_from_numeric(spec_numeric(Country::ET)) == Some(Country::ET),
        spec_numeric(Country::ER) == 232,
        spec_from_numeric(spec_numeric(Country::ER)) == Some(Country::ER),
        spec_numeric(Country::EE) == 233,
        spec_from_numeric(spec_numeric(Country::EE)) == Some(Country::EE),
        spec_numeric(Country::FO) == 234,
        spec_from_numeric(spec_numeric(Country::FO)) == Some(Country::FO),
        spec_numeric(Country::FK) == 238,
        spec_from_numeric(spec_numeric(Country::FK)) == Some(Country::FK),
        spec_numeric(Country::GS) == 239,
        spec_from_numeric(spec_numeric(Country::GS)) == Some(Country::GS),
        spec_numeric(Country::FJ) == 242,
        spec_from_numeric(spec_numeric(Country::FJ)) == Some(Country::FJ),
        spec_numeric(Country::FI) == 246,
        spec_from_numeric(spec_numeric(Country::FI)) == Some(Country::FI),
        spec_numeric(Country::AX) == 248,
        spec_from_numeric(spec_numeric(Country::AX)) == Some(Country::AX),
{
}

proof fn lemma_numeric_complete_part3()
    ensures
        spec_numeric(Country::FR) == 250,
        spec_from_numeric(spec_numeric(Country::FR)) == Some(Country::FR),
        spec_numeric(Country::GF) == 254,
        spec_from_numeric(spec_numeric(Country::GF)) == Some(Country::GF),
        spec_numeric(Country::PF) == 258,
        spec_from_numeric(spec_numeric(Country::PF)) == Some(Country::PF),
        spec_numeric(Country::TF) == 260,
        spec_from_numeric(spec_numeric(Country::TF)) == Some(Country::TF),
        spec_numeric(Country::DJ) == 262,
        spec_from_numeric(spec_numeric(Country::DJ)) == Some(Country::DJ),
        spec_numeric(Country::GA) == 266,
        spec_from_numeric(spec_numeric(Country::GA)) == Some(Country::GA),
        spec_numeric(Country::GE) == 268,
        spec_from_numeric(spec_numeric(Country::GE)) == Some(Country::GE),
        spec_numeric(Country::GM) == 270,
        spec_from_numeric(spec_numeric(Country::GM)) == Some(Country::GM),
        spec_numeric(Country::PS) == 275,
        spec_from_numeric(spec_numeric(Country::PS)) == Some(Country::PS),
        spec_numeric(Country::DE) == 276,
        spec_from_numeric(spec_numeric(Country::DE)) == Some(Country::DE),
        spec_numeric(Country::GH) == 288,
        spec_from_numeric(spec_numeric(Country::GH)) == Some(Country::GH),
        spec_numeric(Country::GI) == 292,
        spec_from_numeric(spec_numeric(Country::GI)) == Some(Country::GI),
        spec_numeric(Country::KI) == 296,
        spec_from_numeric(spec_numeric(Country::KI)) == Some(Country::KI),
        spec_numeric(Country::GR) == 300,
        spec_from_numeric(spec_numeric(Country::GR)) == Some(Country::GR),
        spec_numeric(Country::GL) == 304,
        spec_from_numeric(spec_numeric(Country::GL)) == Some(Country::GL),
        spec_numeric(Country::GD) == 308,
        spec_from_numeric(spec_numeric(Country::GD)) == Some(Country::GD),
        spec_numeric(Country::GP) == 312,
        spec_from_numeric(spec_numeric(Country::GP)) == Some(Country::GP),
        spec_numeric(Country::GU) == 316,
        spec_from_numeric(spec_numeric(Country::GU)) == Some(Country::GU),
        spec_numeric(Country::GT) == 320,
        spec_from_numeric(spec_numeric(Country::GT)) == Some(Country::GT),
        spec_numeric(Country::GN) == 324,
        spec_from_numeric(spec_numeric(Country::GN)) == Some(Country::GN),
        spec_numeric(Country::GY) == 328,
        spec_from_numeric(spec_numeric(Country::GY)) == Some(Country::GY),
        spec_numeric(Country::HT) == 332,
        spec_from_numeric(spec_numeric(Country::HT)) == Some(Country::HT),
        spec_numeric(Country::HM) == 334,
        spec_from_numeric(spec_numeric(Country::HM)) == Some(Country::HM),
        spec_numeric(Country::VA) == 336,
        spec_from_numeric(spec_numeric(Country::VA)) == Some(Country::VA),
        spec_numeric(Country::HN) == 340,
        spec_from_numeric(spec_numeric(Country::HN)) == Some(Country::HN),
{
}

proof fn lemma_numeric_complete_part4()
    ensures
        spec_numeric(Country::HK) == 344,
        spec_from_numeric(spec_numeric(Country::HK)) == Some(Country::HK),
        spec_numeric(Country::HU) == 348,
        spec_from_numeric(spec_numeric(Country::HU)) == Some(Country::HU),
        spec_numeric(Country::IS) == 352,
        spec_from_numeric(spec_numeric(Country::IS)) == Some(Country::IS),
        spec_numeric(Country::IN) == 356,
        spec_from_numeric(spec_numeric(Country::IN)) == Some(Country::IN),
        spec_numeric(Country::ID) == 360,
        spec_from_numeric(spec_numeric(Country::ID)) == Some(Country::ID),
        spec_numeric(Country::IR) == 364,
        spec_from_numeric(spec_numeric(Country::IR)) == Some(Country::IR),
        spec_numeric(Country::IQ) == 368,
        spec_from_numeric(spec_numeric(Country::IQ)) == Some(Country::IQ),
        spec_numeric(Country::IE) == 372,
        spec_from_numeric(spec_numeric(Country::IE)) == Some(Country::IE),
        spec_numeric(Country::IL) == 376,
        spec_from_numeric(spec_numeric(Country::IL)) == Some(Country::IL),
        spec_numeric(Country::IT) == 380,
        spec_from_numeric(spec_numeric(Country::IT)) == Some(Country::IT),
        spec_numeric(Country::CI) == 384,
        spec_from_numeric(spec_numeric(Country::CI)) == Some(Country::CI),
        spec_numeric(Country::JM) == 388,
        spec_from_numeric(spec_numeric(Country::JM)) == Some(Country::JM),
        spec_numeric(Country::JP) == 392,
        spec_from_numeric(spec_numeric(Country::JP)) == Some(Country::JP),
        spec_numeric(Country::KZ) == 398,
        spec_from_numeric(spec_numeric(Country::KZ)) == Some(Country::KZ),
        spec_numeric(Country::JO) == 400,
        spec_from_numeric(spec_numeric(Country::JO)) == Some(Country::JO),
        spec_numeric(Country::KE) == 404,
        spec_from_numeric(spec_numeric(Country::KE)) == Some(Country::KE),
        spec_numeric(Country::KP) == 408,
        spec_from_numeric(spec_numeric(Country::KP)) == Some(Country::KP),
        spec_numeric(Country::KR) == 410,
        spec_from_numeric(spec_numeric(Country::KR)) == Some(Country::KR),
        spec_numeric(Country::KW) == 414,
        spec_from_numeric(spec_numeric(Country::KW)) == Some(Country::KW),
        spec_numeric(Country::KG) == 417,
        spec_from_numeric(spec_numeric(Country::KG)) == Some(Country::KG),
        spec_numeric(Country::LA) == 418,
        spec_from_numeric(spec_numeric(Country::LA)) == Some(Country::LA),
        spec_numeric(Country::LB) == 422,
        spec_from_numeric(spec_numeric(Country::LB)) == Some(Country::LB),
        spec_numeric(Country::LS) == 426,
        spec_from_numeric(spec_numeric(Country::LS)) == Some(Country::LS),
        spec_numeric(Country::LV) == 428,
        spec_from_numeric(spec_numeric(Country::LV)) == Some(Country::LV),
        spec_numeric(Country::LR) == 430,
        spec_from_numeric(spec_numeric(Country::LR)) == Some(Country::LR),
{
}

proof fn lemma_numeric_complete_part5()
    ensures
        spec_numeric(Country::LY) == 434,
        spec_from_numeric(spec_numeric(Country::LY)) == Some(Country::LY),
        spec_numeric(Country::LI) == 438,
        spec_from_numeric(spec_numeric(Country::LI)) == Some(Country::LI),
        spec_numeric(Country::LT) == 440,
        spec_from_numeric(spec_numeric(Country::LT)) == Some(Country::LT),
        spec_numeric(Country::LU) == 442,
        spec_from_numeric(spec_numeric(Country::LU)) == Some(Country::LU),
        spec_numeric(Country::MO) == 446,
        spec_from_numeric(spec_numeric(Country::MO)) == Some(Country::MO),
        spec_numeric(Country::MG) == 450,
        spec_from_numeric(spec_numeric(Country::MG)) == Some(Country::MG),
        spec_numeric(Country::MW) == 454,
        spec_from_numeric(spec_numeric(Country::MW)) == Some(Country::MW),
        spec_numeric(Country::MY) == 458,
        spec_from_numeric(spec_numeric(Country::MY)) == Some(Country::MY),
        spec_numeric(Country::MV) == 462,
        spec_from_numeric(spec_numeric(Country::MV)) == Some(Country::MV),
        spec_numeric(Country::ML) == 466,
        spec_from_numeric(spec_numeric(Country::ML)) == Some(Country::ML),
        spec_numeric(Country::MT) == 470,
        spec_from_numeric(spec_numeric(Country::MT)) == Some(Country::MT),
        spec_numeric(Country::MQ) == 474,
        spec_from_numeric(spec_numeric(Country::MQ)) == Some(Country::MQ),
        spec_numeric(Country::MR) == 478,
        spec_from_numeric(spec_numeric(Country::MR)) == Some(Country::MR),
        spec_numeric(Country::MU) == 480,
        spec_from_numeric(spec_numeric(Country::MU)) == Some(Country::MU),
        spec_numeric(Country::MX) == 484,
        spec_from_numeric(spec_numeric(Country::MX)) == Some(Country::MX),
        spec_numeric(Country::MC) == 492,
        spec_from_numeric(spec_numeric(Country::MC)) == Some(Country::MC),
        spec_numeric(Country::MN) == 496,
        spec_from_numeric(spec_numeric(Country::MN)) == Some(Country::MN),
        spec_numeric(Country::MD) == 498,
        spec_from_numeric(spec_numeric(Country::MD)) == Some(Country::MD),
        spec_numeric(Country::ME) == 499,
        spec_from_numeric(spec_numeric(Country::ME)) == Some(Country::ME),
        spec_numeric(Country::MS) == 500,
        spec_from_numeric(spec_numeric(Country::MS)) == Some(Country::MS),
        spec_numeric(Country::MA) == 504,
        spec_from_numeric(spec_numeric(Country::MA)) == Some(Country::MA),
        spec_numeric(Country::MZ) == 508,
        spec_from_numeric(spec_numeric(Country::MZ)) == Some(Country::MZ),
        spec_numeric(Country::OM) == 512,
        spec_from_numeric(spec_numeric(Country::OM)) == Some(Country::OM),
        spec_numeric(Country::NA) == 516,
        spec_from_numeric(spec_numeric(Country::NA)) == Some(Country::NA),
        spec_numeric(Country::NR) == 520,
        spec_from_numeric(spec_numeric(Country::NR)) == Some(Country::NR),
{
}

proof fn lemma_numeric_complete_part6()
    ensures
        spec_numeric(Country::NP) == 524,
        spec_from_numeric(spec_numeric(Country::NP)) == Some(Country::NP),
        spec_numeric(Country::NL) == 528,
        spec_from_numeric(spec_numeric(Country::NL)) == Some(Country::NL),
        spec_numeric(Country::CW) == 531,
        spec_from_numeric(spec_numeric(Country::CW)) == Some(Country::CW),
        spec_numeric(Country::AW) == 533,
        spec_from_numeric(spec_numeric(Country::AW)) == Some(Country::AW),
        spec_numeric(Country::SX) == 534,
        spec_from_numeric(spec_numeric(Country::SX)) == Some(Country::SX),
        spec_numeric(Country::BQ) == 535,
        spec_from_numeric(spec_numeric(Country::BQ)) == Some(Country::BQ),
        spec_numeric(Country::NC) == 540,
        spec_from_numeric(spec_numeric(Country::NC)) == Some(Country::NC),
        spec_numeric(Country::VU) == 548,
        spec_from_numeric(spec_numeric(Country::VU)) == Some(Country::VU),
        spec_numeric(Country::NZ) == 554,
        spec_from_numeric(spec_numeric(Country::NZ)) == Some(Country::NZ),
        spec_numeric(Country::NI) == 558,
        spec_from_numeric(spec_numeric(Country::NI)) == Some(Country::NI),
        spec_numeric(Country::NE) == 562,
        spec_from_numeric(spec_numeric(Country::NE)) == Some(Country::NE),
        spec_numeric(Country::NG) == 566,
        spec_from_numeric(spec_numeric(Country::NG)) == Some(Country::NG),
        spec_numeric(Country::NU) == 570,
        spec_from_numeric(spec_numeric(Country::NU)) == Some(Country::NU),
        spec_numeric(Country::NF) == 574,
        spec_from_numeric(spec_numeric(Country::NF)) == Some(Country::NF),
        spec_numeric(Country::NO) == 578,
        spec_from_numeric(spec_numeric(Country::NO)) == Some(Country::NO),
        spec_numeric(Country::MP) == 580,
        spec_from_numeric(spec_numeric(Country::MP)) == Some(Country::MP),
        spec_numeric(Country::UM) == 581,
        spec_from_numeric(spec_numeric(Country::UM)) == Some(Country::UM),
        spec_numeric(Country::FM) == 583,
        spec_from_numeric(spec_numeric(Country::FM)) == Some(Country::FM),
        spec_numeric(Country::MH) == 584,
        spec_from_numeric(spec_numeric(Country::MH)) == Some(Country::MH),
        spec_numeric(Country::PW) == 585,
        spec_from_numeric(spec_numeric(Country::PW)) == Some(Country::PW),
        spec_numeric(Country::PK) == 586,
        spec_from_numeric(spec_numeric(Country::PK)) == Some(Country::PK),
        spec_numeric(Country::PA) == 591,
        spec_from_numeric(spec_numeric(Country::PA)) == Some(Country::PA),
        spec_numeric(Country::PG) == 598,
        spec_from_numeric(spec_numeric(Country::PG)) == Some(Country::PG),
        spec_numeric(Country::PY) == 600,
        spec_from_numeric(spec_numeric(Country::PY)) == Some(Country::PY),
        spec_numeric(Country::PE) == 604,
        spec_from_numeric(spec_numeric(Country::PE)) == Some(Country::PE),
{
}

proof fn lemma_numeric_complete_part7()
    ensures
        spec_numeric(Country::PH) == 608,
        spec_from_numeric(spec_numeric(Country::PH)) == Some(Country::PH),
        spec_numeric(Country::PN) == 612,
        spec_from_numeric(spec_numeric(Country::PN)) == Some(Country::PN),
        spec_numeric(Country::PL) == 616,
        spec_from_numeric(spec_numeric(Country::PL)) == Some(Country::PL),
        spec_numeric(Country::PT) == 620,
        spec_from_numeric(spec_numeric(Country::PT)) == Some(Country::PT),
        spec_numeric(Country::GW) == 624,
        spec_from_numeric(spec_numeric(Country::GW)) == Some(Country::GW),
        spec_numeric(Country::TL) == 626,
        spec_from_numeric(spec_numeric(Country::TL)) == Some(Country::TL),
        spec_numeric(Country::PR) == 630,
        spec_from_numeric(spec_numeric(Country::PR)) == Some(Country::PR),
        spec_numeric(Country::QA) == 634,
        spec_from_numeric(spec_numeric(Country::QA)) == Some(Country::QA),
        spec_numeric(Country::RE) == 638,
        spec_from_numeric(spec_numeric(Country::RE)) == Some(Country::RE),
        spec_numeric(Country::RO) == 642,
        spec_from_numeric(spec_numeric(Country::RO)) == Some(Country::RO),
        spec_numeric(Country::RU) == 643,
        spec_from_numeric(spec_numeric(Country::RU)) == Some(Country::RU),
        spec_numeric(Country::RW) == 646,
        spec_from_numeric(spec_numeric(Country::RW)) == Some(Country::RW),
        spec_numeric(Country::BL) == 652,
        spec_from_numeric(spec_numeric(Country::BL)) == Some(Country::BL),
        spec_numeric(Country::SH) == 654,
        spec_from_numeric(spec_numeric(Country::SH)) == Some(Country::SH),
        spec_numeric(Country::KN) == 659,
        spec_from_numeric(spec_numeric(Country::KN)) == Some(Country::KN),
        spec_numeric(Country::AI) == 660,
        spec_from_numeric(spec_numeric(Country::AI)) == Some(Country::AI),
        spec_numeric(Country::LC) == 662,
        spec_from_numeric(spec_numeric(Country::LC)) == Some(Country::LC),
        spec_numeric(Country::MF) == 663,
        spec_from_numeric(spec_numeric(Country::MF)) == Some(Country::MF),
        spec_numeric(Country::PM) == 666,
        spec_from_numeric(spec_numeric(Country::PM)) == Some(Country::PM),
        spec_numeric(Country::VC) == 670,
        spec_from_numeric(spec_numeric(Country::VC)) == Some(Country::VC),
        spec_numeric(Country::SM) == 674,
        spec_from_numeric(spec_numeric(Country::SM)) == Some(Country::SM),
        spec_numeric(Country::ST) == 678,
        spec_from_numeric(spec_numeric(Country::ST)) == Some(Country::ST),
        spec_numeric(Country::SA) == 682,
        spec_from_numeric(spec_numeric(Country::SA)) == Some(Country::SA),
        spec_numeric(Country::SN) == 686,
        spec_from_numeric(spec_numeric(Country::SN)) == Some(Country::SN),
        spec_numeric(Country::RS) == 688,
        spec_from_numeric(spec_numeric(Country::RS)) == Some(Country::RS),
{
}

proof fn lemma_numeric_complete_part8()
    ensures
        spec_numeric(Country::SC) == 690,
        spec_from_numeric(spec_numeric(Country::SC)) == Some(Country::SC),
        spec_numeric(Country::SL) == 694,
        spec_from_numeric(spec_numeric(Country::SL)) == Some(Country::SL),
        spec_numeric(Country::SG) == 702,
        spec_from_numeric(spec_numeric(Country::SG)) == Some(Country::SG),
        spec_numeric(Country::SK) == 703,
        spec_from_numeric(spec_numeric(Country::SK)) == Some(Country::SK),
        spec_numeric(Country::VN) == 704,
        spec_from_numeric(spec_numeric(Country::VN)) == Some(Country::VN),
        spec_numeric(Country::SI) == 705,
        spec_from_numeric(spec_numeric(Country::SI)) == Some(Country::SI),
        spec_numeric(Country::SO) == 706,
        spec_from_numeric(spec_numeric(Country::SO)) == Some(Country::SO),
        spec_numeric(Country::ZA) == 710,
        spec_from_numeric(spec_numeric(Country::ZA)) == Some(Country::ZA),
        spec_numeric(Country::ZW) == 716,
        spec_from_numeric(spec_numeric(Country::ZW)) == Some(Country::ZW),
        spec_numeric(Country::ES) == 724,
        spec_from_numeric(spec_numeric(Country::ES)) == Some(Country::ES),
        spec_numeric(Country::SS) == 728,
        spec_from_numeric(spec_numeric(Country::SS)) == Some(Country::SS),
        spec_numeric(Country::SD) == 729,
        spec_from_numeric(spec_numeric(Country::SD)) == Some(Country::SD),
        spec_numeric(Country::EH) == 732,
        spec_from_numeric(spec_numeric(Country::EH)) == Some(Country::EH),
        spec_numeric(Country::SR) == 740,
        spec_from_numeric(spec_numeric(Country::SR)) == Some(Country::SR),
        spec_numeric(Country::SJ) == 744,
        spec_from_numeric(spec_numeric(Country::SJ)) == Some(Country::SJ),
        spec_numeric(Country::SZ) == 748,
        spec_from_numeric(spec_numeric(Country::SZ)) == Some(Country::SZ),
        spec_numeric(Country::SE) == 752,
        spec_from_numeric(spec_numeric(Country::SE)) == Some(Country::SE),
        spec_numeric(Country::CH) == 756,
        spec_from_numeric(spec_numeric(Country::CH)) == Some(Country::CH),
        spec_numeric(Country::SY) == 760,
        spec_from_numeric(spec_numeric(Country::SY)) == Some(Country::SY),
        spec_numeric(Country::TJ) == 762,
        spec_from_numeric(spec_numeric(Country::TJ)) == Some(Country::TJ),
        spec_numeric(Country::TH) == 764,
        spec_from_numeric(spec_numeric(Country::TH)) == Some(Country::TH),
        spec_numeric(Country::TG) == 768,
        spec_from_numeric(spec_numeric(Country::TG)) == Some(Country::TG),
        spec_numeric(Country::TK) == 772,
        spec_from_numeric(spec_numeric(Country::TK)) == Some(Country::TK),
        spec_numeric(Country::TO) == 776,
        spec_from_numeric(spec_numeric(Country::TO)) == Some(Country::TO),
        spec_numeric(Country::TT) == 780,
        spec_from_numeric(spec_numeric(Country::TT)) == Some(Country::TT),
{
}

proof fn lemma_numeric_complete_part9()
    ensures
        spec_numeric(Country::AE) == 784,
        spec_from_numeric(spec_numeric(Country::AE)) == Some(Country::AE),
        spec_numeric(Country::TN) == 788,
        spec_from_numeric(spec_numeric(Country::TN)) == Some(Country::TN),
        spec_numeric(Country::TR) == 792,
        spec_from_numeric(spec_numeric(Country::TR)) == Some(Country::TR),
        spec_numeric(Country::TM) == 795,
        spec_from_numeric(spec_numeric(Country::TM)) == Some(Country::TM),
        spec_numeric(Country::TC) == 796,
        spec_from_numeric(spec_numeric(Country::TC)) == Some(Country::TC),
        spec_numeric(Country::TV) == 798,
        spec_from_numeric(spec_numeric(Country::TV)) == Some(Country::TV),
        spec_numeric(Country::UG) == 800,
        spec_from_numeric(spec_numeric(Country::UG)) == Some(Country::UG),
        spec_numeric(Country::UA) == 804,
        spec_from_numeric(spec_numeric(Country::UA)) == Some(Country::UA),
        spec_numeric(Country::MK) == 807,
        spec_from_numeric(spec_numeric(Country::MK)) == Some(Country::MK),
        spec_numeric(Country::EG) == 818,
        spec_from_numeric(spec_numeric(Country::EG)) == Some(Country::EG),
        spec_numeric(Country::GB) == 826,
        spec_from_numeric(spec_numeric(Country::GB)) == Some(Country::GB),
        spec_numeric(Country::GG) == 831,
        spec_from_numeric(spec_numeric(Country::GG)) == Some(Country::GG),
        spec_numeric(Country::JE) == 832,
        spec_from_numeric(spec_numeric(Country::JE)) == Some(Country::JE),
        spec_numeric(Country::IM) == 833,
        spec_from_numeric(spec_numeric(Country::IM)) == Some(Country::IM),
        spec_numeric(Country::TZ) == 834,
        spec_from_numeric(spec_numeric(Country::TZ)) == Some(Country::TZ),
        spec_numeric(Country::US) == 840,
        spec_from_numeric(spec_numeric(Country::US)) == Some(Country::US),
        spec_numeric(Country::VI) == 850,
        spec_from_numeric(spec_numeric(Country::VI)) == Some(Country::VI),
        spec_numeric(Country::BF) == 854,
        spec_from_numeric(spec_numeric(Country::BF)) == Some(Country::BF),
        spec_numeric(Country::UY) == 858,
        spec_from_numeric(spec_numeric(Country::UY)) == Some(Country::UY),
        spec_numeric(Country::UZ) == 860,
        spec_from_numeric(spec_numeric(Country::UZ)) == Some(Country::UZ),
        spec_numeric(Country::VE) == 862,
        spec_from_numeric(spec_numeric(Country::VE)) == Some(Country::VE),
        spec_numeric(Country::WF) == 876,
        spec_from_numeric(spec_numeric(Country::WF)) == Some(Country::WF),
        spec_numeric(Country::WS) == 882,
        spec_from_numeric(spec_numeric(Country::WS)) == Some(Country::WS),
        spec_numeric(Country::YE) == 887,
        spec_from_numeric(spec_numeric(Country::YE)) == Some(Country::YE),
        spec_numeric(Country::ZM) == 894,
        spec_from_numeric(spec_numeric(Country::ZM)) == Some(Country::ZM),
{
}

/// Every country is recovered from its own numeric code.
pub proof fn lemma_numeric_complete(c: Country)
    ensures
        spec_from_numeric(spec_numeric(c)) == Some(c),
{
    lemma_numeric_complete_part0();
    lemma_numeric_complete_part1();
    lemma_numeric_complete_part2();
    lemma_numeric_complete_part3();
    lemma_numeric_complete_part4();
    lemma_numeric_complete_part5();
    lemma_numeric_complete_part6();
    lemma_numeric_complete_part7();
    lemma_numeric_complete_part8();
    lemma_numeric_complete_part9();
}

} // verus!
