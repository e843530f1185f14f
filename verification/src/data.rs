//! The country dataset: one record per dataset row.

use vstd::prelude::*;

use crate::country::{Country, spec_alpha2, spec_alpha3, spec_name};

verus! {

/// One source row of the dataset: two-letter code, three-letter code,
/// English short name and three-digit numeric code.
pub struct CountryCode<'a> {
    pub alpha2: &'a str,
    pub alpha3: &'a str,
    pub name: &'a str,
    pub num: &'a str,
}

/// Row `i` of the dataset, in ascending numeric-code order.
pub open spec fn spec_row<'a>(i: int) -> CountryCode<'a> {
    if i < 124 {
        if i < 62 {
            if i < 31 {
                if i < 15 {
                    if i < 7 {
                        if i < 3 {
                            if i < 1 {
                                CountryCode { alpha2: "AF", alpha3: "AFG", name: "Afghanistan", num: "004" }
                            } else {
                                if i < 2 {
                                    CountryCode { alpha2: "AL", alpha3: "ALB", name: "Albania", num: "008" }
                                } else {
                                    CountryCode { alpha2: "AQ", alpha3: "ATA", name: "Antarctica", num: "010" }
                                }
                            }
                        } else {
                            if i < 5 {
                                if i < 4 {
                                    CountryCode { alpha2: "DZ", alpha3: "DZA", name: "Algeria", num: "012" }
                                } else {
                                    CountryCode { alpha2: "AS", alpha3: "ASM", name: "American Samoa", num: "016" }
                                }
                            } else {
                                if i < 6 {
                                    CountryCode { alpha2: "AD", alpha3: "AND", name: "Andorra", num: "020" }
                                } else {
                                    CountryCode { alpha2: "AO", alpha3: "AGO", name: "Angola", num: "024" }
                                }
                            }
                        }
                    } else {
                        if i < 11 {
                            if i < 9 {
                                if i < 8 {
                                    CountryCode { alpha2: "AG", alpha3: "ATG", name: "Antigua and Barbuda", num: "028" }
                                } else {
                                    CountryCode { alpha2: "AZ", alpha3: "AZE", name: "Azerbaijan", num: "031" }
                                }
                            } else {
                                if i < 10 {
                                    CountryCode { alpha2: "AR", alpha3: "ARG", name: "Argentina", num: "032" }
                                } else {
                                    CountryCode { alpha2: "AU", alpha3: "AUS", name: "Australia", num: "036" }
                                }
                            }
                        } else {
                            if i < 13 {
                                if i < 12 {
                                    CountryCode { alpha2: "AT", alpha3: "AUT", name: "Austria", num: "040" }
                                } else {
                                    CountryCode { alpha2: "BS", alpha3: "BHS", name: "Bahamas", num: "044" }
                                }
                            } else {
                                if i < 14 {
                                    CountryCode { alpha2: "BH", alpha3: "BHR", name: "Bahrain", num: "048" }
                                } else {
                                    CountryCode { alpha2: "BD", alpha3: "BGD", name: "Bangladesh", num: "050" }
                                }
                            }
                        }
                    }
                } else {
                    if i < 23 {
                        if i < 19 {
                            if i < 17 {
                                if i < 16 {
                                    CountryCode { alpha2: "AM", alpha3: "ARM", name: "Armenia", num: "051" }
                                } else {
                                    CountryCode { alpha2: "BB", alpha3: "BRB", name: "Barbados", num: "052" }
                                }
                            } else {
                                if i < 18 {
                                    CountryCode { alpha2: "BE", alpha3: "BEL", name: "Belgium", num: "056" }
                                } else {
                                    CountryCode { alpha2: "BM", alpha3: "BMU", name: "Bermuda", num: "060" }
                                }
                            }
                        } else {
                            if i < 21 {
                                if i < 20 {
                                    CountryCode { alpha2: "BT", alpha3: "BTN", name: "Bhutan", num: "064" }
                                } else {
                                    CountryCode { alpha2: "BO", alpha3: "BOL", name: "Bolivia (Plurinational State of)", num: "068" }
                                }
                            } else {
                                if i < 22 {
                                    CountryCode { alpha2: "BA", alpha3: "BIH", name: "Bosnia and Herzegovina", num: "070" }
                                } else {
                                    CountryCode { alpha2: "BW", alpha3: "BWA", name: "Botswana", num: "072" }
                                }
                            }
                        }
                    } else {
                        if i < 27 {
                            if i < 25 {
                                if i < 24 {
                                    CountryCode { alpha2: "BV", alpha3: "BVT", name: "Bouvet Island", num: "074" }
                                } else {
                                    CountryCode { alpha2: "BR", alpha3: "BRA", name: "Brazil", num: "076" }
                                }
                            } else {
                                if i < 26 {
                                    CountryCode { alpha2: "BZ", alpha3: "BLZ", name: "Belize", num: "084" }
                                } else {
                                    CountryCode { alpha2: "IO", alpha3: "IOT", name: "British Indian Ocean Territory", num: "086" }
                                }
                            }
                        } else {
                            if i < 29 {
                                if i < 28 {
                                    CountryCode { alpha2: "SB", alpha3: "SLB", name: "Solomon Islands", num: "090" }
                                } else {
                                    CountryCode { alpha2: "VG", alpha3: "VGB", name: "Virgin Islands (British)", num: "092" }
                                }
                            } else {
                                if i < 30 {
                                    CountryCode { alpha2: "BN", alpha3: "BRN", name: "Brunei Darussalam", num: "096" }
                                } else {
                                    CountryCode { alpha2: "BG", alpha3: "BGR", name: "Bulgaria", num: "100" }
                                }
                            }
                        }
                    }
                }
            } else {
                if i < 46 {
                    if i < 38 {
                        if i < 34 {
                            if i < 32 {
                                CountryCode { alpha2: "MM", alpha3: "MMR", name: "Myanmar", num: "104" }
                            } else {
                                if i < 33 {
                                    CountryCode { alpha2: "BI", alpha3: "BDI", name: "Burundi", num: "108" }
                                } else {
                                    CountryCode { alpha2: "BY", alpha3: "BLR", name: "Belarus", num: "112" }
                                }
                            }
                        } else {
                            if i < 36 {
                                if i < 35 {
                                    CountryCode { alpha2: "KH", alpha3: "KHM", name: "Cambodia", num: "116" }
                                } else {
                                    CountryCode { alpha2: "CM", alpha3: "CMR", name: "Cameroon", num: "120" }
                                }
                            } else {
                                if i < 37 {
                                    CountryCode { alpha2: "CA", alpha3: "CAN", name: "Canada", num: "124" }
                                } else {
                                    CountryCode { alpha2: "CV", alpha3: "CPV", name: "Cabo Verde", num: "132" }
                                }
                            }
                        }
                    } else {
                        if i < 42 {
                            if i < 40 {
                                if i < 39 {
                                    CountryCode { alpha2: "KY", alpha3: "CYM", name: "Cayman Islands", num: "136" }
                                } else {
                                    CountryCode { alpha2: "CF", alpha3: "CAF", name: "Central African Republic", num: "140" }
                                }
                            } else {
                                if i < 41 {
                                    CountryCode { alpha2: "LK", alpha3: "LKA", name: "Sri Lanka", num: "144" }
                                } else {
                                    CountryCode { alpha2: "TD", alpha3: "TCD", name: "Chad", num: "148" }
                                }
                            }
                        } else {
                            if i < 44 {
                                if i < 43 {
                                    CountryCode { alpha2: "CL", alpha3: "CHL", name: "Chile", num: "152" }
                                } else {
                                    CountryCode { alpha2: "CN", alpha3: "CHN", name: "China", num: "156" }
                                }
                            } else {
                                if i < 45 {
                                    CountryCode { alpha2: "TW", alpha3: "TWN", name: "Taiwan, Province of China[a]", num: "158" }
                                } else {
                                    CountryCode { alpha2: "CX", alpha3: "CXR", name: "Christmas Island", num: "162" }
                                }
                            }
                        }
                    }
                } else {
                    if i < 54 {
                        if i < 50 {
                            if i < 48 {
                                if i < 47 {
                                    CountryCode { alpha2: "CC", alpha3: "CCK", name: "Cocos (Keeling) Islands", num: "166" }
                                } else {
                                    CountryCode { alpha2: "CO", alpha3: "COL", name: "Colombia", num: "170" }
                                }
                            } else {
                                if i < 49 {
                                    CountryCode { alpha2: "KM", alpha3: "COM", name: "Comoros", num: "174" }
                                } else {
                                    CountryCode { alpha2: "YT", alpha3: "MYT", name: "Mayotte", num: "175" }
                                }
                            }
                        } else {
                            if i < 52 {
                                if i < 51 {
                                    CountryCode { alpha2: "CG", alpha3: "COG", name: "Congo", num: "178" }
                                } else {
                                    CountryCode { alpha2: "CD", alpha3: "COD", name: "Congo (Democratic Republic of the)", num: "180" }
                                }
                            } else {
                                if i < 53 {
                                    CountryCode { alpha2: "CK", alpha3: "COK", name: "Cook Islands", num: "184" }
                                } else {
                                    CountryCode { alpha2: "CR", alpha3: "CRI", name: "Costa Rica", num: "188" }
                                }
                            }
                        }
                    } else {
                        if i < 58 {
                            if i < 56 {
                                if i < 55 {
                                    CountryCode { alpha2: "HR", alpha3: "HRV", name: "Croatia", num: "191" }
                                } else {
                                    CountryCode { alpha2: "CU", alpha3: "CUB", name: "Cuba", num: "192" }
                                }
                            } else {
                                if i < 57 {
                                    CountryCode { alpha2: "CY", alpha3: "CYP", name: "Cyprus", num: "196" }
                                } else {
                                    CountryCode { alpha2: "CZ", alpha3: "CZE", name: "Czech Republic", num: "203" }
                                }
                            }
                        } else {
                            if i < 60 {
                                if i < 59 {
                                    CountryCode { alpha2: "BJ", alpha3: "BEN", name: "Benin", num: "204" }
                                } else {
                                    CountryCode { alpha2: "DK", alpha3: "DNK", name: "Denmark", num: "208" }
                                }
                            } else {
                                if i < 61 {
                                    CountryCode { alpha2: "DM", alpha3: "DMA", name: "Dominica", num: "212" }
                                } else {
                                    CountryCode { alpha2: "DO", alpha3: "DOM", name: "Dominican Republic", num: "214" }
                                }
                            }
                        }
                    }
                }
            }
        } else {
            if i < 93 {
                if i < 77 {
                    if i < 69 {
                        if i < 65 {
                            if i < 63 {
                                CountryCode { alpha2: "EC", alpha3: "ECU", name: "Ecuador", num: "218" }
                            } else {
                                if i < 64 {
                                    CountryCode { alpha2: "SV", alpha3: "SLV", name: "El Salvador", num: "222" }
                                } else {
                                    CountryCode { alpha2: "GQ", alpha3: "GNQ", name: "Equatorial Guinea", num: "226" }
                                }
                            }
                        } else {
                            if i < 67 {
                                if i < 66 {
                                    CountryCode { alpha2: "ET", alpha3: "ETH", name: "Ethiopia", num: "231" }
                                } else {
                                    CountryCode { alpha2: "ER", alpha3: "ERI", name: "Eritrea", num: "232" }
                                }
                            } else {
                                if i < 68 {
                                    CountryCode { alpha2: "EE", alpha3: "EST", name: "Estonia", num: "233" }
                                } else {
                                    CountryCode { alpha2: "FO", alpha3: "FRO", name: "Faroe Islands", num: "234" }
                                }
                            }
                        }
                    } else {
                        if i < 73 {
                            if i < 71 {
                                if i < 70 {
                                    CountryCode { alpha2: "FK", alpha3: "FLK", name: "Falkland Islands", num: "238" }
                                } else {
                                    CountryCode { alpha2: "GS", alpha3: "SGS", name: "South Georgia and the South Sandwich Islands", num: "239" }
                                }
                            } else {
                                if i < 72 {
                                    CountryCode { alpha2: "FJ", alpha3: "FJI", name: "Fiji", num: "242" }
                                } else {
                                    CountryCode { alpha2: "FI", alpha3: "FIN", name: "Finland", num: "246" }
                                }
                            }
                        } else {
                            if i < 75 {
                                if i < 74 {
                                    CountryCode { alpha2: "AX", alpha3: "ALA", name: "Åland Islands", num: "248" }
                                } else {
                                    CountryCode { alpha2: "FR", alpha3: "FRA", name: "France", num: "250" }
                                }
                            } else {
                                if i < 76 {
                                    CountryCode { alpha2: "GF", alpha3: "GUF", name: "French Guiana", num: "254" }
                                } else {
                                    CountryCode { alpha2: "PF", alpha3: "PYF", name: "French Polynesia", num: "258" }
                                }
                            }
                        }
                    }
                } else {
                    if i < 85 {
                        if i < 81 {
                            if i < 79 {
                                if i < 78 {
                                    CountryCode { alpha2: "TF", alpha3: "ATF", name: "French Southern Territories", num: "260" }
                                } else {
                                    CountryCode { alpha2: "DJ", alpha3: "DJI", name: "Djibouti", num: "262" }
                                }
                            } else {
                                if i < 80 {
                                    CountryCode { alpha2: "GA", alpha3: "GAB", name: "Gabon", num: "266" }
                                } else {
                                    CountryCode { alpha2: "GE", alpha3: "GEO", name: "Georgia", num: "268" }
                                }
                            }
                        } else {
                            if i < 83 {
                                if i < 82 {
                                    CountryCode { alpha2: "GM", alpha3: "GMB", name: "Gambia", num: "270" }
                                } else {
                                    CountryCode { alpha2: "PS", alpha3: "PSE", name: "Palestine, State of", num: "275" }
                                }
                            } else {
                                if i < 84 {
                                    CountryCode { alpha2: "DE", alpha3: "DEU", name: "Germany", num: "276" }
                                } else {
                                    CountryCode { alpha2: "GH", alpha3: "GHA", name: "Ghana", num: "288" }
                                }
                            }
                        }
                    } else {
                        if i < 89 {
                            if i < 87 {
                                if i < 86 {
                                    CountryCode { alpha2: "GI", alpha3: "GIB", name: "Gibraltar", num: "292" }
                                } else {
                                    CountryCode { alpha2: "KI", alpha3: "KIR", name: "Kiribati", num: "296" }
                                }
                            } else {
                                if i < 88 {
                                    CountryCode { alpha2: "GR", alpha3: "GRC", name: "Greece", num: "300" }
                                } else {
                                    CountryCode { alpha2: "GL", alpha3: "GRL", name: "Greenland", num: "304" }
                                }
                            }
                        } else {
                            if i < 91 {
                                if i < 90 {
                                    CountryCode { alpha2: "GD", alpha3: "GRD", name: "Grenada", num: "308" }
                                } else {
                                    CountryCode { alpha2: "GP", alpha3: "GLP", name: "Guadeloupe", num: "312" }
                                }
                            } else {
                                if i < 92 {
                                    CountryCode { alpha2: "GU", alpha3: "GUM", name: "Guam", num: "316" }
                                } else {
                                    CountryCode { alpha2: "GT", alpha3: "GTM", name: "Guatemala", num: "320" }
                                }
                            }
                        }
                    }
                }
            } else {
                if i < 108 {
                    if i < 100 {
                        if i < 96 {
                            if i < 94 {
                                CountryCode { alpha2: "GN", alpha3: "GIN", name: "Guinea", num: "324" }
                            } else {
                                if i < 95 {
                                    CountryCode { alpha2: "GY", alpha3: "GUY", name: "Guyana", num: "328" }
                                } else {
                                    CountryCode { alpha2: "HT", alpha3: "HTI", name: "Haiti", num: "332" }
                                }
                            }
                        } else {
                            if i < 98 {
                                if i < 97 {
                                    CountryCode { alpha2: "HM", alpha3: "HMD", name: "Heard Island and McDonald Islands", num: "334" }
                                } else {
                                    CountryCode { alpha2: "VA", alpha3: "VAT", name: "Holy See", num: "336" }
                                }
                            } else {
                                if i < 99 {
                                    CountryCode { alpha2: "HN", alpha3: "HND", name: "Honduras", num: "340" }
                                } else {
                                    CountryCode { alpha2: "HK", alpha3: "HKG", name: "Hong Kong", num: "344" }
                                }
                            }
                        }
                    } else {
                        if i < 104 {
                            if i < 102 {
                                if i < 101 {
                                    CountryCode { alpha2: "HU", alpha3: "HUN", name: "Hungary", num: "348" }
                                } else {
                                    CountryCode { alpha2: "IS", alpha3: "ISL", name: "Iceland", num: "352" }
                                }
                            } else {
                                if i < 103 {
                                    CountryCode { alpha2: "IN", alpha3: "IND", name: "India", num: "356" }
                                } else {
                                    CountryCode { alpha2: "ID", alpha3: "IDN", name: "Indonesia", num: "360" }
                                }
                            }
                        } else {
                            if i < 106 {
                                if i < 105 {
                                    CountryCode { alpha2: "IR", alpha3: "IRN", name: "Iran (Islamic Republic of)", num: "364" }
                                } else {
                                    CountryCode { alpha2: "IQ", alpha3: "IRQ", name: "Iraq", num: "368" }
                                }
                            } else {
                                if i < 107 {
                                    CountryCode { alpha2: "IE", alpha3: "IRL", name: "Ireland", num: "372" }
                                } else {
                                    CountryCode { alpha2: "IL", alpha3: "ISR", name: "Israel", num: "376" }
                                }
                            }
                        }
                    }
                } else {
                    if i < 116 {
                        if i < 112 {
                            if i < 110 {
                                if i < 109 {
                                    CountryCode { alpha2: "IT", alpha3: "ITA", name: "Italy", num: "380" }
                                } else {
                                    CountryCode { alpha2: "CI", alpha3: "CIV", name: "Côte d'Ivoire", num: "384" }
                                }
                            } else {
                                if i < 111 {
                                    CountryCode { alpha2: "JM", alpha3: "JAM", name: "Jamaica", num: "388" }
                                } else {
                                    CountryCode { alpha2: "JP", alpha3: "JPN", name: "Japan", num: "392" }
                                }
                            }
                        } else {
                            if i < 114 {
                                if i < 113 {
                                    CountryCode { alpha2: "KZ", alpha3: "KAZ", name: "Kazakhstan", num: "398" }
                                } else {
                                    CountryCode { alpha2: "JO", alpha3: "JOR", name: "Jordan", num: "400" }
                                }
                            } else {
                                if i < 115 {
                                    CountryCode { alpha2: "KE", alpha3: "KEN", name: "Kenya", num: "404" }
                                } else {
                                    CountryCode { alpha2: "KP", alpha3: "PRK", name: "Korea (Democratic People's Republic of)", num: "408" }
                                }
                            }
                        }
                    } else {
                        if i < 120 {
                            if i < 118 {
                                if i < 117 {
                                    CountryCode { alpha2: "KR", alpha3: "KOR", name: "Korea (Republic of)", num: "410" }
                                } else {
                                    CountryCode { alpha2: "KW", alpha3: "KWT", name: "Kuwait", num: "414" }
                                }
                            } else {
                                if i < 119 {
                                    CountryCode { alpha2: "KG", alpha3: "KGZ", name: "Kyrgyzstan", num: "417" }
                                } else {
                                    CountryCode { alpha2: "LA", alpha3: "LAO", name: "Lao People's Democratic Republic", num: "418" }
                                }
                            }
                        } else {
                            if i < 122 {
                                if i < 121 {
                                    CountryCode { alpha2: "LB", alpha3: "LBN", name: "Lebanon", num: "422" }
                                } else {
                                    CountryCode { alpha2: "LS", alpha3: "LSO", name: "Lesotho", num: "426" }
                                }
                            } else {
                                if i < 123 {
                                    CountryCode { alpha2: "LV", alpha3: "LVA", name: "Latvia", num: "428" }
                                } else {
                                    CountryCode { alpha2: "LR", alpha3: "LBR", name: "Liberia", num: "430" }
                                }
                            }
                        }
                    }
                }
            }
        }
    } else {
        if i < 186 {
            if i < 155 {
                if i < 139 {
                    if i < 131 {
                        if i < 127 {
                            if i < 125 {
                                CountryCode { alpha2: "LY", alpha3: "LBY", name: "Libya", num: "434" }
                            } else {
                                if i < 126 {
                                    CountryCode { alpha2: "LI", alpha3: "LIE", name: "Liechtenstein", num: "438" }
                                } else {
                                    CountryCode { alpha2: "LT", alpha3: "LTU", name: "Lithuania", num: "440" }
                                }
                            }
                        } else {
                            if i < 129 {
                                if i < 128 {
                                    CountryCode { alpha2: "LU", alpha3: "LUX", name: "Luxembourg", num: "442" }
                                } else {
                                    CountryCode { alpha2: "MO", alpha3: "MAC", name: "Macao", num: "446" }
                                }
                            } else {
                                if i < 130 {
                                    CountryCode { alpha2: "MG", alpha3: "MDG", name: "Madagascar", num: "450" }
                                } else {
                                    CountryCode { alpha2: "MW", alpha3: "MWI", name: "Malawi", num: "454" }
                                }
                            }
                        }
                    } else {
                        if i < 135 {
                            if i < 133 {
                                if i < 132 {
                                    CountryCode { alpha2: "MY", alpha3: "MYS", name: "Malaysia", num: "458" }
                                } else {
                                    CountryCode { alpha2: "MV", alpha3: "MDV", name: "Maldives", num: "462" }
                                }
                            } else {
                                if i < 134 {
                                    CountryCode { alpha2: "ML", alpha3: "MLI", name: "Mali", num: "466" }
                                } else {
                                    CountryCode { alpha2: "MT", alpha3: "MLT", name: "Malta", num: "470" }
                                }
                            }
                        } else {
                            if i < 137 {
                                if i < 136 {
                                    CountryCode { alpha2: "MQ", alpha3: "MTQ", name: "Martinique", num: "474" }
                                } else {
                                    CountryCode { alpha2: "MR", alpha3: "MRT", name: "Mauritania", num: "478" }
                                }
                            } else {
                                if i < 138 {
                                    CountryCode { alpha2: "MU", alpha3: "MUS", name: "Mauritius", num: "480" }
                                } else {
                                    CountryCode { alpha2: "MX", alpha3: "MEX", name: "Mexico", num: "484" }
                                }
                            }
                        }
                    }
                } else {
                    if i < 147 {
                        if i < 143 {
                            if i < 141 {
                                if i < 140 {
                                    CountryCode { alpha2: "MC", alpha3: "MCO", name: "Monaco", num: "492" }
                                } else {
                                    CountryCode { alpha2: "MN", alpha3: "MNG", name: "Mongolia", num: "496" }
                                }
                            } else {
                                if i < 142 {
                                    CountryCode { alpha2: "MD", alpha3: "MDA", name: "Moldova (Republic of)", num: "498" }
                                } else {
                                    CountryCode { alpha2: "ME", alpha3: "MNE", name: "Montenegro", num: "499" }
                                }
                            }
                        } else {
                            if i < 145 {
                                if i < 144 {
                                    CountryCode { alpha2: "MS", alpha3: "MSR", name: "Montserrat", num: "500" }
                                } else {
                                    CountryCode { alpha2: "MA", alpha3: "MAR", name: "Morocco", num: "504" }
                                }
                            } else {
                                if i < 146 {
                                    CountryCode { alpha2: "MZ", alpha3: "MOZ", name: "Mozambique", num: "508" }
                                } else {
                                    CountryCode { alpha2: "OM", alpha3: "OMN", name: "Oman", num: "512" }
                                }
                            }
                        }
                    } else {
                        if i < 151 {
                            if i < 149 {
                                if i < 148 {
                                    CountryCode { alpha2: "NA", alpha3: "NAM", name: "Namibia", num: "516" }
                                } else {
                                    CountryCode { alpha2: "NR", alpha3: "NRU", name: "Nauru", num: "520" }
                                }
                            } else {
                                if i < 150 {
                                    CountryCode { alpha2: "NP", alpha3: "NPL", name: "Nepal", num: "524" }
                                } else {
                                    CountryCode { alpha2: "NL", alpha3: "NLD", name: "Netherlands", num: "528" }
                                }
                            }
                        } else {
                            if i < 153 {
                                if i < 152 {
                                    CountryCode { alpha2: "CW", alpha3: "CUW", name: "Curaçao", num: "531" }
                                } else {
                                    CountryCode { alpha2: "AW", alpha3: "ABW", name: "Aruba", num: "533" }
                                }
                            } else {
                                if i < 154 {
                                    CountryCode { alpha2: "SX", alpha3: "SXM", name: "Sint Maarten (Dutch part)", num: "534" }
                                } else {
                                    CountryCode { alpha2: "BQ", alpha3: "BES", name: "Bonaire, Sint Eustatius and Saba", num: "535" }
                                }
                            }
                        }
                    }
                }
            } else {
                if i < 170 {
                    if i < 162 {
                        if i < 158 {
                            if i < 156 {
                                CountryCode { alpha2: "NC", alpha3: "NCL", name: "New Caledonia", num: "540" }
                            } else {
                                if i < 157 {
                                    CountryCode { alpha2: "VU", alpha3: "VUT", name: "Vanuatu", num: "548" }
                                } else {
                                    CountryCode { alpha2: "NZ", alpha3: "NZL", name: "New Zealand", num: "554" }
                                }
                            }
                        } else {
                            if i < 160 {
                                if i < 159 {
                                    CountryCode { alpha2: "NI", alpha3: "NIC", name: "Nicaragua", num: "558" }
                                } else {
                                    CountryCode { alpha2: "NE", alpha3: "NER", name: "Niger", num: "562" }
                                }
                            } else {
                                if i < 161 {
                                    CountryCode { alpha2: "NG", alpha3: "NGA", name: "Nigeria", num: "566" }
                                } else {
                                    CountryCode { alpha2: "NU", alpha3: "NIU", name: "Niue", num: "570" }
                                }
                            }
                        }
                    } else {
                        if i < 166 {
                            if i < 164 {
                                if i < 163 {
                                    CountryCode { alpha2: "NF", alpha3: "NFK", name: "Norfolk Island", num: "574" }
                                } else {
                                    CountryCode { alpha2: "NO", alpha3: "NOR", name: "Norway", num: "578" }
                                }
                            } else {
                                if i < 165 {
                                    CountryCode { alpha2: "MP", alpha3: "MNP", name: "Northern Mariana Islands", num: "580" }
                                } else {
                                    CountryCode { alpha2: "UM", alpha3: "UMI", name: "United States Minor Outlying Islands", num: "581" }
                                }
                            }
                        } else {
                            if i < 168 {
                                if i < 167 {
                                    CountryCode { alpha2: "FM", alpha3: "FSM", name: "Micronesia (Federated States of)", num: "583" }
                                } else {
                                    CountryCode { alpha2: "MH", alpha3: "MHL", name: "Marshall Islands", num: "584" }
                                }
                            } else {
                                if i < 169 {
                                    CountryCode { alpha2: "PW", alpha3: "PLW", name: "Palau", num: "585" }
                                } else {
                                    CountryCode { alpha2: "PK", alpha3: "PAK", name: "Pakistan", num: "586" }
                                }
                            }
                        }
                    }
                } else {
                    if i < 178 {
                        if i < 174 {
                            if i < 172 {
                                if i < 171 {
                                    CountryCode { alpha2: "PA", alpha3: "PAN", name: "Panama", num: "591" }
                                } else {
                                    CountryCode { alpha2: "PG", alpha3: "PNG", name: "Papua New Guinea", num: "598" }
                                }
                            } else {
                                if i < 173 {
                                    CountryCode { alpha2: "PY", alpha3: "PRY", name: "Paraguay", num: "600" }
                                } else {
                                    CountryCode { alpha2: "PE", alpha3: "PER", name: "Peru", num: "604" }
                                }
                            }
                        } else {
                            if i < 176 {
                                if i < 175 {
                                    CountryCode { alpha2: "PH", alpha3: "PHL", name: "Philippines", num: "608" }
                                } else {
                                    CountryCode { alpha2: "PN", alpha3: "PCN", name: "Pitcairn", num: "612" }
                                }
                            } else {
                                if i < 177 {
                                    CountryCode { alpha2: "PL", alpha3: "POL", name: "Poland", num: "616" }
                                } else {
                                    CountryCode { alpha2: "PT", alpha3: "PRT", name: "Portugal", num: "620" }
                                }
                            }
                        }
                    } else {
                        if i < 182 {
                            if i < 180 {
                                if i < 179 {
                                    CountryCode { alpha2: "GW", alpha3: "GNB", name: "Guinea-Bissau", num: "624" }
                                } else {
                                    CountryCode { alpha2: "TL", alpha3: "TLS", name: "Timor-Leste", num: "626" }
                                }
                            } else {
                                if i < 181 {
                                    CountryCode { alpha2: "PR", alpha3: "PRI", name: "Puerto Rico", num: "630" }
                                } else {
                                    CountryCode { alpha2: "QA", alpha3: "QAT", name: "Qatar", num: "634" }
                                }
                            }
                        } else {
                            if i < 184 {
                                if i < 183 {
                                    CountryCode { alpha2: "RE", alpha3: "REU", name: "Réunion", num: "638" }
                                } else {
                                    CountryCode { alpha2: "RO", alpha3: "ROU", name: "Romania", num: "642" }
                                }
                            } else {
                                if i < 185 {
                                    CountryCode { alpha2: "RU", alpha3: "RUS", name: "Russian Federation", num: "643" }
                                } else {
                                    CountryCode { alpha2: "RW", alpha3: "RWA", name: "Rwanda", num: "646" }
                                }
                            }
                        }
                    }
                }
            }
        } else {
            if i < 217 {
                if i < 201 {
                    if i < 193 {
                        if i < 189 {
                            if i < 187 {
                                CountryCode { alpha2: "BL", alpha3: "BLM", name: "Saint Barthélemy", num: "652" }
                            } else {
                                if i < 188 {
                                    CountryCode { alpha2: "SH", alpha3: "SHN", name: "Saint Helena, Ascension and Tristan da Cunha", num: "654" }
                                } else {
                                    CountryCode { alpha2: "KN", alpha3: "KNA", name: "Saint Kitts and Nevis", num: "659" }
                                }
                            }
                        } else {
                            if i < 191 {
                                if i < 190 {
                                    CountryCode { alpha2: "AI", alpha3: "AIA", name: "Anguilla", num: "660" }
                                } else {
                                    CountryCode { alpha2: "LC", alpha3: "LCA", name: "Saint Lucia", num: "662" }
                                }
                            } else {
                                if i < 192 {
                                    CountryCode { alpha2: "MF", alpha3: "MAF", name: "Saint Martin (French part)", num: "663" }
                                } else {
                                    CountryCode { alpha2: "PM", alpha3: "SPM", name: "Saint Pierre and Miquelon", num: "666" }
                                }
                            }
                        }
                    } else {
                        if i < 197 {
                            if i < 195 {
                                if i < 194 {
                                    CountryCode { alpha2: "VC", alpha3: "VCT", name: "Saint Vincent and the Grenadines", num: "670" }
                                } else {
                                    CountryCode { alpha2: "SM", alpha3: "SMR", name: "San Marino", num: "674" }
                                }
                            } else {
                                if i < 196 {
                                    CountryCode { alpha2: "ST", alpha3: "STP", name: "Sao Tome and Principe", num: "678" }
                                } else {
                                    CountryCode { alpha2: "SA", alpha3: "SAU", name: "Saudi Arabia", num: "682" }
                                }
                            }
                        } else {
                            if i < 199 {
                                if i < 198 {
                                    CountryCode { alpha2: "SN", alpha3: "SEN", name: "Senegal", num: "686" }
                                } else {
                                    CountryCode { alpha2: "RS", alpha3: "SRB", name: "Serbia", num: "688" }
                                }
                            } else {
                                if i < 200 {
                                    CountryCode { alpha2: "SC", alpha3: "SYC", name: "Seychelles", num: "690" }
                                } else {
                                    CountryCode { alpha2: "SL", alpha3: "SLE", name: "Sierra Leone", num: "694" }
                                }
                            }
                        }
                    }
                } else {
                    if i < 209 {
                        if i < 205 {
                            if i < 203 {
                                if i < 202 {
                                    CountryCode { alpha2: "SG", alpha3: "SGP", name: "Singapore", num: "702" }
                                } else {
                                    CountryCode { alpha2: "SK", alpha3: "SVK", name: "Slovakia", num: "703" }
                                }
                            } else {
                                if i < 204 {
                                    CountryCode { alpha2: "VN", alpha3: "VNM", name: "Viet Nam", num: "704" }
                                } else {
                                    CountryCode { alpha2: "SI", alpha3: "SVN", name: "Slovenia", num: "705" }
                                }
                            }
                        } else {
                            if i < 207 {
                                if i < 206 {
                                    CountryCode { alpha2: "SO", alpha3: "SOM", name: "Somalia", num: "706" }
                                } else {
                                    CountryCode { alpha2: "ZA", alpha3: "ZAF", name: "South Africa", num: "710" }
                                }
                            } else {
                                if i < 208 {
                                    CountryCode { alpha2: "ZW", alpha3: "ZWE", name: "Zimbabwe", num: "716" }
                                } else {
                                    CountryCode { alpha2: "ES", alpha3: "ESP", name: "Spain", num: "724" }
                                }
                            }
                        }
                    } else {
                        if i < 213 {
                            if i < 211 {
                                if i < 210 {
                                    CountryCode { alpha2: "SS", alpha3: "SSD", name: "South Sudan", num: "728" }
                                } else {
                                    CountryCode { alpha2: "SD", alpha3: "SDN", name: "Sudan", num: "729" }
                                }
                            } else {
                                if i < 212 {
                                    CountryCode { alpha2: "EH", alpha3: "ESH", name: "Western Sahara", num: "732" }
                                } else {
                                    CountryCode { alpha2: "SR", alpha3: "SUR", name: "Suriname", num: "740" }
                                }
                            }
                        } else {
                            if i < 215 {
                                if i < 214 {
                                    CountryCode { alpha2: "SJ", alpha3: "SJM", name: "Svalbard and Jan Mayen", num: "744" }
                                } else {
                                    CountryCode { alpha2: "SZ", alpha3: "SWZ", name: "Swaziland", num: "748" }
                                }
                            } else {
                                if i < 216 {
                                    CountryCode { alpha2: "SE", alpha3: "SWE", name: "Sweden", num: "752" }
                                } else {
                                    CountryCode { alpha2: "CH", alpha3: "CHE", name: "Switzerland", num: "756" }
                                }
                            }
                        }
                    }
                }
            } else {
                if i < 233 {
                    if i < 225 {
                        if i < 221 {
                            if i < 219 {
                                if i < 218 {
                                    CountryCode { alpha2: "SY", alpha3: "SYR", name: "Syrian Arab Republic", num: "760" }
                                } else {
                                    CountryCode { alpha2: "TJ", alpha3: "TJK", name: "Tajikistan", num: "762" }
                                }
                            } else {
                                if i < 220 {
                                    CountryCode { alpha2: "TH", alpha3: "THA", name: "Thailand", num: "764" }
                                } else {
                                    CountryCode { alpha2: "TG", alpha3: "TGO", name: "Togo", num: "768" }
                                }
                            }
                        } else {
                            if i < 223 {
                                if i < 222 {
                                    CountryCode { alpha2: "TK", alpha3: "TKL", name: "Tokelau", num: "772" }
                                } else {
                                    CountryCode { alpha2: "TO", alpha3: "TON", name: "Tonga", num: "776" }
                                }
                            } else {
                                if i < 224 {
                                    CountryCode { alpha2: "TT", alpha3: "TTO", name: "Trinidad and Tobago", num: "780" }
                                } else {
                                    CountryCode { alpha2: "AE", alpha3: "ARE", name: "United Arab Emirates", num: "784" }
                                }
                            }
                        }
                    } else {
                        if i < 229 {
                            if i < 227 {
                                if i < 226 {
                                    CountryCode { alpha2: "TN", alpha3: "TUN", name: "Tunisia", num: "788" }
                                } else {
                                    CountryCode { alpha2: "TR", alpha3: "TUR", name: "Turkey", num: "792" }
                                }
                            } else {
                                if i < 228 {
                                    CountryCode { alpha2: "TM", alpha3: "TKM", name: "Turkmenistan", num: "795" }
                                } else {
                                    CountryCode { alpha2: "TC", alpha3: "TCA", name: "Turks and Caicos Islands", num: "796" }
                                }
                            }
                        } else {
                            if i < 231 {
                                if i < 230 {
                                    CountryCode { alpha2: "TV", alpha3: "TUV", name: "Tuvalu", num: "798" }
                                } else {
                                    CountryCode { alpha2: "UG", alpha3: "UGA", name: "Uganda", num: "800" }
                                }
                            } else {
                                if i < 232 {
                                    CountryCode { alpha2: "UA", alpha3: "UKR", name: "Ukraine", num: "804" }
                                } else {
                                    CountryCode { alpha2: "MK", alpha3: "MKD", name: "Macedonia (the former Yugoslav Republic of)", num: "807" }
                                }
                            }
                        }
                    }
                } else {
                    if i < 241 {
                        if i < 237 {
                            if i < 235 {
                                if i < 234 {
                                    CountryCode { alpha2: "EG", alpha3: "EGY", name: "Egypt", num: "818" }
                                } else {
                                    CountryCode { alpha2: "GB", alpha3: "GBR", name: "United Kingdom of Great Britain and Northern Ireland", num: "826" }
                                }
                            } else {
                                if i < 236 {
                                    CountryCode { alpha2: "GG", alpha3: "GGY", name: "Guernsey", num: "831" }
                                } else {
                                    CountryCode { alpha2: "JE", alpha3: "JEY", name: "Jersey", num: "832" }
                                }
                            }
                        } else {
                            if i < 239 {
                                if i < 238 {
                                    CountryCode { alpha2: "IM", alpha3: "IMN", name: "Isle of Man", num: "833" }
                                } else {
                                    CountryCode { alpha2: "TZ", alpha3: "TZA", name: "Tanzania, United Republic of", num: "834" }
                                }
                            } else {
                                if i < 240 {
                                    CountryCode { alpha2: "US", alpha3: "USA", name: "United States of America", num: "840" }
                                } else {
                                    CountryCode { alpha2: "VI", alpha3: "VIR", name: "Virgin Islands (U.S.)", num: "850" }
                                }
                            }
                        }
                    } else {
                        if i < 245 {
                            if i < 243 {
                                if i < 242 {
                                    CountryCode { alpha2: "BF", alpha3: "BFA", name: "Burkina Faso", num: "854" }
                                } else {
                                    CountryCode { alpha2: "UY", alpha3: "URY", name: "Uruguay", num: "858" }
                                }
                            } else {
                                if i < 244 {
                                    CountryCode { alpha2: "UZ", alpha3: "UZB", name: "Uzbekistan", num: "860" }
                                } else {
                                    CountryCode { alpha2: "VE", alpha3: "VEN", name: "Venezuela (Bolivarian Republic of)", num: "862" }
                                }
                            }
                        } else {
                            if i < 247 {
                                if i < 246 {
                                    CountryCode { alpha2: "WF", alpha3: "WLF", name: "Wallis and Futuna", num: "876" }
                                } else {
                                    CountryCode { alpha2: "WS", alpha3: "WSM", name: "Samoa", num: "882" }
                                }
                            } else {
                                if i < 248 {
                                    CountryCode { alpha2: "YE", alpha3: "YEM", name: "Yemen", num: "887" }
                                } else {
                                    CountryCode { alpha2: "ZM", alpha3: "ZMB", name: "Zambia", num: "894" }
                                }
                            }
                        }
                    }
                }
            }
        }
    }
}

/// The rows of the dataset, in ascending numeric-code order.
pub open spec fn spec_all<'a>() -> Seq<CountryCode<'a>> {
    Seq::new(249, |i: int| spec_row(i))
}

fn row(i: usize) -> (r: CountryCode<'static>)
    requires
        i < 249,
    ensures
        r == spec_row::<'static>(i as int),
{
    if i < 124 {
        if i < 62 {
            if i < 31 {
                if i < 15 {
                    if i < 7 {
                        if i < 3 {
                            if i < 1 {
                                CountryCode { alpha2: "AF", alpha3: "AFG", name: "Afghanistan", num: "004" }
                            } else {
                                if i < 2 {
                                    CountryCode { alpha2: "AL", alpha3: "ALB", name: "Albania", num: "008" }
                                } else {
                                    CountryCode { alpha2: "AQ", alpha3: "ATA", name: "Antarctica", num: "010" }
                                }
                            }
                        } else {
                            if i < 5 {
                                if i < 4 {
                                    CountryCode { alpha2: "DZ", alpha3: "DZA", name: "Algeria", num: "012" }
                                } else {
                                    CountryCode { alpha2: "AS", alpha3: "ASM", name: "American Samoa", num: "016" }
                                }
                            } else {
                                if i < 6 {
                                    CountryCode { alpha2: "AD", alpha3: "AND", name: "Andorra", num: "020" }
                                } else {
                                    CountryCode { alpha2: "AO", alpha3: "AGO", name: "Angola", num: "024" }
                                }
                            }
                        }
                    } else {
                        if i < 11 {
                            if i < 9 {
                                if i < 8 {
                                    CountryCode { alpha2: "AG", alpha3: "ATG", name: "Antigua and Barbuda", num: "028" }
                                } else {
                                    CountryCode { alpha2: "AZ", alpha3: "AZE", name: "Azerbaijan", num: "031" }
                                }
                            } else {
                                if i < 10 {
                                    CountryCode { alpha2: "AR", alpha3: "ARG", name: "Argentina", num: "032" }
                                } else {
                                    CountryCode { alpha2: "AU", alpha3: "AUS", name: "Australia", num: "036" }
                                }
                            }
                        } else {
                            if i < 13 {
                                if i < 12 {
                                    CountryCode { alpha2: "AT", alpha3: "AUT", name: "Austria", num: "040" }
                                } else {
                                    CountryCode { alpha2: "BS", alpha3: "BHS", name: "Bahamas", num: "044" }
                                }
                            } else {
                                if i < 14 {
                                    CountryCode { alpha2: "BH", alpha3: "BHR", name: "Bahrain", num: "048" }
                                } else {
                                    CountryCode { alpha2: "BD", alpha3: "BGD", name: "Bangladesh", num: "050" }
                                }
                            }
                        }
                    }
                } else {
                    if i < 23 {
                        if i < 19 {
                            if i < 17 {
                                if i < 16 {
                                    CountryCode { alpha2: "AM", alpha3: "ARM", name: "Armenia", num: "051" }
                                } else {
                                    CountryCode { alpha2: "BB", alpha3: "BRB", name: "Barbados", num: "052" }
                                }
                            } else {
                                if i < 18 {
                                    CountryCode { alpha2: "BE", alpha3: "BEL", name: "Belgium", num: "056" }
                                } else {
                                    CountryCode { alpha2: "BM", alpha3: "BMU", name: "Bermuda", num: "060" }
                                }
                            }
                        } else {
                            if i < 21 {
                                if i < 20 {
                                    CountryCode { alpha2: "BT", alpha3: "BTN", name: "Bhutan", num: "064" }
                                } else {
                                    CountryCode { alpha2: "BO", alpha3: "BOL", name: "Bolivia (Plurinational State of)", num: "068" }
                                }
                            } else {
                                if i < 22 {
                                    CountryCode { alpha2: "BA", alpha3: "BIH", name: "Bosnia and Herzegovina", num: "070" }
                                } else {
                                    CountryCode { alpha2: "BW", alpha3: "BWA", name: "Botswana", num: "072" }
                                }
                            }
                        }
                    } else {
                        if i < 27 {
                            if i < 25 {
                                if i < 24 {
                                    CountryCode { alpha2: "BV", alpha3: "BVT", name: "Bouvet Island", num: "074" }
                                } else {
                                    CountryCode { alpha2: "BR", alpha3: "BRA", name: "Brazil", num: "076" }
                                }
                            } else {
                                if i < 26 {
                                    CountryCode { alpha2: "BZ", alpha3: "BLZ", name: "Belize", num: "084" }
                                } else {
                                    CountryCode { alpha2: "IO", alpha3: "IOT", name: "British Indian Ocean Territory", num: "086" }
                                }
                            }
                        } else {
                            if i < 29 {
                                if i < 28 {
                                    CountryCode { alpha2: "SB", alpha3: "SLB", name: "Solomon Islands", num: "090" }
                                } else {
                                    CountryCode { alpha2: "VG", alpha3: "VGB", name: "Virgin Islands (British)", num: "092" }
                                }
                            } else {
                                if i < 30 {
                                    CountryCode { alpha2: "BN", alpha3: "BRN", name: "Brunei Darussalam", num: "096" }
                                } else {
                                    CountryCode { alpha2: "BG", alpha3: "BGR", name: "Bulgaria", num: "100" }
                                }
                            }
                        }
                    }
                }
            } else {
                if i < 46 {
                    if i < 38 {
                        if i < 34 {
                            if i < 32 {
                                CountryCode { alpha2: "MM", alpha3: "MMR", name: "Myanmar", num: "104" }
                            } else {
                                if i < 33 {
                                    CountryCode { alpha2: "BI", alpha3: "BDI", name: "Burundi", num: "108" }
                                } else {
                                    CountryCode { alpha2: "BY", alpha3: "BLR", name: "Belarus", num: "112" }
                                }
                            }
                        } else {
                            if i < 36 {
                                if i < 35 {
                                    CountryCode { alpha2: "KH", alpha3: "KHM", name: "Cambodia", num: "116" }
                                } else {
                                    CountryCode { alpha2: "CM", alpha3: "CMR", name: "Cameroon", num: "120" }
                                }
                            } else {
                                if i < 37 {
                                    CountryCode { alpha2: "CA", alpha3: "CAN", name: "Canada", num: "124" }
                                } else {
                                    CountryCode { alpha2: "CV", alpha3: "CPV", name: "Cabo Verde", num: "132" }
                                }
                            }
                        }
                    } else {
                        if i < 42 {
                            if i < 40 {
                                if i < 39 {
                                    CountryCode { alpha2: "KY", alpha3: "CYM", name: "Cayman Islands", num: "136" }
                                } else {
                                    CountryCode { alpha2: "CF", alpha3: "CAF", name: "Central African Republic", num: "140" }
                                }
                            } else {
                                if i < 41 {
                                    CountryCode { alpha2: "LK", alpha3: "LKA", name: "Sri Lanka", num: "144" }
                                } else {
                                    CountryCode { alpha2: "TD", alpha3: "TCD", name: "Chad", num: "148" }
                                }
                            }
                        } else {
                            if i < 44 {
                                if i < 43 {
                                    CountryCode { alpha2: "CL", alpha3: "CHL", name: "Chile", num: "152" }
                                } else {
                                    CountryCode { alpha2: "CN", alpha3: "CHN", name: "China", num: "156" }
                                }
                            } else {
                                if i < 45 {
                                    CountryCode { alpha2: "TW", alpha3: "TWN", name: "Taiwan, Province of China[a]", num: "158" }
                                } else {
                                    CountryCode { alpha2: "CX", alpha3: "CXR", name: "Christmas Island", num: "162" }
                                }
                            }
                        }
                    }
                } else {
                    if i < 54 {
                        if i < 50 {
                            if i < 48 {
                                if i < 47 {
                                    CountryCode { alpha2: "CC", alpha3: "CCK", name: "Cocos (Keeling) Islands", num: "166" }
                                } else {
                                    CountryCode { alpha2: "CO", alpha3: "COL", name: "Colombia", num: "170" }
                                }
                            } else {
                                if i < 49 {
                                    CountryCode { alpha2: "KM", alpha3: "COM", name: "Comoros", num: "174" }
                                } else {
                                    CountryCode { alpha2: "YT", alpha3: "MYT", name: "Mayotte", num: "175" }
                                }
                            }
                        } else {
                            if i < 52 {
                                if i < 51 {
                                    CountryCode { alpha2: "CG", alpha3: "COG", name: "Congo", num: "178" }
                                } else {
                                    CountryCode { alpha2: "CD", alpha3: "COD", name: "Congo (Democratic Republic of the)", num: "180" }
                                }
                            } else {
                                if i < 53 {
                                    CountryCode { alpha2: "CK", alpha3: "COK", name: "Cook Islands", num: "184" }
                                } else {
                                    CountryCode { alpha2: "CR", alpha3: "CRI", name: "Costa Rica", num: "188" }
                                }
                            }
                        }
                    } else {
                        if i < 58 {
                            if i < 56 {
                                if i < 55 {
                                    CountryCode { alpha2: "HR", alpha3: "HRV", name: "Croatia", num: "191" }
                                } else {
                                    CountryCode { alpha2: "CU", alpha3: "CUB", name: "Cuba", num: "192" }
                                }
                            } else {
                                if i < 57 {
                                    CountryCode { alpha2: "CY", alpha3: "CYP", name: "Cyprus", num: "196" }
                                } else {
                                    CountryCode { alpha2: "CZ", alpha3: "CZE", name: "Czech Republic", num: "203" }
                                }
                            }
                        } else {
                            if i < 60 {
                                if i < 59 {
                                    CountryCode { alpha2: "BJ", alpha3: "BEN", name: "Benin", num: "204" }
                                } else {
                                    CountryCode { alpha2: "DK", alpha3: "DNK", name: "Denmark", num: "208" }
                                }
                            } else {
                                if i < 61 {
                                    CountryCode { alpha2: "DM", alpha3: "DMA", name: "Dominica", num: "212" }
                                } else {
                                    CountryCode { alpha2: "DO", alpha3: "DOM", name: "Dominican Republic", num: "214" }
                                }
                            }
                        }
                    }
                }
            }
        } else {
            if i < 93 {
                if i < 77 {
                    if i < 69 {
                        if i < 65 {
                            if i < 63 {
                                CountryCode { alpha2: "EC", alpha3: "ECU", name: "Ecuador", num: "218" }
                            } else {
                                if i < 64 {
                                    CountryCode { alpha2: "SV", alpha3: "SLV", name: "El Salvador", num: "222" }
                                } else {
                                    CountryCode { alpha2: "GQ", alpha3: "GNQ", name: "Equatorial Guinea", num: "226" }
                                }
                            }
                        } else {
                            if i < 67 {
                                if i < 66 {
                                    CountryCode { alpha2: "ET", alpha3: "ETH", name: "Ethiopia", num: "231" }
                                } else {
                                    CountryCode { alpha2: "ER", alpha3: "ERI", name: "Eritrea", num: "232" }
                                }
                            } else {
                                if i < 68 {
                                    CountryCode { alpha2: "EE", alpha3: "EST", name: "Estonia", num: "233" }
                                } else {
                                    CountryCode { alpha2: "FO", alpha3: "FRO", name: "Faroe Islands", num: "234" }
                                }
                            }
                        }
                    } else {
                        if i < 73 {
                            if i < 71 {
                                if i < 70 {
                                    CountryCode { alpha2: "FK", alpha3: "FLK", name: "Falkland Islands", num: "238" }
                                } else {
                                    CountryCode { alpha2: "GS", alpha3: "SGS", name: "South Georgia and the South Sandwich Islands", num: "239" }
                                }
                            } else {
                                if i < 72 {
                                    CountryCode { alpha2: "FJ", alpha3: "FJI", name: "Fiji", num: "242" }
                                } else {
                                    CountryCode { alpha2: "FI", alpha3: "FIN", name: "Finland", num: "246" }
                                }
                            }
                        } else {
                            if i < 75 {
                                if i < 74 {
                                    CountryCode { alpha2: "AX", alpha3: "ALA", name: "Åland Islands", num: "248" }
                                } else {
                                    CountryCode { alpha2: "FR", alpha3: "FRA", name: "France", num: "250" }
                                }
                            } else {
                                if i < 76 {
                                    CountryCode { alpha2: "GF", alpha3: "GUF", name: "French Guiana", num: "254" }
                                } else {
                                    CountryCode { alpha2: "PF", alpha3: "PYF", name: "French Polynesia", num: "258" }
                                }
                            }
                        }
                    }
                } else {
                    if i < 85 {
                        if i < 81 {
                            if i < 79 {
                                if i < 78 {
                                    CountryCode { alpha2: "TF", alpha3: "ATF", name: "French Southern Territories", num: "260" }
                                } else {
                                    CountryCode { alpha2: "DJ", alpha3: "DJI", name: "Djibouti", num: "262" }
                                }
                            } else {
                                if i < 80 {
                                    CountryCode { alpha2: "GA", alpha3: "GAB", name: "Gabon", num: "266" }
                                } else {
                                    CountryCode { alpha2: "GE", alpha3: "GEO", name: "Georgia", num: "268" }
                                }
                            }
                        } else {
                            if i < 83 {
                                if i < 82 {
                                    CountryCode { alpha2: "GM", alpha3: "GMB", name: "Gambia", num: "270" }
                                } else {
                                    CountryCode { alpha2: "PS", alpha3: "PSE", name: "Palestine, State of", num: "275" }
                                }
                            } else {
                                if i < 84 {
                                    CountryCode { alpha2: "DE", alpha3: "DEU", name: "Germany", num: "276" }
                                } else {
                                    CountryCode { alpha2: "GH", alpha3: "GHA", name: "Ghana", num: "288" }
                                }
                            }
                        }
                    } else {
                        if i < 89 {
                            if i < 87 {
                                if i < 86 {
                                    CountryCode { alpha2: "GI", alpha3: "GIB", name: "Gibraltar", num: "292" }
                                } else {
                                    CountryCode { alpha2: "KI", alpha3: "KIR", name: "Kiribati", num: "296" }
                                }
                            } else {
                                if i < 88 {
                                    CountryCode { alpha2: "GR", alpha3: "GRC", name: "Greece", num: "300" }
                                } else {
                                    CountryCode { alpha2: "GL", alpha3: "GRL", name: "Greenland", num: "304" }
                                }
                            }
                        } else {
                            if i < 91 {
                                if i < 90 {
                                    CountryCode { alpha2: "GD", alpha3: "GRD", name: "Grenada", num: "308" }
                                } else {
                                    CountryCode { alpha2: "GP", alpha3: "GLP", name: "Guadeloupe", num: "312" }
                                }
                            } else {
                                if i < 92 {
                                    CountryCode { alpha2: "GU", alpha3: "GUM", name: "Guam", num: "316" }
                                } else {
                                    CountryCode { alpha2: "GT", alpha3: "GTM", name: "Guatemala", num: "320" }
                                }
                            }
                        }
                    }
                }
            } else {
                if i < 108 {
                    if i < 100 {
                        if i < 96 {
                            if i < 94 {
                                CountryCode { alpha2: "GN", alpha3: "GIN", name: "Guinea", num: "324" }
                            } else {
                                if i < 95 {
                                    CountryCode { alpha2: "GY", alpha3: "GUY", name: "Guyana", num: "328" }
                                } else {
                                    CountryCode { alpha2: "HT", alpha3: "HTI", name: "Haiti", num: "332" }
                                }
                            }
                        } else {
                            if i < 98 {
                                if i < 97 {
                                    CountryCode { alpha2: "HM", alpha3: "HMD", name: "Heard Island and McDonald Islands", num: "334" }
                                } else {
                                    CountryCode { alpha2: "VA", alpha3: "VAT", name: "Holy See", num: "336" }
                                }
                            } else {
                                if i < 99 {
                                    CountryCode { alpha2: "HN", alpha3: "HND", name: "Honduras", num: "340" }
                                } else {
                                    CountryCode { alpha2: "HK", alpha3: "HKG", name: "Hong Kong", num: "344" }
                                }
                            }
                        }
                    } else {
                        if i < 104 {
                            if i < 102 {
                                if i < 101 {
                                    CountryCode { alpha2: "HU", alpha3: "HUN", name: "Hungary", num: "348" }
                                } else {
                                    CountryCode { alpha2: "IS", alpha3: "ISL", name: "Iceland", num: "352" }
                                }
                            } else {
                                if i < 103 {
                                    CountryCode { alpha2: "IN", alpha3: "IND", name: "India", num: "356" }
                                } else {
                                    CountryCode { alpha2: "ID", alpha3: "IDN", name: "Indonesia", num: "360" }
                                }
                            }
                        } else {
                            if i < 106 {
                                if i < 105 {
                                    CountryCode { alpha2: "IR", alpha3: "IRN", name: "Iran (Islamic Republic of)", num: "364" }
                                } else {
                                    CountryCode { alpha2: "IQ", alpha3: "IRQ", name: "Iraq", num: "368" }
                                }
                            } else {
                                if i < 107 {
                                    CountryCode { alpha2: "IE", alpha3: "IRL", name: "Ireland", num: "372" }
                                } else {
                                    CountryCode { alpha2: "IL", alpha3: "ISR", name: "Israel", num: "376" }
                                }
                            }
                        }
                    }
                } else {
                    if i < 116 {
                        if i < 112 {
                            if i < 110 {
                                if i < 109 {
                                    CountryCode { alpha2: "IT", alpha3: "ITA", name: "Italy", num: "380" }
                                } else {
                                    CountryCode { alpha2: "CI", alpha3: "CIV", name: "Côte d'Ivoire", num: "384" }
                                }
                            } else {
                                if i < 111 {
                                    CountryCode { alpha2: "JM", alpha3: "JAM", name: "Jamaica", num: "388" }
                                } else {
                                    CountryCode { alpha2: "JP", alpha3: "JPN", name: "Japan", num: "392" }
                                }
                            }
                        } else {
                            if i < 114 {
                                if i < 113 {
                                    CountryCode { alpha2: "KZ", alpha3: "KAZ", name: "Kazakhstan", num: "398" }
                                } else {
                                    CountryCode { alpha2: "JO", alpha3: "JOR", name: "Jordan", num: "400" }
                                }
                            } else {
                                if i < 115 {
                                    CountryCode { alpha2: "KE", alpha3: "KEN", name: "Kenya", num: "404" }
                                } else {
                                    CountryCode { alpha2: "KP", alpha3: "PRK", name: "Korea (Democratic People's Republic of)", num: "408" }
                                }
                            }
                        }
                    } else {
                        if i < 120 {
                            if i < 118 {
                                if i < 117 {
                                    CountryCode { alpha2: "KR", alpha3: "KOR", name: "Korea (Republic of)", num: "410" }
                                } else {
                                    CountryCode { alpha2: "KW", alpha3: "KWT", name: "Kuwait", num: "414" }
                                }
                            } else {
                                if i < 119 {
                                    CountryCode { alpha2: "KG", alpha3: "KGZ", name: "Kyrgyzstan", num: "417" }
                                } else {
                                    CountryCode { alpha2: "LA", alpha3: "LAO", name: "Lao People's Democratic Republic", num: "418" }
                                }
                            }
                        } else {
                            if i < 122 {
                                if i < 121 {
                                    CountryCode { alpha2: "LB", alpha3: "LBN", name: "Lebanon", num: "422" }
                                } else {
                                    CountryCode { alpha2: "LS", alpha3: "LSO", name: "Lesotho", num: "426" }
                                }
                            } else {
                                if i < 123 {
                                    CountryCode { alpha2: "LV", alpha3: "LVA", name: "Latvia", num: "428" }
                                } else {
                                    CountryCode { alpha2: "LR", alpha3: "LBR", name: "Liberia", num: "430" }
                                }
                            }
                        }
                    }
                }
            }
        }
    } else {
        if i < 186 {
            if i < 155 {
                if i < 139 {
                    if i < 131 {
                        if i < 127 {
                            if i < 125 {
                                CountryCode { alpha2: "LY", alpha3: "LBY", name: "Libya", num: "434" }
                            } else {
                                if i < 126 {
                                    CountryCode { alpha2: "LI", alpha3: "LIE", name: "Liechtenstein", num: "438" }
                                } else {
                                    CountryCode { alpha2: "LT", alpha3: "LTU", name: "Lithuania", num: "440" }
                                }
                            }
                        } else {
                            if i < 129 {
                                if i < 128 {
                                    CountryCode { alpha2: "LU", alpha3: "LUX", name: "Luxembourg", num: "442" }
                                } else {
                                    CountryCode { alpha2: "MO", alpha3: "MAC", name: "Macao", num: "446" }
                                }
                            } else {
                                if i < 130 {
                                    CountryCode { alpha2: "MG", alpha3: "MDG", name: "Madagascar", num: "450" }
                                } else {
                                    CountryCode { alpha2: "MW", alpha3: "MWI", name: "Malawi", num: "454" }
                                }
                            }
                        }
                    } else {
                        if i < 135 {
                            if i < 133 {
                                if i < 132 {
                                    CountryCode { alpha2: "MY", alpha3: "MYS", name: "Malaysia", num: "458" }
                                } else {
                                    CountryCode { alpha2: "MV", alpha3: "MDV", name: "Maldives", num: "462" }
                                }
                            } else {
                                if i < 134 {
                                    CountryCode { alpha2: "ML", alpha3: "MLI", name: "Mali", num: "466" }
                                } else {
                                    CountryCode { alpha2: "MT", alpha3: "MLT", name: "Malta", num: "470" }
                                }
                            }
                        } else {
                            if i < 137 {
                                if i < 136 {
                                    CountryCode { alpha2: "MQ", alpha3: "MTQ", name: "Martinique", num: "474" }
                                } else {
                                    CountryCode { alpha2: "MR", alpha3: "MRT", name: "Mauritania", num: "478" }
                                }
                            } else {
                                if i < 138 {
                                    CountryCode { alpha2: "MU", alpha3: "MUS", name: "Mauritius", num: "480" }
                                } else {
                                    CountryCode { alpha2: "MX", alpha3: "MEX", name: "Mexico", num: "484" }
                                }
                            }
                        }
                    }
                } else {
                    if i < 147 {
                        if i < 143 {
                            if i < 141 {
                                if i < 140 {
                                    CountryCode { alpha2: "MC", alpha3: "MCO", name: "Monaco", num: "492" }
                                } else {
                                    CountryCode { alpha2: "MN", alpha3: "MNG", name: "Mongolia", num: "496" }
                                }
                            } else {
                                if i < 142 {
                                    CountryCode { alpha2: "MD", alpha3: "MDA", name: "Moldova (Republic of)", num: "498" }
                                } else {
                                    CountryCode { alpha2: "ME", alpha3: "MNE", name: "Montenegro", num: "499" }
                                }
                            }
                        } else {
                            if i < 145 {
                                if i < 144 {
                                    CountryCode { alpha2: "MS", alpha3: "MSR", name: "Montserrat", num: "500" }
                                } else {
                                    CountryCode { alpha2: "MA", alpha3: "MAR", name: "Morocco", num: "504" }
                                }
                            } else {
                                if i < 146 {
                                    CountryCode { alpha2: "MZ", alpha3: "MOZ", name: "Mozambique", num: "508" }
                                } else {
                                    CountryCode { alpha2: "OM", alpha3: "OMN", name: "Oman", num: "512" }
                                }
                            }
                        }
                    } else {
                        if i < 151 {
                            if i < 149 {
                                if i < 148 {
                                    CountryCode { alpha2: "NA", alpha3: "NAM", name: "Namibia", num: "516" }
                                } else {
                                    CountryCode { alpha2: "NR", alpha3: "NRU", name: "Nauru", num: "520" }
                                }
                            } else {
                                if i < 150 {
                                    CountryCode { alpha2: "NP", alpha3: "NPL", name: "Nepal", num: "524" }
                                } else {
                                    CountryCode { alpha2: "NL", alpha3: "NLD", name: "Netherlands", num: "528" }
                                }
                            }
                        } else {
                            if i < 153 {
                                if i < 152 {
                                    CountryCode { alpha2: "CW", alpha3: "CUW", name: "Curaçao", num: "531" }
                                } else {
                                    CountryCode { alpha2: "AW", alpha3: "ABW", name: "Aruba", num: "533" }
                                }
                            } else {
                                if i < 154 {
                                    CountryCode { alpha2: "SX", alpha3: "SXM", name: "Sint Maarten (Dutch part)", num: "534" }
                                } else {
                                    CountryCode { alpha2: "BQ", alpha3: "BES", name: "Bonaire, Sint Eustatius and Saba", num: "535" }
                                }
                            }
                        }
                    }
                }
            } else {
                if i < 170 {
                    if i < 162 {
                        if i < 158 {
                            if i < 156 {
                                CountryCode { alpha2: "NC", alpha3: "NCL", name: "New Caledonia", num: "540" }
                            } else {
                                if i < 157 {
                                    CountryCode { alpha2: "VU", alpha3: "VUT", name: "Vanuatu", num: "548" }
                                } else {
                                    CountryCode { alpha2: "NZ", alpha3: "NZL", name: "New Zealand", num: "554" }
                                }
                            }
                        } else {
                            if i < 160 {
                                if i < 159 {
                                    CountryCode { alpha2: "NI", alpha3: "NIC", name: "Nicaragua", num: "558" }
                                } else {
                                    CountryCode { alpha2: "NE", alpha3: "NER", name: "Niger", num: "562" }
                                }
                            } else {
                                if i < 161 {
                                    CountryCode { alpha2: "NG", alpha3: "NGA", name: "Nigeria", num: "566" }
                                } else {
                                    CountryCode { alpha2: "NU", alpha3: "NIU", name: "Niue", num: "570" }
                                }
                            }
                        }
                    } else {
                        if i < 166 {
                            if i < 164 {
                                if i < 163 {
                                    CountryCode { alpha2: "NF", alpha3: "NFK", name: "Norfolk Island", num: "574" }
                                } else {
                                    CountryCode { alpha2: "NO", alpha3: "NOR", name: "Norway", num: "578" }
                                }
                            } else {
                                if i < 165 {
                                    CountryCode { alpha2: "MP", alpha3: "MNP", name: "Northern Mariana Islands", num: "580" }
                                } else {
                                    CountryCode { alpha2: "UM", alpha3: "UMI", name: "United States Minor Outlying Islands", num: "581" }
                                }
                            }
                        } else {
                            if i < 168 {
                                if i < 167 {
                                    CountryCode { alpha2: "FM", alpha3: "FSM", name: "Micronesia (Federated States of)", num: "583" }
                                } else {
                                    CountryCode { alpha2: "MH", alpha3: "MHL", name: "Marshall Islands", num: "584" }
                                }
                            } else {
                                if i < 169 {
                                    CountryCode { alpha2: "PW", alpha3: "PLW", name: "Palau", num: "585" }
                                } else {
                                    CountryCode { alpha2: "PK", alpha3: "PAK", name: "Pakistan", num: "586" }
                                }
                            }
                        }
                    }
                } else {
                    if i < 178 {
                        if i < 174 {
                            if i < 172 {
                                if i < 171 {
                                    CountryCode { alpha2: "PA", alpha3: "PAN", name: "Panama", num: "591" }
                                } else {
                                    CountryCode { alpha2: "PG", alpha3: "PNG", name: "Papua New Guinea", num: "598" }
                                }
                            } else {
                                if i < 173 {
                                    CountryCode { alpha2: "PY", alpha3: "PRY", name: "Paraguay", num: "600" }
                                } else {
                                    CountryCode { alpha2: "PE", alpha3: "PER", name: "Peru", num: "604" }
                                }
                            }
                        } else {
                            if i < 176 {
                                if i < 175 {
                                    CountryCode { alpha2: "PH", alpha3: "PHL", name: "Philippines", num: "608" }
                                } else {
                                    CountryCode { alpha2: "PN", alpha3: "PCN", name: "Pitcairn", num: "612" }
                                }
                            } else {
                                if i < 177 {
                                    CountryCode { alpha2: "PL", alpha3: "POL", name: "Poland", num: "616" }
                                } else {
                                    CountryCode { alpha2: "PT", alpha3: "PRT", name: "Portugal", num: "620" }
                                }
                            }
                        }
                    } else {
                        if i < 182 {
                            if i < 180 {
                                if i < 179 {
                                    CountryCode { alpha2: "GW", alpha3: "GNB", name: "Guinea-Bissau", num: "624" }
                                } else {
                                    CountryCode { alpha2: "TL", alpha3: "TLS", name: "Timor-Leste", num: "626" }
                                }
                            } else {
                                if i < 181 {
                                    CountryCode { alpha2: "PR", alpha3: "PRI", name: "Puerto Rico", num: "630" }
                                } else {
                                    CountryCode { alpha2: "QA", alpha3: "QAT", name: "Qatar", num: "634" }
                                }
                            }
                        } else {
                            if i < 184 {
                                if i < 183 {
                                    CountryCode { alpha2: "RE", alpha3: "REU", name: "Réunion", num: "638" }
                                } else {
                                    CountryCode { alpha2: "RO", alpha3: "ROU", name: "Romania", num: "642" }
                                }
                            } else {
                                if i < 185 {
                                    CountryCode { alpha2: "RU", alpha3: "RUS", name: "Russian Federation", num: "643" }
                                } else {
                                    CountryCode { alpha2: "RW", alpha3: "RWA", name: "Rwanda", num: "646" }
                                }
                            }
                        }
                    }
                }
            }
        } else {
            if i < 217 {
                if i < 201 {
                    if i < 193 {
                        if i < 189 {
                            if i < 187 {
                                CountryCode { alpha2: "BL", alpha3: "BLM", name: "Saint Barthélemy", num: "652" }
                            } else {
                                if i < 188 {
                                    CountryCode { alpha2: "SH", alpha3: "SHN", name: "Saint Helena, Ascension and Tristan da Cunha", num: "654" }
                                } else {
                                    CountryCode { alpha2: "KN", alpha3: "KNA", name: "Saint Kitts and Nevis", num: "659" }
                                }
                            }
                        } else {
                            if i < 191 {
                                if i < 190 {
                                    CountryCode { alpha2: "AI", alpha3: "AIA", name: "Anguilla", num: "660" }
                                } else {
                                    CountryCode { alpha2: "LC", alpha3: "LCA", name: "Saint Lucia", num: "662" }
                                }
                            } else {
                                if i < 192 {
                                    CountryCode { alpha2: "MF", alpha3: "MAF", name: "Saint Martin (French part)", num: "663" }
                                } else {
                                    CountryCode { alpha2: "PM", alpha3: "SPM", name: "Saint Pierre and Miquelon", num: "666" }
                                }
                            }
                        }
                    } else {
                        if i < 197 {
                            if i < 195 {
                                if i < 194 {
                                    CountryCode { alpha2: "VC", alpha3: "VCT", name: "Saint Vincent and the Grenadines", num: "670" }
                                } else {
                                    CountryCode { alpha2: "SM", alpha3: "SMR", name: "San Marino", num: "674" }
                                }
                            } else {
                                if i < 196 {
                                    CountryCode { alpha2: "ST", alpha3: "STP", name: "Sao Tome and Principe", num: "678" }
                                } else {
                                    CountryCode { alpha2: "SA", alpha3: "SAU", name: "Saudi Arabia", num: "682" }
                                }
                            }
                        } else {
                            if i < 199 {
                                if i < 198 {
                                    CountryCode { alpha2: "SN", alpha3: "SEN", name: "Senegal", num: "686" }
                                } else {
                                    CountryCode { alpha2: "RS", alpha3: "SRB", name: "Serbia", num: "688" }
                                }
                            } else {
                                if i < 200 {
                                    CountryCode { alpha2: "SC", alpha3: "SYC", name: "Seychelles", num: "690" }
                                } else {
                                    CountryCode { alpha2: "SL", alpha3: "SLE", name: "Sierra Leone", num: "694" }
                                }
                            }
                        }
                    }
                } else {
                    if i < 209 {
                        if i < 205 {
                            if i < 203 {
                                if i < 202 {
                                    CountryCode { alpha2: "SG", alpha3: "SGP", name: "Singapore", num: "702" }
                                } else {
                                    CountryCode { alpha2: "SK", alpha3: "SVK", name: "Slovakia", num: "703" }
                                }
                            } else {
                                if i < 204 {
                                    CountryCode { alpha2: "VN", alpha3: "VNM", name: "Viet Nam", num: "704" }
                                } else {
                                    CountryCode { alpha2: "SI", alpha3: "SVN", name: "Slovenia", num: "705" }
                                }
                            }
                        } else {
                            if i < 207 {
                                if i < 206 {
                                    CountryCode { alpha2: "SO", alpha3: "SOM", name: "Somalia", num: "706" }
                                } else {
                                    CountryCode { alpha2: "ZA", alpha3: "ZAF", name: "South Africa", num: "710" }
                                }
                            } else {
                                if i < 208 {
                                    CountryCode { alpha2: "ZW", alpha3: "ZWE", name: "Zimbabwe", num: "716" }
                                } else {
                                    CountryCode { alpha2: "ES", alpha3: "ESP", name: "Spain", num: "724" }
                                }
                            }
                        }
                    } else {
                        if i < 213 {
                            if i < 211 {
                                if i < 210 {
                                    CountryCode { alpha2: "SS", alpha3: "SSD", name: "South Sudan", num: "728" }
                                } else {
                                    CountryCode { alpha2: "SD", alpha3: "SDN", name: "Sudan", num: "729" }
                                }
                            } else {
                                if i < 212 {
                                    CountryCode { alpha2: "EH", alpha3: "ESH", name: "Western Sahara", num: "732" }
                                } else {
                                    CountryCode { alpha2: "SR", alpha3: "SUR", name: "Suriname", num: "740" }
                                }
                            }
                        } else {
                            if i < 215 {
                                if i < 214 {
                                    CountryCode { alpha2: "SJ", alpha3: "SJM", name: "Svalbard and Jan Mayen", num: "744" }
                                } else {
                                    CountryCode { alpha2: "SZ", alpha3: "SWZ", name: "Swaziland", num: "748" }
                                }
                            } else {
                                if i < 216 {
                                    CountryCode { alpha2: "SE", alpha3: "SWE", name: "Sweden", num: "752" }
                                } else {
                                    CountryCode { alpha2: "CH", alpha3: "CHE", name: "Switzerland", num: "756" }
                                }
                            }
                        }
                    }
                }
            } else {
                if i < 233 {
                    if i < 225 {
                        if i < 221 {
                            if i < 219 {
                                if i < 218 {
                                    CountryCode { alpha2: "SY", alpha3: "SYR", name: "Syrian Arab Republic", num: "760" }
                                } else {
                                    CountryCode { alpha2: "TJ", alpha3: "TJK", name: "Tajikistan", num: "762" }
                                }
                            } else {
                                if i < 220 {
                                    CountryCode { alpha2: "TH", alpha3: "THA", name: "Thailand", num: "764" }
                                } else {
                                    CountryCode { alpha2: "TG", alpha3: "TGO", name: "Togo", num: "768" }
                                }
                            }
                        } else {
                            if i < 223 {
                                if i < 222 {
                                    CountryCode { alpha2: "TK", alpha3: "TKL", name: "Tokelau", num: "772" }
                                } else {
                                    CountryCode { alpha2: "TO", alpha3: "TON", name: "Tonga", num: "776" }
                                }
                            } else {
                                if i < 224 {
                                    CountryCode { alpha2: "TT", alpha3: "TTO", name: "Trinidad and Tobago", num: "780" }
                                } else {
                                    CountryCode { alpha2: "AE", alpha3: "ARE", name: "United Arab Emirates", num: "784" }
                                }
                            }
                        }
                    } else {
                        if i < 229 {
                            if i < 227 {
                                if i < 226 {
                                    CountryCode { alpha2: "TN", alpha3: "TUN", name: "Tunisia", num: "788" }
                                } else {
                                    CountryCode { alpha2: "TR", alpha3: "TUR", name: "Turkey", num: "792" }
                                }
                            } else {
                                if i < 228 {
                                    CountryCode { alpha2: "TM", alpha3: "TKM", name: "Turkmenistan", num: "795" }
                                } else {
                                    CountryCode { alpha2: "TC", alpha3: "TCA", name: "Turks and Caicos Islands", num: "796" }
                                }
                            }
                        } else {
                            if i < 231 {
                                if i < 230 {
                                    CountryCode { alpha2: "TV", alpha3: "TUV", name: "Tuvalu", num: "798" }
                                } else {
                                    CountryCode { alpha2: "UG", alpha3: "UGA", name: "Uganda", num: "800" }
                                }
                            } else {
                                if i < 232 {
                                    CountryCode { alpha2: "UA", alpha3: "UKR", name: "Ukraine", num: "804" }
                                } else {
                                    CountryCode { alpha2: "MK", alpha3: "MKD", name: "Macedonia (the former Yugoslav Republic of)", num: "807" }
                                }
                            }
                        }
                    }
                } else {
                    if i < 241 {
                        if i < 237 {
                            if i < 235 {
                                if i < 234 {
                                    CountryCode { alpha2: "EG", alpha3: "EGY", name: "Egypt", num: "818" }
                                } else {
                                    CountryCode { alpha2: "GB", alpha3: "GBR", name: "United Kingdom of Great Britain and Northern Ireland", num: "826" }
                                }
                            } else {
                                if i < 236 {
                                    CountryCode { alpha2: "GG", alpha3: "GGY", name: "Guernsey", num: "831" }
                                } else {
                                    CountryCode { alpha2: "JE", alpha3: "JEY", name: "Jersey", num: "832" }
                                }
                            }
                        } else {
                            if i < 239 {
                                if i < 238 {
                                    CountryCode { alpha2: "IM", alpha3: "IMN", name: "Isle of Man", num: "833" }
                                } else {
                                    CountryCode { alpha2: "TZ", alpha3: "TZA", name: "Tanzania, United Republic of", num: "834" }
                                }
                            } else {
                                if i < 240 {
                                    CountryCode { alpha2: "US", alpha3: "USA", name: "United States of America", num: "840" }
                                } else {
                                    CountryCode { alpha2: "VI", alpha3: "VIR", name: "Virgin Islands (U.S.)", num: "850" }
                                }
                            }
                        }
                    } else {
                        if i < 245 {
                            if i < 243 {
                                if i < 242 {
                                    CountryCode { alpha2: "BF", alpha3: "BFA", name: "Burkina Faso", num: "854" }
                                } else {
                                    CountryCode { alpha2: "UY", alpha3: "URY", name: "Uruguay", num: "858" }
                                }
                            } else {
                                if i < 244 {
                                    CountryCode { alpha2: "UZ", alpha3: "UZB", name: "Uzbekistan", num: "860" }
                                } else {
                                    CountryCode { alpha2: "VE", alpha3: "VEN", name: "Venezuela (Bolivarian Republic of)", num: "862" }
                                }
                            }
                        } else {
                            if i < 247 {
                                if i < 246 {
                                    CountryCode { alpha2: "WF", alpha3: "WLF", name: "Wallis and Futuna", num: "876" }
                                } else {
                                    CountryCode { alpha2: "WS", alpha3: "WSM", name: "Samoa", num: "882" }
                                }
                            } else {
                                if i < 248 {
                                    CountryCode { alpha2: "YE", alpha3: "YEM", name: "Yemen", num: "887" }
                                } else {
                                    CountryCode { alpha2: "ZM", alpha3: "ZMB", name: "Zambia", num: "894" }
                                }
                            }
                        }
                    }
                }
            }
        }
    }
}

/// Returns every row of the dataset, in ascending numeric-code order.
pub fn all<'a>() -> (r: Vec<CountryCode<'a>>)
    ensures
        r@ == spec_all(),
        r@.len() == 249,
{
    let mut codes: Vec<CountryCode> = Vec::new();
    let mut i: usize = 0;
    while i < 249
        invariant
            i <= 249,
            codes@.len() == i,
            forall|k: int| 0 <= k < i ==> #[trigger] codes@[k] == spec_row::<'static>(k),
        decreases 249 - i,
    {
        codes.push(row(i));
        i = i + 1;
    }
    proof {
        assert(codes@ =~= spec_all());
    }
    codes
}

/// The dataset rows with the lifetime fixed, for use in laws.
pub open spec fn spec_dataset() -> Seq<CountryCode<'static>> {
    spec_all()
}

/// The dataset row index of `c`: the countries stand in the dataset in
/// enumeration order; the sentinel has no row.
pub open spec fn spec_row_index(c: Country) -> int {
    match c {
        Country::Unspecified => -1,
        Country::AF => 0,
        Country::AL => 1,
        Country::AQ => 2,
        Country::DZ => 3,
        Country::AS => 4,
        Country::AD => 5,
        Country::AO => 6,
        Country::AG => 7,
        Country::AZ => 8,
        Country::AR => 9,
        Country::AU => 10,
        Country::AT => 11,
        Country::BS => 12,
        Country::BH => 13,
        Country::BD => 14,
        Country::AM => 15,
        Country::BB => 16,
        Country::BE => 17,
        Country::BM => 18,
        Country::BT => 19,
        Country::BO => 20,
        Country::BA => 21,
        Country::BW => 22,
        Country::BV => 23,
        Country::BR => 24,
        Country::BZ => 25,
        Country::IO => 26,
        Country::SB => 27,
        Country::VG => 28,
        Country::BN => 29,
        Country::BG => 30,
        Country::MM => 31,
        Country::BI => 32,
        Country::BY => 33,
        Country::KH => 34,
        Country::CM => 35,
        Country::CA => 36,
        Country::CV => 37,
        Country::KY => 38,
        Country::CF => 39,
        Country::LK => 40,
        Country::TD => 41,
        Country::CL => 42,
        Country::CN => 43,
        Country::TW => 44,
        Country::CX => 45,
        Country::CC => 46,
        Country::CO => 47,
        Country::KM => 48,
        Country::YT => 49,
        Country::CG => 50,
        Country::CD => 51,
        Country::CK => 52,
        Country::CR => 53,
        Country::HR => 54,
        Country::CU => 55,
        Country::CY => 56,
        Country::CZ => 57,
        Country::BJ => 58,
        Country::DK => 59,
        Country::DM => 60,
        Country::DO => 61,
        Country::EC => 62,
        Country::SV => 63,
        Country::GQ => 64,
        Country::ET => 65,
        Country::ER => 66,
        Country::EE => 67,
        Country::FO => 68,
        Country::FK => 69,
        Country::GS => 70,
        Country::FJ => 71,
        Country::FI => 72,
        Country::AX => 73,
        Country::FR => 74,
        Country::GF => 75,
        Country::PF => 76,
        Country::TF => 77,
        Country::DJ => 78,
        Country::GA => 79,
        Country::GE => 80,
        Country::GM => 81,
        Country::PS => 82,
        Country::DE => 83,
        Country::GH => 84,
        Country::GI => 85,
        Country::KI => 86,
        Country::GR => 87,
        Country::GL => 88,
        Country::GD => 89,
        Country::GP => 90,
        Country::GU => 91,
        Country::GT => 92,
        Country::GN => 93,
        Country::GY => 94,
        Country::HT => 95,
        Country::HM => 96,
        Country::VA => 97,
        Country::HN => 98,
        Country::HK => 99,
        Country::HU => 100,
        Country::IS => 101,
        Country::IN => 102,
        Country::ID => 103,
        Country::IR => 104,
        Country::IQ => 105,
        Country::IE => 106,
        Country::IL => 107,
        Country::IT => 108,
        Country::CI => 109,
        Country::JM => 110,
        Country::JP => 111,
        Country::KZ => 112,
        Country::JO => 113,
        Country::KE => 114,
        Country::KP => 115,
        Country::KR => 116,
        Country::KW => 117,
        Country::KG => 118,
        Country::LA => 119,
        Country::LB => 120,
        Country::LS => 121,
        Country::LV => 122,
        Country::LR => 123,
        Country::LY => 124,
        Country::LI => 125,
        Country::LT => 126,
        Country::LU => 127,
        Country::MO => 128,
        Country::MG => 129,
        Country::MW => 130,
        Country::MY => 131,
        Country::MV => 132,
        Country::ML => 133,
        Country::MT => 134,
        Country::MQ => 135,
        Country::MR => 136,
        Country::MU => 137,
        Country::MX => 138,
        Country::MC => 139,
        Country::MN => 140,
        Country::MD => 141,
        Country::ME => 142,
        Country::MS => 143,
        Country::MA => 144,
        Country::MZ => 145,
        Country::OM => 146,
        Country::NA => 147,
        Country::NR => 148,
        Country::NP => 149,
        Country::NL => 150,
        Country::CW => 151,
        Country::AW => 152,
        Country::SX => 153,
        Country::BQ => 154,
        Country::NC => 155,
        Country::VU => 156,
        Country::NZ => 157,
        Country::NI => 158,
        Country::NE => 159,
        Country::NG => 160,
        Country::NU => 161,
        Country::NF => 162,
        Country::NO => 163,
        Country::MP => 164,
        Country::UM => 165,
        Country::FM => 166,
        Country::MH => 167,
        Country::PW => 168,
        Country::PK => 169,
        Country::PA => 170,
        Country::PG => 171,
        Country::PY => 172,
        Country::PE => 173,
        Country::PH => 174,
        Country::PN => 175,
        Country::PL => 176,
        Country::PT => 177,
        Country::GW => 178,
        Country::TL => 179,
        Country::PR => 180,
        Country::QA => 181,
        Country::RE => 182,
        Country::RO => 183,
        Country::RU => 184,
        Country::RW => 185,
        Country::BL => 186,
        Country::SH => 187,
        Country::KN => 188,
        Country::AI => 189,
        Country::LC => 190,
        Country::MF => 191,
        Country::PM => 192,
        Country::VC => 193,
        Country::SM => 194,
        Country::ST => 195,
        Country::SA => 196,
        Country::SN => 197,
        Country::RS => 198,
        Country::SC => 199,
        Country::SL => 200,
        Country::SG => 201,
        Country::SK => 202,
        Country::VN => 203,
        Country::SI => 204,
        Country::SO => 205,
        Country::ZA => 206,
        Country::ZW => 207,
        Country::ES => 208,
        Country::SS => 209,
        Country::SD => 210,
        Country::EH => 211,
        Country::SR => 212,
        Country::SJ => 213,
        Country::SZ => 214,
        Country::SE => 215,
        Country::CH => 216,
        Country::SY => 217,
        Country::TJ => 218,
        Country::TH => 219,
        Country::TG => 220,
        Country::TK => 221,
        Country::TO => 222,
        Country::TT => 223,
        Country::AE => 224,
        Country::TN => 225,
        Country::TR => 226,
        Country::TM => 227,
        Country::TC => 228,
        Country::TV => 229,
        Country::UG => 230,
        Country::UA => 231,
        Country::MK => 232,
        Country::EG => 233,
        Country::GB => 234,
        Country::GG => 235,
        Country::JE => 236,
        Country::IM => 237,
        Country::TZ => 238,
        Country::US => 239,
        Country::VI => 240,
        Country::BF => 241,
        Country::UY => 242,
        Country::UZ => 243,
        Country::VE => 244,
        Country::WF => 245,
        Country::WS => 246,
        Country::YE => 247,
        Country::ZM => 248,
    }
}

proof fn lemma_dataset_row_part0()
    ensures
        spec_dataset().len() == 249,
        spec_dataset()[0].alpha2@ == spec_alpha2(Country::AF),
        spec_dataset()[0].alpha3@ == spec_alpha3(Country::AF),
        spec_dataset()[0].name@ == spec_name(Country::AF),
        spec_dataset()[1].alpha2@ == spec_alpha2(Country::AL),
        spec_dataset()[1].alpha3@ == spec_alpha3(Country::AL),
        spec_dataset()[1].name@ == spec_name(Country::AL),
        spec_dataset()[2].alpha2@ == spec_alpha2(Country::AQ),
        spec_dataset()[2].alpha3@ == spec_alpha3(Country::AQ),
        spec_dataset()[2].name@ == spec_name(Country::AQ),
        spec_dataset()[3].alpha2@ == spec_alpha2(Country::DZ),
        spec_dataset()[3].alpha3@ == spec_alpha3(Country::DZ),
        spec_dataset()[3].name@ == spec_name(Country::DZ),
        spec_dataset()[4].alpha2@ == spec_alpha2(Country::AS),
        spec_dataset()[4].alpha3@ == spec_alpha3(Country::AS),
        spec_dataset()[4].name@ == spec_name(Country::AS),
        spec_dataset()[5].alpha2@ == spec_alpha2(Country::AD),
        spec_dataset()[5].alpha3@ == spec_alpha3(Country::AD),
        spec_dataset()[5].name@ == spec_name(Country::AD),
        spec_dataset()[6].alpha2@ == spec_alpha2(Country::AO),
        spec_dataset()[6].alpha3@ == spec_alpha3(Country::AO),
        spec_dataset()[6].name@ == spec_name(Country::AO),
        spec_dataset()[7].alpha2@ == spec_alpha2(Country::AG),
        spec_dataset()[7].alpha3@ == spec_alpha3(Country::AG),
        spec_dataset()[7].name@ == spec_name(Country::AG),
        spec_dataset()[8].alpha2@ == spec_alpha2(Country::AZ),
        spec_dataset()[8].alpha3@ == spec_alpha3(Country::AZ),
        spec_dataset()[8].name@ == spec_name(Country::AZ),
        spec_dataset()[9].alpha2@ == spec_alpha2(Country::AR),
        spec_dataset()[9].alpha3@ == spec_alpha3(Country::AR),
        spec_dataset()[9].name@ == spec_name(Country::AR),
        spec_dataset()[10].alpha2@ == spec_alpha2(Country::AU),
        spec_dataset()[10].alpha3@ == spec_alpha3(Country::AU),
        spec_dataset()[10].name@ == spec_name(Country::AU),
        spec_dataset()[11].alpha2@ == spec_alpha2(Country::AT),
        spec_dataset()[11].alpha3@ == spec_alpha3(Country::AT),
        spec_dataset()[11].name@ == spec_name(Country::AT),
        spec_dataset()[12].alpha2@ == spec_alpha2(Country::BS),
        spec_dataset()[12].alpha3@ == spec_alpha3(Country::BS),
        spec_dataset()[12].name@ == spec_name(Country::BS),
        spec_dataset()[13].alpha2@ == spec_alpha2(Country::BH),
        spec_dataset()[13].alpha3@ == spec_alpha3(Country::BH),
        spec_dataset()[13].name@ == spec_name(Country::BH),
        spec_dataset()[14].alpha2@ == spec_alpha2(Country::BD),
        spec_dataset()[14].alpha3@ == spec_alpha3(Country::BD),
        spec_dataset()[14].name@ == spec_name(Country::BD),
        spec_dataset()[15].alpha2@ == spec_alpha2(Country::AM),
        spec_dataset()[15].alpha3@ == spec_alpha3(Country::AM),
        spec_dataset()[15].name@ == spec_name(Country::AM),
        spec_dataset()[16].alpha2@ == spec_alpha2(Country::BB),
        spec_dataset()[16].alpha3@ == spec_alpha3(Country::BB),
        spec_dataset()[16].name@ == spec_name(Country::BB),
        spec_dataset()[17].alpha2@ == spec_alpha2(Country::BE),
        spec_dataset()[17].alpha3@ == spec_alpha3(Country::BE),
        spec_dataset()[17].name@ == spec_name(Country::BE),
        spec_dataset()[18].alpha2@ == spec_alpha2(Country::BM),
        spec_dataset()[18].alpha3@ == spec_alpha3(Country::BM),
        spec_dataset()[18].name@ == spec_name(Country::BM),
        spec_dataset()[19].alpha2@ == spec_alpha2(Country::BT),
        spec_dataset()[19].alpha3@ == spec_alpha3(Country::BT),
        spec_dataset()[19].name@ == spec_name(Country::BT),
        spec_dataset()[20].alpha2@ == spec_alpha2(Country::BO),
        spec_dataset()[20].alpha3@ == spec_alpha3(Country::BO),
        spec_dataset()[20].name@ == spec_name(Country::BO),
        spec_dataset()[21].alpha2@ == spec_alpha2(Country::BA),
        spec_dataset()[21].alpha3@ == spec_alpha3(Country::BA),
        spec_dataset()[21].name@ == spec_name(Country::BA),
        spec_dataset()[22].alpha2@ == spec_alpha2(Country::BW),
        spec_dataset()[22].alpha3@ == spec_alpha3(Country::BW),
        spec_dataset()[22].name@ == spec_name(Country::BW),
        spec_dataset()[23].alpha2@ == spec_alpha2(Country::BV),
        spec_dataset()[23].alpha3@ == spec_alpha3(Country::BV),
        spec_dataset()[23].name@ == spec_name(Country::BV),
        spec_dataset()[24].alpha2@ == spec_alpha2(Country::BR),
        spec_dataset()[24].alpha3@ == spec_alpha3(Country::BR),
        spec_dataset()[24].name@ == spec_name(Country::BR),
{
}

proof fn lemma_dataset_row_part1()
    ensures
        spec_dataset()[25].alpha2@ == spec_alpha2(Country::BZ),
        spec_dataset()[25].alpha3@ == spec_alpha3(Country::BZ),
        spec_dataset()[25].name@ == spec_name(Country::BZ),
        spec_dataset()[26].alpha2@ == spec_alpha2(Country::IO),
        spec_dataset()[26].alpha3@ == spec_alpha3(Country::IO),
        spec_dataset()[26].name@ == spec_name(Country::IO),
        spec_dataset()[27].alpha2@ == spec_alpha2(Country::SB),
        spec_dataset()[27].alpha3@ == spec_alpha3(Country::SB),
        spec_dataset()[27].name@ == spec_name(Country::SB),
        spec_dataset()[28].alpha2@ == spec_alpha2(Country::VG),
        spec_dataset()[28].alpha3@ == spec_alpha3(Country::VG),
        spec_dataset()[28].name@ == spec_name(Country::VG),
        spec_dataset()[29].alpha2@ == spec_alpha2(Country::BN),
        spec_dataset()[29].alpha3@ == spec_alpha3(Country::BN),
        spec_dataset()[29].name@ == spec_name(Country::BN),
        spec_dataset()[30].alpha2@ == spec_alpha2(Country::BG),
        spec_dataset()[30].alpha3@ == spec_alpha3(Country::BG),
        spec_dataset()[30].name@ == spec_name(Country::BG),
        spec_dataset()[31].alpha2@ == spec_alpha2(Country::MM),
        spec_dataset()[31].alpha3@ == spec_alpha3(Country::MM),
        spec_dataset()[31].name@ == spec_name(Country::MM),
        spec_dataset()[32].alpha2@ == spec_alpha2(Country::BI),
        spec_dataset()[32].alpha3@ == spec_alpha3(Country::BI),
        spec_dataset()[32].name@ == spec_name(Country::BI),
        spec_dataset()[33].alpha2@ == spec_alpha2(Country::BY),
        spec_dataset()[33].alpha3@ == spec_alpha3(Country::BY),
        spec_dataset()[33].name@ == spec_name(Country::BY),
        spec_dataset()[34].alpha2@ == spec_alpha2(Country::KH),
        spec_dataset()[34].alpha3@ == spec_alpha3(Country::KH),
        spec_dataset()[34].name@ == spec_name(Country::KH),
        spec_dataset()[35].alpha2@ == spec_alpha2(Country::CM),
        spec_dataset()[35].alpha3@ == spec_alpha3(Country::CM),
        spec_dataset()[35].name@ == spec_name(Country::CM),
        spec_dataset()[36].alpha2@ == spec_alpha2(Country::CA),
        spec_dataset()[36].alpha3@ == spec_alpha3(Country::CA),
        spec_dataset()[36].name@ == spec_name(Country::CA),
        spec_dataset()[37].alpha2@ == spec_alpha2(Country::CV),
        spec_dataset()[37].alpha3@ == spec_alpha3(Country::CV),
        spec_dataset()[37].name@ == spec_name(Country::CV),
        spec_dataset()[38].alpha2@ == spec_alpha2(Country::KY),
        spec_dataset()[38].alpha3@ == spec_alpha3(Country::KY),
        spec_dataset()[38].name@ == spec_name(Country::KY),
        spec_dataset()[39].alpha2@ == spec_alpha2(Country::CF),
        spec_dataset()[39].alpha3@ == spec_alpha3(Country::CF),
        spec_dataset()[39].name@ == spec_name(Country::CF),
        spec_dataset()[40].alpha2@ == spec_alpha2(Country::LK),
        spec_dataset()[40].alpha3@ == spec_alpha3(Country::LK),
        spec_dataset()[40].name@ == spec_name(Country::LK),
        spec_dataset()[41].alpha2@ == spec_alpha2(Country::TD),
        spec_dataset()[41].alpha3@ == spec_alpha3(Country::TD),
        spec_dataset()[41].name@ == spec_name(Country::TD),
        spec_dataset()[42].alpha2@ == spec_alpha2(Country::CL),
        spec_dataset()[42].alpha3@ == spec_alpha3(Country::CL),
        spec_dataset()[42].name@ == spec_name(Country::CL),
        spec_dataset()[43].alpha2@ == spec_alpha2(Country::CN),
        spec_dataset()[43].alpha3@ == spec_alpha3(Country::CN),
        spec_dataset()[43].name@ == spec_name(Country::CN),
        spec_dataset()[44].alpha2@ == spec_alpha2(Country::TW),
        spec_dataset()[44].alpha3@ == spec_alpha3(Country::TW),
        spec_dataset()[44].name@ == spec_name(Country::TW),
        spec_dataset()[45].alpha2@ == spec_alpha2(Country::CX),
        spec_dataset()[45].alpha3@ == spec_alpha3(Country::CX),
        spec_dataset()[45].name@ == spec_name(Country::CX),
        spec_dataset()[46].alpha2@ == spec_alpha2(Country::CC),
        spec_dataset()[46].alpha3@ == spec_alpha3(Country::CC),
        spec_dataset()[46].name@ == spec_name(Country::CC),
        spec_dataset()[47].alpha2@ == spec_alpha2(Country::CO),
        spec_dataset()[47].alpha3@ == spec_alpha3(Country::CO),
        spec_dataset()[47].name@ == spec_name(Country::CO),
        spec_dataset()[48].alpha2@ == spec_alpha2(Country::KM),
        spec_dataset()[48].alpha3@ == spec_alpha3(Country::KM),
        spec_dataset()[48].name@ == spec_name(Country::KM),
        spec_dataset()[49].alpha2@ == spec_alpha2(Country::YT),
        spec_dataset()[49].alpha3@ == spec_alpha3(Country::YT),
        spec_dataset()[49].name@ == spec_name(Country::YT),
{
}

proof fn lemma_dataset_row_part2()
    ensures
        spec_dataset()[50].alpha2@ == spec_alpha2(Country::CG),
        spec_dataset()[50].alpha3@ == spec_alpha3(Country::CG),
        spec_dataset()[50].name@ == spec_name(Country::CG),
        spec_dataset()[51].alpha2@ == spec_alpha2(Country::CD),
        spec_dataset()[51].alpha3@ == spec_alpha3(Country::CD),
        spec_dataset()[51].name@ == spec_name(Country::CD),
        spec_dataset()[52].alpha2@ == spec_alpha2(Country::CK),
        spec_dataset()[52].alpha3@ == spec_alpha3(Country::CK),
        spec_dataset()[52].name@ == spec_name(Country::CK),
        spec_dataset()[53].alpha2@ == spec_alpha2(Country::CR),
        spec_dataset()[53].alpha3@ == spec_alpha3(Country::CR),
        spec_dataset()[53].name@ == spec_name(Country::CR),
        spec_dataset()[54].alpha2@ == spec_alpha2(Country::HR),
        spec_dataset()[54].alpha3@ == spec_alpha3(Country::HR),
        spec_dataset()[54].name@ == spec_name(Country::HR),
        spec_dataset()[55].alpha2@ == spec_alpha2(Country::CU),
        spec_dataset()[55].alpha3@ == spec_alpha3(Country::CU),
        spec_dataset()[55].name@ == spec_name(Country::CU),
        spec_dataset()[56].alpha2@ == spec_alpha2(Country::CY),
        spec_dataset()[56].alpha3@ == spec_alpha3(Country::CY),
        spec_dataset()[56].name@ == spec_name(Country::CY),
        spec_dataset()[57].alpha2@ == spec_alpha2(Country::CZ),
        spec_dataset()[57].alpha3@ == spec_alpha3(Country::CZ),
        spec_dataset()[57].name@ == spec_name(Country::CZ),
        spec_dataset()[58].alpha2@ == spec_alpha2(Country::BJ),
        spec_dataset()[58].alpha3@ == spec_alpha3(Country::BJ),
        spec_dataset()[58].name@ == spec_name(Country::BJ),
        spec_dataset()[59].alpha2@ == spec_alpha2(Country::DK),
        spec_dataset()[59].alpha3@ == spec_alpha3(Country::DK),
        spec_dataset()[59].name@ == spec_name(Country::DK),
        spec_dataset()[60].alpha2@ == spec_alpha2(Country::DM),
        spec_dataset()[60].alpha3@ == spec_alpha3(Country::DM),
        spec_dataset()[60].name@ == spec_name(Country::DM),
        spec_dataset()[61].alpha2@ == spec_alpha2(Country::DO),
        spec_dataset()[61].alpha3@ == spec_alpha3(Country::DO),
        spec_dataset()[61].name@ == spec_name(Country::DO),
        spec_dataset()[62].alpha2@ == spec_alpha2(Country::EC),
        spec_dataset()[62].alpha3@ == spec_alpha3(Country::EC),
        spec_dataset()[62].name@ == spec_name(Country::EC),
        spec_dataset()[63].alpha2@ == spec_alpha2(Country::SV),
        spec_dataset()[63].alpha3@ == spec_alpha3(Country::SV),
        spec_dataset()[63].name@ == spec_name(Country::SV),
        spec_dataset()[64].alpha2@ == spec_alpha2(Country::GQ),
        spec_dataset()[64].alpha3@ == spec_alpha3(Country::GQ),
        spec_dataset()[64].name@ == spec_name(Country::GQ),
        spec_dataset()[65].alpha2@ == spec_alpha2(Country::ET),
        spec_dataset()[65].alpha3@ == spec_alpha3(Country::ET),
        spec_dataset()[65].name@ == spec_name(Country::ET),
        spec_dataset()[66].alpha2@ == spec_alpha2(Country::ER),
        spec_dataset()[66].alpha3@ == spec_alpha3(Country::ER),
        spec_dataset()[66].name@ == spec_name(Country::ER),
        spec_dataset()[67].alpha2@ == spec_alpha2(Country::EE),
        spec_dataset()[67].alpha3@ == spec_alpha3(Country::EE),
        spec_dataset()[67].name@ == spec_name(Country::EE),
        spec_dataset()[68].alpha2@ == spec_alpha2(Country::FO),
        spec_dataset()[68].alpha3@ == spec_alpha3(Country::FO),
        spec_dataset()[68].name@ == spec_name(Country::FO),
        spec_dataset()[69].alpha2@ == spec_alpha2(Country::FK),
        spec_dataset()[69].alpha3@ == spec_alpha3(Country::FK),
        spec_dataset()[69].name@ == spec_name(Country::FK),
        spec_dataset()[70].alpha2@ == spec_alpha2(Country::GS),
        spec_dataset()[70].alpha3@ == spec_alpha3(Country::GS),
        spec_dataset()[70].name@ == spec_name(Country::GS),
        spec_dataset()[71].alpha2@ == spec_alpha2(Country::FJ),
        spec_dataset()[71].alpha3@ == spec_alpha3(Country::FJ),
        spec_dataset()[71].name@ == spec_name(Country::FJ),
        spec_dataset()[72].alpha2@ == spec_alpha2(Country::FI),
        spec_dataset()[72].alpha3@ == spec_alpha3(Country::FI),
        spec_dataset()[72].name@ == spec_name(Country::FI),
        spec_dataset()[73].alpha2@ == spec_alpha2(Country::AX),
        spec_dataset()[73].alpha3@ == spec_alpha3(Country::AX),
        spec_dataset()[73].name@ == spec_name(Country::AX),
        spec_dataset()[74].alpha2@ == spec_alpha2(Country::FR),
        spec_dataset()[74].alpha3@ == spec_alpha3(Country::FR),
        spec_dataset()[74].name@ == spec_name(Country::FR),
{
}

proof fn lemma_dataset_row_part3()
    ensures
        spec_dataset()[75].alpha2@ == spec_alpha2(Country::GF),
        spec_dataset()[75].alpha3@ == spec_alpha3(Country::GF),
        spec_dataset()[75].name@ == spec_name(Country::GF),
        spec_dataset()[76].alpha2@ == spec_alpha2(Country::PF),
        spec_dataset()[76].alpha3@ == spec_alpha3(Country::PF),
        spec_dataset()[76].name@ == spec_name(Country::PF),
        spec_dataset()[77].alpha2@ == spec_alpha2(Country::TF),
        spec_dataset()[77].alpha3@ == spec_alpha3(Country::TF),
        spec_dataset()[77].name@ == spec_name(Country::TF),
        spec_dataset()[78].alpha2@ == spec_alpha2(Country::DJ),
        spec_dataset()[78].alpha3@ == spec_alpha3(Country::DJ),
        spec_dataset()[78].name@ == spec_name(Country::DJ),
        spec_dataset()[79].alpha2@ == spec_alpha2(Country::GA),
        spec_dataset()[79].alpha3@ == spec_alpha3(Country::GA),
        spec_dataset()[79].name@ == spec_name(Country::GA),
        spec_dataset()[80].alpha2@ == spec_alpha2(Country::GE),
        spec_dataset()[80].alpha3@ == spec_alpha3(Country::GE),
        spec_dataset()[80].name@ == spec_name(Country::GE),
        spec_dataset()[81].alpha2@ == spec_alpha2(Country::GM),
        spec_dataset()[81].alpha3@ == spec_alpha3(Country::GM),
        spec_dataset()[81].name@ == spec_name(Country::GM),
        spec_dataset()[82].alpha2@ == spec_alpha2(Country::PS),
        spec_dataset()[82].alpha3@ == spec_alpha3(Country::PS),
        spec_dataset()[82].name@ == spec_name(Country::PS),
        spec_dataset()[83].alpha2@ == spec_alpha2(Country::DE),
        spec_dataset()[83].alpha3@ == spec_alpha3(Country::DE),
        spec_dataset()[83].name@ == spec_name(Country::DE),
        spec_dataset()[84].alpha2@ == spec_alpha2(Country::GH),
        spec_dataset()[84].alpha3@ == spec_alpha3(Country::GH),
        spec_dataset()[84].name@ == spec_name(Country::GH),
        spec_dataset()[85].alpha2@ == spec_alpha2(Country::GI),
        spec_dataset()[85].alpha3@ == spec_alpha3(Country::GI),
        spec_dataset()[85].name@ == spec_name(Country::GI),
        spec_dataset()[86].alpha2@ == spec_alpha2(Country::KI),
        spec_dataset()[86].alpha3@ == spec_alpha3(Country::KI),
        spec_dataset()[86].name@ == spec_name(Country::KI),
        spec_dataset()[87].alpha2@ == spec_alpha2(Country::GR),
        spec_dataset()[87].alpha3@ == spec_alpha3(Country::GR),
        spec_dataset()[87].name@ == spec_name(Country::GR),
        spec_dataset()[88].alpha2@ == spec_alpha2(Country::GL),
        spec_dataset()[88].alpha3@ == spec_alpha3(Country::GL),
        spec_dataset()[88].name@ == spec_name(Country::GL),
        spec_dataset()[89].alpha2@ == spec_alpha2(Country::GD),
        spec_dataset()[89].alpha3@ == spec_alpha3(Country::GD),
        spec_dataset()[89].name@ == spec_name(Country::GD),
        spec_dataset()[90].alpha2@ == spec_alpha2(Country::GP),
        spec_dataset()[90].alpha3@ == spec_alpha3(Country::GP),
        spec_dataset()[90].name@ == spec_name(Country::GP),
        spec_dataset()[91].alpha2@ == spec_alpha2(Country::GU),
        spec_dataset()[91].alpha3@ == spec_alpha3(Country::GU),
        spec_dataset()[91].name@ == spec_name(Country::GU),
        spec_dataset()[92].alpha2@ == spec_alpha2(Country::GT),
        spec_dataset()[92].alpha3@ == spec_alpha3(Country::GT),
        spec_dataset()[92].name@ == spec_name(Country::GT),
        spec_dataset()[93].alpha2@ == spec_alpha2(Country::GN),
        spec_dataset()[93].alpha3@ == spec_alpha3(Country::GN),
        spec_dataset()[93].name@ == spec_name(Country::GN),
        spec_dataset()[94].alpha2@ == spec_alpha2(Country::GY),
        spec_dataset()[94].alpha3@ == spec_alpha3(Country::GY),
        spec_dataset()[94].name@ == spec_name(Country::GY),
        spec_dataset()[95].alpha2@ == spec_alpha2(Country::HT),
        spec_dataset()[95].alpha3@ == spec_alpha3(Country::HT),
        spec_dataset()[95].name@ == spec_name(Country::HT),
        spec_dataset()[96].alpha2@ == spec_alpha2(Country::HM),
        spec_dataset()[96].alpha3@ == spec_alpha3(Country::HM),
        spec_dataset()[96].name@ == spec_name(Country::HM),
        spec_dataset()[97].alpha2@ == spec_alpha2(Country::VA),
        spec_dataset()[97].alpha3@ == spec_alpha3(Country::VA),
        spec_dataset()[97].name@ == spec_name(Country::VA),
        spec_dataset()[98].alpha2@ == spec_alpha2(Country::HN),
        spec_dataset()[98].alpha3@ == spec_alpha3(Country::HN),
        spec_dataset()[98].name@ == spec_name(Country::HN),
        spec_dataset()[99].alpha2@ == spec_alpha2(Country::HK),
        spec_dataset()[99].alpha3@ == spec_alpha3(Country::HK),
        spec_dataset()[99].name@ == spec_name(Country::HK),
{
}

proof fn lemma_dataset_row_part4()
    ensures
        spec_dataset()[100].alpha2@ == spec_alpha2(Country::HU),
        spec_dataset()[100].alpha3@ == spec_alpha3(Country::HU),
        spec_dataset()[100].name@ == spec_name(Country::HU),
        spec_dataset()[101].alpha2@ == spec_alpha2(Country::IS),
        spec_dataset()[101].alpha3@ == spec_alpha3(Country::IS),
        spec_dataset()[101].name@ == spec_name(Country::IS),
        spec_dataset()[102].alpha2@ == spec_alpha2(Country::IN),
        spec_dataset()[102].alpha3@ == spec_alpha3(Country::IN),
        spec_dataset()[102].name@ == spec_name(Country::IN),
        spec_dataset()[103].alpha2@ == spec_alpha2(Country::ID),
        spec_dataset()[103].alpha3@ == spec_alpha3(Country::ID),
        spec_dataset()[103].name@ == spec_name(Country::ID),
        spec_dataset()[104].alpha2@ == spec_alpha2(Country::IR),
        spec_dataset()[104].alpha3@ == spec_alpha3(Country::IR),
        spec_dataset()[104].name@ == spec_name(Country::IR),
        spec_dataset()[105].alpha2@ == spec_alpha2(Country::IQ),
        spec_dataset()[105].alpha3@ == spec_alpha3(Country::IQ),
        spec_dataset()[105].name@ == spec_name(Country::IQ),
        spec_dataset()[106].alpha2@ == spec_alpha2(Country::IE),
        spec_dataset()[106].alpha3@ == spec_alpha3(Country::IE),
        spec_dataset()[106].name@ == spec_name(Country::IE),
        spec_dataset()[107].alpha2@ == spec_alpha2(Country::IL),
        spec_dataset()[107].alpha3@ == spec_alpha3(Country::IL),
        spec_dataset()[107].name@ == spec_name(Country::IL),
        spec_dataset()[108].alpha2@ == spec_alpha2(Country::IT),
        spec_dataset()[108].alpha3@ == spec_alpha3(Country::IT),
        spec_dataset()[108].name@ == spec_name(Country::IT),
        spec_dataset()[109].alpha2@ == spec_alpha2(Country::CI),
        spec_dataset()[109].alpha3@ == spec_alpha3(Country::CI),
        spec_dataset()[109].name@ == spec_name(Country::CI),
        spec_dataset()[110].alpha2@ == spec_alpha2(Country::JM),
        spec_dataset()[110].alpha3@ == spec_alpha3(Country::JM),
        spec_dataset()[110].name@ == spec_name(Country::JM),
        spec_dataset()[111].alpha2@ == spec_alpha2(Country::JP),
        spec_dataset()[111].alpha3@ == spec_alpha3(Country::JP),
        spec_dataset()[111].name@ == spec_name(Country::JP),
        spec_dataset()[112].alpha2@ == spec_alpha2(Country::KZ),
        spec_dataset()[112].alpha3@ == spec_alpha3(Country::KZ),
        spec_dataset()[112].name@ == spec_name(Country::KZ),
        spec_dataset()[113].alpha2@ == spec_alpha2(Country::JO),
        spec_dataset()[113].alpha3@ == spec_alpha3(Country::JO),
        spec_dataset()[113].name@ == spec_name(Country::JO),
        spec_dataset()[114].alpha2@ == spec_alpha2(Country::KE),
        spec_dataset()[114].alpha3@ == spec_alpha3(Country::KE),
        spec_dataset()[114].name@ == spec_name(Country::KE),
        spec_dataset()[115].alpha2@ == spec_alpha2(Country::KP),
        spec_dataset()[115].alpha3@ == spec_alpha3(Country::KP),
        spec_dataset()[115].name@ == spec_name(Country::KP),
        spec_dataset()[116].alpha2@ == spec_alpha2(Country::KR),
        spec_dataset()[116].alpha3@ == spec_alpha3(Country::KR),
        spec_dataset()[116].name@ == spec_name(Country::KR),
        spec_dataset()[117].alpha2@ == spec_alpha2(Country::KW),
        spec_dataset()[117].alpha3@ == spec_alpha3(Country::KW),
        spec_dataset()[117].name@ == spec_name(Country::KW),
        spec_dataset()[118].alpha2@ == spec_alpha2(Country::KG),
        spec_dataset()[118].alpha3@ == spec_alpha3(Country::KG),
        spec_dataset()[118].name@ == spec_name(Country::KG),
        spec_dataset()[119].alpha2@ == spec_alpha2(Country::LA),
        spec_dataset()[119].alpha3@ == spec_alpha3(Country::LA),
        spec_dataset()[119].name@ == spec_name(Country::LA),
        spec_dataset()[120].alpha2@ == spec_alpha2(Country::LB),
        spec_dataset()[120].alpha3@ == spec_alpha3(Country::LB),
        spec_dataset()[120].name@ == spec_name(Country::LB),
        spec_dataset()[121].alpha2@ == spec_alpha2(Country::LS),
        spec_dataset()[121].alpha3@ == spec_alpha3(Country::LS),
        spec_dataset()[121].name@ == spec_name(Country::LS),
        spec_dataset()[122].alpha2@ == spec_alpha2(Country::LV),
        spec_dataset()[122].alpha3@ == spec_alpha3(Country::LV),
        spec_dataset()[122].name@ == spec_name(Country::LV),
        spec_dataset()[123].alpha2@ == spec_alpha2(Country::LR),
        spec_dataset()[123].alpha3@ == spec_alpha3(Country::LR),
        spec_dataset()[123].name@ == spec_name(Country::LR),
        spec_dataset()[124].alpha2@ == spec_alpha2(Country::LY),
        spec_dataset()[124].alpha3@ == spec_alpha3(Country::LY),
        spec_dataset()[124].name@ == spec_name(Country::LY),
{
}

proof fn lemma_dataset_row_part5()
    ensures
        spec_dataset()[125].alpha2@ == spec_alpha2(Country::LI),
        spec_dataset()[125].alpha3@ == spec_alpha3(Country::LI),
        spec_dataset()[125].name@ == spec_name(Country::LI),
        spec_dataset()[126].alpha2@ == spec_alpha2(Country::LT),
        spec_dataset()[126].alpha3@ == spec_alpha3(Country::LT),
        spec_dataset()[126].name@ == spec_name(Country::LT),
        spec_dataset()[127].alpha2@ == spec_alpha2(Country::LU),
        spec_dataset()[127].alpha3@ == spec_alpha3(Country::LU),
        spec_dataset()[127].name@ == spec_name(Country::LU),
        spec_dataset()[128].alpha2@ == spec_alpha2(Country::MO),
        spec_dataset()[128].alpha3@ == spec_alpha3(Country::MO),
        spec_dataset()[128].name@ == spec_name(Country::MO),
        spec_dataset()[129].alpha2@ == spec_alpha2(Country::MG),
        spec_dataset()[129].alpha3@ == spec_alpha3(Country::MG),
        spec_dataset()[129].name@ == spec_name(Country::MG),
        spec_dataset()[130].alpha2@ == spec_alpha2(Country::MW),
        spec_dataset()[130].alpha3@ == spec_alpha3(Country::MW),
        spec_dataset()[130].name@ == spec_name(Country::MW),
        spec_dataset()[131].alpha2@ == spec_alpha2(Country::MY),
        spec_dataset()[131].alpha3@ == spec_alpha3(Country::MY),
        spec_dataset()[131].name@ == spec_name(Country::MY),
        spec_dataset()[132].alpha2@ == spec_alpha2(Country::MV),
        spec_dataset()[132].alpha3@ == spec_alpha3(Country::MV),
        spec_dataset()[132].name@ == spec_name(Country::MV),
        spec_dataset()[133].alpha2@ == spec_alpha2(Country::ML),
        spec_dataset()[133].alpha3@ == spec_alpha3(Country::ML),
        spec_dataset()[133].name@ == spec_name(Country::ML),
        spec_dataset()[134].alpha2@ == spec_alpha2(Country::MT),
        spec_dataset()[134].alpha3@ == spec_alpha3(Country::MT),
        spec_dataset()[134].name@ == spec_name(Country::MT),
        spec_dataset()[135].alpha2@ == spec_alpha2(Country::MQ),
        spec_dataset()[135].alpha3@ == spec_alpha3(Country::MQ),
        spec_dataset()[135].name@ == spec_name(Country::MQ),
        spec_dataset()[136].alpha2@ == spec_alpha2(Country::MR),
        spec_dataset()[136].alpha3@ == spec_alpha3(Country::MR),
        spec_dataset()[136].name@ == spec_name(Country::MR),
        spec_dataset()[137].alpha2@ == spec_alpha2(Country::MU),
        spec_dataset()[137].alpha3@ == spec_alpha3(Country::MU),
        spec_dataset()[137].name@ == spec_name(Country::MU),
        spec_dataset()[138].alpha2@ == spec_alpha2(Country::MX),
        spec_dataset()[138].alpha3@ == spec_alpha3(Country::MX),
        spec_dataset()[138].name@ == spec_name(Country::MX),
        spec_dataset()[139].alpha2@ == spec_alpha2(Country::MC),
        spec_dataset()[139].alpha3@ == spec_alpha3(Country::MC),
        spec_dataset()[139].name@ == spec_name(Country::MC),
        spec_dataset()[140].alpha2@ == spec_alpha2(Country::MN),
        spec_dataset()[140].alpha3@ == spec_alpha3(Country::MN),
        spec_dataset()[140].name@ == spec_name(Country::MN),
        spec_dataset()[141].alpha2@ == spec_alpha2(Country::MD),
        spec_dataset()[141].alpha3@ == spec_alpha3(Country::MD),
        spec_dataset()[141].name@ == spec_name(Country::MD),
        spec_dataset()[142].alpha2@ == spec_alpha2(Country::ME),
        spec_dataset()[142].alpha3@ == spec_alpha3(Country::ME),
        spec_dataset()[142].name@ == spec_name(Country::ME),
        spec_dataset()[143].alpha2@ == spec_alpha2(Country::MS),
        spec_dataset()[143].alpha3@ == spec_alpha3(Country::MS),
        spec_dataset()[143].name@ == spec_name(Country::MS),
        spec_dataset()[144].alpha2@ == spec_alpha2(Country::MA),
        spec_dataset()[144].alpha3@ == spec_alpha3(Country::MA),
        spec_dataset()[144].name@ == spec_name(Country::MA),
        spec_dataset()[145].alpha2@ == spec_alpha2(Country::MZ),
        spec_dataset()[145].alpha3@ == spec_alpha3(Country::MZ),
        spec_dataset()[145].name@ == spec_name(Country::MZ),
        spec_dataset()[146].alpha2@ == spec_alpha2(Country::OM),
        spec_dataset()[146].alpha3@ == spec_alpha3(Country::OM),
        spec_dataset()[146].name@ == spec_name(Country::OM),
        spec_dataset()[147].alpha2@ == spec_alpha2(Country::NA),
        spec_dataset()[147].alpha3@ == spec_alpha3(Country::NA),
        spec_dataset()[147].name@ == spec_name(Country::NA),
        spec_dataset()[148].alpha2@ == spec_alpha2(Country::NR),
        spec_dataset()[148].alpha3@ == spec_alpha3(Country::NR),
        spec_dataset()[148].name@ == spec_name(Country::NR),
        spec_dataset()[149].alpha2@ == spec_alpha2(Country::NP),
        spec_dataset()[149].alpha3@ == spec_alpha3(Country::NP),
        spec_dataset()[149].name@ == spec_name(Country::NP),
{
}

proof fn lemma_dataset_row_part6()
    ensures
        spec_dataset()[150].alpha2@ == spec_alpha2(Country::NL),
        spec_dataset()[150].alpha3@ == spec_alpha3(Country::NL),
        spec_dataset()[150].name@ == spec_name(Country::NL),
        spec_dataset()[151].alpha2@ == spec_alpha2(Country::CW),
        spec_dataset()[151].alpha3@ == spec_alpha3(Country::CW),
        spec_dataset()[151].name@ == spec_name(Country::CW),
        spec_dataset()[152].alpha2@ == spec_alpha2(Country::AW),
        spec_dataset()[152].alpha3@ == spec_alpha3(Country::AW),
        spec_dataset()[152].name@ == spec_name(Country::AW),
        spec_dataset()[153].alpha2@ == spec_alpha2(Country::SX),
        spec_dataset()[153].alpha3@ == spec_alpha3(Country::SX),
        spec_dataset()[153].name@ == spec_name(Country::SX),
        spec_dataset()[154].alpha2@ == spec_alpha2(Country::BQ),
        spec_dataset()[154].alpha3@ == spec_alpha3(Country::BQ),
        spec_dataset()[154].name@ == spec_name(Country::BQ),
        spec_dataset()[155].alpha2@ == spec_alpha2(Country::NC),
        spec_dataset()[155].alpha3@ == spec_alpha3(Country::NC),
        spec_dataset()[155].name@ == spec_name(Country::NC),
        spec_dataset()[156].alpha2@ == spec_alpha2(Country::VU),
        spec_dataset()[156].alpha3@ == spec_alpha3(Country::VU),
        spec_dataset()[156].name@ == spec_name(Country::VU),
        spec_dataset()[157].alpha2@ == spec_alpha2(Country::NZ),
        spec_dataset()[157].alpha3@ == spec_alpha3(Country::NZ),
        spec_dataset()[157].name@ == spec_name(Country::NZ),
        spec_dataset()[158].alpha2@ == spec_alpha2(Country::NI),
        spec_dataset()[158].alpha3@ == spec_alpha3(Country::NI),
        spec_dataset()[158].name@ == spec_name(Country::NI),
        spec_dataset()[159].alpha2@ == spec_alpha2(Country::NE),
        spec_dataset()[159].alpha3@ == spec_alpha3(Country::NE),
        spec_dataset()[159].name@ == spec_name(Country::NE),
        spec_dataset()[160].alpha2@ == spec_alpha2(Country::NG),
        spec_dataset()[160].alpha3@ == spec_alpha3(Country::NG),
        spec_dataset()[160].name@ == spec_name(Country::NG),
        spec_dataset()[161].alpha2@ == spec_alpha2(Country::NU),
        spec_dataset()[161].alpha3@ == spec_alpha3(Country::NU),
        spec_dataset()[161].name@ == spec_name(Country::NU),
        spec_dataset()[162].alpha2@ == spec_alpha2(Country::NF),
        spec_dataset()[162].alpha3@ == spec_alpha3(Country::NF),
        spec_dataset()[162].name@ == spec_name(Country::NF),
        spec_dataset()[163].alpha2@ == spec_alpha2(Country::NO),
        spec_dataset()[163].alpha3@ == spec_alpha3(Country::NO),
        spec_dataset()[163].name@ == spec_name(Country::NO),
        spec_dataset()[164].alpha2@ == spec_alpha2(Country::MP),
        spec_dataset()[164].alpha3@ == spec_alpha3(Country::MP),
        spec_dataset()[164].name@ == spec_name(Country::MP),
        spec_dataset()[165].alpha2@ == spec_alpha2(Country::UM),
        spec_dataset()[165].alpha3@ == spec_alpha3(Country::UM),
        spec_dataset()[165].name@ == spec_name(Country::UM),
        spec_dataset()[166].alpha2@ == spec_alpha2(Country::FM),
        spec_dataset()[166].alpha3@ == spec_alpha3(Country::FM),
        spec_dataset()[166].name@ == spec_name(Country::FM),
        spec_dataset()[167].alpha2@ == spec_alpha2(Country::MH),
        spec_dataset()[167].alpha3@ == spec_alpha3(Country::MH),
        spec_dataset()[167].name@ == spec_name(Country::MH),
        spec_dataset()[168].alpha2@ == spec_alpha2(Country::PW),
        spec_dataset()[168].alpha3@ == spec_alpha3(Country::PW),
        spec_dataset()[168].name@ == spec_name(Country::PW),
        spec_dataset()[169].alpha2@ == spec_alpha2(Country::PK),
        spec_dataset()[169].alpha3@ == spec_alpha3(Country::PK),
        spec_dataset()[169].name@ == spec_name(Country::PK),
        spec_dataset()[170].alpha2@ == spec_alpha2(Country::PA),
        spec_dataset()[170].alpha3@ == spec_alpha3(Country::PA),
        spec_dataset()[170].name@ == spec_name(Country::PA),
        spec_dataset()[171].alpha2@ == spec_alpha2(Country::PG),
        spec_dataset()[171].alpha3@ == spec_alpha3(Country::PG),
        spec_dataset()[171].name@ == spec_name(Country::PG),
        spec_dataset()[172].alpha2@ == spec_alpha2(Country::PY),
        spec_dataset()[172].alpha3@ == spec_alpha3(Country::PY),
        spec_dataset()[172].name@ == spec_name(Country::PY),
        spec_dataset()[173].alpha2@ == spec_alpha2(Country::PE),
        spec_dataset()[173].alpha3@ == spec_alpha3(Country::PE),
        spec_dataset()[173].name@ == spec_name(Country::PE),
        spec_dataset()[174].alpha2@ == spec_alpha2(Country::PH),
        spec_dataset()[174].alpha3@ == spec_alpha3(Country::PH),
        spec_dataset()[174].name@ == spec_name(Country::PH),
{
}

proof fn lemma_dataset_row_part7()
    ensures
        spec_dataset()[175].alpha2@ == spec_alpha2(Country::PN),
        spec_dataset()[175].alpha3@ == spec_alpha3(Country::PN),
        spec_dataset()[175].name@ == spec_name(Country::PN),
        spec_dataset()[176].alpha2@ == spec_alpha2(Country::PL),
        spec_dataset()[176].alpha3@ == spec_alpha3(Country::PL),
        spec_dataset()[176].name@ == spec_name(Country::PL),
        spec_dataset()[177].alpha2@ == spec_alpha2(Country::PT),
        spec_dataset()[177].alpha3@ == spec_alpha3(Country::PT),
        spec_dataset()[177].name@ == spec_name(Country::PT),
        spec_dataset()[178].alpha2@ == spec_alpha2(Country::GW),
        spec_dataset()[178].alpha3@ == spec_alpha3(Country::GW),
        spec_dataset()[178].name@ == spec_name(Country::GW),
        spec_dataset()[179].alpha2@ == spec_alpha2(Country::TL),
        spec_dataset()[179].alpha3@ == spec_alpha3(Country::TL),
        spec_dataset()[179].name@ == spec_name(Country::TL),
        spec_dataset()[180].alpha2@ == spec_alpha2(Country::PR),
        spec_dataset()[180].alpha3@ == spec_alpha3(Country::PR),
        spec_dataset()[180].name@ == spec_name(Country::PR),
        spec_dataset()[181].alpha2@ == spec_alpha2(Country::QA),
        spec_dataset()[181].alpha3@ == spec_alpha3(Country::QA),
        spec_dataset()[181].name@ == spec_name(Country::QA),
        spec_dataset()[182].alpha2@ == spec_alpha2(Country::RE),
        spec_dataset()[182].alpha3@ == spec_alpha3(Country::RE),
        spec_dataset()[182].name@ == spec_name(Country::RE),
        spec_dataset()[183].alpha2@ == spec_alpha2(Country::RO),
        spec_dataset()[183].alpha3@ == spec_alpha3(Country::RO),
        spec_dataset()[183].name@ == spec_name(Country::RO),
        spec_dataset()[184].alpha2@ == spec_alpha2(Country::RU),
        spec_dataset()[184].alpha3@ == spec_alpha3(Country::RU),
        spec_dataset()[184].name@ == spec_name(Country::RU),
        spec_dataset()[185].alpha2@ == spec_alpha2(Country::RW),
        spec_dataset()[185].alpha3@ == spec_alpha3(Country::RW),
        spec_dataset()[185].name@ == spec_name(Country::RW),
        spec_dataset()[186].alpha2@ == spec_alpha2(Country::BL),
        spec_dataset()[186].alpha3@ == spec_alpha3(Country::BL),
        spec_dataset()[186].name@ == spec_name(Country::BL),
        spec_dataset()[187].alpha2@ == spec_alpha2(Country::SH),
        spec_dataset()[187].alpha3@ == spec_alpha3(Country::SH),
        spec_dataset()[187].name@ == spec_name(Country::SH),
        spec_dataset()[188].alpha2@ == spec_alpha2(Country::KN),
        spec_dataset()[188].alpha3@ == spec_alpha3(Country::KN),
        spec_dataset()[188].name@ == spec_name(Country::KN),
        spec_dataset()[189].alpha2@ == spec_alpha2(Country::AI),
        spec_dataset()[189].alpha3@ == spec_alpha3(Country::AI),
        spec_dataset()[189].name@ == spec_name(Country::AI),
        spec_dataset()[190].alpha2@ == spec_alpha2(Country::LC),
        spec_dataset()[190].alpha3@ == spec_alpha3(Country::LC),
        spec_dataset()[190].name@ == spec_name(Country::LC),
        spec_dataset()[191].alpha2@ == spec_alpha2(Country::MF),
        spec_dataset()[191].alpha3@ == spec_alpha3(Country::MF),
        spec_dataset()[191].name@ == spec_name(Country::MF),
        spec_dataset()[192].alpha2@ == spec_alpha2(Country::PM),
        spec_dataset()[192].alpha3@ == spec_alpha3(Country::PM),
        spec_dataset()[192].name@ == spec_name(Country::PM),
        spec_dataset()[193].alpha2@ == spec_alpha2(Country::VC),
        spec_dataset()[193].alpha3@ == spec_alpha3(Country::VC),
        spec_dataset()[193].name@ == spec_name(Country::VC),
        spec_dataset()[194].alpha2@ == spec_alpha2(Country::SM),
        spec_dataset()[194].alpha3@ == spec_alpha3(Country::SM),
        spec_dataset()[194].name@ == spec_name(Country::SM),
        spec_dataset()[195].alpha2@ == spec_alpha2(Country::ST),
        spec_dataset()[195].alpha3@ == spec_alpha3(Country::ST),
        spec_dataset()[195].name@ == spec_name(Country::ST),
        spec_dataset()[196].alpha2@ == spec_alpha2(Country::SA),
        spec_dataset()[196].alpha3@ == spec_alpha3(Country::SA),
        spec_dataset()[196].name@ == spec_name(Country::SA),
        spec_dataset()[197].alpha2@ == spec_alpha2(Country::SN),
        spec_dataset()[197].alpha3@ == spec_alpha3(Country::SN),
        spec_dataset()[197].name@ == spec_name(Country::SN),
        spec_dataset()[198].alpha2@ == spec_alpha2(Country::RS),
        spec_dataset()[198].alpha3@ == spec_alpha3(Country::RS),
        spec_dataset()[198].name@ == spec_name(Country::RS),
        spec_dataset()[199].alpha2@ == spec_alpha2(Country::SC),
        spec_dataset()[199].alpha3@ == spec_alpha3(Country::SC),
        spec_dataset()[199].name@ == spec_name(Country::SC),
{
}

proof fn lemma_dataset_row_part8()
    ensures
        spec_dataset()[200].alpha2@ == spec_alpha2(Country::SL),
        spec_dataset()[200].alpha3@ == spec_alpha3(Country::SL),
        spec_dataset()[200].name@ == spec_name(Country::SL),
        spec_dataset()[201].alpha2@ == spec_alpha2(Country::SG),
        spec_dataset()[201].alpha3@ == spec_alpha3(Country::SG),
        spec_dataset()[201].name@ == spec_name(Country::SG),
        spec_dataset()[202].alpha2@ == spec_alpha2(Country::SK),
        spec_dataset()[202].alpha3@ == spec_alpha3(Country::SK),
        spec_dataset()[202].name@ == spec_name(Country::SK),
        spec_dataset()[203].alpha2@ == spec_alpha2(Country::VN),
        spec_dataset()[203].alpha3@ == spec_alpha3(Country::VN),
        spec_dataset()[203].name@ == spec_name(Country::VN),
        spec_dataset()[204].alpha2@ == spec_alpha2(Country::SI),
        spec_dataset()[204].alpha3@ == spec_alpha3(Country::SI),
        spec_dataset()[204].name@ == spec_name(Country::SI),
        spec_dataset()[205].alpha2@ == spec_alpha2(Country::SO),
        spec_dataset()[205].alpha3@ == spec_alpha3(Country::SO),
        spec_dataset()[205].name@ == spec_name(Country::SO),
        spec_dataset()[206].alpha2@ == spec_alpha2(Country::ZA),
        spec_dataset()[206].alpha3@ == spec_alpha3(Country::ZA),
        spec_dataset()[206].name@ == spec_name(Country::ZA),
        spec_dataset()[207].alpha2@ == spec_alpha2(Country::ZW),
        spec_dataset()[207].alpha3@ == spec_alpha3(Country::ZW),
        spec_dataset()[207].name@ == spec_name(Country::ZW),
        spec_dataset()[208].alpha2@ == spec_alpha2(Country::ES),
        spec_dataset()[208].alpha3@ == spec_alpha3(Country::ES),
        spec_dataset()[208].name@ == spec_name(Country::ES),
        spec_dataset()[209].alpha2@ == spec_alpha2(Country::SS),
        spec_dataset()[209].alpha3@ == spec_alpha3(Country::SS),
        spec_dataset()[209].name@ == spec_name(Country::SS),
        spec_dataset()[210].alpha2@ == spec_alpha2(Country::SD),
        spec_dataset()[210].alpha3@ == spec_alpha3(Country::SD),
        spec_dataset()[210].name@ == spec_name(Country::SD),
        spec_dataset()[211].alpha2@ == spec_alpha2(Country::EH),
        spec_dataset()[211].alpha3@ == spec_alpha3(Country::EH),
        spec_dataset()[211].name@ == spec_name(Country::EH),
        spec_dataset()[212].alpha2@ == spec_alpha2(Country::SR),
        spec_dataset()[212].alpha3@ == spec_alpha3(Country::SR),
        spec_dataset()[212].name@ == spec_name(Country::SR),
        spec_dataset()[213].alpha2@ == spec_alpha2(Country::SJ),
        spec_dataset()[213].alpha3@ == spec_alpha3(Country::SJ),
        spec_dataset()[213].name@ == spec_name(Country::SJ),
        spec_dataset()[214].alpha2@ == spec_alpha2(Country::SZ),
        spec_dataset()[214].alpha3@ == spec_alpha3(Country::SZ),
        spec_dataset()[214].name@ == spec_name(Country::SZ),
        spec_dataset()[215].alpha2@ == spec_alpha2(Country::SE),
        spec_dataset()[215].alpha3@ == spec_alpha3(Country::SE),
        spec_dataset()[215].name@ == spec_name(Country::SE),
        spec_dataset()[216].alpha2@ == spec_alpha2(Country::CH),
        spec_dataset()[216].alpha3@ == spec_alpha3(Country::CH),
        spec_dataset()[216].name@ == spec_name(Country::CH),
        spec_dataset()[217].alpha2@ == spec_alpha2(Country::SY),
        spec_dataset()[217].alpha3@ == spec_alpha3(Country::SY),
        spec_dataset()[217].name@ == spec_name(Country::SY),
        spec_dataset()[218].alpha2@ == spec_alpha2(Country::TJ),
        spec_dataset()[218].alpha3@ == spec_alpha3(Country::TJ),
        spec_dataset()[218].name@ == spec_name(Country::TJ),
        spec_dataset()[219].alpha2@ == spec_alpha2(Country::TH),
        spec_dataset()[219].alpha3@ == spec_alpha3(Country::TH),
        spec_dataset()[219].name@ == spec_name(Country::TH),
        spec_dataset()[220].alpha2@ == spec_alpha2(Country::TG),
        spec_dataset()[220].alpha3@ == spec_alpha3(Country::TG),
        spec_dataset()[220].name@ == spec_name(Country::TG),
        spec_dataset()[221].alpha2@ == spec_alpha2(Country::TK),
        spec_dataset()[221].alpha3@ == spec_alpha3(Country::TK),
        spec_dataset()[221].name@ == spec_name(Country::TK),
        spec_dataset()[222].alpha2@ == spec_alpha2(Country::TO),
        spec_dataset()[222].alpha3@ == spec_alpha3(Country::TO),
        spec_dataset()[222].name@ == spec_name(Country::TO),
        spec_dataset()[223].alpha2@ == spec_alpha2(Country::TT),
        spec_dataset()[223].alpha3@ == spec_alpha3(Country::TT),
        spec_dataset()[223].name@ == spec_name(Country::TT),
        spec_dataset()[224].alpha2@ == spec_alpha2(Country::AE),
        spec_dataset()[224].alpha3@ == spec_alpha3(Country::AE),
        spec_dataset()[224].name@ == spec_name(Country::AE),
{
}

proof fn lemma_dataset_row_part9()
    ensures
        spec_dataset()[225].alpha2@ == spec_alpha2(Country::TN),
        spec_dataset()[225].alpha3@ == spec_alpha3(Country::TN),
        spec_dataset()[225].name@ == spec_name(Country::TN),
        spec_dataset()[226].alpha2@ == spec_alpha2(Country::TR),
        spec_dataset()[226].alpha3@ == spec_alpha3(Country::TR),
        spec_dataset()[226].name@ == spec_name(Country::TR),
        spec_dataset()[227].alpha2@ == spec_alpha2(Country::TM),
        spec_dataset()[227].alpha3@ == spec_alpha3(Country::TM),
        spec_dataset()[227].name@ == spec_name(Country::TM),
        spec_dataset()[228].alpha2@ == spec_alpha2(Country::TC),
        spec_dataset()[228].alpha3@ == spec_alpha3(Country::TC),
        spec_dataset()[228].name@ == spec_name(Country::TC),
        spec_dataset()[229].alpha2@ == spec_alpha2(Country::TV),
        spec_dataset()[229].alpha3@ == spec_alpha3(Country::TV),
        spec_dataset()[229].name@ == spec_name(Country::TV),
        spec_dataset()[230].alpha2@ == spec_alpha2(Country::UG),
        spec_dataset()[230].alpha3@ == spec_alpha3(Country::UG),
        spec_dataset()[230].name@ == spec_name(Country::UG),
        spec_dataset()[231].alpha2@ == spec_alpha2(Country::UA),
        spec_dataset()[231].alpha3@ == spec_alpha3(Country::UA),
        spec_dataset()[231].name@ == spec_name(Country::UA),
        spec_dataset()[232].alpha2@ == spec_alpha2(Country::MK),
        spec_dataset()[232].alpha3@ == spec_alpha3(Country::MK),
        spec_dataset()[232].name@ == spec_name(Country::MK),
        spec_dataset()[233].alpha2@ == spec_alpha2(Country::EG),
        spec_dataset()[233].alpha3@ == spec_alpha3(Country::EG),
        spec_dataset()[233].name@ == spec_name(Country::EG),
        spec_dataset()[234].alpha2@ == spec_alpha2(Country::GB),
        spec_dataset()[234].alpha3@ == spec_alpha3(Country::GB),
        spec_dataset()[234].name@ == spec_name(Country::GB),
        spec_dataset()[235].alpha2@ == spec_alpha2(Country::GG),
        spec_dataset()[235].alpha3@ == spec_alpha3(Country::GG),
        spec_dataset()[235].name@ == spec_name(Country::GG),
        spec_dataset()[236].alpha2@ == spec_alpha2(Country::JE),
        spec_dataset()[236].alpha3@ == spec_alpha3(Country::JE),
        spec_dataset()[236].name@ == spec_name(Country::JE),
        spec_dataset()[237].alpha2@ == spec_alpha2(Country::IM),
        spec_dataset()[237].alpha3@ == spec_alpha3(Country::IM),
        spec_dataset()[237].name@ == spec_name(Country::IM),
        spec_dataset()[238].alpha2@ == spec_alpha2(Country::TZ),
        spec_dataset()[238].alpha3@ == spec_alpha3(Country::TZ),
        spec_dataset()[238].name@ == spec_name(Country::TZ),
        spec_dataset()[239].alpha2@ == spec_alpha2(Country::US),
        spec_dataset()[239].alpha3@ == spec_alpha3(Country::US),
        spec_dataset()[239].name@ == spec_name(Country::US),
        spec_dataset()[240].alpha2@ == spec_alpha2(Country::VI),
        spec_dataset()[240].alpha3@ == spec_alpha3(Country::VI),
        spec_dataset()[240].name@ == spec_name(Country::VI),
        spec_dataset()[241].alpha2@ == spec_alpha2(Country::BF),
        spec_dataset()[241].alpha3@ == spec_alpha3(Country::BF),
        spec_dataset()[241].name@ == spec_name(Country::BF),
        spec_dataset()[242].alpha2@ == spec_alpha2(Country::UY),
        spec_dataset()[242].alpha3@ == spec_alpha3(Country::UY),
        spec_dataset()[242].name@ == spec_name(Country::UY),
        spec_dataset()[243].alpha2@ == spec_alpha2(Country::UZ),
        spec_dataset()[243].alpha3@ == spec_alpha3(Country::UZ),
        spec_dataset()[243].name@ == spec_name(Country::UZ),
        spec_dataset()[244].alpha2@ == spec_alpha2(Country::VE),
        spec_dataset()[244].alpha3@ == spec_alpha3(Country::VE),
        spec_dataset()[244].name@ == spec_name(Country::VE),
        spec_dataset()[245].alpha2@ == spec_alpha2(Country::WF),
        spec_dataset()[245].alpha3@ == spec_alpha3(Country::WF),
        spec_dataset()[245].name@ == spec_name(Country::WF),
        spec_dataset()[246].alpha2@ == spec_alpha2(Country::WS),
        spec_dataset()[246].alpha3@ == spec_alpha3(Country::WS),
        spec_dataset()[246].name@ == spec_name(Country::WS),
        spec_dataset()[247].alpha2@ == spec_alpha2(Country::YE),
        spec_dataset()[247].alpha3@ == spec_alpha3(Country::YE),
        spec_dataset()[247].name@ == spec_name(Country::YE),
        spec_dataset()[248].alpha2@ == spec_alpha2(Country::ZM),
        spec_dataset()[248].alpha3@ == spec_alpha3(Country::ZM),
        spec_dataset()[248].name@ == spec_name(Country::ZM),
{
}

/// The dataset and the country tables agree: each row carries exactly
/// the alpha-2 code, alpha-3 code and name of its country.
#[verifier::rlimit(100)]
pub proof fn lemma_dataset_matches_country(c: Country)
    ensures
        spec_dataset().len() == 249,
        c != Country::Unspecified ==> {
            &&& 0 <= spec_row_index(c) < 249
            &&& spec_dataset()[spec_row_index(c)].alpha2@ == spec_alpha2(c)
            &&& spec_dataset()[spec_row_index(c)].alpha3@ == spec_alpha3(c)
            &&& spec_dataset()[spec_row_index(c)].name@ == spec_name(c)
        },
{
    lemma_dataset_row_part0();
    lemma_dataset_row_part1();
    lemma_dataset_row_part2();
    lemma_dataset_row_part3();
    lemma_dataset_row_part4();
    lemma_dataset_row_part5();
    lemma_dataset_row_part6();
    lemma_dataset_row_part7();
    lemma_dataset_row_part8();
    lemma_dataset_row_part9();
}

} // verus!
