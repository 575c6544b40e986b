//! The regions a player can pick, and what each one stands for.

use riven::consts::RegionalRoute;
use crate::text::same_text;
use vstd::prelude::*;

verus! {

/// riven's regional routes. The enum has no fields, so Verus takes its
/// variants from riven's own definition.
#[verifier::external_type_specification]
pub struct ExRegionalRoute(RegionalRoute);

/// The regions offered to the user.
#[derive(Debug, Clone, Copy, PartialEq, Eq, Structural)]
pub enum UserFacingRegion {
    BR,
    EUNE,
    EUW,
    JP,
    KR,
    LAN,
    LAS,
    ME,
    NA,
    OCE,
    RU,
    SEA,
    TR,
    TW,
    VN,
}

/// The regional route that serves a region's accounts and matches.
pub open spec fn route_of(r: UserFacingRegion) -> RegionalRoute {
    match r {
        UserFacingRegion::BR => RegionalRoute::AMERICAS,
        UserFacingRegion::EUNE => RegionalRoute::EUROPE,
        UserFacingRegion::EUW => RegionalRoute::EUROPE,
        UserFacingRegion::JP => RegionalRoute::ASIA,
        UserFacingRegion::KR => RegionalRoute::ASIA,
        UserFacingRegion::LAN => RegionalRoute::AMERICAS,
        UserFacingRegion::LAS => RegionalRoute::AMERICAS,
        UserFacingRegion::ME => RegionalRoute::EUROPE,
        UserFacingRegion::NA => RegionalRoute::AMERICAS,
        UserFacingRegion::OCE => RegionalRoute::AMERICAS,
        UserFacingRegion::RU => RegionalRoute::EUROPE,
        UserFacingRegion::SEA => RegionalRoute::ASIA,
        UserFacingRegion::TR => RegionalRoute::EUROPE,
        UserFacingRegion::TW => RegionalRoute::ASIA,
        UserFacingRegion::VN => RegionalRoute::ASIA,
    }
}

impl UserFacingRegion {
    /// The regional route that serves this region.
    pub fn to_regional_route(&self) -> (r: RegionalRoute)
        ensures
            r == route_of(*self),
    {
        match self {
            UserFacingRegion::BR => RegionalRoute::AMERICAS,
            UserFacingRegion::EUNE => RegionalRoute::EUROPE,
            UserFacingRegion::EUW => RegionalRoute::EUROPE,
            UserFacingRegion::JP => RegionalRoute::ASIA,
            UserFacingRegion::KR => RegionalRoute::ASIA,
            UserFacingRegion::LAN => RegionalRoute::AMERICAS,
            UserFacingRegion::LAS => RegionalRoute::AMERICAS,
            UserFacingRegion::ME => RegionalRoute::EUROPE,
            UserFacingRegion::NA => RegionalRoute::AMERICAS,
            UserFacingRegion::OCE => RegionalRoute::AMERICAS,
            UserFacingRegion::RU => RegionalRoute::EUROPE,
            UserFacingRegion::SEA => RegionalRoute::ASIA,
            UserFacingRegion::TR => RegionalRoute::EUROPE,
            UserFacingRegion::TW => RegionalRoute::ASIA,
            UserFacingRegion::VN => RegionalRoute::ASIA,
        }
    }
}

/// The name of a regional route, as it is shown in reports.
#[allow(deprecated)]
pub open spec fn route_name(route: RegionalRoute) -> Seq<char> {
    match route {
        RegionalRoute::AMERICAS => "AMERICAS"@,
        RegionalRoute::ASIA => "ASIA"@,
        RegionalRoute::EUROPE => "EUROPE"@,
        RegionalRoute::SEA => "SEA"@,
        RegionalRoute::APAC => "APAC"@,
        RegionalRoute::ESPORTS => "ESPORTS"@,
        RegionalRoute::ESPORTSEU => "ESPORTSEU"@,
        _ => Seq::empty(),
    }
}

/// The name of a regional route, as it is shown in reports.
#[allow(deprecated)]
pub fn route_label(route: RegionalRoute) -> (r: String)
    ensures
        r@ == route_name(route),
{
    let name = match route {
        RegionalRoute::AMERICAS => "AMERICAS",
        RegionalRoute::ASIA => "ASIA",
        RegionalRoute::EUROPE => "EUROPE",
        RegionalRoute::SEA => "SEA",
        RegionalRoute::APAC => "APAC",
        RegionalRoute::ESPORTS => "ESPORTS",
        RegionalRoute::ESPORTSEU => "ESPORTSEU",
        _ => "",
    };
    String::from_str(name)
}

/// The region's code in match links, in lower case.
pub open spec fn log_code(r: UserFacingRegion) -> Seq<char> {
    match r {
        UserFacingRegion::BR => "br"@,
        UserFacingRegion::EUNE => "eune"@,
        UserFacingRegion::EUW => "euw"@,
        UserFacingRegion::JP => "jp"@,
        UserFacingRegion::KR => "kr"@,
        UserFacingRegion::LAN => "lan"@,
        UserFacingRegion::LAS => "las"@,
        UserFacingRegion::ME => "me"@,
        UserFacingRegion::NA => "na"@,
        UserFacingRegion::OCE => "oce"@,
        UserFacingRegion::RU => "ru"@,
        UserFacingRegion::SEA => "sea"@,
        UserFacingRegion::TR => "tr"@,
        UserFacingRegion::TW => "tw"@,
        UserFacingRegion::VN => "vn"@,
    }
}

/// The region whose upper-case name is `s`, if any.
pub open spec fn region_named(s: Seq<char>) -> Option<UserFacingRegion> {
    if s == "BR"@ {
        Some(UserFacingRegion::BR)
    } else if s == "EUNE"@ {
        Some(UserFacingRegion::EUNE)
    } else if s == "EUW"@ {
        Some(UserFacingRegion::EUW)
    } else if s == "JP"@ {
        Some(UserFacingRegion::JP)
    } else if s == "KR"@ {
        Some(UserFacingRegion::KR)
    } else if s == "LAN"@ {
        Some(UserFacingRegion::LAN)
    } else if s == "LAS"@ {
        Some(UserFacingRegion::LAS)
    } else if s == "ME"@ {
        Some(UserFacingRegion::ME)
    } else if s == "NA"@ {
        Some(UserFacingRegion::NA)
    } else if s == "OCE"@ {
        Some(UserFacingRegion::OCE)
    } else if s == "RU"@ {
        Some(UserFacingRegion::RU)
    } else if s == "SEA"@ {
        Some(UserFacingRegion::SEA)
    } else if s == "TR"@ {
        Some(UserFacingRegion::TR)
    } else if s == "TW"@ {
        Some(UserFacingRegion::TW)
    } else if s == "VN"@ {
        Some(UserFacingRegion::VN)
    } else {
        None
    }
}

/// The message that rejects an unknown region name.
pub open spec fn invalid_region_message(s: Seq<char>) -> Seq<char> {
    "Invalid region: "@ + s + SUPPORTED_REGIONS@
}

/// The tail of the message that rejects an unknown region name.
pub const SUPPORTED_REGIONS: &'static str =
    ". Supported regions are BR, EUNE, EUW, JP, KR, LAN, LAS, ME, NA, OCE, RU, SEA, TR, TW, VN";

/// What `str::to_uppercase` makes of a string.
pub uninterp spec fn upper_of(s: Seq<char>) -> Seq<char>;

/// Relies on `str::to_uppercase`: the upper-case form of a string, which
/// depends on its characters alone.
#[verifier::external_body]
fn uppercase(s: &str) -> (r: String)
    ensures
        r@ == upper_of(s@),
{
    s.to_uppercase()
}

impl UserFacingRegion {
    /// The region's code in match links.
    pub fn to_log_string(&self) -> (r: &'static str)
        ensures
            r@ == log_code(*self),
    {
        match self {
            UserFacingRegion::BR => "br",
            UserFacingRegion::EUNE => "eune",
            UserFacingRegion::EUW => "euw",
            UserFacingRegion::JP => "jp",
            UserFacingRegion::KR => "kr",
            UserFacingRegion::LAN => "lan",
            UserFacingRegion::LAS => "las",
            UserFacingRegion::ME => "me",
            UserFacingRegion::NA => "na",
            UserFacingRegion::OCE => "oce",
            UserFacingRegion::RU => "ru",
            UserFacingRegion::SEA => "sea",
            UserFacingRegion::TR => "tr",
            UserFacingRegion::TW => "tw",
            UserFacingRegion::VN => "vn",
        }
    }

    /// The region whose name is exactly `name` (upper case expected).
    pub fn from_upper_name(name: &str) -> (r: Option<UserFacingRegion>)
        ensures
            r == region_named(name@),
    {
        if same_text(name, "BR") {
            return Some(UserFacingRegion::BR);
        }
        if same_text(name, "EUNE") {
            return Some(UserFacingRegion::EUNE);
        }
        if same_text(name, "EUW") {
            return Some(UserFacingRegion::EUW);
        }
        if same_text(name, "JP") {
            return Some(UserFacingRegion::JP);
        }
        if same_text(name, "KR") {
            return Some(UserFacingRegion::KR);
        }
        if same_text(name, "LAN") {
            return Some(UserFacingRegion::LAN);
        }
        if same_text(name, "LAS") {
            return Some(UserFacingRegion::LAS);
        }
        if same_text(name, "ME") {
            return Some(UserFacingRegion::ME);
        }
        if same_text(name, "NA") {
            return Some(UserFacingRegion::NA);
        }
        if same_text(name, "OCE") {
            return Some(UserFacingRegion::OCE);
        }
        if same_text(name, "RU") {
            return Some(UserFacingRegion::RU);
        }
        if same_text(name, "SEA") {
            return Some(UserFacingRegion::SEA);
        }
        if same_text(name, "TR") {
            return Some(UserFacingRegion::TR);
        }
        if same_text(name, "TW") {
            return Some(UserFacingRegion::TW);
        }
        if same_text(name, "VN") {
            return Some(UserFacingRegion::VN);
        }
        None
    }

    /// Reads a region from its name, in any letter case.
    pub fn from_name(s: &str) -> (r: Result<UserFacingRegion, String>)
        ensures
            match r {
                Ok(v) => region_named(upper_of(s@)) == Some(v),
                Err(e) => region_named(upper_of(s@)) is None && e@ == invalid_region_message(s@),
            },
    {
        let upper = uppercase(s);
        match UserFacingRegion::from_upper_name(upper.as_str()) {
            Some(v) => Ok(v),
            None => {
                let msg = String::from_str("Invalid region: ").concat(s).concat(SUPPORTED_REGIONS);
                Err(msg)
            },
        }
    }
}

/// The regional route of a query: the selected region's, or Europe's where
/// no region was selected.
pub fn query_route(selected: Option<UserFacingRegion>) -> (r: RegionalRoute)
    ensures
        r == match selected {
            Some(s) => route_of(s),
            None => RegionalRoute::EUROPE,
        },
{
    match selected {
        Some(s) => s.to_regional_route(),
        None => RegionalRoute::EUROPE,
    }
}

impl std::str::FromStr for UserFacingRegion {
    type Err = String;

    fn from_str(s: &str) -> Result<Self, Self::Err> {
        UserFacingRegion::from_name(s)
    }
}

} // verus!
