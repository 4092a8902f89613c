use vstd::prelude::*;
use crate::text::same_text;

verus! {

/// Regions of the world, each with a stable numeric code used in queries and
/// a human-readable name used in returned records.
#[derive(Clone, Copy, Debug, PartialEq, Eq, Hash)]
pub enum Region {
    WesternAfrica,
    MiddleAfrica,
    EasternAfrica,
    SouthernAfrica,
    NorthernAfrica,
    SouthAsia,
    SoutheastAsia,
    MiddleEast,
    Europe,
    CaucasusAndCentralAsia,
    CentralAmerica,
    SouthAmerica,
    Caribbean,
    EastAsia,
    NorthAmerica,
    Oceania,
    Antarctica,
}

impl Region {
    /// The numeric code of the region.
    pub open spec fn spec_code(self) -> nat {
        match self {
            Region::WesternAfrica => 1,
            Region::MiddleAfrica => 2,
            Region::EasternAfrica => 3,
            Region::SouthernAfrica => 4,
            Region::NorthernAfrica => 5,
            Region::SouthAsia => 7,
            Region::SoutheastAsia => 9,
            Region::MiddleEast => 11,
            Region::Europe => 12,
            Region::CaucasusAndCentralAsia => 13,
            Region::CentralAmerica => 14,
            Region::SouthAmerica => 15,
            Region::Caribbean => 16,
            Region::EastAsia => 17,
            Region::NorthAmerica => 18,
            Region::Oceania => 19,
            Region::Antarctica => 20,
        }
    }

    /// The human-readable name of the region.
    pub open spec fn spec_name(self) -> Seq<char> {
        match self {
            Region::WesternAfrica => "Western Africa"@,
            Region::MiddleAfrica => "Middle Africa"@,
            Region::EasternAfrica => "Eastern Africa"@,
            Region::SouthernAfrica => "Southern Africa"@,
            Region::NorthernAfrica => "Northern Africa"@,
            Region::SouthAsia => "South Asia"@,
            Region::SoutheastAsia => "Southeast Asia"@,
            Region::MiddleEast => "Middle East"@,
            Region::Europe => "Europe"@,
            Region::CaucasusAndCentralAsia => "Caucasus and Central Asia"@,
            Region::CentralAmerica => "Central America"@,
            Region::SouthAmerica => "South America"@,
            Region::Caribbean => "Caribbean"@,
            Region::EastAsia => "East Asia"@,
            Region::NorthAmerica => "North America"@,
            Region::Oceania => "Oceania"@,
            Region::Antarctica => "Antarctica"@,
        }
    }

    /// The numeric code of the region.
    pub fn code(&self) -> (r: u64)
        ensures
            r as nat == self.spec_code(),
    {
        match self {
            Region::WesternAfrica => 1,
            Region::MiddleAfrica => 2,
            Region::EasternAfrica => 3,
            Region::SouthernAfrica => 4,
            Region::NorthernAfrica => 5,
            Region::SouthAsia => 7,
            Region::SoutheastAsia => 9,
            Region::MiddleEast => 11,
            Region::Europe => 12,
            Region::CaucasusAndCentralAsia => 13,
            Region::CentralAmerica => 14,
            Region::SouthAmerica => 15,
            Region::Caribbean => 16,
            Region::EastAsia => 17,
            Region::NorthAmerica => 18,
            Region::Oceania => 19,
            Region::Antarctica => 20,
        }
    }

    /// The human-readable name of the region.
    pub fn name(&self) -> (r: &'static str)
        ensures
            r@ == self.spec_name(),
    {
        match self {
            Region::WesternAfrica => "Western Africa",
            Region::MiddleAfrica => "Middle Africa",
            Region::EasternAfrica => "Eastern Africa",
            Region::SouthernAfrica => "Southern Africa",
            Region::NorthernAfrica => "Northern Africa",
            Region::SouthAsia => "South Asia",
            Region::SoutheastAsia => "Southeast Asia",
            Region::MiddleEast => "Middle East",
            Region::Europe => "Europe",
            Region::CaucasusAndCentralAsia => "Caucasus and Central Asia",
            Region::CentralAmerica => "Central America",
            Region::SouthAmerica => "South America",
            Region::Caribbean => "Caribbean",
            Region::EastAsia => "East Asia",
            Region::NorthAmerica => "North America",
            Region::Oceania => "Oceania",
            Region::Antarctica => "Antarctica",
        }
    }

    /// The region whose name is exactly `s`, if any.
    pub open spec fn spec_from_name(s: Seq<char>) -> Option<Region> {
        if s == "Western Africa"@ {
            Some(Region::WesternAfrica)
        } else if s == "Middle Africa"@ {
            Some(Region::MiddleAfrica)
        } else if s == "Eastern Africa"@ {
            Some(Region::EasternAfrica)
        } else if s == "Southern Africa"@ {
            Some(Region::SouthernAfrica)
        } else if s == "Northern Africa"@ {
            Some(Region::NorthernAfrica)
        } else if s == "South Asia"@ {
            Some(Region::SouthAsia)
        } else if s == "Southeast Asia"@ {
            Some(Region::SoutheastAsia)
        } else if s == "Middle East"@ {
            Some(Region::MiddleEast)
        } else if s == "Europe"@ {
            Some(Region::Europe)
        } else if s == "Caucasus and Central Asia"@ {
            Some(Region::CaucasusAndCentralAsia)
        } else if s == "Central America"@ {
            Some(Region::CentralAmerica)
        } else if s == "South America"@ {
            Some(Region::SouthAmerica)
        } else if s == "Caribbean"@ {
            Some(Region::Caribbean)
        } else if s == "East Asia"@ {
            Some(Region::EastAsia)
        } else if s == "North America"@ {
            Some(Region::NorthAmerica)
        } else if s == "Oceania"@ {
            Some(Region::Oceania)
        } else if s == "Antarctica"@ {
            Some(Region::Antarctica)
        } else {
            None
        }
    }

    /// The region whose name is exactly `s`, if any.
    pub fn from_name(s: &str) -> (r: Option<Region>)
        ensures
            r == Region::spec_from_name(s@),
    {
        if same_text(s, "Western Africa") {
            Some(Region::WesternAfrica)
        } else if same_text(s, "Middle Africa") {
            Some(Region::MiddleAfrica)
        } else if same_text(s, "Eastern Africa") {
            Some(Region::EasternAfrica)
        } else if same_text(s, "Southern Africa") {
            Some(Region::SouthernAfrica)
        } else if same_text(s, "Northern Africa") {
            Some(Region::NorthernAfrica)
        } else if same_text(s, "South Asia") {
            Some(Region::SouthAsia)
        } else if same_text(s, "Southeast Asia") {
            Some(Region::SoutheastAsia)
        } else if same_text(s, "Middle East") {
            Some(Region::MiddleEast)
        } else if same_text(s, "Europe") {
            Some(Region::Europe)
        } else if same_text(s, "Caucasus and Central Asia") {
            Some(Region::CaucasusAndCentralAsia)
        } else if same_text(s, "Central America") {
            Some(Region::CentralAmerica)
        } else if same_text(s, "South America") {
            Some(Region::SouthAmerica)
        } else if same_text(s, "Caribbean") {
            Some(Region::Caribbean)
        } else if same_text(s, "East Asia") {
            Some(Region::EastAsia)
        } else if same_text(s, "North America") {
            Some(Region::NorthAmerica)
        } else if same_text(s, "Oceania") {
            Some(Region::Oceania)
        } else if same_text(s, "Antarctica") {
            Some(Region::Antarctica)
        } else {
            None
        }
    }
}

} // verus!
