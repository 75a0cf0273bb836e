//! Plain shapes of the third-party game API's clan metadata, as the
//! rest of the system consumes them. Fetching and decoding are the
//! caller's concern.

use vstd::prelude::*;

verus! {

/// A clan's home location.
#[derive(Debug, Clone, PartialEq, Eq)]
pub struct ClanLocation {
    pub id: Option<i64>,
    pub name: Option<String>,
    pub is_country: Option<bool>,
    pub country_code: Option<String>,
}

/// Badge or icon image addresses in the sizes the API serves.
#[derive(Debug, Clone, PartialEq, Eq)]
pub struct ClanIconUrls {
    pub small: Option<String>,
    pub large: Option<String>,
    pub medium: Option<String>,
    pub tiny: Option<String>,
}

/// A named league or capital league reference.
#[derive(Debug, Clone, PartialEq, Eq)]
pub struct ClanInfo {
    pub id: Option<i64>,
    pub name: Option<String>,
}

pub type ClanMemberLists = Vec<ClanMemberList>;

/// One member of a clan's roster.
#[derive(Debug, Clone, PartialEq, Eq)]
pub struct ClanMemberList {
    pub tag: Option<String>,
    pub name: Option<String>,
    pub role: Option<String>,
    pub town_hall_level: Option<i64>,
    pub exp_level: Option<i64>,
    pub league: Option<ClanInfo>,
    pub trophies: Option<i64>,
    pub builder_base_trophies: Option<i64>,
    pub clan_rank: Option<i64>,
    pub previous_clan_rank: Option<i64>,
    pub donations: Option<i64>,
    pub donations_received: Option<i64>,
    pub player_house: Option<ClanMemberListPlayerHouse>,
    pub builder_base_league: Option<ClanInfo>,
    pub chat_language: Option<ClanChatLanguage>,
}

pub type ClanInfoIcons = Vec<ClanInfoIcon>;

/// A label with its icon addresses.
#[derive(Debug, Clone, PartialEq, Eq)]
pub struct ClanInfoIcon {
    pub id: Option<i64>,
    pub name: Option<String>,
    pub icon_urls: Option<ClanIconUrls>,
}

pub type ClanMemberListPlayerHouseElements = Vec<ClanMemberListPlayerHouseElement>;

/// A member's decorated house.
#[derive(Debug, Clone, PartialEq, Eq)]
pub struct ClanMemberListPlayerHouse {
    pub elements: Option<ClanMemberListPlayerHouseElements>,
}

/// One decoration element of a member's house.
#[derive(Debug, Clone, PartialEq, Eq)]
pub struct ClanMemberListPlayerHouseElement {
    pub kind: Option<String>,
    pub id: Option<i64>,
}

pub type ClanCapitalDistricts = Vec<ClanCapitalDistrict>;

/// A clan's capital and its districts.
#[derive(Debug, Clone, PartialEq, Eq)]
pub struct ClanCapital {
    pub capital_hall_level: Option<i64>,
    pub districts: Option<ClanCapitalDistricts>,
}

/// One district of a clan capital.
#[derive(Debug, Clone, PartialEq, Eq)]
pub struct ClanCapitalDistrict {
    pub id: Option<i64>,
    pub name: Option<String>,
    pub district_hall_level: Option<i64>,
}

/// The chat language a clan declares.
#[derive(Debug, Clone, PartialEq, Eq)]
pub struct ClanChatLanguage {
    pub id: Option<i64>,
    pub name: Option<String>,
    pub language_code: Option<String>,
}

} // verus!
