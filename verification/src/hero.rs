//! The hero-list response of the remote match API.

use vstd::prelude::*;

verus! {

/// One hero entry of the hero-list response.
#[derive(Clone, Debug, PartialEq)]
pub struct Hero {
    pub name: String,
    pub id: i32,
    pub localized_name: String,
}

/// The payload of the hero-list response.
#[derive(Clone, Debug, PartialEq)]
pub struct GetHeroesResult {
    pub heroes: Vec<Hero>,
    pub status: i32,
    pub count: i32,
}

/// The hero-list response of the remote match API.
#[derive(Clone, Debug, PartialEq)]
pub struct GetHeroesResponse {
    pub result: GetHeroesResult,
}

} // verus!
