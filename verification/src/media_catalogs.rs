//! Values the movie databases describe: TMDB cast credits and Trakt shows.

use vstd::prelude::*;

verus! {

/// A member of a cast, as TMDB lists it.
#[derive(Debug, Clone)]
pub struct CastMember {
    pub id: u32,
    pub name: String,
    pub character: String,
    pub profile_path: Option<String>,
}

/// The cast of a movie or show, as TMDB lists it.
#[derive(Debug, Clone)]
pub struct CreditsResponse {
    pub cast: Vec<CastMember>,
}


/// A TV show, as Trakt lists it.
#[derive(Debug, Clone)]
pub struct Show {
    pub title: String,
    pub year: u32,
    pub ids: Ids,
}

/// The identifiers of a show in the catalogs Trakt knows.
#[derive(Debug, Clone)]
pub struct Ids {
    pub trakt: u32,
    pub slug: String,
    pub imdb: Option<String>,
    pub tmdb: Option<u32>,
}


} // verus!
