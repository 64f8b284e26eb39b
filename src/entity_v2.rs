//! Records of the modern API that nest in its beatmaps and scores.

use vstd::prelude::*;

verus! {

/// A beatmap set, as the modern API nests it in a beatmap.
#[derive(Clone, Debug)]
pub struct Beatmapset {
    pub artist: String,
    pub artist_unicode: String,
    pub covers: Covers,
    pub creator: String,
    pub favourite_count: i32,
    pub id: i64,
    pub nsfw: bool,
    pub offset: i32,
    pub play_count: i32,
    pub preview_url: String,
    pub source: String,
    pub spotlight: bool,
    pub status: String,
    pub title: String,
    pub title_unicode: String,
    pub user_id: i64,
    pub video: bool,
    pub availability: Availability,
    pub bpm: i64,
    pub can_be_hyped: bool,
    pub discussion_enabled: bool,
    pub discussion_locked: bool,
    pub is_scoreable: bool,
    pub last_updated: String,
    pub legacy_thread_url: String,
    pub nominations_summary: NominationsSummary,
    pub ranked: i32,
    pub ranked_date: String,
    pub storyboard: bool,
    pub submitted_date: String,
    pub tags: String,
    pub ratings: Vec<i32>,
}

/// Cover images of a beatmap set; the `...2x` fields are the members named `...@2x`.
#[derive(Clone, Debug)]
pub struct Covers {
    pub cover: String,
    pub cover2x: String,
    pub card: String,
    pub card2x: String,
    pub list: String,
    pub list2x: String,
    pub slimcover: String,
    pub slimcover2x: String,
}

/// Whether a beatmap set can be downloaded.
#[derive(Clone, Debug)]
pub struct Availability {
    pub download_disabled: bool,
}

/// Nomination progress of a beatmap set.
#[derive(Clone, Debug)]
pub struct NominationsSummary {
    pub current: i32,
    pub required: i32,
}

/// Where players failed or quit a beatmap.
#[derive(Clone, Debug)]
pub struct Failtimes {
    pub fail: Vec<i32>,
    pub exit: Vec<i32>,
}

/// Hit counts of a score.
#[derive(Clone, Debug)]
pub struct Statistics {
    pub count_100: i32,
    pub count_300: i32,
    pub count_50: i32,
    pub count_geki: i32,
    pub count_katu: i32,
    pub count_miss: i32,
}

/// A player, as the modern API nests it in a score.
#[derive(Clone, Debug)]
pub struct User {
    pub avatar_url: String,
    pub country_code: String,
    pub default_group: String,
    pub id: i64,
    pub is_active: bool,
    pub is_bot: bool,
    pub is_deleted: bool,
    pub is_online: bool,
    pub is_supporter: bool,
    pub last_visit: String,
    pub pm_friends_only: bool,
    pub username: String,
    pub country: Country,
    pub cover: Cover,
}

/// A player's country.
#[derive(Clone, Debug)]
pub struct Country {
    pub code: String,
    pub name: String,
}

/// A player's profile cover.
#[derive(Clone, Debug)]
pub struct Cover {
    pub url: String,
    pub id: String,
}


} // verus!
