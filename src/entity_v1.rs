//! Records of the legacy API. The service writes numbers as text, so the
//! fields are text too.

use vstd::prelude::*;

verus! {

/// One difficulty of a beatmap, as `get_beatmaps` lists it.
#[derive(Clone, Debug)]
pub struct Beatmap {
    pub beatmapset_id: String,
    pub beatmap_id: String,
    pub approved: String,
    pub total_length: String,
    pub hit_length: String,
    pub version: String,
    pub file_md5: String,
    pub diff_size: String,
    pub diff_overall: String,
    pub diff_approach: String,
    pub diff_drain: String,
    pub mode: String,
    pub count_normal: String,
    pub count_slider: String,
    pub count_spinner: String,
    pub submit_date: String,
    pub approved_date: String,
    pub last_update: String,
    pub artist: String,
    pub artist_unicode: String,
    pub title: String,
    pub title_unicode: String,
    pub creator: String,
    pub creator_id: String,
    pub bpm: String,
    pub source: String,
    pub tags: String,
    pub genre_id: String,
    pub language_id: String,
    pub favourite_count: String,
    pub rating: String,
    pub storyboard: String,
    pub video: String,
    pub download_unavailable: String,
    pub audio_unavailable: String,
    pub playcount: String,
    pub passcount: String,
    pub packs: String,
    pub max_combo: String,
    pub difficultyrating: String,
}

/// A player, as `get_user` returns it.
#[derive(Clone, Debug)]
pub struct User {
    pub user_id: String,
    pub username: String,
    pub join_date: String,
    pub count300: String,
    pub count100: String,
    pub count50: String,
    pub playcount: String,
    pub ranked_score: String,
    pub total_score: String,
    pub pp_rank: String,
    pub level: String,
    pub pp_raw: String,
    pub accuracy: String,
    pub count_rank_ss: String,
    pub count_rank_ssh: String,
    pub count_rank_s: String,
    pub count_rank_sh: String,
    pub count_rank_a: String,
    pub country: String,
    pub total_seconds_played: String,
    pub pp_country_rank: String,
    pub events: Vec<String>,
}

/// A score on a beatmap, as `get_scores` lists it.
#[derive(Clone, Debug)]
pub struct Scores {
    pub score_id: String,
    pub score: String,
    pub username: String,
    pub maxcombo: String,
    pub count50: String,
    pub count100: String,
    pub count300: String,
    pub countmiss: String,
    pub countkatu: String,
    pub countgeki: String,
    pub perfect: String,
    pub enabled_mods: String,
    pub user_id: String,
    pub date: String,
    pub rank: String,
    pub pp: String,
    pub replay_available: String,
}

/// A play of a user, as `get_user_best` and `get_user_recent` list it.
#[derive(Clone, Debug)]
pub struct GameRecord {
    pub beatmap_id: String,
    pub score_id: String,
    pub score: String,
    pub maxcombo: String,
    pub count50: String,
    pub count100: String,
    pub count300: String,
    pub countmiss: String,
    pub countkatu: String,
    pub countgeki: String,
    pub perfect: String,
    pub enabled_mods: String,
    pub user_id: String,
    pub date: String,
    pub rank: String,
    pub pp: String,
    pub replay_available: String,
}

/// A multiplayer room with its games, as `get_match` returns it; the room sits under the member `match`.
#[derive(Clone, Debug)]
pub struct MatchRoom {
    pub room_info: RoomInfo,
    pub games: Vec<Games>,
}

/// Details of a multiplayer room.
#[derive(Clone, Debug)]
pub struct RoomInfo {
    pub match_id: String,
    pub name: String,
    pub start_time: String,
    pub end_time: Option<String>,
}

/// One game played in a multiplayer room.
#[derive(Clone, Debug)]
pub struct Games {
    pub game_id: String,
    pub start_time: String,
    pub end_time: String,
    pub beatmap_id: String,
    pub play_mode: String,
    pub match_type: String,
    pub scoring_type: String,
    pub team_type: String,
    pub mods: String,
    pub scores: Vec<RoomScores>,
}

/// One player's score in a multiplayer game.
#[derive(Clone, Debug)]
pub struct RoomScores {
    pub slot: String,
    pub team: String,
    pub user_id: String,
    pub score: String,
    pub maxcombo: String,
    pub rank: String,
    pub count50: String,
    pub count100: String,
    pub count300: String,
    pub countmiss: String,
    pub countgeki: String,
    pub countkatu: String,
    pub perfect: String,
    pub pass: String,
    pub enabled_mods: Option<String>,
}

/// A replay, as `get_replay` returns it: `content` holds the replay data in
/// base64.
#[derive(Clone, Debug)]
pub struct Replay {
    pub content: String,
}

} // verus!
