//! The modern, OAuth2 API: the bearer credential, and request URLs whose
//! query is form-urlencoded by the `url` crate that `reqwest` re-exports.

use vstd::prelude::*;
use crate::kinds::{DataType, Mode, Mods};
use crate::query::{Pair, assembled, assembly_data, pairs_view};
use crate::text::{decimal, decimal_of};

verus! {

/// Base URL of the modern API.
pub const OSU_API_2: &'static str = "https://osu.ppy.sh/api/v2";

/// Token endpoint of the client-credentials grant.
pub const OSU_API_2_OAUTH: &'static str = "https://osu.ppy.sh/oauth/token";

/// The URL text that results from parsing `base` and appending `pairs` to
/// its query, or `None` when `base` is not a URL.
pub uninterp spec fn url_with_params(base: Seq<char>, pairs: Seq<Pair>) -> Option<Seq<char>>;

/// Relies on `reqwest::Url::parse_with_params` (the `url` crate): it parses
/// `base`, fails when that is not a URL, and otherwise appends each pair to
/// the query, form-urlencoded, in order; the text is the URL's serialization.
#[verifier::external_body]
fn encode_url(base: &str, pairs: &Vec<(&str, String)>) -> (r: Option<String>)
    ensures
        match r {
            Some(s) => url_with_params(base@, pairs_view(pairs@)) == Some(s@),
            None => url_with_params(base@, pairs_view(pairs@)) is None,
        },
{
    reqwest::Url::parse_with_params(base, pairs.iter()).ok().map(String::from)
}

/// View of an optional text.
pub open spec fn opt_text(o: Option<String>) -> Option<Seq<char>> {
    match o {
        Some(s) => Some(s@),
        None => None,
    }
}

/// The encoded request URL of `path` under the modern API's base.
pub open spec fn modern_url(path: Seq<char>, pairs: Seq<Pair>) -> Option<Seq<char>> {
    url_with_params(OSU_API_2@ + "/"@ + path, pairs)
}

/// Path of a user's score on a beatmap.
pub open spec fn user_score_path(beatmap_id: i64, user_id: i64) -> Seq<char> {
    "beatmaps/"@ + decimal_of(beatmap_id as int) + "/scores/users/"@ + decimal_of(user_id as int)
}

/// Bearer credential of the modern API, as the token endpoint returns it.
/// It is not renewed: once `expires_in` seconds have passed, requests fail.
pub struct ApiV2 {
    token_type: String,
    expires_in: i32,
    access_token: String,
}

impl ApiV2 {
    /// Kind of token, `Bearer`.
    pub closed spec fn kind(&self) -> Seq<char> {
        self.token_type@
    }

    /// Lifetime of the token in seconds.
    pub closed spec fn lifetime(&self) -> int {
        self.expires_in as int
    }

    /// The access token.
    pub closed spec fn token(&self) -> Seq<char> {
        self.access_token@
    }

    /// A credential from the fields of a token response.
    pub fn from_token(token_type: String, expires_in: i32, access_token: String) -> (r: ApiV2)
        ensures
            r.kind() == token_type@,
            r.lifetime() == expires_in as int,
            r.token() == access_token@,
    {
        ApiV2 { token_type, expires_in, access_token }
    }

    pub fn token_type(&self) -> (r: &str)
        ensures
            r@ == self.kind(),
    {
        self.token_type.as_str()
    }

    pub fn expires_in(&self) -> (r: i32)
        ensures
            r as int == self.lifetime(),
    {
        self.expires_in
    }

    pub fn access_token(&self) -> (r: &str)
        ensures
            r@ == self.token(),
    {
        self.access_token.as_str()
    }

    /// Value of the `Authorization` header: `Bearer <token>`.
    pub fn authorization(&self) -> (r: String)
        ensures
            r@ == "Bearer "@ + self.token(),
    {
        String::from_str("Bearer ").concat(self.access_token.as_str())
    }

    /// The request URL of `path` with the given pairs as its encoded query.
    pub fn assembly_url(&self, path: &str, pairs: &Vec<(&str, String)>) -> (r: Option<String>)
        ensures
            opt_text(r) == modern_url(path@, pairs_view(pairs@)),
    {
        let base = String::from_str(OSU_API_2).concat("/").concat(path);
        encode_url(base.as_str(), pairs)
    }

    fn data_url(&self, path: &str, data: Vec<(&str, DataType)>) -> (r: Option<String>)
        ensures
            opt_text(r) == modern_url(path@, assembled(data@)),
    {
        let mut pairs: Vec<(&str, String)> = Vec::new();
        assembly_data(data.as_slice(), &mut pairs);
        assert(pairs_view(pairs@) == assembled(data@));
        self.assembly_url(path, &pairs)
    }

    /// Request URL of `beatmaps/lookup`: `id`, `checksum` and `filename` when
    /// present.
    pub fn lookup_beatmap_url(
        &self,
        checksum: Option<&str>,
        filename: Option<&str>,
        beatmap_id: Option<i64>,
    ) -> (r: Option<String>)
        ensures
            opt_text(r) == modern_url(
                "beatmaps/lookup"@,
                assembled(
                    seq![
                        ("id", DataType::Int64(beatmap_id)),
                        ("checksum", DataType::String(checksum)),
                        ("filename", DataType::String(filename)),
                    ],
                ),
            ),
    {
        self.data_url(
            "beatmaps/lookup",
            vec![
                ("id", DataType::Int64(beatmap_id)),
                ("checksum", DataType::String(checksum)),
                ("filename", DataType::String(filename)),
            ],
        )
    }

    /// Request URL of a user's best score on a beatmap: `mode` by name when
    /// present, then one `mods` pair per mod label.
    pub fn user_beatmap_score_url(
        &self,
        beatmap_id: i64,
        user_id: i64,
        mode: Option<Mode>,
        mods: Option<Vec<Mods>>,
    ) -> (r: Option<String>)
        ensures
            opt_text(r) == modern_url(
                user_score_path(beatmap_id, user_id),
                assembled(seq![("mode", DataType::Mode(mode, true)), ("mods", DataType::Mods(mods))]),
            ),
    {
        let path = String::from_str("beatmaps/").concat(decimal(beatmap_id).as_str()).concat(
            "/scores/users/",
        ).concat(decimal(user_id).as_str());
        self.data_url(
            path.as_str(),
            vec![("mode", DataType::Mode(mode, true)), ("mods", DataType::Mods(mods))],
        )
    }

    /// Request URL of all of a user's scores on a beatmap: `mode` by name
    /// when present, then one `mods` pair per mod label.
    pub fn user_beatmap_scores_all_url(
        &self,
        beatmap_id: i64,
        user_id: i64,
        mode: Option<Mode>,
        mods: Option<Vec<Mods>>,
    ) -> (r: Option<String>)
        ensures
            opt_text(r) == modern_url(
                user_score_path(beatmap_id, user_id) + "/all"@,
                assembled(seq![("mode", DataType::Mode(mode, true)), ("mods", DataType::Mods(mods))]),
            ),
    {
        let path = String::from_str("beatmaps/").concat(decimal(beatmap_id).as_str()).concat(
            "/scores/users/",
        ).concat(decimal(user_id).as_str()).concat("/all");
        self.data_url(
            path.as_str(),
            vec![("mode", DataType::Mode(mode, true)), ("mods", DataType::Mods(mods))],
        )
    }

    /// Request URL of a beatmap's top scores: `mode` by numeric code when
    /// present, one `mods` pair per mod label, then `type` when present.
    pub fn beatmap_score_url(
        &self,
        beatmap_id: i64,
        mode: Option<Mode>,
        mods: Option<Vec<Mods>>,
        beatmap_type: Option<&str>,
    ) -> (r: Option<String>)
        ensures
            opt_text(r) == modern_url(
                "beatmaps/"@ + decimal_of(beatmap_id as int) + "/scores"@,
                assembled(
                    seq![
                        ("mode", DataType::Mode(mode, false)),
                        ("mods", DataType::Mods(mods)),
                        ("type", DataType::String(beatmap_type)),
                    ],
                ),
            ),
    {
        let path = String::from_str("beatmaps/").concat(decimal(beatmap_id).as_str()).concat(
            "/scores",
        );
        self.data_url(
            path.as_str(),
            vec![
                ("mode", DataType::Mode(mode, false)),
                ("mods", DataType::Mods(mods)),
                ("type", DataType::String(beatmap_type)),
            ],
        )
    }
}

} // verus!
