//! The legacy, key-authenticated API: request URLs for each endpoint, with
//! the query written literally after `?k=<key>`.

use vstd::prelude::*;
use crate::kinds::{DataType, UserType};
use crate::query::{
    Pair, assembled, assembly_data, assembly_user_type, fragment_of,
    pairs_view, query_fragment, user_pairs,
};

verus! {

/// Base URL of the legacy API.
pub const OSU_API_1: &'static str = "https://osu.ppy.sh/api";

/// Pairs of an optional user reference: none when absent.
pub open spec fn optional_user_pairs(user: Option<UserType>) -> Seq<Pair> {
    match user {
        Some(u) => user_pairs(u),
        None => Seq::empty(),
    }
}

/// Handle on the legacy API, holding the API key.
///
/// Keys are issued at `https://osu.ppy.sh/p/api`; the service allows 1200
/// requests a minute, bursts up to 1400, and this handle does not throttle.
pub struct ApiV1 {
    api_key: String,
}

impl ApiV1 {
    /// The API key.
    pub closed spec fn key(&self) -> Seq<char> {
        self.api_key@
    }

    /// The full request URL of `endpoint` with the given query pairs.
    pub open spec fn request_url(&self, endpoint: Seq<char>, pairs: Seq<Pair>) -> Seq<char> {
        OSU_API_1@ + "/"@ + endpoint + "?k="@ + self.key() + fragment_of(pairs)
    }

    pub fn new(api_key: String) -> (r: ApiV1)
        ensures
            r.key() == api_key@,
    {
        ApiV1 { api_key }
    }

    /// The request URL of `endpoint`: the key first, then one literal
    /// `&name=value` per pair, in order.
    pub fn assembly_url(&self, endpoint: &str, pairs: &Vec<(&str, String)>) -> (r: String)
        ensures
            r@ == self.request_url(endpoint@, pairs_view(pairs@)),
    {
        let s = String::from_str(OSU_API_1);
        let s = s.concat("/");
        let s = s.concat(endpoint);
        let s = s.concat("?k=");
        let s = s.concat(self.api_key.as_str());
        let f = query_fragment(pairs);
        s.concat(f.as_str())
    }

    /// Request URL of `get_beatmaps`: `s`, `b`, `m`, `h`, `limit` when
    /// present, then the user's `u` and `type`, then `a` as `1` or `0`.
    pub fn get_beatmaps_url(
        &self,
        set_id: Option<i64>,
        beatmap_id: Option<i64>,
        user: Option<UserType>,
        mode: Option<i8>,
        transformation: bool,
        hash: Option<&str>,
        limit: Option<i16>,
    ) -> (r: String)
        ensures
            r@ == self.request_url(
                "get_beatmaps"@,
                assembled(
                    seq![
                        ("s", DataType::Int64(set_id)),
                        ("b", DataType::Int64(beatmap_id)),
                        ("m", DataType::Int8(mode)),
                        ("h", DataType::String(hash)),
                        ("limit", DataType::Int16(limit)),
                    ],
                ) + optional_user_pairs(user) + seq![
                    ("a"@, if transformation {
                        "1"@
                    } else {
                        "0"@
                    }),
                ],
            ),
    {
        let ghost u = user;
        let data = vec![
            ("s", DataType::Int64(set_id)),
            ("b", DataType::Int64(beatmap_id)),
            ("m", DataType::Int8(mode)),
            ("h", DataType::String(hash)),
            ("limit", DataType::Int16(limit)),
        ];
        let mut pairs: Vec<(&str, String)> = Vec::new();
        assembly_data(data.as_slice(), &mut pairs);
        if let Some(user) = user {
            assembly_user_type(user, &mut pairs);
        }
        if transformation {
            pairs.push(("a", String::from_str("1")));
        } else {
            pairs.push(("a", String::from_str("0")));
        }
        assert(pairs_view(pairs@) == assembled(data@) + optional_user_pairs(u) + seq![
            ("a"@, if transformation {
                "1"@
            } else {
                "0"@
            }),
        ]);
        self.assembly_url("get_beatmaps", &pairs)
    }
    /// Request URL of `endpoint` from named values and a user reference:
    /// the present values in order, then the user's `u` and `type`.
    fn user_request_url(&self, endpoint: &str, data: Vec<(&str, DataType)>, user: UserType) -> (r:
        String)
        ensures
            r@ == self.request_url(endpoint@, assembled(data@) + user_pairs(user)),
    {
        let ghost u = user;
        let mut pairs: Vec<(&str, String)> = Vec::new();
        assembly_data(data.as_slice(), &mut pairs);
        assembly_user_type(user, &mut pairs);
        self.assembly_url(endpoint, &pairs)
    }

    /// Request URL of `get_user`: `m` and `event_days` when present, then the
    /// user's `u` and `type`.
    pub fn get_user_url(&self, user: UserType, mode: Option<i8>, event_days: Option<i8>) -> (r:
        String)
        ensures
            r@ == self.request_url(
                "get_user"@,
                assembled(seq![("m", DataType::Int8(mode)), ("event_days", DataType::Int8(event_days))])
                    + user_pairs(user),
            ),
    {
        self.user_request_url(
            "get_user",
            vec![("m", DataType::Int8(mode)), ("event_days", DataType::Int8(event_days))],
            user,
        )
    }

    /// Request URL of `get_scores`: `b`, `m` and `limit` when present, then the
    /// user's `u` and `type`.
    pub fn get_scores_url(
        &self,
        beatmap_id: Option<i64>,
        user: UserType,
        mode: Option<i8>,
        limit: Option<i8>,
    ) -> (r: String)
        ensures
            r@ == self.request_url(
                "get_scores"@,
                assembled(
                    seq![
                        ("b", DataType::Int64(beatmap_id)),
                        ("m", DataType::Int8(mode)),
                        ("limit", DataType::Int8(limit)),
                    ],
                ) + user_pairs(user),
            ),
    {
        self.user_request_url(
            "get_scores",
            vec![
                ("b", DataType::Int64(beatmap_id)),
                ("m", DataType::Int8(mode)),
                ("limit", DataType::Int8(limit)),
            ],
            user,
        )
    }

    /// Request URL of `get_user_best`, a user's best plays: `m` and `limit`
    /// when present, then the user's `u` and `type`.
    pub fn get_user_best_url(&self, user: UserType, mode: Option<i8>, limit: Option<i8>) -> (r:
        String)
        ensures
            r@ == self.request_url(
                "get_user_best"@,
                assembled(seq![("m", DataType::Int8(mode)), ("limit", DataType::Int8(limit))])
                    + user_pairs(user),
            ),
    {
        self.user_request_url(
            "get_user_best",
            vec![("m", DataType::Int8(mode)), ("limit", DataType::Int8(limit))],
            user,
        )
    }

    /// Request URL of `get_user_recent`, a user's recent plays: `m` and
    /// `limit` when present, then the user's `u` and `type`.
    pub fn get_user_recent_url(&self, user: UserType, mode: Option<i8>, limit: Option<i8>) -> (r:
        String)
        ensures
            r@ == self.request_url(
                "get_user_recent"@,
                assembled(seq![("m", DataType::Int8(mode)), ("limit", DataType::Int8(limit))])
                    + user_pairs(user),
            ),
    {
        self.user_request_url(
            "get_user_recent",
            vec![("m", DataType::Int8(mode)), ("limit", DataType::Int8(limit))],
            user,
        )
    }

    /// Request URL of `get_match`, a multiplayer room: `mp` when present.
    pub fn get_match_url(&self, mp_id: Option<i64>) -> (r: String)
        ensures
            r@ == self.request_url("get_match"@, assembled(seq![("mp", DataType::Int64(mp_id))])),
    {
        let data = vec![("mp", DataType::Int64(mp_id))];
        let mut pairs: Vec<(&str, String)> = Vec::new();
        assembly_data(data.as_slice(), &mut pairs);
        assert(pairs_view(pairs@) == assembled(data@));
        assert(data@ == seq![("mp", DataType::Int64(mp_id))]);
        self.assembly_url("get_match", &pairs)
    }

    /// Request URL of `get_replay`: `m` and `b` when present, then the user's
    /// `u` and `type`.
    pub fn get_replay_url(&self, mode: Option<i8>, beatmap_id: Option<i64>, user: UserType) -> (r:
        String)
        ensures
            r@ == self.request_url(
                "get_replay"@,
                assembled(seq![("m", DataType::Int8(mode)), ("b", DataType::Int64(beatmap_id))])
                    + user_pairs(user),
            ),
    {
        self.user_request_url(
            "get_replay",
            vec![("m", DataType::Int8(mode)), ("b", DataType::Int64(beatmap_id))],
            user,
        )
    }
}

} // verus!
