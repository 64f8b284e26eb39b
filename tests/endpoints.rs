use osu_api_rs::kinds::{Mode, Mods, UserType};
use osu_api_rs::private::Api;
use osu_api_rs::{ApiV1, ApiV2};

#[test]
fn legacy_beatmaps_url() {
    let api = ApiV1::new("KEY".to_string());
    let r = api.get_beatmaps_url(None, Some(3020923), None, None, true, None, Some(1));
    assert_eq!(r, "https://osu.ppy.sh/api/get_beatmaps?k=KEY&b=3020923&limit=1&a=1");
    let r = api.get_beatmaps_url(Some(1), None, Some(UserType::USERNAME("x")), Some(0), false, Some("ab"), None);
    assert_eq!(r, "https://osu.ppy.sh/api/get_beatmaps?k=KEY&s=1&m=0&h=ab&u=x&type=string&a=0");
}

#[test]
fn legacy_user_urls() {
    let api = ApiV1::new("K".to_string());
    assert_eq!(
        api.get_user_url(UserType::USERID(18267600), Some(3), None),
        "https://osu.ppy.sh/api/get_user?k=K&m=3&u=18267600&type=id"
    );
    assert_eq!(
        api.get_scores_url(Some(992512), UserType::USERID(18267600), Some(3), Some(1)),
        "https://osu.ppy.sh/api/get_scores?k=K&b=992512&m=3&limit=1&u=18267600&type=id"
    );
    assert_eq!(
        api.get_user_best_url(UserType::USERID(5), None, Some(10)),
        "https://osu.ppy.sh/api/get_user_best?k=K&limit=10&u=5&type=id"
    );
    assert_eq!(
        api.get_user_recent_url(UserType::USERNAME("a"), Some(1), None),
        "https://osu.ppy.sh/api/get_user_recent?k=K&m=1&u=a&type=string"
    );
    assert_eq!(api.get_match_url(Some(105537044)), "https://osu.ppy.sh/api/get_match?k=K&mp=105537044");
    assert_eq!(
        api.get_replay_url(Some(0), Some(9), UserType::USERID(2)),
        "https://osu.ppy.sh/api/get_replay?k=K&m=0&b=9&u=2&type=id"
    );
}

fn token() -> ApiV2 {
    ApiV2::from_token("Bearer".to_string(), 86400, "tok".to_string())
}

#[test]
fn credential_fields() {
    let api = token();
    assert_eq!(api.token_type(), "Bearer");
    assert_eq!(api.expires_in(), 86400);
    assert_eq!(api.access_token(), "tok");
    assert_eq!(api.authorization(), "Bearer tok");
}

#[test]
fn modern_mods_url() {
    let r = token().user_beatmap_score_url(1, 2, None, Some(vec![Mods::HD, Mods::DT]));
    assert_eq!(r.unwrap(), "https://osu.ppy.sh/api/v2/beatmaps/1/scores/users/2?mods=HD&mods=DT");
}

#[test]
fn modern_urls_encode_values() {
    let r = token().lookup_beatmap_url(Some("a b&c"), None, Some(7));
    assert_eq!(r.unwrap(), "https://osu.ppy.sh/api/v2/beatmaps/lookup?id=7&checksum=a+b%26c");
    let r = token().user_beatmap_scores_all_url(3, 4, Some(Mode::Fruits), None);
    assert_eq!(r.unwrap(), "https://osu.ppy.sh/api/v2/beatmaps/3/scores/users/4/all?mode=fruits");
    let r = token().beatmap_score_url(5, Some(Mode::Mania), None, Some("global"));
    assert_eq!(r.unwrap(), "https://osu.ppy.sh/api/v2/beatmaps/5/scores?mode=3&type=global");
}

#[test]
fn private_api_handles() {
    let _ = Api::new("k".to_string());
    let _ = Api::default();
}
