use osu_api_rs::kinds::{DataType, Mode, Mods, UserType};
use osu_api_rs::query::{assembly_data, assembly_user_type, query_fragment, url};
use osu_api_rs::text::{decimal, same_text};

#[test]
fn absent_values_are_skipped() {
    let r = url(vec![("m", DataType::Int8(None)), ("limit", DataType::Int16(Some(5)))]);
    assert_eq!(r, "&limit=5");
}

#[test]
fn every_kind_emits_in_order() {
    let r = url(vec![
        ("a", DataType::Int64(Some(-12))),
        ("b", DataType::Int32(None)),
        ("c", DataType::Int32(Some(7))),
        ("d", DataType::Int16(Some(300))),
        ("e", DataType::String(Some("x y"))),
        ("f", DataType::Mode(Some(Mode::Mania), false)),
        ("g", DataType::Mode(Some(Mode::Taiko), true)),
        ("h", DataType::Mode(None, true)),
    ]);
    assert_eq!(r, "&a=-12&c=7&d=300&e=x y&f=3&g=taiko");
}

#[test]
fn zero_and_empty_are_present() {
    assert_eq!(url(vec![("a", DataType::Int64(Some(0)))]), "&a=0");
    assert_eq!(url(vec![("a", DataType::Int8(Some(0)))]), "&a=0");
    assert_eq!(url(vec![("s", DataType::String(Some("")))]), "&s=");
    assert_eq!(url(vec![("a", DataType::Int64(None))]), "");
}

#[test]
fn empty_inputs_give_nothing() {
    assert_eq!(url(vec![]), "");
    assert_eq!(url(vec![("mods", DataType::Mods(Some(vec![])))]), "");
    assert_eq!(url(vec![("mods", DataType::Mods(Some(vec![Mods::KeyMod])))]), "");
}

#[test]
fn user_reference_then_mode() {
    let mut pairs: Vec<(&str, String)> = vec![];
    assembly_user_type(UserType::USERID(18267600), &mut pairs);
    assert_eq!(pairs, vec![("u", "18267600".to_string()), ("type", "id".to_string())]);

    let mut all: Vec<(&str, String)> = vec![];
    assembly_data(&[("m", DataType::Int8(Some(3)))], &mut all);
    assembly_user_type(UserType::USERID(18267600), &mut all);
    assert_eq!(query_fragment(&all), "&m=3&u=18267600&type=id");
}

#[test]
fn user_name_reference() {
    let mut pairs: Vec<(&str, String)> = vec![];
    assembly_user_type(UserType::USERNAME("peppy"), &mut pairs);
    assert_eq!(pairs, vec![("u", "peppy".to_string()), ("type", "string".to_string())]);
}

#[test]
fn mods_give_one_pair_each() {
    let mut pairs: Vec<(&str, String)> = vec![];
    assembly_data(&[("mods", DataType::Mods(Some(vec![Mods::HD, Mods::DT])))], &mut pairs);
    assert_eq!(pairs, vec![("mods", "HD".to_string()), ("mods", "DT".to_string())]);
}

#[test]
fn decimal_text() {
    assert_eq!(decimal(0), "0");
    assert_eq!(decimal(7), "7");
    assert_eq!(decimal(-305), "-305");
    assert_eq!(decimal(i64::MAX), i64::MAX.to_string());
    assert_eq!(decimal(i64::MIN), i64::MIN.to_string());
}

#[test]
fn text_comparison() {
    assert!(same_text("osu", "osu"));
    assert!(!same_text("osu", "os"));
    assert!(!same_text("osu", "osx"));
    assert!(same_text("", ""));
}
