use osu_api_rs::kinds::{Mode, Mods};

#[test]
fn mode_codes_and_names() {
    assert_eq!(Mode::get_mode(&Mode::Osu), ("osu", 0));
    assert_eq!(Mode::get_mode(&Mode::Taiko), ("taiko", 1));
    assert_eq!(Mode::get_mode(&Mode::Fruits), ("fruits", 2));
    assert_eq!(Mode::get_mode(&Mode::Mania), ("mania", 3));
}

#[test]
fn mode_round_trip() {
    for m in [Mode::Osu, Mode::Taiko, Mode::Fruits, Mode::Mania] {
        let (name, code) = Mode::get_mode(&m);
        assert_eq!(Mode::from_code(code), Some(m));
        assert_eq!(Mode::from_name(name), Some(m));
    }
    assert_eq!(Mode::from_code(4), None);
    assert_eq!(Mode::from_code(-1), None);
    assert_eq!(Mode::from_name("Osu"), None);
    assert_eq!(Mode::from_name(""), None);
}

#[test]
fn mod_table() {
    let r = Mods::get_mods(&vec![Mods::HD, Mods::DT, Mods::AUTO, Mods::Key1, Mods::NONE]);
    assert_eq!(r, vec![(8, "HD"), (64, "DT"), (2048, "Auto"), (67108864, "1K"), (0, "NONE")]);
}

#[test]
fn symbolic_mods_are_dropped() {
    let r = Mods::get_mods(&vec![Mods::KeyMod, Mods::HR, Mods::FreeModAllowed]);
    assert_eq!(r, vec![(16, "HR")]);
    assert_eq!(Mods::get_mods(&vec![]), vec![]);
}

#[test]
fn labels_read_back() {
    let r = Mods::str_to_mods(vec!["NF", "HD", "EZ", "NONE", "", "NV"]);
    assert_eq!(r, vec![Mods::NF, Mods::EZ, Mods::NONE, Mods::NV]);
}

#[test]
fn mod_bits_are_distinct_single_bits() {
    let all = vec![
        Mods::NONE, Mods::NF, Mods::EZ, Mods::MR, Mods::NV, Mods::HD, Mods::HR, Mods::SD,
        Mods::DT, Mods::RX, Mods::HT, Mods::NC, Mods::FL, Mods::AUTO, Mods::SO, Mods::AP,
        Mods::PF, Mods::Key1, Mods::Key2, Mods::Key3, Mods::Key4, Mods::Key5, Mods::Key6,
        Mods::Key7, Mods::Key8, Mods::Key9, Mods::Key10, Mods::FadeIn, Mods::Random,
        Mods::Cinema, Mods::Coop, Mods::V2, Mods::LM, Mods::KeyMod, Mods::FreeModAllowed,
    ];
    let entries = Mods::get_mods(&all);
    assert_eq!(entries.len(), 33);
    assert_eq!(entries[0], (0, "NONE"));
    for (i, (bit, _)) in entries.iter().enumerate().skip(1) {
        assert_eq!(bit.count_ones(), 1);
        for (other, _) in entries.iter().skip(i + 1) {
            assert_ne!(bit, other);
        }
    }
}

#[test]
fn reassigned_mod_bits() {
    let r = Mods::get_mods(&vec![Mods::MR, Mods::Key9, Mods::Key10, Mods::EZ]);
    assert_eq!(r, vec![(2147483648, "MR"), (16777216, "9K"), (8388608, "10K"), (2, "EZ")]);
}
