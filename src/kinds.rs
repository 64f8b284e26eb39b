//! The closed value kinds that requests are built from: game modes, mod
//! flags, user references and typed parameter values.

use vstd::prelude::*;
use crate::text::same_text;
use vstd::arithmetic::power2::{lemma2_to64, pow2};

verus! {

/// A game mode of the service.
#[derive(Clone, Copy, Debug, PartialEq, Eq, Structural)]
pub enum Mode {
    Fruits,
    Mania,
    Osu,
    Taiko,
}

/// Numeric code of a mode, as the legacy API and score ranking take it.
pub open spec fn mode_code(m: Mode) -> int {
    match m {
        Mode::Osu => 0,
        Mode::Taiko => 1,
        Mode::Fruits => 2,
        Mode::Mania => 3,
    }
}

/// Lowercase name of a mode, as the modern API takes it.
pub open spec fn mode_name(m: Mode) -> Seq<char> {
    match m {
        Mode::Osu => "osu"@,
        Mode::Taiko => "taiko"@,
        Mode::Fruits => "fruits"@,
        Mode::Mania => "mania"@,
    }
}

/// The mode whose numeric code is `c`, if any.
pub open spec fn mode_of_code(c: int) -> Option<Mode> {
    if c == 0 {
        Some(Mode::Osu)
    } else if c == 1 {
        Some(Mode::Taiko)
    } else if c == 2 {
        Some(Mode::Fruits)
    } else if c == 3 {
        Some(Mode::Mania)
    } else {
        None
    }
}

/// The mode whose name is `s`, if any.
pub open spec fn mode_of_name(s: Seq<char>) -> Option<Mode> {
    if s == "osu"@ {
        Some(Mode::Osu)
    } else if s == "taiko"@ {
        Some(Mode::Taiko)
    } else if s == "fruits"@ {
        Some(Mode::Fruits)
    } else if s == "mania"@ {
        Some(Mode::Mania)
    } else {
        None
    }
}

impl Mode {
    /// The name and the numeric code of a mode.
    pub fn get_mode(mode: &Mode) -> (r: (&'static str, i8))
        ensures
            r.0@ == mode_name(*mode),
            r.1 as int == mode_code(*mode),
    {
        match mode {
            Mode::Fruits => ("fruits", 2),
            Mode::Mania => ("mania", 3),
            Mode::Osu => ("osu", 0),
            Mode::Taiko => ("taiko", 1),
        }
    }

    /// The mode with the given numeric code.
    pub fn from_code(code: i8) -> (r: Option<Mode>)
        ensures
            r == mode_of_code(code as int),
    {
        if code == 0 {
            Some(Mode::Osu)
        } else if code == 1 {
            Some(Mode::Taiko)
        } else if code == 2 {
            Some(Mode::Fruits)
        } else if code == 3 {
            Some(Mode::Mania)
        } else {
            None
        }
    }

    /// The mode with the given name.
    pub fn from_name(name: &str) -> (r: Option<Mode>)
        ensures
            r == mode_of_name(name@),
    {
        if same_text(name, "osu") {
            Some(Mode::Osu)
        } else if same_text(name, "taiko") {
            Some(Mode::Taiko)
        } else if same_text(name, "fruits") {
            Some(Mode::Fruits)
        } else if same_text(name, "mania") {
            Some(Mode::Mania)
        } else {
            None
        }
    }
}

/// Mode round trip: every mode has a code in `0..=3` and a name, no two modes
/// share either, and reading the code or the name back gives the same mode.
pub proof fn lemma_mode_round_trip(m: Mode, n: Mode)
    ensures
        0 <= mode_code(m) <= 3,
        mode_of_code(mode_code(m)) == Some(m),
        mode_of_name(mode_name(m)) == Some(m),
        m != n ==> mode_code(m) != mode_code(n),
        m != n ==> mode_name(m) != mode_name(n),
{
    reveal_strlit("osu");
    reveal_strlit("taiko");
    reveal_strlit("fruits");
    reveal_strlit("mania");
    assert("osu"@.len() == 3);
    assert("taiko"@.len() == 5);
    assert("fruits"@.len() == 6);
    assert("mania"@.len() == 5);
    assert("taiko"@[0] != "mania"@[0]);
}

/// A gameplay modifier.
#[derive(Clone, Copy, Debug, PartialEq, Eq, Structural)]
pub enum Mods {
    NONE,
    NF,
    EZ,
    MR,
    NV,
    HD,
    HR,
    SD,
    DT,
    RX,
    HT,
    NC,
    FL,
    AUTO,
    SO,
    AP,
    PF,
    Key1,
    Key2,
    Key3,
    Key4,
    Key5,
    Key6,
    Key7,
    Key8,
    Key9,
    Key10,
    FadeIn,
    Random,
    Cinema,
    Coop,
    V2,
    LM,
    KeyMod,
    FreeModAllowed,
}

/// Bit value and display label of a mod. `NONE` has bit value 0, every other
/// mod a single bit of its own; the two symbolic entries have none.
pub open spec fn mod_entry(m: Mods) -> Option<(int, Seq<char>)> {
    match m {
        Mods::NONE => Some((0, "NONE"@)),
        Mods::NF => Some((1, "NF"@)),
        Mods::EZ => Some((2, "EZ"@)),
        Mods::MR => Some((2147483648, "MR"@)),
        Mods::NV => Some((4, "NV"@)),
        Mods::HD => Some((8, "HD"@)),
        Mods::HR => Some((16, "HR"@)),
        Mods::SD => Some((32, "SD"@)),
        Mods::DT => Some((64, "DT"@)),
        Mods::RX => Some((128, "RX"@)),
        Mods::HT => Some((256, "HT"@)),
        Mods::NC => Some((512, "NC"@)),
        Mods::FL => Some((1024, "FL"@)),
        Mods::AUTO => Some((2048, "Auto"@)),
        Mods::SO => Some((4096, "SO"@)),
        Mods::AP => Some((8192, "AP"@)),
        Mods::PF => Some((16384, "PF"@)),
        Mods::Key1 => Some((67108864, "1K"@)),
        Mods::Key2 => Some((268435456, "2K"@)),
        Mods::Key3 => Some((134217728, "3K"@)),
        Mods::Key4 => Some((32768, "4K"@)),
        Mods::Key5 => Some((65536, "5K"@)),
        Mods::Key6 => Some((131072, "6K"@)),
        Mods::Key7 => Some((262144, "7K"@)),
        Mods::Key8 => Some((524288, "8K"@)),
        Mods::Key9 => Some((16777216, "9K"@)),
        Mods::Key10 => Some((8388608, "10K"@)),
        Mods::FadeIn => Some((1048576, "FadeIn"@)),
        Mods::Random => Some((2097152, "Random"@)),
        Mods::Cinema => Some((4194304, "Cinema"@)),
        Mods::Coop => Some((33554432, "Coop"@)),
        Mods::V2 => Some((536870912, "V2"@)),
        Mods::LM => Some((1073741824, "LM"@)),
        Mods::KeyMod => None,
        Mods::FreeModAllowed => None,
    }
}

/// Entries of a mod list in order, the symbolic mods left out.
pub open spec fn mods_entries(ms: Seq<Mods>) -> Seq<(int, Seq<char>)>
    decreases ms.len(),
{
    if ms.len() == 0 {
        Seq::empty()
    } else {
        match mod_entry(ms.last()) {
            Some(e) => mods_entries(ms.drop_last()).push(e),
            None => mods_entries(ms.drop_last()),
        }
    }
}

/// Display labels of a mod list in order, the symbolic mods left out.
pub open spec fn mods_labels(ms: Seq<Mods>) -> Seq<Seq<char>> {
    mods_entries(ms).map_values(|e: (int, Seq<char>)| e.1)
}

/// The mod that a label names, among those that labels are read back for.
pub open spec fn mod_of_label(s: Seq<char>) -> Option<Mods> {
    if s == "NONE"@ {
        Some(Mods::NONE)
    } else if s == "NF"@ {
        Some(Mods::NF)
    } else if s == "EZ"@ {
        Some(Mods::EZ)
    } else if s == "NV"@ {
        Some(Mods::NV)
    } else {
        None
    }
}

/// Mods named by a list of labels in order, unknown labels left out.
pub open spec fn mods_of_labels(ls: Seq<Seq<char>>) -> Seq<Mods>
    decreases ls.len(),
{
    if ls.len() == 0 {
        Seq::empty()
    } else {
        match mod_of_label(ls.last()) {
            Some(m) => mods_of_labels(ls.drop_last()).push(m),
            None => mods_of_labels(ls.drop_last()),
        }
    }
}

/// View of a list of exec mod entries.
pub open spec fn entries_view(es: Seq<(u32, &str)>) -> Seq<(int, Seq<char>)> {
    es.map_values(|e: (u32, &str)| (e.0 as int, e.1@))
}

/// View of a list of labels.
pub open spec fn labels_view(ls: Seq<&str>) -> Seq<Seq<char>> {
    ls.map_values(|l: &str| l@)
}

impl Mods {
    /// Bit value and display label of one mod.
    pub fn entry(m: &Mods) -> (r: Option<(u32, &'static str)>)
        ensures
            match r {
                Some(e) => mod_entry(*m) == Some((e.0 as int, e.1@)),
                None => mod_entry(*m) is None,
            },
    {
        match m {
            Mods::NONE => Some((0, "NONE")),
            Mods::NF => Some((1, "NF")),
            Mods::EZ => Some((2, "EZ")),
            Mods::MR => Some((2147483648, "MR")),
            Mods::NV => Some((4, "NV")),
            Mods::HD => Some((8, "HD")),
            Mods::HR => Some((16, "HR")),
            Mods::SD => Some((32, "SD")),
            Mods::DT => Some((64, "DT")),
            Mods::RX => Some((128, "RX")),
            Mods::HT => Some((256, "HT")),
            Mods::NC => Some((512, "NC")),
            Mods::FL => Some((1024, "FL")),
            Mods::AUTO => Some((2048, "Auto")),
            Mods::SO => Some((4096, "SO")),
            Mods::AP => Some((8192, "AP")),
            Mods::PF => Some((16384, "PF")),
            Mods::Key1 => Some((67108864, "1K")),
            Mods::Key2 => Some((268435456, "2K")),
            Mods::Key3 => Some((134217728, "3K")),
            Mods::Key4 => Some((32768, "4K")),
            Mods::Key5 => Some((65536, "5K")),
            Mods::Key6 => Some((131072, "6K")),
            Mods::Key7 => Some((262144, "7K")),
            Mods::Key8 => Some((524288, "8K")),
            Mods::Key9 => Some((16777216, "9K")),
            Mods::Key10 => Some((8388608, "10K")),
            Mods::FadeIn => Some((1048576, "FadeIn")),
            Mods::Random => Some((2097152, "Random")),
            Mods::Cinema => Some((4194304, "Cinema")),
            Mods::Coop => Some((33554432, "Coop")),
            Mods::V2 => Some((536870912, "V2")),
            Mods::LM => Some((1073741824, "LM")),
            Mods::KeyMod => None,
            Mods::FreeModAllowed => None,
        }
    }

    /// Bit values and labels of a mod list in order; `KeyMod` and
    /// `FreeModAllowed` carry neither and are dropped.
    pub fn get_mods(mods: &Vec<Mods>) -> (r: Vec<(u32, &'static str)>)
        ensures
            entries_view(r@) == mods_entries(mods@),
    {
        let mut out: Vec<(u32, &'static str)> = Vec::new();
        let mut i: usize = 0;
        while i < mods.len()
            invariant
                i <= mods@.len(),
                entries_view(out@) == mods_entries(mods@.subrange(0, i as int)),
            decreases mods@.len() - i,
        {
            let ghost before = out@;
            assert(mods@.subrange(0, i + 1).drop_last() == mods@.subrange(0, i as int));
            match Mods::entry(&mods[i]) {
                Some(e) => {
                    out.push(e);
                    assert(entries_view(out@) == entries_view(before).push((e.0 as int, e.1@)));
                },
                None => {},
            }
            i = i + 1;
        }
        assert(mods@.subrange(0, mods@.len() as int) == mods@);
        out
    }

    /// Mods named by labels, in order; only `NONE`, `NF`, `EZ` and `NV` are
    /// read back, other labels are skipped.
    pub fn str_to_mods(labels: Vec<&str>) -> (r: Vec<Mods>)
        ensures
            r@ == mods_of_labels(labels_view(labels@)),
    {
        let mut out: Vec<Mods> = Vec::new();
        let mut i: usize = 0;
        while i < labels.len()
            invariant
                i <= labels@.len(),
                out@ == mods_of_labels(labels_view(labels@.subrange(0, i as int))),
            decreases labels@.len() - i,
        {
            let l = labels[i];
            assert(labels_view(labels@.subrange(0, i + 1)).drop_last()
                == labels_view(labels@.subrange(0, i as int)));
            if same_text(l, "NONE") {
                out.push(Mods::NONE);
            } else if same_text(l, "NF") {
                out.push(Mods::NF);
            } else if same_text(l, "EZ") {
                out.push(Mods::EZ);
            } else if same_text(l, "NV") {
                out.push(Mods::NV);
            }
            i = i + 1;
        }
        assert(labels@.subrange(0, labels@.len() as int) == labels@);
        out
    }
}

/// Bit value of a mod that has an entry.
pub open spec fn bit_of(m: Mods) -> int {
    match mod_entry(m) {
        Some(e) => e.0,
        None => 0,
    }
}

/// Every mod but `NONE` and the symbolic ones has a single bit as its bit
/// value, `NONE` has 0, and no two mods share a bit value.
pub proof fn lemma_mod_bits_distinct(m: Mods, n: Mods)
    ensures
        mod_entry(Mods::NONE) is Some && bit_of(Mods::NONE) == 0,
        mod_entry(m) is Some && m != Mods::NONE ==> exists|k: nat|
            k < 32 && bit_of(m) == #[trigger] pow2(k),
        mod_entry(m) is Some && mod_entry(n) is Some && m != n ==> bit_of(m)
            != bit_of(n),
{
    lemma2_to64();
    match m {
        Mods::NONE => {},
        Mods::NF => assert(bit_of(m) == pow2(0)),
        Mods::EZ => assert(bit_of(m) == pow2(1)),
        Mods::MR => assert(bit_of(m) == pow2(31)),
        Mods::NV => assert(bit_of(m) == pow2(2)),
        Mods::HD => assert(bit_of(m) == pow2(3)),
        Mods::HR => assert(bit_of(m) == pow2(4)),
        Mods::SD => assert(bit_of(m) == pow2(5)),
        Mods::DT => assert(bit_of(m) == pow2(6)),
        Mods::RX => assert(bit_of(m) == pow2(7)),
        Mods::HT => assert(bit_of(m) == pow2(8)),
        Mods::NC => assert(bit_of(m) == pow2(9)),
        Mods::FL => assert(bit_of(m) == pow2(10)),
        Mods::AUTO => assert(bit_of(m) == pow2(11)),
        Mods::SO => assert(bit_of(m) == pow2(12)),
        Mods::AP => assert(bit_of(m) == pow2(13)),
        Mods::PF => assert(bit_of(m) == pow2(14)),
        Mods::Key1 => assert(bit_of(m) == pow2(26)),
        Mods::Key2 => assert(bit_of(m) == pow2(28)),
        Mods::Key3 => assert(bit_of(m) == pow2(27)),
        Mods::Key4 => assert(bit_of(m) == pow2(15)),
        Mods::Key5 => assert(bit_of(m) == pow2(16)),
        Mods::Key6 => assert(bit_of(m) == pow2(17)),
        Mods::Key7 => assert(bit_of(m) == pow2(18)),
        Mods::Key8 => assert(bit_of(m) == pow2(19)),
        Mods::Key9 => assert(bit_of(m) == pow2(24)),
        Mods::Key10 => assert(bit_of(m) == pow2(23)),
        Mods::FadeIn => assert(bit_of(m) == pow2(20)),
        Mods::Random => assert(bit_of(m) == pow2(21)),
        Mods::Cinema => assert(bit_of(m) == pow2(22)),
        Mods::Coop => assert(bit_of(m) == pow2(25)),
        Mods::V2 => assert(bit_of(m) == pow2(29)),
        Mods::LM => assert(bit_of(m) == pow2(30)),
        _ => {},
    }
}

/// Who a request is about: a numeric user id or a user name.
pub enum UserType<'a> {
    /// Numeric user id, as in `https://osu.ppy.sh/users/18267600`.
    USERID(i64),
    /// User name.
    USERNAME(&'a str),
}

/// A typed, optional query parameter value; `None` marks it absent.
pub enum DataType<'a> {
    Int64(Option<i64>),
    Int32(Option<i32>),
    Int16(Option<i16>),
    Int8(Option<i8>),
    /// A mode, written by name when the flag is set and by code otherwise.
    Mode(Option<Mode>, bool),
    String(Option<&'a str>),
    Mods(Option<Vec<Mods>>),
}

/// Whether a parameter value is present; only the `Option` decides.
pub open spec fn is_present(d: DataType) -> bool {
    match d {
        DataType::Int64(o) => o is Some,
        DataType::Int32(o) => o is Some,
        DataType::Int16(o) => o is Some,
        DataType::Int8(o) => o is Some,
        DataType::Mode(o, _) => o is Some,
        DataType::String(o) => o is Some,
        DataType::Mods(o) => o is Some,
    }
}

/// Whether a parameter value is a single value rather than a mod list.
pub open spec fn is_scalar(d: DataType) -> bool {
    !(d is Mods)
}

} // verus!
