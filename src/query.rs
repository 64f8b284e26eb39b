//! Assembly of query parameters: typed values become `(name, text)` pairs,
//! and pairs become the legacy API's literal `&name=value` fragment.

use vstd::prelude::*;
use crate::kinds::{
    DataType, Mode, Mods, UserType, entries_view, is_present, is_scalar, mode_code, mode_name,
    mods_labels,
};
use crate::text::{decimal, decimal_of};

verus! {

/// A query pair as name and value text.
pub type Pair = (Seq<char>, Seq<char>);

/// View of exec query pairs.
pub open spec fn pairs_view(s: Seq<(&str, String)>) -> Seq<Pair> {
    s.map_values(|p: (&str, String)| (p.0@, p.1@))
}

/// Value texts that a parameter value contributes, in order.
pub open spec fn value_texts(d: DataType) -> Seq<Seq<char>> {
    match d {
        DataType::Int64(Some(i)) => seq![decimal_of(i as int)],
        DataType::Int32(Some(i)) => seq![decimal_of(i as int)],
        DataType::Int16(Some(i)) => seq![decimal_of(i as int)],
        DataType::Int8(Some(i)) => seq![decimal_of(i as int)],
        DataType::Mode(Some(m), by_name) => if by_name {
            seq![mode_name(m)]
        } else {
            seq![decimal_of(mode_code(m))]
        },
        DataType::String(Some(s)) => seq![s@],
        DataType::Mods(Some(v)) => mods_labels(v@),
        _ => Seq::empty(),
    }
}

/// Each value text paired with the name `k`.
pub open spec fn keyed(k: Seq<char>, vals: Seq<Seq<char>>) -> Seq<Pair> {
    vals.map_values(|v: Seq<char>| (k, v))
}

/// Pairs that a list of named parameters assembles to, in input order.
pub open spec fn assembled(data: Seq<(&str, DataType)>) -> Seq<Pair>
    decreases data.len(),
{
    if data.len() == 0 {
        Seq::empty()
    } else {
        assembled(data.drop_last()) + keyed(data.last().0@, value_texts(data.last().1))
    }
}

/// The two pairs that identify a user: `u` and the `type` discriminator.
pub open spec fn user_pairs(user: UserType) -> Seq<Pair> {
    match user {
        UserType::USERID(id) => seq![("u"@, decimal_of(id as int)), ("type"@, "id"@)],
        UserType::USERNAME(name) => seq![("u"@, name@), ("type"@, "string"@)],
    }
}

/// One legacy segment: `&name=value`, verbatim.
pub open spec fn segment(p: Pair) -> Seq<char> {
    "&"@ + p.0 + "="@ + p.1
}

/// The legacy fragment: the segments of all pairs, in order.
pub open spec fn fragment_of(pairs: Seq<Pair>) -> Seq<char>
    decreases pairs.len(),
{
    if pairs.len() == 0 {
        Seq::empty()
    } else {
        fragment_of(pairs.drop_last()) + segment(pairs.last())
    }
}

/// Appends the user's `u` and `type` pairs.
pub fn assembly_user_type<'a>(user: UserType<'a>, vec: &mut Vec<(&'a str, String)>)
    ensures
        pairs_view(final(vec)@) == pairs_view(old(vec)@) + user_pairs(user),
{
    let ghost start = old(vec)@;
    match user {
        UserType::USERID(id) => {
            vec.push(("u", decimal(id)));
            vec.push(("type", String::from_str("id")));
        },
        UserType::USERNAME(name) => {
            vec.push(("u", String::from_str(name)));
            vec.push(("type", String::from_str("string")));
        },
    }
    assert(pairs_view(vec@) == pairs_view(start) + user_pairs(user));
}

fn push_value<'a>(k: &'a str, d: &DataType, vec: &mut Vec<(&'a str, String)>)
    ensures
        pairs_view(final(vec)@) == pairs_view(old(vec)@) + keyed(k@, value_texts(*d)),
{
    let ghost start = old(vec)@;
    match d {
        DataType::Int64(Some(i)) => vec.push((k, decimal(*i))),
        DataType::Int32(Some(i)) => vec.push((k, decimal(*i as i64))),
        DataType::Int16(Some(i)) => vec.push((k, decimal(*i as i64))),
        DataType::Int8(Some(i)) => vec.push((k, decimal(*i as i64))),
        DataType::Mode(Some(m), by_name) => {
            let (name, code) = Mode::get_mode(m);
            if *by_name {
                vec.push((k, String::from_str(name)));
            } else {
                vec.push((k, decimal(code as i64)));
            }
        },
        DataType::String(Some(s)) => vec.push((k, String::from_str(s))),
        DataType::Mods(Some(ms)) => {
            let es = Mods::get_mods(ms);
            let ghost labels = mods_labels(ms@);
            assert(labels == entries_view(es@).map_values(|e: (int, Seq<char>)| e.1));
            let mut j: usize = 0;
            while j < es.len()
                invariant
                    j <= es@.len(),
                    labels.len() == es@.len(),
                    forall|x: int| 0 <= x < es@.len() ==> labels[x] == (#[trigger] es@[x]).1@,
                    pairs_view(vec@) == pairs_view(start) + keyed(k@, labels.subrange(0, j as int)),
                decreases es@.len() - j,
            {
                let ghost before = vec@;
                vec.push((k, String::from_str(es[j].1)));
                assert(labels.subrange(0, j + 1) == labels.subrange(0, j as int).push(labels[j as int]));
                assert(keyed(k@, labels.subrange(0, j + 1)) == keyed(k@, labels.subrange(0, j as int)).push((k@, labels[j as int])));
                assert(pairs_view(vec@) == pairs_view(before).push((k@, es@[j as int].1@)));
                j = j + 1;
            }
            assert(labels.subrange(0, es@.len() as int) == labels);
        },
        _ => {},
    }
    assert(pairs_view(vec@) == pairs_view(start) + keyed(k@, value_texts(*d)));
}

/// Appends one pair per present value, in input order; absent values add
/// nothing, a mod list adds one pair per label under the same name.
pub fn assembly_data<'a>(data: &[(&'a str, DataType<'a>)], vec: &mut Vec<(&'a str, String)>)
    ensures
        pairs_view(final(vec)@) == pairs_view(old(vec)@) + assembled(data@),
{
    let ghost start = old(vec)@;
    let mut i: usize = 0;
    while i < data.len()
        invariant
            i <= data@.len(),
            pairs_view(vec@) == pairs_view(start) + assembled(data@.subrange(0, i as int)),
        decreases data@.len() - i,
    {
        let ghost before = vec@;
        let entry = &data[i];
        push_value(entry.0, &entry.1, vec);
        assert(data@.subrange(0, i + 1).drop_last() == data@.subrange(0, i as int));
        i = i + 1;
    }
    assert(data@.subrange(0, data@.len() as int) == data@);
}

/// The legacy fragment of a list of pairs: `&name=value` for each, verbatim.
pub fn query_fragment(pairs: &Vec<(&str, String)>) -> (r: String)
    ensures
        r@ == fragment_of(pairs_view(pairs@)),
{
    let mut out = String::new();
    let mut i: usize = 0;
    proof {
        reveal_strlit("&");
        reveal_strlit("=");
    }
    while i < pairs.len()
        invariant
            i <= pairs@.len(),
            out@ == fragment_of(pairs_view(pairs@.subrange(0, i as int))),
        decreases pairs@.len() - i,
    {
        let p = &pairs[i];
        out.append("&");
        out.append(p.0);
        out.append("=");
        out.append(p.1.as_str());
        assert(pairs_view(pairs@.subrange(0, i + 1)).drop_last()
            == pairs_view(pairs@.subrange(0, i as int)));
        i = i + 1;
    }
    assert(pairs@.subrange(0, pairs@.len() as int) == pairs@);
    out
}

/// The legacy fragment of a list of named parameters: one `&name=value`
/// segment per present value, in input order.
pub fn url(vec: Vec<(&str, DataType)>) -> (r: String)
    ensures
        r@ == fragment_of(assembled(vec@)),
{
    let mut pairs: Vec<(&str, String)> = Vec::new();
    assembly_data(vec.as_slice(), &mut pairs);
    assert(pairs_view(pairs@) == assembled(vec@));
    query_fragment(&pairs)
}

/// Single text of a present single value.
pub open spec fn scalar_text(d: DataType) -> Seq<char> {
    value_texts(d)[0]
}

/// Presence alone decides output: an absent value gives no text, a present
/// single value gives exactly one, whatever the value (zero, an empty
/// string), and a present mod list gives one label per non-symbolic mod.
pub proof fn lemma_presence_decides(d: DataType)
    ensures
        !is_present(d) ==> value_texts(d).len() == 0,
        is_present(d) && is_scalar(d) ==> value_texts(d).len() == 1,
        d matches DataType::Mods(Some(v)) ==> value_texts(d) == mods_labels(v@),
{
}

/// Assembly keeps input order and emits exactly one pair per entry whose
/// single value is present (its name and text) and none per absent entry.
pub proof fn lemma_one_pair_per_present_entry(data: Seq<(&str, DataType)>)
    requires
        forall|i: int| 0 <= i < data.len() ==> is_scalar(#[trigger] data[i].1),
    ensures
        assembled(data) == data.filter(|e: (&str, DataType)| is_present(e.1)).map_values(
            |e: (&str, DataType)| (e.0@, scalar_text(e.1)),
        ),
    decreases data.len(),
{
    let p = |e: (&str, DataType)| is_present(e.1);
    let f = |e: (&str, DataType)| (e.0@, scalar_text(e.1));
    if data.len() > 0 {
        let rest = data.drop_last();
        assert forall|i: int| 0 <= i < rest.len() implies is_scalar(#[trigger] rest[i].1) by {
            assert(rest[i] == data[i]);
        }
        lemma_one_pair_per_present_entry(rest);
        let last = data.last();
        reveal_with_fuel(Seq::filter, 2);
        assert(is_scalar(data[data.len() - 1].1));
        lemma_presence_decides(last.1);
        if is_present(last.1) {
            assert(keyed(last.0@, value_texts(last.1)) == seq![f(last)]);
            assert(data.filter(p) == rest.filter(p).push(last));
            assert(data.filter(p).map_values(f) == rest.filter(p).map_values(f).push(f(last)));
        } else {
            assert(keyed(last.0@, value_texts(last.1)) =~= Seq::<Pair>::empty());
            assert(data.filter(p) == rest.filter(p));
        }
    }
}

/// The fragment of pairs assembled in two steps is the two fragments joined,
/// in assembly order.
pub proof fn lemma_fragment_concat(a: Seq<Pair>, b: Seq<Pair>)
    ensures
        fragment_of(a + b) == fragment_of(a) + fragment_of(b),
    decreases b.len(),
{
    if b.len() == 0 {
        assert(a + b == a);
        assert(fragment_of(b) == Seq::<char>::empty());
        assert(fragment_of(a) + fragment_of(b) == fragment_of(a));
    } else {
        assert((a + b).drop_last() == a + b.drop_last());
        assert((a + b).last() == b.last());
        lemma_fragment_concat(a, b.drop_last());
        assert(fragment_of(a + b) == fragment_of(a + b.drop_last()) + segment(b.last()));
        assert(fragment_of(a) + fragment_of(b) == fragment_of(a) + (fragment_of(b.drop_last())
            + segment(b.last())));
    }
}

/// Each entry contributes its own pairs, all under its name, and the entries'
/// contributions follow one another in input order.
pub proof fn lemma_each_entry_in_order(data: Seq<(&str, DataType)>)
    ensures
        assembled(data) == data.map_values(
            |e: (&str, DataType)| keyed(e.0@, value_texts(e.1)),
        ).flatten(),
    decreases data.len(),
{
    let f = |e: (&str, DataType)| keyed(e.0@, value_texts(e.1));
    if data.len() == 0 {
        assert(data.map_values(f) =~= Seq::<Seq<Pair>>::empty());
    } else {
        lemma_each_entry_in_order(data.drop_last());
        assert(data.map_values(f) =~= data.drop_last().map_values(f).push(f(data.last())));
        data.drop_last().map_values(f).lemma_flatten_push(f(data.last()));
    }
}

/// The legacy fragment is the `&name=value` segments of the pairs, joined in
/// order.
pub proof fn lemma_fragment_is_segments(pairs: Seq<Pair>)
    ensures
        fragment_of(pairs) == pairs.map_values(|p: Pair| segment(p)).flatten(),
    decreases pairs.len(),
{
    let g = |p: Pair| segment(p);
    if pairs.len() == 0 {
        assert(pairs.map_values(g) =~= Seq::<Seq<char>>::empty());
    } else {
        lemma_fragment_is_segments(pairs.drop_last());
        assert(pairs.map_values(g) =~= pairs.drop_last().map_values(g).push(g(pairs.last())));
        pairs.drop_last().map_values(g).lemma_flatten_push(g(pairs.last()));
    }
}

/// The legacy fragment of single values holds exactly one `&name=value`
/// segment per entry whose value is present, in input order, and nothing
/// for absent entries.
pub proof fn lemma_fragment_one_segment_per_present_entry(data: Seq<(&str, DataType)>)
    requires
        forall|i: int| 0 <= i < data.len() ==> is_scalar(#[trigger] data[i].1),
    ensures
        fragment_of(assembled(data)) == data.filter(|e: (&str, DataType)| is_present(e.1)).map_values(
            |e: (&str, DataType)| segment((e.0@, scalar_text(e.1))),
        ).flatten(),
{
    let p = |e: (&str, DataType)| is_present(e.1);
    let f = |e: (&str, DataType)| (e.0@, scalar_text(e.1));
    let g = |q: Pair| segment(q);
    let h = |e: (&str, DataType)| segment((e.0@, scalar_text(e.1)));
    lemma_one_pair_per_present_entry(data);
    lemma_fragment_is_segments(assembled(data));
    assert(data.filter(p).map_values(f).map_values(g) =~= data.filter(p).map_values(h));
}

} // verus!
