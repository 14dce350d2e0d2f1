//! The tags of a metric data point: its resource's attributes under a
//! `resource.` prefix, then its own attributes, a later key replacing an
//! earlier one.

use vstd::prelude::*;
use crate::text::str_equals;

verus! {

/// An attribute as a tag reads it: its key, and its value as tag text (a
/// string value itself, any other value as JSON text), or `None` when the
/// value is JSON null and gives no tag.
#[derive(Debug, Clone)]
pub struct TagSource {
    pub key: String,
    pub text: Option<String>,
}

/// The map that a list of pairs builds when each pair is inserted in turn.
pub open spec fn pairs_map(v: Seq<(String, String)>) -> Map<Seq<char>, Seq<char>>
    decreases v.len(),
{
    if v.len() == 0 {
        Map::empty()
    } else {
        pairs_map(v.drop_last()).insert(v.last().0@, v.last().1@)
    }
}

/// No key occurs twice.
pub open spec fn distinct_keys(v: Seq<(String, String)>) -> bool {
    forall|i: int, j: int| 0 <= i < j < v.len() ==> v[i].0@ != v[j].0@
}

/// `m` with each attribute of `attrs` that gives a tag inserted in turn,
/// under `prefix` followed by its key.
pub open spec fn insert_tags(
    m: Map<Seq<char>, Seq<char>>,
    prefix: Seq<char>,
    attrs: Seq<TagSource>,
) -> Map<Seq<char>, Seq<char>>
    decreases attrs.len(),
{
    if attrs.len() == 0 {
        m
    } else {
        let before = insert_tags(m, prefix, attrs.drop_last());
        match attrs.last().text {
            Some(t) => before.insert(prefix + attrs.last().key@, t@),
            None => before,
        }
    }
}

/// The tags of a data point with attributes `attrs`, whose resource, if any,
/// has attributes `resource`.
pub open spec fn tag_map(attrs: Seq<TagSource>, resource: Option<Seq<TagSource>>) -> Map<
    Seq<char>,
    Seq<char>,
> {
    let base = match resource {
        Some(r) => insert_tags(Map::empty(), "resource."@, r),
        None => Map::empty(),
    };
    insert_tags(base, Seq::empty(), attrs)
}

/// Replacing the value of a key that occurs once changes only that key.
proof fn lemma_pairs_map_update(v: Seq<(String, String)>, j: int, p: (String, String))
    requires
        distinct_keys(v),
        0 <= j < v.len(),
        v[j].0@ == p.0@,
    ensures
        pairs_map(v.update(j, p)) == pairs_map(v).insert(p.0@, p.1@),
    decreases v.len(),
{
    let w = v.update(j, p);
    if j == v.len() - 1 {
        assert(w.drop_last() == v.drop_last());
        assert(pairs_map(w) =~= pairs_map(v).insert(p.0@, p.1@));
    } else {
        assert(w.drop_last() == v.drop_last().update(j, p));
        lemma_pairs_map_update(v.drop_last(), j, p);
        assert(v.last().0@ != p.0@);
        assert(pairs_map(w) =~= pairs_map(v).insert(p.0@, p.1@));
    }
}

/// Insert `key` with `value` into `out`, replacing the value of an equal
/// key.
fn put_tag(out: &mut Vec<(String, String)>, key: String, value: String)
    requires
        distinct_keys(old(out)@),
    ensures
        distinct_keys(final(out)@),
        pairs_map(final(out)@) == pairs_map(old(out)@).insert(key@, value@),
{
    let n = out.len();
    let mut i: usize = 0;
    while i < n
        invariant
            n == out@.len(),
            i <= n,
            out@ == old(out)@,
            distinct_keys(out@),
            forall|j: int| 0 <= j < i ==> out@[j].0@ != key@,
        decreases n - i,
    {
        if str_equals(out[i].0.as_str(), key.as_str()) {
            proof {
                lemma_pairs_map_update(out@, i as int, (key, value));
            }
            let ghost before = out@;
            out.set(i, (key, value));
            assert(out@ == before.update(i as int, (key, value)));
            assert(distinct_keys(out@)) by {
                assert forall|a: int, b: int| 0 <= a < b < out@.len() implies out@[a].0@ != out@[b].0@ by {
                    assert(out@[a].0@ == before[a].0@);
                    assert(out@[b].0@ == before[b].0@);
                }
            }
            return;
        }
        i = i + 1;
    }
    let ghost before = out@;
    out.push((key, value));
    assert(out@.drop_last() == before);
    assert(distinct_keys(out@)) by {
        assert forall|a: int, b: int| 0 <= a < b < out@.len() implies out@[a].0@ != out@[b].0@ by {
            if b < n {
                assert(out@[a] == before[a] && out@[b] == before[b]);
            } else {
                assert(out@[a] == before[a]);
            }
        }
    }
}

/// Insert the tags of `attrs`, each key after `prefix`.
fn put_tags(out: &mut Vec<(String, String)>, prefix: &str, attrs: &Vec<TagSource>)
    requires
        distinct_keys(old(out)@),
    ensures
        distinct_keys(final(out)@),
        pairs_map(final(out)@) == insert_tags(pairs_map(old(out)@), prefix@, attrs@),
{
    let n = attrs.len();
    for i in 0..n
        invariant
            n == attrs@.len(),
            distinct_keys(out@),
            pairs_map(out@) == insert_tags(pairs_map(old(out)@), prefix@, attrs@.take(i as int)),
    {
        assert(attrs@.take(i + 1).drop_last() == attrs@.take(i as int));
        let attr = &attrs[i];
        match &attr.text {
            Some(t) => {
                let key = prefix.to_string().concat(attr.key.as_str());
                put_tag(out, key, t.clone());
            },
            None => {},
        }
    }
    assert(attrs@.take(n as int) == attrs@);
}

/// The tags of a data point: each key once, with the value that the last
/// attribute of that key gives.
pub fn extract_tags(attrs: &Vec<TagSource>, resource: Option<&Vec<TagSource>>) -> (r: Vec<
    (String, String),
>)
    ensures
        distinct_keys(r@),
        pairs_map(r@) == tag_map(
            attrs@,
            match resource {
                Some(v) => Some(v@),
                None => None,
            },
        ),
{
    let mut out: Vec<(String, String)> = Vec::new();
    let ghost base = match resource {
        Some(r) => insert_tags(Map::empty(), "resource."@, r@),
        None => Map::<Seq<char>, Seq<char>>::empty(),
    };
    assert(pairs_map(out@) == Map::<Seq<char>, Seq<char>>::empty());
    if let Some(res) = resource {
        put_tags(&mut out, "resource.", res);
    }
    assert(pairs_map(out@) == base);
    put_tags(&mut out, "", attrs);
    proof {
        reveal_strlit("");
        assert(""@ =~= Seq::<char>::empty());
    }
    out
}

} // verus!
