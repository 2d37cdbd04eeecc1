//! Formatting of lights and groups into table rows of plain strings. The
//! terminal table itself is drawn by the unverified shell; every cell's text
//! is produced and pinned down here.

use vstd::prelude::*;
use vstd::string::StringExecFns;

use crate::light::{Group, Light};
use crate::order::{lex_le, sort_by_key, sorted_by_key, Identified};

verus! {

/// `yes` for true, `no` for false.
pub open spec fn spec_yes_no(b: bool) -> Seq<char> {
    if b {
        "yes"@
    } else {
        "no"@
    }
}

/// `yes` or `no` when the on/off state is known, `-` when it is not.
pub open spec fn spec_on_cell(on: Option<bool>) -> Seq<char> {
    match on {
        Some(b) => spec_yes_no(b),
        None => "-"@,
    }
}

pub fn yes_no(b: bool) -> (r: String)
    ensures
        r@ == spec_yes_no(b),
{
    if b {
        String::from_str("yes")
    } else {
        String::from_str("no")
    }
}

pub fn on_cell(on: Option<bool>) -> (r: String)
    ensures
        r@ == spec_on_cell(on),
{
    match on {
        Some(b) => yes_no(b),
        None => String::from_str("-"),
    }
}

/// The table row shown for one light: identifier, name, reachability,
/// on/off state.
pub open spec fn spec_light_row(l: Light) -> Seq<Seq<char>> {
    seq![l.id@, l.name@, spec_yes_no(l.reachable), spec_on_cell(l.on)]
}

pub fn light_row(l: &Light) -> (r: Vec<String>)
    ensures
        r.deep_view() == spec_light_row(*l),
{
    let mut r: Vec<String> = Vec::new();
    r.push(l.id.clone());
    r.push(l.name.clone());
    r.push(yes_no(l.reachable));
    r.push(on_cell(l.on));
    proof {
        assert(r.deep_view() =~= spec_light_row(*l));
    }
    r
}

/// The rows of the `list` table: one row per light, sorted ascending by
/// light identifier whatever order the bridge returned.
pub fn list_rows(lights: Vec<Light>) -> (r: Vec<Vec<String>>)
    ensures
        r@.len() == lights@.len(),
        forall|i: int, j: int|
            0 <= i < j < r@.len() ==> lex_le(r.deep_view()[i][0], r.deep_view()[j][0]),
        exists|s: Seq<Light>|
            (s.to_multiset() =~= lights@.to_multiset() && sorted_by_key(s) && r.deep_view()
                =~= s.map_values(|l: Light| spec_light_row(l))),
{
    broadcast use vstd::seq_lib::group_to_multiset_ensures;

    let sorted = sort_by_key(lights);
    let ghost s = sorted@;
    let mut r: Vec<Vec<String>> = Vec::new();
    let mut i: usize = 0;
    while i < sorted.len()
        invariant
            i <= sorted@.len(),
            sorted@ == s,
            r@.len() == i,
            forall|k: int| 0 <= k < i ==> #[trigger] r@[k].deep_view() == spec_light_row(s[k]),
        decreases sorted@.len() - i,
    {
        r.push(light_row(&sorted[i]));
        i = i + 1;
    }
    proof {
        assert(r.deep_view() =~= s.map_values(|l: Light| spec_light_row(l)));
        assert forall|i: int, j: int| 0 <= i < j < r@.len() implies lex_le(
            r.deep_view()[i][0],
            r.deep_view()[j][0],
        ) by {
            assert(r.deep_view()[i][0] == s[i].sort_key());
            assert(r.deep_view()[j][0] == s[j].sort_key());
        }
        assert(s.to_multiset() =~= lights@.to_multiset());
    }
    r
}

/// The member light identifiers of a group, joined with commas, in the
/// order the bridge gave them.
pub open spec fn spec_join_comma(ids: Seq<Seq<char>>) -> Seq<char>
    decreases ids.len(),
{
    if ids.len() == 0 {
        Seq::empty()
    } else if ids.len() == 1 {
        ids[0]
    } else {
        ids[0] + ","@ + spec_join_comma(ids.skip(1))
    }
}

pub proof fn lemma_join_comma_push(s: Seq<Seq<char>>, x: Seq<char>)
    requires
        s.len() >= 1,
    ensures
        spec_join_comma(s.push(x)) == spec_join_comma(s) + ","@ + x,
    decreases s.len(),
{
    let t = s.push(x);
    if s.len() == 1 {
        assert(t.skip(1) =~= seq![x]);
        assert(spec_join_comma(seq![x]) == x);
        assert(spec_join_comma(t) == t[0] + ","@ + spec_join_comma(t.skip(1)));
        assert(spec_join_comma(s) == s[0]);
        assert(t[0] == s[0]);
    } else {
        assert(t.skip(1) =~= s.skip(1).push(x));
        lemma_join_comma_push(s.skip(1), x);
        assert(spec_join_comma(t) == t[0] + ","@ + spec_join_comma(t.skip(1)));
        assert(spec_join_comma(t.skip(1)) == spec_join_comma(s.skip(1)) + ","@ + x);
        assert(spec_join_comma(s) == s[0] + ","@ + spec_join_comma(s.skip(1)));
        assert(t[0] == s[0]);
        assert(spec_join_comma(t) =~= spec_join_comma(s) + ","@ + x);
    }
}

pub fn join_comma(ids: &Vec<String>) -> (r: String)
    ensures
        r@ == spec_join_comma(ids.deep_view()),
{
    let ghost dv = ids.deep_view();
    let mut r = String::new();
    let mut i: usize = 0;
    while i < ids.len()
        invariant
            i <= ids@.len(),
            dv == ids.deep_view(),
            dv.len() == ids@.len(),
            r@ == spec_join_comma(dv.take(i as int)),
        decreases ids@.len() - i,
    {
        if i > 0 {
            r.append(",");
            proof {
                lemma_join_comma_push(dv.take(i as int), dv[i as int]);
            }
        }
        r.append(ids[i].as_str());
        proof {
            assert(dv.take(i + 1) =~= dv.take(i as int).push(dv[i as int]));
            if i == 0 {
                assert(spec_join_comma(dv.take(1)) == dv.take(1)[0]);
                assert(r@ =~= dv[0]);
            }
        }
        i = i + 1;
    }
    proof {
        assert(dv.take(ids@.len() as int) =~= dv);
    }
    r
}

/// The table row shown for one group: identifier, name, and the comma-joined
/// member light identifiers.
pub open spec fn spec_group_row(g: Group) -> Seq<Seq<char>> {
    seq![g.id@, g.name@, spec_join_comma(g.lights.deep_view())]
}

pub fn group_row(g: &Group) -> (r: Vec<String>)
    ensures
        r.deep_view() == spec_group_row(*g),
{
    let mut r: Vec<String> = Vec::new();
    r.push(g.id.clone());
    r.push(g.name.clone());
    r.push(join_comma(&g.lights));
    proof {
        assert(r.deep_view() =~= spec_group_row(*g));
    }
    r
}

/// The rows of the `list-groups` table: one row per group, sorted ascending
/// by group identifier whatever order the bridge returned.
pub fn group_rows(groups: Vec<Group>) -> (r: Vec<Vec<String>>)
    ensures
        r@.len() == groups@.len(),
        forall|i: int, j: int|
            0 <= i < j < r@.len() ==> lex_le(r.deep_view()[i][0], r.deep_view()[j][0]),
        exists|s: Seq<Group>|
            (s.to_multiset() =~= groups@.to_multiset() && sorted_by_key(s) && r.deep_view()
                =~= s.map_values(|g: Group| spec_group_row(g))),
{
    broadcast use vstd::seq_lib::group_to_multiset_ensures;

    let sorted = sort_by_key(groups);
    let ghost s = sorted@;
    let mut r: Vec<Vec<String>> = Vec::new();
    let mut i: usize = 0;
    while i < sorted.len()
        invariant
            i <= sorted@.len(),
            sorted@ == s,
            r@.len() == i,
            forall|k: int| 0 <= k < i ==> #[trigger] r@[k].deep_view() == spec_group_row(s[k]),
        decreases sorted@.len() - i,
    {
        r.push(group_row(&sorted[i]));
        i = i + 1;
    }
    proof {
        assert(r.deep_view() =~= s.map_values(|g: Group| spec_group_row(g)));
        assert forall|i: int, j: int| 0 <= i < j < r@.len() implies lex_le(
            r.deep_view()[i][0],
            r.deep_view()[j][0],
        ) by {
            assert(r.deep_view()[i][0] == s[i].sort_key());
            assert(r.deep_view()[j][0] == s[j].sort_key());
        }
        assert(s.to_multiset() =~= groups@.to_multiset());
    }
    r
}

} // verus!
