use vstd::prelude::*;
use vstd::string::*;
use crate::json::{JsonV, JsonValue, view_arr, view_obj};
use crate::types::{H2Setting, KeyShareCurve, DelegatedCredential, SignatureAlgorithm, SupportedVersion};

verus! {

/// One object member added at the end; keeps `view_obj` in step.
pub fn push_member(members: &mut Vec<(String, JsonValue)>, key: &str, val: JsonValue)
    ensures
        view_obj(final(members)@) == view_obj(old(members)@).push((key@, val@)),
{
    let k = key.to_owned();
    let ghost snap = members@;
    members.push((k, val));
    proof {
        assert(members@.drop_last() =~= snap);
    }
}

pub proof fn lemma_view_arr_push(items: Seq<JsonValue>, x: JsonValue)
    ensures
        view_arr(items.push(x)) == view_arr(items).push(x.view_rec()),
{
    assert(items.push(x).drop_last() =~= items);
}

/// A list of plain strings on the wire.
pub open spec fn enc_str_items(xs: Seq<Seq<char>>) -> Seq<JsonV> {
    xs.map(|i: int, s: Seq<char>| JsonV::Str(s))
}

pub open spec fn enc_str_list(xs: Seq<Seq<char>>) -> JsonV {
    JsonV::Arr(enc_str_items(xs))
}

/// A string-to-string mapping on the wire, members in stored order.
pub open spec fn enc_map_ss_members(ps: Seq<(Seq<char>, Seq<char>)>) -> Seq<(Seq<char>, JsonV)> {
    ps.map(|i: int, p: (Seq<char>, Seq<char>)| (p.0, JsonV::Str(p.1)))
}

pub open spec fn enc_map_ss(ps: Seq<(Seq<char>, Seq<char>)>) -> JsonV {
    JsonV::Obj(enc_map_ss_members(ps))
}

/// A string-to-string-list mapping on the wire, members in stored order.
pub open spec fn enc_map_sl_members(ps: Seq<(Seq<char>, Seq<Seq<char>>)>) -> Seq<(Seq<char>, JsonV)> {
    ps.map(|i: int, p: (Seq<char>, Seq<Seq<char>>)| (p.0, enc_str_list(p.1)))
}

pub open spec fn enc_map_sl(ps: Seq<(Seq<char>, Seq<Seq<char>>)>) -> JsonV {
    JsonV::Obj(enc_map_sl_members(ps))
}

/// HTTP/2 settings as an object keyed by setting name.
pub open spec fn enc_h2_map_members(ps: Seq<(H2Setting, u32)>) -> Seq<(Seq<char>, JsonV)> {
    ps.map(|i: int, p: (H2Setting, u32)| (p.0.wire_spec(), JsonV::UInt(p.1 as nat)))
}

pub open spec fn enc_h2_map(ps: Seq<(H2Setting, u32)>) -> JsonV {
    JsonV::Obj(enc_h2_map_members(ps))
}

pub fn j_str(s: &String) -> (r: JsonValue)
    ensures
        r@ == JsonV::Str(s@),
{
    JsonValue::Str(s.clone())
}

pub fn j_str_list(xs: &Vec<String>) -> (r: JsonValue)
    ensures
        r@ == enc_str_list(xs.deep_view()),
{
    let mut items: Vec<JsonValue> = Vec::new();
    let n: usize = xs.len();
    let mut i: usize = 0;
    while i < n
        invariant
            n == xs@.len(),
            0 <= i <= n,
            view_arr(items@) =~= enc_str_items(xs.deep_view().take(i as int)),
        decreases n - i,
    {
        let ghost snap = items@;
        items.push(JsonValue::Str(xs[i].clone()));
        proof {
            lemma_view_arr_push(snap, JsonValue::Str(xs@[i as int]));
            assert(xs.deep_view().take(i + 1) =~= xs.deep_view().take(i as int).push(xs@[i as int]@));
            assert(enc_str_items(xs.deep_view().take(i + 1)) =~=
                enc_str_items(xs.deep_view().take(i as int)).push(JsonV::Str(xs@[i as int]@)));
        }
        i = i + 1;
    }
    proof {
        assert(xs.deep_view().take(n as int) =~= xs.deep_view());
    }
    JsonValue::Arr(items)
}

pub fn j_map_ss(ps: &Vec<(String, String)>) -> (r: JsonValue)
    ensures
        r@ == enc_map_ss(ps.deep_view()),
{
    let mut members: Vec<(String, JsonValue)> = Vec::new();
    let n: usize = ps.len();
    let mut i: usize = 0;
    while i < n
        invariant
            n == ps@.len(),
            0 <= i <= n,
            view_obj(members@) =~= enc_map_ss_members(ps.deep_view().take(i as int)),
        decreases n - i,
    {
        let ghost snap = members@;
        let key = ps[i].0.clone();
        let val = JsonValue::Str(ps[i].1.clone());
        let ghost gk = key@;
        let ghost gv = val@;
        members.push((key, val));
        proof {
            assert(members@.drop_last() =~= snap);
            assert(ps.deep_view().take(i + 1) =~=
                ps.deep_view().take(i as int).push((ps@[i as int].0@, ps@[i as int].1@)));
            assert(enc_map_ss_members(ps.deep_view().take(i + 1)) =~=
                enc_map_ss_members(ps.deep_view().take(i as int)).push(
                    (ps@[i as int].0@, JsonV::Str(ps@[i as int].1@))));
        }
        i = i + 1;
    }
    proof {
        assert(ps.deep_view().take(n as int) =~= ps.deep_view());
    }
    JsonValue::Obj(members)
}

pub fn j_map_sl(ps: &Vec<(String, Vec<String>)>) -> (r: JsonValue)
    ensures
        r@ == enc_map_sl(ps.deep_view()),
{
    let mut members: Vec<(String, JsonValue)> = Vec::new();
    let n: usize = ps.len();
    let mut i: usize = 0;
    while i < n
        invariant
            n == ps@.len(),
            0 <= i <= n,
            view_obj(members@) =~= enc_map_sl_members(ps.deep_view().take(i as int)),
        decreases n - i,
    {
        let ghost snap = members@;
        let key = ps[i].0.clone();
        let val = j_str_list(&ps[i].1);
        let ghost gk = key@;
        let ghost gv = val@;
        members.push((key, val));
        proof {
            assert(members@.drop_last() =~= snap);
            assert(ps.deep_view().take(i + 1) =~=
                ps.deep_view().take(i as int).push((ps@[i as int].0@, ps@[i as int].1.deep_view())));
            assert(enc_map_sl_members(ps.deep_view().take(i + 1)) =~=
                enc_map_sl_members(ps.deep_view().take(i as int)).push(
                    (ps@[i as int].0@, enc_str_list(ps@[i as int].1.deep_view()))));
        }
        i = i + 1;
    }
    proof {
        assert(ps.deep_view().take(n as int) =~= ps.deep_view());
    }
    JsonValue::Obj(members)
}

pub fn j_h2_map(ps: &Vec<(H2Setting, u32)>) -> (r: JsonValue)
    ensures
        r@ == enc_h2_map(ps@),
{
    let mut members: Vec<(String, JsonValue)> = Vec::new();
    let n: usize = ps.len();
    let mut i: usize = 0;
    while i < n
        invariant
            n == ps@.len(),
            0 <= i <= n,
            view_obj(members@) =~= enc_h2_map_members(ps@.take(i as int)),
        decreases n - i,
    {
        let ghost snap = members@;
        let key = ps[i].0.wire_name().to_owned();
        let val = JsonValue::UInt(ps[i].1 as u64);
        let ghost gk = key@;
        let ghost gv = val@;
        members.push((key, val));
        proof {
            assert(members@.drop_last() =~= snap);
            assert(ps@.take(i + 1) =~= ps@.take(i as int).push(ps@[i as int]));
            assert(enc_h2_map_members(ps@.take(i + 1)) =~=
                enc_h2_map_members(ps@.take(i as int)).push(
                    (ps@[i as int].0.wire_spec(), JsonV::UInt(ps@[i as int].1 as nat))));
        }
        i = i + 1;
    }
    proof {
        assert(ps@.take(n as int) =~= ps@);
    }
    JsonValue::Obj(members)
}

/// A list of HTTP/2 setting names on the wire: each value written under its catalog name.
pub open spec fn enc_h2_list_items(xs: Seq<H2Setting>) -> Seq<JsonV> {
    xs.map(|i: int, e: H2Setting| JsonV::Str(e.wire_spec()))
}

pub open spec fn enc_h2_list(xs: Seq<H2Setting>) -> JsonV {
    JsonV::Arr(enc_h2_list_items(xs))
}

pub fn j_h2_list(xs: &Vec<H2Setting>) -> (r: JsonValue)
    ensures
        r@ == enc_h2_list(xs@),
{
    let mut items: Vec<JsonValue> = Vec::new();
    let n: usize = xs.len();
    let mut i: usize = 0;
    while i < n
        invariant
            n == xs@.len(),
            0 <= i <= n,
            view_arr(items@) =~= enc_h2_list_items(xs@.take(i as int)),
        decreases n - i,
    {
        let ghost snap = items@;
        let val = JsonValue::Str(xs[i].wire_name().to_owned());
        let ghost gv = val@;
        items.push(val);
        proof {
            assert(items@.drop_last() =~= snap);
            assert(view_arr(items@) =~= view_arr(snap).push(gv));
            assert(gv == JsonV::Str(xs@[i as int].wire_spec()));
            assert(xs@.take(i + 1) =~= xs@.take(i as int).push(xs@[i as int]));
            assert(enc_h2_list_items(xs@.take(i + 1)) =~=
                enc_h2_list_items(xs@.take(i as int)).push(JsonV::Str(xs@[i as int].wire_spec())));
        }
        i = i + 1;
    }
    proof {
        assert(xs@.take(n as int) =~= xs@);
    }
    JsonValue::Arr(items)
}

/// A list of key-share curve names on the wire: each value written under its catalog name.
pub open spec fn enc_curve_list_items(xs: Seq<KeyShareCurve>) -> Seq<JsonV> {
    xs.map(|i: int, e: KeyShareCurve| JsonV::Str(e.wire_spec()))
}

pub open spec fn enc_curve_list(xs: Seq<KeyShareCurve>) -> JsonV {
    JsonV::Arr(enc_curve_list_items(xs))
}

pub fn j_curve_list(xs: &Vec<KeyShareCurve>) -> (r: JsonValue)
    ensures
        r@ == enc_curve_list(xs@),
{
    let mut items: Vec<JsonValue> = Vec::new();
    let n: usize = xs.len();
    let mut i: usize = 0;
    while i < n
        invariant
            n == xs@.len(),
            0 <= i <= n,
            view_arr(items@) =~= enc_curve_list_items(xs@.take(i as int)),
        decreases n - i,
    {
        let ghost snap = items@;
        let val = JsonValue::Str(xs[i].wire_name().to_owned());
        let ghost gv = val@;
        items.push(val);
        proof {
            assert(items@.drop_last() =~= snap);
            assert(view_arr(items@) =~= view_arr(snap).push(gv));
            assert(gv == JsonV::Str(xs@[i as int].wire_spec()));
            assert(xs@.take(i + 1) =~= xs@.take(i as int).push(xs@[i as int]));
            assert(enc_curve_list_items(xs@.take(i + 1)) =~=
                enc_curve_list_items(xs@.take(i as int)).push(JsonV::Str(xs@[i as int].wire_spec())));
        }
        i = i + 1;
    }
    proof {
        assert(xs@.take(n as int) =~= xs@);
    }
    JsonValue::Arr(items)
}

/// A list of delegated-credential scheme names on the wire: each value written under its catalog name.
pub open spec fn enc_deleg_list_items(xs: Seq<DelegatedCredential>) -> Seq<JsonV> {
    xs.map(|i: int, e: DelegatedCredential| JsonV::Str(e.wire_spec()))
}

pub open spec fn enc_deleg_list(xs: Seq<DelegatedCredential>) -> JsonV {
    JsonV::Arr(enc_deleg_list_items(xs))
}

pub fn j_deleg_list(xs: &Vec<DelegatedCredential>) -> (r: JsonValue)
    ensures
        r@ == enc_deleg_list(xs@),
{
    let mut items: Vec<JsonValue> = Vec::new();
    let n: usize = xs.len();
    let mut i: usize = 0;
    while i < n
        invariant
            n == xs@.len(),
            0 <= i <= n,
            view_arr(items@) =~= enc_deleg_list_items(xs@.take(i as int)),
        decreases n - i,
    {
        let ghost snap = items@;
        let val = JsonValue::Str(xs[i].wire_name().to_owned());
        let ghost gv = val@;
        items.push(val);
        proof {
            assert(items@.drop_last() =~= snap);
            assert(view_arr(items@) =~= view_arr(snap).push(gv));
            assert(gv == JsonV::Str(xs@[i as int].wire_spec()));
            assert(xs@.take(i + 1) =~= xs@.take(i as int).push(xs@[i as int]));
            assert(enc_deleg_list_items(xs@.take(i + 1)) =~=
                enc_deleg_list_items(xs@.take(i as int)).push(JsonV::Str(xs@[i as int].wire_spec())));
        }
        i = i + 1;
    }
    proof {
        assert(xs@.take(n as int) =~= xs@);
    }
    JsonValue::Arr(items)
}

/// A list of signature scheme names on the wire: each value written under its catalog name.
pub open spec fn enc_sig_list_items(xs: Seq<SignatureAlgorithm>) -> Seq<JsonV> {
    xs.map(|i: int, e: SignatureAlgorithm| JsonV::Str(e.wire_spec()))
}

pub open spec fn enc_sig_list(xs: Seq<SignatureAlgorithm>) -> JsonV {
    JsonV::Arr(enc_sig_list_items(xs))
}

pub fn j_sig_list(xs: &Vec<SignatureAlgorithm>) -> (r: JsonValue)
    ensures
        r@ == enc_sig_list(xs@),
{
    let mut items: Vec<JsonValue> = Vec::new();
    let n: usize = xs.len();
    let mut i: usize = 0;
    while i < n
        invariant
            n == xs@.len(),
            0 <= i <= n,
            view_arr(items@) =~= enc_sig_list_items(xs@.take(i as int)),
        decreases n - i,
    {
        let ghost snap = items@;
        let val = JsonValue::Str(xs[i].wire_name().to_owned());
        let ghost gv = val@;
        items.push(val);
        proof {
            assert(items@.drop_last() =~= snap);
            assert(view_arr(items@) =~= view_arr(snap).push(gv));
            assert(gv == JsonV::Str(xs@[i as int].wire_spec()));
            assert(xs@.take(i + 1) =~= xs@.take(i as int).push(xs@[i as int]));
            assert(enc_sig_list_items(xs@.take(i + 1)) =~=
                enc_sig_list_items(xs@.take(i as int)).push(JsonV::Str(xs@[i as int].wire_spec())));
        }
        i = i + 1;
    }
    proof {
        assert(xs@.take(n as int) =~= xs@);
    }
    JsonValue::Arr(items)
}

/// A list of TLS version tags on the wire: each value written under its catalog name.
pub open spec fn enc_version_list_items(xs: Seq<SupportedVersion>) -> Seq<JsonV> {
    xs.map(|i: int, e: SupportedVersion| JsonV::Str(e.wire_spec()))
}

pub open spec fn enc_version_list(xs: Seq<SupportedVersion>) -> JsonV {
    JsonV::Arr(enc_version_list_items(xs))
}

pub fn j_version_list(xs: &Vec<SupportedVersion>) -> (r: JsonValue)
    ensures
        r@ == enc_version_list(xs@),
{
    let mut items: Vec<JsonValue> = Vec::new();
    let n: usize = xs.len();
    let mut i: usize = 0;
    while i < n
        invariant
            n == xs@.len(),
            0 <= i <= n,
            view_arr(items@) =~= enc_version_list_items(xs@.take(i as int)),
        decreases n - i,
    {
        let ghost snap = items@;
        let val = JsonValue::Str(xs[i].wire_name().to_owned());
        let ghost gv = val@;
        items.push(val);
        proof {
            assert(items@.drop_last() =~= snap);
            assert(view_arr(items@) =~= view_arr(snap).push(gv));
            assert(gv == JsonV::Str(xs@[i as int].wire_spec()));
            assert(xs@.take(i + 1) =~= xs@.take(i as int).push(xs@[i as int]));
            assert(enc_version_list_items(xs@.take(i + 1)) =~=
                enc_version_list_items(xs@.take(i as int)).push(JsonV::Str(xs@[i as int].wire_spec())));
        }
        i = i + 1;
    }
    proof {
        assert(xs@.take(n as int) =~= xs@);
    }
    JsonValue::Arr(items)
}

/// The stored sequence of an optional vector, element values unchanged.
pub open spec fn opt_view<T>(o: Option<Vec<T>>) -> Option<Seq<T>> {
    match o {
        Option::Some(v) => Option::Some(v@),
        Option::None => Option::None,
    }
}

/// Whether a pair list binds each key at most once. The wire carries members
/// in stored order and writes whatever it is given: a caller that needs the
/// one-binding-per-key discipline of a plain map states this of its input.
pub open spec fn unique_keys(ps: Seq<(Seq<char>, Seq<char>)>) -> bool {
    forall|i: int, j: int| 0 <= i < j < ps.len() ==> (#[trigger] ps[i]).0 != (#[trigger] ps[j]).0
}

/// One optional object member: present fields give a singleton, absent ones nothing.
pub open spec fn opt_member(key: Seq<char>, v: Option<JsonV>) -> Seq<(Seq<char>, JsonV)> {
    match v {
        Option::Some(j) => seq![(key, j)],
        Option::None => Seq::empty(),
    }
}

/// A fresh vector with the same elements.
pub fn dup_copy_vec<T: Copy>(v: &Vec<T>) -> (r: Vec<T>)
    ensures
        r@ == v@,
{
    let mut r: Vec<T> = Vec::new();
    let n: usize = v.len();
    let mut i: usize = 0;
    while i < n
        invariant
            n == v@.len(),
            0 <= i <= n,
            r@ =~= v@.take(i as int),
        decreases n - i,
    {
        r.push(v[i]);
        proof {
            assert(v@.take(i + 1) =~= v@.take(i as int).push(v@[i as int]));
        }
        i = i + 1;
    }
    proof {
        assert(v@.take(n as int) =~= v@);
    }
    r
}

/// A fresh vector of equal strings.
pub fn dup_string_vec(v: &Vec<String>) -> (r: Vec<String>)
    ensures
        r.deep_view() == v.deep_view(),
{
    let mut r: Vec<String> = Vec::new();
    let n: usize = v.len();
    let mut i: usize = 0;
    while i < n
        invariant
            n == v@.len(),
            0 <= i <= n,
            r.deep_view() =~= v.deep_view().take(i as int),
        decreases n - i,
    {
        r.push(v[i].clone());
        proof {
            assert(r.deep_view().drop_last() =~= v.deep_view().take(i as int));
            assert(r.deep_view() =~= v.deep_view().take(i + 1));
        }
        i = i + 1;
    }
    proof {
        assert(v.deep_view().take(n as int) =~= v.deep_view());
    }
    r
}

/// A fresh vector of equal string pairs.
pub fn dup_pair_vec(v: &Vec<(String, String)>) -> (r: Vec<(String, String)>)
    ensures
        r.deep_view() == v.deep_view(),
{
    let mut r: Vec<(String, String)> = Vec::new();
    let n: usize = v.len();
    let mut i: usize = 0;
    while i < n
        invariant
            n == v@.len(),
            0 <= i <= n,
            r.deep_view() =~= v.deep_view().take(i as int),
        decreases n - i,
    {
        r.push((v[i].0.clone(), v[i].1.clone()));
        proof {
            assert(r.deep_view().drop_last() =~= v.deep_view().take(i as int));
            assert(r.deep_view() =~= v.deep_view().take(i + 1));
        }
        i = i + 1;
    }
    proof {
        assert(v.deep_view().take(n as int) =~= v.deep_view());
    }
    r
}

/// A fresh vector of equal name-to-string-list pairs.
pub fn dup_pairlist_vec(v: &Vec<(String, Vec<String>)>) -> (r: Vec<(String, Vec<String>)>)
    ensures
        r.deep_view() == v.deep_view(),
{
    let mut r: Vec<(String, Vec<String>)> = Vec::new();
    let n: usize = v.len();
    let mut i: usize = 0;
    while i < n
        invariant
            n == v@.len(),
            0 <= i <= n,
            r.deep_view() =~= v.deep_view().take(i as int),
        decreases n - i,
    {
        r.push((v[i].0.clone(), dup_string_vec(&v[i].1)));
        proof {
            assert(r.deep_view().drop_last() =~= v.deep_view().take(i as int));
            assert(r.deep_view() =~= v.deep_view().take(i + 1));
        }
        i = i + 1;
    }
    proof {
        assert(v.deep_view().take(n as int) =~= v.deep_view());
    }
    r
}

} // verus!
