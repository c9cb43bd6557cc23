use vstd::prelude::*;
use crate::json::JsonV;
use crate::schema::{opt_member, enc_str_list, enc_map_ss, enc_map_sl, enc_h2_map, enc_h2_list, enc_curve_list, enc_deleg_list, enc_sig_list, enc_version_list, enc_str_items, enc_map_ss_members, enc_map_sl_members, enc_h2_map_members, enc_h2_list_items, enc_curve_list_items, enc_deleg_list_items, enc_sig_list_items, enc_version_list_items};
use crate::client::{CustomV, enc_custom, custom_members, enc_priority, enc_frame, enc_frames, enc_suite, enc_suites, enc_frame_items, enc_suite_items, priority_members, frame_members, suite_members, PriorityParam, PriorityFrames, CandidateCipherSuite};
use crate::types::{ClientIdentifier, H2Setting, KeyShareCurve, DelegatedCredential, SignatureAlgorithm, SupportedVersion, KdfId, AeadId};
use crate::response::{dec_str_list, dec_map_ss, dec_map_sl, str_items_val, all_str};
use crate::request::{PayloadV, payload_members, enc_payload, enc_transport, TransportOptions, transport_members};

verus! {

/// The keys of a field list, in order.
pub open spec fn keys_of(fs: Seq<(Seq<char>, Option<JsonV>)>) -> Seq<Seq<char>> {
    fs.map(|i: int, f: (Seq<char>, Option<JsonV>)| f.0)
}

/// The optional values of a field list, in order.
pub open spec fn vals_of(fs: Seq<(Seq<char>, Option<JsonV>)>) -> Seq<Option<JsonV>> {
    fs.map(|i: int, f: (Seq<char>, Option<JsonV>)| f.1)
}

/// The wire members a field list produces: present fields only, in order.
pub open spec fn render_fl(fs: Seq<(Seq<char>, Option<JsonV>)>) -> Seq<(Seq<char>, JsonV)>
    decreases fs,
{
    if fs.len() == 0 {
        Seq::empty()
    } else {
        opt_member(fs[0].0, fs[0].1) + render_fl(fs.drop_first())
    }
}

/// Splits an object's members along a key schema: for each key in order, the
/// member under it if it stands next, and what is left after all keys.
pub open spec fn decode_fl(ms: Seq<(Seq<char>, JsonV)>, keys: Seq<Seq<char>>) -> (Seq<Option<JsonV>>, Seq<(Seq<char>, JsonV)>)
    decreases keys,
{
    if keys.len() == 0 {
        (Seq::empty(), ms)
    } else if ms.len() > 0 && ms[0].0 == keys[0] {
        let pr = decode_fl(ms.drop_first(), keys.drop_first());
        (seq![Some(ms[0].1)] + pr.0, pr.1)
    } else {
        let pr = decode_fl(ms, keys.drop_first());
        (seq![Option::<JsonV>::None] + pr.0, pr.1)
    }
}

pub open spec fn distinct_keys(fs: Seq<(Seq<char>, Option<JsonV>)>) -> bool {
    forall|i: int, j: int| 0 <= i < j < fs.len() ==> (#[trigger] fs[i]).0 != (#[trigger] fs[j]).0
}

proof fn lemma_render_first_key(fs: Seq<(Seq<char>, Option<JsonV>)>)
    ensures
        render_fl(fs).len() > 0 ==> exists|i: int|
            0 <= i < fs.len() && render_fl(fs)[0].0 == (#[trigger] fs[i]).0,
    decreases fs,
{
    if fs.len() > 0 {
        match fs[0].1 {
            Some(j) => {
                assert(render_fl(fs)[0].0 == fs[0].0);
            },
            None => {
                assert(opt_member(fs[0].0, fs[0].1) =~= Seq::empty());
                assert(render_fl(fs) =~= render_fl(fs.drop_first()));
                lemma_render_first_key(fs.drop_first());
                if render_fl(fs).len() > 0 {
                    let i = choose|i: int|
                        0 <= i < fs.drop_first().len() && render_fl(fs.drop_first())[0].0
                            == fs.drop_first()[i].0;
                    assert(fs.drop_first()[i] == fs[i + 1]);
                    assert(render_fl(fs)[0].0 == fs[i + 1].0);
                }
            },
        }
    }
}

/// Reading rendered fields back along their own key schema yields every field
/// value unchanged — present ones present, absent ones absent — and leaves
/// exactly the trailing members behind.
pub proof fn lemma_decode_render(fs: Seq<(Seq<char>, Option<JsonV>)>, rest: Seq<(Seq<char>, JsonV)>)
    requires
        distinct_keys(fs),
        rest.len() > 0 ==> forall|i: int| 0 <= i < fs.len() ==> rest[0].0 != (#[trigger] fs[i]).0,
    ensures
        decode_fl(render_fl(fs) + rest, keys_of(fs)) == (vals_of(fs), rest),
    decreases fs,
{
    let ms = render_fl(fs) + rest;
    let keys = keys_of(fs);
    if fs.len() == 0 {
        assert(render_fl(fs) =~= Seq::empty());
        assert(ms =~= rest);
        assert(keys =~= Seq::<Seq<char>>::empty());
        assert(vals_of(fs) =~= Seq::<Option<JsonV>>::empty());
    } else {
        let tail = fs.drop_first();
        assert forall|i: int, j: int| 0 <= i < j < tail.len() implies (#[trigger] tail[i]).0 != (#[trigger] tail[j]).0 by {
            assert(tail[i] == fs[i + 1]);
            assert(tail[j] == fs[j + 1]);
        }
        if rest.len() > 0 {
            assert forall|i: int| 0 <= i < tail.len() implies rest[0].0 != (#[trigger] tail[i]).0 by {
                assert(tail[i] == fs[i + 1]);
            }
        }
        assert(keys[0] == fs[0].0);
        assert(keys.drop_first() =~= keys_of(tail));
        match fs[0].1 {
            Some(j) => {
                assert(opt_member(fs[0].0, fs[0].1) =~= seq![(fs[0].0, j)]);
                assert(ms =~= seq![(fs[0].0, j)] + (render_fl(tail) + rest));
                assert(ms.len() > 0 && ms[0] == (fs[0].0, j));
                assert(ms.drop_first() =~= render_fl(tail) + rest);
                lemma_decode_render(tail, rest);
                let pr = decode_fl(ms.drop_first(), keys.drop_first());
                assert(pr == (vals_of(tail), rest));
                assert(decode_fl(ms, keys).0 =~= vals_of(fs));
            },
            None => {
                assert(opt_member(fs[0].0, fs[0].1) =~= Seq::<(Seq<char>, JsonV)>::empty());
                assert(ms =~= render_fl(tail) + rest);
                if ms.len() > 0 {
                    if render_fl(tail).len() > 0 {
                        lemma_render_first_key(tail);
                        let i = choose|i: int|
                            0 <= i < tail.len() && render_fl(tail)[0].0 == tail[i].0;
                        assert(tail[i] == fs[i + 1]);
                        assert(ms[0].0 == fs[i + 1].0);
                        assert(ms[0].0 != fs[0].0);
                    } else {
                        assert(render_fl(tail) =~= Seq::empty());
                        assert(ms =~= rest);
                        assert(ms[0].0 != fs[0].0);
                    }
                }
                lemma_decode_render(tail, rest);
                let pr = decode_fl(ms, keys.drop_first());
                assert(pr == (vals_of(tail), rest));
                assert(decode_fl(ms, keys).0 =~= vals_of(fs));
            },
        }
    }
}

pub proof fn lemma_render_fl_concat(a: Seq<(Seq<char>, Option<JsonV>)>, b: Seq<(Seq<char>, Option<JsonV>)>)
    ensures
        render_fl(a + b) == render_fl(a) + render_fl(b),
    decreases a,
{
    if a.len() == 0 {
        assert(a + b =~= b);
        assert(render_fl(a) =~= Seq::<(Seq<char>, JsonV)>::empty());
        assert(render_fl(a) + render_fl(b) =~= render_fl(b));
    } else {
        assert((a + b).len() > 0);
        assert((a + b)[0] == a[0]);
        assert((a + b).drop_first() =~= a.drop_first() + b);
        lemma_render_fl_concat(a.drop_first(), b);
        assert(render_fl(a + b) =~= render_fl(a) + render_fl(b));
    }
}

/// An optional member read strictly in the bridge's own canonical form.
pub open spec fn dec_opt_bool(o: Option<JsonV>) -> Option<Option<bool>> {
    match o {
        None => Some(None),
        Some(JsonV::Bool(b)) => Some(Some(b)),
        Some(_) => None,
    }
}

pub open spec fn dec_opt_u32(o: Option<JsonV>) -> Option<Option<u32>> {
    match o {
        None => Some(None),
        Some(JsonV::UInt(n)) => if n <= u32::MAX {
            Some(Some(n as u32))
        } else {
            None
        },
        Some(_) => None,
    }
}

pub open spec fn dec_opt_u16(o: Option<JsonV>) -> Option<Option<u16>> {
    match o {
        None => Some(None),
        Some(JsonV::UInt(n)) => if n <= u16::MAX {
            Some(Some(n as u16))
        } else {
            None
        },
        Some(_) => None,
    }
}

pub open spec fn dec_opt_str(o: Option<JsonV>) -> Option<Option<Seq<char>>> {
    match o {
        None => Some(None),
        Some(JsonV::Str(s)) => Some(Some(s)),
        Some(_) => None,
    }
}

pub open spec fn dec_opt_str_list(o: Option<JsonV>) -> Option<Option<Seq<Seq<char>>>> {
    match o {
        None => Some(None),
        Some(v) => match dec_str_list(v) {
            Some(x) => Some(Some(x)),
            None => None,
        },
    }
}

pub open spec fn dec_opt_map_ss(o: Option<JsonV>) -> Option<Option<Seq<(Seq<char>, Seq<char>)>>> {
    match o {
        None => Some(None),
        Some(v) => match dec_map_ss(v) {
            Some(x) => Some(Some(x)),
            None => None,
        },
    }
}

pub open spec fn dec_opt_map_sl(o: Option<JsonV>) -> Option<Option<Seq<(Seq<char>, Seq<Seq<char>>)>>> {
    match o {
        None => Some(None),
        Some(v) => match dec_map_sl(v) {
            Some(x) => Some(Some(x)),
            None => None,
        },
    }
}

pub open spec fn dec_opt_ident(o: Option<JsonV>) -> Option<Option<ClientIdentifier>> {
    match o {
        None => Some(None),
        Some(JsonV::Str(s)) => match ClientIdentifier::of_wire(s) {
            Some(e) => Some(Some(e)),
            None => None,
        },
        Some(_) => None,
    }
}

/// An HTTP/2 settings object, keys read back to their catalog values.
pub open spec fn dec_h2_map(v: JsonV) -> Option<Seq<(H2Setting, u32)>> {
    match v {
        JsonV::Obj(ms) => if forall|i: int|
            0 <= i < ms.len() ==> H2Setting::of_wire((#[trigger] ms[i]).0) is Some && ms[i].1 is UInt
                && ms[i].1->UInt_0 <= u32::MAX {
            Some(ms.map(|i: int, m: (Seq<char>, JsonV)| (H2Setting::of_wire(m.0)->0, m.1->UInt_0 as u32)))
        } else {
            None
        },
        _ => None,
    }
}

pub proof fn lemma_inv_str_list(x: Seq<Seq<char>>)
    ensures
        dec_str_list(enc_str_list(x)) == Some(x),
{
    let items = enc_str_items(x);
    assert(forall|i: int| 0 <= i < items.len() ==> (#[trigger] items[i]) is Str);
    assert(str_items_val(items) =~= x);
}

pub proof fn lemma_inv_map_ss(x: Seq<(Seq<char>, Seq<char>)>)
    ensures
        dec_map_ss(enc_map_ss(x)) == Some(x),
{
    let ms = enc_map_ss_members(x);
    assert(forall|i: int| 0 <= i < ms.len() ==> (#[trigger] ms[i]).1 is Str);
    assert(ms.map(|i: int, m: (Seq<char>, JsonV)| (m.0, m.1->Str_0)) =~= x);
}

pub proof fn lemma_inv_map_sl(x: Seq<(Seq<char>, Seq<Seq<char>>)>)
    ensures
        dec_map_sl(enc_map_sl(x)) == Some(x),
{
    let ms = enc_map_sl_members(x);
    assert forall|i: int| 0 <= i < ms.len() implies dec_str_list((#[trigger] ms[i]).1) is Some by {
        lemma_inv_str_list(x[i].1);
    }
    assert forall|i: int| 0 <= i < ms.len() implies (ms.map(
        |j: int, m: (Seq<char>, JsonV)| (m.0, dec_str_list(m.1)->0)))[i] == x[i] by {
        lemma_inv_str_list(x[i].1);
    }
    assert(ms.map(|i: int, m: (Seq<char>, JsonV)| (m.0, dec_str_list(m.1)->0)) =~= x);
}

pub proof fn lemma_inv_h2_map(x: Seq<(H2Setting, u32)>)
    ensures
        dec_h2_map(enc_h2_map(x)) == Some(x),
{
    let ms = enc_h2_map_members(x);
    assert forall|i: int| 0 <= i < ms.len() implies H2Setting::of_wire((#[trigger] ms[i]).0) is Some
        && ms[i].1 is UInt && ms[i].1->UInt_0 <= u32::MAX by {
        crate::types::lemma_h2setting_wire_inverse(x[i].0);
    }
    assert forall|i: int| 0 <= i < ms.len() implies (ms.map(
        |j: int, m: (Seq<char>, JsonV)| (H2Setting::of_wire(m.0)->0, m.1->UInt_0 as u32)))[i] == x[i] by {
        crate::types::lemma_h2setting_wire_inverse(x[i].0);
    }
    assert(ms.map(|i: int, m: (Seq<char>, JsonV)| (H2Setting::of_wire(m.0)->0, m.1->UInt_0 as u32)) =~= x);
}

/// A list of catalog names read back to their values.
pub open spec fn dec_h2_list(v: JsonV) -> Option<Seq<H2Setting>> {
    match v {
        JsonV::Arr(items) => if forall|i: int|
            0 <= i < items.len() ==> (#[trigger] items[i]) is Str && H2Setting::of_wire(items[i]->Str_0) is Some {
            Some(items.map(|i: int, it: JsonV| H2Setting::of_wire(it->Str_0)->0))
        } else {
            None
        },
        _ => None,
    }
}

pub proof fn lemma_inv_h2_list(x: Seq<H2Setting>)
    ensures
        dec_h2_list(enc_h2_list(x)) == Some(x),
{
    let items = enc_h2_list_items(x);
    assert forall|i: int| 0 <= i < items.len() implies (#[trigger] items[i]) is Str
        && H2Setting::of_wire(items[i]->Str_0) is Some by {
        crate::types::lemma_h2setting_wire_inverse(x[i]);
    }
    assert forall|i: int| 0 <= i < items.len() implies (items.map(
        |j: int, it: JsonV| H2Setting::of_wire(it->Str_0)->0))[i] == x[i] by {
        crate::types::lemma_h2setting_wire_inverse(x[i]);
    }
    assert(items.map(|i: int, it: JsonV| H2Setting::of_wire(it->Str_0)->0) =~= x);
}

/// A list of catalog names read back to their values.
pub open spec fn dec_curves(v: JsonV) -> Option<Seq<KeyShareCurve>> {
    match v {
        JsonV::Arr(items) => if forall|i: int|
            0 <= i < items.len() ==> (#[trigger] items[i]) is Str && KeyShareCurve::of_wire(items[i]->Str_0) is Some {
            Some(items.map(|i: int, it: JsonV| KeyShareCurve::of_wire(it->Str_0)->0))
        } else {
            None
        },
        _ => None,
    }
}

pub proof fn lemma_inv_curves(x: Seq<KeyShareCurve>)
    ensures
        dec_curves(enc_curve_list(x)) == Some(x),
{
    let items = enc_curve_list_items(x);
    assert forall|i: int| 0 <= i < items.len() implies (#[trigger] items[i]) is Str
        && KeyShareCurve::of_wire(items[i]->Str_0) is Some by {
        crate::types::lemma_keysharecurve_wire_inverse(x[i]);
    }
    assert forall|i: int| 0 <= i < items.len() implies (items.map(
        |j: int, it: JsonV| KeyShareCurve::of_wire(it->Str_0)->0))[i] == x[i] by {
        crate::types::lemma_keysharecurve_wire_inverse(x[i]);
    }
    assert(items.map(|i: int, it: JsonV| KeyShareCurve::of_wire(it->Str_0)->0) =~= x);
}

/// A list of catalog names read back to their values.
pub open spec fn dec_deleg(v: JsonV) -> Option<Seq<DelegatedCredential>> {
    match v {
        JsonV::Arr(items) => if forall|i: int|
            0 <= i < items.len() ==> (#[trigger] items[i]) is Str && DelegatedCredential::of_wire(items[i]->Str_0) is Some {
            Some(items.map(|i: int, it: JsonV| DelegatedCredential::of_wire(it->Str_0)->0))
        } else {
            None
        },
        _ => None,
    }
}

pub proof fn lemma_inv_deleg(x: Seq<DelegatedCredential>)
    ensures
        dec_deleg(enc_deleg_list(x)) == Some(x),
{
    let items = enc_deleg_list_items(x);
    assert forall|i: int| 0 <= i < items.len() implies (#[trigger] items[i]) is Str
        && DelegatedCredential::of_wire(items[i]->Str_0) is Some by {
        crate::types::lemma_delegatedcredential_wire_inverse(x[i]);
    }
    assert forall|i: int| 0 <= i < items.len() implies (items.map(
        |j: int, it: JsonV| DelegatedCredential::of_wire(it->Str_0)->0))[i] == x[i] by {
        crate::types::lemma_delegatedcredential_wire_inverse(x[i]);
    }
    assert(items.map(|i: int, it: JsonV| DelegatedCredential::of_wire(it->Str_0)->0) =~= x);
}

/// A list of catalog names read back to their values.
pub open spec fn dec_sigs(v: JsonV) -> Option<Seq<SignatureAlgorithm>> {
    match v {
        JsonV::Arr(items) => if forall|i: int|
            0 <= i < items.len() ==> (#[trigger] items[i]) is Str && SignatureAlgorithm::of_wire(items[i]->Str_0) is Some {
            Some(items.map(|i: int, it: JsonV| SignatureAlgorithm::of_wire(it->Str_0)->0))
        } else {
            None
        },
        _ => None,
    }
}

pub proof fn lemma_inv_sigs(x: Seq<SignatureAlgorithm>)
    ensures
        dec_sigs(enc_sig_list(x)) == Some(x),
{
    let items = enc_sig_list_items(x);
    assert forall|i: int| 0 <= i < items.len() implies (#[trigger] items[i]) is Str
        && SignatureAlgorithm::of_wire(items[i]->Str_0) is Some by {
        crate::types::lemma_signaturealgorithm_wire_inverse(x[i]);
    }
    assert forall|i: int| 0 <= i < items.len() implies (items.map(
        |j: int, it: JsonV| SignatureAlgorithm::of_wire(it->Str_0)->0))[i] == x[i] by {
        crate::types::lemma_signaturealgorithm_wire_inverse(x[i]);
    }
    assert(items.map(|i: int, it: JsonV| SignatureAlgorithm::of_wire(it->Str_0)->0) =~= x);
}

/// A list of catalog names read back to their values.
pub open spec fn dec_versions(v: JsonV) -> Option<Seq<SupportedVersion>> {
    match v {
        JsonV::Arr(items) => if forall|i: int|
            0 <= i < items.len() ==> (#[trigger] items[i]) is Str && SupportedVersion::of_wire(items[i]->Str_0) is Some {
            Some(items.map(|i: int, it: JsonV| SupportedVersion::of_wire(it->Str_0)->0))
        } else {
            None
        },
        _ => None,
    }
}

pub proof fn lemma_inv_versions(x: Seq<SupportedVersion>)
    ensures
        dec_versions(enc_version_list(x)) == Some(x),
{
    let items = enc_version_list_items(x);
    assert forall|i: int| 0 <= i < items.len() implies (#[trigger] items[i]) is Str
        && SupportedVersion::of_wire(items[i]->Str_0) is Some by {
        crate::types::lemma_supportedversion_wire_inverse(x[i]);
    }
    assert forall|i: int| 0 <= i < items.len() implies (items.map(
        |j: int, it: JsonV| SupportedVersion::of_wire(it->Str_0)->0))[i] == x[i] by {
        crate::types::lemma_supportedversion_wire_inverse(x[i]);
    }
    assert(items.map(|i: int, it: JsonV| SupportedVersion::of_wire(it->Str_0)->0) =~= x);
}

/// A priority object in the exact shape the bridge writes.
pub open spec fn dec_priority(v: JsonV) -> Option<PriorityParam> {
    match v {
        JsonV::Obj(ms) => if ms.len() == 3 && ms[0].0 == "streamDep"@ && ms[0].1 is UInt
            && ms[0].1->UInt_0 <= u32::MAX && ms[1].0 == "exclusive"@ && ms[1].1 is Bool
            && ms[2].0 == "weight"@ && ms[2].1 is UInt && ms[2].1->UInt_0 <= u32::MAX {
            Some(PriorityParam {
                stream_dep: ms[0].1->UInt_0 as u32,
                exclusive: ms[1].1->Bool_0,
                weight: ms[2].1->UInt_0 as u32,
            })
        } else {
            None
        },
        _ => None,
    }
}

pub proof fn lemma_inv_priority(p: PriorityParam)
    ensures
        dec_priority(enc_priority(p)) == Some(p),
{
}

pub open spec fn dec_frame(v: JsonV) -> Option<PriorityFrames> {
    match v {
        JsonV::Obj(ms) => if ms.len() == 2 && ms[0].0 == "streamID"@ && ms[0].1 is UInt
            && ms[0].1->UInt_0 <= u32::MAX && ms[1].0 == "framePayload"@
            && dec_priority(ms[1].1) is Some {
            Some(PriorityFrames {
                stream_id: ms[0].1->UInt_0 as u32,
                frame_payload: dec_priority(ms[1].1)->0,
            })
        } else {
            None
        },
        _ => None,
    }
}

pub open spec fn dec_frames(v: JsonV) -> Option<Seq<PriorityFrames>> {
    match v {
        JsonV::Arr(items) => if forall|i: int|
            0 <= i < items.len() ==> dec_frame(#[trigger] items[i]) is Some {
            Some(items.map(|i: int, it: JsonV| dec_frame(it)->0))
        } else {
            None
        },
        _ => None,
    }
}

pub proof fn lemma_inv_frame(f: PriorityFrames)
    ensures
        dec_frame(enc_frame(f)) == Some(f),
{
    lemma_inv_priority(f.frame_payload);
}

pub proof fn lemma_inv_frames(x: Seq<PriorityFrames>)
    ensures
        dec_frames(enc_frames(x)) == Some(x),
{
    let items = enc_frame_items(x);
    assert forall|i: int| 0 <= i < items.len() implies dec_frame(#[trigger] items[i]) is Some by {
        lemma_inv_frame(x[i]);
    }
    assert forall|i: int| 0 <= i < items.len() implies (items.map(
        |j: int, it: JsonV| dec_frame(it)->0))[i] == x[i] by {
        lemma_inv_frame(x[i]);
    }
    assert(items.map(|i: int, it: JsonV| dec_frame(it)->0) =~= x);
}

pub open spec fn dec_suite(v: JsonV) -> Option<CandidateCipherSuite> {
    match v {
        JsonV::Obj(ms) => if ms.len() == 2 && ms[0].0 == "kdfId"@ && ms[0].1 is Str
            && KdfId::of_wire(ms[0].1->Str_0) is Some && ms[1].0 == "aeadId"@ && ms[1].1 is Str
            && AeadId::of_wire(ms[1].1->Str_0) is Some {
            Some(CandidateCipherSuite {
                kdf_id: KdfId::of_wire(ms[0].1->Str_0)->0,
                aead_id: AeadId::of_wire(ms[1].1->Str_0)->0,
            })
        } else {
            None
        },
        _ => None,
    }
}

pub open spec fn dec_suites(v: JsonV) -> Option<Seq<CandidateCipherSuite>> {
    match v {
        JsonV::Arr(items) => if forall|i: int|
            0 <= i < items.len() ==> dec_suite(#[trigger] items[i]) is Some {
            Some(items.map(|i: int, it: JsonV| dec_suite(it)->0))
        } else {
            None
        },
        _ => None,
    }
}

pub proof fn lemma_inv_suite(s: CandidateCipherSuite)
    ensures
        dec_suite(enc_suite(s)) == Some(s),
{
    crate::types::lemma_kdfid_wire_inverse(s.kdf_id);
    crate::types::lemma_aeadid_wire_inverse(s.aead_id);
}

pub proof fn lemma_inv_suites(x: Seq<CandidateCipherSuite>)
    ensures
        dec_suites(enc_suites(x)) == Some(x),
{
    let items = enc_suite_items(x);
    assert forall|i: int| 0 <= i < items.len() implies dec_suite(#[trigger] items[i]) is Some by {
        lemma_inv_suite(x[i]);
    }
    assert forall|i: int| 0 <= i < items.len() implies (items.map(
        |j: int, it: JsonV| dec_suite(it)->0))[i] == x[i] by {
        lemma_inv_suite(x[i]);
    }
    assert(items.map(|i: int, it: JsonV| dec_suite(it)->0) =~= x);
}

pub open spec fn opt_dec_curves(o: Option<JsonV>) -> Option<Option<Seq<KeyShareCurve>>> {
    match o {
        None => Some(None),
        Some(v) => match dec_curves(v) {
            Some(x) => Some(Some(x)),
            None => None,
        },
    }
}

pub open spec fn opt_dec_deleg(o: Option<JsonV>) -> Option<Option<Seq<DelegatedCredential>>> {
    match o {
        None => Some(None),
        Some(v) => match dec_deleg(v) {
            Some(x) => Some(Some(x)),
            None => None,
        },
    }
}

pub open spec fn opt_dec_frames(o: Option<JsonV>) -> Option<Option<Seq<PriorityFrames>>> {
    match o {
        None => Some(None),
        Some(v) => match dec_frames(v) {
            Some(x) => Some(Some(x)),
            None => None,
        },
    }
}

pub open spec fn opt_dec_h2_list(o: Option<JsonV>) -> Option<Option<Seq<H2Setting>>> {
    match o {
        None => Some(None),
        Some(v) => match dec_h2_list(v) {
            Some(x) => Some(Some(x)),
            None => None,
        },
    }
}

pub open spec fn opt_dec_h2_map(o: Option<JsonV>) -> Option<Option<Seq<(H2Setting, u32)>>> {
    match o {
        None => Some(None),
        Some(v) => match dec_h2_map(v) {
            Some(x) => Some(Some(x)),
            None => None,
        },
    }
}

pub open spec fn opt_dec_priority(o: Option<JsonV>) -> Option<Option<PriorityParam>> {
    match o {
        None => Some(None),
        Some(v) => match dec_priority(v) {
            Some(x) => Some(Some(x)),
            None => None,
        },
    }
}

pub open spec fn opt_dec_sigs(o: Option<JsonV>) -> Option<Option<Seq<SignatureAlgorithm>>> {
    match o {
        None => Some(None),
        Some(v) => match dec_sigs(v) {
            Some(x) => Some(Some(x)),
            None => None,
        },
    }
}

pub open spec fn opt_dec_suites(o: Option<JsonV>) -> Option<Option<Seq<CandidateCipherSuite>>> {
    match o {
        None => Some(None),
        Some(v) => match dec_suites(v) {
            Some(x) => Some(Some(x)),
            None => None,
        },
    }
}

pub open spec fn opt_dec_versions(o: Option<JsonV>) -> Option<Option<Seq<SupportedVersion>>> {
    match o {
        None => Some(None),
        Some(v) => match dec_versions(v) {
            Some(x) => Some(Some(x)),
            None => None,
        },
    }
}

/// The field list a custom fingerprint renders from: each wire key with the
/// encoded value of the field when it is set.
#[verifier::opaque]
pub open spec fn custom_fields(c: CustomV) -> Seq<(Seq<char>, Option<JsonV>)> {
    seq![
        ("certCompressionAlgo"@, match c.cert_compression_algo { Option::Some(x) => Option::Some(JsonV::Str(x)), Option::None => Option::None }),
        ("connectionFlow"@, match c.connection_flow { Option::Some(x) => Option::Some(JsonV::UInt(x as nat)), Option::None => Option::None }),
        ("h2Settings"@, match c.h2_settings { Option::Some(x) => Option::Some(enc_h2_map(x)), Option::None => Option::None }),
        ("h2SettingsOrder"@, match c.h2_settings_order { Option::Some(x) => Option::Some(enc_h2_list(x)), Option::None => Option::None }),
        ("headerPriority"@, match c.header_priority { Option::Some(x) => Option::Some(enc_priority(x)), Option::None => Option::None }),
        ("ja3String"@, match c.ja3_string { Option::Some(x) => Option::Some(JsonV::Str(x)), Option::None => Option::None }),
        ("keyShareCurves"@, match c.key_share_curves { Option::Some(x) => Option::Some(enc_curve_list(x)), Option::None => Option::None }),
        ("priorityFrames"@, match c.priority_frames { Option::Some(x) => Option::Some(enc_frames(x)), Option::None => Option::None }),
        ("alpnProtocols"@, match c.alpn_protocols { Option::Some(x) => Option::Some(enc_str_list(x)), Option::None => Option::None }),
        ("alpsProtocols"@, match c.alps_protocols { Option::Some(x) => Option::Some(enc_str_list(x)), Option::None => Option::None }),
        ("ECHCandidateCipherSuites"@, match c.ech_candidate_cipher_suites { Option::Some(x) => Option::Some(enc_suites(x)), Option::None => Option::None }),
        ("ECHCandidatePayloads"@, match c.ech_candidate_payloads { Option::Some(x) => Option::Some(JsonV::UInt(x as nat)), Option::None => Option::None }),
        ("pseudoHeaderOrder"@, match c.pseudo_header_order { Option::Some(x) => Option::Some(enc_str_list(x)), Option::None => Option::None }),
        ("supportedDelegatedCredentialsAlgorithms"@, match c.supported_delegated_credentials_algorithms { Option::Some(x) => Option::Some(enc_deleg_list(x)), Option::None => Option::None }),
        ("supportedSignatureAlgorithms"@, match c.supported_signature_algorithms { Option::Some(x) => Option::Some(enc_sig_list(x)), Option::None => Option::None }),
        ("supportedVersions"@, match c.supported_versions { Option::Some(x) => Option::Some(enc_version_list(x)), Option::None => Option::None }),
    ]
}

pub open spec fn custom_keys() -> Seq<Seq<char>> {
    seq!["certCompressionAlgo"@, "connectionFlow"@, "h2Settings"@, "h2SettingsOrder"@, "headerPriority"@, "ja3String"@, "keyShareCurves"@, "priorityFrames"@, "alpnProtocols"@, "alpsProtocols"@, "ECHCandidateCipherSuites"@, "ECHCandidatePayloads"@, "pseudoHeaderOrder"@, "supportedDelegatedCredentialsAlgorithms"@, "supportedSignatureAlgorithms"@, "supportedVersions"@]
}

proof fn lemma_custom_members_fl(c: CustomV)
    ensures
        custom_members(c) == render_fl(custom_fields(c)),
{
    reveal(custom_fields);
    reveal(crate::client::custom_members);
    let fs = custom_fields(c);
    let s1 = seq![fs[0]];
    assert(s1.drop_first() =~= Seq::<(Seq<char>, Option<JsonV>)>::empty());
    assert(render_fl(s1.drop_first()) == Seq::<(Seq<char>, JsonV)>::empty());
    assert(render_fl(s1) =~= opt_member(fs[0].0, fs[0].1));
    assert(crate::client::seg_cc_cert_compression_algo(c) == opt_member(fs[0].0, fs[0].1));
    let s2 = seq![fs[1]];
    assert(s2.drop_first() =~= Seq::<(Seq<char>, Option<JsonV>)>::empty());
    assert(render_fl(s2.drop_first()) == Seq::<(Seq<char>, JsonV)>::empty());
    assert(render_fl(s2) =~= opt_member(fs[1].0, fs[1].1));
    assert(crate::client::seg_cc_connection_flow(c) == opt_member(fs[1].0, fs[1].1));
    let s3 = seq![fs[2]];
    assert(s3.drop_first() =~= Seq::<(Seq<char>, Option<JsonV>)>::empty());
    assert(render_fl(s3.drop_first()) == Seq::<(Seq<char>, JsonV)>::empty());
    assert(render_fl(s3) =~= opt_member(fs[2].0, fs[2].1));
    assert(crate::client::seg_cc_h2_settings(c) == opt_member(fs[2].0, fs[2].1));
    let s4 = seq![fs[3]];
    assert(s4.drop_first() =~= Seq::<(Seq<char>, Option<JsonV>)>::empty());
    assert(render_fl(s4.drop_first()) == Seq::<(Seq<char>, JsonV)>::empty());
    assert(render_fl(s4) =~= opt_member(fs[3].0, fs[3].1));
    assert(crate::client::seg_cc_h2_settings_order(c) == opt_member(fs[3].0, fs[3].1));
    let s5 = seq![fs[4]];
    assert(s5.drop_first() =~= Seq::<(Seq<char>, Option<JsonV>)>::empty());
    assert(render_fl(s5.drop_first()) == Seq::<(Seq<char>, JsonV)>::empty());
    assert(render_fl(s5) =~= opt_member(fs[4].0, fs[4].1));
    assert(crate::client::seg_cc_header_priority(c) == opt_member(fs[4].0, fs[4].1));
    let s6 = seq![fs[5]];
    assert(s6.drop_first() =~= Seq::<(Seq<char>, Option<JsonV>)>::empty());
    assert(render_fl(s6.drop_first()) == Seq::<(Seq<char>, JsonV)>::empty());
    assert(render_fl(s6) =~= opt_member(fs[5].0, fs[5].1));
    assert(crate::client::seg_cc_ja3_string(c) == opt_member(fs[5].0, fs[5].1));
    let s7 = seq![fs[6]];
    assert(s7.drop_first() =~= Seq::<(Seq<char>, Option<JsonV>)>::empty());
    assert(render_fl(s7.drop_first()) == Seq::<(Seq<char>, JsonV)>::empty());
    assert(render_fl(s7) =~= opt_member(fs[6].0, fs[6].1));
    assert(crate::client::seg_cc_key_share_curves(c) == opt_member(fs[6].0, fs[6].1));
    let s8 = seq![fs[7]];
    assert(s8.drop_first() =~= Seq::<(Seq<char>, Option<JsonV>)>::empty());
    assert(render_fl(s8.drop_first()) == Seq::<(Seq<char>, JsonV)>::empty());
    assert(render_fl(s8) =~= opt_member(fs[7].0, fs[7].1));
    assert(crate::client::seg_cc_priority_frames(c) == opt_member(fs[7].0, fs[7].1));
    let s9 = seq![fs[8]];
    assert(s9.drop_first() =~= Seq::<(Seq<char>, Option<JsonV>)>::empty());
    assert(render_fl(s9.drop_first()) == Seq::<(Seq<char>, JsonV)>::empty());
    assert(render_fl(s9) =~= opt_member(fs[8].0, fs[8].1));
    assert(crate::client::seg_cc_alpn_protocols(c) == opt_member(fs[8].0, fs[8].1));
    let s10 = seq![fs[9]];
    assert(s10.drop_first() =~= Seq::<(Seq<char>, Option<JsonV>)>::empty());
    assert(render_fl(s10.drop_first()) == Seq::<(Seq<char>, JsonV)>::empty());
    assert(render_fl(s10) =~= opt_member(fs[9].0, fs[9].1));
    assert(crate::client::seg_cc_alps_protocols(c) == opt_member(fs[9].0, fs[9].1));
    let s11 = seq![fs[10]];
    assert(s11.drop_first() =~= Seq::<(Seq<char>, Option<JsonV>)>::empty());
    assert(render_fl(s11.drop_first()) == Seq::<(Seq<char>, JsonV)>::empty());
    assert(render_fl(s11) =~= opt_member(fs[10].0, fs[10].1));
    assert(crate::client::seg_cc_ech_candidate_cipher_suites(c) == opt_member(fs[10].0, fs[10].1));
    let s12 = seq![fs[11]];
    assert(s12.drop_first() =~= Seq::<(Seq<char>, Option<JsonV>)>::empty());
    assert(render_fl(s12.drop_first()) == Seq::<(Seq<char>, JsonV)>::empty());
    assert(render_fl(s12) =~= opt_member(fs[11].0, fs[11].1));
    assert(crate::client::seg_cc_ech_candidate_payloads(c) == opt_member(fs[11].0, fs[11].1));
    let s13 = seq![fs[12]];
    assert(s13.drop_first() =~= Seq::<(Seq<char>, Option<JsonV>)>::empty());
    assert(render_fl(s13.drop_first()) == Seq::<(Seq<char>, JsonV)>::empty());
    assert(render_fl(s13) =~= opt_member(fs[12].0, fs[12].1));
    assert(crate::client::seg_cc_pseudo_header_order(c) == opt_member(fs[12].0, fs[12].1));
    let s14 = seq![fs[13]];
    assert(s14.drop_first() =~= Seq::<(Seq<char>, Option<JsonV>)>::empty());
    assert(render_fl(s14.drop_first()) == Seq::<(Seq<char>, JsonV)>::empty());
    assert(render_fl(s14) =~= opt_member(fs[13].0, fs[13].1));
    assert(crate::client::seg_cc_supported_delegated_credentials_algorithms(c) == opt_member(fs[13].0, fs[13].1));
    let s15 = seq![fs[14]];
    assert(s15.drop_first() =~= Seq::<(Seq<char>, Option<JsonV>)>::empty());
    assert(render_fl(s15.drop_first()) == Seq::<(Seq<char>, JsonV)>::empty());
    assert(render_fl(s15) =~= opt_member(fs[14].0, fs[14].1));
    assert(crate::client::seg_cc_supported_signature_algorithms(c) == opt_member(fs[14].0, fs[14].1));
    let s16 = seq![fs[15]];
    assert(s16.drop_first() =~= Seq::<(Seq<char>, Option<JsonV>)>::empty());
    assert(render_fl(s16.drop_first()) == Seq::<(Seq<char>, JsonV)>::empty());
    assert(render_fl(s16) =~= opt_member(fs[15].0, fs[15].1));
    assert(crate::client::seg_cc_supported_versions(c) == opt_member(fs[15].0, fs[15].1));
    lemma_render_fl_concat(s1, s2);
    lemma_render_fl_concat(s1 + s2, s3);
    lemma_render_fl_concat(s1 + s2 + s3, s4);
    lemma_render_fl_concat(s1 + s2 + s3 + s4, s5);
    lemma_render_fl_concat(s1 + s2 + s3 + s4 + s5, s6);
    lemma_render_fl_concat(s1 + s2 + s3 + s4 + s5 + s6, s7);
    lemma_render_fl_concat(s1 + s2 + s3 + s4 + s5 + s6 + s7, s8);
    lemma_render_fl_concat(s1 + s2 + s3 + s4 + s5 + s6 + s7 + s8, s9);
    lemma_render_fl_concat(s1 + s2 + s3 + s4 + s5 + s6 + s7 + s8 + s9, s10);
    lemma_render_fl_concat(s1 + s2 + s3 + s4 + s5 + s6 + s7 + s8 + s9 + s10, s11);
    lemma_render_fl_concat(s1 + s2 + s3 + s4 + s5 + s6 + s7 + s8 + s9 + s10 + s11, s12);
    lemma_render_fl_concat(s1 + s2 + s3 + s4 + s5 + s6 + s7 + s8 + s9 + s10 + s11 + s12, s13);
    lemma_render_fl_concat(s1 + s2 + s3 + s4 + s5 + s6 + s7 + s8 + s9 + s10 + s11 + s12 + s13, s14);
    lemma_render_fl_concat(s1 + s2 + s3 + s4 + s5 + s6 + s7 + s8 + s9 + s10 + s11 + s12 + s13 + s14, s15);
    lemma_render_fl_concat(s1 + s2 + s3 + s4 + s5 + s6 + s7 + s8 + s9 + s10 + s11 + s12 + s13 + s14 + s15, s16);
    assert(s1 + s2 + s3 + s4 + s5 + s6 + s7 + s8 + s9 + s10 + s11 + s12 + s13 + s14 + s15 + s16 =~= fs);
    assert(custom_members(c) == render_fl(fs));
}

proof fn lemma_custom_keys_distinct(c: CustomV)
    ensures
        distinct_keys(custom_fields(c)),
        keys_of(custom_fields(c)) =~= custom_keys(),
{
    reveal(custom_fields);
    reveal_strlit("ECHCandidateCipherSuites");
    reveal_strlit("ECHCandidatePayloads");
    reveal_strlit("alpnProtocols");
    reveal_strlit("alpsProtocols");
    reveal_strlit("certCompressionAlgo");
    reveal_strlit("connectionFlow");
    reveal_strlit("h2Settings");
    reveal_strlit("h2SettingsOrder");
    reveal_strlit("headerPriority");
    reveal_strlit("ja3String");
    reveal_strlit("keyShareCurves");
    reveal_strlit("priorityFrames");
    reveal_strlit("pseudoHeaderOrder");
    reveal_strlit("supportedDelegatedCredentialsAlgorithms");
    reveal_strlit("supportedSignatureAlgorithms");
    reveal_strlit("supportedVersions");
    assert(("ECHCandidateCipherSuites"@).len() == 24);
    assert(("ECHCandidatePayloads"@).len() == 20);
    assert(("alpnProtocols"@).len() == 13);
    assert(("alpsProtocols"@).len() == 13);
    assert(("certCompressionAlgo"@).len() == 19);
    assert(("connectionFlow"@).len() == 14);
    assert(("h2Settings"@).len() == 10);
    assert(("h2SettingsOrder"@).len() == 15);
    assert(("headerPriority"@).len() == 14);
    assert(("ja3String"@).len() == 9);
    assert(("keyShareCurves"@).len() == 14);
    assert(("priorityFrames"@).len() == 14);
    assert(("pseudoHeaderOrder"@).len() == 17);
    assert(("supportedDelegatedCredentialsAlgorithms"@).len() == 39);
    assert(("supportedSignatureAlgorithms"@).len() == 28);
    assert(("supportedVersions"@).len() == 17);
    assert(("connectionFlow"@)[0] != ("headerPriority"@)[0]);
    assert("connectionFlow"@ != "headerPriority"@);
    assert(("connectionFlow"@)[0] != ("keyShareCurves"@)[0]);
    assert("connectionFlow"@ != "keyShareCurves"@);
    assert(("connectionFlow"@)[0] != ("priorityFrames"@)[0]);
    assert("connectionFlow"@ != "priorityFrames"@);
    assert(("headerPriority"@)[0] != ("keyShareCurves"@)[0]);
    assert("headerPriority"@ != "keyShareCurves"@);
    assert(("headerPriority"@)[0] != ("priorityFrames"@)[0]);
    assert("headerPriority"@ != "priorityFrames"@);
    assert(("keyShareCurves"@)[0] != ("priorityFrames"@)[0]);
    assert("keyShareCurves"@ != "priorityFrames"@);
    assert(("alpnProtocols"@)[3] != ("alpsProtocols"@)[3]);
    assert("alpnProtocols"@ != "alpsProtocols"@);
    assert(("pseudoHeaderOrder"@)[0] != ("supportedVersions"@)[0]);
    assert("pseudoHeaderOrder"@ != "supportedVersions"@);
}

/// What a custom-fingerprint wire object means, read strictly in the form
/// the bridge itself writes.
pub open spec fn custom_of_json(j: JsonV) -> Option<CustomV> {
    match j {
        JsonV::Obj(ms) => {
            let pr = decode_fl(ms, custom_keys());
            let f_cert_compression_algo = dec_opt_str(pr.0[0]);
            let f_connection_flow = dec_opt_u32(pr.0[1]);
            let f_h2_settings = opt_dec_h2_map(pr.0[2]);
            let f_h2_settings_order = opt_dec_h2_list(pr.0[3]);
            let f_header_priority = opt_dec_priority(pr.0[4]);
            let f_ja3_string = dec_opt_str(pr.0[5]);
            let f_key_share_curves = opt_dec_curves(pr.0[6]);
            let f_priority_frames = opt_dec_frames(pr.0[7]);
            let f_alpn_protocols = dec_opt_str_list(pr.0[8]);
            let f_alps_protocols = dec_opt_str_list(pr.0[9]);
            let f_ech_candidate_cipher_suites = opt_dec_suites(pr.0[10]);
            let f_ech_candidate_payloads = dec_opt_u16(pr.0[11]);
            let f_pseudo_header_order = dec_opt_str_list(pr.0[12]);
            let f_supported_delegated_credentials_algorithms = opt_dec_deleg(pr.0[13]);
            let f_supported_signature_algorithms = opt_dec_sigs(pr.0[14]);
            let f_supported_versions = opt_dec_versions(pr.0[15]);
            if pr.1.len() == 0 && pr.0.len() == 16 && f_cert_compression_algo is Some && f_connection_flow is Some && f_h2_settings is Some && f_h2_settings_order is Some && f_header_priority is Some && f_ja3_string is Some && f_key_share_curves is Some && f_priority_frames is Some && f_alpn_protocols is Some && f_alps_protocols is Some && f_ech_candidate_cipher_suites is Some && f_ech_candidate_payloads is Some && f_pseudo_header_order is Some && f_supported_delegated_credentials_algorithms is Some && f_supported_signature_algorithms is Some && f_supported_versions is Some {
                Some(CustomV {
                    cert_compression_algo: f_cert_compression_algo->0,
                    connection_flow: f_connection_flow->0,
                    h2_settings: f_h2_settings->0,
                    h2_settings_order: f_h2_settings_order->0,
                    header_priority: f_header_priority->0,
                    ja3_string: f_ja3_string->0,
                    key_share_curves: f_key_share_curves->0,
                    priority_frames: f_priority_frames->0,
                    alpn_protocols: f_alpn_protocols->0,
                    alps_protocols: f_alps_protocols->0,
                    ech_candidate_cipher_suites: f_ech_candidate_cipher_suites->0,
                    ech_candidate_payloads: f_ech_candidate_payloads->0,
                    pseudo_header_order: f_pseudo_header_order->0,
                    supported_delegated_credentials_algorithms: f_supported_delegated_credentials_algorithms->0,
                    supported_signature_algorithms: f_supported_signature_algorithms->0,
                    supported_versions: f_supported_versions->0,
                })
            } else {
                None
            }
        },
        _ => None,
    }
}

proof fn lemma_custom_rt_cert_compression_algo(c: CustomV)
    ensures
        dec_opt_str(vals_of(custom_fields(c))[0]) == (match c.cert_compression_algo {
            Option::Some(x) => Some(Some(x)),
            Option::None => Some(None),
        }),
{
    reveal(custom_fields);
    assert(vals_of(custom_fields(c))[0] == custom_fields(c)[0].1);
}

proof fn lemma_custom_rt_connection_flow(c: CustomV)
    ensures
        dec_opt_u32(vals_of(custom_fields(c))[1]) == (match c.connection_flow {
            Option::Some(x) => Some(Some(x)),
            Option::None => Some(None),
        }),
{
    reveal(custom_fields);
    assert(vals_of(custom_fields(c))[1] == custom_fields(c)[1].1);
}

proof fn lemma_custom_rt_h2_settings(c: CustomV)
    ensures
        opt_dec_h2_map(vals_of(custom_fields(c))[2]) == (match c.h2_settings {
            Option::Some(x) => Some(Some(x)),
            Option::None => Some(None),
        }),
{
    reveal(custom_fields);
    assert(vals_of(custom_fields(c))[2] == custom_fields(c)[2].1);
    if c.h2_settings is Some {
        lemma_inv_h2_map(c.h2_settings->0);
    }
}

proof fn lemma_custom_rt_h2_settings_order(c: CustomV)
    ensures
        opt_dec_h2_list(vals_of(custom_fields(c))[3]) == (match c.h2_settings_order {
            Option::Some(x) => Some(Some(x)),
            Option::None => Some(None),
        }),
{
    reveal(custom_fields);
    assert(vals_of(custom_fields(c))[3] == custom_fields(c)[3].1);
    if c.h2_settings_order is Some {
        lemma_inv_h2_list(c.h2_settings_order->0);
    }
}

proof fn lemma_custom_rt_header_priority(c: CustomV)
    ensures
        opt_dec_priority(vals_of(custom_fields(c))[4]) == (match c.header_priority {
            Option::Some(x) => Some(Some(x)),
            Option::None => Some(None),
        }),
{
    reveal(custom_fields);
    assert(vals_of(custom_fields(c))[4] == custom_fields(c)[4].1);
    if c.header_priority is Some {
        lemma_inv_priority(c.header_priority->0);
    }
}

proof fn lemma_custom_rt_ja3_string(c: CustomV)
    ensures
        dec_opt_str(vals_of(custom_fields(c))[5]) == (match c.ja3_string {
            Option::Some(x) => Some(Some(x)),
            Option::None => Some(None),
        }),
{
    reveal(custom_fields);
    assert(vals_of(custom_fields(c))[5] == custom_fields(c)[5].1);
}

proof fn lemma_custom_rt_key_share_curves(c: CustomV)
    ensures
        opt_dec_curves(vals_of(custom_fields(c))[6]) == (match c.key_share_curves {
            Option::Some(x) => Some(Some(x)),
            Option::None => Some(None),
        }),
{
    reveal(custom_fields);
    assert(vals_of(custom_fields(c))[6] == custom_fields(c)[6].1);
    if c.key_share_curves is Some {
        lemma_inv_curves(c.key_share_curves->0);
    }
}

proof fn lemma_custom_rt_priority_frames(c: CustomV)
    ensures
        opt_dec_frames(vals_of(custom_fields(c))[7]) == (match c.priority_frames {
            Option::Some(x) => Some(Some(x)),
            Option::None => Some(None),
        }),
{
    reveal(custom_fields);
    assert(vals_of(custom_fields(c))[7] == custom_fields(c)[7].1);
    if c.priority_frames is Some {
        lemma_inv_frames(c.priority_frames->0);
    }
}

proof fn lemma_custom_rt_alpn_protocols(c: CustomV)
    ensures
        dec_opt_str_list(vals_of(custom_fields(c))[8]) == (match c.alpn_protocols {
            Option::Some(x) => Some(Some(x)),
            Option::None => Some(None),
        }),
{
    reveal(custom_fields);
    assert(vals_of(custom_fields(c))[8] == custom_fields(c)[8].1);
    if c.alpn_protocols is Some {
        lemma_inv_str_list(c.alpn_protocols->0);
    }
}

proof fn lemma_custom_rt_alps_protocols(c: CustomV)
    ensures
        dec_opt_str_list(vals_of(custom_fields(c))[9]) == (match c.alps_protocols {
            Option::Some(x) => Some(Some(x)),
            Option::None => Some(None),
        }),
{
    reveal(custom_fields);
    assert(vals_of(custom_fields(c))[9] == custom_fields(c)[9].1);
    if c.alps_protocols is Some {
        lemma_inv_str_list(c.alps_protocols->0);
    }
}

proof fn lemma_custom_rt_ech_candidate_cipher_suites(c: CustomV)
    ensures
        opt_dec_suites(vals_of(custom_fields(c))[10]) == (match c.ech_candidate_cipher_suites {
            Option::Some(x) => Some(Some(x)),
            Option::None => Some(None),
        }),
{
    reveal(custom_fields);
    assert(vals_of(custom_fields(c))[10] == custom_fields(c)[10].1);
    if c.ech_candidate_cipher_suites is Some {
        lemma_inv_suites(c.ech_candidate_cipher_suites->0);
    }
}

proof fn lemma_custom_rt_ech_candidate_payloads(c: CustomV)
    ensures
        dec_opt_u16(vals_of(custom_fields(c))[11]) == (match c.ech_candidate_payloads {
            Option::Some(x) => Some(Some(x)),
            Option::None => Some(None),
        }),
{
    reveal(custom_fields);
    assert(vals_of(custom_fields(c))[11] == custom_fields(c)[11].1);
}

proof fn lemma_custom_rt_pseudo_header_order(c: CustomV)
    ensures
        dec_opt_str_list(vals_of(custom_fields(c))[12]) == (match c.pseudo_header_order {
            Option::Some(x) => Some(Some(x)),
            Option::None => Some(None),
        }),
{
    reveal(custom_fields);
    assert(vals_of(custom_fields(c))[12] == custom_fields(c)[12].1);
    if c.pseudo_header_order is Some {
        lemma_inv_str_list(c.pseudo_header_order->0);
    }
}

proof fn lemma_custom_rt_supported_delegated_credentials_algorithms(c: CustomV)
    ensures
        opt_dec_deleg(vals_of(custom_fields(c))[13]) == (match c.supported_delegated_credentials_algorithms {
            Option::Some(x) => Some(Some(x)),
            Option::None => Some(None),
        }),
{
    reveal(custom_fields);
    assert(vals_of(custom_fields(c))[13] == custom_fields(c)[13].1);
    if c.supported_delegated_credentials_algorithms is Some {
        lemma_inv_deleg(c.supported_delegated_credentials_algorithms->0);
    }
}

proof fn lemma_custom_rt_supported_signature_algorithms(c: CustomV)
    ensures
        opt_dec_sigs(vals_of(custom_fields(c))[14]) == (match c.supported_signature_algorithms {
            Option::Some(x) => Some(Some(x)),
            Option::None => Some(None),
        }),
{
    reveal(custom_fields);
    assert(vals_of(custom_fields(c))[14] == custom_fields(c)[14].1);
    if c.supported_signature_algorithms is Some {
        lemma_inv_sigs(c.supported_signature_algorithms->0);
    }
}

proof fn lemma_custom_rt_supported_versions(c: CustomV)
    ensures
        opt_dec_versions(vals_of(custom_fields(c))[15]) == (match c.supported_versions {
            Option::Some(x) => Some(Some(x)),
            Option::None => Some(None),
        }),
{
    reveal(custom_fields);
    assert(vals_of(custom_fields(c))[15] == custom_fields(c)[15].1);
    if c.supported_versions is Some {
        lemma_inv_versions(c.supported_versions->0);
    }
}

proof fn lemma_custom_decoded(c: CustomV)
    ensures
        decode_fl(custom_members(c), custom_keys()) == (vals_of(custom_fields(c)),
            Seq::<(Seq<char>, JsonV)>::empty()),
        vals_of(custom_fields(c)).len() == 16,
{
    reveal(custom_fields);
    lemma_custom_members_fl(c);
    lemma_custom_keys_distinct(c);
    let fs = custom_fields(c);
    lemma_decode_render(fs, Seq::empty());
    assert(render_fl(fs) + Seq::empty() =~= render_fl(fs));
    assert(keys_of(fs) == custom_keys());
}

/// Writing a custom fingerprint and reading it back loses nothing: every set
/// parameter comes back equal and every unset one stays unset.
#[verifier::rlimit(100)]
pub proof fn lemma_custom_round_trip(c: CustomV)
    ensures
        custom_of_json(enc_custom(c)) == Some(c),
{
    lemma_custom_decoded(c);
    lemma_custom_rt_cert_compression_algo(c);
    lemma_custom_rt_connection_flow(c);
    lemma_custom_rt_h2_settings(c);
    lemma_custom_rt_h2_settings_order(c);
    lemma_custom_rt_header_priority(c);
    lemma_custom_rt_ja3_string(c);
    lemma_custom_rt_key_share_curves(c);
    lemma_custom_rt_priority_frames(c);
    lemma_custom_rt_alpn_protocols(c);
    lemma_custom_rt_alps_protocols(c);
    lemma_custom_rt_ech_candidate_cipher_suites(c);
    lemma_custom_rt_ech_candidate_payloads(c);
    lemma_custom_rt_pseudo_header_order(c);
    lemma_custom_rt_supported_delegated_credentials_algorithms(c);
    lemma_custom_rt_supported_signature_algorithms(c);
    lemma_custom_rt_supported_versions(c);
}

/// Transport options in the exact nine-member shape the bridge writes.
pub open spec fn dec_transport(v: JsonV) -> Option<TransportOptions> {
    match v {
        JsonV::Obj(ms) => if ms.len() == 9 && ms[0].0 == "disable_keep_alives"@ && ms[0].1 is Bool
            && ms[1].0 == "disable_compression"@ && ms[1].1 is Bool && ms[2].0 == "max_idle_conns"@
            && ms[2].1 is UInt && ms[2].1->UInt_0 <= u32::MAX && ms[3].0
            == "max_idle_conns_per_host"@ && ms[3].1 is UInt && ms[3].1->UInt_0 <= u32::MAX
            && ms[4].0 == "max_conns_per_host"@ && ms[4].1 is UInt && ms[4].1->UInt_0 <= u32::MAX
            && ms[5].0 == "max_response_header_bytes"@ && ms[5].1 is UInt && ms[5].1->UInt_0
            <= u32::MAX && ms[6].0 == "write_buffer_size"@ && ms[6].1 is UInt && ms[6].1->UInt_0
            <= u32::MAX && ms[7].0 == "read_buffer_size"@ && ms[7].1 is UInt && ms[7].1->UInt_0
            <= u32::MAX && ms[8].0 == "idle_conn_timeout"@ && ms[8].1 is UInt && ms[8].1->UInt_0
            <= u32::MAX {
            Some(TransportOptions {
                disable_keep_alives: ms[0].1->Bool_0,
                disable_compression: ms[1].1->Bool_0,
                max_idle_conns: ms[2].1->UInt_0 as u32,
                max_idle_conns_per_host: ms[3].1->UInt_0 as u32,
                max_conns_per_host: ms[4].1->UInt_0 as u32,
                max_response_header_bytes: ms[5].1->UInt_0 as u32,
                write_buffer_size: ms[6].1->UInt_0 as u32,
                read_buffer_size: ms[7].1->UInt_0 as u32,
                idle_conn_timeout: ms[8].1->UInt_0 as u32,
            })
        } else {
            None
        },
        _ => None,
    }
}

pub proof fn lemma_inv_transport(t: TransportOptions)
    ensures
        dec_transport(enc_transport(t)) == Some(t),
{
}

pub open spec fn opt_dec_transport(o: Option<JsonV>) -> Option<Option<TransportOptions>> {
    match o {
        None => Some(None),
        Some(v) => match dec_transport(v) {
            Some(x) => Some(Some(x)),
            None => None,
        },
    }
}

pub open spec fn opt_dec_custom(o: Option<JsonV>) -> Option<Option<CustomV>> {
    match o {
        None => Some(None),
        Some(v) => match custom_of_json(v) {
            Some(x) => Some(Some(x)),
            None => None,
        },
    }
}

/// The field list a request descriptor renders from: each wire key with the
/// encoded value of the field when it is set.
#[verifier::opaque]
pub open spec fn payload_fields(p: PayloadV) -> Seq<(Seq<char>, Option<JsonV>)> {
    seq![
        ("catchPanics"@, match p.catch_panics { Option::Some(x) => Option::Some(JsonV::Bool(x)), Option::None => Option::None }),
        ("certificatePinningHosts"@, match p.certificate_pinning_hosts { Option::Some(x) => Option::Some(enc_map_ss(x)), Option::None => Option::None }),
        ("customTlsClient"@, match p.custom_tls_client { Option::Some(x) => Option::Some(enc_custom(x)), Option::None => Option::None }),
        ("transportOptions"@, match p.transport_options { Option::Some(x) => Option::Some(enc_transport(x)), Option::None => Option::None }),
        ("followRedirects"@, match p.follow_redirects { Option::Some(x) => Option::Some(JsonV::Bool(x)), Option::None => Option::None }),
        ("forceHttp1"@, match p.force_http_1 { Option::Some(x) => Option::Some(JsonV::Bool(x)), Option::None => Option::None }),
        ("headerOrder"@, match p.header_order { Option::Some(x) => Option::Some(enc_str_list(x)), Option::None => Option::None }),
        ("headers"@, match p.headers { Option::Some(x) => Option::Some(enc_map_ss(x)), Option::None => Option::None }),
        ("insecureSkipVerify"@, match p.insecure_skip_verify { Option::Some(x) => Option::Some(JsonV::Bool(x)), Option::None => Option::None }),
        ("isByteRequest"@, match p.is_byte_request { Option::Some(x) => Option::Some(JsonV::Bool(x)), Option::None => Option::None }),
        ("isByteResponse"@, match p.is_byte_response { Option::Some(x) => Option::Some(JsonV::Bool(x)), Option::None => Option::None }),
        ("isRotatingProxy"@, match p.is_rotating_proxy { Option::Some(x) => Option::Some(JsonV::Bool(x)), Option::None => Option::None }),
        ("proxyUrl"@, match p.proxy_url { Option::Some(x) => Option::Some(JsonV::Str(x)), Option::None => Option::None }),
        ("requestBody"@, match p.request_body { Option::Some(x) => Option::Some(JsonV::Str(x)), Option::None => Option::None }),
        ("requestCookies"@, match p.request_cookies { Option::Some(x) => Option::Some(enc_str_list(x)), Option::None => Option::None }),
        ("defaultHeaders"@, match p.default_headers { Option::Some(x) => Option::Some(enc_map_sl(x)), Option::None => Option::None }),
        ("requestMethod"@, match p.request_method { Option::Some(x) => Option::Some(JsonV::Str(x)), Option::None => Option::None }),
        ("requestUrl"@, match p.request_url { Option::Some(x) => Option::Some(JsonV::Str(x)), Option::None => Option::None }),
        ("disableIPV6"@, match p.disable_ipv6 { Option::Some(x) => Option::Some(JsonV::Bool(x)), Option::None => Option::None }),
        ("localAddress"@, match p.local_address { Option::Some(x) => Option::Some(JsonV::Str(x)), Option::None => Option::None }),
        ("sessionId"@, match p.session_id { Option::Some(x) => Option::Some(JsonV::Str(x)), Option::None => Option::None }),
        ("serverNameOverwrite"@, match p.server_name_overwrite { Option::Some(x) => Option::Some(JsonV::Str(x)), Option::None => Option::None }),
        ("streamOutputBlockSize"@, match p.stream_output_block_size { Option::Some(x) => Option::Some(JsonV::UInt(x as nat)), Option::None => Option::None }),
        ("streamOutputEOFSymbol"@, match p.stream_output_e_o_f_symbol { Option::Some(x) => Option::Some(JsonV::Str(x)), Option::None => Option::None }),
        ("streamOutputPath"@, match p.stream_output_path { Option::Some(x) => Option::Some(JsonV::Str(x)), Option::None => Option::None }),
        ("timeoutMilliseconds"@, match p.timeout_milliseconds { Option::Some(x) => Option::Some(JsonV::UInt(x as nat)), Option::None => Option::None }),
        ("timeoutSeconds"@, match p.timeout_seconds { Option::Some(x) => Option::Some(JsonV::UInt(x as nat)), Option::None => Option::None }),
        ("tlsClientIdentifier"@, match p.tls_client_identifier { Option::Some(x) => Option::Some(JsonV::Str(x.wire_spec())), Option::None => Option::None }),
        ("withDebug"@, match p.with_debug { Option::Some(x) => Option::Some(JsonV::Bool(x)), Option::None => Option::None }),
        ("withDefaultCookieJar"@, match p.with_default_cookie_jar { Option::Some(x) => Option::Some(JsonV::Bool(x)), Option::None => Option::None }),
        ("withoutCookieJar"@, match p.without_cookie_jar { Option::Some(x) => Option::Some(JsonV::Bool(x)), Option::None => Option::None }),
        ("withRandomTLSExtensionOrder"@, match p.with_random_tls_extension_order { Option::Some(x) => Option::Some(JsonV::Bool(x)), Option::None => Option::None }),
    ]
}

pub open spec fn payload_keys() -> Seq<Seq<char>> {
    seq!["catchPanics"@, "certificatePinningHosts"@, "customTlsClient"@, "transportOptions"@, "followRedirects"@, "forceHttp1"@, "headerOrder"@, "headers"@, "insecureSkipVerify"@, "isByteRequest"@, "isByteResponse"@, "isRotatingProxy"@, "proxyUrl"@, "requestBody"@, "requestCookies"@, "defaultHeaders"@, "requestMethod"@, "requestUrl"@, "disableIPV6"@, "localAddress"@, "sessionId"@, "serverNameOverwrite"@, "streamOutputBlockSize"@, "streamOutputEOFSymbol"@, "streamOutputPath"@, "timeoutMilliseconds"@, "timeoutSeconds"@, "tlsClientIdentifier"@, "withDebug"@, "withDefaultCookieJar"@, "withoutCookieJar"@, "withRandomTLSExtensionOrder"@]
}

proof fn lemma_payload_members_fl(p: PayloadV)
    ensures
        payload_members(p) == render_fl(payload_fields(p)),
{
    reveal(payload_fields);
    reveal(crate::request::payload_members);
    let fs = payload_fields(p);
    let s1 = seq![fs[0]];
    assert(s1.drop_first() =~= Seq::<(Seq<char>, Option<JsonV>)>::empty());
    assert(render_fl(s1.drop_first()) == Seq::<(Seq<char>, JsonV)>::empty());
    assert(render_fl(s1) =~= opt_member(fs[0].0, fs[0].1));
    assert(crate::request::seg_rp_catch_panics(p) == opt_member(fs[0].0, fs[0].1));
    let s2 = seq![fs[1]];
    assert(s2.drop_first() =~= Seq::<(Seq<char>, Option<JsonV>)>::empty());
    assert(render_fl(s2.drop_first()) == Seq::<(Seq<char>, JsonV)>::empty());
    assert(render_fl(s2) =~= opt_member(fs[1].0, fs[1].1));
    assert(crate::request::seg_rp_certificate_pinning_hosts(p) == opt_member(fs[1].0, fs[1].1));
    let s3 = seq![fs[2]];
    assert(s3.drop_first() =~= Seq::<(Seq<char>, Option<JsonV>)>::empty());
    assert(render_fl(s3.drop_first()) == Seq::<(Seq<char>, JsonV)>::empty());
    assert(render_fl(s3) =~= opt_member(fs[2].0, fs[2].1));
    assert(crate::request::seg_rp_custom_tls_client(p) == opt_member(fs[2].0, fs[2].1));
    let s4 = seq![fs[3]];
    assert(s4.drop_first() =~= Seq::<(Seq<char>, Option<JsonV>)>::empty());
    assert(render_fl(s4.drop_first()) == Seq::<(Seq<char>, JsonV)>::empty());
    assert(render_fl(s4) =~= opt_member(fs[3].0, fs[3].1));
    assert(crate::request::seg_rp_transport_options(p) == opt_member(fs[3].0, fs[3].1));
    let s5 = seq![fs[4]];
    assert(s5.drop_first() =~= Seq::<(Seq<char>, Option<JsonV>)>::empty());
    assert(render_fl(s5.drop_first()) == Seq::<(Seq<char>, JsonV)>::empty());
    assert(render_fl(s5) =~= opt_member(fs[4].0, fs[4].1));
    assert(crate::request::seg_rp_follow_redirects(p) == opt_member(fs[4].0, fs[4].1));
    let s6 = seq![fs[5]];
    assert(s6.drop_first() =~= Seq::<(Seq<char>, Option<JsonV>)>::empty());
    assert(render_fl(s6.drop_first()) == Seq::<(Seq<char>, JsonV)>::empty());
    assert(render_fl(s6) =~= opt_member(fs[5].0, fs[5].1));
    assert(crate::request::seg_rp_force_http_1(p) == opt_member(fs[5].0, fs[5].1));
    let s7 = seq![fs[6]];
    assert(s7.drop_first() =~= Seq::<(Seq<char>, Option<JsonV>)>::empty());
    assert(render_fl(s7.drop_first()) == Seq::<(Seq<char>, JsonV)>::empty());
    assert(render_fl(s7) =~= opt_member(fs[6].0, fs[6].1));
    assert(crate::request::seg_rp_header_order(p) == opt_member(fs[6].0, fs[6].1));
    let s8 = seq![fs[7]];
    assert(s8.drop_first() =~= Seq::<(Seq<char>, Option<JsonV>)>::empty());
    assert(render_fl(s8.drop_first()) == Seq::<(Seq<char>, JsonV)>::empty());
    assert(render_fl(s8) =~= opt_member(fs[7].0, fs[7].1));
    assert(crate::request::seg_rp_headers(p) == opt_member(fs[7].0, fs[7].1));
    let s9 = seq![fs[8]];
    assert(s9.drop_first() =~= Seq::<(Seq<char>, Option<JsonV>)>::empty());
    assert(render_fl(s9.drop_first()) == Seq::<(Seq<char>, JsonV)>::empty());
    assert(render_fl(s9) =~= opt_member(fs[8].0, fs[8].1));
    assert(crate::request::seg_rp_insecure_skip_verify(p) == opt_member(fs[8].0, fs[8].1));
    let s10 = seq![fs[9]];
    assert(s10.drop_first() =~= Seq::<(Seq<char>, Option<JsonV>)>::empty());
    assert(render_fl(s10.drop_first()) == Seq::<(Seq<char>, JsonV)>::empty());
    assert(render_fl(s10) =~= opt_member(fs[9].0, fs[9].1));
    assert(crate::request::seg_rp_is_byte_request(p) == opt_member(fs[9].0, fs[9].1));
    let s11 = seq![fs[10]];
    assert(s11.drop_first() =~= Seq::<(Seq<char>, Option<JsonV>)>::empty());
    assert(render_fl(s11.drop_first()) == Seq::<(Seq<char>, JsonV)>::empty());
    assert(render_fl(s11) =~= opt_member(fs[10].0, fs[10].1));
    assert(crate::request::seg_rp_is_byte_response(p) == opt_member(fs[10].0, fs[10].1));
    let s12 = seq![fs[11]];
    assert(s12.drop_first() =~= Seq::<(Seq<char>, Option<JsonV>)>::empty());
    assert(render_fl(s12.drop_first()) == Seq::<(Seq<char>, JsonV)>::empty());
    assert(render_fl(s12) =~= opt_member(fs[11].0, fs[11].1));
    assert(crate::request::seg_rp_is_rotating_proxy(p) == opt_member(fs[11].0, fs[11].1));
    let s13 = seq![fs[12]];
    assert(s13.drop_first() =~= Seq::<(Seq<char>, Option<JsonV>)>::empty());
    assert(render_fl(s13.drop_first()) == Seq::<(Seq<char>, JsonV)>::empty());
    assert(render_fl(s13) =~= opt_member(fs[12].0, fs[12].1));
    assert(crate::request::seg_rp_proxy_url(p) == opt_member(fs[12].0, fs[12].1));
    let s14 = seq![fs[13]];
    assert(s14.drop_first() =~= Seq::<(Seq<char>, Option<JsonV>)>::empty());
    assert(render_fl(s14.drop_first()) == Seq::<(Seq<char>, JsonV)>::empty());
    assert(render_fl(s14) =~= opt_member(fs[13].0, fs[13].1));
    assert(crate::request::seg_rp_request_body(p) == opt_member(fs[13].0, fs[13].1));
    let s15 = seq![fs[14]];
    assert(s15.drop_first() =~= Seq::<(Seq<char>, Option<JsonV>)>::empty());
    assert(render_fl(s15.drop_first()) == Seq::<(Seq<char>, JsonV)>::empty());
    assert(render_fl(s15) =~= opt_member(fs[14].0, fs[14].1));
    assert(crate::request::seg_rp_request_cookies(p) == opt_member(fs[14].0, fs[14].1));
    let s16 = seq![fs[15]];
    assert(s16.drop_first() =~= Seq::<(Seq<char>, Option<JsonV>)>::empty());
    assert(render_fl(s16.drop_first()) == Seq::<(Seq<char>, JsonV)>::empty());
    assert(render_fl(s16) =~= opt_member(fs[15].0, fs[15].1));
    assert(crate::request::seg_rp_default_headers(p) == opt_member(fs[15].0, fs[15].1));
    let s17 = seq![fs[16]];
    assert(s17.drop_first() =~= Seq::<(Seq<char>, Option<JsonV>)>::empty());
    assert(render_fl(s17.drop_first()) == Seq::<(Seq<char>, JsonV)>::empty());
    assert(render_fl(s17) =~= opt_member(fs[16].0, fs[16].1));
    assert(crate::request::seg_rp_request_method(p) == opt_member(fs[16].0, fs[16].1));
    let s18 = seq![fs[17]];
    assert(s18.drop_first() =~= Seq::<(Seq<char>, Option<JsonV>)>::empty());
    assert(render_fl(s18.drop_first()) == Seq::<(Seq<char>, JsonV)>::empty());
    assert(render_fl(s18) =~= opt_member(fs[17].0, fs[17].1));
    assert(crate::request::seg_rp_request_url(p) == opt_member(fs[17].0, fs[17].1));
    let s19 = seq![fs[18]];
    assert(s19.drop_first() =~= Seq::<(Seq<char>, Option<JsonV>)>::empty());
    assert(render_fl(s19.drop_first()) == Seq::<(Seq<char>, JsonV)>::empty());
    assert(render_fl(s19) =~= opt_member(fs[18].0, fs[18].1));
    assert(crate::request::seg_rp_disable_ipv6(p) == opt_member(fs[18].0, fs[18].1));
    let s20 = seq![fs[19]];
    assert(s20.drop_first() =~= Seq::<(Seq<char>, Option<JsonV>)>::empty());
    assert(render_fl(s20.drop_first()) == Seq::<(Seq<char>, JsonV)>::empty());
    assert(render_fl(s20) =~= opt_member(fs[19].0, fs[19].1));
    assert(crate::request::seg_rp_local_address(p) == opt_member(fs[19].0, fs[19].1));
    let s21 = seq![fs[20]];
    assert(s21.drop_first() =~= Seq::<(Seq<char>, Option<JsonV>)>::empty());
    assert(render_fl(s21.drop_first()) == Seq::<(Seq<char>, JsonV)>::empty());
    assert(render_fl(s21) =~= opt_member(fs[20].0, fs[20].1));
    assert(crate::request::seg_rp_session_id(p) == opt_member(fs[20].0, fs[20].1));
    let s22 = seq![fs[21]];
    assert(s22.drop_first() =~= Seq::<(Seq<char>, Option<JsonV>)>::empty());
    assert(render_fl(s22.drop_first()) == Seq::<(Seq<char>, JsonV)>::empty());
    assert(render_fl(s22) =~= opt_member(fs[21].0, fs[21].1));
    assert(crate::request::seg_rp_server_name_overwrite(p) == opt_member(fs[21].0, fs[21].1));
    let s23 = seq![fs[22]];
    assert(s23.drop_first() =~= Seq::<(Seq<char>, Option<JsonV>)>::empty());
    assert(render_fl(s23.drop_first()) == Seq::<(Seq<char>, JsonV)>::empty());
    assert(render_fl(s23) =~= opt_member(fs[22].0, fs[22].1));
    assert(crate::request::seg_rp_stream_output_block_size(p) == opt_member(fs[22].0, fs[22].1));
    let s24 = seq![fs[23]];
    assert(s24.drop_first() =~= Seq::<(Seq<char>, Option<JsonV>)>::empty());
    assert(render_fl(s24.drop_first()) == Seq::<(Seq<char>, JsonV)>::empty());
    assert(render_fl(s24) =~= opt_member(fs[23].0, fs[23].1));
    assert(crate::request::seg_rp_stream_output_e_o_f_symbol(p) == opt_member(fs[23].0, fs[23].1));
    let s25 = seq![fs[24]];
    assert(s25.drop_first() =~= Seq::<(Seq<char>, Option<JsonV>)>::empty());
    assert(render_fl(s25.drop_first()) == Seq::<(Seq<char>, JsonV)>::empty());
    assert(render_fl(s25) =~= opt_member(fs[24].0, fs[24].1));
    assert(crate::request::seg_rp_stream_output_path(p) == opt_member(fs[24].0, fs[24].1));
    let s26 = seq![fs[25]];
    assert(s26.drop_first() =~= Seq::<(Seq<char>, Option<JsonV>)>::empty());
    assert(render_fl(s26.drop_first()) == Seq::<(Seq<char>, JsonV)>::empty());
    assert(render_fl(s26) =~= opt_member(fs[25].0, fs[25].1));
    assert(crate::request::seg_rp_timeout_milliseconds(p) == opt_member(fs[25].0, fs[25].1));
    let s27 = seq![fs[26]];
    assert(s27.drop_first() =~= Seq::<(Seq<char>, Option<JsonV>)>::empty());
    assert(render_fl(s27.drop_first()) == Seq::<(Seq<char>, JsonV)>::empty());
    assert(render_fl(s27) =~= opt_member(fs[26].0, fs[26].1));
    assert(crate::request::seg_rp_timeout_seconds(p) == opt_member(fs[26].0, fs[26].1));
    let s28 = seq![fs[27]];
    assert(s28.drop_first() =~= Seq::<(Seq<char>, Option<JsonV>)>::empty());
    assert(render_fl(s28.drop_first()) == Seq::<(Seq<char>, JsonV)>::empty());
    assert(render_fl(s28) =~= opt_member(fs[27].0, fs[27].1));
    assert(crate::request::seg_rp_tls_client_identifier(p) == opt_member(fs[27].0, fs[27].1));
    let s29 = seq![fs[28]];
    assert(s29.drop_first() =~= Seq::<(Seq<char>, Option<JsonV>)>::empty());
    assert(render_fl(s29.drop_first()) == Seq::<(Seq<char>, JsonV)>::empty());
    assert(render_fl(s29) =~= opt_member(fs[28].0, fs[28].1));
    assert(crate::request::seg_rp_with_debug(p) == opt_member(fs[28].0, fs[28].1));
    let s30 = seq![fs[29]];
    assert(s30.drop_first() =~= Seq::<(Seq<char>, Option<JsonV>)>::empty());
    assert(render_fl(s30.drop_first()) == Seq::<(Seq<char>, JsonV)>::empty());
    assert(render_fl(s30) =~= opt_member(fs[29].0, fs[29].1));
    assert(crate::request::seg_rp_with_default_cookie_jar(p) == opt_member(fs[29].0, fs[29].1));
    let s31 = seq![fs[30]];
    assert(s31.drop_first() =~= Seq::<(Seq<char>, Option<JsonV>)>::empty());
    assert(render_fl(s31.drop_first()) == Seq::<(Seq<char>, JsonV)>::empty());
    assert(render_fl(s31) =~= opt_member(fs[30].0, fs[30].1));
    assert(crate::request::seg_rp_without_cookie_jar(p) == opt_member(fs[30].0, fs[30].1));
    let s32 = seq![fs[31]];
    assert(s32.drop_first() =~= Seq::<(Seq<char>, Option<JsonV>)>::empty());
    assert(render_fl(s32.drop_first()) == Seq::<(Seq<char>, JsonV)>::empty());
    assert(render_fl(s32) =~= opt_member(fs[31].0, fs[31].1));
    assert(crate::request::seg_rp_with_random_tls_extension_order(p) == opt_member(fs[31].0, fs[31].1));
    lemma_render_fl_concat(s1, s2);
    lemma_render_fl_concat(s1 + s2, s3);
    lemma_render_fl_concat(s1 + s2 + s3, s4);
    lemma_render_fl_concat(s1 + s2 + s3 + s4, s5);
    lemma_render_fl_concat(s1 + s2 + s3 + s4 + s5, s6);
    lemma_render_fl_concat(s1 + s2 + s3 + s4 + s5 + s6, s7);
    lemma_render_fl_concat(s1 + s2 + s3 + s4 + s5 + s6 + s7, s8);
    lemma_render_fl_concat(s1 + s2 + s3 + s4 + s5 + s6 + s7 + s8, s9);
    lemma_render_fl_concat(s1 + s2 + s3 + s4 + s5 + s6 + s7 + s8 + s9, s10);
    lemma_render_fl_concat(s1 + s2 + s3 + s4 + s5 + s6 + s7 + s8 + s9 + s10, s11);
    lemma_render_fl_concat(s1 + s2 + s3 + s4 + s5 + s6 + s7 + s8 + s9 + s10 + s11, s12);
    lemma_render_fl_concat(s1 + s2 + s3 + s4 + s5 + s6 + s7 + s8 + s9 + s10 + s11 + s12, s13);
    lemma_render_fl_concat(s1 + s2 + s3 + s4 + s5 + s6 + s7 + s8 + s9 + s10 + s11 + s12 + s13, s14);
    lemma_render_fl_concat(s1 + s2 + s3 + s4 + s5 + s6 + s7 + s8 + s9 + s10 + s11 + s12 + s13 + s14, s15);
    lemma_render_fl_concat(s1 + s2 + s3 + s4 + s5 + s6 + s7 + s8 + s9 + s10 + s11 + s12 + s13 + s14 + s15, s16);
    lemma_render_fl_concat(s1 + s2 + s3 + s4 + s5 + s6 + s7 + s8 + s9 + s10 + s11 + s12 + s13 + s14 + s15 + s16, s17);
    lemma_render_fl_concat(s1 + s2 + s3 + s4 + s5 + s6 + s7 + s8 + s9 + s10 + s11 + s12 + s13 + s14 + s15 + s16 + s17, s18);
    lemma_render_fl_concat(s1 + s2 + s3 + s4 + s5 + s6 + s7 + s8 + s9 + s10 + s11 + s12 + s13 + s14 + s15 + s16 + s17 + s18, s19);
    lemma_render_fl_concat(s1 + s2 + s3 + s4 + s5 + s6 + s7 + s8 + s9 + s10 + s11 + s12 + s13 + s14 + s15 + s16 + s17 + s18 + s19, s20);
    lemma_render_fl_concat(s1 + s2 + s3 + s4 + s5 + s6 + s7 + s8 + s9 + s10 + s11 + s12 + s13 + s14 + s15 + s16 + s17 + s18 + s19 + s20, s21);
    lemma_render_fl_concat(s1 + s2 + s3 + s4 + s5 + s6 + s7 + s8 + s9 + s10 + s11 + s12 + s13 + s14 + s15 + s16 + s17 + s18 + s19 + s20 + s21, s22);
    lemma_render_fl_concat(s1 + s2 + s3 + s4 + s5 + s6 + s7 + s8 + s9 + s10 + s11 + s12 + s13 + s14 + s15 + s16 + s17 + s18 + s19 + s20 + s21 + s22, s23);
    lemma_render_fl_concat(s1 + s2 + s3 + s4 + s5 + s6 + s7 + s8 + s9 + s10 + s11 + s12 + s13 + s14 + s15 + s16 + s17 + s18 + s19 + s20 + s21 + s22 + s23, s24);
    lemma_render_fl_concat(s1 + s2 + s3 + s4 + s5 + s6 + s7 + s8 + s9 + s10 + s11 + s12 + s13 + s14 + s15 + s16 + s17 + s18 + s19 + s20 + s21 + s22 + s23 + s24, s25);
    lemma_render_fl_concat(s1 + s2 + s3 + s4 + s5 + s6 + s7 + s8 + s9 + s10 + s11 + s12 + s13 + s14 + s15 + s16 + s17 + s18 + s19 + s20 + s21 + s22 + s23 + s24 + s25, s26);
    lemma_render_fl_concat(s1 + s2 + s3 + s4 + s5 + s6 + s7 + s8 + s9 + s10 + s11 + s12 + s13 + s14 + s15 + s16 + s17 + s18 + s19 + s20 + s21 + s22 + s23 + s24 + s25 + s26, s27);
    lemma_render_fl_concat(s1 + s2 + s3 + s4 + s5 + s6 + s7 + s8 + s9 + s10 + s11 + s12 + s13 + s14 + s15 + s16 + s17 + s18 + s19 + s20 + s21 + s22 + s23 + s24 + s25 + s26 + s27, s28);
    lemma_render_fl_concat(s1 + s2 + s3 + s4 + s5 + s6 + s7 + s8 + s9 + s10 + s11 + s12 + s13 + s14 + s15 + s16 + s17 + s18 + s19 + s20 + s21 + s22 + s23 + s24 + s25 + s26 + s27 + s28, s29);
    lemma_render_fl_concat(s1 + s2 + s3 + s4 + s5 + s6 + s7 + s8 + s9 + s10 + s11 + s12 + s13 + s14 + s15 + s16 + s17 + s18 + s19 + s20 + s21 + s22 + s23 + s24 + s25 + s26 + s27 + s28 + s29, s30);
    lemma_render_fl_concat(s1 + s2 + s3 + s4 + s5 + s6 + s7 + s8 + s9 + s10 + s11 + s12 + s13 + s14 + s15 + s16 + s17 + s18 + s19 + s20 + s21 + s22 + s23 + s24 + s25 + s26 + s27 + s28 + s29 + s30, s31);
    lemma_render_fl_concat(s1 + s2 + s3 + s4 + s5 + s6 + s7 + s8 + s9 + s10 + s11 + s12 + s13 + s14 + s15 + s16 + s17 + s18 + s19 + s20 + s21 + s22 + s23 + s24 + s25 + s26 + s27 + s28 + s29 + s30 + s31, s32);
    assert(s1 + s2 + s3 + s4 + s5 + s6 + s7 + s8 + s9 + s10 + s11 + s12 + s13 + s14 + s15 + s16 + s17 + s18 + s19 + s20 + s21 + s22 + s23 + s24 + s25 + s26 + s27 + s28 + s29 + s30 + s31 + s32 =~= fs);
    assert(payload_members(p) == render_fl(fs));
}

proof fn lemma_payload_keys_distinct(p: PayloadV)
    ensures
        distinct_keys(payload_fields(p)),
        keys_of(payload_fields(p)) =~= payload_keys(),
{
    reveal(payload_fields);
    reveal_strlit("catchPanics");
    reveal_strlit("certificatePinningHosts");
    reveal_strlit("customTlsClient");
    reveal_strlit("defaultHeaders");
    reveal_strlit("disableIPV6");
    reveal_strlit("followRedirects");
    reveal_strlit("forceHttp1");
    reveal_strlit("headerOrder");
    reveal_strlit("headers");
    reveal_strlit("insecureSkipVerify");
    reveal_strlit("isByteRequest");
    reveal_strlit("isByteResponse");
    reveal_strlit("isRotatingProxy");
    reveal_strlit("localAddress");
    reveal_strlit("proxyUrl");
    reveal_strlit("requestBody");
    reveal_strlit("requestCookies");
    reveal_strlit("requestMethod");
    reveal_strlit("requestUrl");
    reveal_strlit("serverNameOverwrite");
    reveal_strlit("sessionId");
    reveal_strlit("streamOutputBlockSize");
    reveal_strlit("streamOutputEOFSymbol");
    reveal_strlit("streamOutputPath");
    reveal_strlit("timeoutMilliseconds");
    reveal_strlit("timeoutSeconds");
    reveal_strlit("tlsClientIdentifier");
    reveal_strlit("transportOptions");
    reveal_strlit("withDebug");
    reveal_strlit("withDefaultCookieJar");
    reveal_strlit("withRandomTLSExtensionOrder");
    reveal_strlit("withoutCookieJar");
    assert(("catchPanics"@).len() == 11);
    assert(("certificatePinningHosts"@).len() == 23);
    assert(("customTlsClient"@).len() == 15);
    assert(("defaultHeaders"@).len() == 14);
    assert(("disableIPV6"@).len() == 11);
    assert(("followRedirects"@).len() == 15);
    assert(("forceHttp1"@).len() == 10);
    assert(("headerOrder"@).len() == 11);
    assert(("headers"@).len() == 7);
    assert(("insecureSkipVerify"@).len() == 18);
    assert(("isByteRequest"@).len() == 13);
    assert(("isByteResponse"@).len() == 14);
    assert(("isRotatingProxy"@).len() == 15);
    assert(("localAddress"@).len() == 12);
    assert(("proxyUrl"@).len() == 8);
    assert(("requestBody"@).len() == 11);
    assert(("requestCookies"@).len() == 14);
    assert(("requestMethod"@).len() == 13);
    assert(("requestUrl"@).len() == 10);
    assert(("serverNameOverwrite"@).len() == 19);
    assert(("sessionId"@).len() == 9);
    assert(("streamOutputBlockSize"@).len() == 21);
    assert(("streamOutputEOFSymbol"@).len() == 21);
    assert(("streamOutputPath"@).len() == 16);
    assert(("timeoutMilliseconds"@).len() == 19);
    assert(("timeoutSeconds"@).len() == 14);
    assert(("tlsClientIdentifier"@).len() == 19);
    assert(("transportOptions"@).len() == 16);
    assert(("withDebug"@).len() == 9);
    assert(("withDefaultCookieJar"@).len() == 20);
    assert(("withRandomTLSExtensionOrder"@).len() == 27);
    assert(("withoutCookieJar"@).len() == 16);
    assert(("catchPanics"@)[0] != ("headerOrder"@)[0]);
    assert("catchPanics"@ != "headerOrder"@);
    assert(("catchPanics"@)[0] != ("requestBody"@)[0]);
    assert("catchPanics"@ != "requestBody"@);
    assert(("catchPanics"@)[0] != ("disableIPV6"@)[0]);
    assert("catchPanics"@ != "disableIPV6"@);
    assert(("headerOrder"@)[0] != ("requestBody"@)[0]);
    assert("headerOrder"@ != "requestBody"@);
    assert(("headerOrder"@)[0] != ("disableIPV6"@)[0]);
    assert("headerOrder"@ != "disableIPV6"@);
    assert(("requestBody"@)[0] != ("disableIPV6"@)[0]);
    assert("requestBody"@ != "disableIPV6"@);
    assert(("customTlsClient"@)[0] != ("followRedirects"@)[0]);
    assert("customTlsClient"@ != "followRedirects"@);
    assert(("customTlsClient"@)[0] != ("isRotatingProxy"@)[0]);
    assert("customTlsClient"@ != "isRotatingProxy"@);
    assert(("followRedirects"@)[0] != ("isRotatingProxy"@)[0]);
    assert("followRedirects"@ != "isRotatingProxy"@);
    assert(("transportOptions"@)[0] != ("streamOutputPath"@)[0]);
    assert("transportOptions"@ != "streamOutputPath"@);
    assert(("transportOptions"@)[0] != ("withoutCookieJar"@)[0]);
    assert("transportOptions"@ != "withoutCookieJar"@);
    assert(("streamOutputPath"@)[0] != ("withoutCookieJar"@)[0]);
    assert("streamOutputPath"@ != "withoutCookieJar"@);
    assert(("forceHttp1"@)[0] != ("requestUrl"@)[0]);
    assert("forceHttp1"@ != "requestUrl"@);
    assert(("isByteRequest"@)[0] != ("requestMethod"@)[0]);
    assert("isByteRequest"@ != "requestMethod"@);
    assert(("isByteResponse"@)[0] != ("requestCookies"@)[0]);
    assert("isByteResponse"@ != "requestCookies"@);
    assert(("isByteResponse"@)[0] != ("defaultHeaders"@)[0]);
    assert("isByteResponse"@ != "defaultHeaders"@);
    assert(("isByteResponse"@)[0] != ("timeoutSeconds"@)[0]);
    assert("isByteResponse"@ != "timeoutSeconds"@);
    assert(("requestCookies"@)[0] != ("defaultHeaders"@)[0]);
    assert("requestCookies"@ != "defaultHeaders"@);
    assert(("requestCookies"@)[0] != ("timeoutSeconds"@)[0]);
    assert("requestCookies"@ != "timeoutSeconds"@);
    assert(("defaultHeaders"@)[0] != ("timeoutSeconds"@)[0]);
    assert("defaultHeaders"@ != "timeoutSeconds"@);
    assert(("sessionId"@)[0] != ("withDebug"@)[0]);
    assert("sessionId"@ != "withDebug"@);
    assert(("serverNameOverwrite"@)[0] != ("timeoutMilliseconds"@)[0]);
    assert("serverNameOverwrite"@ != "timeoutMilliseconds"@);
    assert(("serverNameOverwrite"@)[0] != ("tlsClientIdentifier"@)[0]);
    assert("serverNameOverwrite"@ != "tlsClientIdentifier"@);
    assert(("timeoutMilliseconds"@)[1] != ("tlsClientIdentifier"@)[1]);
    assert("timeoutMilliseconds"@ != "tlsClientIdentifier"@);
    assert(("streamOutputBlockSize"@)[12] != ("streamOutputEOFSymbol"@)[12]);
    assert("streamOutputBlockSize"@ != "streamOutputEOFSymbol"@);
}

/// A descriptor rebuilt from its split member values, each read strictly in
/// the form the bridge itself writes.
pub open spec fn payload_rebuild(ps: Seq<Option<JsonV>>) -> Option<PayloadV> {
    let f_catch_panics = dec_opt_bool(ps[0]);
    let f_certificate_pinning_hosts = dec_opt_map_ss(ps[1]);
    let f_custom_tls_client = opt_dec_custom(ps[2]);
    let f_transport_options = opt_dec_transport(ps[3]);
    let f_follow_redirects = dec_opt_bool(ps[4]);
    let f_force_http_1 = dec_opt_bool(ps[5]);
    let f_header_order = dec_opt_str_list(ps[6]);
    let f_headers = dec_opt_map_ss(ps[7]);
    let f_insecure_skip_verify = dec_opt_bool(ps[8]);
    let f_is_byte_request = dec_opt_bool(ps[9]);
    let f_is_byte_response = dec_opt_bool(ps[10]);
    let f_is_rotating_proxy = dec_opt_bool(ps[11]);
    let f_proxy_url = dec_opt_str(ps[12]);
    let f_request_body = dec_opt_str(ps[13]);
    let f_request_cookies = dec_opt_str_list(ps[14]);
    let f_default_headers = dec_opt_map_sl(ps[15]);
    let f_request_method = dec_opt_str(ps[16]);
    let f_request_url = dec_opt_str(ps[17]);
    let f_disable_ipv6 = dec_opt_bool(ps[18]);
    let f_local_address = dec_opt_str(ps[19]);
    let f_session_id = dec_opt_str(ps[20]);
    let f_server_name_overwrite = dec_opt_str(ps[21]);
    let f_stream_output_block_size = dec_opt_u32(ps[22]);
    let f_stream_output_e_o_f_symbol = dec_opt_str(ps[23]);
    let f_stream_output_path = dec_opt_str(ps[24]);
    let f_timeout_milliseconds = dec_opt_u32(ps[25]);
    let f_timeout_seconds = dec_opt_u32(ps[26]);
    let f_tls_client_identifier = dec_opt_ident(ps[27]);
    let f_with_debug = dec_opt_bool(ps[28]);
    let f_with_default_cookie_jar = dec_opt_bool(ps[29]);
    let f_without_cookie_jar = dec_opt_bool(ps[30]);
    let f_with_random_tls_extension_order = dec_opt_bool(ps[31]);
    if ps.len() == 32 && f_catch_panics is Some && f_certificate_pinning_hosts is Some && f_custom_tls_client is Some && f_transport_options is Some && f_follow_redirects is Some && f_force_http_1 is Some && f_header_order is Some && f_headers is Some && f_insecure_skip_verify is Some && f_is_byte_request is Some && f_is_byte_response is Some && f_is_rotating_proxy is Some && f_proxy_url is Some && f_request_body is Some && f_request_cookies is Some && f_default_headers is Some && f_request_method is Some && f_request_url is Some && f_disable_ipv6 is Some && f_local_address is Some && f_session_id is Some && f_server_name_overwrite is Some && f_stream_output_block_size is Some && f_stream_output_e_o_f_symbol is Some && f_stream_output_path is Some && f_timeout_milliseconds is Some && f_timeout_seconds is Some && f_tls_client_identifier is Some && f_with_debug is Some && f_with_default_cookie_jar is Some && f_without_cookie_jar is Some && f_with_random_tls_extension_order is Some {
        Some(PayloadV {
            catch_panics: f_catch_panics->0,
            certificate_pinning_hosts: f_certificate_pinning_hosts->0,
            custom_tls_client: f_custom_tls_client->0,
            transport_options: f_transport_options->0,
            follow_redirects: f_follow_redirects->0,
            force_http_1: f_force_http_1->0,
            header_order: f_header_order->0,
            headers: f_headers->0,
            insecure_skip_verify: f_insecure_skip_verify->0,
            is_byte_request: f_is_byte_request->0,
            is_byte_response: f_is_byte_response->0,
            is_rotating_proxy: f_is_rotating_proxy->0,
            proxy_url: f_proxy_url->0,
            request_body: f_request_body->0,
            request_cookies: f_request_cookies->0,
            default_headers: f_default_headers->0,
            request_method: f_request_method->0,
            request_url: f_request_url->0,
            disable_ipv6: f_disable_ipv6->0,
            local_address: f_local_address->0,
            session_id: f_session_id->0,
            server_name_overwrite: f_server_name_overwrite->0,
            stream_output_block_size: f_stream_output_block_size->0,
            stream_output_e_o_f_symbol: f_stream_output_e_o_f_symbol->0,
            stream_output_path: f_stream_output_path->0,
            timeout_milliseconds: f_timeout_milliseconds->0,
            timeout_seconds: f_timeout_seconds->0,
            tls_client_identifier: f_tls_client_identifier->0,
            with_debug: f_with_debug->0,
            with_default_cookie_jar: f_with_default_cookie_jar->0,
            without_cookie_jar: f_without_cookie_jar->0,
            with_random_tls_extension_order: f_with_random_tls_extension_order->0,
        })
    } else {
        None
    }
}

/// What a request-descriptor wire object means, read strictly in the form
/// the bridge itself writes.
pub open spec fn payload_of_json(j: JsonV) -> Option<PayloadV> {
    match j {
        JsonV::Obj(ms) => {
            let pr = decode_fl(ms, payload_keys());
            if pr.1.len() == 0 {
                payload_rebuild(pr.0)
            } else {
                None
            }
        },
        _ => None,
    }
}

proof fn lemma_payload_decoded(p: PayloadV)
    ensures
        decode_fl(payload_members(p), payload_keys()) == (vals_of(payload_fields(p)),
            Seq::<(Seq<char>, JsonV)>::empty()),
        vals_of(payload_fields(p)).len() == 32,
{
    lemma_payload_members_fl(p);
    lemma_payload_keys_distinct(p);
    let fs = payload_fields(p);
    lemma_decode_render(fs, Seq::empty());
    assert(render_fl(fs) + Seq::empty() =~= render_fl(fs));
    assert(keys_of(fs) == payload_keys());
}

proof fn lemma_payload_rt_catch_panics(p: PayloadV)
    ensures
        dec_opt_bool(vals_of(payload_fields(p))[0]) == (match p.catch_panics {
            Option::Some(x) => Some(Some(x)),
            Option::None => Some(None),
        }),
{
    reveal(payload_fields);
    assert(vals_of(payload_fields(p))[0] == payload_fields(p)[0].1);
}

proof fn lemma_payload_rt_certificate_pinning_hosts(p: PayloadV)
    ensures
        dec_opt_map_ss(vals_of(payload_fields(p))[1]) == (match p.certificate_pinning_hosts {
            Option::Some(x) => Some(Some(x)),
            Option::None => Some(None),
        }),
{
    reveal(payload_fields);
    assert(vals_of(payload_fields(p))[1] == payload_fields(p)[1].1);
    if p.certificate_pinning_hosts is Some {
        lemma_inv_map_ss(p.certificate_pinning_hosts->0);
    }
}

proof fn lemma_payload_rt_custom_tls_client(p: PayloadV)
    ensures
        opt_dec_custom(vals_of(payload_fields(p))[2]) == (match p.custom_tls_client {
            Option::Some(x) => Some(Some(x)),
            Option::None => Some(None),
        }),
{
    reveal(payload_fields);
    assert(vals_of(payload_fields(p))[2] == payload_fields(p)[2].1);
    if p.custom_tls_client is Some {
        lemma_custom_round_trip(p.custom_tls_client->0);
    }
}

proof fn lemma_payload_rt_transport_options(p: PayloadV)
    ensures
        opt_dec_transport(vals_of(payload_fields(p))[3]) == (match p.transport_options {
            Option::Some(x) => Some(Some(x)),
            Option::None => Some(None),
        }),
{
    reveal(payload_fields);
    assert(vals_of(payload_fields(p))[3] == payload_fields(p)[3].1);
    if p.transport_options is Some {
        lemma_inv_transport(p.transport_options->0);
    }
}

proof fn lemma_payload_rt_follow_redirects(p: PayloadV)
    ensures
        dec_opt_bool(vals_of(payload_fields(p))[4]) == (match p.follow_redirects {
            Option::Some(x) => Some(Some(x)),
            Option::None => Some(None),
        }),
{
    reveal(payload_fields);
    assert(vals_of(payload_fields(p))[4] == payload_fields(p)[4].1);
}

proof fn lemma_payload_rt_force_http_1(p: PayloadV)
    ensures
        dec_opt_bool(vals_of(payload_fields(p))[5]) == (match p.force_http_1 {
            Option::Some(x) => Some(Some(x)),
            Option::None => Some(None),
        }),
{
    reveal(payload_fields);
    assert(vals_of(payload_fields(p))[5] == payload_fields(p)[5].1);
}

proof fn lemma_payload_rt_header_order(p: PayloadV)
    ensures
        dec_opt_str_list(vals_of(payload_fields(p))[6]) == (match p.header_order {
            Option::Some(x) => Some(Some(x)),
            Option::None => Some(None),
        }),
{
    reveal(payload_fields);
    assert(vals_of(payload_fields(p))[6] == payload_fields(p)[6].1);
    if p.header_order is Some {
        lemma_inv_str_list(p.header_order->0);
    }
}

proof fn lemma_payload_rt_headers(p: PayloadV)
    ensures
        dec_opt_map_ss(vals_of(payload_fields(p))[7]) == (match p.headers {
            Option::Some(x) => Some(Some(x)),
            Option::None => Some(None),
        }),
{
    reveal(payload_fields);
    assert(vals_of(payload_fields(p))[7] == payload_fields(p)[7].1);
    if p.headers is Some {
        lemma_inv_map_ss(p.headers->0);
    }
}

proof fn lemma_payload_rt_insecure_skip_verify(p: PayloadV)
    ensures
        dec_opt_bool(vals_of(payload_fields(p))[8]) == (match p.insecure_skip_verify {
            Option::Some(x) => Some(Some(x)),
            Option::None => Some(None),
        }),
{
    reveal(payload_fields);
    assert(vals_of(payload_fields(p))[8] == payload_fields(p)[8].1);
}

proof fn lemma_payload_rt_is_byte_request(p: PayloadV)
    ensures
        dec_opt_bool(vals_of(payload_fields(p))[9]) == (match p.is_byte_request {
            Option::Some(x) => Some(Some(x)),
            Option::None => Some(None),
        }),
{
    reveal(payload_fields);
    assert(vals_of(payload_fields(p))[9] == payload_fields(p)[9].1);
}

proof fn lemma_payload_rt_is_byte_response(p: PayloadV)
    ensures
        dec_opt_bool(vals_of(payload_fields(p))[10]) == (match p.is_byte_response {
            Option::Some(x) => Some(Some(x)),
            Option::None => Some(None),
        }),
{
    reveal(payload_fields);
    assert(vals_of(payload_fields(p))[10] == payload_fields(p)[10].1);
}

proof fn lemma_payload_rt_is_rotating_proxy(p: PayloadV)
    ensures
        dec_opt_bool(vals_of(payload_fields(p))[11]) == (match p.is_rotating_proxy {
            Option::Some(x) => Some(Some(x)),
            Option::None => Some(None),
        }),
{
    reveal(payload_fields);
    assert(vals_of(payload_fields(p))[11] == payload_fields(p)[11].1);
}

proof fn lemma_payload_rt_proxy_url(p: PayloadV)
    ensures
        dec_opt_str(vals_of(payload_fields(p))[12]) == (match p.proxy_url {
            Option::Some(x) => Some(Some(x)),
            Option::None => Some(None),
        }),
{
    reveal(payload_fields);
    assert(vals_of(payload_fields(p))[12] == payload_fields(p)[12].1);
}

proof fn lemma_payload_rt_request_body(p: PayloadV)
    ensures
        dec_opt_str(vals_of(payload_fields(p))[13]) == (match p.request_body {
            Option::Some(x) => Some(Some(x)),
            Option::None => Some(None),
        }),
{
    reveal(payload_fields);
    assert(vals_of(payload_fields(p))[13] == payload_fields(p)[13].1);
}

proof fn lemma_payload_rt_request_cookies(p: PayloadV)
    ensures
        dec_opt_str_list(vals_of(payload_fields(p))[14]) == (match p.request_cookies {
            Option::Some(x) => Some(Some(x)),
            Option::None => Some(None),
        }),
{
    reveal(payload_fields);
    assert(vals_of(payload_fields(p))[14] == payload_fields(p)[14].1);
    if p.request_cookies is Some {
        lemma_inv_str_list(p.request_cookies->0);
    }
}

proof fn lemma_payload_rt_default_headers(p: PayloadV)
    ensures
        dec_opt_map_sl(vals_of(payload_fields(p))[15]) == (match p.default_headers {
            Option::Some(x) => Some(Some(x)),
            Option::None => Some(None),
        }),
{
    reveal(payload_fields);
    assert(vals_of(payload_fields(p))[15] == payload_fields(p)[15].1);
    if p.default_headers is Some {
        lemma_inv_map_sl(p.default_headers->0);
    }
}

proof fn lemma_payload_rt_request_method(p: PayloadV)
    ensures
        dec_opt_str(vals_of(payload_fields(p))[16]) == (match p.request_method {
            Option::Some(x) => Some(Some(x)),
            Option::None => Some(None),
        }),
{
    reveal(payload_fields);
    assert(vals_of(payload_fields(p))[16] == payload_fields(p)[16].1);
}

proof fn lemma_payload_rt_request_url(p: PayloadV)
    ensures
        dec_opt_str(vals_of(payload_fields(p))[17]) == (match p.request_url {
            Option::Some(x) => Some(Some(x)),
            Option::None => Some(None),
        }),
{
    reveal(payload_fields);
    assert(vals_of(payload_fields(p))[17] == payload_fields(p)[17].1);
}

proof fn lemma_payload_rt_disable_ipv6(p: PayloadV)
    ensures
        dec_opt_bool(vals_of(payload_fields(p))[18]) == (match p.disable_ipv6 {
            Option::Some(x) => Some(Some(x)),
            Option::None => Some(None),
        }),
{
    reveal(payload_fields);
    assert(vals_of(payload_fields(p))[18] == payload_fields(p)[18].1);
}

proof fn lemma_payload_rt_local_address(p: PayloadV)
    ensures
        dec_opt_str(vals_of(payload_fields(p))[19]) == (match p.local_address {
            Option::Some(x) => Some(Some(x)),
            Option::None => Some(None),
        }),
{
    reveal(payload_fields);
    assert(vals_of(payload_fields(p))[19] == payload_fields(p)[19].1);
}

proof fn lemma_payload_rt_session_id(p: PayloadV)
    ensures
        dec_opt_str(vals_of(payload_fields(p))[20]) == (match p.session_id {
            Option::Some(x) => Some(Some(x)),
            Option::None => Some(None),
        }),
{
    reveal(payload_fields);
    assert(vals_of(payload_fields(p))[20] == payload_fields(p)[20].1);
}

proof fn lemma_payload_rt_server_name_overwrite(p: PayloadV)
    ensures
        dec_opt_str(vals_of(payload_fields(p))[21]) == (match p.server_name_overwrite {
            Option::Some(x) => Some(Some(x)),
            Option::None => Some(None),
        }),
{
    reveal(payload_fields);
    assert(vals_of(payload_fields(p))[21] == payload_fields(p)[21].1);
}

proof fn lemma_payload_rt_stream_output_block_size(p: PayloadV)
    ensures
        dec_opt_u32(vals_of(payload_fields(p))[22]) == (match p.stream_output_block_size {
            Option::Some(x) => Some(Some(x)),
            Option::None => Some(None),
        }),
{
    reveal(payload_fields);
    assert(vals_of(payload_fields(p))[22] == payload_fields(p)[22].1);
}

proof fn lemma_payload_rt_stream_output_e_o_f_symbol(p: PayloadV)
    ensures
        dec_opt_str(vals_of(payload_fields(p))[23]) == (match p.stream_output_e_o_f_symbol {
            Option::Some(x) => Some(Some(x)),
            Option::None => Some(None),
        }),
{
    reveal(payload_fields);
    assert(vals_of(payload_fields(p))[23] == payload_fields(p)[23].1);
}

proof fn lemma_payload_rt_stream_output_path(p: PayloadV)
    ensures
        dec_opt_str(vals_of(payload_fields(p))[24]) == (match p.stream_output_path {
            Option::Some(x) => Some(Some(x)),
            Option::None => Some(None),
        }),
{
    reveal(payload_fields);
    assert(vals_of(payload_fields(p))[24] == payload_fields(p)[24].1);
}

proof fn lemma_payload_rt_timeout_milliseconds(p: PayloadV)
    ensures
        dec_opt_u32(vals_of(payload_fields(p))[25]) == (match p.timeout_milliseconds {
            Option::Some(x) => Some(Some(x)),
            Option::None => Some(None),
        }),
{
    reveal(payload_fields);
    assert(vals_of(payload_fields(p))[25] == payload_fields(p)[25].1);
}

proof fn lemma_payload_rt_timeout_seconds(p: PayloadV)
    ensures
        dec_opt_u32(vals_of(payload_fields(p))[26]) == (match p.timeout_seconds {
            Option::Some(x) => Some(Some(x)),
            Option::None => Some(None),
        }),
{
    reveal(payload_fields);
    assert(vals_of(payload_fields(p))[26] == payload_fields(p)[26].1);
}

proof fn lemma_payload_rt_tls_client_identifier(p: PayloadV)
    requires
        p.tls_client_identifier != Some(ClientIdentifier::SafariIPadOS156),
    ensures
        dec_opt_ident(vals_of(payload_fields(p))[27]) == (match p.tls_client_identifier {
            Option::Some(x) => Some(Some(x)),
            Option::None => Some(None),
        }),
{
    reveal(payload_fields);
    assert(vals_of(payload_fields(p))[27] == payload_fields(p)[27].1);
    if p.tls_client_identifier is Some {
        crate::types::lemma_clientidentifier_wire_inverse(p.tls_client_identifier->0);
    }
}

proof fn lemma_payload_rt_with_debug(p: PayloadV)
    ensures
        dec_opt_bool(vals_of(payload_fields(p))[28]) == (match p.with_debug {
            Option::Some(x) => Some(Some(x)),
            Option::None => Some(None),
        }),
{
    reveal(payload_fields);
    assert(vals_of(payload_fields(p))[28] == payload_fields(p)[28].1);
}

proof fn lemma_payload_rt_with_default_cookie_jar(p: PayloadV)
    ensures
        dec_opt_bool(vals_of(payload_fields(p))[29]) == (match p.with_default_cookie_jar {
            Option::Some(x) => Some(Some(x)),
            Option::None => Some(None),
        }),
{
    reveal(payload_fields);
    assert(vals_of(payload_fields(p))[29] == payload_fields(p)[29].1);
}

proof fn lemma_payload_rt_without_cookie_jar(p: PayloadV)
    ensures
        dec_opt_bool(vals_of(payload_fields(p))[30]) == (match p.without_cookie_jar {
            Option::Some(x) => Some(Some(x)),
            Option::None => Some(None),
        }),
{
    reveal(payload_fields);
    assert(vals_of(payload_fields(p))[30] == payload_fields(p)[30].1);
}

proof fn lemma_payload_rt_with_random_tls_extension_order(p: PayloadV)
    ensures
        dec_opt_bool(vals_of(payload_fields(p))[31]) == (match p.with_random_tls_extension_order {
            Option::Some(x) => Some(Some(x)),
            Option::None => Some(None),
        }),
{
    reveal(payload_fields);
    assert(vals_of(payload_fields(p))[31] == payload_fields(p)[31].1);
}

proof fn lemma_payload_fields_len(p: PayloadV)
    ensures
        payload_fields(p).len() == 32,
        vals_of(payload_fields(p)).len() == 32,
{
    reveal(payload_fields);
}

#[verifier::rlimit(100)]
proof fn lemma_payload_rebuild_some(p: PayloadV)
    requires
        p.tls_client_identifier != Some(ClientIdentifier::SafariIPadOS156),
    ensures
        payload_rebuild(vals_of(payload_fields(p))) is Some,
{
    lemma_payload_fields_len(p);
    lemma_payload_rt_catch_panics(p);
    lemma_payload_rt_certificate_pinning_hosts(p);
    lemma_payload_rt_custom_tls_client(p);
    lemma_payload_rt_transport_options(p);
    lemma_payload_rt_follow_redirects(p);
    lemma_payload_rt_force_http_1(p);
    lemma_payload_rt_header_order(p);
    lemma_payload_rt_headers(p);
    lemma_payload_rt_insecure_skip_verify(p);
    lemma_payload_rt_is_byte_request(p);
    lemma_payload_rt_is_byte_response(p);
    lemma_payload_rt_is_rotating_proxy(p);
    lemma_payload_rt_proxy_url(p);
    lemma_payload_rt_request_body(p);
    lemma_payload_rt_request_cookies(p);
    lemma_payload_rt_default_headers(p);
    lemma_payload_rt_request_method(p);
    lemma_payload_rt_request_url(p);
    lemma_payload_rt_disable_ipv6(p);
    lemma_payload_rt_local_address(p);
    lemma_payload_rt_session_id(p);
    lemma_payload_rt_server_name_overwrite(p);
    lemma_payload_rt_stream_output_block_size(p);
    lemma_payload_rt_stream_output_e_o_f_symbol(p);
    lemma_payload_rt_stream_output_path(p);
    lemma_payload_rt_timeout_milliseconds(p);
    lemma_payload_rt_timeout_seconds(p);
    lemma_payload_rt_tls_client_identifier(p);
    lemma_payload_rt_with_debug(p);
    lemma_payload_rt_with_default_cookie_jar(p);
    lemma_payload_rt_without_cookie_jar(p);
    lemma_payload_rt_with_random_tls_extension_order(p);
}

#[verifier::rlimit(100)]
proof fn lemma_payload_rebuilt_part1(p: PayloadV)
    requires
        p.tls_client_identifier != Some(ClientIdentifier::SafariIPadOS156),
    ensures
        payload_rebuild(vals_of(payload_fields(p)))->0.catch_panics == p.catch_panics,
        payload_rebuild(vals_of(payload_fields(p)))->0.certificate_pinning_hosts == p.certificate_pinning_hosts,
        payload_rebuild(vals_of(payload_fields(p)))->0.custom_tls_client == p.custom_tls_client,
        payload_rebuild(vals_of(payload_fields(p)))->0.transport_options == p.transport_options,
        payload_rebuild(vals_of(payload_fields(p)))->0.follow_redirects == p.follow_redirects,
        payload_rebuild(vals_of(payload_fields(p)))->0.force_http_1 == p.force_http_1,
        payload_rebuild(vals_of(payload_fields(p)))->0.header_order == p.header_order,
        payload_rebuild(vals_of(payload_fields(p)))->0.headers == p.headers,
{
    lemma_payload_rebuild_some(p);
    lemma_payload_rt_catch_panics(p);
    lemma_payload_rt_certificate_pinning_hosts(p);
    lemma_payload_rt_custom_tls_client(p);
    lemma_payload_rt_transport_options(p);
    lemma_payload_rt_follow_redirects(p);
    lemma_payload_rt_force_http_1(p);
    lemma_payload_rt_header_order(p);
    lemma_payload_rt_headers(p);
}

#[verifier::rlimit(100)]
proof fn lemma_payload_rebuilt_part2(p: PayloadV)
    requires
        p.tls_client_identifier != Some(ClientIdentifier::SafariIPadOS156),
    ensures
        payload_rebuild(vals_of(payload_fields(p)))->0.insecure_skip_verify == p.insecure_skip_verify,
        payload_rebuild(vals_of(payload_fields(p)))->0.is_byte_request == p.is_byte_request,
        payload_rebuild(vals_of(payload_fields(p)))->0.is_byte_response == p.is_byte_response,
        payload_rebuild(vals_of(payload_fields(p)))->0.is_rotating_proxy == p.is_rotating_proxy,
        payload_rebuild(vals_of(payload_fields(p)))->0.proxy_url == p.proxy_url,
        payload_rebuild(vals_of(payload_fields(p)))->0.request_body == p.request_body,
        payload_rebuild(vals_of(payload_fields(p)))->0.request_cookies == p.request_cookies,
        payload_rebuild(vals_of(payload_fields(p)))->0.default_headers == p.default_headers,
{
    lemma_payload_rebuild_some(p);
    lemma_payload_rt_insecure_skip_verify(p);
    lemma_payload_rt_is_byte_request(p);
    lemma_payload_rt_is_byte_response(p);
    lemma_payload_rt_is_rotating_proxy(p);
    lemma_payload_rt_proxy_url(p);
    lemma_payload_rt_request_body(p);
    lemma_payload_rt_request_cookies(p);
    lemma_payload_rt_default_headers(p);
}

#[verifier::rlimit(100)]
proof fn lemma_payload_rebuilt_part3(p: PayloadV)
    requires
        p.tls_client_identifier != Some(ClientIdentifier::SafariIPadOS156),
    ensures
        payload_rebuild(vals_of(payload_fields(p)))->0.request_method == p.request_method,
        payload_rebuild(vals_of(payload_fields(p)))->0.request_url == p.request_url,
        payload_rebuild(vals_of(payload_fields(p)))->0.disable_ipv6 == p.disable_ipv6,
        payload_rebuild(vals_of(payload_fields(p)))->0.local_address == p.local_address,
        payload_rebuild(vals_of(payload_fields(p)))->0.session_id == p.session_id,
        payload_rebuild(vals_of(payload_fields(p)))->0.server_name_overwrite == p.server_name_overwrite,
        payload_rebuild(vals_of(payload_fields(p)))->0.stream_output_block_size == p.stream_output_block_size,
        payload_rebuild(vals_of(payload_fields(p)))->0.stream_output_e_o_f_symbol == p.stream_output_e_o_f_symbol,
{
    lemma_payload_rebuild_some(p);
    lemma_payload_rt_request_method(p);
    lemma_payload_rt_request_url(p);
    lemma_payload_rt_disable_ipv6(p);
    lemma_payload_rt_local_address(p);
    lemma_payload_rt_session_id(p);
    lemma_payload_rt_server_name_overwrite(p);
    lemma_payload_rt_stream_output_block_size(p);
    lemma_payload_rt_stream_output_e_o_f_symbol(p);
}

#[verifier::rlimit(100)]
proof fn lemma_payload_rebuilt_part4(p: PayloadV)
    requires
        p.tls_client_identifier != Some(ClientIdentifier::SafariIPadOS156),
    ensures
        payload_rebuild(vals_of(payload_fields(p)))->0.stream_output_path == p.stream_output_path,
        payload_rebuild(vals_of(payload_fields(p)))->0.timeout_milliseconds == p.timeout_milliseconds,
        payload_rebuild(vals_of(payload_fields(p)))->0.timeout_seconds == p.timeout_seconds,
        payload_rebuild(vals_of(payload_fields(p)))->0.tls_client_identifier == p.tls_client_identifier,
        payload_rebuild(vals_of(payload_fields(p)))->0.with_debug == p.with_debug,
        payload_rebuild(vals_of(payload_fields(p)))->0.with_default_cookie_jar == p.with_default_cookie_jar,
        payload_rebuild(vals_of(payload_fields(p)))->0.without_cookie_jar == p.without_cookie_jar,
        payload_rebuild(vals_of(payload_fields(p)))->0.with_random_tls_extension_order == p.with_random_tls_extension_order,
{
    lemma_payload_rebuild_some(p);
    lemma_payload_rt_stream_output_path(p);
    lemma_payload_rt_timeout_milliseconds(p);
    lemma_payload_rt_timeout_seconds(p);
    lemma_payload_rt_tls_client_identifier(p);
    lemma_payload_rt_with_debug(p);
    lemma_payload_rt_with_default_cookie_jar(p);
    lemma_payload_rt_without_cookie_jar(p);
    lemma_payload_rt_with_random_tls_extension_order(p);
}

#[verifier::rlimit(100)]
proof fn lemma_payload_rebuilt(p: PayloadV)
    requires
        p.tls_client_identifier != Some(ClientIdentifier::SafariIPadOS156),
    ensures
        payload_rebuild(vals_of(payload_fields(p))) == Some(p),
{
    lemma_payload_rebuild_some(p);
    lemma_payload_rebuilt_part1(p);
    lemma_payload_rebuilt_part2(p);
    lemma_payload_rebuilt_part3(p);
    lemma_payload_rebuilt_part4(p);
    let r = payload_rebuild(vals_of(payload_fields(p)));
    assert(r->0 == p);
}

/// Round trip of the wire schema: a request descriptor written to its wire
/// object and read back is unchanged — every set field comes back equal and
/// every omitted field stays absent. The one preset that shares its wire
/// name with another is left out, since the shared name reads back as its
/// first owner.
#[verifier::rlimit(100)]
pub proof fn lemma_payload_round_trip(p: PayloadV)
    requires
        p.tls_client_identifier != Some(ClientIdentifier::SafariIPadOS156),
    ensures
        payload_of_json(enc_payload(p)) == Some(p),
{
    lemma_payload_decoded(p);
    lemma_payload_rebuilt(p);
}
} // verus!
