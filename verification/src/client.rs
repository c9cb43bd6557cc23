use vstd::prelude::*;
use vstd::string::*;
use crate::json::{JsonV, JsonValue, view_obj, view_arr};
use crate::request::{RequestPayload, PayloadV};
use crate::types::{ClientIdentifier, H2Setting, KeyShareCurve, DelegatedCredential, SignatureAlgorithm, SupportedVersion, KdfId, AeadId};
use crate::schema::{push_member, opt_view, opt_member, dup_copy_vec, dup_string_vec, j_str, j_str_list, j_h2_map, j_h2_list, j_curve_list, j_deleg_list, j_sig_list, j_version_list, enc_str_list, enc_h2_map, enc_h2_list, enc_curve_list, enc_deleg_list, enc_sig_list, enc_version_list};

verus! {

/// HTTP/2 stream priority parameters, written as one wire object.
#[derive(Debug, Clone, Copy, PartialEq, Eq, Structural)]
pub struct PriorityParam {
    pub stream_dep: u32,
    pub exclusive: bool,
    pub weight: u32,
}

/// One HTTP/2 priority frame: a stream and its priority payload.
#[derive(Debug, Clone, Copy, PartialEq, Eq, Structural)]
pub struct PriorityFrames {
    pub stream_id: u32,
    pub frame_payload: PriorityParam,
}

/// An ECH candidate cipher suite: a key-derivation and an AEAD identifier.
#[derive(Debug, Clone, Copy, PartialEq, Eq, Structural)]
pub struct CandidateCipherSuite {
    pub kdf_id: KdfId,
    pub aead_id: AeadId,
}

pub open spec fn priority_members(p: PriorityParam) -> Seq<(Seq<char>, JsonV)> {
    seq![
        ("streamDep"@, JsonV::UInt(p.stream_dep as nat)),
        ("exclusive"@, JsonV::Bool(p.exclusive)),
        ("weight"@, JsonV::UInt(p.weight as nat)),
    ]
}

pub open spec fn enc_priority(p: PriorityParam) -> JsonV {
    JsonV::Obj(priority_members(p))
}

pub open spec fn frame_members(f: PriorityFrames) -> Seq<(Seq<char>, JsonV)> {
    seq![
        ("streamID"@, JsonV::UInt(f.stream_id as nat)),
        ("framePayload"@, enc_priority(f.frame_payload)),
    ]
}

pub open spec fn enc_frame(f: PriorityFrames) -> JsonV {
    JsonV::Obj(frame_members(f))
}

pub open spec fn enc_frame_items(xs: Seq<PriorityFrames>) -> Seq<JsonV> {
    xs.map(|i: int, f: PriorityFrames| enc_frame(f))
}

pub open spec fn enc_frames(xs: Seq<PriorityFrames>) -> JsonV {
    JsonV::Arr(enc_frame_items(xs))
}

pub open spec fn suite_members(s: CandidateCipherSuite) -> Seq<(Seq<char>, JsonV)> {
    seq![
        ("kdfId"@, JsonV::Str(s.kdf_id.wire_spec())),
        ("aeadId"@, JsonV::Str(s.aead_id.wire_spec())),
    ]
}

pub open spec fn enc_suite(s: CandidateCipherSuite) -> JsonV {
    JsonV::Obj(suite_members(s))
}

pub open spec fn enc_suite_items(xs: Seq<CandidateCipherSuite>) -> Seq<JsonV> {
    xs.map(|i: int, s: CandidateCipherSuite| enc_suite(s))
}

pub open spec fn enc_suites(xs: Seq<CandidateCipherSuite>) -> JsonV {
    JsonV::Arr(enc_suite_items(xs))
}

pub fn j_priority(p: &PriorityParam) -> (r: JsonValue)
    ensures
        r@ == enc_priority(*p),
{
    let mut members: Vec<(String, JsonValue)> = Vec::new();
    push_member(&mut members, "streamDep", JsonValue::UInt(p.stream_dep as u64));
    push_member(&mut members, "exclusive", JsonValue::Bool(p.exclusive));
    push_member(&mut members, "weight", JsonValue::UInt(p.weight as u64));
    proof {
        assert(view_obj(members@) =~= priority_members(*p));
    }
    JsonValue::Obj(members)
}

pub fn j_frame(f: &PriorityFrames) -> (r: JsonValue)
    ensures
        r@ == enc_frame(*f),
{
    let mut members: Vec<(String, JsonValue)> = Vec::new();
    push_member(&mut members, "streamID", JsonValue::UInt(f.stream_id as u64));
    push_member(&mut members, "framePayload", j_priority(&f.frame_payload));
    proof {
        assert(view_obj(members@) =~= frame_members(*f));
    }
    JsonValue::Obj(members)
}

pub fn j_suite(s: &CandidateCipherSuite) -> (r: JsonValue)
    ensures
        r@ == enc_suite(*s),
{
    let mut members: Vec<(String, JsonValue)> = Vec::new();
    push_member(&mut members, "kdfId", JsonValue::Str(s.kdf_id.wire_name().to_owned()));
    push_member(&mut members, "aeadId", JsonValue::Str(s.aead_id.wire_name().to_owned()));
    proof {
        assert(view_obj(members@) =~= suite_members(*s));
    }
    JsonValue::Obj(members)
}

pub fn j_frames(xs: &Vec<PriorityFrames>) -> (r: JsonValue)
    ensures
        r@ == enc_frames(xs@),
{
    let mut items: Vec<JsonValue> = Vec::new();
    let n: usize = xs.len();
    let mut i: usize = 0;
    while i < n
        invariant
            n == xs@.len(),
            0 <= i <= n,
            view_arr(items@) =~= enc_frame_items(xs@.take(i as int)),
        decreases n - i,
    {
        let ghost snap = items@;
        let val = j_frame(&xs[i]);
        let ghost gv = val@;
        items.push(val);
        proof {
            assert(items@.drop_last() =~= snap);
            assert(view_arr(items@) =~= view_arr(snap).push(gv));
            assert(xs@.take(i + 1) =~= xs@.take(i as int).push(xs@[i as int]));
            assert(enc_frame_items(xs@.take(i + 1)) =~=
                enc_frame_items(xs@.take(i as int)).push(enc_frame(xs@[i as int])));
        }
        i = i + 1;
    }
    proof {
        assert(xs@.take(n as int) =~= xs@);
    }
    JsonValue::Arr(items)
}

pub fn j_suites(xs: &Vec<CandidateCipherSuite>) -> (r: JsonValue)
    ensures
        r@ == enc_suites(xs@),
{
    let mut items: Vec<JsonValue> = Vec::new();
    let n: usize = xs.len();
    let mut i: usize = 0;
    while i < n
        invariant
            n == xs@.len(),
            0 <= i <= n,
            view_arr(items@) =~= enc_suite_items(xs@.take(i as int)),
        decreases n - i,
    {
        let ghost snap = items@;
        let val = j_suite(&xs[i]);
        let ghost gv = val@;
        items.push(val);
        proof {
            assert(items@.drop_last() =~= snap);
            assert(view_arr(items@) =~= view_arr(snap).push(gv));
            assert(xs@.take(i + 1) =~= xs@.take(i as int).push(xs@[i as int]));
            assert(enc_suite_items(xs@.take(i + 1)) =~=
                enc_suite_items(xs@.take(i as int)).push(enc_suite(xs@[i as int])));
        }
        i = i + 1;
    }
    proof {
        assert(xs@.take(n as int) =~= xs@);
    }
    JsonValue::Arr(items)
}

/// A fully custom fingerprint: the explicit bag of TLS and HTTP/2 parameters
/// that takes the place of a named preset.
#[derive(Debug)]
pub struct CustomClient {
    cert_compression_algo: Option<String>,
    connection_flow: Option<u32>,
    h2_settings: Option<Vec<(H2Setting, u32)>>,
    h2_settings_order: Option<Vec<H2Setting>>,
    header_priority: Option<PriorityParam>,
    ja3_string: Option<String>,
    key_share_curves: Option<Vec<KeyShareCurve>>,
    priority_frames: Option<Vec<PriorityFrames>>,
    alpn_protocols: Option<Vec<String>>,
    alps_protocols: Option<Vec<String>>,
    ech_candidate_cipher_suites: Option<Vec<CandidateCipherSuite>>,
    ech_candidate_payloads: Option<u16>,
    pseudo_header_order: Option<Vec<String>>,
    supported_delegated_credentials_algorithms: Option<Vec<DelegatedCredential>>,
    supported_signature_algorithms: Option<Vec<SignatureAlgorithm>>,
    supported_versions: Option<Vec<SupportedVersion>>,
}

/// Mathematical view of a custom fingerprint.
pub ghost struct CustomV {
    pub cert_compression_algo: Option<Seq<char>>,
    pub connection_flow: Option<u32>,
    pub h2_settings: Option<Seq<(H2Setting, u32)>>,
    pub h2_settings_order: Option<Seq<H2Setting>>,
    pub header_priority: Option<PriorityParam>,
    pub ja3_string: Option<Seq<char>>,
    pub key_share_curves: Option<Seq<KeyShareCurve>>,
    pub priority_frames: Option<Seq<PriorityFrames>>,
    pub alpn_protocols: Option<Seq<Seq<char>>>,
    pub alps_protocols: Option<Seq<Seq<char>>>,
    pub ech_candidate_cipher_suites: Option<Seq<CandidateCipherSuite>>,
    pub ech_candidate_payloads: Option<u16>,
    pub pseudo_header_order: Option<Seq<Seq<char>>>,
    pub supported_delegated_credentials_algorithms: Option<Seq<DelegatedCredential>>,
    pub supported_signature_algorithms: Option<Seq<SignatureAlgorithm>>,
    pub supported_versions: Option<Seq<SupportedVersion>>,
}

impl View for CustomClient {
    type V = CustomV;

    closed spec fn view(&self) -> CustomV {
        CustomV {
            cert_compression_algo: self.cert_compression_algo.deep_view(),
            connection_flow: self.connection_flow,
            h2_settings: opt_view(self.h2_settings),
            h2_settings_order: opt_view(self.h2_settings_order),
            header_priority: self.header_priority,
            ja3_string: self.ja3_string.deep_view(),
            key_share_curves: opt_view(self.key_share_curves),
            priority_frames: opt_view(self.priority_frames),
            alpn_protocols: self.alpn_protocols.deep_view(),
            alps_protocols: self.alps_protocols.deep_view(),
            ech_candidate_cipher_suites: opt_view(self.ech_candidate_cipher_suites),
            ech_candidate_payloads: self.ech_candidate_payloads,
            pseudo_header_order: self.pseudo_header_order.deep_view(),
            supported_delegated_credentials_algorithms: opt_view(self.supported_delegated_credentials_algorithms),
            supported_signature_algorithms: opt_view(self.supported_signature_algorithms),
            supported_versions: opt_view(self.supported_versions),
        }
    }
}

pub open spec fn seg_cc_cert_compression_algo(c: CustomV) -> Seq<(Seq<char>, JsonV)> {
    opt_member("certCompressionAlgo"@, match c.cert_compression_algo { Option::Some(x) => Option::Some(JsonV::Str(x)), Option::None => Option::None })
}

pub open spec fn seg_cc_connection_flow(c: CustomV) -> Seq<(Seq<char>, JsonV)> {
    opt_member("connectionFlow"@, match c.connection_flow { Option::Some(x) => Option::Some(JsonV::UInt(x as nat)), Option::None => Option::None })
}

pub open spec fn seg_cc_h2_settings(c: CustomV) -> Seq<(Seq<char>, JsonV)> {
    opt_member("h2Settings"@, match c.h2_settings { Option::Some(x) => Option::Some(enc_h2_map(x)), Option::None => Option::None })
}

pub open spec fn seg_cc_h2_settings_order(c: CustomV) -> Seq<(Seq<char>, JsonV)> {
    opt_member("h2SettingsOrder"@, match c.h2_settings_order { Option::Some(x) => Option::Some(enc_h2_list(x)), Option::None => Option::None })
}

pub open spec fn seg_cc_header_priority(c: CustomV) -> Seq<(Seq<char>, JsonV)> {
    opt_member("headerPriority"@, match c.header_priority { Option::Some(x) => Option::Some(enc_priority(x)), Option::None => Option::None })
}

pub open spec fn seg_cc_ja3_string(c: CustomV) -> Seq<(Seq<char>, JsonV)> {
    opt_member("ja3String"@, match c.ja3_string { Option::Some(x) => Option::Some(JsonV::Str(x)), Option::None => Option::None })
}

pub open spec fn seg_cc_key_share_curves(c: CustomV) -> Seq<(Seq<char>, JsonV)> {
    opt_member("keyShareCurves"@, match c.key_share_curves { Option::Some(x) => Option::Some(enc_curve_list(x)), Option::None => Option::None })
}

pub open spec fn seg_cc_priority_frames(c: CustomV) -> Seq<(Seq<char>, JsonV)> {
    opt_member("priorityFrames"@, match c.priority_frames { Option::Some(x) => Option::Some(enc_frames(x)), Option::None => Option::None })
}

pub open spec fn seg_cc_alpn_protocols(c: CustomV) -> Seq<(Seq<char>, JsonV)> {
    opt_member("alpnProtocols"@, match c.alpn_protocols { Option::Some(x) => Option::Some(enc_str_list(x)), Option::None => Option::None })
}

pub open spec fn seg_cc_alps_protocols(c: CustomV) -> Seq<(Seq<char>, JsonV)> {
    opt_member("alpsProtocols"@, match c.alps_protocols { Option::Some(x) => Option::Some(enc_str_list(x)), Option::None => Option::None })
}

pub open spec fn seg_cc_ech_candidate_cipher_suites(c: CustomV) -> Seq<(Seq<char>, JsonV)> {
    opt_member("ECHCandidateCipherSuites"@, match c.ech_candidate_cipher_suites { Option::Some(x) => Option::Some(enc_suites(x)), Option::None => Option::None })
}

pub open spec fn seg_cc_ech_candidate_payloads(c: CustomV) -> Seq<(Seq<char>, JsonV)> {
    opt_member("ECHCandidatePayloads"@, match c.ech_candidate_payloads { Option::Some(x) => Option::Some(JsonV::UInt(x as nat)), Option::None => Option::None })
}

pub open spec fn seg_cc_pseudo_header_order(c: CustomV) -> Seq<(Seq<char>, JsonV)> {
    opt_member("pseudoHeaderOrder"@, match c.pseudo_header_order { Option::Some(x) => Option::Some(enc_str_list(x)), Option::None => Option::None })
}

pub open spec fn seg_cc_supported_delegated_credentials_algorithms(c: CustomV) -> Seq<(Seq<char>, JsonV)> {
    opt_member("supportedDelegatedCredentialsAlgorithms"@, match c.supported_delegated_credentials_algorithms { Option::Some(x) => Option::Some(enc_deleg_list(x)), Option::None => Option::None })
}

pub open spec fn seg_cc_supported_signature_algorithms(c: CustomV) -> Seq<(Seq<char>, JsonV)> {
    opt_member("supportedSignatureAlgorithms"@, match c.supported_signature_algorithms { Option::Some(x) => Option::Some(enc_sig_list(x)), Option::None => Option::None })
}

pub open spec fn seg_cc_supported_versions(c: CustomV) -> Seq<(Seq<char>, JsonV)> {
    opt_member("supportedVersions"@, match c.supported_versions { Option::Some(x) => Option::Some(enc_version_list(x)), Option::None => Option::None })
}

/// The member list of a custom fingerprint on the wire: present fields only,
/// in declaration order.
#[verifier::opaque]
pub open spec fn custom_members(c: CustomV) -> Seq<(Seq<char>, JsonV)> {
    seg_cc_cert_compression_algo(c)
        + seg_cc_connection_flow(c)
        + seg_cc_h2_settings(c)
        + seg_cc_h2_settings_order(c)
        + seg_cc_header_priority(c)
        + seg_cc_ja3_string(c)
        + seg_cc_key_share_curves(c)
        + seg_cc_priority_frames(c)
        + seg_cc_alpn_protocols(c)
        + seg_cc_alps_protocols(c)
        + seg_cc_ech_candidate_cipher_suites(c)
        + seg_cc_ech_candidate_payloads(c)
        + seg_cc_pseudo_header_order(c)
        + seg_cc_supported_delegated_credentials_algorithms(c)
        + seg_cc_supported_signature_algorithms(c)
        + seg_cc_supported_versions(c)
}

pub open spec fn enc_custom(c: CustomV) -> JsonV {
    JsonV::Obj(custom_members(c))
}

fn enc_custom_part1(c: &CustomClient, members: &mut Vec<(String, JsonValue)>)
    ensures
        view_obj(final(members)@) == view_obj(old(members)@) + seg_cc_cert_compression_algo(c@) + seg_cc_connection_flow(c@) + seg_cc_h2_settings(c@) + seg_cc_h2_settings_order(c@),
{
    match &c.cert_compression_algo {
        Some(v) => { push_member(members, "certCompressionAlgo", j_str(v)); },
        None => {},
    }
    assert(view_obj(members@) =~= view_obj(old(members)@) + seg_cc_cert_compression_algo(c@));
    match &c.connection_flow {
        Some(v) => { push_member(members, "connectionFlow", JsonValue::UInt(*v as u64)); },
        None => {},
    }
    assert(view_obj(members@) =~= view_obj(old(members)@) + seg_cc_cert_compression_algo(c@) + seg_cc_connection_flow(c@));
    match &c.h2_settings {
        Some(v) => { push_member(members, "h2Settings", j_h2_map(v)); },
        None => {},
    }
    assert(view_obj(members@) =~= view_obj(old(members)@) + seg_cc_cert_compression_algo(c@) + seg_cc_connection_flow(c@) + seg_cc_h2_settings(c@));
    match &c.h2_settings_order {
        Some(v) => { push_member(members, "h2SettingsOrder", j_h2_list(v)); },
        None => {},
    }
    assert(view_obj(members@) =~= view_obj(old(members)@) + seg_cc_cert_compression_algo(c@) + seg_cc_connection_flow(c@) + seg_cc_h2_settings(c@) + seg_cc_h2_settings_order(c@));
}

fn enc_custom_part2(c: &CustomClient, members: &mut Vec<(String, JsonValue)>)
    ensures
        view_obj(final(members)@) == view_obj(old(members)@) + seg_cc_header_priority(c@) + seg_cc_ja3_string(c@) + seg_cc_key_share_curves(c@) + seg_cc_priority_frames(c@),
{
    match &c.header_priority {
        Some(v) => { push_member(members, "headerPriority", j_priority(v)); },
        None => {},
    }
    assert(view_obj(members@) =~= view_obj(old(members)@) + seg_cc_header_priority(c@));
    match &c.ja3_string {
        Some(v) => { push_member(members, "ja3String", j_str(v)); },
        None => {},
    }
    assert(view_obj(members@) =~= view_obj(old(members)@) + seg_cc_header_priority(c@) + seg_cc_ja3_string(c@));
    match &c.key_share_curves {
        Some(v) => { push_member(members, "keyShareCurves", j_curve_list(v)); },
        None => {},
    }
    assert(view_obj(members@) =~= view_obj(old(members)@) + seg_cc_header_priority(c@) + seg_cc_ja3_string(c@) + seg_cc_key_share_curves(c@));
    match &c.priority_frames {
        Some(v) => { push_member(members, "priorityFrames", j_frames(v)); },
        None => {},
    }
    assert(view_obj(members@) =~= view_obj(old(members)@) + seg_cc_header_priority(c@) + seg_cc_ja3_string(c@) + seg_cc_key_share_curves(c@) + seg_cc_priority_frames(c@));
}

fn enc_custom_part3(c: &CustomClient, members: &mut Vec<(String, JsonValue)>)
    ensures
        view_obj(final(members)@) == view_obj(old(members)@) + seg_cc_alpn_protocols(c@) + seg_cc_alps_protocols(c@) + seg_cc_ech_candidate_cipher_suites(c@) + seg_cc_ech_candidate_payloads(c@),
{
    match &c.alpn_protocols {
        Some(v) => { push_member(members, "alpnProtocols", j_str_list(v)); },
        None => {},
    }
    assert(view_obj(members@) =~= view_obj(old(members)@) + seg_cc_alpn_protocols(c@));
    match &c.alps_protocols {
        Some(v) => { push_member(members, "alpsProtocols", j_str_list(v)); },
        None => {},
    }
    assert(view_obj(members@) =~= view_obj(old(members)@) + seg_cc_alpn_protocols(c@) + seg_cc_alps_protocols(c@));
    match &c.ech_candidate_cipher_suites {
        Some(v) => { push_member(members, "ECHCandidateCipherSuites", j_suites(v)); },
        None => {},
    }
    assert(view_obj(members@) =~= view_obj(old(members)@) + seg_cc_alpn_protocols(c@) + seg_cc_alps_protocols(c@) + seg_cc_ech_candidate_cipher_suites(c@));
    match &c.ech_candidate_payloads {
        Some(v) => { push_member(members, "ECHCandidatePayloads", JsonValue::UInt(*v as u64)); },
        None => {},
    }
    assert(view_obj(members@) =~= view_obj(old(members)@) + seg_cc_alpn_protocols(c@) + seg_cc_alps_protocols(c@) + seg_cc_ech_candidate_cipher_suites(c@) + seg_cc_ech_candidate_payloads(c@));
}

fn enc_custom_part4(c: &CustomClient, members: &mut Vec<(String, JsonValue)>)
    ensures
        view_obj(final(members)@) == view_obj(old(members)@) + seg_cc_pseudo_header_order(c@) + seg_cc_supported_delegated_credentials_algorithms(c@) + seg_cc_supported_signature_algorithms(c@) + seg_cc_supported_versions(c@),
{
    match &c.pseudo_header_order {
        Some(v) => { push_member(members, "pseudoHeaderOrder", j_str_list(v)); },
        None => {},
    }
    assert(view_obj(members@) =~= view_obj(old(members)@) + seg_cc_pseudo_header_order(c@));
    match &c.supported_delegated_credentials_algorithms {
        Some(v) => { push_member(members, "supportedDelegatedCredentialsAlgorithms", j_deleg_list(v)); },
        None => {},
    }
    assert(view_obj(members@) =~= view_obj(old(members)@) + seg_cc_pseudo_header_order(c@) + seg_cc_supported_delegated_credentials_algorithms(c@));
    match &c.supported_signature_algorithms {
        Some(v) => { push_member(members, "supportedSignatureAlgorithms", j_sig_list(v)); },
        None => {},
    }
    assert(view_obj(members@) =~= view_obj(old(members)@) + seg_cc_pseudo_header_order(c@) + seg_cc_supported_delegated_credentials_algorithms(c@) + seg_cc_supported_signature_algorithms(c@));
    match &c.supported_versions {
        Some(v) => { push_member(members, "supportedVersions", j_version_list(v)); },
        None => {},
    }
    assert(view_obj(members@) =~= view_obj(old(members)@) + seg_cc_pseudo_header_order(c@) + seg_cc_supported_delegated_credentials_algorithms(c@) + seg_cc_supported_signature_algorithms(c@) + seg_cc_supported_versions(c@));
}

impl CustomClient {
    /// The exact wire object for this custom fingerprint.
    pub fn to_json(&self) -> (r: JsonValue)
        ensures
            r@ == enc_custom(self@),
    {
        let mut members: Vec<(String, JsonValue)> = Vec::new();
        enc_custom_part1(self, &mut members);
        enc_custom_part2(self, &mut members);
        enc_custom_part3(self, &mut members);
        enc_custom_part4(self, &mut members);
        proof {
            reveal(custom_members);
            assert(view_obj(members@) =~= custom_members(self@));
        }
        JsonValue::Obj(members)
    }

    /// A value-equal copy (the views agree).
    pub fn duplicate(&self) -> (r: Self)
        ensures
            r@ == self@,
    {
        let r = CustomClient {
            cert_compression_algo: match &self.cert_compression_algo { Some(v) => Some(v.clone()), None => None },
            connection_flow: match &self.connection_flow { Some(v) => Some(*v), None => None },
            h2_settings: match &self.h2_settings { Some(v) => Some(dup_copy_vec(v)), None => None },
            h2_settings_order: match &self.h2_settings_order { Some(v) => Some(dup_copy_vec(v)), None => None },
            header_priority: match &self.header_priority { Some(v) => Some(*v), None => None },
            ja3_string: match &self.ja3_string { Some(v) => Some(v.clone()), None => None },
            key_share_curves: match &self.key_share_curves { Some(v) => Some(dup_copy_vec(v)), None => None },
            priority_frames: match &self.priority_frames { Some(v) => Some(dup_copy_vec(v)), None => None },
            alpn_protocols: match &self.alpn_protocols { Some(v) => Some(dup_string_vec(v)), None => None },
            alps_protocols: match &self.alps_protocols { Some(v) => Some(dup_string_vec(v)), None => None },
            ech_candidate_cipher_suites: match &self.ech_candidate_cipher_suites { Some(v) => Some(dup_copy_vec(v)), None => None },
            ech_candidate_payloads: match &self.ech_candidate_payloads { Some(v) => Some(*v), None => None },
            pseudo_header_order: match &self.pseudo_header_order { Some(v) => Some(dup_string_vec(v)), None => None },
            supported_delegated_credentials_algorithms: match &self.supported_delegated_credentials_algorithms { Some(v) => Some(dup_copy_vec(v)), None => None },
            supported_signature_algorithms: match &self.supported_signature_algorithms { Some(v) => Some(dup_copy_vec(v)), None => None },
            supported_versions: match &self.supported_versions { Some(v) => Some(dup_copy_vec(v)), None => None },
        };
        r
    }
    pub fn new() -> (r: Self)
        ensures
            r@.cert_compression_algo is None,
            r@.connection_flow is None,
            r@.h2_settings is None,
            r@.h2_settings_order is None,
            r@.header_priority is None,
            r@.ja3_string is None,
            r@.key_share_curves is None,
            r@.priority_frames is None,
            r@.alpn_protocols is None,
            r@.alps_protocols is None,
            r@.ech_candidate_cipher_suites is None,
            r@.ech_candidate_payloads is None,
            r@.pseudo_header_order is None,
            r@.supported_delegated_credentials_algorithms is None,
            r@.supported_signature_algorithms is None,
            r@.supported_versions is None,
    {
        CustomClient {
            cert_compression_algo: None,
            connection_flow: None,
            h2_settings: None,
            h2_settings_order: None,
            header_priority: None,
            ja3_string: None,
            key_share_curves: None,
            priority_frames: None,
            alpn_protocols: None,
            alps_protocols: None,
            ech_candidate_cipher_suites: None,
            ech_candidate_payloads: None,
            pseudo_header_order: None,
            supported_delegated_credentials_algorithms: None,
            supported_signature_algorithms: None,
            supported_versions: None,
        }
    }

    pub fn with_cert_compression_algo(self, a: String) -> (r: Self)
        ensures
            r@ == (CustomV { cert_compression_algo: Some(a@), ..self@ }),
    {
        CustomClient { cert_compression_algo: Some(a), ..self }
    }

    pub fn with_connection_flow(self, a: u32) -> (r: Self)
        ensures
            r@ == (CustomV { connection_flow: Some(a), ..self@ }),
    {
        CustomClient { connection_flow: Some(a), ..self }
    }

    pub fn with_h2_settings(self, a: Vec<(H2Setting, u32)>) -> (r: Self)
        ensures
            r@ == (CustomV { h2_settings: Some(a@), ..self@ }),
    {
        CustomClient { h2_settings: Some(a), ..self }
    }

    pub fn with_h2_settings_order(self, a: Vec<H2Setting>) -> (r: Self)
        ensures
            r@ == (CustomV { h2_settings_order: Some(a@), ..self@ }),
    {
        CustomClient { h2_settings_order: Some(a), ..self }
    }

    pub fn with_header_priority(self, a: PriorityParam) -> (r: Self)
        ensures
            r@ == (CustomV { header_priority: Some(a), ..self@ }),
    {
        CustomClient { header_priority: Some(a), ..self }
    }

    pub fn with_ja3_string(self, a: String) -> (r: Self)
        ensures
            r@ == (CustomV { ja3_string: Some(a@), ..self@ }),
    {
        CustomClient { ja3_string: Some(a), ..self }
    }

    pub fn with_key_share_curves(self, a: Vec<KeyShareCurve>) -> (r: Self)
        ensures
            r@ == (CustomV { key_share_curves: Some(a@), ..self@ }),
    {
        CustomClient { key_share_curves: Some(a), ..self }
    }

    pub fn with_priority_frames(self, a: Vec<PriorityFrames>) -> (r: Self)
        ensures
            r@ == (CustomV { priority_frames: Some(a@), ..self@ }),
    {
        CustomClient { priority_frames: Some(a), ..self }
    }

    pub fn with_alpn_protocols(self, a: Vec<String>) -> (r: Self)
        ensures
            r@ == (CustomV { alpn_protocols: Some(a.deep_view()), ..self@ }),
    {
        CustomClient { alpn_protocols: Some(a), ..self }
    }

    pub fn with_alps_protocols(self, a: Vec<String>) -> (r: Self)
        ensures
            r@ == (CustomV { alps_protocols: Some(a.deep_view()), ..self@ }),
    {
        CustomClient { alps_protocols: Some(a), ..self }
    }

    pub fn with_ech_candidate_cipher_suites(self, a: Vec<CandidateCipherSuite>) -> (r: Self)
        ensures
            r@ == (CustomV { ech_candidate_cipher_suites: Some(a@), ..self@ }),
    {
        CustomClient { ech_candidate_cipher_suites: Some(a), ..self }
    }

    pub fn with_ech_candidate_payloads(self, a: u16) -> (r: Self)
        ensures
            r@ == (CustomV { ech_candidate_payloads: Some(a), ..self@ }),
    {
        CustomClient { ech_candidate_payloads: Some(a), ..self }
    }

    pub fn with_pseudo_header_order(self, a: Vec<String>) -> (r: Self)
        ensures
            r@ == (CustomV { pseudo_header_order: Some(a.deep_view()), ..self@ }),
    {
        CustomClient { pseudo_header_order: Some(a), ..self }
    }

    pub fn with_supported_delegated_credentials_algorithms(self, a: Vec<DelegatedCredential>) -> (r: Self)
        ensures
            r@ == (CustomV { supported_delegated_credentials_algorithms: Some(a@), ..self@ }),
    {
        CustomClient { supported_delegated_credentials_algorithms: Some(a), ..self }
    }

    pub fn with_supported_signature_algorithms(self, a: Vec<SignatureAlgorithm>) -> (r: Self)
        ensures
            r@ == (CustomV { supported_signature_algorithms: Some(a@), ..self@ }),
    {
        CustomClient { supported_signature_algorithms: Some(a), ..self }
    }

    pub fn with_supported_versions(self, a: Vec<SupportedVersion>) -> (r: Self)
        ensures
            r@ == (CustomV { supported_versions: Some(a@), ..self@ }),
    {
        CustomClient { supported_versions: Some(a), ..self }
    }
}

impl Default for CustomClient {
    /// The empty custom fingerprint: every parameter unset.
    fn default() -> (r: Self)
        ensures
            r@.cert_compression_algo is None,
            r@.connection_flow is None,
            r@.h2_settings is None,
            r@.h2_settings_order is None,
            r@.header_priority is None,
            r@.ja3_string is None,
            r@.key_share_curves is None,
            r@.priority_frames is None,
            r@.alpn_protocols is None,
            r@.alps_protocols is None,
            r@.ech_candidate_cipher_suites is None,
            r@.ech_candidate_payloads is None,
            r@.pseudo_header_order is None,
            r@.supported_delegated_credentials_algorithms is None,
            r@.supported_signature_algorithms is None,
            r@.supported_versions is None,
    {
        CustomClient::new()
    }
}

/// Relies on uuid::Uuid::new_v4 and its Display form: a fresh random
/// identifier, written as 36 hyphenated lower-case hex characters.
#[verifier::external_body]
fn fresh_session_id() -> (r: String)
    ensures
        r@.len() == 36,
{
    uuid::Uuid::new_v4().to_string()
}

/// A reusable client configuration: session parameters plus the fingerprint
/// profile every request built from it carries.
#[derive(Debug)]
pub struct TlsClient {
    session_id: String,
    insecure_skip_verify: bool,
    timeout_seconds: u32,
    follow_redirects: bool,
    proxy_url: Option<String>,
    tls_client_identifier: Option<ClientIdentifier>,
    with_random_tls_extension_order: Option<bool>,
    custom_tls_client: Option<CustomClient>,
    request_url: Option<String>,
    request_method: Option<String>,
}

/// Mathematical view of a client configuration.
pub ghost struct TlsClientV {
    pub session_id: Seq<char>,
    pub insecure_skip_verify: bool,
    pub timeout_seconds: u32,
    pub follow_redirects: bool,
    pub proxy_url: Option<Seq<char>>,
    pub tls_client_identifier: Option<ClientIdentifier>,
    pub with_random_tls_extension_order: Option<bool>,
    pub custom_tls_client: Option<CustomV>,
    pub request_url: Option<Seq<char>>,
    pub request_method: Option<Seq<char>>,
}

impl View for TlsClient {
    type V = TlsClientV;

    closed spec fn view(&self) -> TlsClientV {
        TlsClientV {
            session_id: self.session_id@,
            insecure_skip_verify: self.insecure_skip_verify,
            timeout_seconds: self.timeout_seconds,
            follow_redirects: self.follow_redirects,
            proxy_url: self.proxy_url.deep_view(),
            tls_client_identifier: self.tls_client_identifier,
            with_random_tls_extension_order: self.with_random_tls_extension_order,
            custom_tls_client: match self.custom_tls_client {
                Option::Some(c) => Option::Some(c@),
                Option::None => Option::None,
            },
            request_url: self.request_url.deep_view(),
            request_method: self.request_method.deep_view(),
        }
    }
}

/// The descriptor one call gets from a client configuration: the session and
/// profile fields carried over, the method and target set, all else absent.
pub open spec fn payload_of_client(c: TlsClientV, method: Seq<char>, url: Seq<char>) -> PayloadV {
    PayloadV {
        catch_panics: None,
        certificate_pinning_hosts: None,
        custom_tls_client: c.custom_tls_client,
        transport_options: None,
        follow_redirects: Some(c.follow_redirects),
        force_http_1: None,
        header_order: None,
        headers: None,
        insecure_skip_verify: Some(c.insecure_skip_verify),
        is_byte_request: None,
        is_byte_response: None,
        is_rotating_proxy: None,
        proxy_url: c.proxy_url,
        request_body: None,
        request_cookies: None,
        default_headers: None,
        request_method: Some(method),
        request_url: Some(url),
        disable_ipv6: None,
        local_address: None,
        session_id: Some(c.session_id),
        server_name_overwrite: None,
        stream_output_block_size: None,
        stream_output_e_o_f_symbol: None,
        stream_output_path: None,
        timeout_milliseconds: None,
        timeout_seconds: Some(c.timeout_seconds),
        tls_client_identifier: c.tls_client_identifier,
        with_debug: None,
        with_default_cookie_jar: None,
        without_cookie_jar: None,
        with_random_tls_extension_order: c.with_random_tls_extension_order,
    }
}

impl TlsClient {
    /// A client with a named preset, a fresh random session identifier, a
    /// thirty-second timeout, and redirects followed.
    pub fn new(client_identifier: ClientIdentifier, random_tls_order: bool) -> (r: TlsClient)
        ensures
            r@.session_id.len() == 36,
            r@.insecure_skip_verify == false,
            r@.timeout_seconds == 30,
            r@.follow_redirects == true,
            r@.proxy_url is None,
            r@.tls_client_identifier == Some(client_identifier),
            r@.with_random_tls_extension_order == Some(random_tls_order),
            r@.custom_tls_client is None,
            r@.request_url is None,
            r@.request_method is None,
    {
        TlsClient {
            session_id: fresh_session_id(),
            insecure_skip_verify: false,
            timeout_seconds: 30,
            follow_redirects: true,
            proxy_url: None,
            tls_client_identifier: Some(client_identifier),
            with_random_tls_extension_order: Some(random_tls_order),
            custom_tls_client: None,
            request_url: None,
            request_method: None,
        }
    }

    /// A client carrying a fully custom fingerprint in place of a preset.
    pub fn new_custom(custom_profile: CustomClient) -> (r: TlsClient)
        ensures
            r@.session_id.len() == 36,
            r@.insecure_skip_verify == false,
            r@.timeout_seconds == 30,
            r@.follow_redirects == true,
            r@.proxy_url is None,
            r@.tls_client_identifier is None,
            r@.with_random_tls_extension_order == Some(false),
            r@.custom_tls_client == Some(custom_profile@),
            r@.request_url is None,
            r@.request_method is None,
    {
        TlsClient {
            session_id: fresh_session_id(),
            insecure_skip_verify: false,
            timeout_seconds: 30,
            follow_redirects: true,
            proxy_url: None,
            tls_client_identifier: None,
            with_random_tls_extension_order: Some(false),
            custom_tls_client: Some(custom_profile),
            request_url: None,
            request_method: None,
        }
    }

    /// The stock client: the newest Chrome preset, extension order kept, and
    /// every other setting exactly as a fresh client has it.
    pub fn default() -> (r: TlsClient)
        ensures
            r@.session_id.len() == 36,
            r@.insecure_skip_verify == false,
            r@.timeout_seconds == 30,
            r@.follow_redirects == true,
            r@.proxy_url is None,
            r@.tls_client_identifier == Some(ClientIdentifier::Chrome120),
            r@.with_random_tls_extension_order == Some(false),
            r@.custom_tls_client is None,
            r@.request_url is None,
            r@.request_method is None,
    {
        Self::new(ClientIdentifier::Chrome120, false)
    }

    pub fn set_insecure_skip_verify(self, skip: bool) -> (r: Self)
        ensures
            r@ == (TlsClientV { insecure_skip_verify: skip, ..self@ }),
    {
        TlsClient { insecure_skip_verify: skip, ..self }
    }

    pub fn set_timeout_seconds(self, seconds: u32) -> (r: Self)
        ensures
            r@ == (TlsClientV { timeout_seconds: seconds, ..self@ }),
    {
        TlsClient { timeout_seconds: seconds, ..self }
    }

    pub fn set_follow_redirects(self, follow: bool) -> (r: Self)
        ensures
            r@ == (TlsClientV { follow_redirects: follow, ..self@ }),
    {
        TlsClient { follow_redirects: follow, ..self }
    }

    pub fn set_proxy_url(self, url: String) -> (r: Self)
        ensures
            r@ == (TlsClientV { proxy_url: Some(url@), ..self@ }),
    {
        TlsClient { proxy_url: Some(url), ..self }
    }

    pub fn remove_proxy_url(self) -> (r: Self)
        ensures
            r@ == (TlsClientV { proxy_url: None, ..self@ }),
    {
        TlsClient { proxy_url: None, ..self }
    }

    /// One descriptor for a single call through this client.
    fn build_for_request(&self, method: String, url: String) -> (r: RequestPayload)
        ensures
            r@ == payload_of_client(self@, method@, url@),
    {
        RequestPayload::for_call(
            match &self.custom_tls_client {
                Some(c) => Some(c.duplicate()),
                None => None,
            },
            self.follow_redirects,
            self.insecure_skip_verify,
            match &self.proxy_url {
                Some(u) => Some(u.clone()),
                None => None,
            },
            method,
            url,
            self.session_id.clone(),
            self.timeout_seconds,
            self.tls_client_identifier,
            self.with_random_tls_extension_order,
        )
    }

    /// A GET descriptor for the given target.
    pub fn get(&self, url: &str) -> (r: RequestPayload)
        ensures
            r@ == payload_of_client(self@, "GET"@, url@),
    {
        self.build_for_request("GET".to_owned(), url.to_owned())
    }

    /// A POST descriptor for the given target.
    pub fn post(&self, url: &str) -> (r: RequestPayload)
        ensures
            r@ == payload_of_client(self@, "POST"@, url@),
    {
        self.build_for_request("POST".to_owned(), url.to_owned())
    }
}

} // verus!
