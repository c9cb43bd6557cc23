use vstd::prelude::*;
use vstd::string::*;
use crate::json::{JsonV, JsonValue, view_arr, str_eq, parse_json, trim_spec, json_of};
use crate::response::{get_field, req_str};
use crate::TlsClientError;

verus! {

broadcast use vstd::std_specs::vec::axiom_vec_decreases_to_view, vstd::seq::axiom_seq_index_decreases;

/// The release-name fragment that marks a binary for the given platform.
pub open spec fn os_tag_spec(os: Seq<char>) -> Option<Seq<char>> {
    if os == "windows"@ {
        Some("-windows"@)
    } else if os == "macos"@ {
        Some("-darwin"@)
    } else if os == "linux"@ {
        Some("-linux"@)
    } else {
        None
    }
}

/// The release-name fragment for the processor, which on one platform differs
/// by the platform's own naming.
pub open spec fn arch_tag_spec(os: Seq<char>, arch: Seq<char>) -> Option<Seq<char>> {
    if arch == "x86"@ {
        Some("-32"@)
    } else if arch == "x86_64"@ {
        if os == "windows"@ {
            Some("-64"@)
        } else {
            Some("-amd64"@)
        }
    } else if arch == "aarch64"@ {
        Some("-arm64"@)
    } else if arch == "arm"@ {
        Some("-armv7"@)
    } else {
        None
    }
}

/// Both fragments at once: what the resolver needs of the platform.
pub open spec fn resolve_tags_spec(os: Seq<char>, arch: Seq<char>) -> Option<(Seq<char>, Seq<char>)> {
    match (os_tag_spec(os), arch_tag_spec(os, arch)) {
        (Some(o), Some(a)) => Some((o, a)),
        _ => None,
    }
}


/// The resolved tag pair, where one exists.
pub open spec fn tags_of(os: Seq<char>, arch: Seq<char>) -> (Seq<char>, Seq<char>) {
    resolve_tags_spec(os, arch)->0
}

/// The two tags for the running platform, or the error every unsupported
/// pair gets. No other work is attempted on an unsupported pair.
pub fn resolve_tags(os: &str, arch: &str) -> (r: Result<(&'static str, &'static str), TlsClientError>)
    ensures
        r matches Ok(t) ==> resolve_tags_spec(os@, arch@) == Some((t.0@, t.1@)),
        r is Err ==> resolve_tags_spec(os@, arch@) is None,
        r matches Err(e) ==> e == TlsClientError::UnsupportedPlatform,
{
    let os_t: &'static str = if str_eq(os, "windows") {
        "-windows"
    } else if str_eq(os, "macos") {
        "-darwin"
    } else if str_eq(os, "linux") {
        "-linux"
    } else {
        return Err(TlsClientError::UnsupportedPlatform);
    };
    let arch_t: &'static str = if str_eq(arch, "x86") {
        "-32"
    } else if str_eq(arch, "x86_64") {
        if str_eq(os, "windows") {
            "-64"
        } else {
            "-amd64"
        }
    } else if str_eq(arch, "aarch64") {
        "-arm64"
    } else if str_eq(arch, "arm") {
        "-armv7"
    } else {
        return Err(TlsClientError::UnsupportedPlatform);
    };
    Ok((os_t, arch_t))
}

/// For every platform pair in the supported matrix the resolver yields
/// exactly one candidate tag pair, and both tags are non-empty; every pair
/// outside the matrix is refused.
pub proof fn lemma_platform_matrix()
    ensures
        forall|os: Seq<char>, arch: Seq<char>|
            resolve_tags_spec(os, arch) is Some <==> ((os == "windows"@ || os == "macos"@ || os
                == "linux"@) && (arch == "x86"@ || arch == "x86_64"@ || arch == "aarch64"@ || arch
                == "arm"@)),
        forall|os: Seq<char>, arch: Seq<char>|
            #[trigger] resolve_tags_spec(os, arch) matches Some(t) ==> t.0.len() > 0 && t.1.len()
                > 0,
{
    reveal_strlit("-windows");
    reveal_strlit("-darwin");
    reveal_strlit("-linux");
    reveal_strlit("-32");
    reveal_strlit("-64");
    reveal_strlit("-amd64");
    reveal_strlit("-arm64");
    reveal_strlit("-armv7");
}

/// Whether the needle occurs at position `i`.
pub open spec fn is_substr_at(s: Seq<char>, needle: Seq<char>, i: int) -> bool {
    0 <= i && i + needle.len() <= s.len() && s.subrange(i, i + needle.len()) == needle
}

/// Whether the needle occurs anywhere in `s`.
pub open spec fn has_substr(s: Seq<char>, needle: Seq<char>) -> bool {
    exists|i: int| is_substr_at(s, needle, i)
}

fn match_at(s: &str, sn: usize, needle: &str, nn: usize, i: usize) -> (r: bool)
    requires
        sn == s@.len(),
        nn == needle@.len(),
        i + nn <= sn,
    ensures
        r == is_substr_at(s@, needle@, i as int),
{
    let mut j: usize = 0;
    while j < nn
        invariant
            sn == s@.len(),
            nn == needle@.len(),
            i + nn <= sn,
            0 <= j <= nn,
            forall|t: int| 0 <= t < j ==> s@[i + t] == needle@[t],
        decreases nn - j,
    {
        if s.get_char(i + j) != needle.get_char(j) {
            proof {
                assert(s@.subrange(i as int, i + nn)[j as int] == s@[i + j]);
            }
            return false;
        }
        j = j + 1;
    }
    proof {
        assert(s@.subrange(i as int, i + nn) =~= needle@);
    }
    true
}

/// Whether the needle occurs anywhere in `s`, character for character.
#[verifier::loop_isolation(false)]
pub fn contains_str(s: &str, needle: &str) -> (r: bool)
    ensures
        r == has_substr(s@, needle@),
{
    let sn: usize = s.unicode_len();
    let nn: usize = needle.unicode_len();
    if nn > sn {
        proof {
            assert(forall|i: int| !is_substr_at(s@, needle@, i));
        }
        return false;
    }
    if nn == 0 {
        proof {
            assert(s@.subrange(0, 0) =~= needle@);
            assert(is_substr_at(s@, needle@, 0));
        }
        return true;
    }
    let mut i: usize = 0;
    while i <= sn - nn
        invariant
            1 <= nn <= sn,
            0 <= i <= sn - nn + 1,
            forall|k: int| 0 <= k < i ==> !is_substr_at(s@, needle@, k),
        decreases sn - i,
    {
        if match_at(s, sn, needle, nn, i) {
            return true;
        }
        i = i + 1;
    }
    proof {
        assert(forall|k: int| is_substr_at(s@, needle@, k) ==> 0 <= k && k <= sn - nn);
    }
    false
}

/// One entry of the remote release index: an artifact name and where to
/// fetch it.
#[derive(Debug)]
pub struct AssetEntry {
    name: String,
    browser_download_url: String,
}

impl View for AssetEntry {
    type V = (Seq<char>, Seq<char>);

    closed spec fn view(&self) -> (Seq<char>, Seq<char>) {
        (self.name@, self.browser_download_url@)
    }
}

impl DeepView for AssetEntry {
    type V = (Seq<char>, Seq<char>);

    open spec fn deep_view(&self) -> (Seq<char>, Seq<char>) {
        self.view()
    }
}

impl AssetEntry {
    pub fn new(name: String, browser_download_url: String) -> (r: Self)
        ensures
            r@ == (name@, browser_download_url@),
    {
        AssetEntry { name, browser_download_url }
    }

    pub fn get_name(&self) -> (r: String)
        ensures
            r@ == self@.0,
    {
        self.name.clone()
    }

    pub fn get_browser_url(&self) -> (r: String)
        ensures
            r@ == self@.1,
    {
        self.browser_download_url.clone()
    }
}

/// Whether a release artifact fits the platform: it carries both tags and is
/// not the irrelevant cross-build variant.
pub open spec fn asset_matches(name: Seq<char>, os_t: Seq<char>, arch_t: Seq<char>) -> bool {
    has_substr(name, os_t) && has_substr(name, arch_t) && !has_substr(name, "xgo"@)
}

/// The download target of the first fitting artifact, if any.
pub open spec fn first_match(assets: Seq<(Seq<char>, Seq<char>)>, os_t: Seq<char>, arch_t: Seq<char>) -> Option<Seq<char>>
    decreases assets,
{
    if assets.len() == 0 {
        None
    } else if asset_matches(assets[0].0, os_t, arch_t) {
        Some(assets[0].1)
    } else {
        first_match(assets.drop_first(), os_t, arch_t)
    }
}

proof fn lemma_first_match_step(assets: Seq<(Seq<char>, Seq<char>)>, os_t: Seq<char>, arch_t: Seq<char>, i: int)
    requires
        0 <= i < assets.len(),
        !asset_matches(assets[i].0, os_t, arch_t),
    ensures
        first_match(assets.skip(i), os_t, arch_t) == first_match(assets.skip(i + 1), os_t, arch_t),
{
    assert(assets.skip(i)[0] == assets[i]);
    assert(assets.skip(i).drop_first() =~= assets.skip(i + 1));
}

/// The first artifact of the index that fits the platform, or the error that
/// says none was listed; a fitting entry with an empty download target counts
/// as no artifact found.
#[verifier::loop_isolation(false)]
pub fn select_asset(assets: &Vec<AssetEntry>, os_t: &str, arch_t: &str) -> (r: Result<String, TlsClientError>)
    ensures
        r matches Ok(u) ==> first_match(assets.deep_view(), os_t@, arch_t@) == Some(u@) && u@.len()
            > 0,
        r is Err ==> (first_match(assets.deep_view(), os_t@, arch_t@) is None || first_match(
            assets.deep_view(), os_t@, arch_t@)->0.len() == 0),
        r matches Err(e) ==> e == TlsClientError::AssetNotFound,
{
    let n: usize = assets.len();
    let mut i: usize = 0;
    proof {
        assert(assets.deep_view().skip(0) =~= assets.deep_view());
    }
    while i < n
        invariant
            0 <= i <= n,
            first_match(assets.deep_view(), os_t@, arch_t@) == first_match(
                assets.deep_view().skip(i as int), os_t@, arch_t@),
        decreases n - i,
    {
        let name = assets[i].get_name();
        let fits = contains_str(name.as_str(), os_t) && contains_str(name.as_str(), arch_t)
            && !contains_str(name.as_str(), "xgo");
        proof {
            assert(assets.deep_view()[i as int] == assets@[i as int]@);
            assert(assets.deep_view().skip(i as int)[0] == assets.deep_view()[i as int]);
        }
        if fits {
            let url = assets[i].get_browser_url();
            if url.as_str().unicode_len() == 0 {
                return Err(TlsClientError::AssetNotFound);
            }
            return Ok(url);
        }
        proof {
            lemma_first_match_step(assets.deep_view(), os_t@, arch_t@, i as int);
        }
        i = i + 1;
    }
    proof {
        assert(assets.deep_view().skip(n as int) =~= Seq::<(Seq<char>, Seq<char>)>::empty());
    }
    Err(TlsClientError::AssetNotFound)
}

/// One index entry as the remote side lists it: a name and a download target.
pub open spec fn asset_of_json(j: JsonV) -> Option<(Seq<char>, Seq<char>)> {
    match j {
        JsonV::Obj(ms) => match (req_str(get_field(ms, "name"@)), req_str(
            get_field(ms, "browser_download_url"@),
        )) {
            (Some(n), Some(u)) => Some((n, u)),
            _ => None,
        },
        _ => None,
    }
}

/// The artifact list of a release document: the `assets` member, each entry
/// well shaped.
pub open spec fn assets_of_json(j: JsonV) -> Option<Seq<(Seq<char>, Seq<char>)>> {
    match j {
        JsonV::Obj(ms) => match get_field(ms, "assets"@) {
            Some(JsonV::Arr(items)) => if forall|i: int|
                0 <= i < items.len() ==> asset_of_json(#[trigger] items[i]) is Some {
                Some(items.map(|i: int, it: JsonV| asset_of_json(it)->0))
            } else {
                None
            },
            _ => None,
        },
        _ => None,
    }
}

fn asset_from_json(v: &JsonValue) -> (r: Option<AssetEntry>)
    ensures
        match r {
            Some(a) => asset_of_json(v@) == Some(a@),
            None => asset_of_json(v@) is None,
        },
{
    let members = match v {
        JsonValue::Obj(ms) => ms,
        _ => {
            return None;
        },
    };
    let name = match crate::response::get_member(members, "name") {
        Some(JsonValue::Str(s)) => s.clone(),
        _ => {
            return None;
        },
    };
    let url = match crate::response::get_member(members, "browser_download_url") {
        Some(JsonValue::Str(s)) => s.clone(),
        _ => {
            return None;
        },
    };
    Some(AssetEntry::new(name, url))
}

#[verifier::loop_isolation(false)]
fn assets_from_json(v: &JsonValue) -> (r: Option<Vec<AssetEntry>>)
    ensures
        match r {
            Some(xs) => assets_of_json(v@) == Some(xs.deep_view()),
            None => assets_of_json(v@) is None,
        },
{
    let members = match v {
        JsonValue::Obj(ms) => ms,
        _ => {
            return None;
        },
    };
    let items = match crate::response::get_member(members, "assets") {
        Some(JsonValue::Arr(items)) => items,
        _ => {
            return None;
        },
    };
    proof {
        crate::json::lemma_view_arr_index(items@);
    }
    let ghost tv = view_arr(items@);
    let mut out: Vec<AssetEntry> = Vec::new();
    let n: usize = items.len();
    let mut i: usize = 0;
    while i < n
        invariant
            0 <= i <= n,
            forall|k: int| 0 <= k < i ==> asset_of_json(#[trigger] tv[k]) is Some,
            out.deep_view() =~= tv.take(i as int).map(|j: int, it: JsonV| asset_of_json(it)->0),
        decreases n - i,
    {
        match asset_from_json(&items[i]) {
            Some(a) => {
                let ghost prev = out.deep_view();
                let ghost ga = a@;
                out.push(a);
                proof {
                    assert(out.deep_view() =~= prev.push(ga));
                    assert(tv.take(i + 1) =~= tv.take(i as int).push(tv[i as int]));
                    assert(tv.take(i + 1).map(|j: int, it: JsonV| asset_of_json(it)->0) =~=
                        tv.take(i as int).map(|j: int, it: JsonV| asset_of_json(it)->0).push(ga));
                }
            },
            None => {
                proof {
                    assert(asset_of_json(tv[i as int]) is None);
                }
                return None;
            },
        }
        i = i + 1;
    }
    proof {
        assert(tv.take(n as int) =~= tv);
    }
    Some(out)
}

/// Reads the release index document: the grammar's reading of the trimmed
/// body, both ways — a document carrying a well-shaped artifact list must and
/// does give exactly those entries, names and download targets in order, and
/// any other body must and does give the lookup failure the spec of the
/// remote interface names.
pub fn parse_release_index(body: &str) -> (r: Result<Vec<AssetEntry>, TlsClientError>)
    ensures
        r matches Ok(xs) ==> json_of(trim_spec(body@)) matches Some(j) && assets_of_json(j)
            == Some(xs.deep_view()),
        json_of(trim_spec(body@)) matches Some(j) ==> assets_of_json(j) matches Some(a) ==> (r
            is Ok && r->Ok_0.deep_view() == a),
        r matches Err(e) ==> e == TlsClientError::AssetLookupFailure,
{
    match parse_json(body) {
        Some(v) => {
            match assets_from_json(&v) {
                Some(xs) => {
                    proof {
                        assert(json_of(trim_spec(body@)) == Some(v@) && assets_of_json(v@)
                            == Some(xs.deep_view()));
                    }
                    Ok(xs)
                },
                None => {
                    proof {
                        assert(json_of(trim_spec(body@)) == Some(v@));
                        assert(assets_of_json(v@) is None);
                    }
                    Err(TlsClientError::AssetLookupFailure)
                },
            }
        },
        None => {
            proof {
                assert(json_of(trim_spec(body@)) is None);
            }
            Err(TlsClientError::AssetLookupFailure)
        },
    }
}

/// Resolves the download target for the running platform from a fetched
/// release index: tags first, then the first fitting artifact. An unsupported
/// platform is refused before the index is even read.
#[derive(Debug)]
pub struct TlsClientBinaryDownloader(pub String);

impl TlsClientBinaryDownloader {
    pub fn new(os: &str, arch: &str, index_body: &str) -> (r: Result<Self, TlsClientError>)
        ensures
            resolve_tags_spec(os@, arch@) is None ==> r == Err::<Self, TlsClientError>(
                TlsClientError::UnsupportedPlatform),
            r is Ok ==> resolve_tags_spec(os@, arch@) is Some,
            r matches Err(e) ==> (e == TlsClientError::UnsupportedPlatform || e
                == TlsClientError::AssetLookupFailure || e == TlsClientError::AssetNotFound),
            r matches Ok(d) ==> json_of(trim_spec(index_body@)) matches Some(j) && assets_of_json(
                j) matches Some(assets) && first_match(assets, tags_of(os@, arch@).0,
                tags_of(os@, arch@).1) == Some(d.0@) && d.0@.len() > 0,
            json_of(trim_spec(index_body@)) matches Some(j) ==> assets_of_json(j) matches Some(
                assets) ==> first_match(assets, tags_of(os@, arch@).0, tags_of(os@, arch@).1)
                matches Some(u) ==> ((u.len() > 0 && resolve_tags_spec(os@, arch@) is Some) ==> (r
                is Ok && r->Ok_0.0@ == u)),
    {
        let (os_t, arch_t) = match resolve_tags(os, arch) {
            Ok(t) => t,
            Err(e) => {
                return Err(e);
            },
        };
        proof {
            assert(tags_of(os@, arch@).0 == os_t@);
            assert(tags_of(os@, arch@).1 == arch_t@);
        }
        let assets = match parse_release_index(index_body) {
            Ok(xs) => xs,
            Err(e) => {
                return Err(e);
            },
        };
        match select_asset(&assets, os_t, arch_t) {
            Ok(url) => Ok(TlsClientBinaryDownloader(url)),
            Err(e) => Err(e),
        }
    }

    /// The resolved download target.
    pub fn path(&self) -> (r: String)
        ensures
            r@ == self.0@,
    {
        self.0.clone()
    }
}

/// The cache file name for the platform: one fixed name per loader
/// convention, so a version change means a name change.
pub open spec fn binary_filename_spec(os: Seq<char>) -> Option<Seq<char>> {
    if os == "windows"@ {
        Some("tls_client_binary.dll"@)
    } else if os == "macos"@ {
        Some("tls_client_binary.dylib"@)
    } else if os == "linux"@ {
        Some("tls_client_binary.so"@)
    } else {
        None
    }
}

pub fn binary_filename(os: &str) -> (r: Result<String, TlsClientError>)
    ensures
        r matches Ok(f) ==> binary_filename_spec(os@) == Some(f@),
        r is Err ==> binary_filename_spec(os@) is None,
        r matches Err(e) ==> e == TlsClientError::UnsupportedPlatform,
{
    if str_eq(os, "windows") {
        Ok("tls_client_binary.dll".to_owned())
    } else if str_eq(os, "macos") {
        Ok("tls_client_binary.dylib".to_owned())
    } else if str_eq(os, "linux") {
        Ok("tls_client_binary.so".to_owned())
    } else {
        Err(TlsClientError::UnsupportedPlatform)
    }
}

/// How many writes one provisioning pass performs: none when the cache file
/// is already there, one when it is not.
pub open spec fn provision_writes(exists_before: bool) -> nat {
    if exists_before {
        0
    } else {
        1
    }
}

/// After a pass the cache file exists, whichever way the pass went.
pub open spec fn provision_after(exists_before: bool) -> bool {
    true
}

/// The decision one provisioning pass takes: write exactly when no file is
/// cached; an existing file is trusted as already provisioned and never
/// rewritten or re-checked.
pub fn provision_plan(exists_before: bool) -> (write: bool)
    ensures
        write == !exists_before,
        provision_writes(exists_before) == if write {
            1nat
        } else {
            0nat
        },
{
    !exists_before
}

/// Provisioning is idempotent: a second pass over the unchanged cache path
/// sees the file the first pass left and writes nothing, so two passes from
/// any starting state write exactly as often as the first alone — once from
/// a cold start, never when the file was already there.
pub proof fn lemma_provision_idempotent(exists_before: bool)
    ensures
        provision_writes(provision_after(exists_before)) == 0,
        provision_writes(exists_before) + provision_writes(provision_after(exists_before))
            == provision_writes(exists_before),
        !exists_before ==> provision_writes(exists_before) + provision_writes(
            provision_after(exists_before),
        ) == 1,
{
}

/// The provisioned binary on disk, named by its stable cache path.
#[derive(Debug)]
pub struct TlsClientBinaryFile(pub String);

impl TlsClientBinaryFile {
    /// Plans provisioning under the given cache directory: the full path the
    /// binary takes, and whether a write is owed. The path is refused on an
    /// unsupported platform before anything else is looked at.
    pub fn new(os: &str, cache_dir: &str, exists_before: bool) -> (r: Result<(Self, bool), TlsClientError>)
        ensures
            r matches Ok(p) ==> binary_filename_spec(os@) matches Some(f) && p.0.0@ == cache_dir@
                + "/"@ + f && p.1 == !exists_before,
            r is Err ==> binary_filename_spec(os@) is None,
            r matches Err(e) ==> e == TlsClientError::UnsupportedPlatform,
    {
        let filename = match binary_filename(os) {
            Ok(f) => f,
            Err(e) => {
                return Err(e);
            },
        };
        let mut path = cache_dir.to_owned();
        path.append("/");
        path.append(filename.as_str());
        let write = provision_plan(exists_before);
        Ok((TlsClientBinaryFile(path), write))
    }

    /// A file taken as provisioned at the given path, bypassing resolution.
    pub fn from(v: &str) -> (r: Self)
        ensures
            r.0@ == v@,
    {
        TlsClientBinaryFile(v.to_owned())
    }

    /// The absolute path the loader is handed.
    pub fn path(&self) -> (r: &String)
        ensures
            r@ == self.0@,
    {
        &self.0
    }
}

} // verus!
