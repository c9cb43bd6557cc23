use rust_tls_client::TlsClientError;
use rust_tls_client::asset::{
    binary_filename, parse_release_index, provision_plan, resolve_tags, select_asset, AssetEntry,
    TlsClientBinaryDownloader, TlsClientBinaryFile,
};

#[test]
fn supported_matrix_resolves() {
    assert_eq!(resolve_tags("windows", "x86_64").unwrap(), ("-windows", "-64"));
    assert_eq!(resolve_tags("windows", "x86").unwrap(), ("-windows", "-32"));
    assert_eq!(resolve_tags("linux", "x86_64").unwrap(), ("-linux", "-amd64"));
    assert_eq!(resolve_tags("linux", "aarch64").unwrap(), ("-linux", "-arm64"));
    assert_eq!(resolve_tags("linux", "arm").unwrap(), ("-linux", "-armv7"));
    assert_eq!(resolve_tags("macos", "x86_64").unwrap(), ("-darwin", "-amd64"));
    assert_eq!(resolve_tags("macos", "aarch64").unwrap(), ("-darwin", "-arm64"));
}

#[test]
fn unrecognized_architecture_fails_before_any_lookup() {
    // The tag resolution itself refuses the pair; no index is consulted.
    assert_eq!(resolve_tags("linux", "mips").unwrap_err(), TlsClientError::UnsupportedPlatform);
    assert_eq!(resolve_tags("freebsd", "x86_64").unwrap_err(), TlsClientError::UnsupportedPlatform);
    // The full resolver refuses the pair without reading the index at all:
    // an index that would not even parse is never an obstacle here.
    let r = TlsClientBinaryDownloader::new("linux", "mips", "not json at all");
    assert_eq!(r.unwrap_err(), TlsClientError::UnsupportedPlatform);
}

#[test]
fn asset_selection_takes_first_fitting_entry() {
    let assets = vec![
        AssetEntry::new("tls-client-xgo-linux-amd64".into(), "u0".into()),
        AssetEntry::new("tls-client-windows-64.dll".into(), "u1".into()),
        AssetEntry::new("tls-client-linux-amd64-v1.so".into(), "u2".into()),
        AssetEntry::new("tls-client-linux-amd64-v2.so".into(), "u3".into()),
    ];
    assert_eq!(select_asset(&assets, "-linux", "-amd64").unwrap(), "u2");
    assert_eq!(
        select_asset(&assets, "-darwin", "-arm64").unwrap_err(),
        TlsClientError::AssetNotFound
    );

    // A fitting entry whose download target is empty counts as nothing found,
    // as the original's empty-target check had it.
    let empty_url = vec![AssetEntry::new("tls-client-linux-amd64.so".into(), "".into())];
    assert_eq!(
        select_asset(&empty_url, "-linux", "-amd64").unwrap_err(),
        TlsClientError::AssetNotFound
    );
}

#[test]
fn release_index_is_parsed_and_missing_assets_fail() {
    let body = "{\"tag_name\":\"v1\",\"assets\":[{\"name\":\"tls-client-linux-amd64.so\",\"browser_download_url\":\"https://dl/x.so\"}]}";
    let assets = parse_release_index(body).unwrap();
    assert_eq!(assets.len(), 1);
    assert_eq!(assets[0].get_name(), "tls-client-linux-amd64.so");
    assert_eq!(assets[0].get_browser_url(), "https://dl/x.so");

    let no_assets = "{\"tag_name\":\"v1\"}";
    assert_eq!(parse_release_index(no_assets).unwrap_err(), TlsClientError::AssetLookupFailure);
    assert_eq!(parse_release_index("{\"assets\":").unwrap_err(), TlsClientError::AssetLookupFailure);
}

#[test]
fn full_resolution_picks_the_platform_artifact() {
    let body = "{\"assets\":[{\"name\":\"tls-client-xgo-linux-amd64\",\"browser_download_url\":\"bad\"},{\"name\":\"tls-client-linux-amd64-v1.7.2.so\",\"browser_download_url\":\"https://dl/good.so\"}]}";
    let d = TlsClientBinaryDownloader::new("linux", "x86_64", body).unwrap();
    assert_eq!(d.path(), "https://dl/good.so");
}

#[test]
fn provisioning_is_idempotent() {
    // First pass from a cold cache writes; the pass after it sees the file
    // and writes nothing: one write in total.
    assert!(provision_plan(false));
    assert!(!provision_plan(true));

    let (file, write_first) = TlsClientBinaryFile::new("linux", "/tmp/rust_tls_client", false).unwrap();
    assert!(write_first);
    assert_eq!(file.path(), "/tmp/rust_tls_client/tls_client_binary.so");
    let (file2, write_second) = TlsClientBinaryFile::new("linux", "/tmp/rust_tls_client", true).unwrap();
    assert!(!write_second);
    assert_eq!(file2.path(), file.path());
}

#[test]
fn cache_filenames_follow_the_loader_convention() {
    assert_eq!(binary_filename("windows").unwrap(), "tls_client_binary.dll");
    assert_eq!(binary_filename("macos").unwrap(), "tls_client_binary.dylib");
    assert_eq!(binary_filename("linux").unwrap(), "tls_client_binary.so");
    assert_eq!(binary_filename("plan9").unwrap_err(), TlsClientError::UnsupportedPlatform);
}

#[test]
fn provisioned_path_can_be_pinned_directly() {
    let f = TlsClientBinaryFile::from("/opt/native/engine.so");
    assert_eq!(f.path(), "/opt/native/engine.so");
}
