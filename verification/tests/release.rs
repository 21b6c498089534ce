use vortex_ais::release::{find_asset_url, needs_update, update_archive_url, version_core, GithubAsset, GithubRelease};

fn asset(name: &str, url: &str) -> GithubAsset {
    GithubAsset { name: name.to_string(), browser_download_url: url.to_string() }
}

#[test]
fn version_core_drops_leading_vs() {
    assert_eq!(version_core("v0.2.0"), "0.2.0");
    assert_eq!(version_core("vv1"), "1");
    assert_eq!(version_core("0.2.0"), "0.2.0");
    assert_eq!(version_core(""), "");
}

#[test]
fn same_version_needs_no_update() {
    assert!(!needs_update("0.2.0", "v0.2.0"));
    assert!(!needs_update("v0.2.0", "0.2.0"));
    assert!(needs_update("0.2.0", "v0.3.0"));
}

#[test]
fn archive_url_is_first_vortex_zip() {
    let release = GithubRelease {
        tag_name: "v1".to_string(),
        assets: vec![asset("notes.txt", "u0"), asset("vortex.zip", "u1"), asset("vortex.zip", "u2")],
    };
    assert_eq!(update_archive_url(&release), Some("u1".to_string()));
    assert_eq!(find_asset_url(&release, "notes.txt"), Some("u0".to_string()));
    assert_eq!(find_asset_url(&release, "other"), None);
}

#[test]
fn release_without_archive_has_no_url() {
    let release = GithubRelease { tag_name: "v1".to_string(), assets: vec![asset("Vortex.zip", "u")] };
    assert_eq!(update_archive_url(&release), None);
}
