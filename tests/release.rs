use rsearx::release::{
    first_release, from_asset, from_release, RawAsset, RawRelease, Release, ReleaseAsset,
    ReleaseError,
};

fn asset(url: Option<&str>, name: Option<&str>) -> RawAsset {
    RawAsset { url: url.map(|s| s.to_string()), name: name.map(|s| s.to_string()) }
}

fn raw_release() -> RawRelease {
    RawRelease {
        tag_name: Some("v1.2.3".to_string()),
        created_at: Some("2022-08-01T10:00:00Z".to_string()),
        name: Some("First".to_string()),
        body: Some("notes".to_string()),
        assets: Some(vec![asset(Some("https://dl/1"), Some("web.zip"))]),
    }
}

#[test]
fn release_is_read_with_trimmed_version() {
    let release = from_release(&raw_release()).unwrap();
    assert_eq!(release.name, "First");
    assert_eq!(release.version, "1.2.3");
    assert_eq!(release.date, "2022-08-01T10:00:00Z");
    assert_eq!(release.body, Some("notes".to_string()));
    assert_eq!(release.assets.len(), 1);
    assert_eq!(release.assets[0].download_url, "https://dl/1");
    assert_eq!(release.assets[0].name, "web.zip");
}

#[test]
fn release_name_defaults_to_tag() {
    let mut raw = raw_release();
    raw.name = None;
    raw.tag_name = Some("vv2".to_string());
    raw.body = None;
    let release = from_release(&raw).unwrap();
    assert_eq!(release.name, "vv2");
    assert_eq!(release.version, "2");
    assert_eq!(release.body, None);
}

#[test]
fn tag_without_prefix_is_kept() {
    let mut raw = raw_release();
    raw.tag_name = Some("1.0v".to_string());
    assert_eq!(from_release(&raw).unwrap().version, "1.0v");
    raw.tag_name = Some("v".to_string());
    assert_eq!(from_release(&raw).unwrap().version, "");
}

#[test]
fn release_errors_in_order() {
    let mut raw = raw_release();
    raw.tag_name = None;
    raw.created_at = None;
    assert_eq!(from_release(&raw).unwrap_err(), ReleaseError::MissingTagName);

    let mut raw = raw_release();
    raw.created_at = None;
    raw.assets = None;
    assert_eq!(from_release(&raw).unwrap_err(), ReleaseError::MissingCreatedAt);

    let mut raw = raw_release();
    raw.assets = None;
    assert_eq!(from_release(&raw).unwrap_err(), ReleaseError::NoAssets);

    let mut raw = raw_release();
    raw.assets = Some(vec![
        asset(Some("https://dl/1"), Some("a.zip")),
        asset(Some("https://dl/2"), None),
        asset(None, None),
    ]);
    assert_eq!(from_release(&raw).unwrap_err(), ReleaseError::AssetMissingName);
}

#[test]
fn asset_errors() {
    assert_eq!(from_asset(&asset(None, Some("n"))).unwrap_err(), ReleaseError::AssetMissingUrl);
    assert_eq!(from_asset(&asset(Some("u"), None)).unwrap_err(), ReleaseError::AssetMissingName);
    let a = from_asset(&asset(Some("u"), Some("n"))).unwrap();
    assert_eq!(a.download_url, "u");
    assert_eq!(a.name, "n");
}

#[test]
fn release_error_messages() {
    assert_eq!(ReleaseError::MissingTagName.message(), "Release missing `tag_name`");
    assert_eq!(ReleaseError::MissingCreatedAt.message(), "Release missing `created_at`");
    assert_eq!(ReleaseError::NoAssets.message(), "No assets found");
    assert_eq!(ReleaseError::AssetMissingUrl.message(), "Asset missing `url`");
    assert_eq!(ReleaseError::AssetMissingName.message(), "Asset missing `name`");
    assert_eq!(ReleaseError::NoRelease.message(), "No release found");
}

#[test]
fn first_asset_of_release() {
    let release = Release {
        name: "n".to_string(),
        version: "1".to_string(),
        date: "d".to_string(),
        body: None,
        assets: vec![
            ReleaseAsset { download_url: "https://dl/a".to_string(), name: "a.zip".to_string() },
            ReleaseAsset { download_url: "https://dl/b".to_string(), name: "b.zip".to_string() },
        ],
    };
    assert_eq!(release.get_first_asset().unwrap().name, "a.zip");
    let empty = Release { assets: Vec::new(), ..release };
    assert_eq!(empty.get_first_asset().unwrap_err(), ReleaseError::NoAssets);
}

#[test]
fn first_release_of_feed() {
    assert_eq!(first_release(&Vec::new()).unwrap_err(), ReleaseError::NoRelease);
    let mut older = raw_release();
    older.tag_name = Some("v0.9".to_string());
    let feed = vec![raw_release(), older];
    assert_eq!(first_release(&feed).unwrap().version, "1.2.3");
}
