use lune_fonts::release::{find_release_by_tag, releases_url, version_tag, Release, ReleaseAsset};

fn asset(id: u64, name: Option<&str>) -> ReleaseAsset {
    ReleaseAsset {
        id,
        url: format!("https://example.invalid/assets/{}", id),
        name: name.map(|name| name.to_string()),
        label: None,
        content_type: "application/zip".to_string(),
        size: 10 * id,
    }
}

fn release(id: u64, tag: &str, assets: Vec<ReleaseAsset>) -> Release {
    Release {
        id,
        url: format!("https://example.invalid/releases/{}", id),
        tag_name: tag.to_string(),
        name: Some(format!("Release {}", tag)),
        body: None,
        draft: false,
        prerelease: false,
        assets,
    }
}

#[test]
fn releases_url_is_exact() {
    assert_eq!(
        releases_url("filiptibell", "lune"),
        "https://api.github.com/repos/filiptibell/lune/releases"
    );
    assert_eq!(releases_url("", ""), "https://api.github.com/repos///releases");
}

#[test]
fn version_tag_is_exact() {
    assert_eq!(version_tag("0.6.3"), "v0.6.3");
    assert_eq!(version_tag(""), "v");
}

#[test]
fn finds_the_first_release_with_the_tag() {
    let releases = vec![
        release(1, "v0.1.0", vec![]),
        release(2, "v0.2.0", vec![]),
        release(3, "v0.2.0", vec![]),
    ];
    assert_eq!(find_release_by_tag(&releases, "v0.1.0"), Some(0));
    assert_eq!(find_release_by_tag(&releases, "v0.2.0"), Some(1));
    assert_eq!(find_release_by_tag(&releases, "v0.3.0"), None);
    assert_eq!(find_release_by_tag(&releases, "V0.1.0"), None);
    assert_eq!(find_release_by_tag(&Vec::new(), "v0.1.0"), None);
    let tag = version_tag("0.2.0");
    assert_eq!(find_release_by_tag(&releases, &tag), Some(1));
}

#[test]
fn finds_the_first_asset_with_the_name() {
    let found = release(
        1,
        "v1.0.0",
        vec![
            asset(1, None),
            asset(2, Some("a.zip")),
            asset(3, Some("b.zip")),
            asset(4, Some("a.zip")),
        ],
    );
    assert_eq!(found.find_asset("a.zip"), Some(1));
    assert_eq!(found.find_asset("b.zip"), Some(2));
    assert_eq!(found.find_asset("c.zip"), None);
    assert_eq!(found.find_asset(""), None);
    assert_eq!(found.find_asset("A.zip"), None);
    assert_eq!(release(2, "v1.0.0", vec![]).find_asset("a.zip"), None);
}

#[test]
fn clones_keep_every_field() {
    let source = release(7, "v7", vec![asset(1, Some("x")), asset(2, None)]);
    let copy = source.clone();
    assert_eq!(copy.id, 7);
    assert_eq!(copy.url, source.url);
    assert_eq!(copy.tag_name, "v7");
    assert_eq!(copy.name, source.name);
    assert_eq!(copy.body, None);
    assert_eq!(copy.draft, false);
    assert_eq!(copy.prerelease, false);
    assert_eq!(copy.assets.len(), 2);
    assert_eq!(copy.assets[0].name.as_deref(), Some("x"));
    assert_eq!(copy.assets[0].size, 10);
    assert_eq!(copy.assets[1].name, None);
    assert_eq!(copy.assets[1].url, source.assets[1].url);
    assert_eq!(copy.assets[1].content_type, "application/zip");
}
