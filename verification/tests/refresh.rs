use oma::refresh::{
    OmaRefresh, OmaSourceEntry, OmaSourceEntryFrom, RefreshError, SourceListEntry,
};

fn entry(url: &str, suite: &str, components: Vec<&str>, options: Option<&str>) -> SourceListEntry {
    SourceListEntry {
        source: false,
        options: options.map(|o| o.to_string()),
        url: url.to_string(),
        suite: suite.to_string(),
        components: components.into_iter().map(|c| c.to_string()).collect(),
    }
}

#[test]
fn classifies_http_entry_and_derives_paths() {
    let v = entry("https://repo.example/debs", "stable", vec!["main"], None);
    let e = OmaSourceEntry::new(&v).unwrap();
    assert_eq!(e.from, OmaSourceEntryFrom::Http);
    assert!(!e.is_flat);
    assert_eq!(e.dist_path, "https://repo.example/debs/dists/stable");
    assert_eq!(e.inrelease_path, "https://repo.example/debs/dists/stable/InRelease");
    assert_eq!(e.components, vec!["main".to_string()]);
    assert_eq!(e.signed_by, None);
}

#[test]
fn classifies_local_entry() {
    let v = entry("file:///srv/repo", "stable", vec!["main"], None);
    let e = OmaSourceEntry::new(&v).unwrap();
    assert_eq!(e.from, OmaSourceEntryFrom::Local);
}

#[test]
fn trailing_slash_is_trimmed_for_paths() {
    let v = entry("http://repo.example/debs/", "stable", vec!["main"], None);
    let e = OmaSourceEntry::new(&v).unwrap();
    assert_eq!(e.dist_path, "http://repo.example/debs/dists/stable");
}

#[test]
fn flat_repository_uses_release_at_the_url() {
    let v = entry("http://repo.example/flat", "/", vec![], None);
    let e = OmaSourceEntry::new(&v).unwrap();
    assert!(e.is_flat);
    assert_eq!(e.dist_path, "http://repo.example/flat");
    assert_eq!(e.inrelease_path, "http://repo.example/flat/Release");
}

#[test]
fn unsupported_protocol_is_rejected() {
    let v = entry("cdrom://disc1", "stable", vec!["main"], None);
    assert_eq!(
        OmaSourceEntry::new(&v),
        Err(RefreshError::UnsupportedProtocol("cdrom://disc1".to_string()))
    );
}

#[test]
fn non_flat_entry_without_components_is_rejected() {
    let v = entry("http://repo.example/debs", "stable", vec![], None);
    assert!(matches!(
        OmaSourceEntry::new(&v),
        Err(RefreshError::UnsupportedProtocol(_))
    ));
}

#[test]
fn signed_by_option_is_extracted() {
    let v = entry(
        "http://repo.example/debs",
        "stable",
        vec!["main"],
        Some("arch=amd64 signed-by=/usr/share/keyrings/repo.gpg trusted=yes"),
    );
    let e = OmaSourceEntry::new(&v).unwrap();
    assert_eq!(e.signed_by.as_deref(), Some("/usr/share/keyrings/repo.gpg"));
}

#[test]
fn absent_signed_by_yields_none() {
    let v = entry(
        "http://repo.example/debs",
        "stable",
        vec!["main"],
        Some("arch=amd64 trusted=yes"),
    );
    let e = OmaSourceEntry::new(&v).unwrap();
    assert_eq!(e.signed_by, None);
}

#[test]
fn scan_classifies_every_entry() {
    let sources = vec![
        entry("http://a.example/debs", "stable", vec!["main"], None),
        entry("file:///srv/repo", "stable", vec!["main"], None),
    ];
    let m = OmaRefresh::scan(Some(4), sources, "amd64".to_string(), "/var/lib/apt/lists".to_string())
        .unwrap();
    assert_eq!(m.sources.len(), 2);
    assert_eq!(m.sources[0].from, OmaSourceEntryFrom::Http);
    assert_eq!(m.sources[1].from, OmaSourceEntryFrom::Local);
    assert_eq!(m.limit, Some(4));
    assert_eq!(m.arch, "amd64");
    assert!(m.bar);
}

#[test]
fn scan_stops_at_the_first_bad_entry() {
    let sources = vec![
        entry("http://a.example/debs", "stable", vec!["main"], None),
        entry("gopher://b.example", "stable", vec!["main"], None),
    ];
    let r = OmaRefresh::scan(None, sources, "amd64".to_string(), "/tmp".to_string());
    assert_eq!(
        r.err(),
        Some(RefreshError::UnsupportedProtocol("gopher://b.example".to_string()))
    );
}

#[test]
fn builder_style_setters_update_the_configuration() {
    let sources = vec![entry("http://a.example/debs", "stable", vec!["main"], None)];
    let mut m = OmaRefresh::scan(None, sources, "amd64".to_string(), "/tmp".to_string()).unwrap();
    m.download_dir("/elsewhere").bar(false);
    assert_eq!(m.download_dir, "/elsewhere");
    assert!(!m.bar);
}
