use std::cmp::Ordering;

use oma::download::{
    CompressFile, DownloadEntry, DownloadSource, DownloadSourceType, Summary,
};

#[test]
fn compress_file_sorts_descending_in_preference_order() {
    let mut v = vec![
        CompressFile::Gzip,
        CompressFile::Nothing,
        CompressFile::Zstd,
        CompressFile::Bz2,
        CompressFile::Xz,
    ];
    v.sort();
    v.reverse();
    assert_eq!(
        v,
        vec![
            CompressFile::Zstd,
            CompressFile::Xz,
            CompressFile::Gzip,
            CompressFile::Bz2,
            CompressFile::Nothing,
        ]
    );
}

#[test]
fn compress_file_partial_cmp_is_total_and_consistent() {
    let all = [
        CompressFile::Nothing,
        CompressFile::Bz2,
        CompressFile::Gzip,
        CompressFile::Xz,
        CompressFile::Zstd,
    ];
    for (i, a) in all.iter().enumerate() {
        for (j, b) in all.iter().enumerate() {
            let expect = i.cmp(&j);
            assert_eq!(a.partial_cmp(b), Some(expect));
        }
    }
}

#[test]
fn compress_file_from_extension() {
    assert_eq!(CompressFile::from("xz"), CompressFile::Xz);
    assert_eq!(CompressFile::from("gz"), CompressFile::Gzip);
    assert_eq!(CompressFile::from("bz2"), CompressFile::Bz2);
    assert_eq!(CompressFile::from("zst"), CompressFile::Zstd);
    assert_eq!(CompressFile::from("tar"), CompressFile::Nothing);
    assert_eq!(CompressFile::from(""), CompressFile::Nothing);
}

#[test]
fn compress_file_default_is_nothing() {
    assert_eq!(CompressFile::default(), CompressFile::Nothing);
}

#[test]
fn source_type_orders_http_before_local() {
    let http = DownloadSourceType::Http { auth: None };
    let local = DownloadSourceType::Local(false);
    assert_eq!(http.partial_cmp(&local), Some(Ordering::Less));
    assert_eq!(local.partial_cmp(&http), Some(Ordering::Greater));
    assert_eq!(http.partial_cmp(&DownloadSourceType::Http {
        auth: Some(("user".to_string(), "pw".to_string())),
    }), Some(Ordering::Equal));
    assert_eq!(local.partial_cmp(&DownloadSourceType::Local(true)), Some(Ordering::Equal));
}

#[test]
fn dest_path_joins_with_single_separator() {
    let mut e = DownloadEntry {
        source: vec![],
        filename: "Packages.xz".to_string(),
        dir: "/var/lib/apt/lists".to_string(),
        hash: None,
        allow_resume: false,
        msg: None,
        file_type: CompressFile::Xz,
    };
    assert_eq!(e.dest_path(), "/var/lib/apt/lists/Packages.xz");
    e.dir = "/var/lib/apt/lists/".to_string();
    assert_eq!(e.dest_path(), "/var/lib/apt/lists/Packages.xz");
    e.dir = String::new();
    assert_eq!(e.dest_path(), "Packages.xz");
}

#[test]
fn summary_carries_its_fields() {
    let s = Summary {
        filename: "f".to_string(),
        wrote: true,
        count: 7,
        context: Some("ctx".to_string()),
    };
    assert_eq!(s.filename, "f");
    assert!(s.wrote);
    assert_eq!(s.count, 7);
    assert_eq!(s.context.as_deref(), Some("ctx"));
}

#[test]
fn download_source_holds_url_and_type() {
    let s = DownloadSource {
        url: "http://mirror.example/pool/a.deb".to_string(),
        source_type: DownloadSourceType::Http { auth: None },
    };
    assert_eq!(s.url, "http://mirror.example/pool/a.deb");
    assert_eq!(s.source_type, DownloadSourceType::Http { auth: None });
}
