use maa_cli::{Asset, MirrorDownload};

fn asset_with_mirrors() -> Asset {
    Asset {
        name: "MAA-v1.2.3-linux-x86_64.tar.gz".to_string(),
        size: 4096,
        browser_download_url: "https://primary.example/a.tar.gz".to_string(),
        mirrors: vec![
            "https://mirror-one.example/a.tar.gz".to_string(),
            "https://mirror-two.example/a.tar.gz".to_string(),
        ],
    }
}

#[test]
fn cache_hit_on_exact_size() {
    let a = asset_with_mirrors();
    assert!(a.is_cached(true, Some(4096)));
}

#[test]
fn cache_miss_on_size_mismatch_or_absence() {
    let a = asset_with_mirrors();
    assert!(!a.is_cached(true, Some(4095)));
    assert!(!a.is_cached(true, Some(0)));
    assert!(!a.is_cached(false, Some(4096)));
    // Unreadable metadata counts as a miss.
    assert!(!a.is_cached(true, None));
}

#[test]
fn sources_tried_primary_then_mirrors_in_order() {
    let a = asset_with_mirrors();
    let mut dl = MirrorDownload::new(&a);
    assert_eq!(dl.next_source().unwrap(), "https://primary.example/a.tar.gz");
    assert_eq!(dl.next_source().unwrap(), "https://mirror-one.example/a.tar.gz");
    assert_eq!(dl.next_source().unwrap(), "https://mirror-two.example/a.tar.gz");
    assert_eq!(dl.next_source(), None);
    assert_eq!(dl.next_source(), None);
}

#[test]
fn no_mirrors_means_primary_only() {
    let mut a = asset_with_mirrors();
    a.mirrors = vec![];
    let mut dl = MirrorDownload::new(&a);
    assert_eq!(dl.next_source().unwrap(), "https://primary.example/a.tar.gz");
    assert_eq!(dl.next_source(), None);
}
