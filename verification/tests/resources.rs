//! The rules that research resources and local packages must meet.

use jueming::application::ResourceFile;
use jueming::resources::{
    check_bundle_manifest, check_download_size, check_local_package, check_plugin,
    check_required_operators, check_unique_operators, download_url, publish_progress,
    resource_matches, total_declared_bytes, BundleManifest, PluginManifest,
};

fn file(path: &str, bytes: u64) -> ResourceFile {
    ResourceFile {
        path: path.into(),
        sha256: String::new(),
        bytes,
        executable: false,
        url: None,
    }
}

fn package() -> PluginManifest {
    PluginManifest {
        protocol_version: 1,
        package_id: "demo.fuzzy".into(),
        release: "1.0.0".into(),
        entrypoint: "main.py".into(),
        runtime: "python-3.12".into(),
        operators: vec!["fuzzy.edit_distance".into()],
        slots: vec![("similarity".into(), "fuzzy.edit_distance".into())],
        files: vec![file("main.py", 10), file("lib/util.py", 20)],
    }
}

#[test]
fn declared_sizes_add_up_or_overflow() {
    assert_eq!(total_declared_bytes(&[file("a", 1), file("b", 2)], "overflow"), Ok(3));
    assert_eq!(total_declared_bytes(&[], "overflow"), Ok(0));
    assert_eq!(
        total_declared_bytes(&[file("a", u64::MAX), file("b", 1)], "overflow"),
        Err("overflow".to_string())
    );
}

#[test]
fn local_packages_are_checked_before_installation() {
    assert_eq!(check_local_package(100, &package()), Ok(30));
    assert_eq!(check_local_package(1024 * 1024 + 1, &package()), Err("package manifest too large".into()));
    let mut p = package();
    p.entrypoint = "../main.py".into();
    assert_eq!(check_local_package(100, &p), Err("unsafe resource path".into()));
    let mut p = package();
    p.runtime = "python-3.11".into();
    assert_eq!(check_local_package(100, &p), Err("incompatible local package".into()));
    let mut p = package();
    p.files = vec![];
    assert_eq!(check_local_package(100, &p), Err("incompatible local package".into()));
    let mut p = package();
    p.files = vec![file("main.py", 128 * 1024 * 1024), file("x", 1)];
    assert_eq!(check_local_package(100, &p), Err("local algorithm package exceeds 128 MiB".into()));
    let mut p = package();
    p.files = vec![file("main.py", u64::MAX), file("x", 1)];
    assert_eq!(check_local_package(100, &p), Err("package size overflow".into()));
    let mut p = package();
    p.files = vec![file("other.py", 1)];
    assert_eq!(check_local_package(100, &p), Err("entrypoint is not integrity-covered".into()));
}

#[test]
fn bundle_plugins_need_protocol_one_and_a_slot_per_operator() {
    assert_eq!(check_plugin(&package()), Ok(()));
    let mut p = package();
    p.protocol_version = 2;
    assert_eq!(check_plugin(&p), Err("incompatible plugin protocol".into()));
    let mut p = package();
    p.slots.clear();
    assert_eq!(check_plugin(&p), Err("plugin slot bindings do not match its operators".into()));
    let mut p = package();
    p.package_id = String::new();
    assert_eq!(check_plugin(&p), Err("unsafe resource path".into()));
}

#[test]
fn bundle_manifests_need_format_one_files_and_plugins() {
    let manifest = BundleManifest {
        format_version: 1,
        release: "2024.1".into(),
        python: "python/bin/python3".into(),
        packages: "site-packages".into(),
        model: "models/xlmr".into(),
        model_revision: "r1".into(),
        files: vec![file("a", 1)],
        plugins: vec![package()],
    };
    assert_eq!(check_bundle_manifest(&manifest), Ok(()));
    let mut m = manifest.clone();
    m.format_version = 2;
    assert_eq!(check_bundle_manifest(&m), Err("incompatible resource manifest".into()));
    let mut m = manifest.clone();
    m.plugins.clear();
    assert_eq!(check_bundle_manifest(&m), Err("incompatible resource manifest".into()));
    let mut m = manifest;
    m.release = "/abs".into();
    assert_eq!(check_bundle_manifest(&m), Err("unsafe resource path".into()));
}

#[test]
fn downloads_come_only_from_https() {
    let mut f = file("model.bin", 1);
    assert_eq!(download_url(&f), Err("资源缺失且没有官方下载地址：model.bin".into()));
    f.url = Some("http://example.test/model.bin".into());
    assert!(download_url(&f).is_err());
    f.url = Some("https://example.test/model.bin".into());
    assert_eq!(download_url(&f), Ok("https://example.test/model.bin".into()));
    assert!(check_download_size(10, 10).is_ok());
    assert_eq!(check_download_size(11, 10), Err("download exceeded declared size".into()));
}

#[test]
fn integrity_is_size_and_sha256() {
    let mut f = file("abc.txt", 3);
    f.sha256 = "ba7816bf8f01cfea414140de5dae2223b00361a396177a9cb410ff61f20015ad".into();
    assert!(resource_matches(&f, b"abc"));
    assert!(!resource_matches(&f, b"abd"));
    f.bytes = 4;
    assert!(!resource_matches(&f, b"abc"));
}

#[test]
fn prepared_workers_must_cover_the_required_operators_once() {
    let all: Vec<String> = vec![
        "fuzzy.edit_distance".into(),
        "fuzzy.char_ngram".into(),
        "xlmr.contextual_alignment".into(),
    ];
    assert!(check_required_operators(&all).is_ok());
    assert_eq!(
        check_required_operators(&all[..2].to_vec()),
        Err("research feature requires both fuzzy providers and XLM-R".into())
    );
    assert!(check_unique_operators(&all).is_ok());
    let mut twice = all.clone();
    twice.push("fuzzy.char_ngram".into());
    assert_eq!(check_unique_operators(&twice), Err("duplicate plugin operator".into()));
}

#[test]
fn progress_is_published_on_large_files_and_at_the_end() {
    assert!(publish_progress(2 * 1024 * 1024, 10, 100));
    assert!(publish_progress(10, 100, 100));
    assert!(!publish_progress(1024 * 1024, 10, 100));
}
