use rust_pkg_gen::cache::cache_plan;
use rust_pkg_gen::digest::content_digest;
use rust_pkg_gen::manifest::{InstallerArtifact, Manifest, Package, SyncError, TargetEntry};
use rust_pkg_gen::publish::{manifest_to_toml, publish_plan};
use rust_pkg_gen::request::{Request, validate_request};
use rust_pkg_gen::sync::{check_manifest_integrity, check_manifest_version, plan_channel};

const UPSTREAM: &str = "https://static.rust-lang.org/";
const H1: &str = "1111111111111111111111111111111111111111111111111111111111111111";
const H2: &str = "2222222222222222222222222222222222222222222222222222222222222222";
const H3: &str = "3333333333333333333333333333333333333333333333333333333333333333";
const H4: &str = "4444444444444444444444444444444444444444444444444444444444444444";

fn strings(v: &[&str]) -> Vec<String> {
    v.iter().map(|s| s.to_string()).collect()
}

fn entry(target: &str, stem: &str, h_gz: &str, h_xz: &str) -> TargetEntry {
    TargetEntry {
        target: target.to_string(),
        available: true,
        url: Some(format!("{UPSTREAM}dist/2024-01-01/{stem}.tar.gz")),
        hash: Some(h_gz.to_string()),
        xz_url: Some(format!("{UPSTREAM}dist/2024-01-01/{stem}.tar.xz")),
        xz_hash: Some(h_xz.to_string()),
    }
}

fn scenario_manifest() -> Manifest {
    Manifest {
        version: "2".to_string(),
        date: Some("2024-01-01".to_string()),
        packages: vec![Package {
            name: "rust-std".to_string(),
            targets: vec![
                entry(
                    "x86_64-unknown-linux-gnu",
                    "rust-std-x86_64-unknown-linux-gnu",
                    H1,
                    H2,
                ),
                entry(
                    "aarch64-apple-darwin",
                    "rust-std-aarch64-apple-darwin",
                    H3,
                    H4,
                ),
            ],
        }],
        installer_msi: Vec::new(),
        installer_pkg: Vec::new(),
    }
}

fn scenario_request() -> Request {
    Request {
        channels: strings(&["stable"]),
        targets: strings(&["x86_64-unknown-linux-gnu"]),
        platforms: strings(&[]),
        components: strings(&["rust-std"]),
        format_map: Vec::new(),
        quiet: true,
    }
}

#[test]
fn end_to_end_scenario() {
    let m = scenario_manifest();
    let req = validate_request(&scenario_request()).unwrap();
    let (published, refs) = plan_channel(&m, &req, UPSTREAM).unwrap();

    // The darwin row keeps its key but is marked unavailable; the linux
    // row stays available.
    let pkg = &published.packages[0];
    assert_eq!(pkg.name, "rust-std");
    assert_eq!(pkg.targets.len(), 2);
    assert_eq!(pkg.targets[0].target, "x86_64-unknown-linux-gnu");
    assert!(pkg.targets[0].available);
    assert_eq!(pkg.targets[1].target, "aarch64-apple-darwin");
    assert!(!pkg.targets[1].available);

    // Exactly the two linux variant files are required.
    assert_eq!(refs.len(), 2);
    assert_eq!(
        refs[0].path,
        "dist/2024-01-01/rust-std-x86_64-unknown-linux-gnu.tar.gz"
    );
    assert_eq!(refs[0].hash, H1);
    assert_eq!(
        refs[1].path,
        "dist/2024-01-01/rust-std-x86_64-unknown-linux-gnu.tar.xz"
    );
    assert_eq!(refs[1].hash, H2);

    // The registered URLs are rewritten against the upstream base.
    assert_eq!(
        pkg.targets[0].url.as_deref().unwrap(),
        "https://static.rust-lang.org/dist/2024-01-01/rust-std-x86_64-unknown-linux-gnu.tar.gz"
    );

    // The publisher derives the dated snapshot from the release date.
    let plan = publish_plan(&published, "stable").unwrap();
    assert_eq!(plan.manifest_path, "dist/channel-rust-stable.toml");
    assert_eq!(plan.record_path, "dist/channel-rust-stable.toml.sha256");
    assert_eq!(
        plan.dated_manifest_path,
        "dist/2024-01-01/channel-rust-stable.toml"
    );
    assert_eq!(
        plan.dated_record_path,
        "dist/2024-01-01/channel-rust-stable.toml.sha256"
    );
    let digest = content_digest(plan.manifest_text.as_bytes());
    assert_eq!(
        plan.record_text,
        format!("{digest}  channel-rust-stable.toml")
    );
}

#[test]
fn second_run_is_identical_and_fetches_nothing() {
    let m = scenario_manifest();
    let req = validate_request(&scenario_request()).unwrap();

    let (published_a, refs_a) = plan_channel(&m, &req, UPSTREAM).unwrap();
    let (published_b, refs_b) = plan_channel(&m, &req, UPSTREAM).unwrap();

    // Both runs publish byte-identical manifests and require the same
    // artifacts.
    assert_eq!(manifest_to_toml(&published_a), manifest_to_toml(&published_b));
    assert_eq!(refs_a.len(), refs_b.len());
    for (a, b) in refs_a.iter().zip(refs_b.iter()) {
        assert_eq!(a.path, b.path);
        assert_eq!(a.upstream, b.upstream);
        assert_eq!(a.hash, b.hash);
    }

    // After the first run every companion record equals the declared
    // digest, so the second run fetches nothing and rewrites nothing.
    for r in &refs_b {
        let plan = cache_plan(&Some(r.hash.clone()), &None, &r.hash);
        assert!(!plan.fetch);
        assert!(!plan.write_record);
    }
}

#[test]
fn wildcard_target_stays_available() {
    let mut m = scenario_manifest();
    m.packages[0].targets.push(TargetEntry {
        target: "*".to_string(),
        available: false,
        url: None,
        hash: None,
        xz_url: None,
        xz_hash: None,
    });
    let req = validate_request(&scenario_request()).unwrap();
    let (published, _) = plan_channel(&m, &req, UPSTREAM).unwrap();
    // The wildcard row is in scope, and an unavailable row is untouched.
    assert_eq!(published.packages[0].targets[2].target, "*");
    assert!(!published.packages[0].targets[2].available);
}

#[test]
fn missing_installer_fails_the_channel() {
    let m = scenario_manifest();
    let mut raw = scenario_request();
    raw.platforms = strings(&["x86_64-pc-windows-msvc"]);
    let req = validate_request(&raw).unwrap();
    let r = plan_channel(&m, &req, UPSTREAM);
    assert!(matches!(
        r,
        Err(SyncError::MissingInstaller { target }) if target == "x86_64-pc-windows-msvc"
    ));
}

#[test]
fn installer_platform_pulls_its_artifact() {
    let mut m = scenario_manifest();
    m.installer_msi.push(InstallerArtifact {
        target: "x86_64-pc-windows-msvc".to_string(),
        url: format!("{UPSTREAM}dist/2024-01-01/rust-1.0.0-x86_64-pc-windows-msvc.msi"),
        hash: H3.to_string(),
    });
    let mut raw = scenario_request();
    raw.platforms = strings(&["x86_64-pc-windows-msvc"]);
    // An installer platform strips the toolchain components, and the
    // baseline component is forced back in.
    raw.components = strings(&["rustc", "rust-std"]);
    let req = validate_request(&raw).unwrap();
    let (published, refs) = plan_channel(&m, &req, UPSTREAM).unwrap();
    // The installer artifact leads, then the linux variants.
    assert_eq!(refs.len(), 3);
    assert_eq!(
        refs[0].path,
        "dist/2024-01-01/rust-1.0.0-x86_64-pc-windows-msvc.msi"
    );
    assert_eq!(refs[0].hash, H3);
    assert!(published.packages[0].targets[0].available);
}

#[test]
fn bad_url_fails_the_channel() {
    let mut m = scenario_manifest();
    m.packages[0].targets[0].url = Some("not a url at all".to_string());
    let req = validate_request(&scenario_request()).unwrap();
    let r = plan_channel(&m, &req, UPSTREAM);
    assert!(matches!(r, Err(SyncError::BadUrl { .. })));
}

#[test]
fn incomplete_entry_fails_the_channel() {
    let mut m = scenario_manifest();
    m.packages[0].targets[0].url = None;
    let req = validate_request(&scenario_request()).unwrap();
    let r = plan_channel(&m, &req, UPSTREAM);
    match r {
        Err(SyncError::IncompleteEntry { component, target }) => {
            assert_eq!(component, "rust-std");
            assert_eq!(target, "x86_64-unknown-linux-gnu");
        }
        _ => panic!("expected an incomplete entry"),
    }
}

#[test]
fn unsupported_version_fails_the_channel() {
    let mut m = scenario_manifest();
    m.version = "3".to_string();
    assert!(matches!(
        check_manifest_version(&m),
        Err(SyncError::UnsupportedManifestVersion { found }) if found == "3"
    ));
    let req = validate_request(&scenario_request()).unwrap();
    assert!(matches!(
        plan_channel(&m, &req, UPSTREAM),
        Err(SyncError::UnsupportedManifestVersion { .. })
    ));
}

#[test]
fn manifest_integrity_checks_first_64_characters() {
    let computed = content_digest(b"manifest bytes");
    let record = format!("{computed}  channel-rust-stable.toml");
    assert!(check_manifest_integrity(&computed, &record, "dist/channel-rust-stable.toml").is_ok());
    let wrong = format!("{H1}  channel-rust-stable.toml");
    assert!(matches!(
        check_manifest_integrity(&computed, &wrong, "dist/channel-rust-stable.toml"),
        Err(SyncError::IntegrityMismatch { .. })
    ));
    assert!(matches!(
        check_manifest_integrity(&computed, "short", "dist/channel-rust-stable.toml"),
        Err(SyncError::IntegrityMismatch { .. })
    ));
}

#[test]
fn missing_date_fails_publishing() {
    let mut m = scenario_manifest();
    m.date = None;
    let req = validate_request(&scenario_request()).unwrap();
    let (published, _) = plan_channel(&m, &req, UPSTREAM).unwrap();
    assert!(matches!(
        publish_plan(&published, "stable"),
        Err(SyncError::MissingDate)
    ));
}

#[test]
fn serializer_emits_the_canonical_form() {
    let m = Manifest {
        version: "2".to_string(),
        date: Some("2024-01-01".to_string()),
        packages: vec![Package {
            name: "rust-std".to_string(),
            targets: vec![TargetEntry {
                target: "*".to_string(),
                available: false,
                url: None,
                hash: None,
                xz_url: None,
                xz_hash: None,
            }],
        }],
        installer_msi: vec![InstallerArtifact {
            target: "x86_64-pc-windows-msvc".to_string(),
            url: "u".to_string(),
            hash: "h".to_string(),
        }],
        installer_pkg: Vec::new(),
    };
    let mut with_odd_date = m.clone();
    with_odd_date.date = Some("a\"b\\c".to_string());
    assert!(
        manifest_to_toml(&with_odd_date).contains("date = \"a\\\"b\\\\c\"\n"),
        "quotes and backslashes in values must come out escaped"
    );
    let expected = "manifest-version = \"2\"\n\
        date = \"2024-01-01\"\n\
        [[artifacts.installer-msi.target.\"x86_64-pc-windows-msvc\"]]\n\
        url = \"u\"\n\
        hash-sha256 = \"h\"\n\
        [pkg.\"rust-std\".target.\"*\"]\n\
        available = false\n";
    assert_eq!(manifest_to_toml(&m), expected);
}
