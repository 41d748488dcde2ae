use rust_pkg_gen::config::{
    Crate, CrateEntry, CrateGroup, RustConfigInner, Toolchain, generate_crates,
};

#[test]
fn serialize_bare_version() {
    let c = Crate::Version("1.0".to_string());
    assert_eq!(c.serialize(), "\"1.0\"");
}

#[test]
fn serialize_detailed_dependency() {
    let c = Crate::Detailed {
        version: Some("0.1".to_string()),
        features: Some(vec!["x".to_string(), "y".to_string()]),
        path: Some("../local".to_string()),
        git: None,
    };
    assert_eq!(
        c.serialize(),
        "{ version = 0.1,features = [\"x\", \"y\"],path = ../local, }"
    );
}

#[test]
fn serialize_detailed_git_only() {
    let c = Crate::Detailed {
        version: None,
        features: None,
        path: None,
        git: Some("https://example.invalid/repo".to_string()),
    };
    assert_eq!(c.serialize(), "{ git = https://example.invalid/repo, }");
}

#[test]
fn generate_crates_writes_one_line_per_entry() {
    let cfg = RustConfigInner {
        toolchains: Vec::new(),
        crates: vec![CrateGroup {
            id: "main".to_string(),
            entries: vec![
                CrateEntry {
                    name: "serde".to_string(),
                    value: Crate::Version("1.0".to_string()),
                },
                CrateEntry {
                    name: "local".to_string(),
                    value: Crate::Detailed {
                        version: Some("0.1".to_string()),
                        features: None,
                        path: None,
                        git: None,
                    },
                },
            ],
        }],
        formats: Vec::new(),
    };
    let toolchain = Toolchain {
        edition: None,
        channel: "stable".to_string(),
        components: Vec::new(),
        crate_id: "main".to_string(),
        platforms: Vec::new(),
        targets: Vec::new(),
        format_map: Vec::new(),
    };
    assert_eq!(
        generate_crates(&cfg, &toolchain),
        "serde = \"1.0\"\nlocal = { version = 0.1, }\n"
    );
}
