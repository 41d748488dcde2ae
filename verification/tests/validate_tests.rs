use rust_pkg_gen::format::{Format, Suffix};
use rust_pkg_gen::request::{ConfigError, FormatAssignment, Request, validate_request};

fn strings(v: &[&str]) -> Vec<String> {
    v.iter().map(|s| s.to_string()).collect()
}

fn fmt(f: &str, suffix: Suffix) -> Format {
    Format {
        format: f.to_string(),
        suffix,
    }
}

fn base_request() -> Request {
    Request {
        channels: strings(&["stable"]),
        targets: strings(&["x86_64-unknown-linux-gnu"]),
        platforms: strings(&[]),
        components: strings(&["rust-std"]),
        format_map: Vec::new(),
        quiet: true,
    }
}

#[test]
fn valid_request_passes() {
    let r = validate_request(&base_request()).unwrap();
    assert_eq!(r.channels, strings(&["stable"]));
    assert_eq!(r.targets, strings(&["x86_64-unknown-linux-gnu"]));
}

#[test]
fn platforms_are_removed_from_targets() {
    let mut req = base_request();
    req.targets = strings(&["x86_64-unknown-linux-gnu", "x86_64-pc-windows-msvc"]);
    req.platforms = strings(&["x86_64-pc-windows-msvc"]);
    let r = validate_request(&req).unwrap();
    assert_eq!(r.targets, strings(&["x86_64-unknown-linux-gnu"]));
    assert_eq!(r.platforms, strings(&["x86_64-pc-windows-msvc"]));
}

#[test]
fn unknown_channel_is_rejected() {
    let mut req = base_request();
    req.channels = strings(&["weekly"]);
    let r = validate_request(&req);
    assert!(matches!(r, Err(ConfigError::UnknownChannel(c)) if c == "weekly"));
}

#[test]
fn unknown_target_is_rejected() {
    let mut req = base_request();
    req.targets = strings(&["pdp11-unknown-none"]);
    let r = validate_request(&req);
    assert!(matches!(r, Err(ConfigError::UnknownTarget(t)) if t == "pdp11-unknown-none"));
}

#[test]
fn unknown_platform_is_rejected() {
    let mut req = base_request();
    req.platforms = strings(&["pdp11-unknown-none"]);
    let r = validate_request(&req);
    assert!(matches!(r, Err(ConfigError::UnknownPlatform(t)) if t == "pdp11-unknown-none"));
}

#[test]
fn assignment_for_non_platform_is_rejected() {
    let mut req = base_request();
    req.format_map = vec![FormatAssignment {
        target: "x86_64-unknown-linux-gnu".to_string(),
        formats: vec![fmt("gz", Suffix::IfAvailable)],
    }];
    let r = validate_request(&req);
    assert!(matches!(r, Err(ConfigError::TargetNotPlatform(t)) if t == "x86_64-unknown-linux-gnu"));
}

#[test]
fn empty_format_list_is_rejected() {
    let mut req = base_request();
    req.platforms = strings(&["x86_64-unknown-linux-gnu"]);
    req.targets = strings(&[]);
    req.format_map = vec![FormatAssignment {
        target: "x86_64-unknown-linux-gnu".to_string(),
        formats: Vec::new(),
    }];
    let r = validate_request(&req);
    assert!(matches!(r, Err(ConfigError::EmptyFormatList(t)) if t == "x86_64-unknown-linux-gnu"));
}

#[test]
fn mandatory_msi_on_non_windows_is_rejected() {
    let mut req = base_request();
    req.platforms = strings(&["x86_64-unknown-linux-gnu"]);
    req.targets = strings(&[]);
    req.format_map = vec![FormatAssignment {
        target: "x86_64-unknown-linux-gnu".to_string(),
        formats: vec![fmt("msi", Suffix::Only)],
    }];
    let r = validate_request(&req);
    match r {
        Err(ConfigError::FormatPlatformMismatch { target, format }) => {
            assert_eq!(target, "x86_64-unknown-linux-gnu");
            assert_eq!(format, "msi");
        }
        _ => panic!("expected a format/platform mismatch"),
    }
}

#[test]
fn best_effort_msi_on_non_windows_is_allowed() {
    let mut req = base_request();
    req.platforms = strings(&["x86_64-unknown-linux-gnu"]);
    req.targets = strings(&[]);
    req.format_map = vec![FormatAssignment {
        target: "x86_64-unknown-linux-gnu".to_string(),
        formats: vec![fmt("msi", Suffix::IfAvailable), fmt("gz", Suffix::IfAvailable)],
    }];
    assert!(validate_request(&req).is_ok());
}

#[test]
fn mandatory_pkg_on_non_apple_is_rejected() {
    let mut req = base_request();
    req.platforms = strings(&["x86_64-pc-windows-msvc"]);
    req.targets = strings(&[]);
    req.format_map = vec![FormatAssignment {
        target: "x86_64-pc-windows-msvc".to_string(),
        formats: vec![fmt("pkg", Suffix::Only)],
    }];
    let r = validate_request(&req);
    match r {
        Err(ConfigError::FormatPlatformMismatch { target, format }) => {
            assert_eq!(target, "x86_64-pc-windows-msvc");
            assert_eq!(format, "pkg");
        }
        _ => panic!("expected a format/platform mismatch"),
    }
}

#[test]
fn unknown_assigned_format_is_rejected() {
    let mut req = base_request();
    req.platforms = strings(&["x86_64-pc-windows-msvc"]);
    req.targets = strings(&[]);
    req.format_map = vec![FormatAssignment {
        target: "x86_64-pc-windows-msvc".to_string(),
        formats: vec![fmt("msi", Suffix::IfAvailable), fmt("zip", Suffix::IfAvailable)],
    }];
    let r = validate_request(&req);
    assert!(matches!(r, Err(ConfigError::UnknownFormat(f)) if f == "zip"));
}
