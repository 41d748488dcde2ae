use rust_pkg_gen::format::{Format, FormatError, Suffix};

#[test]
fn format_from_string() {
    // this covers all valid cases but not invalid cases
    for ele in ["msi", "pkg", "gz", "xz"] {
        assert!(Format::from_str(ele).is_ok());
        assert!(Format::from_string(ele.to_string() + "-if-available").is_ok());
        assert!(Format::from_string(ele.to_string() + "-only").is_ok());

        assert_eq!(
            Format::from_str_no_err(ele),
            Format {
                format: ele.to_string(),
                suffix: Suffix::IfAvailable
            }
        );
        assert_eq!(
            Format::from_str(ele).unwrap(),
            Format {
                format: ele.to_string(),
                suffix: Suffix::IfAvailable
            }
        );

        assert_eq!(
            Format::from_string_no_err(ele.to_string() + "-if-available"),
            Format {
                format: ele.to_string(),
                suffix: Suffix::IfAvailable
            }
        );
        assert_eq!(
            Format::from_string(ele.to_string() + "-if-available").unwrap(),
            Format {
                format: ele.to_string(),
                suffix: Suffix::IfAvailable
            }
        );

        assert_eq!(
            Format::from_string_no_err(ele.to_string() + "-only"),
            Format {
                format: ele.to_string(),
                suffix: Suffix::Only
            }
        );
        assert_eq!(
            Format::from_string(ele.to_string() + "-only").unwrap(),
            Format {
                format: ele.to_string(),
                suffix: Suffix::Only
            }
        );
    }
}

#[test]
fn lenient_parse_splits_on_first_dash() {
    let test_string = "test-ah-yes".to_string();
    assert_eq!(
        Format::from_string_no_err(test_string),
        Format {
            format: "test".to_string(),
            suffix: Suffix::IfAvailable
        }
    );
}

#[test]
fn strict_parse_rejects_unknown_suffix() {
    let r = Format::from_string("gz-sometimes".to_string());
    assert!(matches!(r, Err(FormatError::InvalidSuffix(s)) if s == "sometimes"));
}

#[test]
fn strict_parse_rejects_unknown_format() {
    let r = Format::from_string("zip-only".to_string());
    assert!(matches!(r, Err(FormatError::InvalidFormat(s)) if s == "zip"));
    let r = Format::from_string("dfsjj".to_string());
    assert!(matches!(r, Err(FormatError::InvalidFormat(s)) if s == "dfsjj"));
}

#[test]
fn strict_parse_accepts_bare_and_suffixed() {
    let f = Format::from_string("msi".to_string()).unwrap();
    assert_eq!(f.format, "msi");
    assert_eq!(f.suffix, Suffix::IfAvailable);
    let f = Format::from_string("xz-only".to_string()).unwrap();
    assert_eq!(f.format, "xz");
    assert_eq!(f.suffix, Suffix::Only);
}
