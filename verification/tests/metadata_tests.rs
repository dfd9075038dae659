use disk::ConfigError;
use disk::DiskError;
use disk::Metadata;
use disk::assert_safe_path;
use disk::validate_parts;

#[test]
fn metadata_reports_its_parts() {
    let m = Metadata::new(123, String::from("/tmp/file"));
    assert_eq!(m.size(), 123);
    assert_eq!(m.to_parts(), (123, String::from("/tmp/file")));
    assert_eq!(m.clone().into_parts(), (123, String::from("/tmp/file")));
    assert_eq!(m.path(), String::from("/tmp/file"));
}

#[test]
fn metadata_describes_itself() {
    let m = Metadata::new(12336, String::from("/the/path/to/your/file"));
    assert_eq!(m.describe(), "12336 bytes @ /the/path/to/your/file");
    let z = Metadata::zero(String::from("/p"));
    assert_eq!(z.describe(), "0 bytes @ /p");
    let big = Metadata::new(18446744073709551615, String::from("/max"));
    assert_eq!(big.describe(), "18446744073709551615 bytes @ /max");
}

#[test]
fn metadata_zero_has_no_bytes() {
    let m = Metadata::zero(String::from("/tmp/file"));
    assert_eq!(m.to_parts(), (0, String::from("/tmp/file")));
}

#[test]
fn metadata_equality_compares_both_fields() {
    let a = Metadata::new(1, String::from("/p"));
    let b = Metadata::new(1, String::from("/p"));
    let c = Metadata::new(2, String::from("/p"));
    let d = Metadata::new(1, String::from("/q"));
    assert_eq!(a, b);
    assert_ne!(a, c);
    assert_ne!(a, d);
}

#[test]
fn absolute_paths_are_safe() {
    assert_eq!(assert_safe_path("/home/alice/.local/share"), Ok(()));
    assert_eq!(assert_safe_path("relative/path"), Err(DiskError::Path));
    assert_eq!(assert_safe_path(""), Err(DiskError::Path));
}

#[test]
fn validate_parts_accepts_ordinary_components() {
    let subs = vec![String::from("sub1"), String::from("sub2")];
    assert_eq!(validate_parts("MyProject", &subs, "state", "toml"), Ok(()));
    let none: Vec<String> = Vec::new();
    assert_eq!(validate_parts("MyProject", &none, "state", ""), Ok(()));
}

#[test]
fn validate_parts_rejects_in_declared_order() {
    // An empty project with an empty file: the project is reported first.
    let none: Vec<String> = Vec::new();
    assert_eq!(validate_parts("", &none, "", "toml"), Err(ConfigError::EmptyProject));
    // A bad edge and a forbidden symbol: the symbol is reported first.
    assert_eq!(validate_parts(" My*Project", &none, "state", "toml"), Err(ConfigError::ForbiddenSymbol));
}
