use pwp::cargo_toml::{parse_component, rewrite_version_line, CargoToml, VersionError};

fn package(version: &str) -> CargoToml {
    CargoToml {
        name: "demo".to_string(),
        description: Some("a demo".to_string()),
        version: version.to_string(),
    }
}

fn bump(version: &str) -> (Result<(), VersionError>, String) {
    let mut p = package(version);
    let r = p.increment_version();
    assert_eq!(p.name, "demo");
    assert_eq!(p.description.as_deref(), Some("a demo"));
    (r, p.version)
}

#[test]
fn patch_goes_up() {
    assert_eq!(bump("1.2.3"), (Ok(()), "1.2.4".to_string()));
    assert_eq!(bump("0.0.0"), (Ok(()), "0.0.1".to_string()));
}

#[test]
fn patch_carries_into_minor() {
    assert_eq!(bump("1.2.9"), (Ok(()), "1.3.0".to_string()));
    assert_eq!(bump("1.2.15"), (Ok(()), "1.3.0".to_string()));
}

#[test]
fn minor_carries_into_major() {
    assert_eq!(bump("1.9.9"), (Ok(()), "2.0.0".to_string()));
    assert_eq!(bump("0.12.9"), (Ok(()), "1.0.0".to_string()));
}

#[test]
fn major_wraps_around() {
    assert_eq!(bump("4294967295.9.9"), (Ok(()), "0.0.0".to_string()));
}

#[test]
fn unreadable_fields_count_as_zero() {
    assert_eq!(bump("a.b.c"), (Ok(()), "0.0.1".to_string()));
    assert_eq!(bump("1.2.3-beta"), (Ok(()), "1.2.1".to_string()));
    assert_eq!(bump("99999999999.1.1"), (Ok(()), "0.1.2".to_string()));
    assert_eq!(bump("..."), (Ok(()), "0.0.1".to_string()));
}

#[test]
fn extra_fields_are_dropped() {
    assert_eq!(bump("1.2.3.4"), (Ok(()), "1.2.4".to_string()));
}

#[test]
fn plus_sign_is_read() {
    assert_eq!(bump("+1.+2.+3"), (Ok(()), "1.2.4".to_string()));
}

#[test]
fn short_versions_are_refused() {
    assert_eq!(bump("1"), (Err(VersionError::MissingMinor), "1".to_string()));
    assert_eq!(bump(""), (Err(VersionError::MissingMinor), "".to_string()));
    assert_eq!(bump("1.2"), (Err(VersionError::MissingPatch), "1.2".to_string()));
}

#[test]
fn components_parse_as_unsigned_numbers() {
    assert_eq!(parse_component("0"), 0);
    assert_eq!(parse_component("42"), 42);
    assert_eq!(parse_component("007"), 7);
    assert_eq!(parse_component("+5"), 5);
    assert_eq!(parse_component("4294967295"), 4294967295);
    assert_eq!(parse_component("4294967296"), 0);
    assert_eq!(parse_component(""), 0);
    assert_eq!(parse_component("+"), 0);
    assert_eq!(parse_component("-1"), 0);
    assert_eq!(parse_component("1a"), 0);
    assert_eq!(parse_component(" 1"), 0);
}

#[test]
fn version_line_is_rewritten() {
    let content = "[package]\nname = \"demo\"\nversion = \"0.1.0\"\nedition = \"2021\"\n\n[dependencies]\nx = { version = \"1\" }\n";
    let text = match rewrite_version_line(content, "0.1.1") {
        Ok(t) => t,
        Err(_) => panic!("the version pattern was refused"),
    };
    assert_eq!(
        text,
        "[package]\nname = \"demo\"\nversion = \"0.1.1\"\nedition = \"2021\"\n\n[dependencies]\nx = { version = \"1\" }\n"
    );
}

#[test]
fn only_the_first_version_line_changes() {
    let content = "version=\"1.0.0\"\nversion = \"2.0.0\"\n";
    let text = match rewrite_version_line(content, "1.0.1") {
        Ok(t) => t,
        Err(_) => panic!("the version pattern was refused"),
    };
    assert_eq!(text, "version = \"1.0.1\"\nversion = \"2.0.0\"\n");
}

#[test]
fn text_without_version_line_is_kept() {
    let content = "[package]\nname = \"demo\"\n";
    let text = match rewrite_version_line(content, "1.0.1") {
        Ok(t) => t,
        Err(_) => panic!("the version pattern was refused"),
    };
    assert_eq!(text, content);
}

#[test]
fn tag_names_follow_the_version() {
    let p = package("1.2.3");
    assert_eq!(p.tag_name(), "v1.2.3");
    assert_eq!(p.tag_message(), "Version 1.2.3");
}
