use renovate_merge::manifest::{merge, MergeError, Side};

fn manifest(deps: &str) -> String {
    format!("[package]\nname = \"demo\"\nversion = \"0.1.0\"\n\n[dependencies]\n{deps}")
}

#[test]
fn remote_greater_exact_wins() {
    let out = merge(&manifest("dep = \"1.0.0\"\n"), &manifest("dep = \"2.0.0\"\n")).unwrap();
    assert!(out.contains("dep = \"2.0.0\""), "{out}");
    assert!(!out.contains("1.0.0"), "{out}");
}

#[test]
fn local_greater_exact_wins() {
    let out = merge(&manifest("dep = \"2.0.0\"\n"), &manifest("dep = \"1.0.0\"\n")).unwrap();
    assert!(out.contains("dep = \"2.0.0\""), "{out}");
    assert!(!out.contains("1.0.0"), "{out}");
}

#[test]
fn one_sided_entries_are_kept() {
    let local = manifest("a = \"1.0.0\"\nlocal_only = { version = \"0.3\", features = [\"x\"] }\n");
    let remote = manifest("a = \"1.0.0\"\nremote_only = { path = \"../r\", version = \"0.4\" }\n");
    let out = merge(&local, &remote).unwrap();
    assert!(out.contains("local_only = { version = \"0.3\", features = [\"x\"] }"), "{out}");
    assert!(out.contains("remote_only = { path = \"../r\", version = \"0.4\" }"), "{out}");
}

#[test]
fn merging_with_itself_keeps_the_table() {
    let text = manifest("a = \"1.0.0\"\nb = \"^0.2\"\nc = { version = \"3.1\", features = [\"f\"] }\nd = { path = \"../d\" }\n");
    let out = merge(&text, &text).unwrap();
    assert_eq!(out, text);
}

#[test]
fn equal_ranges_take_remote_entry() {
    let local = manifest("dep = { version = \"^1.2.3\", features = [\"local\"] }\n");
    let remote = manifest("dep = { version = \"^1.2.3\", features = [\"remote\"] }\n");
    let out = merge(&local, &remote).unwrap();
    assert!(out.contains("remote"), "{out}");
    assert!(!out.contains("\"local\""), "{out}");
}

#[test]
fn versionless_takes_remote_entry() {
    let out = merge(&manifest("dep = { path = \"../dep\" }\n"), &manifest("dep = \"0.1.0\"\n")).unwrap();
    assert!(out.contains("dep = \"0.1.0\""), "{out}");
    let out = merge(&manifest("dep = \"9.0.0\"\n"), &manifest("dep = { path = \"../dep\" }\n")).unwrap();
    assert!(out.contains("dep = { path = \"../dep\" }"), "{out}");
}

#[test]
fn caret_range_merge_follows_minor() {
    let out = merge(&manifest("dep = \"1.3\"\n"), &manifest("dep = \"1.2\"\n")).unwrap();
    assert!(out.contains("dep = \"1.3\""), "{out}");
    let out = merge(&manifest("dep = \"1.2\"\n"), &manifest("dep = \"1.3\"\n")).unwrap();
    assert!(out.contains("dep = \"1.3\""), "{out}");
}

#[test]
fn exact_outside_range_defers_to_range() {
    let out = merge(&manifest("dep = \"2.0.0\"\n"), &manifest("dep = \"^1\"\n")).unwrap();
    assert!(out.contains("dep = \"^1\""), "{out}");
    let out = merge(&manifest("dep = \"1.5.0\"\n"), &manifest("dep = \"^1\"\n")).unwrap();
    assert!(out.contains("dep = \"1.5.0\""), "{out}");
}

#[test]
fn other_sections_come_from_local() {
    let local = "# keep me\n[package]\nname = \"local\"\n\n[dependencies]\na = \"1.0.0\"\n\n[features]\nx = []\n";
    let remote = "[package]\nname = \"remote\"\n\n[dependencies]\na = \"1.1.0\"\n";
    let out = merge(local, remote).unwrap();
    assert_eq!(out, "# keep me\n[package]\nname = \"local\"\n\n[dependencies]\na = \"1.1.0\"\n\n[features]\nx = []\n");
}

#[test]
fn malformed_inputs_are_reported() {
    let good = manifest("a = \"1.0.0\"\n");
    assert_eq!(merge("[dependencies\n", &good), Err(MergeError::Syntax(Side::Local)));
    assert_eq!(merge(&good, "= nope"), Err(MergeError::Syntax(Side::Remote)));
    assert_eq!(merge("[package]\nname = \"x\"\n", &good), Err(MergeError::NoDependencyTable(Side::Local)));
    assert_eq!(merge(&good, "[package]\nname = \"x\"\n"), Err(MergeError::NoDependencyTable(Side::Remote)));
    assert_eq!(
        merge(&manifest("bad = \"not a version\"\n"), &good),
        Err(MergeError::BadVersion(Side::Local, "bad".to_string()))
    );
    assert_eq!(
        merge(&good, &manifest("bad = { version = 3 }\n")),
        Err(MergeError::BadVersion(Side::Remote, "bad".to_string()))
    );
    assert_eq!(
        merge(&good, &manifest("bad = 3\n")),
        Err(MergeError::BadVersion(Side::Remote, "bad".to_string()))
    );
}

#[test]
fn equal_ranges_remote_bare_string_replaces_inline_table() {
    let local = "[dependencies]\ndep = { version = \"^1.2.3\", features = [\"x\"] }\n";
    let remote = "[dependencies]\ndep = \"^1.2.3\"\n";
    let out = merge(local, remote).unwrap();
    assert_eq!(out, "[dependencies]\ndep = \"^1.2.3\"\n");
}

#[test]
fn winner_keeps_its_auxiliary_keys_only() {
    let local = manifest("dep = { version = \"2.0.0\", features = [\"a\"], optional = true }\n");
    let remote = manifest("dep = { version = \"1.0.0\", default-features = false }\n");
    let out = merge(&local, &remote).unwrap();
    assert_eq!(out, local);
    let out = merge(&remote, &local).unwrap();
    assert_eq!(out, local);
}

#[test]
fn versionless_entry_keeps_path() {
    let out = merge("[dependencies]\ndep = \"1.0.0\"\n", "[dependencies]\ndep = { path = \"../dep\" }\n").unwrap();
    assert_eq!(out, "[dependencies]\ndep = { path = \"../dep\" }\n");
}
