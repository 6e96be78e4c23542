use kauma_hot_reload::manifest::{
    add_lib_section, fix_path_dependencies, isolate_manifest, modify_package_name, relocate_path,
    transform_manifest, ManifestError, TomlItem,
};

const HOST: &str = r#"
[package]
name = "host_app"
version = "0.1.0"
edition = "2021"

[dependencies]
kauma_hot_reload = { path = "../kauma_hot_reload" }
shared = { path = "/opt/shared" }
serde = "1"
"#;

fn table(text: &str) -> toml::Table {
    toml::from_str(text).unwrap()
}

fn text(s: &str) -> TomlItem {
    TomlItem::Text(s.to_string())
}

#[test]
fn transform_renames_the_package() {
    let out = table(&transform_manifest(HOST).ok().unwrap());
    let package = out["package"].as_table().unwrap();
    assert_eq!(package["name"].as_str(), Some("kauma_hot_reload_shared_lib"));
    assert_eq!(package["version"].as_str(), Some("0.1.0"));
    assert_eq!(package["edition"].as_str(), Some("2021"));
}

#[test]
fn transform_relocates_relative_paths_only() {
    let out = table(&transform_manifest(HOST).ok().unwrap());
    let deps = out["dependencies"].as_table().unwrap();
    assert_eq!(deps["kauma_hot_reload"]["path"].as_str(), Some("../../../kauma_hot_reload"));
    assert_eq!(deps["shared"]["path"].as_str(), Some("/opt/shared"));
    assert_eq!(deps["serde"].as_str(), Some("1"));
}

#[test]
fn transform_declares_a_loadable_library() {
    let out = table(&transform_manifest(HOST).ok().unwrap());
    let lib = out["lib"].as_table().unwrap();
    let kinds = lib["crate-type"].as_array().unwrap();
    assert_eq!(kinds.len(), 1);
    assert_eq!(kinds[0].as_str(), Some("cdylib"));
    assert_eq!(lib["path"].as_str(), Some("src/main.rs"));
}

#[test]
fn transform_replaces_an_existing_lib_section() {
    let host = "[package]\nname = \"a\"\n\n[lib]\npath = \"src/lib.rs\"\ncrate-type = [\"rlib\"]\n";
    let out = table(&transform_manifest(host).ok().unwrap());
    let lib = out["lib"].as_table().unwrap();
    assert_eq!(lib.len(), 2);
    assert_eq!(lib["path"].as_str(), Some("src/main.rs"));
    assert_eq!(lib["crate-type"].as_array().unwrap()[0].as_str(), Some("cdylib"));
}

#[test]
fn transform_keeps_other_values() {
    let host = "[package]\nname = \"a\"\n\n[profile.dev]\nopt-level = 1\ndebug = true\n";
    let out = table(&transform_manifest(host).ok().unwrap());
    assert_eq!(out["profile"]["dev"]["opt-level"].as_integer(), Some(1));
    assert_eq!(out["profile"]["dev"]["debug"].as_bool(), Some(true));
}

#[test]
fn transform_is_byte_identical_twice() {
    let first = transform_manifest(HOST).ok().unwrap();
    let second = transform_manifest(HOST).ok().unwrap();
    assert_eq!(first, second);
}

#[test]
fn transform_rejects_malformed_descriptor() {
    let r = transform_manifest("[package\nname = ");
    assert!(matches!(r, Err(ManifestError::Unparsable(m)) if !m.is_empty()));
}

#[test]
fn transform_of_empty_descriptor_only_adds_lib() {
    let out = table(&transform_manifest("").ok().unwrap());
    assert_eq!(out.len(), 1);
    assert!(out.contains_key("lib"));
}

#[test]
fn relocate_path_prefixes_relative_paths() {
    assert_eq!(relocate_path("dep".to_string()), "../../dep");
    assert_eq!(relocate_path("../dep".to_string()), "../../../dep");
    assert_eq!(relocate_path("/abs/dep".to_string()), "/abs/dep");
    assert_eq!(relocate_path(String::new()), "../../");
}

#[test]
fn modify_package_name_adds_a_missing_name() {
    let mut doc = vec![("package".to_string(), TomlItem::Table(Vec::new()))];
    modify_package_name(&mut doc);
    match &doc[0].1 {
        TomlItem::Table(t) => {
            assert_eq!(t.len(), 1);
            assert_eq!(t[0].0, "name");
            assert!(matches!(&t[0].1, TomlItem::Text(s) if s == "kauma_hot_reload_shared_lib"));
        }
        _ => panic!("package is no longer a table"),
    }
}

#[test]
fn modify_package_name_leaves_a_document_without_package() {
    let mut doc = vec![("workspace".to_string(), text("x"))];
    modify_package_name(&mut doc);
    assert_eq!(doc.len(), 1);
    assert!(matches!(&doc[0].1, TomlItem::Text(s) if s == "x"));
}

#[test]
fn fix_path_dependencies_ignores_non_string_paths() {
    let dep = TomlItem::Table(vec![("path".to_string(), TomlItem::Array(Vec::new()))]);
    let mut doc = vec![("dependencies".to_string(), TomlItem::Table(vec![("a".to_string(), dep)]))];
    fix_path_dependencies(&mut doc);
    match &doc[0].1 {
        TomlItem::Table(deps) => match &deps[0].1 {
            TomlItem::Table(d) => assert!(matches!(&d[0].1, TomlItem::Array(a) if a.is_empty())),
            _ => panic!("dependency changed shape"),
        },
        _ => panic!("dependencies changed shape"),
    }
}

#[test]
fn add_lib_section_appends_once() {
    let mut doc = Vec::new();
    add_lib_section(&mut doc);
    add_lib_section(&mut doc);
    assert_eq!(doc.len(), 1);
    assert_eq!(doc[0].0, "lib");
}

#[test]
fn isolate_manifest_applies_all_three_rules() {
    let deps = TomlItem::Table(vec![(
        "local".to_string(),
        TomlItem::Table(vec![("path".to_string(), text("crates/local"))]),
    )]);
    let doc = vec![
        ("package".to_string(), TomlItem::Table(vec![("name".to_string(), text("host"))])),
        ("dependencies".to_string(), deps),
    ];
    let out = isolate_manifest(doc);
    assert_eq!(out.len(), 3);
    assert_eq!(out[2].0, "lib");
    match &out[1].1 {
        TomlItem::Table(d) => match &d[0].1 {
            TomlItem::Table(t) => {
                assert!(matches!(&t[0].1, TomlItem::Text(p) if p == "../../crates/local"))
            }
            _ => panic!("dependency changed shape"),
        },
        _ => panic!("dependencies changed shape"),
    }
}
