use executejs::specifier::{package_request, parse_package_spec, resolve_specifier, Resolution, SpecifierPathMap};

#[test]
fn scoped_package_with_version() {
    let r = package_request("npm:@scope/name@1.2.3").unwrap();
    assert_eq!(r.name, "@scope/name");
    assert_eq!(r.version.as_deref(), Some("1.2.3"));
}

#[test]
fn scoped_package_without_version() {
    let r = package_request("npm:@scope/name").unwrap();
    assert_eq!(r.name, "@scope/name");
    assert_eq!(r.version, None);
}

#[test]
fn plain_package_with_and_without_version() {
    let r = parse_package_spec("lodash@4.17.21");
    assert_eq!(r.name, "lodash");
    assert_eq!(r.version.as_deref(), Some("4.17.21"));
    let r = parse_package_spec("lodash");
    assert_eq!(r.name, "lodash");
    assert_eq!(r.version, None);
    let r = parse_package_spec("lodash@");
    assert_eq!(r.name, "lodash");
    assert_eq!(r.version.as_deref(), Some(""));
}

#[test]
fn specifier_without_protocol_is_no_request() {
    assert!(package_request("./local.js").is_none());
    assert!(package_request("file:///x.js").is_none());
}

#[test]
fn path_map_insert_get_and_replace() {
    let mut m = SpecifierPathMap::new();
    let k = "npm:lodash".to_string();
    assert_eq!(m.get(&k), None);
    m.insert(k.clone(), "/c/lodash/4/package/lodash.js".to_string());
    m.insert("npm:other".to_string(), "/c/other/1/package/index.js".to_string());
    assert_eq!(m.get(&k).as_deref(), Some("/c/lodash/4/package/lodash.js"));
    m.insert(k.clone(), "/c/lodash/5/package/lodash.js".to_string());
    assert_eq!(m.get(&k).as_deref(), Some("/c/lodash/5/package/lodash.js"));
    assert_eq!(m.get(&"npm:other".to_string()).as_deref(), Some("/c/other/1/package/index.js"));
}

#[test]
fn resolution_policy() {
    let mut m = SpecifierPathMap::new();
    let referrer = "npm:pkg".to_string();
    assert!(matches!(resolve_specifier(&m, "npm:pkg", &"file:///main.js".to_string()), Resolution::Deferred));
    assert!(matches!(resolve_specifier(&m, "./a.js", &referrer), Resolution::UnknownReferrer));
    m.insert(referrer.clone(), "/c/pkg/1/package/index.js".to_string());
    match resolve_specifier(&m, "./a.js", &referrer) {
        Resolution::Filesystem { referrer } => assert_eq!(referrer, "/c/pkg/1/package/index.js"),
        other => panic!("unexpected {:?}", other),
    }
    match resolve_specifier(&m, "./b.js", &"file:///main.js".to_string()) {
        Resolution::Filesystem { referrer } => assert_eq!(referrer, "file:///main.js"),
        other => panic!("unexpected {:?}", other),
    }
}
