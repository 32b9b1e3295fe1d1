use std::path::Path;

use pixi_activate::registry::{
    find_path_by_name, registry_dir, registry_path, registry_text, RegisteredEnvironment,
    EMPTY_REGISTRY, REGISTER_DIR, REGISTRY_FILE,
};

fn entry(name: &str, path: &str) -> RegisteredEnvironment {
    RegisteredEnvironment { name: name.to_string(), path: path.to_string() }
}

#[test]
fn lookup_finds_the_only_entry() {
    let records = vec![entry("web", "/srv/web")];
    assert_eq!(find_path_by_name(&records, "web"), Some("/srv/web".to_string()));
}

#[test]
fn lookup_in_empty_registry_finds_nothing() {
    let records: Vec<RegisteredEnvironment> = Vec::new();
    assert_eq!(find_path_by_name(&records, "anything"), None);
}

#[test]
fn lookup_of_absent_name_finds_nothing() {
    let records = vec![entry("web", "/srv/web"), entry("api", "/srv/api")];
    assert_eq!(find_path_by_name(&records, "db"), None);
    assert_eq!(find_path_by_name(&records, ""), None);
}

#[test]
fn lookup_takes_the_first_of_equal_names() {
    let records = vec![
        entry("api", "/srv/api"),
        entry("web", "/srv/web"),
        entry("web", "/srv/other"),
        entry("api", "relative/api"),
    ];
    assert_eq!(find_path_by_name(&records, "web"), Some("/srv/web".to_string()));
    assert_eq!(find_path_by_name(&records, "api"), Some("/srv/api".to_string()));
}

#[test]
fn lookup_is_case_sensitive_and_exact() {
    let records = vec![entry("Web", "/srv/upper"), entry("web ", "/srv/space"), entry("web", "/srv/web")];
    assert_eq!(find_path_by_name(&records, "web"), Some("/srv/web".to_string()));
    assert_eq!(find_path_by_name(&records, "Web"), Some("/srv/upper".to_string()));
    assert_eq!(find_path_by_name(&records, "WEB"), None);
    assert_eq!(find_path_by_name(&records, "we"), None);
}

#[test]
fn lookup_returns_the_stored_path_unmodified() {
    let records = vec![entry("rel", "../some/./dir/"), entry("uni", "/srv/caf\u{e9}")];
    assert_eq!(find_path_by_name(&records, "rel"), Some("../some/./dir/".to_string()));
    assert_eq!(find_path_by_name(&records, "uni"), Some("/srv/caf\u{e9}".to_string()));
}

#[test]
fn registry_lies_below_the_home_directory() {
    assert_eq!(registry_dir("/home/user"), "/home/user/.pixi/register");
    assert_eq!(registry_path("/home/user"), "/home/user/.pixi/register/environments.json");
}

#[test]
fn registry_path_has_one_separator_after_home() {
    assert_eq!(registry_path("/home/user/"), "/home/user/.pixi/register/environments.json");
    assert_eq!(registry_path("/"), "/.pixi/register/environments.json");
    assert_eq!(registry_dir(""), ".pixi/register");
    assert_eq!(registry_path(""), ".pixi/register/environments.json");
}

#[test]
fn registry_path_agrees_with_path_join() {
    for home in ["/home/user", "/home/user/", "/", "", "relative/home", "/h\u{f6}me/\u{fc}ser"] {
        let dir = Path::new(home).join(REGISTER_DIR);
        let file = dir.join(REGISTRY_FILE);
        assert_eq!(Path::new(&registry_dir(home)), dir.as_path());
        assert_eq!(registry_dir(home), dir.to_str().unwrap());
        assert_eq!(registry_path(home), file.to_str().unwrap());
    }
}

#[test]
fn unreadable_registry_reads_as_empty_array() {
    assert_eq!(registry_text(None), "[]");
    assert_eq!(registry_text(None), EMPTY_REGISTRY);
}

#[test]
fn readable_registry_is_taken_as_it_is() {
    let text = "[{\"name\":\"web\",\"path\":\"/srv/web\"}]".to_string();
    assert_eq!(registry_text(Some(text.clone())), text);
    assert_eq!(registry_text(Some(String::new())), "");
}

#[test]
fn absent_registry_parses_like_an_empty_array() {
    let absent: serde_json::Value = serde_json::from_str(&registry_text(None)).unwrap();
    let empty: serde_json::Value =
        serde_json::from_str(&registry_text(Some("[]".to_string()))).unwrap();
    assert_eq!(absent, empty);
    assert_eq!(absent.as_array().map(|entries| entries.len()), Some(0));
}
