use rocket_launcher::mods::{
    contains_name, expected_mod_names, mod_check, mod_failed_text, mod_url, mods_index_url,
    mods_plan, module_failed_text, module_needs_update, module_url, modules_to_download,
    modules_url, normalize_entry_name, parse_modules_json, retry_delay_ms, server_hash, temp_name,
    ModListEntry,
};

fn e(name: Option<&str>, checksum: Option<&str>) -> ModListEntry {
    ModListEntry { name: name.map(|s| s.to_string()), checksum: checksum.map(|s| s.to_string()) }
}

#[test]
fn names_become_local_paths() {
    assert_eq!(normalize_entry_name("a\\b\\c.dll", false), "a/b/c.dll");
    assert_eq!(normalize_entry_name("a\\b\\c.dll", true), "a\\b\\c.dll");
}

#[test]
fn addresses_of_mods_and_modules() {
    assert_eq!(mods_index_url("https://m.example/srv/"), "https://m.example/srv/index.json");
    assert_eq!(mod_url("https://m.example/srv//", "x\\y.dll"), "https://m.example/srv/x\\y.dll");
    assert_eq!(modules_url("https://net/"), "https://net/launcher-modules/modules.json");
    assert_eq!(module_url("https://net", "a.dll"), "https://net/launcher-modules/a.dll");
    assert_eq!(temp_name("a.dll"), ".a.dll.tmp");
}

#[test]
fn server_hash_is_the_md5_of_its_id() {
    assert_eq!(server_hash("abc"), "900150983cd24fb0d6963f7d28e17f72");
    assert_eq!(server_hash(""), "d41d8cd98f00b204e9800998ecf8427e");
}

#[test]
fn modules_json_is_read() {
    let mut v = parse_modules_json(r#"{"a.dll": "AA", "b.dll": "bb"}"#).unwrap();
    v.sort();
    assert_eq!(v, vec![("a.dll".to_string(), "AA".to_string()), ("b.dll".to_string(), "bb".to_string())]);
    let err = parse_modules_json("[1, 2]").unwrap_err();
    let serde_err = serde_json::from_str::<std::collections::HashMap<String, String>>("[1, 2]")
        .unwrap_err()
        .to_string();
    assert_eq!(err, format!("Failed to parse modules.json: {}", serde_err));
    assert!(parse_modules_json("{}").unwrap().is_empty());
}

#[test]
fn which_modules_are_downloaded() {
    assert!(module_needs_update(false, &None, "aa"));
    assert!(module_needs_update(true, &None, "aa"));
    assert!(!module_needs_update(true, &Some("AA".to_string()), "aa"));
    assert!(module_needs_update(true, &Some("AB".to_string()), "aa"));
    let modules = vec![("a".to_string(), "1".to_string()), ("b".to_string(), "2".to_string()), ("c".to_string(), "3".to_string())];
    assert_eq!(modules_to_download(&modules, &vec![true, false, true]), vec!["a".to_string(), "c".to_string()]);
    assert_eq!(modules_to_download(&modules, &vec![true]), vec!["a".to_string()]);
}

#[test]
fn cached_mods_are_checked() {
    let exp = Some("AbC".to_string());
    assert_eq!(mod_check(false, &exp, &None), (true, false));
    assert_eq!(mod_check(true, &None, &None), (false, false));
    assert_eq!(mod_check(true, &exp, &Some("abc".to_string())), (false, false));
    assert_eq!(mod_check(true, &exp, &Some("abd".to_string())), (true, true));
    assert_eq!(mod_check(true, &exp, &None), (true, true));
}

#[test]
fn mods_to_download_keep_both_names() {
    let entries = vec![e(Some("x\\a.dll"), Some("1")), e(Some("b.dll"), None), e(None, Some("2"))];
    let checks = vec![(true, false), (false, true), (true, false)];
    let (list, any) = mods_plan(&entries, &checks, false);
    assert_eq!(
        list,
        vec![("x\\a.dll".to_string(), "x/a.dll".to_string()), (String::new(), String::new())]
    );
    assert!(any);
    let names = expected_mod_names(&entries, false);
    assert_eq!(names, vec!["x/a.dll".to_string(), "b.dll".to_string()]);
    assert!(contains_name(&names, "b.dll"));
    assert!(!contains_name(&names, "c.dll"));
}

#[test]
fn failure_texts_and_delays() {
    assert_eq!(mod_failed_text("a.dll", "HTTP 500"), "mod a.dll failed after 3 attempts: HTTP 500");
    assert_eq!(module_failed_text("a.dll", "timeout"), "a.dll failed after 3 attempts: timeout");
    assert_eq!(retry_delay_ms(0, 600), 0);
    assert_eq!(retry_delay_ms(2, 800), 1600);
    assert_eq!(retry_delay_ms(5, 1000), 5000);
}
