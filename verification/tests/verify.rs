use rocket_launcher::verify::{
    checksums_url, file_is_corrupt, parse_checksum_line, parse_checksums, repair_result, repair_url,
};

#[test]
fn checksum_lines_are_read() {
    let text = "abcdef01 /GameFiles/a.bin\r\n  \n0123 \\Sound\\b.dat extra\nonlyhash\n";
    let pairs = parse_checksums(text, '/');
    assert_eq!(
        pairs,
        vec![
            ("ABCDEF01".to_string(), "GameFiles/a.bin".to_string()),
            ("0123".to_string(), "Sound/b.dat".to_string()),
        ]
    );
    let win = parse_checksums(text, '\\');
    assert_eq!(win[0].1, "GameFiles\\a.bin");
    assert_eq!(win[1].1, "Sound\\b.dat");
    assert_eq!(parse_checksum_line("x", '/'), None);
}

#[test]
fn corrupt_files_are_found() {
    assert!(file_is_corrupt(false, &None, "AB"));
    assert!(file_is_corrupt(true, &None, "AB"));
    assert!(!file_is_corrupt(true, &Some(" ab \n".to_string()), "AB"));
    assert!(file_is_corrupt(true, &Some("ac".to_string()), "AB"));
}

#[test]
fn repair_addresses_and_errors() {
    assert_eq!(
        repair_url("https://cdn/x/", "\\GameFiles\\a.bin", '\\'),
        "https://cdn/x/unpacked/GameFiles/a.bin"
    );
    assert_eq!(repair_url("https://cdn", "GameFiles/a.bin", '/'), "https://cdn/unpacked/GameFiles/a.bin");
    assert_eq!(checksums_url("https://cdn"), "https://cdn/unpacked/checksums.dat");
    assert_eq!(repair_result(&Vec::new()), Ok(()));
    assert_eq!(
        repair_result(&vec!["HTTP 404 for a".to_string(), "Write b: denied".to_string()]),
        Err("Repair errors: HTTP 404 for a; Write b: denied".to_string())
    );
}
