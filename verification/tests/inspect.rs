use rocket_launcher::inspect::{test_xml_access, video_config_range};

#[test]
fn excerpt_runs_to_the_closing_tag() {
    let doc = "<Settings><VideoConfig><screenwidth>800</screenwidth></VideoConfig></Settings>";
    assert_eq!(
        test_xml_access(Some(doc), "x").unwrap(),
        "<VideoConfig><screenwidth>800</screenwidth>"
    );
    assert_eq!(video_config_range(doc), Some((10, 53)));
}

#[test]
fn excerpt_without_section_is_an_error() {
    assert_eq!(
        test_xml_access(Some("<Settings></Settings>"), "x").unwrap_err(),
        "VideoConfig section not found in XML"
    );
    assert_eq!(video_config_range("<Settings/>"), None);
}

#[test]
fn excerpt_of_missing_file_names_the_path() {
    assert_eq!(
        test_xml_access(None, "C:/S/UserSettings.xml").unwrap_err(),
        "File not found at: C:/S/UserSettings.xml"
    );
}

#[test]
fn unclosed_section_gives_five_hundred_bytes() {
    let doc = format!("<VideoConfig>{}", "a".repeat(600));
    let r = test_xml_access(Some(&doc), "x").unwrap();
    assert_eq!(r.len(), 500);
    assert!(r.starts_with("<VideoConfig>aaa"));
}

#[test]
fn long_section_is_cut_at_a_thousand_bytes() {
    let doc = format!("<VideoConfig>{}</VideoConfig>", "b".repeat(2000));
    let r = test_xml_access(Some(&doc), "x").unwrap();
    assert_eq!(r.len(), 1000);
    assert_eq!(video_config_range(&doc), Some((0, 1000)));
}
