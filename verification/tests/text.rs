use rocket_launcher::num::{i32_to_string, parse_i32_str, u64_to_string};
use rocket_launcher::xml::{read_xml_events, write_xml_events, XmlKind, XmlOut};

#[test]
fn integers_read_and_write() {
    assert_eq!(parse_i32_str("42"), Some(42));
    assert_eq!(parse_i32_str("+7"), Some(7));
    assert_eq!(parse_i32_str("-2147483648"), Some(i32::MIN));
    assert_eq!(parse_i32_str("2147483648"), None);
    assert_eq!(parse_i32_str("-"), None);
    assert_eq!(parse_i32_str(" 1"), None);
    assert_eq!(parse_i32_str(""), None);
    assert_eq!(i32_to_string(i32::MIN), "-2147483648");
    assert_eq!(u64_to_string(u64::MAX), "18446744073709551615");
    for n in [0, 1, -1, 9, 10, -10, 123456, i32::MAX, i32::MIN] {
        assert_eq!(parse_i32_str(&i32_to_string(n)), Some(n));
    }
}

#[test]
fn documents_are_read_as_events() {
    let (events, err) = read_xml_events("<a x=\"1\" y='&amp;'>t&lt;</a><b/>");
    assert!(err.is_none());
    let kinds: Vec<bool> = events.iter().map(|e| e.kind == XmlKind::Start).collect();
    assert_eq!(kinds, vec![true, false, false, false]);
    assert_eq!(events[0].name, "a");
    assert_eq!(events[0].raw, "a x=\"1\" y='&amp;'");
    assert_eq!(
        events[0].attrs,
        vec![Some(("x".to_string(), "1".to_string())), Some(("y".to_string(), "&amp;".to_string()))]
    );
    assert!(events[1].kind == XmlKind::Text);
    assert_eq!(events[1].raw, "t&lt;");
    assert_eq!(events[1].text, Ok("t<".to_string()));
    assert!(events[2].kind == XmlKind::End);
    assert!(events[3].kind == XmlKind::Empty);
    let (_, err) = read_xml_events("<a></b>");
    assert!(err.is_some());
}

#[test]
fn events_are_written_back() {
    let outs = vec![
        XmlOut { kind: XmlKind::Decl, raw: "xml version=\"1.0\"".to_string() },
        XmlOut { kind: XmlKind::Start, raw: "a k=\"v\"".to_string() },
        XmlOut { kind: XmlKind::Text, raw: "x &amp; y".to_string() },
        XmlOut { kind: XmlKind::Comment, raw: " c ".to_string() },
        XmlOut { kind: XmlKind::CData, raw: "<raw>".to_string() },
        XmlOut { kind: XmlKind::Empty, raw: "b".to_string() },
        XmlOut { kind: XmlKind::End, raw: "a".to_string() },
    ];
    assert_eq!(
        write_xml_events(&outs),
        Ok("<?xml version=\"1.0\"?><a k=\"v\">x &amp; y<!-- c --><![CDATA[<raw>]]><b/></a>".to_string())
    );
}

#[test]
fn md5_of_a_string_in_lower_hex() {
    assert_eq!(rocket_launcher::digest::hash_string_md5("abc"), "900150983cd24fb0d6963f7d28e17f72");
    assert_eq!(rocket_launcher::digest::hash_string_md5(""), "d41d8cd98f00b204e9800998ecf8427e");
}
