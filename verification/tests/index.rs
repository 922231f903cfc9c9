use rocket_launcher::download::{extract_entry, files_to_download, strip_first_component};
use rocket_launcher::index::{
    extract_raw_arc, file_sections, is_lzma, needed_sections, parse_index_xml, IndexFileEntry,
};
use std::collections::HashMap;
use std::sync::Arc;

fn entry(section: u32, offset: u64, length: u64, compressed: Option<u64>) -> IndexFileEntry {
    IndexFileEntry {
        path: "CDShift/GameFiles".to_string(),
        file: "a.bin".to_string(),
        length,
        compressed,
        hash: None,
        section,
        offset,
    }
}

const INDEX: &str = r#"<?xml version="1.0"?>
<index>
  <header>
    <length>300</length>
    <compressed>200</compressed>
    <firstcab>100</firstcab>
    <lastcab>2</lastcab>
  </header>
  <fileinfo>
    <path>CDShift/Data</path>
    <file>one.bin</file>
    <hash>abc=</hash>
    <length>150</length>
    <compressed>120</compressed>
    <section>1</section>
    <offset>90</offset>
  </fileinfo>
  <fileinfo>
    <path>CDShift</path>
    <file>two.bin</file>
    <length>x</length>
    <section>2</section>
    <offset>10</offset>
  </fileinfo>
</index>"#;

#[test]
fn index_is_read() {
    let (h, entries) = parse_index_xml(INDEX).unwrap();
    assert_eq!(h.total_length, 300);
    assert_eq!(h.total_compressed, 200);
    assert_eq!(h.firstcab, 100);
    assert_eq!(h.lastcab, 2);
    assert_eq!(entries.len(), 2);
    assert_eq!(entries[0].path, "CDShift/Data");
    assert_eq!(entries[0].file, "one.bin");
    assert_eq!(entries[0].hash, Some("abc=".to_string()));
    assert_eq!(entries[0].length, 150);
    assert_eq!(entries[0].compressed, Some(120));
    assert_eq!(entries[0].section, 1);
    assert_eq!(entries[0].offset, 90);
    assert_eq!(entries[1].length, 0);
    assert_eq!(entries[1].compressed, None);
    assert_eq!(entries[1].hash, None);
}

#[test]
fn index_defaults_and_errors() {
    let (h, entries) = parse_index_xml("<index><header></header></index>").unwrap();
    assert_eq!(h.firstcab, 1048576);
    assert_eq!(h.total_length, 0);
    assert!(entries.is_empty());
    let err = parse_index_xml("<index><header></index>").unwrap_err();
    assert!(err.starts_with("XML parse error: "));
    assert!(parse_index_xml("<index><fileinfo><file>&bogus;</file></fileinfo></index>").is_err());
}

#[test]
fn sections_of_an_entry() {
    // fits in the rest of its first section
    assert_eq!(file_sections(&entry(5, 10, 90, None), 100), vec![5]);
    // compressed size counts
    assert_eq!(file_sections(&entry(5, 10, 500, Some(90)), 100), vec![5]);
    // 95 bytes left after 10 in a section of 100 bytes: 90 in the first, 5 in the next
    assert_eq!(file_sections(&entry(5, 10, 95, None), 100), vec![5, 6]);
    // exactly two whole sections more
    assert_eq!(file_sections(&entry(0, 0, 300, None), 100), vec![0, 1, 2]);
    // an offset past the section's end leaves no room in the first
    assert_eq!(file_sections(&entry(1, 150, 10, None), 100), vec![1, 2]);
    // nothing to read
    assert_eq!(file_sections(&entry(7, 0, 0, None), 0), vec![7]);
}

#[test]
fn needed_sections_are_sorted_and_unique() {
    let files = vec![entry(3, 50, 100, None), entry(1, 0, 10, None), entry(4, 0, 10, None)];
    assert_eq!(needed_sections(&files, 100), vec![1, 3, 4]);
    assert_eq!(needed_sections(&Vec::new(), 100), Vec::<u32>::new());
}

#[test]
fn bytes_are_read_across_sections() {
    let mut m: HashMap<u32, Arc<Vec<u8>>> = HashMap::new();
    m.insert(1, Arc::new(vec![0, 1, 2, 3, 4, 5, 6, 7, 8, 9]));
    m.insert(2, Arc::new(vec![10, 11, 12, 13, 14, 15, 16, 17, 18, 19]));
    let e = entry(1, 7, 6, None);
    assert_eq!(extract_raw_arc(&e, &m).unwrap(), vec![7, 8, 9, 10, 11, 12]);
    let missing = entry(2, 8, 5, None);
    assert_eq!(extract_raw_arc(&missing, &m), Err("Missing section3.dat".to_string()));
    let past = entry(1, 12, 3, None);
    assert_eq!(
        extract_raw_arc(&past, &m),
        Err("No data in section1.dat at offset 12 (len=10)".to_string())
    );
    assert_eq!(extract_raw_arc(&entry(9, 0, 0, None), &m).unwrap(), Vec::<u8>::new());
}

#[test]
fn lzma_content_is_decoded() {
    let plain = b"hello hello hello hello".to_vec();
    let mut packed = Vec::new();
    lzma_rs::lzma_compress(&mut std::io::Cursor::new(&plain), &mut packed).unwrap();
    assert!(is_lzma(&packed));
    let mut m: HashMap<u32, Arc<Vec<u8>>> = HashMap::new();
    m.insert(0, Arc::new(packed.clone()));
    let e = entry(0, 0, plain.len() as u64, Some(packed.len() as u64));
    assert_eq!(extract_entry(&e, &m).unwrap(), plain);
    // not an LZMA stream: kept as stored
    let mut raw: HashMap<u32, Arc<Vec<u8>>> = HashMap::new();
    raw.insert(0, Arc::new(vec![1, 2, 3]));
    assert_eq!(extract_entry(&entry(0, 0, 3, None), &raw).unwrap(), vec![1, 2, 3]);
    // looks like LZMA but does not decode: kept as stored
    let mut bad: HashMap<u32, Arc<Vec<u8>>> = HashMap::new();
    bad.insert(0, Arc::new(vec![0x5D, 0x00, 0x00]));
    assert_eq!(extract_entry(&entry(0, 0, 3, None), &bad).unwrap(), vec![0x5D, 0x00, 0x00]);
}

#[test]
fn first_component_is_stripped() {
    assert_eq!(strip_first_component("CDShift/GameFiles/x"), "GameFiles/x");
    assert_eq!(strip_first_component("CDShift"), "");
    assert_eq!(strip_first_component("/a"), "a");
    assert_eq!(strip_first_component(""), "");
}

#[test]
fn flagged_entries_are_kept() {
    let files = vec![entry(1, 0, 1, None), entry(2, 0, 1, None), entry(3, 0, 1, None)];
    let kept = files_to_download(files, &vec![true, false]);
    assert_eq!(kept.len(), 1);
    assert_eq!(kept[0].section, 1);
}

#[test]
fn concrete_index_parsed() {
    let xml = "<index><header><length>100</length><firstcab>50</firstcab></header><fileinfo><path>CDShift/Data</path><file>a.bin</file><length>10</length><compressed>x</compressed><section>1</section><offset>5</offset></fileinfo></index>";
    let (h, es) = parse_index_xml(xml).unwrap();
    assert_eq!((h.total_length, h.total_compressed, h.firstcab, h.lastcab), (100, 0, 50, 0));
    assert_eq!(es.len(), 1);
    assert_eq!(es[0].path, "CDShift/Data");
    assert_eq!(es[0].compressed, Some(0));
    assert_eq!(es[0].hash, None);
    assert_eq!((es[0].length, es[0].section, es[0].offset), (10, 1, 5));
}
