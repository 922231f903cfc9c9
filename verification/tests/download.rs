use rocket_launcher::download::{
    adaptive_download_slots_game, adaptive_download_slots_mods, adaptive_rayon_threads,
    add_package, count_text, download_tick, extraction_threads, index_url, join_errors,
    needs_download, package_configs, package_url, partition_ready, section_url, transfer_tick,
    verifying_text, DownloadEvent, PipelineTotals, SpeedHold, VerifyEvent,
};
use rocket_launcher::index::IndexFileEntry;
use std::collections::HashMap;
use std::sync::Arc;

fn entry(section: u32, offset: u64, length: u64) -> IndexFileEntry {
    IndexFileEntry {
        path: "P/x".to_string(),
        file: format!("f{}", section),
        length,
        compressed: None,
        hash: None,
        section,
        offset,
    }
}

#[test]
fn ready_entries_are_split_from_waiting_ones() {
    let mut store: HashMap<u32, Arc<Vec<u8>>> = HashMap::new();
    store.insert(1, Arc::new(vec![0; 4]));
    store.insert(2, Arc::new(vec![0; 4]));
    let pending = vec![entry(1, 0, 2), entry(2, 2, 5), entry(3, 0, 1), entry(1, 3, 4)];
    let (ready, still) = partition_ready(&pending, &store, 4);
    let ready_files: Vec<String> = ready.iter().map(|e| e.file.clone()).collect();
    let still_files: Vec<String> = still.iter().map(|e| e.file.clone()).collect();
    // entry(2, 2, 5) needs sections 2 and 3; entry(1, 3, 4) needs 1 and 2
    assert_eq!(ready_files, vec!["f1".to_string(), "f1".to_string()]);
    assert_eq!(still_files, vec!["f2".to_string(), "f3".to_string()]);
    assert_eq!(ready.len() + still.len(), pending.len());
}

#[test]
fn totals_grow_with_each_package() {
    let mut t = PipelineTotals { compressed: 10, uncompressed: 5, files: 1 };
    let files = vec![entry(1, 0, 7), entry(2, 0, 8)];
    add_package(&mut t, &files, 3, 100);
    assert_eq!(t.compressed, 310);
    assert_eq!(t.uncompressed, 20);
    assert_eq!(t.files, 3);
    let mut big = PipelineTotals { compressed: u64::MAX - 1, uncompressed: 0, files: 0 };
    add_package(&mut big, &Vec::new(), 2, u64::MAX);
    assert_eq!(big.compressed, u64::MAX);
}

#[test]
fn download_tick_keeps_speed_near_the_end() {
    let mut hold = SpeedHold::new();
    // measured speed: shown, remembered
    assert_eq!(download_tick(&mut hold, 1000, 4_000_000_000, 500, true), (500, 7_999_998));
    assert_eq!(hold.last_nonzero_speed, 500);
    assert_eq!(hold.last_bytes, 1000);
    // no measured speed far from the end: zero and no estimate
    assert_eq!(download_tick(&mut hold, 1000, 4_000_000_000, 0, true), (0, 0));
    // near the end (within 32 MiB), bytes still arriving recently: the last speed is held
    assert_eq!(download_tick(&mut hold, 3_990_000_000, 4_000_000_000, 0, true), (500, 20_000));
    // but not when nothing arrived for a while
    assert_eq!(download_tick(&mut hold, 3_990_000_000, 4_000_000_000, 0, false), (0, 0));
    assert!(hold.progressed(3_990_000_001));
    assert!(!hold.progressed(3_990_000_000));
}

#[test]
fn transfer_tick_estimates_the_total() {
    let mut hold = SpeedHold::new();
    // announced total: at least the bytes so far
    assert_eq!(transfer_tick(&mut hold, 50, 1, 4, 40, 10, true), (50, 50, 10));
    // no announced total: mean size times the number of files, total not shown
    assert_eq!(transfer_tick(&mut hold, 90, 3, 10, 0, 0, true), (300, 0, 10));
    // nothing done and nothing announced
    assert_eq!(transfer_tick(&mut hold, 0, 0, 10, 0, 0, false), (0, 0, 0));
}

#[test]
fn addresses_of_packages() {
    assert_eq!(package_url("https://cdn.example//", "/Tracks"), "https://cdn.example/Tracks");
    assert_eq!(package_url("https://cdn.example", ""), "https://cdn.example");
    assert_eq!(index_url("https://cdn.example/en"), "https://cdn.example/en/index.xml");
    assert_eq!(section_url("https://cdn.example", 42), "https://cdn.example/section42.dat");
    let p = package_configs();
    assert_eq!(p[1], ("/Tracks".to_string(), "Tracks".to_string()));
}

#[test]
fn errors_are_joined() {
    assert_eq!(join_errors(&Vec::new()), Ok(()));
    assert_eq!(
        join_errors(&vec!["a".to_string(), "b".to_string()]),
        Err("a; b".to_string())
    );
}

#[test]
fn progress_texts() {
    assert_eq!(count_text("[ModNet] ", 3, 7, ""), "[ModNet] 3/7");
    assert_eq!(count_text("", 0, 12, " files"), "0/12 files");
    assert_eq!(verifying_text("Core", 5), "[Core] Verifying 5 files...");
    let v = VerifyEvent::scanning("Game", 2, 9, 1);
    assert_eq!(v.status, "scanning");
    assert_eq!(v.current_file, "[Game] 2/9");
    assert_eq!((v.current_index, v.total_files, v.corrupted_count), (2, 9, 1));
    let d = DownloadEvent::new("completed", "Download complete".to_string(), 4, 4, 10, 10, 0, 0);
    assert_eq!(d.status, "completed");
    assert!(d.error.is_none());
}

#[test]
fn concurrency_follows_the_processors() {
    assert_eq!(adaptive_download_slots_game(1), 4);
    assert_eq!(adaptive_download_slots_game(6), 12);
    assert_eq!(adaptive_download_slots_game(64), 24);
    assert_eq!(adaptive_download_slots_game(usize::MAX), 24);
    assert_eq!(adaptive_download_slots_mods(1), 3);
    assert_eq!(adaptive_download_slots_mods(8), 8);
    assert_eq!(adaptive_download_slots_mods(32), 12);
    assert_eq!(adaptive_rayon_threads(1), 2);
    assert_eq!(adaptive_rayon_threads(40), 16);
    assert_eq!(extraction_threads(3), 2);
    assert_eq!(extraction_threads(10), 5);
    assert_eq!(extraction_threads(64), 32);
    assert_eq!(extraction_threads(16), 8);
}

#[test]
fn which_files_are_downloaded() {
    let h = Some("abc".to_string());
    assert!(needs_download(false, &h, &None));
    assert!(!needs_download(true, &None, &None));
    assert!(!needs_download(true, &h, &Some("abc".to_string())));
    assert!(needs_download(true, &h, &Some("abd".to_string())));
    assert!(needs_download(true, &h, &None));
}
