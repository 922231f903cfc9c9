use rocket_launcher::digest::{encode_base64, hex_string, md5_base64, md5_hex, sha1_hex_lower, sha1_hex_upper, sha256_hex};
use rocket_launcher::system::{
    choose_disk, cdn_list_url, defender_command, defender_paths, defender_status, dxvk_install_script,
    dxvk_removal, dxvk_status, fetch_method, fw_add_rule_args, fw_add_rule_result, fw_rule_exists,
    generate_hidden_hwid, generate_hwid, get_gpu_info, get_hidden_hwid, get_hwid, icacls_grant,
    launcher_headers, mod_info_url, or_unknown, parse_semver, ping_result, ping_url,
    powershell_result, process_running, ps_escape, rule_name_arg, server_list_url,
    update_download_url, update_if_newer, which_targets, DxvkRemoval, FetchMethod, MachineFacts,
    UpdateInfo, DXVK_POST, DXVK_PRE,
};

fn facts() -> MachineFacts {
    MachineFacts {
        cpu_brand: Some("CPU X".to_string()),
        cpu_count: 8,
        host_name: Some("host".to_string()),
        total_memory: 1024,
        first_disk: Some(("sda".to_string(), 500)),
        os_version: Some("10".to_string()),
        kernel_version: Some("6.1".to_string()),
        os_name: Some("Linux".to_string()),
    }
}

#[test]
fn machine_ids_are_sha1_of_the_facts() {
    let f = facts();
    assert_eq!(generate_hwid(&f), sha1_hex_upper("CPU X|8|host|1024|sda|500|10".as_bytes()));
    assert_eq!(generate_hidden_hwid(&f), sha1_hex_upper("CPU X|8|host|1024|6.1|Linux|10".as_bytes()));
    let bare = MachineFacts {
        cpu_brand: None,
        cpu_count: 0,
        host_name: None,
        total_memory: 7,
        first_disk: None,
        os_version: None,
        kernel_version: None,
        os_name: None,
    };
    assert_eq!(generate_hwid(&bare), sha1_hex_upper(b"7"));
    assert_eq!(generate_hwid(&bare).len(), 40);
    assert!(generate_hwid(&bare).chars().all(|c| c.is_ascii_digit() || ('A'..='F').contains(&c)));
    assert_eq!(generate_hidden_hwid(&bare).len(), 40);
}

#[test]
fn machine_id_is_computed_once() {
    let mut cache = None;
    let first = get_hwid(&mut cache, &facts());
    assert_eq!(cache, Some(first.clone()));
    let mut other = facts();
    other.total_memory = 1;
    assert_eq!(get_hwid(&mut cache, &other), first);
    let mut hidden = None;
    let h = get_hidden_hwid(&mut hidden, &facts());
    assert_eq!(get_hidden_hwid(&mut hidden, &other), h);
}

#[test]
fn digests_and_encodings() {
    assert_eq!(md5_hex(b"abc"), "900150983cd24fb0d6963f7d28e17f72");
    assert_eq!(sha1_hex_lower(b"abc"), "a9993e364706816aba3e25717850c26c9cd0d89d");
    assert_eq!(sha1_hex_upper(b"abc"), "A9993E364706816ABA3E25717850C26C9CD0D89D");
    assert_eq!(sha256_hex(b"abc"), "ba7816bf8f01cfea414140de5dae2223b00361a396177a9cb410ff61f20015ad");
    assert_eq!(encode_base64(b"hello"), "aGVsbG8=");
    assert_eq!(encode_base64(b""), "");
    assert_eq!(md5_base64(b"abc"), "kAFQmDzST7DWlj99KOF/cg==");
    assert_eq!(hex_string(&[0x00, 0xAB, 0x0F], true), "00AB0F");
}

#[test]
fn gpu_info_is_read_from_powershell_json() {
    let out = "{\r\n    \"Name\":  \"NVIDIA GeForce RTX 3080\",\r\n    \"DriverVersion\":  \"31.0.15.3623\"\r\n}";
    assert_eq!(
        get_gpu_info(true, &Some(out.to_string())),
        ("NVIDIA GeForce RTX 3080".to_string(), "31.0.15.3623".to_string())
    );
    assert_eq!(get_gpu_info(true, &None), ("Unknown".to_string(), "Unknown".to_string()));
    assert_eq!(get_gpu_info(true, &Some("{}".to_string())), ("Unknown".to_string(), "Unknown".to_string()));
    assert_eq!(get_gpu_info(false, &None), ("N/A".to_string(), "N/A".to_string()));
}

#[test]
fn system_disk_and_unknowns() {
    let mounts = vec!["/boot".to_string(), "/".to_string(), "C:\\".to_string()];
    assert_eq!(choose_disk(&mounts), Some(1));
    assert_eq!(choose_disk(&vec!["/boot".to_string()]), Some(0));
    assert_eq!(choose_disk(&Vec::new()), None);
    assert_eq!(or_unknown(None), "Unknown");
    assert_eq!(or_unknown(Some("x".to_string())), "x");
}

#[test]
fn powershell_and_firewall() {
    assert_eq!(ps_escape("it's"), "it''s");
    assert_eq!(powershell_result(true, " out \n", "err"), Ok("out".to_string()));
    assert_eq!(powershell_result(false, " out ", " err "), Err("err".to_string()));
    assert_eq!(powershell_result(false, " out ", "  "), Err("out".to_string()));
    assert_eq!(rule_name_arg("SBRW Game"), "name=SBRW Game");
    assert!(fw_rule_exists(&Some((true, "Rule Name: SBRW Game".to_string()))));
    assert!(!fw_rule_exists(&Some((true, "No rules match the specified criteria.".to_string()))));
    assert!(!fw_rule_exists(&Some((false, String::new()))));
    assert!(!fw_rule_exists(&None));
    let args = fw_add_rule_args("SBRW Game", "C:\\g\\nfsw.exe", "in");
    assert_eq!(args[4], "name=SBRW Game");
    assert_eq!(args[5], "dir=in");
    assert_eq!(args[7], "program=C:\\g\\nfsw.exe");
    assert_eq!(args.len(), 11);
    assert_eq!(fw_add_rule_result(true, ""), Ok(()));
    assert_eq!(fw_add_rule_result(false, "Rule ALREADY exists"), Ok(()));
    assert_eq!(fw_add_rule_result(false, " denied \n"), Err("netsh add rule failed: denied".to_string()));
    assert_eq!(which_targets("launcher"), (true, false));
    assert_eq!(which_targets("game"), (false, true));
    assert_eq!(which_targets("both"), (true, true));
}

#[test]
fn defender_exclusions() {
    assert_eq!(defender_paths("game", "L", "G"), vec!["G".to_string()]);
    assert_eq!(defender_paths("all", "L", "G"), vec!["L".to_string(), "G".to_string()]);
    assert_eq!(
        defender_command(true, "C:\\it's"),
        "Add-MpPreference -ExclusionPath 'C:\\it''s' -Force"
    );
    assert_eq!(defender_command(false, "x"), "Remove-MpPreference -ExclusionPath 'x' -Force");
    let s = defender_status("C:\\Launcher", "", "c:\\launcher\nd:\\games");
    assert!(s.has_launcher);
    assert!(!s.has_game);
    assert_eq!(icacls_grant("bob"), "bob:(OI)(CI)F");
}

#[test]
fn dxvk() {
    let s = dxvk_status(&Some(Some(" 2.4\n".to_string())));
    assert!(s.installed);
    assert_eq!(s.version, Some("2.4".to_string()));
    assert!(dxvk_status(&Some(None)).version.is_none());
    assert!(!dxvk_status(&None).installed);
    assert!(dxvk_removal(true, true) == DxvkRemoval::RestoreBackup);
    assert!(dxvk_removal(false, true) == DxvkRemoval::RemoveDll);
    assert!(dxvk_removal(false, false) == DxvkRemoval::Nothing);
    let script = dxvk_install_script("C:\\Bob's Games");
    assert!(script.contains("$game = 'C:\\Bob''s Games'"));
    assert_eq!(script, format!("{}C:\\Bob''s Games{}", DXVK_PRE, DXVK_POST));
    assert!(DXVK_PRE.starts_with("\n$ErrorActionPreference = 'Stop'\n"));
    assert!(DXVK_POST.ends_with("Write-Host \"[DXVK] Done\"\n"));
}

#[test]
fn updates() {
    assert_eq!(parse_semver("1.2.3"), (1, 2, 3));
    assert_eq!(parse_semver("2"), (2, 0, 0));
    assert_eq!(parse_semver("1.x.5.9"), (1, 0, 5));
    assert_eq!(parse_semver(""), (0, 0, 0));
    let info = |v: &str| UpdateInfo {
        version: v.to_string(),
        exe: "setup.exe".to_string(),
        publish_date: String::new(),
        product_name: String::new(),
    };
    assert!(update_if_newer(info("1.3.0"), "1.2.9").is_some());
    assert!(update_if_newer(info("1.2.9"), "1.2.9").is_none());
    assert!(update_if_newer(info("1.2.10"), "1.3.0").is_none());
}

#[test]
fn requests() {
    assert!(fetch_method(&Some("post".to_string())) == FetchMethod::Post);
    assert!(fetch_method(&Some("Delete".to_string())) == FetchMethod::Delete);
    assert!(fetch_method(&Some("patch".to_string())) == FetchMethod::Get);
    assert!(fetch_method(&None) == FetchMethod::Get);
    let h = launcher_headers("H1", "H2");
    assert_eq!(h[2], ("X-HWID".to_string(), "H1".to_string()));
    assert_eq!(h[3], ("X-HiddenHWID".to_string(), "H2".to_string()));
    assert_eq!(server_list_url("https://api"), "https://api/serverlist.json");
    assert_eq!(ping_url("https://srv//"), "https://srv/GetServerInformation");
    assert_eq!(ping_result(true), Ok(1));
    assert_eq!(ping_result(false), Ok(-1));
    assert_eq!(cdn_list_url("https://api/"), "https://api/cdn_list.json");
    assert_eq!(update_download_url("setup.exe"), "https://rocket.nightriderz.world/setup.exe");
    assert_eq!(mod_info_url("https://srv"), "https://srv/Modding/GetModInfo");
    assert!(process_running(&vec!["explorer.exe".to_string(), "NFSW.EXE".to_string()], "nfsw.exe"));
    assert!(!process_running(&vec!["explorer.exe".to_string()], "nfsw.exe"));
}
