use probe_rs_ui::actions::detected_format;
use probe_rs_ui::app_state::LogLevel;
use probe_rs_ui::app_state::ProbeUiApp;
use probe_rs_ui::app_state::ThemeMode;
use probe_rs_ui::app_state::LOG_CAP;
use probe_rs_ui::app_state::MAX_MEM_READ;
use probe_rs_ui::chips::ChipBrandInfo;
use probe_rs_ui::chips::ChipFamilyInfo;
use probe_rs_ui::config::AppConfig;
use probe_rs_ui::firmware::FirmwareCandidate;
use probe_rs_ui::i18n::Lang;
use probe_rs_ui::worker::BootMode;
use probe_rs_ui::worker::ChipFileInfo;
use probe_rs_ui::worker::MemRegionInfo;
use probe_rs_ui::worker::OpState;
use probe_rs_ui::worker::ProbeInfo;
use probe_rs_ui::worker::TargetGenFamilyInfo;
use probe_rs_ui::worker::TargetGenResult;
use probe_rs_ui::worker::TargetSummary;
use probe_rs_ui::worker::WorkerCommand;
use probe_rs_ui::worker::WorkerEvent;

fn english() -> AppConfig {
    let mut cfg = AppConfig::default();
    cfg.lang = "en".to_string();
    cfg
}

fn app() -> ProbeUiApp {
    ProbeUiApp::new(english()).0
}

fn probe() -> ProbeInfo {
    ProbeInfo {
        identifier: "ST-Link".to_string(),
        serial_number: None,
        probe_type: "STLink".to_string(),
        index: 0,
    }
}

fn summary() -> TargetSummary {
    TargetSummary {
        name: "STM32F407VG".to_string(),
        architecture: "Arm".to_string(),
        cores: vec![(0, "Armv7em".to_string())],
        memory: vec![
            MemRegionInfo { kind: "RAM", start: 0x2000_0000, end: 0x2002_0000 },
            MemRegionInfo { kind: "FLASH", start: 0x0800_0000, end: 0x0810_0000 },
            MemRegionInfo { kind: "FLASH", start: 0x1fff_0000, end: 0x1fff_7800 },
        ],
    }
}

fn last_log(app: &ProbeUiApp) -> (&str, LogLevel) {
    let e = app.log.last().unwrap();
    (e.text.as_str(), e.level)
}

#[test]
fn new_app_applies_settings_and_asks_for_a_scan() {
    let (app, cmds) = ProbeUiApp::new(english());
    assert_eq!(app.lang, Lang::En);
    assert!(app.probing);
    assert!(app.verify && app.keep_unwritten && app.reset_after);
    assert_eq!(app.mem_len, 256);
    assert!(!app.chip_families.is_empty());
    assert_eq!(app.log.len(), 2);
    assert_eq!(
        app.log[0].text,
        format!(
            "Loaded {} built-in chip families ({} brands); manual target selection is available",
            app.chip_families.len(),
            app.chip_brands.len()
        )
    );
    assert_eq!(app.log[1].text, "Scanning debug probes...");
    assert_eq!(cmds.len(), 2);
    assert!(matches!(cmds[0], WorkerCommand::SetLang(Lang::En)));
    assert!(matches!(cmds[1], WorkerCommand::Scan));
}

#[test]
fn new_app_rescans_a_saved_project_and_restores_the_chip() {
    let chip = {
        let fresh = app();
        let f = fresh.chip_families.iter().find(|f| f.chips.len() > 1).unwrap();
        f.chips[1].clone()
    };
    let mut cfg = english();
    cfg.firmware_root = "/work/proj".to_string();
    cfg.manual_target = chip.clone();
    let (app, cmds) = ProbeUiApp::new(cfg);
    assert_eq!(cmds.len(), 3);
    match &cmds[1] {
        WorkerCommand::ScanFirmware { root } => assert_eq!(root, "/work/proj"),
        _ => panic!("expected a folder scan"),
    }
    assert!(matches!(cmds[2], WorkerCommand::Scan));
    assert!(app.firmware_scanning);
    let fam = app.selected_family.expect("the saved chip's family");
    assert!(app.chip_families[fam].chips.iter().any(|c| *c == chip));
    assert_eq!(app.manual_target, chip);
    let brand = app.selected_brand.expect("its brand");
    assert!(app.chip_brands[brand].families.contains(&fam));
}

#[test]
fn saving_right_after_restoring_keeps_the_settings() {
    let mut cfg = english();
    cfg.theme = "dark".to_string();
    cfg.boot_mode = "under_reset".to_string();
    cfg.central_tab = "rtt".to_string();
    cfg.bin_base = 0x0800_4000;
    cfg.rtt_view_channel = Some(2);
    cfg.mem_len = 1024;
    cfg.tg_input = "pack.pdsc".to_string();
    let (app, _) = ProbeUiApp::new(cfg);
    assert_eq!(app.theme_mode, ThemeMode::Dark);
    assert_eq!(app.boot_mode, BootMode::UnderReset);
    let saved = app.collect_config();
    assert_eq!(saved.lang, "en");
    assert_eq!(saved.theme, "dark");
    assert_eq!(saved.boot_mode, "under_reset");
    assert_eq!(saved.central_tab, "rtt");
    assert_eq!(saved.bin_base, 0x0800_4000);
    assert_eq!(saved.rtt_view_channel, Some(2));
    assert_eq!(saved.mem_len, 1024);
    assert_eq!(saved.tg_input, "pack.pdsc");
}

#[test]
fn unknown_setting_words_fall_back_to_defaults() {
    let mut cfg = AppConfig::default();
    cfg.lang = "fr".to_string();
    cfg.theme = "sepia".to_string();
    cfg.central_tab = "nowhere".to_string();
    let (app, _) = ProbeUiApp::new(cfg);
    assert_eq!(app.lang, Lang::Zh);
    assert_eq!(app.theme_mode, ThemeMode::System);
    assert_eq!(app.collect_config().central_tab, "flash");
}

#[test]
fn the_log_keeps_the_newest_entries() {
    let mut app = app();
    for i in 0..(LOG_CAP + 5) {
        app.log(format!("line {i}"), LogLevel::Info);
    }
    assert_eq!(app.log.len(), LOG_CAP);
    assert_eq!(app.log.last().unwrap().text, format!("line {}", LOG_CAP + 4));
    assert_eq!(app.log[0].text, "line 5");
}

#[test]
fn probes_listed_or_missing() {
    let mut app = app();
    app.selected_probe = 3;
    app.handle_event(WorkerEvent::Probes(Ok(vec![probe()])));
    assert!(!app.probing);
    assert_eq!(app.selected_probe, 0);
    assert_eq!(last_log(&app), ("Detected 1 debug probe(s)", LogLevel::Success));
    app.handle_event(WorkerEvent::Probes(Ok(vec![])));
    assert_eq!(
        last_log(&app),
        ("No debug probes detected. Check USB connection and drivers", LogLevel::Warn)
    );
    app.handle_event(WorkerEvent::Probes(Err("usb".to_string())));
    assert_eq!(last_log(&app), ("usb", LogLevel::Error));
}

#[test]
fn connecting_takes_the_first_flash_and_ram_regions() {
    let mut app = app();
    app.connecting = true;
    app.busy = true;
    app.handle_event(WorkerEvent::Connected(Ok(summary())));
    assert!(!app.connecting && !app.busy);
    assert_eq!(app.read_start, 0x0800_0000);
    assert_eq!(app.read_end, 0x0810_0000);
    assert_eq!(app.bin_base, 0x0800_0000);
    assert_eq!(app.mem_start, 0x2000_0000);
    assert_eq!(app.mem_write_start, 0x2000_0000);
    assert_eq!(last_log(&app), ("Connected to target: STM32F407VG", LogLevel::Success));
    assert!(app.connected.is_some());
}

#[test]
fn a_failed_connection_offers_manual_selection() {
    let mut app = app();
    app.connecting = true;
    app.handle_event(WorkerEvent::Connected(Err("no target".to_string())));
    assert!(app.show_manual);
    assert!(!app.connecting);
    assert_eq!(last_log(&app), ("no target", LogLevel::Error));
}

#[test]
fn progress_fills_the_bars() {
    let mut app = app();
    app.handle_event(WorkerEvent::Progress {
        operation: "Erase",
        done: 0,
        total: Some(100),
        state: OpState::Active,
    });
    app.handle_event(WorkerEvent::Progress {
        operation: "Erase",
        done: 30,
        total: None,
        state: OpState::Active,
    });
    assert_eq!(app.op_bars.len(), 1);
    assert_eq!(app.op_bars[0].done, 30);
    assert_eq!(app.op_bars[0].total, Some(100));
    app.handle_event(WorkerEvent::Progress {
        operation: "Program",
        done: 5,
        total: None,
        state: OpState::Active,
    });
    app.handle_event(WorkerEvent::Progress {
        operation: "Erase",
        done: 0,
        total: None,
        state: OpState::Done,
    });
    assert_eq!(app.op_bars.len(), 2);
    assert_eq!(app.op_bars[0].done, 100);
    assert_eq!(app.op_bars[0].state, OpState::Done);
    app.handle_event(WorkerEvent::Progress {
        operation: "Program",
        done: 0,
        total: None,
        state: OpState::Failed,
    });
    assert_eq!(app.op_bars[1].state, OpState::Failed);
    assert_eq!(app.op_bars[1].done, 5);
}

#[test]
fn finished_operations_free_the_interface() {
    let mut app = app();
    app.busy = true;
    app.handle_event(WorkerEvent::OperationDone(Ok(())));
    assert!(!app.busy);
    assert_eq!(last_log(&app), ("Operation completed successfully", LogLevel::Success));
    app.busy = true;
    app.handle_event(WorkerEvent::OperationDone(Err("flash failed".to_string())));
    assert!(!app.busy);
    assert_eq!(last_log(&app), ("flash failed", LogLevel::Error));
}

#[test]
fn scanned_firmware_picks_the_best() {
    let mut app = app();
    let cands = vec![
        FirmwareCandidate { path: "a.elf".to_string(), kind: "ELF", size_kb: 4, modified: 2 },
        FirmwareCandidate { path: "b.hex".to_string(), kind: "HEX", size_kb: 4, modified: 1 },
    ];
    app.handle_event(WorkerEvent::FirmwareScanned {
        root: "/p".to_string(),
        candidates: cands,
        best: Some(0),
    });
    assert_eq!(app.file_path, "a.elf");
    assert_eq!(app.firmware_root, "/p");
    assert!(!app.firmware_scanning);
    let n = app.log.len();
    assert_eq!(app.log[n - 2].text, "Auto-detected firmware: a.elf (2 candidate(s))");
    assert_eq!(
        app.log[n - 1].text,
        "To use another firmware, pick one from the dropdown below"
    );
    app.handle_event(WorkerEvent::FirmwareScanned {
        root: "/q".to_string(),
        candidates: vec![],
        best: None,
    });
    assert_eq!(
        last_log(&app),
        ("No firmware file (.elf / .hex / .bin / .uf2) found in /q", LogLevel::Warn)
    );
    assert_eq!(app.file_path, "a.elf");
}

#[test]
fn loaded_chip_files_join_the_list_under_the_external_brand() {
    let mut app = app();
    let before = app.chip_families.len();
    app.handle_event(WorkerEvent::ChipFileLoaded(Ok(ChipFileInfo {
        family_name: "MYCHIP".to_string(),
        chips: vec!["MYCHIP1".to_string(), "MYCHIP2".to_string()],
    })));
    assert_eq!(app.chip_families.len(), before + 1);
    let f = &app.chip_families[before];
    assert_eq!(f.name, "MYCHIP");
    assert_eq!(f.brand, "External Pack");
    let b = app.chip_brands.iter().find(|b| b.name == "External Pack").unwrap();
    assert_eq!(b.families, vec![before]);
    assert_eq!(
        last_log(&app),
        (
            "Chip pack loaded: MYCHIP (2 variant(s)); select it manually on the left",
            LogLevel::Success
        )
    );
}

#[test]
fn generated_packs_are_merged() {
    let mut app = app();
    let before = app.chip_families.len();
    let infos = vec![
        ChipFileInfo { family_name: "F1".to_string(), chips: vec!["C1".to_string()] },
        ChipFileInfo { family_name: "F2".to_string(), chips: vec![] },
    ];
    app.handle_event(WorkerEvent::PackGenerated(Ok(infos)));
    assert_eq!(app.chip_families.len(), before + 2);
    assert_eq!(app.chip_families[before + 1].name, "F2");
    assert_eq!(
        last_log(&app),
        (
            "Generated 2 chip family(ies) from CMSIS pack; select them manually on the left",
            LogLevel::Success
        )
    );
}

#[test]
fn a_family_loaded_again_gains_only_its_new_chips() {
    let mut app = app();
    let before = app.chip_families.len();
    app.handle_event(WorkerEvent::ChipFileLoaded(Ok(ChipFileInfo {
        family_name: "MYCHIP".to_string(),
        chips: vec!["A".to_string(), "B".to_string()],
    })));
    app.handle_event(WorkerEvent::ChipFileLoaded(Ok(ChipFileInfo {
        family_name: "MYCHIP".to_string(),
        chips: vec!["B".to_string(), "C".to_string(), "C".to_string()],
    })));
    assert_eq!(app.chip_families.len(), before + 1);
    let f = &app.chip_families[before];
    assert_eq!(f.name, "MYCHIP");
    assert_eq!(f.brand, "External Pack");
    assert_eq!(f.chips, vec!["A".to_string(), "B".to_string(), "C".to_string()]);
    let b = app.chip_brands.iter().find(|b| b.name == "External Pack").unwrap();
    assert_eq!(b.families, vec![before]);
}

#[test]
fn a_pack_naming_a_family_twice_lists_it_once() {
    let mut app = app();
    let before = app.chip_families.len();
    let infos = vec![
        ChipFileInfo { family_name: "F1".to_string(), chips: vec!["C1".to_string()] },
        ChipFileInfo { family_name: "F1".to_string(), chips: vec!["C1".to_string(), "C2".to_string()] },
    ];
    app.handle_event(WorkerEvent::PackGenerated(Ok(infos)));
    assert_eq!(app.chip_families.len(), before + 1);
    assert_eq!(app.chip_families[before].chips, vec!["C1".to_string(), "C2".to_string()]);
}

fn generation() -> TargetGenResult {
    TargetGenResult {
        families: vec![
            TargetGenFamilyInfo {
                name: "FAM A".to_string(),
                variant_count: 2,
                output_file: "out/FAM_A.yaml".to_string(),
            },
            TargetGenFamilyInfo {
                name: "FAM B".to_string(),
                variant_count: 1,
                output_file: String::new(),
            },
        ],
        loaded: vec![
            ChipFileInfo { family_name: "FAM A".to_string(), chips: vec![] },
            ChipFileInfo {
                family_name: "FAM B".to_string(),
                chips: vec!["CHIPB1".to_string()],
            },
        ],
    }
}

#[test]
fn generation_connects_to_the_first_chip_when_asked() {
    let mut app = app();
    app.probes = vec![probe()];
    app.tg_busy = true;
    app.tg_auto_connect = true;
    app.boot_mode = BootMode::UnderReset;
    let before = app.log.len();
    let cmd = app.handle_event(WorkerEvent::TargetGenDone(Ok(generation())));
    match cmd {
        Some(WorkerCommand::ConnectManual { probe, target, boot_mode }) => {
            assert_eq!(probe, 0);
            assert_eq!(target, "CHIPB1");
            assert_eq!(boot_mode, BootMode::UnderReset);
        }
        _ => panic!("expected a connection"),
    }
    assert_eq!(app.manual_target, "CHIPB1");
    assert!(app.connecting && app.busy);
    assert!(!app.tg_busy && !app.tg_auto_connect);
    assert!(app.tg_result.is_some());
    let texts: Vec<&str> = app.log[before..].iter().map(|e| e.text.as_str()).collect();
    assert_eq!(
        texts,
        vec![
            "Generated 2 target definition file(s)",
            "Written: out/FAM_A.yaml (2 variant(s))",
            "Loaded 2 chip family(ies) into the manual selection list",
            "Connecting to CHIPB1 ...",
        ]
    );
}

#[test]
fn generation_without_probes_asks_to_connect_first() {
    let mut app = app();
    app.tg_auto_connect = true;
    let cmd = app.handle_event(WorkerEvent::TargetGenDone(Ok(generation())));
    assert!(cmd.is_none());
    assert_eq!(last_log(&app), ("Connect to a target first", LogLevel::Warn));
    assert!(!app.connecting);
}

#[test]
fn failed_generation_is_logged() {
    let mut app = app();
    app.tg_busy = true;
    app.tg_auto_connect = true;
    let cmd = app.handle_event(WorkerEvent::TargetGenDone(Err("bad pack".to_string())));
    assert!(cmd.is_none());
    assert!(!app.tg_busy && !app.tg_auto_connect);
    assert_eq!(last_log(&app), ("bad pack", LogLevel::Error));
}

#[test]
fn rtt_data_is_shown_per_channel() {
    let mut app = app();
    app.rtt_view_channel = None;
    app.handle_event(WorkerEvent::RttData { channel: 1, data: b"hi\n".to_vec() });
    assert_eq!(app.rtt_buf, "[CH1] hi\n");
    app.rtt_view_channel = Some(0);
    app.handle_event(WorkerEvent::RttData { channel: 1, data: b"skip".to_vec() });
    assert_eq!(app.rtt_buf, "[CH1] hi\n");
    app.handle_event(WorkerEvent::RttData { channel: 0, data: vec![b'o', 0xff, b'k'] });
    assert_eq!(app.rtt_buf, "[CH1] hi\no\u{FFFD}k");
}

#[test]
fn rtt_view_keeps_the_newest_bytes() {
    let mut app = app();
    app.rtt_view_channel = Some(0);
    app.rtt_buf = "é".repeat(65_536);
    app.handle_event(WorkerEvent::RttData { channel: 0, data: b"abc".to_vec() });
    assert!(app.rtt_buf.ends_with("abc"));
    assert!(app.rtt_buf.starts_with('é'));
    assert_eq!(app.rtt_buf.len(), 128 * 1024 + 1);
}

#[test]
fn rtt_start_resets_missing_channels() {
    let mut app = app();
    app.rtt_view_channel = Some(3);
    app.rtt_send_channel = 2;
    app.handle_event(WorkerEvent::RttStarted { up_channels: 2, down_channels: 1 });
    assert!(app.rtt_on);
    assert_eq!(app.rtt_view_channel, None);
    assert_eq!(app.rtt_send_channel, 0);
    assert_eq!(last_log(&app), ("RTT started (2 up, 1 down)", LogLevel::Success));
    app.handle_event(WorkerEvent::RttStopped);
    assert!(!app.rtt_on);
}

#[test]
fn memory_reads_and_writes_report() {
    let mut app = app();
    app.mem_busy = true;
    app.mem_start = 0x2000_0000;
    app.handle_event(WorkerEvent::MemoryRead(Ok(vec![1, 2, 3])));
    assert!(!app.mem_busy);
    assert_eq!(app.mem_read_addr, 0x2000_0000);
    assert_eq!(app.mem_data, vec![1, 2, 3]);
    assert_eq!(last_log(&app), ("Memory read: 3 bytes", LogLevel::Success));
    app.handle_event(WorkerEvent::MemoryRead(Err("fault".to_string())));
    assert!(app.mem_data.is_empty());
    app.handle_event(WorkerEvent::MemoryWrite(Ok(())));
    assert_eq!(last_log(&app), ("Memory written", LogLevel::Success));
}

#[test]
fn buttons_do_nothing_when_disabled() {
    let mut app = app();
    assert!(app.auto_detect().is_none());
    assert!(app.disconnect().is_none());
    assert!(app.connect_by_model().is_none());
    assert!(app.erase_all().is_none());
    assert!(app.rtt_start().is_none());
    assert!(app.rtt_stop().is_none());
    assert!(app.rescan().is_none());
    assert_eq!(app.log.len(), 2);
}

#[test]
fn rescan_and_auto_detect() {
    let mut app = app();
    app.handle_event(WorkerEvent::Probes(Ok(vec![probe()])));
    assert!(matches!(app.rescan(), Some(WorkerCommand::Scan)));
    assert!(app.probing);
    app.probing = false;
    app.selected_probe = 0;
    match app.auto_detect() {
        Some(WorkerCommand::ConnectAuto { probe, boot_mode }) => {
            assert_eq!(probe, 0);
            assert_eq!(boot_mode, BootMode::Normal);
        }
        _ => panic!("expected auto-detect"),
    }
    assert!(app.connecting && app.busy);
    assert_eq!(last_log(&app), ("Auto-detecting target chip...", LogLevel::Info));
}

#[test]
fn connect_by_model_trims_the_name() {
    let mut app = app();
    app.probes = vec![probe()];
    app.manual_target = "  STM32F103C8  ".to_string();
    match app.connect_by_model() {
        Some(WorkerCommand::ConnectManual { target, .. }) => assert_eq!(target, "STM32F103C8"),
        _ => panic!("expected a connection"),
    }
    assert_eq!(last_log(&app), ("Connecting to STM32F103C8 ...", LogLevel::Info));
}

#[test]
fn flashing_checks_the_format() {
    let mut app = app();
    assert!(app.flash_file("fw.txt".to_string(), Some("txt"), false, 0).is_none());
    assert_eq!(
        last_log(&app),
        ("Unsupported file format. Choose a .elf / .hex / .bin / .uf2 file", LogLevel::Error)
    );
    assert!(!app.busy);
    match app.flash_file("fw.BIN".to_string(), Some("BIN"), false, 0x0800_0000) {
        Some(WorkerCommand::Flash { path, bin_base, verify, .. }) => {
            assert_eq!(path, "fw.BIN");
            assert_eq!(bin_base, 0x0800_0000);
            assert!(verify);
        }
        _ => panic!("expected flashing"),
    }
    assert!(app.busy);
    assert_eq!(last_log(&app), ("Flashing: fw.BIN", LogLevel::Info));
}

#[test]
fn detected_formats() {
    assert_eq!(detected_format(Some("ELF"), false), Some("ELF"));
    assert_eq!(detected_format(Some("hex"), false), Some("Intel HEX"));
    assert_eq!(detected_format(Some("bin"), false), Some("Binary"));
    assert_eq!(detected_format(Some("uf2"), false), Some("UF2"));
    assert_eq!(detected_format(Some("dat"), true), Some("ELF"));
    assert_eq!(detected_format(None, true), Some("ELF"));
    assert_eq!(detected_format(None, false), None);
}

#[test]
fn reading_memory_clamps_the_length() {
    let mut app = app();
    assert!(app.read_memory().is_none());
    assert_eq!(last_log(&app), ("Connect to a target first", LogLevel::Warn));
    app.connected = Some(summary());
    app.mem_start = 0x2000_0000;
    app.mem_len = 1_000_000;
    let cmd = app.read_memory();
    match cmd {
        Some(WorkerCommand::MemoryRead { start, len }) => {
            assert_eq!(start, 0x2000_0000);
            assert_eq!(len, MAX_MEM_READ);
        }
        _ => panic!("expected a read"),
    }
    assert_eq!(app.mem_len, MAX_MEM_READ);
    assert!(app.mem_busy);
    let n = app.log.len();
    assert_eq!(app.log[n - 2].text, "Read length clamped to 262144 bytes");
    assert_eq!(app.log[n - 1].text, "Reading memory: 0x20000000, 262144 bytes");
    app.mem_len = 0;
    app.read_memory();
    assert_eq!(app.mem_len, 1);
}

#[test]
fn writing_memory_parses_the_bytes() {
    let mut app = app();
    app.mem_write_input = "zz".to_string();
    assert!(app.write_memory().is_none());
    assert_eq!(
        last_log(&app),
        ("Invalid data: enter hex bytes (e.g. DE AD BE EF)", LogLevel::Error)
    );
    app.mem_write_input = "01 02".to_string();
    assert!(app.write_memory().is_none());
    assert_eq!(last_log(&app), ("Connect to a target first", LogLevel::Warn));
    app.connected = Some(summary());
    app.mem_write_start = 0x2000_0010;
    match app.write_memory() {
        Some(WorkerCommand::MemoryWrite { start, data }) => {
            assert_eq!(start, 0x2000_0010);
            assert_eq!(data, vec![1, 2]);
        }
        _ => panic!("expected a write"),
    }
    assert_eq!(last_log(&app), ("Writing memory: 0x20000010, 2 bytes", LogLevel::Info));
}

#[test]
fn picking_a_region_limits_the_view() {
    let mut app = app();
    app.pick_region(0x2000_0000, 0x2002_0000);
    assert_eq!(app.mem_start, 0x2000_0000);
    assert_eq!(app.mem_len, 1024);
    app.pick_region(0x100, 0x110);
    assert_eq!(app.mem_len, 16);
    app.pick_region(0x500, 0x500);
    assert_eq!(app.mem_start, 0x100);
}

#[test]
fn pack_generation_needs_an_existing_input() {
    let mut app = app();
    assert!(app.start_target_gen(false, true).is_none());
    app.tg_input = " pack.pdsc ".to_string();
    app.tg_output_dir = " out ".to_string();
    assert!(app.start_target_gen(false, false).is_none());
    assert_eq!(last_log(&app), ("Input path does not exist:  pack.pdsc ", LogLevel::Error));
    match app.start_target_gen(false, true) {
        Some(WorkerCommand::TargetGenGenerate { input, output_dir, auto_load, .. }) => {
            assert_eq!(input, "pack.pdsc");
            assert_eq!(output_dir, "out");
            assert!(!auto_load);
        }
        _ => panic!("expected a generation"),
    }
    assert!(app.tg_busy);
    assert!(app.start_target_gen(false, true).is_none());
}

#[test]
fn generate_and_connect_needs_a_probe() {
    let mut app = app();
    app.tg_input = "pack.pdsc".to_string();
    assert!(app.start_target_gen(true, true).is_none());
    app.probes = vec![probe()];
    match app.start_target_gen(true, true) {
        Some(WorkerCommand::TargetGenGenerate { auto_load, .. }) => assert!(auto_load),
        _ => panic!("expected a generation"),
    }
    assert!(app.tg_auto_connect);
}

#[test]
fn rtt_send_appends_a_newline() {
    let mut app = app();
    app.rtt_down_input = "  help ".to_string();
    assert!(app.rtt_send().is_none());
    app.rtt_on = true;
    app.rtt_send_channel = 1;
    match app.rtt_send() {
        Some(WorkerCommand::RttWrite { channel, data }) => {
            assert_eq!(channel, 1);
            assert_eq!(data, b"help\n".to_vec());
        }
        _ => panic!("expected a write"),
    }
    assert!(app.rtt_down_input.is_empty());
}

#[test]
fn reading_back_needs_a_range() {
    let mut app = app();
    app.connected = Some(summary());
    app.probing = false;
    app.read_start = 0x100;
    app.read_end = 0x100;
    assert!(app.read_firmware("out.bin".to_string()).is_none());
    app.read_end = 0x200;
    match app.read_firmware("out.bin".to_string()) {
        Some(WorkerCommand::ReadFlash { path, start, end }) => {
            assert_eq!(path, "out.bin");
            assert_eq!((start, end), (0x100, 0x200));
        }
        _ => panic!("expected a read-back"),
    }
    assert_eq!(last_log(&app), ("Starting read: 0x256 - 0x512", LogLevel::Info));
}

fn small_app() -> ProbeUiApp {
    let mut app = app();
    app.chip_families = vec![
        ChipFamilyInfo {
            name: "STM32F1".to_string(),
            brand: "ST".to_string(),
            chips: vec!["STM32F103C8".to_string(), "STM32F103RB".to_string()],
        },
        ChipFamilyInfo {
            name: "nRF52".to_string(),
            brand: "Nordic".to_string(),
            chips: vec!["nRF52832_xxAA".to_string(), "nRF52840_xxAA".to_string()],
        },
        ChipFamilyInfo {
            name: "STM32F4".to_string(),
            brand: "ST".to_string(),
            chips: vec!["STM32F407VG".to_string()],
        },
    ];
    app.chip_brands = vec![
        ChipBrandInfo { name: "Nordic".to_string(), families: vec![1] },
        ChipBrandInfo { name: "ST".to_string(), families: vec![0, 2] },
    ];
    app.selected_brand = None;
    app.selected_family = None;
    app.manual_target = String::new();
    app
}

#[test]
fn chip_view_without_search_shows_everything() {
    let mut app = small_app();
    let v = app.refresh_chip_view();
    assert_eq!(v.brands.len(), 2);
    assert_eq!(v.brand, Some(0));
    assert_eq!(v.families, vec![1]);
    assert_eq!(v.family, Some(1));
    assert_eq!(v.variants, vec![0, 1]);
    assert_eq!(app.selected_brand, Some(0));
    assert_eq!(app.selected_family, Some(1));
}

#[test]
fn chip_search_filters_in_lower_case() {
    let mut app = small_app();
    app.chip_search = "  F407 ".to_string();
    app.selected_brand = Some(1);
    app.selected_family = Some(0);
    let v = app.refresh_chip_view();
    assert_eq!(v.brands.len(), 1);
    assert_eq!(v.brands[0].0, 1);
    assert_eq!(v.brands[0].1, vec![2]);
    assert_eq!(v.brand, Some(1));
    assert_eq!(v.family, Some(2));
    assert_eq!(v.variants, vec![0]);
}

#[test]
fn chip_search_by_family_name() {
    let mut app = small_app();
    app.chip_search = "stm32f1".to_string();
    app.selected_brand = Some(1);
    app.selected_family = Some(0);
    let v = app.refresh_chip_view();
    assert_eq!(v.families, vec![0]);
    assert_eq!(v.family, Some(0));
    assert_eq!(v.variants, vec![0, 1]);
    app.chip_search = "nothing-like-it".to_string();
    let v = app.refresh_chip_view();
    assert!(v.brands.is_empty());
    assert_eq!(v.brand, None);
    assert_eq!(v.family, None);
}

#[test]
fn picking_a_brand_or_family_chooses_a_first_chip() {
    let mut app = small_app();
    app.pick_brand(1, Some(0));
    assert_eq!(app.selected_brand, Some(1));
    assert_eq!(app.manual_target, "STM32F103C8");
    app.pick_family(2);
    assert_eq!(app.selected_family, Some(2));
    assert_eq!(app.manual_target, "STM32F103C8");
    app.pick_chip("STM32F407VG".to_string());
    assert_eq!(app.manual_target, "STM32F407VG");
}

#[test]
fn language_and_theme_switches() {
    let mut app = app();
    assert!(app.set_lang(Lang::En).is_none());
    assert!(matches!(app.set_lang(Lang::Zh), Some(WorkerCommand::SetLang(Lang::Zh))));
    assert!(app.set_theme(ThemeMode::Light));
    assert!(!app.set_theme(ThemeMode::Light));
    assert_eq!(app.brand_label("Other"), Lang::Zh.tr(probe_rs_ui::i18n::Msg::BrandOther));
    assert_eq!(app.brand_label("Nordic"), "Nordic");
}
