use probe_rs_ui::i18n::Lang;
use probe_rs_ui::i18n::Msg;
use probe_rs_ui::worker::after_attach_failure;
use probe_rs_ui::worker::choose_loader;
use probe_rs_ui::worker::connect_first;
use probe_rs_ui::worker::no_probe_at;
use probe_rs_ui::worker::probe_open_failed;
use probe_rs_ui::worker::ConnectAction;
use probe_rs_ui::worker::map_progress;
use probe_rs_ui::worker::next_chunk;
use probe_rs_ui::worker::not_connected;
use probe_rs_ui::worker::op_label;
use probe_rs_ui::worker::reading_firmware_status;
use probe_rs_ui::worker::region_kind_label;
use probe_rs_ui::worker::rtt_stop_events;
use probe_rs_ui::worker::rtt_stop_notice;
use probe_rs_ui::worker::rtt_write_status;
use probe_rs_ui::worker::supported_indices;
use probe_rs_ui::worker::target_file_name;
use probe_rs_ui::worker::BootMode;
use probe_rs_ui::worker::FlashEvent;
use probe_rs_ui::worker::FlashOperation;
use probe_rs_ui::worker::LoaderKind;
use probe_rs_ui::worker::OpState;
use probe_rs_ui::worker::RegionKind;
use probe_rs_ui::worker::WorkerCommand;
use probe_rs_ui::worker::WorkerEvent;
use probe_rs_ui::worker::READ_CHUNK;

#[test]
fn progress_reports_become_events() {
    match map_progress(FlashEvent::LayoutReady, Lang::En) {
        Some(WorkerEvent::Status(s)) => assert_eq!(s, "Firmware layout parsed, ready to flash..."),
        _ => panic!("expected a status"),
    }
    match map_progress(
        FlashEvent::AddProgressBar { operation: FlashOperation::Erase, total: Some(4096) },
        Lang::En,
    ) {
        Some(WorkerEvent::Progress { operation, done, total, state }) => {
            assert_eq!(operation, "Erase");
            assert_eq!(done, 0);
            assert_eq!(total, Some(4096));
            assert_eq!(state, OpState::Active);
        }
        _ => panic!("expected a bar"),
    }
    match map_progress(FlashEvent::Started(FlashOperation::Program), Lang::En) {
        Some(WorkerEvent::Status(s)) => assert_eq!(s, "Starting Program..."),
        _ => panic!("expected a status"),
    }
    match map_progress(
        FlashEvent::Progress { operation: FlashOperation::Program, size: 256 },
        Lang::En,
    ) {
        Some(WorkerEvent::Progress { done, total, state, .. }) => {
            assert_eq!(done, 256);
            assert_eq!(total, None);
            assert_eq!(state, OpState::Active);
        }
        _ => panic!("expected progress"),
    }
    match map_progress(FlashEvent::Failed(FlashOperation::Verify), Lang::En) {
        Some(WorkerEvent::Progress { state, .. }) => assert_eq!(state, OpState::Failed),
        _ => panic!("expected failure"),
    }
    match map_progress(FlashEvent::Finished(FlashOperation::Erase), Lang::En) {
        Some(WorkerEvent::Progress { state, .. }) => assert_eq!(state, OpState::Done),
        _ => panic!("expected completion"),
    }
    match map_progress(
        FlashEvent::Diagnostic { message: "note".to_string() },
        Lang::En,
    ) {
        Some(WorkerEvent::Diagnostic(m)) => assert_eq!(m, "note"),
        _ => panic!("expected a diagnostic"),
    }
}

#[test]
fn loaders_by_extension() {
    assert_eq!(choose_loader("elf", false, Lang::En), Ok(LoaderKind::Elf));
    assert_eq!(choose_loader("axf", false, Lang::En), Ok(LoaderKind::Elf));
    assert_eq!(choose_loader("", true, Lang::En), Ok(LoaderKind::Elf));
    assert_eq!(choose_loader("hex", false, Lang::En), Ok(LoaderKind::Hex));
    assert_eq!(choose_loader("bin", false, Lang::En), Ok(LoaderKind::Bin));
    assert_eq!(choose_loader("uf2", false, Lang::En), Ok(LoaderKind::Uf2));
}

#[test]
fn unknown_format_is_an_error() {
    assert_eq!(
        choose_loader("txt", true, Lang::En),
        Err("Unsupported file format: .txt. Choose a .elf / .hex / .bin / .uf2 file".to_string())
    );
    assert!(choose_loader("", false, Lang::En).is_err());
}

#[test]
fn commands_that_stop_rtt() {
    let manual = WorkerCommand::ConnectManual {
        probe: 0,
        target: "X".to_string(),
        boot_mode: BootMode::Normal,
    };
    assert_eq!(rtt_stop_notice(&manual), Some(Some(Msg::RttStoppedReconnect)));
    assert_eq!(rtt_stop_notice(&WorkerCommand::EraseAll), Some(Some(Msg::RttStoppedErase)));
    assert_eq!(rtt_stop_notice(&WorkerCommand::Disconnect), Some(None));
    assert_eq!(rtt_stop_notice(&WorkerCommand::RttStop), Some(Some(Msg::RttStoppedManual)));
    assert_eq!(rtt_stop_notice(&WorkerCommand::Scan), None);
    assert_eq!(rtt_stop_notice(&WorkerCommand::MemoryRead { start: 0, len: 4 }), None);
}

#[test]
fn stopping_rtt_reports_it() {
    assert!(rtt_stop_events(false, Some(Msg::RttStoppedFlash), Lang::En).is_empty());
    let evs = rtt_stop_events(true, Some(Msg::RttStoppedFlash), Lang::En);
    assert_eq!(evs.len(), 2);
    assert!(matches!(evs[0], WorkerEvent::RttStopped));
    match &evs[1] {
        WorkerEvent::Status(s) => assert_eq!(s, "RTT stopped during flashing"),
        _ => panic!("expected a status"),
    }
    assert_eq!(rtt_stop_events(true, None, Lang::En).len(), 1);
}

#[test]
fn rtt_write_outcomes() {
    assert_eq!(
        rtt_write_status(None, 3, Lang::En),
        Some("Target has no RTT down channel".to_string())
    );
    assert_eq!(rtt_write_status(Some(Ok(3)), 3, Lang::En), None);
    assert_eq!(
        rtt_write_status(Some(Ok(1)), 3, Lang::En),
        Some("Target down buffer full, some data was not sent".to_string())
    );
    assert_eq!(
        rtt_write_status(Some(Err("boom".to_string())), 3, Lang::En),
        Some("RTT down write failed: boom".to_string())
    );
}

#[test]
fn read_back_in_chunks() {
    assert_eq!(next_chunk(10), 10);
    assert_eq!(next_chunk(READ_CHUNK), READ_CHUNK);
    assert_eq!(next_chunk(100_000), 4096);
    assert_eq!(next_chunk(0), 0);
}

#[test]
fn reading_status_names_the_range() {
    assert_eq!(
        reading_firmware_status(0x0800_0000, 0x0801_0000, Lang::En),
        "Reading firmware: 0x8000000 - 0x8010000 (64 KB)"
    );
    assert_eq!(
        reading_firmware_status(0x100, 0x10, Lang::En),
        "Reading firmware: 0x100 - 0x10 (0 KB)"
    );
}

#[test]
fn file_names_of_generated_targets() {
    assert_eq!(target_file_name("STM32F4 Series"), "STM32F4_Series.yaml");
    assert_eq!(target_file_name("nRF52"), "nRF52.yaml");
}

#[test]
fn supported_families_keep_their_positions() {
    let names: Vec<String> = ["A", "B", "C", "B"].iter().map(|s| s.to_string()).collect();
    let supported: Vec<String> = ["B", "C"].iter().map(|s| s.to_string()).collect();
    assert_eq!(supported_indices(&names, &supported), vec![1, 2, 3]);
    assert!(supported_indices(&names, &Vec::new()).is_empty());
}

#[test]
fn labels_and_errors() {
    assert_eq!(op_label(FlashOperation::Erase, Lang::En), "Erase");
    assert_eq!(op_label(FlashOperation::Program, Lang::Zh), Lang::Zh.tr(Msg::ProgramLabel));
    assert_eq!(
        not_connected(Lang::En),
        "Not connected to a target. Auto-detect or select the target first"
    );
    assert_eq!(region_kind_label(RegionKind::Ram), "RAM");
    assert_eq!(region_kind_label(RegionKind::Nvm), "FLASH");
    assert_eq!(region_kind_label(RegionKind::Generic), "Generic");
}

#[test]
fn connecting_starts_in_the_chosen_mode() {
    assert!(matches!(connect_first(BootMode::Normal), ConnectAction::Attach(BootMode::Normal)));
    assert!(matches!(connect_first(BootMode::UnderReset), ConnectAction::Attach(BootMode::UnderReset)));
}

#[test]
fn a_named_target_fails_at_once() {
    let target = Some("STM32F407VG".to_string());
    match after_attach_failure(Lang::En, &target, BootMode::Normal, false, "timeout".to_string()) {
        ConnectAction::Fail(m) => assert_eq!(m, "Failed to connect to target STM32F407VG: timeout"),
        ConnectAction::Attach(_) => panic!("expected a failure"),
    }
}

#[test]
fn detection_retries_once_in_the_other_mode() {
    assert!(matches!(
        after_attach_failure(Lang::En, &None, BootMode::Normal, false, "e1".to_string()),
        ConnectAction::Attach(BootMode::UnderReset)
    ));
    assert!(matches!(
        after_attach_failure(Lang::En, &None, BootMode::UnderReset, false, "e1".to_string()),
        ConnectAction::Attach(BootMode::Normal)
    ));
    match after_attach_failure(Lang::En, &None, BootMode::Normal, true, "e1".to_string()) {
        ConnectAction::Fail(m) => assert!(m.starts_with("Auto-detection failed: e1. ")),
        ConnectAction::Attach(_) => panic!("expected a failure"),
    }
    match after_attach_failure(Lang::En, &None, BootMode::UnderReset, true, "e1".to_string()) {
        ConnectAction::Fail(m) => assert!(m.starts_with("Failed to attach under reset: e1. ")),
        ConnectAction::Attach(_) => panic!("expected a failure"),
    }
}

#[test]
fn probe_errors_are_worded() {
    assert_eq!(no_probe_at(Lang::En, 3), "No debug probe with index 3 found");
    assert_eq!(probe_open_failed(Lang::En, "busy".to_string()), "Failed to open probe: busy");
}
