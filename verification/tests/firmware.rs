use probe_rs_ui::firmware::candidate_for;
use probe_rs_ui::firmware::firmware_kind;
use probe_rs_ui::firmware::fw_score;
use probe_rs_ui::firmware::has_elf_magic;
use probe_rs_ui::firmware::is_ignored_dir;
use probe_rs_ui::firmware::rank_candidates;
use probe_rs_ui::firmware::scan_child;
use probe_rs_ui::firmware::within_scan_depth;
use probe_rs_ui::firmware::FirmwareCandidate;
use probe_rs_ui::firmware::MAX_SCAN_DEPTH;

fn cand(path: &str, kind: &'static str, modified: u64) -> FirmwareCandidate {
    FirmwareCandidate {
        path: path.to_string(),
        kind,
        size_kb: 4,
        modified,
    }
}

#[test]
fn ignored_dirs() {
    assert!(is_ignored_dir(".git", false));
    assert!(is_ignored_dir("node_modules", false));
    assert!(is_ignored_dir("deps", true));
    assert!(is_ignored_dir("build", true));
    assert!(!is_ignored_dir("build", false));
    assert!(!is_ignored_dir("release", true));
    assert!(!is_ignored_dir("src", false));
}

#[test]
fn scan_children_track_depth_and_target() {
    assert_eq!(scan_child("target", 0, false), Some((1, true)));
    assert_eq!(scan_child("debug", 1, true), Some((2, true)));
    assert_eq!(scan_child("build", 2, true), None);
    assert_eq!(scan_child("build", 0, false), Some((1, false)));
    assert!(within_scan_depth(MAX_SCAN_DEPTH));
    assert!(!within_scan_depth(MAX_SCAN_DEPTH + 1));
}

#[test]
fn firmware_kinds_by_extension_and_magic() {
    assert_eq!(firmware_kind(Some("ELF"), false), Some("ELF"));
    assert_eq!(firmware_kind(Some("axf"), false), Some("ELF"));
    assert_eq!(firmware_kind(Some("Hex"), false), Some("HEX"));
    assert_eq!(firmware_kind(Some("bin"), false), Some("BIN"));
    assert_eq!(firmware_kind(Some("uf2"), false), Some("UF2"));
    assert_eq!(firmware_kind(Some("c"), true), None);
    assert_eq!(firmware_kind(None, true), Some("ELF"));
    assert_eq!(firmware_kind(None, false), None);
}

#[test]
fn elf_magic() {
    assert!(has_elf_magic(&[0x7f, b'E', b'L', b'F', 1]));
    assert!(!has_elf_magic(&[0x7f, b'E', b'L']));
    assert!(!has_elf_magic(b"MZ\x90\x00"));
}

#[test]
fn empty_files_are_no_candidates() {
    assert!(candidate_for("a.bin".to_string(), "BIN", 0, 5).is_none());
    let c = candidate_for("a.bin".to_string(), "BIN", 8192, 5).unwrap();
    assert_eq!(c.size_kb, 8);
    assert_eq!(c.modified, 5);
    assert_eq!(c.kind, "BIN");
}

#[test]
fn scores_add_kind_and_folder_bonuses() {
    assert_eq!(fw_score(&cand("C:\\p\\target\\release\\app.elf", "ELF", 0)), 24);
    assert_eq!(fw_score(&cand("C:\\p\\target\\debug\\app.elf", "ELF", 0)), 19);
    assert_eq!(fw_score(&cand("C:\\p\\Objects\\app.hex", "HEX", 0)), 10);
    assert_eq!(fw_score(&cand("C:\\p\\build\\Release\\fw.bin", "BIN", 0)), 30);
    assert_eq!(fw_score(&cand("C:\\p\\bin\\fw.uf2", "UF2", 0)), 4);
    assert_eq!(fw_score(&cand("C:\\p\\fw.txt", "TXT", 0)), 0);
}

#[test]
fn release_elf_ranks_before_debug_and_others() {
    let cands = vec![
        cand("C:\\p\\target\\debug\\myapp.elf", "ELF", 10),
        cand("C:\\p\\Objects\\app.hex", "HEX", 30),
        cand("C:\\p\\target\\release\\myapp.elf", "ELF", 5),
    ];
    let (ranked, best) = rank_candidates(cands);
    assert_eq!(best, Some(0));
    assert_eq!(ranked[0].path, "C:\\p\\target\\release\\myapp.elf");
    assert_eq!(ranked[1].path, "C:\\p\\target\\debug\\myapp.elf");
    assert_eq!(ranked[2].path, "C:\\p\\Objects\\app.hex");
}

#[test]
fn equal_scores_rank_newer_first_then_by_path() {
    let cands = vec![
        cand("b.elf", "ELF", 1),
        cand("a.elf", "ELF", 1),
        cand("c.elf", "ELF", 9),
    ];
    let (ranked, _) = rank_candidates(cands);
    let paths: Vec<&str> = ranked.iter().map(|c| c.path.as_str()).collect();
    assert_eq!(paths, vec!["c.elf", "a.elf", "b.elf"]);
}

#[test]
fn no_candidates_no_best() {
    let (ranked, best) = rank_candidates(Vec::new());
    assert!(ranked.is_empty());
    assert_eq!(best, None);
}

#[test]
fn folder_bonuses_with_forward_slashes() {
    assert_eq!(fw_score(&cand("/home/u/p/target/release/myapp.elf", "ELF", 0)), 24);
    assert_eq!(fw_score(&cand("/home/u/p/target/debug/myapp.elf", "ELF", 0)), 19);
    assert_eq!(fw_score(&cand("/home/u/p/Objects/app.hex", "HEX", 0)), 10);
    assert_eq!(fw_score(&cand("/p/build/Release/firmware.elf", "ELF", 0)), 32);
    assert_eq!(fw_score(&cand("C:/p\\out/bin\\fw.bin", "BIN", 0)), 13);
    assert_eq!(fw_score(&cand("release/a.elf", "ELF", 0)), 24);
}

#[test]
fn folder_names_must_match_whole_components() {
    assert_eq!(fw_score(&cand("/p/prerelease/a.elf", "ELF", 0)), 4);
    assert_eq!(fw_score(&cand("/p/builds/a.elf", "ELF", 0)), 4);
    assert_eq!(fw_score(&cand("/p/release", "ELF", 0)), 4);
    assert_eq!(fw_score(&cand("/p/release.elf", "ELF", 0)), 4);
}

#[test]
fn release_elf_ranks_first_on_unix_paths() {
    let cands = vec![
        cand("/w/proj/target/debug/myapp.elf", "ELF", 50),
        cand("/w/proj/target/release/myapp.elf", "ELF", 10),
        cand("/w/proj/Objects/app.hex", "HEX", 90),
    ];
    let (ranked, best) = rank_candidates(cands);
    assert_eq!(best, Some(0));
    assert_eq!(ranked.len(), 3);
    assert!(ranked[0].path.ends_with("target/release/myapp.elf"));
    assert!(ranked[1].path.ends_with("target/debug/myapp.elf"));
    assert_eq!(ranked[2].path, "/w/proj/Objects/app.hex");
}

#[test]
fn cmake_release_output_ranks_first_on_unix_paths() {
    let cands = vec![
        cand("/w/fw/build/Debug/firmware.elf", "ELF", 7),
        cand("/w/fw/build/Release/firmware.elf", "ELF", 7),
    ];
    let (ranked, best) = rank_candidates(cands);
    assert_eq!(ranked.len(), 2);
    assert_eq!(best, Some(0));
    assert!(ranked[0].path.to_lowercase().contains("release"));
}
