//! User settings that persist between runs (the `config.toml` next to the
//! executable), without the window geometry, which the interface keeps.

use vstd::prelude::*;

use crate::text::owned;

verus! {

/// The persisted settings.
pub struct AppConfig {
    /// Interface language: "zh" / "en".
    pub lang: String,
    /// Theme: "system" / "light" / "dark".
    pub theme: String,
    /// Connection mode: "normal" / "under_reset".
    pub boot_mode: String,
    /// The chip chosen by hand.
    pub manual_target: String,
    /// The last firmware file.
    pub file_path: String,
    /// The last project folder.
    pub firmware_root: String,
    /// Erase the whole chip before flashing.
    pub chip_erase: bool,
    /// Verify after flashing.
    pub verify: bool,
    /// Keep the bytes that the image does not cover.
    pub keep_unwritten: bool,
    /// Reset and run after flashing.
    pub reset_after: bool,
    /// Base address of .bin images.
    pub bin_base: u64,
    /// RTT up channel shown (`None`: all).
    pub rtt_view_channel: Option<usize>,
    /// RTT down channel written.
    pub rtt_send_channel: usize,
    /// Scroll the RTT view along.
    pub rtt_autoscroll: bool,
    /// Central tab: "flash" / "memory" / "rtt".
    pub central_tab: String,
    /// Start address of the memory viewer.
    pub mem_start: u64,
    /// Number of bytes the memory viewer reads.
    pub mem_len: usize,
    /// Address the memory viewer writes at.
    pub mem_write_start: u64,
    /// Last input of the pack generator.
    pub tg_input: String,
    /// Last output directory of the pack generator.
    pub tg_output_dir: String,
}

/// The defaults: Chinese, system theme, normal connection, verify, keep
/// unwritten bytes, reset after flashing, RTT auto-scroll, the flash tab, and
/// a 256-byte memory view.
pub open spec fn is_default_config(c: AppConfig) -> bool {
    &&& c.lang@ == "zh"@
    &&& c.theme@ == "system"@
    &&& c.boot_mode@ == "normal"@
    &&& c.manual_target@.len() == 0
    &&& c.file_path@.len() == 0
    &&& c.firmware_root@.len() == 0
    &&& !c.chip_erase
    &&& c.verify
    &&& c.keep_unwritten
    &&& c.reset_after
    &&& c.bin_base == 0
    &&& c.rtt_view_channel is None
    &&& c.rtt_send_channel == 0
    &&& c.rtt_autoscroll
    &&& c.central_tab@ == "flash"@
    &&& c.mem_start == 0
    &&& c.mem_len == 256
    &&& c.mem_write_start == 0
    &&& c.tg_input@.len() == 0
    &&& c.tg_output_dir@.len() == 0
}

impl Default for AppConfig {
    fn default() -> (c: Self)
        ensures
            is_default_config(c),
    {
        AppConfig {
            lang: owned("zh"),
            theme: owned("system"),
            boot_mode: owned("normal"),
            manual_target: String::new(),
            file_path: String::new(),
            firmware_root: String::new(),
            chip_erase: false,
            verify: true,
            keep_unwritten: true,
            reset_after: true,
            bin_base: 0,
            rtt_view_channel: None,
            rtt_send_channel: 0,
            rtt_autoscroll: true,
            central_tab: owned("flash"),
            mem_start: 0,
            mem_len: 256,
            mem_write_start: 0,
            tg_input: String::new(),
            tg_output_dir: String::new(),
        }
    }
}

/// Two configurations hold the same settings.
pub open spec fn same_config(a: AppConfig, b: AppConfig) -> bool {
    &&& a.lang@ == b.lang@
    &&& a.theme@ == b.theme@
    &&& a.boot_mode@ == b.boot_mode@
    &&& a.manual_target@ == b.manual_target@
    &&& a.file_path@ == b.file_path@
    &&& a.firmware_root@ == b.firmware_root@
    &&& a.chip_erase == b.chip_erase
    &&& a.verify == b.verify
    &&& a.keep_unwritten == b.keep_unwritten
    &&& a.reset_after == b.reset_after
    &&& a.bin_base == b.bin_base
    &&& a.rtt_view_channel == b.rtt_view_channel
    &&& a.rtt_send_channel == b.rtt_send_channel
    &&& a.rtt_autoscroll == b.rtt_autoscroll
    &&& a.central_tab@ == b.central_tab@
    &&& a.mem_start == b.mem_start
    &&& a.mem_len == b.mem_len
    &&& a.mem_write_start == b.mem_write_start
    &&& a.tg_input@ == b.tg_input@
    &&& a.tg_output_dir@ == b.tg_output_dir@
}

/// The settings that the interface writes itself: each choice spelled the
/// way it is saved.
pub open spec fn is_canonical(c: AppConfig) -> bool {
    &&& c.lang@ == "zh"@ || c.lang@ == "en"@
    &&& c.theme@ == "system"@ || c.theme@ == "light"@ || c.theme@ == "dark"@
    &&& c.boot_mode@ == "normal"@ || c.boot_mode@ == "under_reset"@
    &&& c.central_tab@ == "flash"@ || c.central_tab@ == "memory"@ || c.central_tab@ == "rtt"@
}

} // verus!
