//! What the interface's controls do: each button is enabled under a
//! condition on the state, changes the state, logs, and sends a command.
//! A disabled control does nothing.

use vstd::prelude::*;

use crate::app_state::entries_items;
use crate::app_state::item;
use crate::app_state::logs;
use crate::app_state::no_items;
use crate::app_state::note;
use crate::app_state::LogEntry;
use crate::app_state::LogLevel;
use crate::app_state::ProbeUiApp;
use crate::app_state::MAX_MEM_READ;
use crate::i18n::msg_text;
use crate::i18n::Msg;
use crate::memview::hex_input_ok;
use crate::memview::parse_hex_bytes;
use crate::memview::parsed_hex;
use crate::text::chars_of;
use crate::text::decimal;
use crate::text::decimal_text;
use crate::text::hex_text;
use crate::text::hex_upper;
use crate::text::is_blank;
use crate::text::lowercase;
use crate::text::str_eq;
use crate::text::string_of;
use crate::text::to_lower;
use crate::text::trim;
use crate::text::trim_chars;
use crate::worker::message;
use crate::worker::WorkerCommand;
use vstd::string::StrSliceExecFns;
use vstd::utf8::encode_utf8;

verus! {

/// The trimmed text of `s`.
fn trimmed(s: &String) -> (r: String)
    ensures
        r@ == trim(s@),
{
    string_of(&trim_chars(&chars_of(s.as_str())))
}

// ---------------------------------------------------------------------------
// Probe and connection
// ---------------------------------------------------------------------------

/// Nothing runs that a scan would disturb.
pub open spec fn can_rescan(st: ProbeUiApp) -> bool {
    !st.probing && !st.connecting && !st.busy
}

/// A probe is there and nothing runs that a connection would disturb.
pub open spec fn can_connect(st: ProbeUiApp) -> bool {
    st.probes@.len() > 0 && !st.connecting && !st.probing && !st.busy && !st.rtt_on
}

/// A target is connected and no operation runs.
pub open spec fn can_disconnect(st: ProbeUiApp) -> bool {
    st.connected is Some && !st.busy
}

/// A chip is named and a connection could start.
pub open spec fn can_connect_by_model(st: ProbeUiApp) -> bool {
    st.probes@.len() > 0 && !st.connecting && !st.busy && !st.rtt_on && trim(st.manual_target@).len()
        > 0
}

impl ProbeUiApp {
    /// The rescan button: scans for probes again.
    pub fn rescan(&mut self) -> (cmd: Option<WorkerCommand>)
        ensures
            can_rescan(*old(self)) ==> {
                &&& *final(self) == (ProbeUiApp { probing: true, log: final(self).log, ..*old(self) })
                &&& logs(
                    old(self).log@,
                    final(self).log@,
                    item(LogLevel::Info, msg_text(old(self).lang, Msg::ScanningProbes)),
                )
                &&& cmd == Some(WorkerCommand::Scan)
            },
            !can_rescan(*old(self)) ==> *final(self) == *old(self) && cmd is None,
    {
        if self.probing || self.connecting || self.busy {
            return None;
        }
        let t = self.text(Msg::ScanningProbes);
        self.probing = true;
        self.log(t, LogLevel::Info);
        Some(WorkerCommand::Scan)
    }

    /// The auto-detect button: connects and lets the probe identify the
    /// target; the progress bars start empty.
    pub fn auto_detect(&mut self) -> (cmd: Option<WorkerCommand>)
        ensures
            can_connect(*old(self)) ==> {
                &&& *final(self) == (ProbeUiApp {
                    connecting: true,
                    busy: true,
                    op_bars: final(self).op_bars,
                    log: final(self).log,
                    ..*old(self)
                })
                &&& final(self).op_bars@.len() == 0
                &&& logs(
                    old(self).log@,
                    final(self).log@,
                    item(LogLevel::Info, msg_text(old(self).lang, Msg::AutoDetecting)),
                )
                &&& cmd == Some(
                    WorkerCommand::ConnectAuto {
                        probe: old(self).selected_probe,
                        boot_mode: old(self).boot_mode,
                    },
                )
            },
            !can_connect(*old(self)) ==> *final(self) == *old(self) && cmd is None,
    {
        if self.probes.len() == 0 || self.connecting || self.probing || self.busy || self.rtt_on {
            return None;
        }
        let t = self.text(Msg::AutoDetecting);
        self.connecting = true;
        self.busy = true;
        self.op_bars = Vec::new();
        self.log(t, LogLevel::Info);
        Some(WorkerCommand::ConnectAuto { probe: self.selected_probe, boot_mode: self.boot_mode })
    }

    /// The disconnect button.
    pub fn disconnect(&mut self) -> (cmd: Option<WorkerCommand>)
        ensures
            can_disconnect(*old(self)) ==> {
                &&& *final(self) == (ProbeUiApp { connected: None, log: final(self).log, ..*old(self) })
                &&& logs(
                    old(self).log@,
                    final(self).log@,
                    item(LogLevel::Info, msg_text(old(self).lang, Msg::Disconnected)),
                )
                &&& cmd == Some(WorkerCommand::Disconnect)
            },
            !can_disconnect(*old(self)) ==> *final(self) == *old(self) && cmd is None,
    {
        if self.connected.is_none() || self.busy {
            return None;
        }
        let t = self.text(Msg::Disconnected);
        self.connected = None;
        self.log(t, LogLevel::Info);
        Some(WorkerCommand::Disconnect)
    }

    /// The connect-by-model button: connects to the chosen chip, its name
    /// trimmed.
    pub fn connect_by_model(&mut self) -> (cmd: Option<WorkerCommand>)
        ensures
            can_connect_by_model(*old(self)) ==> {
                &&& *final(self) == (ProbeUiApp {
                    connecting: true,
                    busy: true,
                    log: final(self).log,
                    ..*old(self)
                })
                &&& logs(
                    old(self).log@,
                    final(self).log@,
                    item(
                        LogLevel::Info,
                        message(old(self).lang, Msg::ConnectingTo, seq![trim(old(self).manual_target@)]),
                    ),
                )
                &&& cmd matches Some(WorkerCommand::ConnectManual { probe, target, boot_mode })
                &&& probe == old(self).selected_probe
                &&& target@ == trim(old(self).manual_target@)
                &&& boot_mode == old(self).boot_mode
            },
            !can_connect_by_model(*old(self)) ==> *final(self) == *old(self) && cmd is None,
    {
        if self.probes.len() == 0 || self.connecting || self.busy || self.rtt_on || is_blank(
            self.manual_target.as_str(),
        ) {
            return None;
        }
        let target = trimmed(&self.manual_target);
        let t = self.message1(Msg::ConnectingTo, target.clone());
        self.connecting = true;
        self.busy = true;
        self.log(t, LogLevel::Info);
        Some(
            WorkerCommand::ConnectManual {
                probe: self.selected_probe,
                target,
                boot_mode: self.boot_mode,
            },
        )
    }

    /// A chip description file was picked: loads it.
    pub fn load_chip_file(&mut self, path: String) -> (cmd: WorkerCommand)
        ensures
            *final(self) == (ProbeUiApp { log: final(self).log, ..*old(self) }),
            logs(
                old(self).log@,
                final(self).log@,
                item(LogLevel::Info, message(old(self).lang, Msg::LoadingChipFile, seq![path@])),
            ),
            cmd matches WorkerCommand::LoadChipFile { path: p } && p@ == path@,
    {
        let t = self.message1(Msg::LoadingChipFile, path.clone());
        self.log(t, LogLevel::Info);
        WorkerCommand::LoadChipFile { path }
    }

    /// A CMSIS pack was picked: generates chip descriptions from it.
    pub fn generate_pack(&mut self, path: String) -> (cmd: WorkerCommand)
        ensures
            *final(self) == (ProbeUiApp { log: final(self).log, ..*old(self) }),
            logs(
                old(self).log@,
                final(self).log@,
                item(LogLevel::Info, message(old(self).lang, Msg::GeneratingFromPack, seq![path@])),
            ),
            cmd matches WorkerCommand::GeneratePack { path: p } && p@ == path@,
    {
        let t = self.message1(Msg::GeneratingFromPack, path.clone());
        self.log(t, LogLevel::Info);
        WorkerCommand::GeneratePack { path }
    }
}

// ---------------------------------------------------------------------------
// Pack generation
// ---------------------------------------------------------------------------

/// A pack path is given and no generation runs (the generate button).
pub open spec fn can_generate(st: ProbeUiApp) -> bool {
    !st.tg_busy && trim(st.tg_input@).len() > 0
}

/// The generate-and-connect button: also a probe is there and nothing runs.
pub open spec fn can_generate_and_connect(st: ProbeUiApp) -> bool {
    can_generate(st) && st.probes@.len() > 0 && !st.connecting && !st.busy
}

/// The button is enabled: the generate button, or with `auto_connect` the
/// generate-and-connect button.
pub open spec fn gen_enabled(st: ProbeUiApp, auto_connect: bool) -> bool {
    if auto_connect {
        can_generate_and_connect(st)
    } else {
        can_generate(st)
    }
}

/// A missing pack input is reported and connecting afterwards is off.
#[verifier::opaque]
pub open spec fn target_input_refused(old: ProbeUiApp, new: ProbeUiApp) -> bool {
    &&& new == ProbeUiApp { tg_auto_connect: false, log: new.log, ..old }
    &&& logs(
        old.log@,
        new.log@,
        item(LogLevel::Error, message(old.lang, Msg::TgInputMissing, seq![old.tg_input@])),
    )
}

/// A generation starts: the last result is dropped, the trimmed paths go
/// to the worker.
#[verifier::opaque]
pub open spec fn target_gen_begun(old: ProbeUiApp, new: ProbeUiApp, auto_connect: bool, cmd: WorkerCommand) -> bool {
    &&& new == ProbeUiApp {
        tg_auto_connect: auto_connect,
        tg_busy: true,
        tg_result: None,
        log: new.log,
        ..old
    }
    &&& logs(
        old.log@,
        new.log@,
        item(LogLevel::Info, message(old.lang, Msg::GeneratingFromPack, seq![old.tg_input@])),
    )
    &&& cmd matches WorkerCommand::TargetGenGenerate { input, output_dir, only_supported, auto_load }
    &&& input@ == trim(old.tg_input@)
    &&& output_dir@ == trim(old.tg_output_dir@)
    &&& only_supported == old.tg_only_supported
    &&& auto_load == auto_connect
}

impl ProbeUiApp {
    /// The generate buttons: `auto_connect` for the one that also connects
    /// to the first generated chip; `input_exists` tells whether the trimmed
    /// input path exists.  A missing input is reported and nothing starts.
    pub fn start_target_gen(&mut self, auto_connect: bool, input_exists: bool) -> (cmd: Option<
        WorkerCommand,
    >)
        ensures
            !gen_enabled(*old(self), auto_connect) ==> *final(self) == *old(self) && cmd is None,
            gen_enabled(*old(self), auto_connect) && !input_exists ==> target_input_refused(
                *old(self),
                *final(self),
            ) && cmd is None,
            gen_enabled(*old(self), auto_connect) && input_exists ==> (cmd matches Some(c)
                && target_gen_begun(*old(self), *final(self), auto_connect, c)),
    {
        let base = !self.tg_busy && !is_blank(self.tg_input.as_str());
        let enabled = if auto_connect {
            base && self.probes.len() > 0 && !self.connecting && !self.busy
        } else {
            base
        };
        if !enabled {
            return None;
        }
        if !input_exists {
            self.target_input_missing();
            None
        } else {
            Some(self.target_gen_started(auto_connect))
        }
    }

    fn target_input_missing(&mut self)
        ensures
            target_input_refused(*old(self), *final(self)),
    {
        reveal(target_input_refused);
        let t = self.message1(Msg::TgInputMissing, self.tg_input.clone());
        self.tg_auto_connect = false;
        self.log(t, LogLevel::Error);
    }

    fn target_gen_started(&mut self, auto_connect: bool) -> (cmd: WorkerCommand)
        ensures
            target_gen_begun(*old(self), *final(self), auto_connect, cmd),
    {
        reveal(target_gen_begun);
        let input = trimmed(&self.tg_input);
        let output_dir = trimmed(&self.tg_output_dir);
        let t = self.message1(Msg::GeneratingFromPack, self.tg_input.clone());
        self.tg_auto_connect = auto_connect;
        self.tg_busy = true;
        self.tg_result = None;
        self.log(t, LogLevel::Info);
        WorkerCommand::TargetGenGenerate {
            input,
            output_dir,
            only_supported: self.tg_only_supported,
            auto_load: auto_connect,
        }
    }
}

// ---------------------------------------------------------------------------
// Firmware
// ---------------------------------------------------------------------------

/// The format that the interface shows for a firmware file, by its
/// extension (in lower case); a file whose extension names none counts as
/// ELF when it starts with the ELF magic number.
pub open spec fn format_of(ext: Option<Seq<char>>, elf_magic: bool) -> Option<Seq<char>> {
    let by_ext = match ext {
        Some(e) => {
            let l = lowercase(e);
            if l == "elf"@ || l == "axf"@ {
                Some("ELF"@)
            } else if l == "hex"@ {
                Some("Intel HEX"@)
            } else if l == "bin"@ {
                Some("Binary"@)
            } else if l == "uf2"@ {
                Some("UF2"@)
            } else {
                None
            }
        },
        None => None,
    };
    if by_ext is Some {
        by_ext
    } else if elf_magic {
        Some("ELF"@)
    } else {
        None
    }
}

/// The view of an optional text.
pub open spec fn opt_view(ext: Option<&str>) -> Option<Seq<char>> {
    match ext {
        Some(e) => Some(e@),
        None => None,
    }
}

/// See [`format_of`].
pub fn detected_format(ext: Option<&str>, elf_magic: bool) -> (r: Option<&'static str>)
    ensures
        match r {
            Some(f) => format_of(opt_view(ext), elf_magic) == Some(f@),
            None => format_of(opt_view(ext), elf_magic) is None,
        },
{
    let by_ext: Option<&'static str> = match ext {
        Some(e) => {
            let l = to_lower(e);
            let ls = l.as_str();
            if str_eq(ls, "elf") || str_eq(ls, "axf") {
                Some("ELF")
            } else if str_eq(ls, "hex") {
                Some("Intel HEX")
            } else if str_eq(ls, "bin") {
                Some("Binary")
            } else if str_eq(ls, "uf2") {
                Some("UF2")
            } else {
                None
            }
        },
        None => None,
    };
    match by_ext {
        Some(f) => Some(f),
        None => if elf_magic {
            Some("ELF")
        } else {
            None
        },
    }
}

/// A target is connected, a file is named and nothing runs.
pub open spec fn can_flash(st: ProbeUiApp) -> bool {
    st.connected is Some && trim(st.file_path@).len() > 0 && !st.busy && !st.connecting && !st.probing
}

/// A target is connected and nothing runs.
pub open spec fn can_erase(st: ProbeUiApp) -> bool {
    st.connected is Some && !st.busy && !st.connecting && !st.probing
}

/// A target is connected, the range is not empty and nothing runs.
pub open spec fn can_read_back(st: ProbeUiApp) -> bool {
    st.connected is Some && st.read_end > st.read_start && !st.busy && !st.connecting && !st.probing
}

impl ProbeUiApp {
    /// A project folder was picked: scans it for firmware.
    pub fn select_project_folder(&mut self, dir: String) -> (cmd: WorkerCommand)
        ensures
            *final(self) == (ProbeUiApp {
                firmware_root: dir,
                firmware_scanning: true,
                firmware_candidates: final(self).firmware_candidates,
                log: final(self).log,
                ..*old(self)
            }),
            final(self).firmware_candidates@.len() == 0,
            logs(
                old(self).log@,
                final(self).log@,
                item(LogLevel::Info, message(old(self).lang, Msg::ScanningProject, seq![dir@])),
            ),
            cmd matches WorkerCommand::ScanFirmware { root } && root@ == dir@,
    {
        let t = self.message1(Msg::ScanningProject, dir.clone());
        let root = dir.clone();
        self.firmware_root = dir;
        self.firmware_scanning = true;
        self.firmware_candidates = Vec::new();
        self.log(t, LogLevel::Info);
        WorkerCommand::ScanFirmware { root }
    }

    /// A firmware file was chosen.
    pub fn choose_firmware(&mut self, path: String)
        ensures
            *final(self) == (ProbeUiApp { file_path: path, log: final(self).log, ..*old(self) }),
            logs(
                old(self).log@,
                final(self).log@,
                item(LogLevel::Info, message(old(self).lang, Msg::SelectedFirmware, seq![path@])),
            ),
    {
        let t = self.message1(Msg::SelectedFirmware, path.clone());
        self.file_path = path;
        self.log(t, LogLevel::Info);
    }

    /// One of the scanned candidates was chosen; a position past the list
    /// does nothing.
    pub fn choose_candidate(&mut self, i: usize)
        ensures
            i < old(self).firmware_candidates@.len() ==> {
                let path = old(self).firmware_candidates@[i as int].path;
                &&& *final(self) == (ProbeUiApp { file_path: path, log: final(self).log, ..*old(self) })
                &&& logs(
                    old(self).log@,
                    final(self).log@,
                    item(LogLevel::Info, message(old(self).lang, Msg::SelectedFirmware, seq![path@])),
                )
            },
            i >= old(self).firmware_candidates@.len() ==> *final(self) == *old(self),
    {
        if i < self.firmware_candidates.len() {
            let path = self.firmware_candidates[i].path.clone();
            self.choose_firmware(path);
        }
    }

    /// Flashes a file: refused when its format is not known (`ext` is its
    /// extension, `elf_magic` whether it starts with the ELF magic number);
    /// otherwise the progress bars start empty.
    pub fn flash_file(&mut self, path: String, ext: Option<&str>, elf_magic: bool, bin_base: u64) -> (cmd:
        Option<WorkerCommand>)
        ensures
            format_of(opt_view(ext), elf_magic) is None ==> {
                &&& *final(self) == (ProbeUiApp { log: final(self).log, ..*old(self) })
                &&& logs(
                    old(self).log@,
                    final(self).log@,
                    item(LogLevel::Error, msg_text(old(self).lang, Msg::UnsupportedFormat)),
                )
                &&& cmd is None
            },
            format_of(opt_view(ext), elf_magic) is Some ==> {
                &&& *final(self) == (ProbeUiApp {
                    busy: true,
                    op_bars: final(self).op_bars,
                    log: final(self).log,
                    ..*old(self)
                })
                &&& final(self).op_bars@.len() == 0
                &&& logs(
                    old(self).log@,
                    final(self).log@,
                    item(LogLevel::Info, message(old(self).lang, Msg::FlashingPath, seq![path@])),
                )
                &&& cmd matches Some(
                    WorkerCommand::Flash {
                        path: p,
                        do_chip_erase,
                        verify,
                        keep_unwritten_bytes,
                        reset_after,
                        bin_base: base,
                    },
                )
                &&& p@ == path@
                &&& do_chip_erase == old(self).chip_erase
                &&& verify == old(self).verify
                &&& keep_unwritten_bytes == old(self).keep_unwritten
                &&& reset_after == old(self).reset_after
                &&& base == bin_base
            },
    {
        if detected_format(ext, elf_magic).is_none() {
            let t = self.text(Msg::UnsupportedFormat);
            self.log(t, LogLevel::Error);
            return None;
        }
        Some(self.flash_started(path, bin_base))
    }

    fn flash_started(&mut self, path: String, bin_base: u64) -> (cmd: WorkerCommand)
        ensures
            *final(self) == (ProbeUiApp {
                busy: true,
                op_bars: final(self).op_bars,
                log: final(self).log,
                ..*old(self)
            }),
            final(self).op_bars@.len() == 0,
            logs(
                old(self).log@,
                final(self).log@,
                item(LogLevel::Info, message(old(self).lang, Msg::FlashingPath, seq![path@])),
            ),
            cmd matches WorkerCommand::Flash {
                path: p,
                do_chip_erase,
                verify,
                keep_unwritten_bytes,
                reset_after,
                bin_base: base,
            } && p@ == path@ && do_chip_erase == old(self).chip_erase && verify == old(self).verify
                && keep_unwritten_bytes == old(self).keep_unwritten && reset_after == old(
                self,
            ).reset_after && base == bin_base,
    {
        let t = self.message1(Msg::FlashingPath, path.clone());
        self.busy = true;
        self.op_bars = Vec::new();
        self.log(t, LogLevel::Info);
        WorkerCommand::Flash {
            path,
            do_chip_erase: self.chip_erase,
            verify: self.verify,
            keep_unwritten_bytes: self.keep_unwritten,
            reset_after: self.reset_after,
            bin_base,
        }
    }

    /// Whether the flash button is enabled.
    pub fn flash_enabled(&self) -> (r: bool)
        ensures
            r == can_flash(*self),
    {
        self.connected.is_some() && !is_blank(self.file_path.as_str()) && !self.busy
            && !self.connecting && !self.probing
    }

    /// The erase-all button; the progress bars start empty.
    pub fn erase_all(&mut self) -> (cmd: Option<WorkerCommand>)
        ensures
            can_erase(*old(self)) ==> {
                &&& *final(self) == (ProbeUiApp {
                    busy: true,
                    op_bars: final(self).op_bars,
                    log: final(self).log,
                    ..*old(self)
                })
                &&& final(self).op_bars@.len() == 0
                &&& logs(
                    old(self).log@,
                    final(self).log@,
                    item(LogLevel::Info, msg_text(old(self).lang, Msg::ErasingAll)),
                )
                &&& cmd == Some(WorkerCommand::EraseAll)
            },
            !can_erase(*old(self)) ==> *final(self) == *old(self) && cmd is None,
    {
        if self.connected.is_none() || self.busy || self.connecting || self.probing {
            return None;
        }
        let t = self.text(Msg::ErasingAll);
        self.busy = true;
        self.op_bars = Vec::new();
        self.log(t, LogLevel::Info);
        Some(WorkerCommand::EraseAll)
    }

    /// The reset button.
    pub fn reset_target(&mut self) -> (cmd: Option<WorkerCommand>)
        ensures
            can_disconnect(*old(self)) ==> {
                &&& *final(self) == (ProbeUiApp { busy: true, log: final(self).log, ..*old(self) })
                &&& logs(
                    old(self).log@,
                    final(self).log@,
                    item(LogLevel::Info, msg_text(old(self).lang, Msg::ResettingTarget)),
                )
                &&& cmd == Some(WorkerCommand::Reset)
            },
            !can_disconnect(*old(self)) ==> *final(self) == *old(self) && cmd is None,
    {
        if self.connected.is_none() || self.busy {
            return None;
        }
        let t = self.text(Msg::ResettingTarget);
        self.busy = true;
        self.log(t, LogLevel::Info);
        Some(WorkerCommand::Reset)
    }

    /// The read-back button, with the file picked to save to; the progress
    /// bars start empty.
    pub fn read_firmware(&mut self, path: String) -> (cmd: Option<WorkerCommand>)
        ensures
            can_read_back(*old(self)) ==> {
                &&& *final(self) == (ProbeUiApp {
                    busy: true,
                    op_bars: final(self).op_bars,
                    log: final(self).log,
                    ..*old(self)
                })
                &&& final(self).op_bars@.len() == 0
                &&& logs(
                    old(self).log@,
                    final(self).log@,
                    item(
                        LogLevel::Info,
                        message(
                            old(self).lang,
                            Msg::StartingRead,
                            seq![decimal(old(self).read_start as nat), decimal(old(self).read_end as nat)],
                        ),
                    ),
                )
                &&& cmd matches Some(WorkerCommand::ReadFlash { path: p, start, end })
                &&& p@ == path@
                &&& start == old(self).read_start
                &&& end == old(self).read_end
            },
            !can_read_back(*old(self)) ==> *final(self) == *old(self) && cmd is None,
    {
        if self.connected.is_none() || self.read_end <= self.read_start || self.busy
            || self.connecting || self.probing {
            return None;
        }
        let start = self.read_start;
        let end = self.read_end;
        let t = self.message2(Msg::StartingRead, decimal_text(start), decimal_text(end));
        self.busy = true;
        self.op_bars = Vec::new();
        self.log(t, LogLevel::Info);
        Some(WorkerCommand::ReadFlash { path, start, end })
    }
}

// ---------------------------------------------------------------------------
// RTT
// ---------------------------------------------------------------------------

/// A target is connected, RTT is off and nothing runs.
pub open spec fn can_start_rtt(st: ProbeUiApp) -> bool {
    st.connected is Some && !st.busy && !st.connecting && !st.probing && !st.rtt_on
}

/// RTT runs and a line is typed.
pub open spec fn can_send_rtt(st: ProbeUiApp) -> bool {
    st.rtt_on && trim(st.rtt_down_input@).len() > 0
}

impl ProbeUiApp {
    /// The RTT start button.
    pub fn rtt_start(&mut self) -> (cmd: Option<WorkerCommand>)
        ensures
            can_start_rtt(*old(self)) ==> {
                &&& *final(self) == (ProbeUiApp { rtt_on: true, log: final(self).log, ..*old(self) })
                &&& logs(
                    old(self).log@,
                    final(self).log@,
                    item(LogLevel::Info, msg_text(old(self).lang, Msg::StartingRtt)),
                )
                &&& cmd == Some(WorkerCommand::RttStart)
            },
            !can_start_rtt(*old(self)) ==> *final(self) == *old(self) && cmd is None,
    {
        if self.connected.is_none() || self.busy || self.connecting || self.probing || self.rtt_on {
            return None;
        }
        let t = self.text(Msg::StartingRtt);
        self.rtt_on = true;
        self.log(t, LogLevel::Info);
        Some(WorkerCommand::RttStart)
    }

    /// The RTT stop button (shown while RTT runs).
    pub fn rtt_stop(&mut self) -> (cmd: Option<WorkerCommand>)
        ensures
            old(self).rtt_on ==> {
                &&& *final(self) == (ProbeUiApp { rtt_on: false, log: final(self).log, ..*old(self) })
                &&& logs(
                    old(self).log@,
                    final(self).log@,
                    item(LogLevel::Info, msg_text(old(self).lang, Msg::StoppingRtt)),
                )
                &&& cmd == Some(WorkerCommand::RttStop)
            },
            !old(self).rtt_on ==> *final(self) == *old(self) && cmd is None,
    {
        if !self.rtt_on {
            return None;
        }
        let t = self.text(Msg::StoppingRtt);
        self.rtt_on = false;
        self.log(t, LogLevel::Info);
        Some(WorkerCommand::RttStop)
    }

    /// Sends the typed line, trimmed and ended by a newline, to the chosen
    /// down channel, and empties the input.
    pub fn rtt_send(&mut self) -> (cmd: Option<WorkerCommand>)
        ensures
            can_send_rtt(*old(self)) ==> {
                &&& *final(self) == (ProbeUiApp {
                    rtt_down_input: final(self).rtt_down_input,
                    ..*old(self)
                })
                &&& final(self).rtt_down_input@.len() == 0
                &&& cmd matches Some(WorkerCommand::RttWrite { channel, data })
                &&& channel == old(self).rtt_send_channel
                &&& data@ == encode_utf8(trim(old(self).rtt_down_input@).push('\n'))
            },
            !can_send_rtt(*old(self)) ==> *final(self) == *old(self) && cmd is None,
    {
        if !self.rtt_on || is_blank(self.rtt_down_input.as_str()) {
            return None;
        }
        let mut line = trim_chars(&chars_of(self.rtt_down_input.as_str()));
        line.push('\n');
        let text = string_of(&line);
        let data = text.as_str().as_bytes_vec();
        self.rtt_down_input = String::new();
        Some(WorkerCommand::RttWrite { channel: self.rtt_send_channel, data })
    }
}

// ---------------------------------------------------------------------------
// Memory viewer
// ---------------------------------------------------------------------------

/// `len` kept within 1 ..= [`MAX_MEM_READ`].
pub open spec fn clamped_len(len: usize) -> usize {
    if len < 1 {
        1
    } else if len > MAX_MEM_READ {
        MAX_MEM_READ
    } else {
        len
    }
}

/// The log lines of a memory read of `len` bytes (before clamping) at
/// `start`: the clamping, if any, then the read, with the address in hex.
pub open spec fn read_items(lang: crate::i18n::Lang, start: u64, len: usize) -> Seq<(LogLevel, Seq<char>)> {
    let n = clamped_len(len);
    (if n != len {
        item(LogLevel::Warn, message(lang, Msg::ReadLenClamped, seq![decimal(n as nat)]))
    } else {
        no_items()
    }) + item(
        LogLevel::Info,
        message(lang, Msg::ReadingMemory, seq![hex_upper(start as nat), decimal(n as nat)]),
    )
}

/// Only the log changed: `items` were appended.
#[verifier::opaque]
pub open spec fn only_logged(old: ProbeUiApp, new: ProbeUiApp, items: Seq<(LogLevel, Seq<char>)>) -> bool {
    &&& new == ProbeUiApp { log: new.log, ..old }
    &&& logs(old.log@, new.log@, items)
}

/// A memory read starts.
#[verifier::opaque]
pub open spec fn memory_read_begun(old: ProbeUiApp, new: ProbeUiApp, cmd: WorkerCommand) -> bool {
    &&& new == ProbeUiApp { mem_len: clamped_len(old.mem_len), mem_busy: true, log: new.log, ..old }
    &&& logs(old.log@, new.log@, read_items(old.lang, old.mem_start, old.mem_len))
    &&& cmd == WorkerCommand::MemoryRead { start: old.mem_start, len: clamped_len(old.mem_len) }
}

/// A memory write of `bytes` starts.
#[verifier::opaque]
pub open spec fn memory_write_begun(old: ProbeUiApp, new: ProbeUiApp, bytes: Seq<u8>, cmd: WorkerCommand) -> bool {
    &&& new == ProbeUiApp { mem_busy: true, log: new.log, ..old }
    &&& logs(
        old.log@,
        new.log@,
        item(
            LogLevel::Info,
            message(
                old.lang,
                Msg::WritingMemory,
                seq![hex_upper(old.mem_write_start as nat), decimal(bytes.len())],
            ),
        ),
    )
    &&& cmd matches WorkerCommand::MemoryWrite { start, data }
    &&& start == old.mem_write_start
    &&& data@ == bytes
}

/// The log entries of a memory read.
fn read_log(lang: crate::i18n::Lang, start: u64, len: usize) -> (v: Vec<LogEntry>)
    ensures
        entries_items(v@) == read_items(lang, start, len),
{
    let n = if len < 1 {
        1
    } else if len > MAX_MEM_READ {
        MAX_MEM_READ
    } else {
        len
    };
    let mut v: Vec<LogEntry> = Vec::new();
    assert(entries_items(v@) =~= no_items());
    if n != len {
        let mut args: Vec<String> = Vec::new();
        args.push(decimal_text(n as u64));
        assert(crate::text::views(args@) =~= seq![decimal(n as nat)]);
        note(&mut v, LogLevel::Warn, crate::i18n::fill(lang.tr(Msg::ReadLenClamped), args.as_slice()));
    }
    let mut args: Vec<String> = Vec::new();
    args.push(hex_text(start));
    args.push(decimal_text(n as u64));
    assert(crate::text::views(args@) =~= seq![hex_upper(start as nat), decimal(n as nat)]);
    note(&mut v, LogLevel::Info, crate::i18n::fill(lang.tr(Msg::ReadingMemory), args.as_slice()));
    assert(entries_items(v@) =~= read_items(lang, start, len));
    v
}

impl ProbeUiApp {
    /// Whether the memory viewer's read and write buttons are enabled.
    pub fn memory_enabled(&self) -> (r: bool)
        ensures
            r == (self.connected is Some && !self.mem_busy && !self.busy),
    {
        self.connected.is_some() && !self.mem_busy && !self.busy
    }

    /// Reads memory from the start address: asks to connect first when no
    /// target is connected; the length is kept within 1 ..=
    /// [`MAX_MEM_READ`], saying so when it changes.
    pub fn read_memory(&mut self) -> (cmd: Option<WorkerCommand>)
        ensures
            old(self).connected is None ==> only_logged(
                *old(self),
                *final(self),
                item(LogLevel::Warn, msg_text(old(self).lang, Msg::ConnectFirst)),
            ) && cmd is None,
            old(self).connected is Some ==> (cmd matches Some(c) && memory_read_begun(
                *old(self),
                *final(self),
                c,
            )),
    {
        if self.connected.is_none() {
            self.ask_to_connect();
            None
        } else {
            Some(self.memory_read_started())
        }
    }

    /// Asks to connect first.
    fn ask_to_connect(&mut self)
        ensures
            only_logged(
                *old(self),
                *final(self),
                item(LogLevel::Warn, msg_text(old(self).lang, Msg::ConnectFirst)),
            ),
    {
        reveal(only_logged);
        let t = self.text(Msg::ConnectFirst);
        self.log(t, LogLevel::Warn);
    }

    fn memory_read_started(&mut self) -> (cmd: WorkerCommand)
        ensures
            memory_read_begun(*old(self), *final(self), cmd),
    {
        reveal(memory_read_begun);
        let len = if self.mem_len < 1 {
            1
        } else if self.mem_len > MAX_MEM_READ {
            MAX_MEM_READ
        } else {
            self.mem_len
        };
        let start = self.mem_start;
        let pending = read_log(self.lang, start, self.mem_len);
        self.mem_len = len;
        self.mem_busy = true;
        self.log_all(pending);
        WorkerCommand::MemoryRead { start, len }
    }

    /// Writes the typed bytes at the write address: refused when the text
    /// is not hex bytes; asks to connect first when no target is connected.
    pub fn write_memory(&mut self) -> (cmd: Option<WorkerCommand>)
        requires
            hex_input_ok(old(self).mem_write_input@),
        ensures
            parsed_hex(old(self).mem_write_input@) is None ==> only_logged(
                *old(self),
                *final(self),
                item(LogLevel::Error, msg_text(old(self).lang, Msg::InvalidHexData)),
            ) && cmd is None,
            parsed_hex(old(self).mem_write_input@) is Some && old(self).connected is None
                ==> only_logged(
                *old(self),
                *final(self),
                item(LogLevel::Warn, msg_text(old(self).lang, Msg::ConnectFirst)),
            ) && cmd is None,
            parsed_hex(old(self).mem_write_input@) is Some && old(self).connected is Some ==> (
            cmd matches Some(c) && memory_write_begun(
                *old(self),
                *final(self),
                parsed_hex(old(self).mem_write_input@)->0,
                c,
            )),
    {
        let parsed = parse_hex_bytes(self.mem_write_input.as_str());
        match parsed {
            None => {
                self.refuse_hex();
                None
            },
            Some(bytes) => if self.connected.is_none() {
                self.ask_to_connect();
                None
            } else {
                Some(self.memory_write_started(bytes))
            },
        }
    }

    /// Says that the typed text is not hex bytes.
    fn refuse_hex(&mut self)
        ensures
            only_logged(
                *old(self),
                *final(self),
                item(LogLevel::Error, msg_text(old(self).lang, Msg::InvalidHexData)),
            ),
    {
        reveal(only_logged);
        let t = self.text(Msg::InvalidHexData);
        self.log(t, LogLevel::Error);
    }

    fn memory_write_started(&mut self, bytes: Vec<u8>) -> (cmd: WorkerCommand)
        ensures
            memory_write_begun(*old(self), *final(self), bytes@, cmd),
    {
        reveal(memory_write_begun);
        let start = self.mem_write_start;
        let t = self.message2(Msg::WritingMemory, hex_text(start), decimal_text(bytes.len() as u64));
        self.mem_busy = true;
        self.log(t, LogLevel::Info);
        WorkerCommand::MemoryWrite { start, data: bytes }
    }

    /// A region of the memory map was picked: reading starts there, at most
    /// 1024 bytes of it; an empty region changes nothing.
    pub fn pick_region(&mut self, start: u64, end: u64)
        requires
            start <= end,
        ensures
            end > start ==> *final(self) == (ProbeUiApp {
                mem_start: start,
                mem_len: (if end - start < 1024 {
                    (end - start) as usize
                } else {
                    1024usize
                }),
                ..*old(self)
            }),
            end == start ==> *final(self) == *old(self),
    {
        let size = end - start;
        if size > 0 {
            self.mem_start = start;
            self.mem_len = if size < 1024 {
                size as usize
            } else {
                1024
            };
        }
    }
}

} // verus!
