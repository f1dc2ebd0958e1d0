//! The protocol between the interface and the background worker that owns
//! the probe session: commands, events and the data they carry, and the
//! worker's decisions that do not touch the hardware.

use vstd::prelude::*;

use crate::firmware::FirmwareCandidate;
use crate::i18n::fill;
use crate::i18n::filled;
use crate::i18n::msg_text;
use crate::i18n::Lang;
use crate::i18n::Msg;
use crate::text::chars_of;
use crate::text::decimal;
use crate::text::decimal_text;
use crate::text::hex_text;
use crate::text::hex_upper;
use crate::text::owned;
use crate::text::push_char;
use crate::text::push_chars;
use crate::text::seq_eq;
use crate::text::str_eq;
use crate::text::views;

verus! {

/// A debug probe as the interface lists it.
#[derive(Clone)]
pub struct ProbeInfo {
    pub identifier: String,
    pub serial_number: Option<String>,
    pub probe_type: String,
    pub index: usize,
}

/// One region of the target's memory map.
#[derive(Clone)]
pub struct MemRegionInfo {
    pub kind: &'static str,
    pub start: u64,
    pub end: u64,
}

/// What the interface shows of a connected target.
#[derive(Clone)]
pub struct TargetSummary {
    pub name: String,
    pub architecture: String,
    pub cores: Vec<(usize, String)>,
    pub memory: Vec<MemRegionInfo>,
}

/// A chip description file that was loaded: its family and the variants.
#[derive(Clone)]
pub struct ChipFileInfo {
    pub family_name: String,
    pub chips: Vec<String>,
}

/// One family produced from a CMSIS pack.
#[derive(Clone)]
pub struct TargetGenFamilyInfo {
    pub name: String,
    pub variant_count: usize,
    pub output_file: String,
}

/// The families produced from a CMSIS pack, and those loaded into the
/// registry for selection.
#[derive(Clone)]
pub struct TargetGenResult {
    pub families: Vec<TargetGenFamilyInfo>,
    pub loaded: Vec<ChipFileInfo>,
}

/// State of a progress bar.
#[derive(Clone, Copy, PartialEq, Eq, Debug, Structural)]
pub enum OpState {
    Active,
    Done,
    Failed,
}

/// How to attach to the target (the STM32 BOOT0/BOOT1 scenarios).
#[derive(Clone, Copy, PartialEq, Eq, Debug, Structural)]
pub enum BootMode {
    /// Attach normally, booting from main flash (BOOT0 = 0).
    Normal,
    /// Hold the target in reset until the protocol is up: for firmware that
    /// disturbs SWD, or booting from system memory with BOOT0 high.
    UnderReset,
}

/// Commands that the interface sends to the worker.
pub enum WorkerCommand {
    Scan,
    ConnectAuto { probe: usize, boot_mode: BootMode },
    ConnectManual { probe: usize, target: String, boot_mode: BootMode },
    Flash {
        path: String,
        do_chip_erase: bool,
        verify: bool,
        keep_unwritten_bytes: bool,
        reset_after: bool,
        bin_base: u64,
    },
    EraseAll,
    ReadFlash { path: String, start: u64, end: u64 },
    MemoryRead { start: u64, len: usize },
    MemoryWrite { start: u64, data: Vec<u8> },
    Reset,
    Disconnect,
    Shutdown,
    ScanFirmware { root: String },
    LoadChipFile { path: String },
    GeneratePack { path: String },
    TargetGenGenerate {
        /// A .pack / .pdsc / .zip file or an unpacked directory.
        input: String,
        /// Where to write the generated YAML targets (empty: nowhere).
        output_dir: String,
        /// Keep only the families that probe-rs supports.
        only_supported: bool,
        /// Load the generated families into the registry.
        auto_load: bool,
    },
    SetLang(Lang),
    RttStart,
    RttStop,
    RttWrite { channel: usize, data: Vec<u8> },
}

/// Events that the worker reports to the interface.
pub enum WorkerEvent {
    Probes(Result<Vec<ProbeInfo>, String>),
    Connected(Result<TargetSummary, String>),
    Status(String),
    Diagnostic(String),
    Progress { operation: &'static str, done: u64, total: Option<u64>, state: OpState },
    OperationDone(Result<(), String>),
    FirmwareScanned { root: String, candidates: Vec<FirmwareCandidate>, best: Option<usize> },
    ChipFileLoaded(Result<ChipFileInfo, String>),
    PackGenerated(Result<Vec<ChipFileInfo>, String>),
    TargetGenDone(Result<TargetGenResult, String>),
    RttData { channel: usize, data: Vec<u8> },
    RttStarted { up_channels: usize, down_channels: usize },
    RttStopped,
    MemoryRead(Result<Vec<u8>, String>),
    MemoryWrite(Result<(), String>),
}

/// The standard channel ends (`std::sync::mpsc`) between interface and
/// worker; Verus sees them as opaque values.
#[verifier::external_type_specification]
#[verifier::external_body]
#[verifier::reject_recursive_types(T)]
pub struct ExSender<T>(std::sync::mpsc::Sender<T>);

#[verifier::external_type_specification]
#[verifier::external_body]
#[verifier::reject_recursive_types(T)]
pub struct ExReceiver<T>(std::sync::mpsc::Receiver<T>);

/// The interface's ends of the two channels to a running worker.
pub struct Worker {
    pub sender: std::sync::mpsc::Sender<WorkerCommand>,
    pub receiver: std::sync::mpsc::Receiver<WorkerEvent>,
}

// ---------------------------------------------------------------------------
// Flash progress
// ---------------------------------------------------------------------------

/// A step of a flash operation.
#[derive(Clone, Copy, PartialEq, Eq, Debug, Structural)]
pub enum FlashOperation {
    Erase,
    Program,
    Verify,
    Fill,
}

/// A progress report from the flash loader (the fields that the interface
/// uses).
pub enum FlashEvent {
    LayoutReady,
    AddProgressBar { operation: FlashOperation, total: Option<u64> },
    Started(FlashOperation),
    Progress { operation: FlashOperation, size: u64 },
    Failed(FlashOperation),
    Finished(FlashOperation),
    Diagnostic { message: String },
}

/// The message that names a flash step.
pub open spec fn op_msg(op: FlashOperation) -> Msg {
    match op {
        FlashOperation::Erase => Msg::EraseLabel,
        FlashOperation::Program => Msg::ProgramLabel,
        FlashOperation::Verify => Msg::VerifyLabel,
        FlashOperation::Fill => Msg::FillLabel,
    }
}

/// The localized label of a flash step.
pub fn op_label(op: FlashOperation, lang: Lang) -> (s: &'static str)
    ensures
        s@ == msg_text(lang, op_msg(op)),
{
    match op {
        FlashOperation::Erase => lang.tr(Msg::EraseLabel),
        FlashOperation::Program => lang.tr(Msg::ProgramLabel),
        FlashOperation::Verify => lang.tr(Msg::VerifyLabel),
        FlashOperation::Fill => lang.tr(Msg::FillLabel),
    }
}

/// The text of `msg` with `args` in its placeholders.
pub open spec fn message(lang: Lang, msg: Msg, args: Seq<Seq<char>>) -> Seq<char> {
    filled(msg_text(lang, msg), args)
}

/// The event that reports a flash-loader progress report to the interface.
pub open spec fn progress_event_ok(ev: FlashEvent, lang: Lang, out: WorkerEvent) -> bool {
    match ev {
        FlashEvent::LayoutReady => out matches WorkerEvent::Status(s) && s@ == msg_text(
            lang,
            Msg::LayoutParsed,
        ),
        FlashEvent::AddProgressBar { operation, total } => out matches WorkerEvent::Progress {
            operation: label,
            done,
            total: t,
            state,
        } && label@ == msg_text(lang, op_msg(operation)) && done == 0 && t == total && state
            == OpState::Active,
        FlashEvent::Started(operation) => out matches WorkerEvent::Status(s) && s@ == message(
            lang,
            Msg::StartingOp,
            seq![msg_text(lang, op_msg(operation))],
        ),
        FlashEvent::Progress { operation, size } => out matches WorkerEvent::Progress {
            operation: label,
            done,
            total,
            state,
        } && label@ == msg_text(lang, op_msg(operation)) && done == size && total is None && state
            == OpState::Active,
        FlashEvent::Failed(operation) => out matches WorkerEvent::Progress {
            operation: label,
            done,
            total,
            state,
        } && label@ == msg_text(lang, op_msg(operation)) && done == 0 && total is None && state
            == OpState::Failed,
        FlashEvent::Finished(operation) => out matches WorkerEvent::Progress {
            operation: label,
            done,
            total,
            state,
        } && label@ == msg_text(lang, op_msg(operation)) && done == 0 && total is None && state
            == OpState::Done,
        FlashEvent::Diagnostic { message } => out matches WorkerEvent::Diagnostic(m) && m@
            == message@,
    }
}

/// Maps a flash-loader progress report to the event that the interface shows
/// (every report has one).
pub fn map_progress(event: FlashEvent, lang: Lang) -> (out: Option<WorkerEvent>)
    ensures
        out matches Some(e) && progress_event_ok(event, lang, e),
{
    let ghost ev = event;
    match event {
        FlashEvent::LayoutReady => Some(WorkerEvent::Status(owned(lang.tr(Msg::LayoutParsed)))),
        FlashEvent::AddProgressBar { operation, total } => Some(
            WorkerEvent::Progress {
                operation: op_label(operation, lang),
                done: 0,
                total,
                state: OpState::Active,
            },
        ),
        FlashEvent::Started(operation) => {
            let args = vec![owned(op_label(operation, lang))];
            let s = fill(lang.tr(Msg::StartingOp), args.as_slice());
            proof {
                assert(views(args@) =~= seq![msg_text(lang, op_msg(operation))]);
            }
            Some(WorkerEvent::Status(s))
        },
        FlashEvent::Progress { operation, size } => Some(
            WorkerEvent::Progress {
                operation: op_label(operation, lang),
                done: size,
                total: None,
                state: OpState::Active,
            },
        ),
        FlashEvent::Failed(operation) => Some(
            WorkerEvent::Progress {
                operation: op_label(operation, lang),
                done: 0,
                total: None,
                state: OpState::Failed,
            },
        ),
        FlashEvent::Finished(operation) => Some(
            WorkerEvent::Progress {
                operation: op_label(operation, lang),
                done: 0,
                total: None,
                state: OpState::Done,
            },
        ),
        FlashEvent::Diagnostic { message } => Some(WorkerEvent::Diagnostic(message)),
    }
}

// ---------------------------------------------------------------------------
// Worker decisions
// ---------------------------------------------------------------------------

/// The error of every operation that needs a connected target.
pub fn not_connected(lang: Lang) -> (s: String)
    ensures
        s@ == msg_text(lang, Msg::NotConnectedErr),
{
    owned(lang.tr(Msg::NotConnectedErr))
}

/// Whether a command stops a running RTT session first, and the notice
/// that says so: `Some(Some(msg))` stops with a notice, `Some(None)` stops
/// silently, `None` leaves RTT running.
pub open spec fn rtt_stop_rule(cmd: WorkerCommand) -> Option<Option<Msg>> {
    match cmd {
        WorkerCommand::ConnectAuto { .. } => Some(Some(Msg::RttStoppedReconnect)),
        WorkerCommand::ConnectManual { .. } => Some(Some(Msg::RttStoppedReconnect)),
        WorkerCommand::Flash { .. } => Some(Some(Msg::RttStoppedFlash)),
        WorkerCommand::EraseAll => Some(Some(Msg::RttStoppedErase)),
        WorkerCommand::ReadFlash { .. } => Some(Some(Msg::RttStoppedRead)),
        WorkerCommand::Disconnect => Some(None),
        WorkerCommand::RttStop => Some(Some(Msg::RttStoppedManual)),
        _ => None,
    }
}

/// See [`rtt_stop_rule`].
pub fn rtt_stop_notice(cmd: &WorkerCommand) -> (r: Option<Option<Msg>>)
    ensures
        r == rtt_stop_rule(*cmd),
{
    match cmd {
        WorkerCommand::ConnectAuto { .. } => Some(Some(Msg::RttStoppedReconnect)),
        WorkerCommand::ConnectManual { .. } => Some(Some(Msg::RttStoppedReconnect)),
        WorkerCommand::Flash { .. } => Some(Some(Msg::RttStoppedFlash)),
        WorkerCommand::EraseAll => Some(Some(Msg::RttStoppedErase)),
        WorkerCommand::ReadFlash { .. } => Some(Some(Msg::RttStoppedRead)),
        WorkerCommand::Disconnect => Some(None),
        WorkerCommand::RttStop => Some(Some(Msg::RttStoppedManual)),
        _ => None,
    }
}

/// The events that stopping RTT sends: nothing when no session was running;
/// otherwise `RttStopped`, then the notice if there is one.
pub fn rtt_stop_events(was_running: bool, notice: Option<Msg>, lang: Lang) -> (evs: Vec<WorkerEvent>)
    ensures
        !was_running ==> evs@.len() == 0,
        was_running ==> evs@.len() == (if notice is Some { 2int } else { 1int }) && evs@[0] is RttStopped,
        was_running ==> (notice matches Some(m) ==> (evs@[1] matches WorkerEvent::Status(s) && s@
            == msg_text(lang, m))),
{
    let mut evs: Vec<WorkerEvent> = Vec::new();
    if was_running {
        evs.push(WorkerEvent::RttStopped);
        if let Some(m) = notice {
            evs.push(WorkerEvent::Status(owned(lang.tr(m))));
        }
    }
    evs
}

/// The status that a write to an RTT down channel reports: `Ok(n)` is the
/// number of bytes the target took, `Err(e)` the probe's error text, and
/// `None` a missing channel.
pub fn rtt_write_status(outcome: Option<Result<usize, String>>, len: usize, lang: Lang) -> (s: Option<
    String,
>)
    ensures
        match outcome {
            None => s matches Some(t) && t@ == msg_text(lang, Msg::RttNoDownChannel),
            Some(Ok(n)) => if n < len {
                s matches Some(t) && t@ == msg_text(lang, Msg::RttDownBufferFull)
            } else {
                s is None
            },
            Some(Err(e)) => s matches Some(t) && t@ == message(lang, Msg::RttDownWriteFailed, seq![e@]),
        },
{
    match outcome {
        None => Some(owned(lang.tr(Msg::RttNoDownChannel))),
        Some(Ok(n)) => if n < len {
            Some(owned(lang.tr(Msg::RttDownBufferFull)))
        } else {
            None
        },
        Some(Err(e)) => {
            let args = vec![e];
            let t = fill(lang.tr(Msg::RttDownWriteFailed), args.as_slice());
            proof {
                assert(views(args@) =~= seq![args@[0]@]);
            }
            Some(t)
        },
    }
}

/// How the flash loader reads a firmware file.
#[derive(Clone, Copy, PartialEq, Eq, Debug, Structural)]
pub enum LoaderKind {
    Elf,
    Hex,
    Bin,
    Uf2,
}

/// The loader for a file with lower-case extension `ext` (empty when the
/// file has none); `elf_magic` says whether the file starts with the ELF
/// magic number, which decides for files without an extension.
pub open spec fn loader_rule(ext: Seq<char>, elf_magic: bool) -> Option<LoaderKind> {
    if ext == "elf"@ || ext == "axf"@ || (ext.len() == 0 && elf_magic) {
        Some(LoaderKind::Elf)
    } else if ext == "hex"@ {
        Some(LoaderKind::Hex)
    } else if ext == "bin"@ {
        Some(LoaderKind::Bin)
    } else if ext == "uf2"@ {
        Some(LoaderKind::Uf2)
    } else {
        None
    }
}

/// Chooses the loader for a firmware file, or the error for a format that
/// is not supported.
pub fn choose_loader(ext: &str, elf_magic: bool, lang: Lang) -> (r: Result<LoaderKind, String>)
    ensures
        match loader_rule(ext@, elf_magic) {
            Some(k) => r == Ok::<LoaderKind, String>(k),
            None => r matches Err(e) && e@ == message(lang, Msg::UnsupportedFileFormat, seq![ext@]),
        },
{
    let e = chars_of(ext);
    if str_eq(ext, "elf") || str_eq(ext, "axf") || (e.len() == 0 && elf_magic) {
        Ok(LoaderKind::Elf)
    } else if str_eq(ext, "hex") {
        Ok(LoaderKind::Hex)
    } else if str_eq(ext, "bin") {
        Ok(LoaderKind::Bin)
    } else if str_eq(ext, "uf2") {
        Ok(LoaderKind::Uf2)
    } else {
        let args = vec![owned(ext)];
        let t = fill(lang.tr(Msg::UnsupportedFileFormat), args.as_slice());
        proof {
            assert(views(args@) =~= seq![ext@]);
        }
        Err(t)
    }
}

/// Size of the blocks in which flash is read back to a file.
pub const READ_CHUNK: u64 = 4096;

/// The next block to read when `remaining` bytes are left.
pub fn next_chunk(remaining: u64) -> (n: u64)
    ensures
        n == (if remaining < READ_CHUNK { remaining } else { READ_CHUNK }),
{
    if remaining < READ_CHUNK {
        remaining
    } else {
        READ_CHUNK
    }
}

/// The status that announces reading flash `start..end` back to a file.
pub fn reading_firmware_status(start: u64, end: u64, lang: Lang) -> (s: String)
    ensures
        s@ == message(
            lang,
            Msg::ReadingFirmware,
            seq![
                hex_upper(start as nat),
                hex_upper(end as nat),
                decimal((if end > start { (end - start) as nat } else { 0nat }) / 1024),
            ],
        ),
{
    let total = if end > start {
        end - start
    } else {
        0
    };
    let args = vec![hex_text(start), hex_text(end), decimal_text(total / 1024)];
    let t = fill(lang.tr(Msg::ReadingFirmware), args.as_slice());
    proof {
        assert(views(args@) =~= seq![
            hex_upper(start as nat),
            hex_upper(end as nat),
            decimal((if end > start { (end - start) as nat } else { 0nat }) / 1024),
        ]);
    }
    t
}

/// The label of a memory region kind.
#[derive(Clone, Copy, PartialEq, Eq, Debug, Structural)]
pub enum RegionKind {
    Ram,
    Nvm,
    Generic,
}

/// The label that the interface shows for a region kind.
pub fn region_kind_label(kind: RegionKind) -> (s: &'static str)
    ensures
        s@ == (match kind {
            RegionKind::Ram => "RAM"@,
            RegionKind::Nvm => "FLASH"@,
            RegionKind::Generic => "Generic"@,
        }),
{
    match kind {
        RegionKind::Ram => "RAM",
        RegionKind::Nvm => "FLASH",
        RegionKind::Generic => "Generic",
    }
}

// ---------------------------------------------------------------------------
// Packs
// ---------------------------------------------------------------------------

/// The file name under which a generated family is written: the family
/// name with spaces replaced by underscores, then `.yaml`.
pub open spec fn yaml_file_name(family: Seq<char>) -> Seq<char> {
    family.map_values(|c: char| if c == ' ' { '_' } else { c }) + ".yaml"@
}

/// See [`yaml_file_name`].
pub fn target_file_name(family: &str) -> (s: String)
    ensures
        s@ == yaml_file_name(family@),
{
    let f = chars_of(family);
    let mut s = String::new();
    let mut i: usize = 0;
    while i < f.len()
        invariant
            i <= f.len(),
            s@ == f@.take(i as int).map_values(|c: char| if c == ' ' { '_' } else { c }),
        decreases f.len() - i,
    {
        let c = f[i];
        push_char(&mut s, if c == ' ' { '_' } else { c });
        i = i + 1;
        assert(s@ =~= f@.take(i as int).map_values(|c: char| if c == ' ' { '_' } else { c }));
    }
    let ext = chars_of(".yaml");
    push_chars(&mut s, &ext, 0, ext.len());
    assert(f@.take(f@.len() as int) =~= f@);
    assert(ext@.subrange(0, ext@.len() as int) =~= ext@);
    s
}

/// The indices, ascending, of the families in `names` that occur in
/// `supported` (the "only supported families" filter).
pub open spec fn supported_positions(names: Seq<Seq<char>>, supported: Seq<Seq<char>>, n: int) -> Seq<
    usize,
>
    decreases n,
{
    if n <= 0 {
        seq![]
    } else if supported.contains(names[n - 1]) {
        supported_positions(names, supported, n - 1).push((n - 1) as usize)
    } else {
        supported_positions(names, supported, n - 1)
    }
}

/// Keeps the families whose name probe-rs supports built in.
pub fn supported_indices(names: &Vec<String>, supported: &Vec<String>) -> (r: Vec<usize>)
    ensures
        r@ == supported_positions(views(names@), views(supported@), names@.len() as int),
{
    let ghost sv = views(supported@);
    let mut r: Vec<usize> = Vec::new();
    let mut i: usize = 0;
    while i < names.len()
        invariant
            i <= names.len(),
            sv == views(supported@),
            r@ == supported_positions(views(names@), sv, i as int),
        decreases names.len() - i,
    {
        let key = chars_of(names[i].as_str());
        let mut j: usize = 0;
        let mut found = false;
        while j < supported.len() && !found
            invariant
                j <= supported.len(),
                sv == views(supported@),
                found ==> sv.contains(key@),
                !found ==> forall|k: int| 0 <= k < j ==> sv[k] != key@,
            decreases supported.len() - j + (if found { 0int } else { 1int }),
        {
            if seq_eq(&chars_of(supported[j].as_str()), &key) {
                found = true;
                assert(sv[j as int] == key@);
            } else {
                j = j + 1;
            }
        }
        assert(views(names@)[i as int] == key@);
        if found {
            r.push(i);
        }
        i = i + 1;
    }
    r
}

// ---------------------------------------------------------------------------
// Connecting
// ---------------------------------------------------------------------------

/// What the worker does next while connecting to a target.
pub enum ConnectAction {
    /// Open the probe again and attach in this mode.
    Attach(BootMode),
    /// Give up, reporting this message.
    Fail(String),
}

/// The other attach mode, tried when detecting the chip in one mode failed.
pub open spec fn other_mode(m: BootMode) -> BootMode {
    match m {
        BootMode::Normal => BootMode::UnderReset,
        BootMode::UnderReset => BootMode::Normal,
    }
}

/// The message that ends a failed chip detection begun in mode `boot`.
pub open spec fn detect_failure_msg(boot: BootMode) -> Msg {
    match boot {
        BootMode::Normal => Msg::AutoDetectFailed,
        BootMode::UnderReset => Msg::UnderResetFailed,
    }
}

/// The message when no probe is listed at `index`.
pub fn no_probe_at(lang: Lang, index: usize) -> (s: String)
    ensures
        s@ == message(lang, Msg::NoProbeIndex, seq![decimal(index as nat)]),
{
    let args = vec![decimal_text(index as u64)];
    proof {
        assert(views(args@) =~= seq![decimal(index as nat)]);
    }
    fill(lang.tr(Msg::NoProbeIndex), args.as_slice())
}

/// The message when the probe cannot be opened, with the probe's `error`.
pub fn probe_open_failed(lang: Lang, error: String) -> (s: String)
    ensures
        s@ == message(lang, Msg::OpenProbeFailed, seq![error@]),
{
    let args = vec![error];
    proof {
        assert(views(args@) =~= seq![error@]);
    }
    fill(lang.tr(Msg::OpenProbeFailed), args.as_slice())
}

/// A connection begins by attaching in the chosen boot mode.
pub fn connect_first(boot: BootMode) -> (a: ConnectAction)
    ensures
        a matches ConnectAction::Attach(m) && m == boot,
{
    ConnectAction::Attach(boot)
}

/// What follows a failed attach. With a named target the connection fails
/// at once, naming the target. When the chip is being detected, the first
/// failure leads to one more attach in the other mode, and a failure after
/// that ends the connection, reporting the error of the first attach.
/// `retried` says whether the other mode was tried already, `first_error`
/// is the error of the first attach.
pub fn after_attach_failure(
    lang: Lang,
    target: &Option<String>,
    boot: BootMode,
    retried: bool,
    first_error: String,
) -> (a: ConnectAction)
    ensures
        match target {
            Some(name) => a matches ConnectAction::Fail(m) && m@ == message(
                lang,
                Msg::ConnectTargetFailed,
                seq![name@, first_error@],
            ),
            None => if !retried {
                a matches ConnectAction::Attach(m) && m == other_mode(boot)
            } else {
                a matches ConnectAction::Fail(m) && m@ == message(
                    lang,
                    detect_failure_msg(boot),
                    seq![first_error@],
                )
            },
        },
{
    match target {
        Some(name) => {
            let args = vec![name.clone(), first_error];
            proof {
                assert(views(args@) =~= seq![name@, first_error@]);
            }
            ConnectAction::Fail(fill(lang.tr(Msg::ConnectTargetFailed), args.as_slice()))
        },
        None => {
            if !retried {
                ConnectAction::Attach(
                    match boot {
                        BootMode::Normal => BootMode::UnderReset,
                        BootMode::UnderReset => BootMode::Normal,
                    },
                )
            } else {
                let m = match boot {
                    BootMode::Normal => Msg::AutoDetectFailed,
                    BootMode::UnderReset => Msg::UnderResetFailed,
                };
                let args = vec![first_error];
                proof {
                    assert(views(args@) =~= seq![first_error@]);
                }
                ConnectAction::Fail(fill(lang.tr(m), args.as_slice()))
            }
        },
    }
}

} // verus!
