//! The interface's state and what its controls decide: every field that the
//! panels show or edit, the operation log, the settings that persist, and the
//! commands that the buttons send to the worker.  Drawing stays with the
//! windowing layer; each control calls one of these methods and sends the
//! command it returns.

use vstd::prelude::*;

use crate::chips::builtin_chip_families;
use crate::chips::ends_with_generic;
use crate::chips::lists_generic_families;
use crate::chips::GENERIC_FAMILY_COUNT;
use crate::chips::family_list_of;
use crate::chips::FamilyRecord;
use crate::chips::group_brands;
use crate::chips::is_brand_grouping;
use crate::chips::ChipBrandInfo;
use crate::chips::ChipFamilyInfo;
use crate::config::same_config;
use crate::config::is_canonical;
use crate::config::AppConfig;
use crate::firmware::FirmwareCandidate;
use crate::i18n::fill;
use crate::i18n::msg_text;
use crate::i18n::Lang;
use crate::i18n::Msg;
use crate::text::decimal;
use crate::text::decimal_text;
use crate::text::is_blank;
use crate::text::owned;
use crate::text::str_eq;
use crate::text::trim;
use crate::text::views;
use crate::worker::message;
use crate::worker::BootMode;
use crate::worker::OpState;
use crate::worker::ProbeInfo;
use crate::worker::TargetGenResult;
use crate::worker::TargetSummary;
use crate::worker::WorkerCommand;

verus! {

/// The log keeps this many entries, dropping the oldest.
pub const LOG_CAP: usize = 800;

/// The memory viewer reads at most this many bytes at once.
pub const MAX_MEM_READ: usize = 262144;

/// Severity of a log entry.
#[derive(Clone, Copy, PartialEq, Eq, Debug, Structural)]
pub enum LogLevel {
    Info,
    Success,
    Warn,
    Error,
}

/// One entry of the operation log.
pub struct LogEntry {
    pub text: String,
    pub level: LogLevel,
}

/// One progress bar of a running operation.
pub struct OpBar {
    pub label: String,
    pub done: u64,
    pub total: Option<u64>,
    pub state: OpState,
}

/// Theme choice.
#[derive(Clone, Copy, PartialEq, Eq, Debug, Structural)]
pub enum ThemeMode {
    /// Follow the system's dark or light theme.
    System,
    Light,
    Dark,
}

/// The view of the central panel.
#[derive(Clone, Copy, PartialEq, Eq, Debug, Structural)]
pub enum CentralTab {
    Flash,
    Memory,
    Rtt,
}

/// Everything the interface shows and edits.
pub struct ProbeUiApp {
    pub lang: Lang,
    pub theme_mode: ThemeMode,
    pub probes: Vec<ProbeInfo>,
    pub selected_probe: usize,
    pub probing: bool,
    pub connecting: bool,
    pub boot_mode: BootMode,
    pub connected: Option<TargetSummary>,
    pub manual_target: String,
    pub chip_families: Vec<ChipFamilyInfo>,
    pub chip_brands: Vec<ChipBrandInfo>,
    pub selected_brand: Option<usize>,
    pub selected_family: Option<usize>,
    pub chip_search: String,
    pub show_manual: bool,
    pub file_path: String,
    pub chip_erase: bool,
    pub verify: bool,
    pub keep_unwritten: bool,
    pub reset_after: bool,
    pub firmware_root: String,
    pub firmware_candidates: Vec<FirmwareCandidate>,
    pub firmware_scanning: bool,
    pub read_start: u64,
    pub read_end: u64,
    pub bin_base: u64,
    pub busy: bool,
    pub op_bars: Vec<OpBar>,
    pub log: Vec<LogEntry>,
    pub rtt_on: bool,
    pub rtt_up_channels: usize,
    pub rtt_down_channels: usize,
    pub rtt_view_channel: Option<usize>,
    pub rtt_send_channel: usize,
    pub rtt_buf: String,
    pub rtt_autoscroll: bool,
    pub rtt_down_input: String,
    pub central_tab: CentralTab,
    pub mem_start: u64,
    pub mem_len: usize,
    pub mem_data: Vec<u8>,
    pub mem_read_addr: u64,
    pub mem_busy: bool,
    pub mem_write_start: u64,
    pub mem_write_input: String,
    pub tg_input: String,
    pub tg_output_dir: String,
    pub tg_only_supported: bool,
    pub tg_busy: bool,
    pub tg_result: Option<TargetGenResult>,
    /// Connect to the first generated chip once generation is done.
    pub tg_auto_connect: bool,
}

// ---------------------------------------------------------------------------
// The log
// ---------------------------------------------------------------------------

/// `new` is the log `old` after appending `items` (level and text, in order)
/// and dropping the oldest entries beyond [`LOG_CAP`].
pub open spec fn logs(old: Seq<LogEntry>, new: Seq<LogEntry>, items: Seq<(LogLevel, Seq<char>)>) -> bool {
    let total = (old.len() + items.len()) as int;
    let keep = if total > LOG_CAP {
        LOG_CAP as int
    } else {
        total
    };
    &&& new.len() == keep
    &&& forall|k: int|
        0 <= k < keep ==> {
            let g = total - keep + k;
            if g < old.len() {
                #[trigger] new[k] == old[g]
            } else {
                new[k].level == items[g - old.len()].0 && new[k].text@ == items[g - old.len()].1
            }
        }
}

/// Appending in two steps appends the concatenation.
pub proof fn lemma_logs_compose(
    a: Seq<LogEntry>,
    b: Seq<LogEntry>,
    c: Seq<LogEntry>,
    x: Seq<(LogLevel, Seq<char>)>,
    y: Seq<(LogLevel, Seq<char>)>,
)
    requires
        logs(a, b, x),
        logs(b, c, y),
    ensures
        logs(a, c, x + y),
{
    let xy = x + y;
    let t1 = (a.len() + x.len()) as int;
    let k1 = if t1 > LOG_CAP { LOG_CAP as int } else { t1 };
    let t2 = (b.len() + y.len()) as int;
    let k2 = if t2 > LOG_CAP { LOG_CAP as int } else { t2 };
    let t = (a.len() + xy.len()) as int;
    let kk = if t > LOG_CAP { LOG_CAP as int } else { t };
    assert(k2 == kk);
    assert forall|k: int| 0 <= k < kk implies {
        let g = t - kk + k;
        if g < a.len() {
            #[trigger] c[k] == a[g]
        } else {
            c[k].level == xy[g - a.len()].0 && c[k].text@ == xy[g - a.len()].1
        }
    } by {
        let g2 = t2 - k2 + k;
        if g2 < b.len() {
            assert(c[k] == b[g2]);
            let g1 = t1 - k1 + g2;
            assert(g1 == t - kk + k);
            if g1 < a.len() {
                assert(b[g2] == a[g1]);
            } else {
                assert(xy[g1 - a.len()] == x[g1 - a.len()]);
            }
        } else {
            assert(xy[t - kk + k - a.len()] == y[g2 - b.len()]);
        }
    }
}

/// The log never holds more than [`LOG_CAP`] entries, and keeps the newest.
pub proof fn lemma_log_capped(old: Seq<LogEntry>, new: Seq<LogEntry>, items: Seq<(LogLevel, Seq<char>)>)
    requires
        logs(old, new, items),
    ensures
        new.len() <= LOG_CAP,
        items.len() > 0 ==> new.last().text@ == items.last().1 && new.last().level == items.last().0,
{
    if items.len() > 0 {
        let total = (old.len() + items.len()) as int;
        let keep = if total > LOG_CAP { LOG_CAP as int } else { total };
        assert(new[keep - 1].text@ == items[items.len() - 1].1);
    }
}

/// The level and text of each entry.
pub open spec fn entries_items(entries: Seq<LogEntry>) -> Seq<(LogLevel, Seq<char>)> {
    entries.map_values(|e: LogEntry| (e.level, e.text@))
}

/// Adds an entry to a list of entries waiting to be logged.
pub fn note(pending: &mut Vec<LogEntry>, level: LogLevel, text: String)
    ensures
        entries_items(final(pending)@) == entries_items(old(pending)@) + item(level, text@),
{
    let ghost t = text@;
    pending.push(LogEntry { text, level });
    assert(entries_items(pending@) =~= entries_items(old(pending)@) + item(level, t));
}

/// Nothing appended.
pub open spec fn no_items() -> Seq<(LogLevel, Seq<char>)> {
    Seq::empty()
}

/// One appended entry.
pub open spec fn item(level: LogLevel, text: Seq<char>) -> Seq<(LogLevel, Seq<char>)> {
    seq![(level, text)]
}

/// Appends `entries` to `log` and drops the oldest entries beyond [`LOG_CAP`].
pub(crate) fn append_capped(log: &mut Vec<LogEntry>, entries: Vec<LogEntry>)
    ensures
        logs(old(log)@, final(log)@, entries_items(entries@)),
{
    let ghost before = log@;
    let ghost added = entries@;
    let mut entries = entries;
    log.append(&mut entries);
    let ghost joined = log@;
    assert(joined == before + added);
    let ghost mut cut: int = 0;
    if log.len() > LOG_CAP {
        let excess = log.len() - LOG_CAP;
        let tail = log.split_off(excess);
        *log = tail;
        proof {
            cut = excess as int;
        }
    }
    assert(log@ == joined.skip(cut));
    proof {
        let items = entries_items(added);
        let total = (before.len() + items.len()) as int;
        let keep = if total > LOG_CAP { LOG_CAP as int } else { total };
        assert forall|k: int| 0 <= k < keep implies {
            let g = total - keep + k;
            if g < before.len() {
                #[trigger] log@[k] == before[g]
            } else {
                log@[k].level == items[g - before.len()].0 && log@[k].text@ == items[g
                    - before.len()].1
            }
        } by {
            let g = total - keep + k;
            assert(log@[k] == joined[g]);
            if g >= before.len() {
                assert(joined[g] == added[g - before.len()]);
            }
        }
    }
}

impl ProbeUiApp {
    /// Appends an entry to the log, dropping the oldest beyond [`LOG_CAP`].
    pub fn log(&mut self, text: String, level: LogLevel)
        ensures
            *final(self) == (ProbeUiApp { log: final(self).log, ..*old(self) }),
            logs(old(self).log@, final(self).log@, item(level, text@)),
    {
        let ghost t = text@;
        let ghost before = self.log@;
        self.log.push(LogEntry { text, level });
        let ghost pushed = self.log@;
        let ghost mut dropped: int = 0;
        while self.log.len() > LOG_CAP
            invariant
                *self == (ProbeUiApp { log: self.log, ..*old(self) }),
                pushed.len() == before.len() + 1,
                pushed.last().text@ == t && pushed.last().level == level,
                pushed.drop_last() == before,
                0 <= dropped <= pushed.len(),
                self.log@ == pushed.skip(dropped),
                dropped > 0 ==> self.log@.len() >= LOG_CAP,
            decreases self.log@.len(),
        {
            self.log.remove(0);
            proof {
                assert(self.log@ =~= pushed.skip(dropped + 1));
                dropped = dropped + 1;
            }
        }
        proof {
            let items = item(level, t);
            let total = (before.len() + 1) as int;
            let keep = if total > LOG_CAP { LOG_CAP as int } else { total };
            assert(self.log@.len() == keep);
            assert forall|k: int| 0 <= k < keep implies {
                let g = total - keep + k;
                if g < before.len() {
                    #[trigger] self.log@[k] == before[g]
                } else {
                    self.log@[k].level == items[g - before.len()].0 && self.log@[k].text@ == items[g
                        - before.len()].1
                }
            } by {
                assert(self.log@[k] == pushed[dropped + k]);
                if dropped + k < before.len() {
                    assert(pushed[dropped + k] == before[dropped + k]);
                }
            }
        }
    }

    /// Appends entries to the log in order, dropping the oldest beyond
    /// [`LOG_CAP`].
    pub fn log_all(&mut self, entries: Vec<LogEntry>)
        ensures
            *final(self) == (ProbeUiApp { log: final(self).log, ..*old(self) }),
            logs(old(self).log@, final(self).log@, entries_items(entries@)),
    {
        append_capped(&mut self.log, entries);
    }

    /// Text of `msg` in the current language.
    pub fn text(&self, msg: Msg) -> (s: String)
        ensures
            s@ == msg_text(self.lang, msg),
    {
        owned(self.lang.tr(msg))
    }

    /// Text of `msg` in the current language with `args` in its placeholders.
    pub fn message(&self, msg: Msg, args: Vec<String>) -> (s: String)
        ensures
            s@ == message(self.lang, msg, views(args@)),
    {
        fill(self.lang.tr(msg), args.as_slice())
    }

    /// Text of `msg` with one argument.
    pub fn message1(&self, msg: Msg, a: String) -> (s: String)
        ensures
            s@ == message(self.lang, msg, seq![a@]),
    {
        let ghost av = a@;
        let mut args: Vec<String> = Vec::new();
        args.push(a);
        assert(views(args@) =~= seq![av]);
        fill(self.lang.tr(msg), args.as_slice())
    }

    /// Text of `msg` with two arguments.
    pub fn message2(&self, msg: Msg, a: String, b: String) -> (s: String)
        ensures
            s@ == message(self.lang, msg, seq![a@, b@]),
    {
        let ghost av = a@;
        let ghost bv = b@;
        let mut args: Vec<String> = Vec::new();
        args.push(a);
        args.push(b);
        assert(views(args@) =~= seq![av, bv]);
        fill(self.lang.tr(msg), args.as_slice())
    }

    /// The label of a brand: the catch-all and generic brands are shown in
    /// the current language, every other brand name is a proper name and
    /// shown as it is.
    pub fn brand_label(&self, brand: &str) -> (s: String)
        ensures
            s@ == (if brand@ == "Other"@ {
                msg_text(self.lang, Msg::BrandOther)
            } else if brand@ == "ARM"@ {
                msg_text(self.lang, Msg::BrandArm)
            } else if brand@ == "RISC-V"@ {
                msg_text(self.lang, Msg::BrandRiscv)
            } else {
                brand@
            }),
    {
        if str_eq(brand, "Other") {
            self.text(Msg::BrandOther)
        } else if str_eq(brand, "ARM") {
            self.text(Msg::BrandArm)
        } else if str_eq(brand, "RISC-V") {
            self.text(Msg::BrandRiscv)
        } else {
            owned(brand)
        }
    }

    /// Switches the interface language; the worker learns it too.
    pub fn set_lang(&mut self, lang: Lang) -> (cmd: Option<WorkerCommand>)
        ensures
            old(self).lang == lang ==> *final(self) == *old(self) && cmd is None,
            old(self).lang != lang ==> *final(self) == (ProbeUiApp { lang, ..*old(self) }) && cmd
                == Some(WorkerCommand::SetLang(lang)),
    {
        let changed = self.lang != lang;
        self.lang = lang;
        if changed {
            Some(WorkerCommand::SetLang(lang))
        } else {
            None
        }
    }

    /// Switches the theme; `true` when it changed (and must be applied again).
    pub fn set_theme(&mut self, mode: ThemeMode) -> (changed: bool)
        ensures
            changed == (old(self).theme_mode != mode),
            *final(self) == (ProbeUiApp { theme_mode: mode, ..*old(self) }),
    {
        let changed = self.theme_mode != mode;
        self.theme_mode = mode;
        changed
    }
}

// ---------------------------------------------------------------------------
// Settings
// ---------------------------------------------------------------------------

/// The state holds the settings of `cfg` (the fields that `cfg` sets).
pub open spec fn reflects_config(st: ProbeUiApp, cfg: AppConfig) -> bool {
    &&& st.lang == (if cfg.lang@ == "en"@ { Lang::En } else { Lang::Zh })
    &&& st.theme_mode == (if cfg.theme@ == "light"@ {
        ThemeMode::Light
    } else if cfg.theme@ == "dark"@ {
        ThemeMode::Dark
    } else {
        ThemeMode::System
    })
    &&& st.boot_mode == (if cfg.boot_mode@ == "under_reset"@ {
        BootMode::UnderReset
    } else {
        BootMode::Normal
    })
    &&& st.manual_target@ == cfg.manual_target@
    &&& st.file_path@ == cfg.file_path@
    &&& st.firmware_root@ == cfg.firmware_root@
    &&& st.chip_erase == cfg.chip_erase
    &&& st.verify == cfg.verify
    &&& st.keep_unwritten == cfg.keep_unwritten
    &&& st.reset_after == cfg.reset_after
    &&& st.bin_base == cfg.bin_base
    &&& st.rtt_view_channel == cfg.rtt_view_channel
    &&& st.rtt_send_channel == cfg.rtt_send_channel
    &&& st.rtt_autoscroll == cfg.rtt_autoscroll
    &&& st.central_tab == (if cfg.central_tab@ == "memory"@ {
        CentralTab::Memory
    } else if cfg.central_tab@ == "rtt"@ {
        CentralTab::Rtt
    } else {
        CentralTab::Flash
    })
    &&& st.mem_start == cfg.mem_start
    &&& st.mem_len == cfg.mem_len
    &&& st.mem_write_start == cfg.mem_write_start
    &&& st.tg_input@ == cfg.tg_input@
    &&& st.tg_output_dir@ == cfg.tg_output_dir@
}

/// `cfg` holds the settings of the state, each choice spelled as saved.
pub open spec fn config_of(cfg: AppConfig, st: ProbeUiApp) -> bool {
    &&& cfg.lang@ == (if st.lang == Lang::En { "en"@ } else { "zh"@ })
    &&& cfg.theme@ == (match st.theme_mode {
        ThemeMode::System => "system"@,
        ThemeMode::Light => "light"@,
        ThemeMode::Dark => "dark"@,
    })
    &&& cfg.boot_mode@ == (match st.boot_mode {
        BootMode::Normal => "normal"@,
        BootMode::UnderReset => "under_reset"@,
    })
    &&& cfg.manual_target@ == st.manual_target@
    &&& cfg.file_path@ == st.file_path@
    &&& cfg.firmware_root@ == st.firmware_root@
    &&& cfg.chip_erase == st.chip_erase
    &&& cfg.verify == st.verify
    &&& cfg.keep_unwritten == st.keep_unwritten
    &&& cfg.reset_after == st.reset_after
    &&& cfg.bin_base == st.bin_base
    &&& cfg.rtt_view_channel == st.rtt_view_channel
    &&& cfg.rtt_send_channel == st.rtt_send_channel
    &&& cfg.rtt_autoscroll == st.rtt_autoscroll
    &&& cfg.central_tab@ == (match st.central_tab {
        CentralTab::Flash => "flash"@,
        CentralTab::Memory => "memory"@,
        CentralTab::Rtt => "rtt"@,
    })
    &&& cfg.mem_start == st.mem_start
    &&& cfg.mem_len == st.mem_len
    &&& cfg.mem_write_start == st.mem_write_start
    &&& cfg.tg_input@ == st.tg_input@
    &&& cfg.tg_output_dir@ == st.tg_output_dir@
}

/// Saving right after restoring gives back the saved settings, when they
/// were written by the interface (each choice spelled as it saves it).
pub proof fn lemma_restore_then_save(cfg: AppConfig, st: ProbeUiApp, saved: AppConfig)
    requires
        is_canonical(cfg),
        reflects_config(st, cfg),
        config_of(saved, st),
    ensures
        same_config(saved, cfg),
{
    reveal_strlit("en");
    reveal_strlit("zh");
    reveal_strlit("system");
    reveal_strlit("light");
    reveal_strlit("dark");
    reveal_strlit("normal");
    reveal_strlit("under_reset");
    reveal_strlit("flash");
    reveal_strlit("memory");
    reveal_strlit("rtt");
}

/// The first family whose variants include `chip` exactly.
#[verifier::opaque]
pub open spec fn family_of_chip(fams: Seq<ChipFamilyInfo>, chip: Seq<char>, k: int) -> Option<usize>
    decreases fams.len() - k,
{
    if k < 0 || k >= fams.len() {
        None
    } else if views(fams[k].chips@).contains(chip) {
        Some(k as usize)
    } else {
        family_of_chip(fams, chip, k + 1)
    }
}

/// The first brand that lists family `f`.
#[verifier::opaque]
pub open spec fn brand_of_family(brands: Seq<ChipBrandInfo>, f: usize, k: int) -> Option<usize>
    decreases brands.len() - k,
{
    if k < 0 || k >= brands.len() {
        None
    } else if brands[k].families@.contains(f) {
        Some(k as usize)
    } else {
        brand_of_family(brands, f, k + 1)
    }
}

/// The selection after restoring a saved chip: its family and that
/// family's brand when the chip is named and known, else `old`.
pub open spec fn restored_selection(
    fams: Seq<ChipFamilyInfo>,
    brands: Seq<ChipBrandInfo>,
    chip: Seq<char>,
    old: (Option<usize>, Option<usize>),
) -> (Option<usize>, Option<usize>) {
    let fam = family_of_chip(fams, chip, 0);
    if trim(chip).len() > 0 && fam is Some {
        (fam, brand_of_family(brands, fam->0, 0))
    } else {
        old
    }
}

fn find_chip_family(fams: &Vec<ChipFamilyInfo>, chip: &String) -> (r: Option<usize>)
    ensures
        r == family_of_chip(fams@, chip@, 0),
{
    reveal(family_of_chip);
    let mut k: usize = 0;
    while k < fams.len()
        invariant
            k <= fams.len(),
            family_of_chip(fams@, chip@, 0) == family_of_chip(fams@, chip@, k as int),
        decreases fams.len() - k,
    {
        proof {
            reveal(family_of_chip);
        }
        let chips = &fams[k].chips;
        let mut j: usize = 0;
        let mut hit = false;
        while j < chips.len() && !hit
            invariant
                j <= chips@.len(),
                hit ==> views(chips@).contains(chip@),
                !hit ==> forall|i: int| 0 <= i < j ==> views(chips@)[i] != chip@,
            decreases chips@.len() - j + (if hit { 0int } else { 1int }),
        {
            if chips[j] == *chip {
                hit = true;
                assert(views(chips@)[j as int] == chip@);
            } else {
                j = j + 1;
            }
        }
        if hit {
            return Some(k);
        }
        k = k + 1;
    }
    None
}

fn find_brand_of(brands: &Vec<ChipBrandInfo>, f: usize) -> (r: Option<usize>)
    ensures
        r == brand_of_family(brands@, f, 0),
{
    reveal(brand_of_family);
    let mut k: usize = 0;
    while k < brands.len()
        invariant
            k <= brands.len(),
            brand_of_family(brands@, f, 0) == brand_of_family(brands@, f, k as int),
        decreases brands.len() - k,
    {
        proof {
            reveal(brand_of_family);
        }
        let fl = &brands[k].families;
        let mut j: usize = 0;
        let mut hit = false;
        while j < fl.len() && !hit
            invariant
                j <= fl@.len(),
                hit ==> fl@.contains(f),
                !hit ==> forall|i: int| 0 <= i < j ==> fl@[i] != f,
            decreases fl@.len() - j + (if hit { 0int } else { 1int }),
        {
            if fl[j] == f {
                hit = true;
                assert(fl@[j as int] == f);
            } else {
                j = j + 1;
            }
        }
        if hit {
            return Some(k);
        }
        k = k + 1;
    }
    None
}

fn lang_setting(s: &str) -> (l: Lang)
    ensures
        l == (if s@ == "en"@ { Lang::En } else { Lang::Zh }),
{
    if str_eq(s, "en") {
        Lang::En
    } else {
        Lang::Zh
    }
}

fn theme_setting(s: &str) -> (t: ThemeMode)
    ensures
        t == (if s@ == "light"@ {
            ThemeMode::Light
        } else if s@ == "dark"@ {
            ThemeMode::Dark
        } else {
            ThemeMode::System
        }),
{
    if str_eq(s, "light") {
        ThemeMode::Light
    } else if str_eq(s, "dark") {
        ThemeMode::Dark
    } else {
        ThemeMode::System
    }
}

fn boot_setting(s: &str) -> (b: BootMode)
    ensures
        b == (if s@ == "under_reset"@ { BootMode::UnderReset } else { BootMode::Normal }),
{
    if str_eq(s, "under_reset") {
        BootMode::UnderReset
    } else {
        BootMode::Normal
    }
}

fn tab_setting(s: &str) -> (t: CentralTab)
    ensures
        t == (if s@ == "memory"@ {
            CentralTab::Memory
        } else if s@ == "rtt"@ {
            CentralTab::Rtt
        } else {
            CentralTab::Flash
        }),
{
    if str_eq(s, "memory") {
        CentralTab::Memory
    } else if str_eq(s, "rtt") {
        CentralTab::Rtt
    } else {
        CentralTab::Flash
    }
}

/// The family and brand of a saved chip, and whether it was found.
fn saved_selection(fams: &Vec<ChipFamilyInfo>, brands: &Vec<ChipBrandInfo>, chip: &String) -> (r: (
    Option<usize>,
    Option<usize>,
    bool,
))
    ensures
        r.2 == (trim(chip@).len() > 0 && family_of_chip(fams@, chip@, 0) is Some),
        r.2 ==> (r.0, r.1) == restored_selection(fams@, brands@, chip@, (None, None)),
{
    if is_blank(chip.as_str()) {
        return (None, None, false);
    }
    match find_chip_family(fams, chip) {
        Some(f) => (Some(f), find_brand_of(brands, f), true),
        None => (None, None, false),
    }
}

/// The state before saved settings are applied: the given chip list and
/// every other field at its starting value.
pub open spec fn is_initial(s: ProbeUiApp, fams: Seq<ChipFamilyInfo>, brands: Seq<ChipBrandInfo>) -> bool {
    &&& s.lang == Lang::Zh
    &&& s.theme_mode == ThemeMode::System
    &&& s.probes@.len() == 0
    &&& s.selected_probe == 0
    &&& s.probing
    &&& !s.connecting
    &&& s.boot_mode == BootMode::Normal
    &&& s.connected is None
    &&& s.manual_target@.len() == 0
    &&& s.chip_families@ == fams
    &&& s.chip_brands@ == brands
    &&& s.selected_brand is None
    &&& s.selected_family is None
    &&& s.chip_search@.len() == 0
    &&& !s.show_manual
    &&& s.file_path@.len() == 0
    &&& !s.chip_erase
    &&& s.verify
    &&& s.keep_unwritten
    &&& s.reset_after
    &&& s.firmware_root@.len() == 0
    &&& s.firmware_candidates@.len() == 0
    &&& !s.firmware_scanning
    &&& s.read_start == 0
    &&& s.read_end == 0
    &&& s.bin_base == 0
    &&& !s.busy
    &&& s.op_bars@.len() == 0
    &&& s.log@.len() == 0
    &&& !s.rtt_on
    &&& s.rtt_up_channels == 0
    &&& s.rtt_down_channels == 0
    &&& s.rtt_view_channel is None
    &&& s.rtt_send_channel == 0
    &&& s.rtt_buf@.len() == 0
    &&& s.rtt_autoscroll
    &&& s.rtt_down_input@.len() == 0
    &&& s.central_tab == CentralTab::Flash
    &&& s.mem_start == 0
    &&& s.mem_len == 256
    &&& s.mem_data@.len() == 0
    &&& s.mem_read_addr == 0
    &&& !s.mem_busy
    &&& s.mem_write_start == 0
    &&& s.mem_write_input@.len() == 0
    &&& s.tg_input@.len() == 0
    &&& s.tg_output_dir@.len() == 0
    &&& !s.tg_only_supported
    &&& !s.tg_busy
    &&& s.tg_result is None
    &&& !s.tg_auto_connect
}

/// No probe scan result, connection, operation, transfer or generation
/// is there yet, and no input is typed.
pub open spec fn runs_nothing(s: ProbeUiApp) -> bool {
    &&& s.probes@.len() == 0
    &&& s.selected_probe == 0
    &&& s.probing
    &&& !s.connecting
    &&& s.connected is None
    &&& s.chip_search@.len() == 0
    &&& !s.show_manual
    &&& s.firmware_candidates@.len() == 0
    &&& s.read_start == 0
    &&& s.read_end == 0
    &&& !s.busy
    &&& s.op_bars@.len() == 0
    &&& !s.rtt_on
    &&& s.rtt_up_channels == 0
    &&& s.rtt_down_channels == 0
    &&& s.rtt_buf@.len() == 0
    &&& s.rtt_down_input@.len() == 0
    &&& s.mem_data@.len() == 0
    &&& s.mem_read_addr == 0
    &&& !s.mem_busy
    &&& s.mem_write_input@.len() == 0
    &&& !s.tg_only_supported
    &&& !s.tg_busy
    &&& s.tg_result is None
    &&& !s.tg_auto_connect
}

/// The log lines at start: the numbers of families and brands loaded,
/// then that probes are being scanned.
pub open spec fn startup_items(lang: Lang, families: nat, brands: nat) -> Seq<(LogLevel, Seq<char>)> {
    item(LogLevel::Info, message(lang, Msg::LoadedChips, seq![decimal(families), decimal(brands)]))
        + item(LogLevel::Info, msg_text(lang, Msg::ScanningDebugProbes))
}

/// The starting state over a chip list.
fn initial_state(chip_families: Vec<ChipFamilyInfo>, chip_brands: Vec<ChipBrandInfo>) -> (s: ProbeUiApp)
    ensures
        is_initial(s, chip_families@, chip_brands@),
{
    ProbeUiApp {
        lang: Lang::Zh,
        theme_mode: ThemeMode::System,
        probes: Vec::new(),
        selected_probe: 0,
        probing: true,
        connecting: false,
        boot_mode: BootMode::Normal,
        connected: None,
        manual_target: String::new(),
        chip_families,
        chip_brands,
        selected_brand: None,
        selected_family: None,
        chip_search: String::new(),
        show_manual: false,
        file_path: String::new(),
        chip_erase: false,
        verify: true,
        keep_unwritten: true,
        reset_after: true,
        firmware_root: String::new(),
        firmware_candidates: Vec::new(),
        firmware_scanning: false,
        read_start: 0,
        read_end: 0,
        bin_base: 0,
        busy: false,
        op_bars: Vec::new(),
        log: Vec::new(),
        rtt_on: false,
        rtt_up_channels: 0,
        rtt_down_channels: 0,
        rtt_view_channel: None,
        rtt_send_channel: 0,
        rtt_buf: String::new(),
        rtt_autoscroll: true,
        rtt_down_input: String::new(),
        central_tab: CentralTab::Flash,
        mem_start: 0,
        mem_len: 256,
        mem_data: Vec::new(),
        mem_read_addr: 0,
        mem_busy: false,
        mem_write_start: 0,
        mem_write_input: String::new(),
        tg_input: String::new(),
        tg_output_dir: String::new(),
        tg_only_supported: false,
        tg_busy: false,
        tg_result: None,
        tg_auto_connect: false,
    }
}

/// The state `st` with the settings of `cfg` applied, and whether a saved
/// project folder is to be scanned.
fn configured(st: ProbeUiApp, cfg: AppConfig) -> (r: (ProbeUiApp, bool))
    ensures
        reflects_config(r.0, cfg),
        r.0 == (ProbeUiApp {
                lang: r.0.lang,
                theme_mode: r.0.theme_mode,
                boot_mode: r.0.boot_mode,
                manual_target: r.0.manual_target,
                selected_brand: r.0.selected_brand,
                selected_family: r.0.selected_family,
                file_path: r.0.file_path,
                chip_erase: r.0.chip_erase,
                verify: r.0.verify,
                keep_unwritten: r.0.keep_unwritten,
                reset_after: r.0.reset_after,
                firmware_root: r.0.firmware_root,
                firmware_scanning: r.0.firmware_scanning,
                bin_base: r.0.bin_base,
                rtt_view_channel: r.0.rtt_view_channel,
                rtt_send_channel: r.0.rtt_send_channel,
                rtt_autoscroll: r.0.rtt_autoscroll,
                central_tab: r.0.central_tab,
                mem_start: r.0.mem_start,
                mem_len: r.0.mem_len,
                mem_write_start: r.0.mem_write_start,
                tg_input: r.0.tg_input,
                tg_output_dir: r.0.tg_output_dir,
            ..st
        }),
        r.1 == (trim(cfg.firmware_root@).len() > 0),
        r.0.firmware_scanning == (st.firmware_scanning || r.1),
        (r.0.selected_family, r.0.selected_brand) == restored_selection(
            st.chip_families@,
            st.chip_brands@,
            cfg.manual_target@,
            (st.selected_family, st.selected_brand),
        ),
{
    let (sel_family, sel_brand, found) = saved_selection(
        &st.chip_families,
        &st.chip_brands,
        &cfg.manual_target,
    );
    let (sf, sb) = if found {
        (sel_family, sel_brand)
    } else {
        (st.selected_family, st.selected_brand)
    };
    let lang = lang_setting(cfg.lang.as_str());
    let scan = !is_blank(cfg.firmware_root.as_str());
    let ProbeUiApp {
            lang: _,
            theme_mode: _,
            probes,
            selected_probe,
            probing,
            connecting,
            boot_mode: _,
            connected,
            manual_target: _,
            chip_families,
            chip_brands,
            selected_brand,
            selected_family,
            chip_search,
            show_manual,
            file_path: _,
            chip_erase: _,
            verify: _,
            keep_unwritten: _,
            reset_after: _,
            firmware_root: _,
            firmware_candidates,
            firmware_scanning,
            read_start,
            read_end,
            bin_base: _,
            busy,
            op_bars,
            log,
            rtt_on,
            rtt_up_channels,
            rtt_down_channels,
            rtt_view_channel: _,
            rtt_send_channel: _,
            rtt_buf,
            rtt_autoscroll: _,
            rtt_down_input,
            central_tab: _,
            mem_start: _,
            mem_len: _,
            mem_data,
            mem_read_addr,
            mem_busy,
            mem_write_start: _,
            mem_write_input,
            tg_input: _,
            tg_output_dir: _,
            tg_only_supported,
            tg_busy,
            tg_result,
            tg_auto_connect
        } = st;
    (ProbeUiApp {
            lang: lang,
            theme_mode: theme_setting(cfg.theme.as_str()),
            probes,
            selected_probe,
            probing,
            connecting,
            boot_mode: boot_setting(cfg.boot_mode.as_str()),
            connected,
            manual_target: cfg.manual_target,
            chip_families,
            chip_brands,
            selected_brand: sb,
            selected_family: sf,
            chip_search,
            show_manual,
            file_path: cfg.file_path,
            chip_erase: cfg.chip_erase,
            verify: cfg.verify,
            keep_unwritten: cfg.keep_unwritten,
            reset_after: cfg.reset_after,
            firmware_root: cfg.firmware_root,
            firmware_candidates,
            firmware_scanning: firmware_scanning || scan,
            read_start,
            read_end,
            bin_base: cfg.bin_base,
            busy,
            op_bars,
            log,
            rtt_on,
            rtt_up_channels,
            rtt_down_channels,
            rtt_view_channel: cfg.rtt_view_channel,
            rtt_send_channel: cfg.rtt_send_channel,
            rtt_buf,
            rtt_autoscroll: cfg.rtt_autoscroll,
            rtt_down_input,
            central_tab: tab_setting(cfg.central_tab.as_str()),
            mem_start: cfg.mem_start,
            mem_len: cfg.mem_len,
            mem_data,
            mem_read_addr,
            mem_busy,
            mem_write_start: cfg.mem_write_start,
            mem_write_input,
            tg_input: cfg.tg_input,
            tg_output_dir: cfg.tg_output_dir,
            tg_only_supported,
            tg_busy,
            tg_result,
            tg_auto_connect,
    }, scan)
}

impl ProbeUiApp {
    /// Applies saved settings: the fields they set, the chip selection of a
    /// saved chip, and the commands that restore the worker's language and
    /// rescan a saved project folder.
    pub fn apply_config(&mut self, cfg: AppConfig) -> (cmds: Vec<WorkerCommand>)
        ensures
            reflects_config(*final(self), cfg),
            *final(self) == (ProbeUiApp {
                lang: final(self).lang,
                theme_mode: final(self).theme_mode,
                boot_mode: final(self).boot_mode,
                manual_target: final(self).manual_target,
                selected_brand: final(self).selected_brand,
                selected_family: final(self).selected_family,
                file_path: final(self).file_path,
                chip_erase: final(self).chip_erase,
                verify: final(self).verify,
                keep_unwritten: final(self).keep_unwritten,
                reset_after: final(self).reset_after,
                firmware_root: final(self).firmware_root,
                firmware_scanning: final(self).firmware_scanning,
                bin_base: final(self).bin_base,
                rtt_view_channel: final(self).rtt_view_channel,
                rtt_send_channel: final(self).rtt_send_channel,
                rtt_autoscroll: final(self).rtt_autoscroll,
                central_tab: final(self).central_tab,
                mem_start: final(self).mem_start,
                mem_len: final(self).mem_len,
                mem_write_start: final(self).mem_write_start,
                tg_input: final(self).tg_input,
                tg_output_dir: final(self).tg_output_dir,
                ..*old(self)
            }),
            final(self).firmware_scanning == (old(self).firmware_scanning || trim(
                cfg.firmware_root@,
            ).len() > 0),
            (final(self).selected_family, final(self).selected_brand) == restored_selection(
                old(self).chip_families@,
                old(self).chip_brands@,
                cfg.manual_target@,
                (old(self).selected_family, old(self).selected_brand),
            ),
            cmds@.len() == (if trim(cfg.firmware_root@).len() > 0 { 2int } else { 1int }),
            cmds@[0] == WorkerCommand::SetLang(final(self).lang),
            trim(cfg.firmware_root@).len() > 0 ==> (cmds@[1] matches WorkerCommand::ScanFirmware {
                root,
            } && root@ == cfg.firmware_root@),
    {
        let mut st = initial_state(Vec::new(), Vec::new());
        std::mem::swap(self, &mut st);
        let (next, scan) = configured(st, cfg);
        *self = next;
        let mut cmds: Vec<WorkerCommand> = Vec::new();
        cmds.push(WorkerCommand::SetLang(self.lang));
        if scan {
            cmds.push(WorkerCommand::ScanFirmware { root: self.firmware_root.clone() });
        }
        cmds
    }

    /// The interface at start: the built-in chip list (which always holds
    /// the generic families) grouped by brand,
    /// the saved settings applied, the log saying what was loaded and that
    /// probes are being scanned; the commands to send are the worker's
    /// language, the scan of a saved project folder if any, and the probe
    /// scan.
    pub fn new(saved: AppConfig) -> (r: (ProbeUiApp, Vec<WorkerCommand>))
        ensures
            is_brand_grouping(r.0.chip_families@, r.0.chip_brands@),
            exists|records: Seq<FamilyRecord>|
                family_list_of(records, r.0.chip_families@) && ends_with_generic(records),
            r.0.chip_families@.len() >= GENERIC_FAMILY_COUNT,
            lists_generic_families(r.0.chip_families@),
            reflects_config(r.0, saved),
            runs_nothing(r.0),
            r.0.firmware_scanning == (trim(saved.firmware_root@).len() > 0),
            (r.0.selected_family, r.0.selected_brand) == restored_selection(
                r.0.chip_families@,
                r.0.chip_brands@,
                saved.manual_target@,
                (None, None),
            ),
            logs(
                Seq::empty(),
                r.0.log@,
                startup_items(r.0.lang, r.0.chip_families@.len(), r.0.chip_brands@.len()),
            ),
            r.1@.len() == (if trim(saved.firmware_root@).len() > 0 { 3int } else { 2int }),
            r.1@[0] == WorkerCommand::SetLang(r.0.lang),
            trim(saved.firmware_root@).len() > 0 ==> (r.1@[1] matches WorkerCommand::ScanFirmware {
                root,
            } && root@ == saved.firmware_root@),
            r.1@.last() == WorkerCommand::Scan,
    {
        let fams = builtin_chip_families();
        let ghost fv = fams@;
        let brands = group_brands(fams.as_slice());
        let mut app = initial_state(fams, brands);
        let mut cmds = app.apply_config(saved);
        let mut pending: Vec<LogEntry> = Vec::new();
        assert(entries_items(pending@) =~= no_items());
        let loaded = app.message2(
            Msg::LoadedChips,
            decimal_text(app.chip_families.len() as u64),
            decimal_text(app.chip_brands.len() as u64),
        );
        note(&mut pending, LogLevel::Info, loaded);
        let scanning = app.text(Msg::ScanningDebugProbes);
        note(&mut pending, LogLevel::Info, scanning);
        assert(entries_items(pending@) =~= startup_items(
            app.lang,
            app.chip_families@.len(),
            app.chip_brands@.len(),
        ));
        app.log_all(pending);
        cmds.push(WorkerCommand::Scan);
        (app, cmds)
    }

    /// The settings to save.
    pub fn collect_config(&self) -> (cfg: AppConfig)
        ensures
            config_of(cfg, *self),
    {
        AppConfig {
            lang: owned(
                if self.lang.is_en() {
                    "en"
                } else {
                    "zh"
                },
            ),
            theme: owned(
                match self.theme_mode {
                    ThemeMode::System => "system",
                    ThemeMode::Light => "light",
                    ThemeMode::Dark => "dark",
                },
            ),
            boot_mode: owned(
                match self.boot_mode {
                    BootMode::Normal => "normal",
                    BootMode::UnderReset => "under_reset",
                },
            ),
            manual_target: self.manual_target.clone(),
            file_path: self.file_path.clone(),
            firmware_root: self.firmware_root.clone(),
            chip_erase: self.chip_erase,
            verify: self.verify,
            keep_unwritten: self.keep_unwritten,
            reset_after: self.reset_after,
            bin_base: self.bin_base,
            rtt_view_channel: self.rtt_view_channel,
            rtt_send_channel: self.rtt_send_channel,
            rtt_autoscroll: self.rtt_autoscroll,
            central_tab: owned(
                match self.central_tab {
                    CentralTab::Flash => "flash",
                    CentralTab::Memory => "memory",
                    CentralTab::Rtt => "rtt",
                },
            ),
            mem_start: self.mem_start,
            mem_len: self.mem_len,
            mem_write_start: self.mem_write_start,
            tg_input: self.tg_input.clone(),
            tg_output_dir: self.tg_output_dir.clone(),
        }
    }
}

} // verus!
