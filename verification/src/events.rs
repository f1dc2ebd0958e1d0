//! How the interface takes in what the worker reports: each event updates
//! the state and the log, and a finished pack generation may ask to connect.

use vstd::prelude::*;

use crate::app_state::entries_items;
use crate::app_state::item;
use crate::app_state::note;
use crate::app_state::LogEntry;
use crate::app_state::logs;
use crate::app_state::no_items;
use crate::app_state::ProbeUiApp;
use crate::app_state::LogLevel;
use crate::app_state::OpBar;
use crate::chip_select::lemma_grouping_in_range;
use crate::chip_select::members_in_range;
use crate::chips::group_brands;
use crate::chips::is_brand_grouping;
use crate::chips::ChipBrandInfo;
use crate::chips::ChipFamilyInfo;
use crate::firmware::FirmwareCandidate;
use crate::i18n::fill;
use crate::i18n::msg_text;
use crate::i18n::Lang;
use crate::i18n::Msg;
use crate::memview::char_width;
use crate::memview::utf8_len;
use crate::memview::utf8_length;
use crate::memview::width_of;
use crate::text::chars_of;
use crate::text::decimal;
use crate::text::decimal_text;
use crate::text::owned;
use crate::text::str_eq;
use crate::text::string_of;
use crate::text::views;
use crate::worker::message;
use crate::worker::ChipFileInfo;
use crate::worker::MemRegionInfo;
use crate::worker::OpState;
use crate::worker::ProbeInfo;
use crate::worker::TargetGenFamilyInfo;
use crate::worker::TargetGenResult;
use crate::worker::TargetSummary;
use crate::worker::WorkerCommand;
use crate::worker::WorkerEvent;

verus! {

/// The RTT view keeps at most this many bytes (UTF-8), dropping the oldest
/// whole characters.
pub const RTT_BUF_CAP: usize = 131072;

// ---------------------------------------------------------------------------
// Specifications of the effects
// ---------------------------------------------------------------------------

/// The first region of kind `kind` in a memory map.
pub open spec fn first_region(m: Seq<MemRegionInfo>, kind: Seq<char>) -> Option<MemRegionInfo>
    decreases m.len(),
{
    if m.len() == 0 {
        None
    } else if m[0].kind@ == kind {
        Some(m[0])
    } else {
        first_region(m.drop_first(), kind)
    }
}

/// A family as plain values: its name, its brand and its chip names.
pub type FamilyView = (Seq<char>, Seq<char>, Seq<Seq<char>>);

/// The plain values of a family.
pub open spec fn family_view(f: ChipFamilyInfo) -> FamilyView {
    (f.name@, f.brand@, views(f.chips@))
}

/// The plain values of a family list.
pub open spec fn families_view(fams: Seq<ChipFamilyInfo>) -> Seq<FamilyView> {
    fams.map_values(|f: ChipFamilyInfo| family_view(f))
}

/// The chip names `a`, followed by each name of `b` that is not among them
/// yet, once.
pub open spec fn chips_union(a: Seq<Seq<char>>, b: Seq<Seq<char>>) -> Seq<Seq<char>>
    decreases b.len(),
{
    if b.len() == 0 {
        a
    } else {
        let u = chips_union(a, b.drop_last());
        if u.contains(b.last()) {
            u
        } else {
            u.push(b.last())
        }
    }
}

/// Position of the first family named `name`, looking from `k` on, or -1.
pub open spec fn family_index(fams: Seq<FamilyView>, name: Seq<char>, k: int) -> int
    decreases fams.len() - k,
{
    if k < 0 || k >= fams.len() {
        -1
    } else if fams[k].0 == name {
        k
    } else {
        family_index(fams, name, k + 1)
    }
}

/// The family list `fams` after loading a chip file of the family `name`
/// with the chips `chips`: a family of that name already listed gains the
/// chips it lacks, keeping its place and brand; otherwise the family is
/// appended under `brand`.
pub open spec fn merge_family(
    fams: Seq<FamilyView>,
    name: Seq<char>,
    chips: Seq<Seq<char>>,
    brand: Seq<char>,
) -> Seq<FamilyView> {
    let i = family_index(fams, name, 0);
    if i >= 0 {
        fams.update(i, (fams[i].0, fams[i].1, chips_union(fams[i].2, chips)))
    } else {
        fams.push((name, brand, chips))
    }
}

/// The family list `fams` after loading the chip files `infos` in order.
pub open spec fn merge_families(fams: Seq<FamilyView>, infos: Seq<ChipFileInfo>, brand: Seq<char>) -> Seq<
    FamilyView,
>
    decreases infos.len(),
{
    if infos.len() == 0 {
        fams
    } else {
        merge_family(
            merge_families(fams, infos.drop_last(), brand),
            infos.last().family_name@,
            views(infos.last().chips@),
            brand,
        )
    }
}

/// No two families of `fams` share a name.
pub open spec fn distinct_names(fams: Seq<FamilyView>) -> bool {
    forall|a: int, b: int| 0 <= a < b < fams.len() ==> #[trigger] fams[a].0 != #[trigger] fams[b].0
}

proof fn lemma_family_index(fams: Seq<FamilyView>, name: Seq<char>, k: int)
    requires
        0 <= k,
    ensures
        family_index(fams, name, k) == -1 ==> forall|j: int| k <= j < fams.len() ==> #[trigger] fams[j].0 != name,
        family_index(fams, name, k) != -1 ==> k <= family_index(fams, name, k) < fams.len()
            && fams[family_index(fams, name, k)].0 == name,
    decreases fams.len() - k,
{
    if k < fams.len() && fams[k].0 != name {
        lemma_family_index(fams, name, k + 1);
    }
}

/// Loading a chip file of a family that is already listed leaves the
/// number of families unchanged: the first family of that name keeps its
/// name and brand and its chips become its old chips followed by the new
/// ones it lacked; every other family stays as it was.
pub proof fn lemma_merge_same_name(fams: Seq<FamilyView>, name: Seq<char>, chips: Seq<Seq<char>>, brand: Seq<char>, j: int)
    requires
        0 <= j < fams.len(),
        fams[j].0 == name,
    ensures
        ({
            let i = family_index(fams, name, 0);
            let m = merge_family(fams, name, chips, brand);
            &&& 0 <= i < fams.len()
            &&& fams[i].0 == name
            &&& m.len() == fams.len()
            &&& m[i] == (fams[i].0, fams[i].1, chips_union(fams[i].2, chips))
            &&& forall|k: int| 0 <= k < fams.len() && k != i ==> m[k] == fams[k]
        }),
{
    lemma_family_index(fams, name, 0);
}

/// Loading chip files keeps family names distinct: when no two listed
/// families share a name, none do afterwards.
pub proof fn lemma_merge_keeps_names_distinct(fams: Seq<FamilyView>, infos: Seq<ChipFileInfo>, brand: Seq<char>)
    requires
        distinct_names(fams),
    ensures
        distinct_names(merge_families(fams, infos, brand)),
    decreases infos.len(),
{
    if infos.len() > 0 {
        let prev = merge_families(fams, infos.drop_last(), brand);
        lemma_merge_keeps_names_distinct(fams, infos.drop_last(), brand);
        let name = infos.last().family_name@;
        let m = merge_families(fams, infos, brand);
        lemma_family_index(prev, name, 0);
        assert forall|a: int, b: int| 0 <= a < b < m.len() implies #[trigger] m[a].0 != #[trigger] m[b].0 by {
            if b < prev.len() {
                assert(m[a].0 == prev[a].0);
                assert(m[b].0 == prev[b].0);
            } else {
                assert(m[b].0 == name);
                assert(m[a].0 == prev[a].0);
            }
        }
    }
}

/// The state after loading chip files: their families are merged into the
/// list (new ones under the external-pack brand) and, when any file came,
/// the families are grouped again.
#[verifier::opaque]
pub open spec fn merged(old: ProbeUiApp, new: ProbeUiApp, infos: Seq<ChipFileInfo>) -> bool {
    &&& new == ProbeUiApp { chip_families: new.chip_families, chip_brands: new.chip_brands, ..old }
    &&& families_view(new.chip_families@) == merge_families(
        families_view(old.chip_families@),
        infos,
        msg_text(old.lang, Msg::BrandExternal),
    )
    &&& infos.len() > 0 ==> is_brand_grouping(new.chip_families@, new.chip_brands@)
    &&& infos.len() == 0 ==> new.chip_brands == old.chip_brands
}

/// Index of the first bar labelled `label`, or -1.
pub open spec fn bar_index(bars: Seq<OpBar>, label: Seq<char>, k: int) -> int
    decreases bars.len() - k,
{
    if k < 0 || k >= bars.len() {
        -1
    } else if bars[k].label@ == label {
        k
    } else {
        bar_index(bars, label, k + 1)
    }
}

/// `a + b` modulo 2^64.
pub open spec fn wrap_add(a: u64, b: u64) -> u64 {
    if a as int + b as int > u64::MAX {
        (a as int + b as int - 0x1_0000_0000_0000_0000) as u64
    } else {
        (a as int + b as int) as u64
    }
}

/// A bar after a progress report: a reported total replaces the old one;
/// progress adds to what is done, completion fills the bar, failure marks it.
pub open spec fn bar_updated(bar: OpBar, done: u64, total: Option<u64>, state: OpState) -> OpBar {
    let t = if total is Some {
        total
    } else {
        bar.total
    };
    match state {
        OpState::Active => OpBar { done: wrap_add(bar.done, done), total: t, ..bar },
        OpState::Done => OpBar {
            state: OpState::Done,
            done: match t {
                Some(x) => x,
                None => bar.done,
            },
            total: t,
            ..bar
        },
        OpState::Failed => OpBar { state: OpState::Failed, total: t, ..bar },
    }
}

/// The bars after a progress report for `label`: the first bar with that
/// label is updated, or a new bar is added.
pub open spec fn bars_after(
    old: Seq<OpBar>,
    new: Seq<OpBar>,
    label: Seq<char>,
    done: u64,
    total: Option<u64>,
    state: OpState,
) -> bool {
    let i = bar_index(old, label, 0);
    if i >= 0 {
        new == old.update(i, bar_updated(old[i], done, total, state))
    } else {
        &&& new.len() == old.len() + 1
        &&& new.drop_last() == old
        &&& new.last().label@ == label
        &&& new.last().done == done
        &&& new.last().total == total
        &&& new.last().state == state
    }
}

/// What a progress report does to the bar of its operation: when a bar with
/// the reported label is listed (the first such bar is `j`), the list keeps
/// its length and every other bar, and that bar keeps its label. A report in
/// progress adds the reported bytes to the bar's count (modulo 2^64) and
/// keeps it in progress; a completion marks it done and fills it up to its
/// total when one is known; a failure marks it failed and keeps its count.
/// A reported total replaces the bar's total, otherwise the old one stays.
pub proof fn lemma_progress_updates_bar(
    old: Seq<OpBar>,
    new: Seq<OpBar>,
    label: Seq<char>,
    done: u64,
    total: Option<u64>,
    state: OpState,
    j: int,
)
    requires
        bars_after(old, new, label, done, total, state),
        0 <= j < old.len(),
        old[j].label@ == label,
        forall|k: int| 0 <= k < j ==> (#[trigger] old[k]).label@ != label,
    ensures
        new.len() == old.len(),
        forall|k: int| 0 <= k < old.len() && k != j ==> new[k] == old[k],
        new[j].label == old[j].label,
        new[j].total == (if total is Some { total } else { old[j].total }),
        state == OpState::Active ==> new[j].done as int == (old[j].done as int + done as int)
            % 0x1_0000_0000_0000_0000 && new[j].state == old[j].state,
        state == OpState::Done ==> new[j].state == OpState::Done && new[j].done == (match new[j].total {
            Some(t) => t,
            None => old[j].done,
        }),
        state == OpState::Failed ==> new[j].state == OpState::Failed && new[j].done == old[j].done,
{
    lemma_bar_index_first(old, label, 0, j);
}

proof fn lemma_bar_index_first(bars: Seq<OpBar>, label: Seq<char>, k: int, j: int)
    requires
        0 <= k <= j < bars.len(),
        bars[j].label@ == label,
        forall|m: int| k <= m < j ==> (#[trigger] bars[m]).label@ != label,
    ensures
        bar_index(bars, label, k) == j,
    decreases j - k,
{
    if k < j {
        lemma_bar_index_first(bars, label, k + 1, j);
    }
}

/// No two bars share a label.
pub open spec fn distinct_labels(bars: Seq<OpBar>) -> bool {
    forall|i: int, j: int| 0 <= i < j < bars.len() ==> #[trigger] bars[i].label@ != #[trigger] bars[j].label@
}

proof fn lemma_bar_index(bars: Seq<OpBar>, label: Seq<char>, k: int)
    requires
        0 <= k,
    ensures
        bar_index(bars, label, k) == -1 ==> forall|j: int| k <= j < bars.len() ==> #[trigger] bars[j].label@ != label,
        bar_index(bars, label, k) != -1 ==> k <= bar_index(bars, label, k) < bars.len() && bars[bar_index(
            bars,
            label,
            k,
        )].label@ == label,
    decreases bars.len() - k,
{
    if k < bars.len() && bars[k].label@ != label {
        lemma_bar_index(bars, label, k + 1);
    }
}

/// A progress report keeps one bar per operation: when the labels of the
/// bars differ before, they differ after, and a bar for the reported
/// operation is there.
pub proof fn lemma_one_bar_per_operation(
    old: Seq<OpBar>,
    new: Seq<OpBar>,
    label: Seq<char>,
    done: u64,
    total: Option<u64>,
    state: OpState,
)
    requires
        bars_after(old, new, label, done, total, state),
        distinct_labels(old),
    ensures
        distinct_labels(new),
        exists|i: int| 0 <= i < new.len() && #[trigger] new[i].label@ == label,
{
    lemma_bar_index(old, label, 0);
    let i = bar_index(old, label, 0);
    if i >= 0 {
        assert(new[i].label@ == label);
        assert forall|a: int, b: int| 0 <= a < b < new.len() implies #[trigger] new[a].label@
            != #[trigger] new[b].label@ by {
            assert(new[a].label == old[a].label);
            assert(new[b].label == old[b].label);
        }
    } else {
        let n = new.len() - 1;
        assert(new[n].label@ == label);
        assert forall|a: int, b: int| 0 <= a < b < new.len() implies #[trigger] new[a].label@
            != #[trigger] new[b].label@ by {
            assert(new[a] == old[a]);
            if b < n {
                assert(new[b] == old[b]);
            }
        }
    }
}

/// The log lines about written pack files.
pub open spec fn written_items(fams: Seq<TargetGenFamilyInfo>, lang: Lang) -> Seq<(LogLevel, Seq<char>)>
    decreases fams.len(),
{
    if fams.len() == 0 {
        no_items()
    } else {
        let f = fams.last();
        written_items(fams.drop_last(), lang) + if f.output_file@.len() > 0 {
            item(
                LogLevel::Info,
                message(lang, Msg::TargetFileWritten, seq![f.output_file@, decimal(f.variant_count as nat)]),
            )
        } else {
            no_items()
        }
    }
}

/// The first variant of the first loaded family that has any.
pub open spec fn first_chip(loaded: Seq<ChipFileInfo>) -> Option<String>
    decreases loaded.len(),
{
    if loaded.len() == 0 {
        None
    } else if loaded[0].chips@.len() > 0 {
        Some(loaded[0].chips@[0])
    } else {
        first_chip(loaded.drop_first())
    }
}

/// The bytes of the RTT view that a report adds: the text of the data,
/// prefixed with its channel when all channels are shown; nothing when
/// another channel is shown.
pub open spec fn rtt_addition(view: Option<usize>, channel: usize, data: Seq<u8>) -> Seq<char> {
    match view {
        Some(v) => if v != channel {
            Seq::empty()
        } else {
            utf8_lossy(data)
        },
        None => "[CH"@ + decimal(channel as nat) + "] "@ + utf8_lossy(data),
    }
}

/// How many leading characters of `s` fit in `limit` bytes.
pub open spec fn fit_prefix(s: Seq<char>, limit: int) -> nat
    decreases s.len(),
{
    if s.len() > 0 && char_width(s[0]) <= limit {
        1 + fit_prefix(s.drop_first(), limit - char_width(s[0]))
    } else {
        0
    }
}

/// The RTT view kept within [`RTT_BUF_CAP`] bytes: the overflow is cut at
/// the last character boundary at or before it (`floor_char_boundary`).
pub open spec fn capped_buffer(s: Seq<char>) -> Seq<char> {
    if utf8_len(s) > RTT_BUF_CAP {
        s.skip(fit_prefix(s, utf8_len(s) - RTT_BUF_CAP) as int)
    } else {
        s
    }
}

/// The UTF-8 length of a concatenation is the sum of the lengths.
proof fn lemma_utf8_len_concat(a: Seq<char>, b: Seq<char>)
    ensures
        utf8_len(a + b) == utf8_len(a) + utf8_len(b),
    decreases a.len(),
{
    if a.len() > 0 {
        assert((a + b).drop_first() =~= a.drop_first() + b);
        assert((a + b)[0] == a[0]);
        lemma_utf8_len_concat(a.drop_first(), b);
    } else {
        assert(a + b =~= b);
    }
}

/// The characters that [`fit_prefix`] counts take at most `limit` bytes,
/// and one more would not fit.
proof fn lemma_fit_prefix(s: Seq<char>, limit: int)
    requires
        limit >= 0,
    ensures
        fit_prefix(s, limit) <= s.len(),
        utf8_len(s.take(fit_prefix(s, limit) as int)) <= limit,
        fit_prefix(s, limit) < s.len() ==> utf8_len(s.take(fit_prefix(s, limit) as int))
            + char_width(s[fit_prefix(s, limit) as int]) > limit,
    decreases s.len(),
{
    if s.len() > 0 && char_width(s[0]) <= limit {
        let t = s.drop_first();
        let w = char_width(s[0]);
        lemma_fit_prefix(t, limit - w);
        let n = fit_prefix(t, limit - w) as int;
        assert(s.take(n + 1).drop_first() =~= t.take(n));
        assert(s.take(n + 1)[0] == s[0]);
        assert(utf8_len(s.take(n + 1)) == w + utf8_len(t.take(n)));
        if n + 1 < s.len() {
            assert(s[n + 1] == t[n]);
        }
    } else {
        assert(s.take(0) =~= Seq::<char>::empty());
    }
}

/// The RTT view keeps the newest text: what it keeps is a suffix of the
/// text; text within [`RTT_BUF_CAP`] bytes is kept whole, and longer text
/// loses only whole characters at the front, down to between
/// [`RTT_BUF_CAP`] and [`RTT_BUF_CAP`] + 3 bytes.
pub proof fn lemma_rtt_view_bounded(s: Seq<char>)
    ensures
        capped_buffer(s) == s.skip(s.len() - capped_buffer(s).len()),
        utf8_len(s) <= RTT_BUF_CAP ==> capped_buffer(s) == s,
        utf8_len(s) > RTT_BUF_CAP ==> RTT_BUF_CAP <= utf8_len(capped_buffer(s)) <= RTT_BUF_CAP + 3,
{
    if utf8_len(s) > RTT_BUF_CAP {
        let limit = utf8_len(s) - RTT_BUF_CAP;
        lemma_fit_prefix(s, limit);
        let n = fit_prefix(s, limit) as int;
        assert(s =~= s.take(n) + s.skip(n));
        lemma_utf8_len_concat(s.take(n), s.skip(n));
        if n == s.len() {
            assert(s.take(n) =~= s);
        } else {
            assert(char_width(s[n]) <= 4);
        }
        assert(s.skip(s.len() - s.skip(n).len()) =~= s.skip(n));
    } else {
        assert(s.skip(0) =~= s);
    }
}

/// Text that `String::from_utf8_lossy` makes of some bytes (invalid
/// sequences become U+FFFD).
pub uninterp spec fn utf8_lossy(bytes: Seq<u8>) -> Seq<char>;

/// `String::from_utf8_lossy`: the result is named [`utf8_lossy`].
#[verifier::external_body]
fn lossy_text(bytes: &[u8]) -> (s: String)
    ensures
        s@ == utf8_lossy(bytes@),
{
    String::from_utf8_lossy(bytes).into_owned()
}

/// The effect of a probe listing.
#[verifier::opaque]
pub open spec fn probes_effect(old: ProbeUiApp, new: ProbeUiApp, r: Result<Vec<ProbeInfo>, String>) -> bool {
    match r {
        Ok(list) => {
            &&& new == ProbeUiApp {
                probing: false,
                probes: list,
                selected_probe: if old.selected_probe >= list.len() {
                    0
                } else {
                    old.selected_probe
                },
                log: new.log,
                ..old
            }
            &&& logs(
                old.log@,
                new.log@,
                if list.len() == 0 {
                    item(LogLevel::Warn, msg_text(old.lang, Msg::NoProbes))
                } else {
                    item(
                        LogLevel::Success,
                        message(old.lang, Msg::DetectedProbes, seq![decimal(list.len() as nat)]),
                    )
                },
            )
        },
        Err(e) => {
            &&& new == ProbeUiApp { probing: false, log: new.log, ..old }
            &&& logs(old.log@, new.log@, item(LogLevel::Error, e@))
        },
    }
}

/// The effect of a connection attempt's outcome: on success the target is
/// kept, reading back defaults to the first flash region and the memory
/// viewer to the first RAM region; on failure manual selection is offered.
#[verifier::opaque]
pub open spec fn connected_effect(old: ProbeUiApp, new: ProbeUiApp, r: Result<TargetSummary, String>) -> bool {
    match r {
        Ok(summary) => {
            let flash = first_region(summary.memory@, "FLASH"@);
            let ram = first_region(summary.memory@, "RAM"@);
            &&& new == ProbeUiApp {
                connecting: false,
                busy: false,
                connected: Some(summary),
                read_start: match flash {
                    Some(f) => f.start,
                    None => old.read_start,
                },
                read_end: match flash {
                    Some(f) => f.end,
                    None => old.read_end,
                },
                bin_base: match flash {
                    Some(f) => f.start,
                    None => old.bin_base,
                },
                mem_start: match ram {
                    Some(m) => m.start,
                    None => old.mem_start,
                },
                mem_write_start: match ram {
                    Some(m) => m.start,
                    None => old.mem_write_start,
                },
                log: new.log,
                ..old
            }
            &&& logs(
                old.log@,
                new.log@,
                item(LogLevel::Success, message(old.lang, Msg::ConnectedTo, seq![summary.name@])),
            )
        },
        Err(e) => {
            &&& new == ProbeUiApp {
                connecting: false,
                busy: false,
                show_manual: true,
                log: new.log,
                ..old
            }
            &&& logs(old.log@, new.log@, item(LogLevel::Error, e@))
        },
    }
}

/// The effect of a finished operation.
#[verifier::opaque]
pub open spec fn done_effect(old: ProbeUiApp, new: ProbeUiApp, r: Result<(), String>) -> bool {
    &&& new == ProbeUiApp { busy: false, log: new.log, ..old }
    &&& logs(
        old.log@,
        new.log@,
        match r {
            Ok(_) => item(LogLevel::Success, msg_text(old.lang, Msg::OperationCompleted)),
            Err(e) => item(LogLevel::Error, e@),
        },
    )
}

/// The effect of a finished firmware scan: the candidates are kept and the
/// best one becomes the firmware file.
#[verifier::opaque]
pub open spec fn scanned_effect(
    old: ProbeUiApp,
    new: ProbeUiApp,
    root: String,
    candidates: Vec<FirmwareCandidate>,
    best: Option<usize>,
) -> bool {
    let n = candidates@.len();
    &&& new == ProbeUiApp {
        firmware_scanning: false,
        firmware_root: root,
        firmware_candidates: candidates,
        file_path: if n > 0 && best is Some {
            candidates@[best->0 as int].path
        } else {
            old.file_path
        },
        log: new.log,
        ..old
    }
    &&& logs(
        old.log@,
        new.log@,
        if n == 0 {
            item(LogLevel::Warn, message(old.lang, Msg::NoFirmwareFound, seq![root@]))
        } else if best is Some {
            item(
                LogLevel::Success,
                message(
                    old.lang,
                    Msg::AutoDetectedFirmware,
                    seq![candidates@[best->0 as int].path@, decimal(n)],
                ),
            ) + if n > 1 {
                item(LogLevel::Info, msg_text(old.lang, Msg::UseOtherFirmware))
            } else {
                no_items()
            }
        } else {
            no_items()
        },
    )
}

/// Whether a finished generation connects: it was asked to, a probe is
/// there and a chip was generated.
pub open spec fn connects_after(result: TargetGenResult, auto: bool, probes: nat) -> bool {
    auto && probes > 0 && first_chip(result.loaded@) is Some
}

/// The log lines of a finished generation: the count, each written file,
/// what was added for selection and what happens about connecting.
pub open spec fn generation_items(lang: Lang, result: TargetGenResult, auto: bool, probes: nat) -> Seq<
    (LogLevel, Seq<char>),
> {
    let n = result.families@.len();
    let loaded_n = result.loaded@.len();
    let chip = first_chip(result.loaded@);
    item(LogLevel::Success, message(lang, Msg::TargetsGenerated, seq![decimal(n)])) + written_items(
        result.families@,
        lang,
    ) + (if loaded_n > 0 {
        item(LogLevel::Info, message(lang, Msg::TgLoadedToSelection, seq![decimal(loaded_n)]))
    } else {
        no_items()
    }) + (if auto && probes == 0 {
        item(LogLevel::Warn, msg_text(lang, Msg::ConnectFirst))
    } else if connects_after(result, auto, probes) {
        item(LogLevel::Info, message(lang, Msg::ConnectingTo, seq![chip->0@]))
    } else {
        no_items()
    })
}

/// The effect of a finished pack generation.
#[verifier::opaque]
pub open spec fn target_gen_effect(
    old: ProbeUiApp,
    new: ProbeUiApp,
    r: Result<TargetGenResult, String>,
    cmd: Option<WorkerCommand>,
) -> bool {
    match r {
        Ok(result) => {
            let auto = old.tg_auto_connect;
            let chip = first_chip(result.loaded@);
            let connect = connects_after(result, auto, old.probes@.len());
            &&& merged(
                old,
                ProbeUiApp {
                    tg_busy: old.tg_busy,
                    tg_auto_connect: old.tg_auto_connect,
                    tg_result: old.tg_result,
                    manual_target: old.manual_target,
                    connecting: old.connecting,
                    busy: old.busy,
                    log: old.log,
                    ..new
                },
                result.loaded@,
            )
            &&& new.tg_busy == false
            &&& new.tg_auto_connect == false
            &&& new.tg_result == Some(result)
            &&& new.manual_target == (if connect {
                chip->0
            } else {
                old.manual_target
            })
            &&& new.connecting == (connect || old.connecting)
            &&& new.busy == (connect || old.busy)
            &&& logs(old.log@, new.log@, generation_items(old.lang, result, auto, old.probes@.len()))
            &&& cmd == (if connect {
                Some(
                    WorkerCommand::ConnectManual {
                        probe: old.selected_probe,
                        target: chip->0,
                        boot_mode: old.boot_mode,
                    },
                )
            } else {
                None
            })
        },
        Err(e) => {
            &&& new == ProbeUiApp { tg_busy: false, tg_auto_connect: false, log: new.log, ..old }
            &&& logs(old.log@, new.log@, item(LogLevel::Error, e@))
            &&& cmd is None
        },
    }
}

/// The effect of RTT starting: the channel counts are kept and choices of
/// channels that do not exist fall back to all (view) and 0 (send).
#[verifier::opaque]
pub open spec fn rtt_started_effect(old: ProbeUiApp, new: ProbeUiApp, up: usize, down: usize) -> bool {
    &&& new == ProbeUiApp {
        rtt_on: true,
        rtt_up_channels: up,
        rtt_down_channels: down,
        rtt_view_channel: match old.rtt_view_channel {
            Some(v) => if v >= up {
                None
            } else {
                Some(v)
            },
            None => None,
        },
        rtt_send_channel: if old.rtt_send_channel >= (if down > 1 { down } else { 1 }) {
            0
        } else {
            old.rtt_send_channel
        },
        log: new.log,
        ..old
    }
    &&& logs(
        old.log@,
        new.log@,
        item(
            LogLevel::Success,
            message(old.lang, Msg::RttStartedSummary, seq![decimal(up as nat), decimal(down as nat)]),
        ),
    )
}

/// The effect of a memory read's outcome.
#[verifier::opaque]
pub open spec fn memory_read_effect(old: ProbeUiApp, new: ProbeUiApp, r: Result<Vec<u8>, String>) -> bool {
    match r {
        Ok(data) => {
            &&& new == ProbeUiApp {
                mem_busy: false,
                mem_read_addr: old.mem_start,
                mem_data: data,
                log: new.log,
                ..old
            }
            &&& logs(
                old.log@,
                new.log@,
                item(
                    LogLevel::Success,
                    message(old.lang, Msg::MemoryReadDone, seq![decimal(data@.len())]),
                ),
            )
        },
        Err(e) => {
            &&& new == ProbeUiApp { mem_busy: false, mem_data: new.mem_data, log: new.log, ..old }
            &&& new.mem_data@.len() == 0
            &&& logs(old.log@, new.log@, item(LogLevel::Error, e@))
        },
    }
}

/// Only the log changed: `items` were appended.
pub open spec fn logged(old: ProbeUiApp, new: ProbeUiApp, items: Seq<(LogLevel, Seq<char>)>) -> bool {
    &&& new == ProbeUiApp { log: new.log, ..old }
    &&& logs(old.log@, new.log@, items)
}

/// The effect of a progress report: only the bars change.
#[verifier::opaque]
pub open spec fn progress_effect(
    old: ProbeUiApp,
    new: ProbeUiApp,
    operation: Seq<char>,
    done: u64,
    total: Option<u64>,
    state: OpState,
) -> bool {
    &&& new == ProbeUiApp { op_bars: new.op_bars, ..old }
    &&& bars_after(old.op_bars@, new.op_bars@, operation, done, total, state)
}

/// The effect of a loaded chip file: its family joins the list.
#[verifier::opaque]
pub open spec fn chip_file_effect(old: ProbeUiApp, new: ProbeUiApp, r: Result<ChipFileInfo, String>) -> bool {
    match r {
        Ok(info) => {
            &&& merged(old, ProbeUiApp { log: old.log, ..new }, seq![info])
            &&& logs(
                old.log@,
                new.log@,
                item(
                    LogLevel::Success,
                    message(
                        old.lang,
                        Msg::ChipFileLoaded,
                        seq![info.family_name@, decimal(info.chips@.len())],
                    ),
                ),
            )
        },
        Err(e) => logged(old, new, item(LogLevel::Error, e@)),
    }
}

/// The effect of a generated pack: its families join the list.
#[verifier::opaque]
pub open spec fn pack_effect(old: ProbeUiApp, new: ProbeUiApp, r: Result<Vec<ChipFileInfo>, String>) -> bool {
    match r {
        Ok(infos) => {
            &&& merged(old, ProbeUiApp { log: old.log, ..new }, infos@)
            &&& logs(
                old.log@,
                new.log@,
                item(
                    LogLevel::Success,
                    message(old.lang, Msg::PackGenerated, seq![decimal(infos@.len())]),
                ),
            )
        },
        Err(e) => logged(old, new, item(LogLevel::Error, e@)),
    }
}

/// The effect of RTT data: only the view's text changes.
#[verifier::opaque]
pub open spec fn rtt_data_effect(old: ProbeUiApp, new: ProbeUiApp, channel: usize, data: Seq<u8>) -> bool {
    &&& new == ProbeUiApp { rtt_buf: new.rtt_buf, ..old }
    &&& new.rtt_buf@ == capped_buffer(old.rtt_buf@ + rtt_addition(old.rtt_view_channel, channel, data))
}

/// The effect of a memory write's outcome.
#[verifier::opaque]
pub open spec fn memory_write_effect(old: ProbeUiApp, new: ProbeUiApp, r: Result<(), String>) -> bool {
    &&& new == ProbeUiApp { mem_busy: false, log: new.log, ..old }
    &&& logs(
        old.log@,
        new.log@,
        match r {
            Ok(_) => item(LogLevel::Success, msg_text(old.lang, Msg::MemoryWritten)),
            Err(e) => item(LogLevel::Error, e@),
        },
    )
}

/// An event that the interface can take: a scan's best candidate, if any,
/// is one of its candidates.
pub open spec fn event_ok(ev: WorkerEvent) -> bool {
    match ev {
        WorkerEvent::FirmwareScanned { candidates, best, .. } => candidates@.len() == 0 || match best {
            Some(i) => i < candidates@.len(),
            None => true,
        },
        _ => true,
    }
}

/// Whether the interface can take `ev` (see [`event_ok`]).
pub fn event_ok_check(ev: &WorkerEvent) -> (r: bool)
    ensures
        r == event_ok(*ev),
{
    match ev {
        WorkerEvent::FirmwareScanned { candidates, best, .. } => candidates.len() == 0 || match best {
            Some(i) => *i < candidates.len(),
            None => true,
        },
        _ => true,
    }
}

/// What taking in `ev` does to the state, and the command it sends.
pub open spec fn event_effect(old: ProbeUiApp, new: ProbeUiApp, ev: WorkerEvent, cmd: Option<WorkerCommand>) -> bool {
    match ev {
        WorkerEvent::Probes(r) => probes_effect(old, new, r) && cmd is None,
        WorkerEvent::Connected(r) => connected_effect(old, new, r) && cmd is None,
        WorkerEvent::Status(s) => logged(old, new, item(LogLevel::Info, s@)) && cmd is None,
        WorkerEvent::Diagnostic(s) => logged(old, new, item(LogLevel::Info, s@)) && cmd is None,
        WorkerEvent::Progress { operation, done, total, state } => progress_effect(
            old,
            new,
            operation@,
            done,
            total,
            state,
        ) && cmd is None,
        WorkerEvent::OperationDone(r) => done_effect(old, new, r) && cmd is None,
        WorkerEvent::FirmwareScanned { root, candidates, best } => scanned_effect(
            old,
            new,
            root,
            candidates,
            best,
        ) && cmd is None,
        WorkerEvent::ChipFileLoaded(r) => chip_file_effect(old, new, r) && cmd is None,
        WorkerEvent::PackGenerated(r) => pack_effect(old, new, r) && cmd is None,
        WorkerEvent::TargetGenDone(r) => target_gen_effect(old, new, r, cmd),
        WorkerEvent::RttData { channel, data } => rtt_data_effect(old, new, channel, data@) && cmd is None,
        WorkerEvent::RttStarted { up_channels, down_channels } => rtt_started_effect(
            old,
            new,
            up_channels,
            down_channels,
        ) && cmd is None,
        WorkerEvent::RttStopped => new == ProbeUiApp { rtt_on: false, ..old } && cmd is None,
        WorkerEvent::MemoryRead(r) => memory_read_effect(old, new, r) && cmd is None,
        WorkerEvent::MemoryWrite(r) => memory_write_effect(old, new, r) && cmd is None,
    }
}

} // verus!

verus! {

// ---------------------------------------------------------------------------
// Taking in events
// ---------------------------------------------------------------------------

/// A copy of a list of strings.
fn copy_strings(v: &Vec<String>) -> (r: Vec<String>)
    ensures
        r@ == v@,
{
    let mut r: Vec<String> = Vec::new();
    let mut i: usize = 0;
    while i < v.len()
        invariant
            i <= v.len(),
            r@ == v@.take(i as int),
        decreases v.len() - i,
    {
        let s = v[i].clone();
        proof {
            assert(v@.take(i + 1) =~= v@.take(i as int).push(v@[i as int]));
        }
        r.push(s);
        i = i + 1;
    }
    assert(v@.take(v@.len() as int) =~= v@);
    r
}

/// Position of the first family of `fams` named `name`.
fn find_family(fams: &Vec<ChipFamilyInfo>, name: &str) -> (r: Option<usize>)
    ensures
        match r {
            Some(i) => i == family_index(families_view(fams@), name@, 0) && i < fams@.len(),
            None => family_index(families_view(fams@), name@, 0) == -1,
        },
{
    let ghost v = families_view(fams@);
    let mut i: usize = 0;
    while i < fams.len()
        invariant
            i <= fams.len(),
            v == families_view(fams@),
            family_index(v, name@, 0) == family_index(v, name@, i as int),
        decreases fams.len() - i,
    {
        if str_eq(fams[i].name.as_str(), name) {
            return Some(i);
        }
        i = i + 1;
    }
    None
}

/// Whether one of `chips` is named `name`.
fn has_chip(chips: &Vec<String>, name: &str) -> (r: bool)
    ensures
        r == views(chips@).contains(name@),
{
    let mut i: usize = 0;
    while i < chips.len()
        invariant
            i <= chips.len(),
            forall|k: int| 0 <= k < i ==> views(chips@)[k] != name@,
        decreases chips.len() - i,
    {
        if str_eq(chips[i].as_str(), name) {
            assert(views(chips@)[i as int] == name@);
            return true;
        }
        i = i + 1;
    }
    false
}

/// Adds to `chips` each chip of `extra` that it lacks, in order.
fn add_missing_chips(chips: &mut Vec<String>, extra: &Vec<String>)
    ensures
        views(final(chips)@) == chips_union(views(old(chips)@), views(extra@)),
{
    let ghost start = views(chips@);
    let mut k: usize = 0;
    assert(views(extra@.take(0)) =~= Seq::<Seq<char>>::empty());
    while k < extra.len()
        invariant
            k <= extra.len(),
            views(chips@) == chips_union(start, views(extra@.take(k as int))),
        decreases extra.len() - k,
    {
        let ghost t = views(extra@.take(k + 1));
        proof {
            assert(t.drop_last() =~= views(extra@.take(k as int)));
            assert(t.last() == extra@[k as int]@);
        }
        if !has_chip(chips, extra[k].as_str()) {
            let c = extra[k].clone();
            chips.push(c);
            assert(views(chips@) =~= chips_union(start, views(extra@.take(k as int))).push(t.last()));
        }
        k = k + 1;
    }
    assert(extra@.take(extra@.len() as int) =~= extra@);
}

/// Merges the family of one chip file into `fams`: a family of the same
/// name gains the chips it lacks; otherwise the family is appended under
/// `brand`.
fn merge_family_into(fams: &mut Vec<ChipFamilyInfo>, info: &ChipFileInfo, brand: &String)
    ensures
        families_view(final(fams)@) == merge_family(
            families_view(old(fams)@),
            info.family_name@,
            views(info.chips@),
            brand@,
        ),
{
    match find_family(fams, info.family_name.as_str()) {
        Some(i) => {
            let mut chips = copy_strings(&fams[i].chips);
            add_missing_chips(&mut chips, &info.chips);
            let f = ChipFamilyInfo { name: fams[i].name.clone(), brand: fams[i].brand.clone(), chips };
            let ghost before = fams@;
            fams.set(i, f);
            assert(families_view(fams@) =~= families_view(before).update(i as int, family_view(f)));
        },
        None => {
            let name = info.family_name.clone();
            let chips = copy_strings(&info.chips);
            let b = brand.clone();
            let ghost before = fams@;
            let f = ChipFamilyInfo { name, brand: b, chips };
            fams.push(f);
            assert(families_view(fams@) =~= families_view(before).push(family_view(f)));
        },
    }
}

/// Merges the family of each chip file into `fams`, in order.
pub(crate) fn merge_families_into(fams: &mut Vec<ChipFamilyInfo>, infos: &Vec<ChipFileInfo>, brand: &String)
    ensures
        families_view(final(fams)@) == merge_families(families_view(old(fams)@), infos@, brand@),
{
    let ghost start = families_view(fams@);
    let mut k: usize = 0;
    assert(infos@.take(0) =~= Seq::<ChipFileInfo>::empty());
    while k < infos.len()
        invariant
            k <= infos.len(),
            families_view(fams@) == merge_families(start, infos@.take(k as int), brand@),
        decreases infos.len() - k,
    {
        proof {
            let t = infos@.take(k + 1);
            assert(t.drop_last() =~= infos@.take(k as int));
            assert(t.last() == infos@[k as int]);
        }
        merge_family_into(fams, &infos[k], brand);
        k = k + 1;
    }
    assert(infos@.take(infos@.len() as int) =~= infos@);
}

/// Groups the families by brand again when `changed`.
pub(crate) fn regroup(brands: &mut Vec<ChipBrandInfo>, fams: &Vec<ChipFamilyInfo>, changed: bool)
    ensures
        changed ==> is_brand_grouping(fams@, final(brands)@),
        !changed ==> *final(brands) == *old(brands),
{
    if changed {
        *brands = group_brands(fams.as_slice());
    }
}

impl ProbeUiApp {
    /// Merges the family of each loaded chip file into the list, in order:
    /// a family already listed under the same name gains the chips it lacks,
    /// any other joins under the external-pack brand; then the families are
    /// grouped by brand again.
    #[verifier::rlimit(100)]
    pub fn merge_chip_files(&mut self, infos: &Vec<ChipFileInfo>)
        ensures
            merged(*old(self), *final(self), infos@),
            *final(self) == (ProbeUiApp {
                chip_families: final(self).chip_families,
                chip_brands: final(self).chip_brands,
                ..*old(self)
            }),
    {
        reveal(merged);
        let brand = self.text(Msg::BrandExternal);
        merge_families_into(&mut self.chip_families, infos, &brand);
        if infos.len() > 0 {
            self.chip_brands = group_brands(self.chip_families.as_slice());
        }
    }
}

/// Start and end of the first region of kind `kind`.
fn first_region_bounds(m: &Vec<MemRegionInfo>, kind: &str) -> (r: Option<(u64, u64)>)
    ensures
        r == (match first_region(m@, kind@) {
            Some(x) => Some((x.start, x.end)),
            None => None,
        }),
{
    let mut i: usize = 0;
    assert(m@.skip(0) =~= m@);
    while i < m.len()
        invariant
            i <= m.len(),
            first_region(m@, kind@) == first_region(m@.skip(i as int), kind@),
        decreases m.len() - i,
    {
        proof {
            assert(m@.skip(i as int)[0] == m@[i as int]);
            assert(m@.skip(i as int).drop_first() =~= m@.skip(i + 1));
        }
        if str_eq(m[i].kind, kind) {
            return Some((m[i].start, m[i].end));
        }
        i = i + 1;
    }
    None
}

/// Index of the first bar labelled `label`.
fn find_bar(bars: &Vec<OpBar>, label: &str) -> (r: Option<usize>)
    ensures
        match r {
            Some(i) => i == bar_index(bars@, label@, 0) && i < bars@.len(),
            None => bar_index(bars@, label@, 0) == -1,
        },
{
    let mut i: usize = 0;
    while i < bars.len()
        invariant
            i <= bars.len(),
            bar_index(bars@, label@, 0) == bar_index(bars@, label@, i as int),
        decreases bars.len() - i,
    {
        if str_eq(bars[i].label.as_str(), label) {
            return Some(i);
        }
        i = i + 1;
    }
    None
}

/// The text that an RTT report adds to the view.
fn rtt_text(view: Option<usize>, channel: usize, data: &Vec<u8>) -> (r: Vec<char>)
    ensures
        r@ == rtt_addition(view, channel, data@),
{
    let text = lossy_text(data.as_slice());
    let mut buf: Vec<char> = Vec::new();
    match view {
        Some(v) => {
            if v == channel {
                append_str(&mut buf, text.as_str());
                assert(buf@ =~= text@);
            }
        },
        None => {
            append_str(&mut buf, "[CH");
            let d = decimal_text(channel as u64);
            append_str(&mut buf, d.as_str());
            append_str(&mut buf, "] ");
            append_str(&mut buf, text.as_str());
        },
    }
    buf
}

/// Appends the characters of `s`.
fn append_str(buf: &mut Vec<char>, s: &str)
    ensures
        final(buf)@ == old(buf)@ + s@,
{
    let mut v = chars_of(s);
    buf.append(&mut v);
}

/// The characters of `buf` within [`RTT_BUF_CAP`] bytes.
fn cap_chars(buf: Vec<char>) -> (r: Vec<char>)
    ensures
        r@ == capped_buffer(buf@),
{
    let total = utf8_length(&buf);
    if total <= RTT_BUF_CAP as u128 {
        return buf;
    }
    let overflow = total - RTT_BUF_CAP as u128;
    let mut cnt: usize = 0;
    let mut acc: u128 = 0;
    assert(buf@.skip(0) =~= buf@);
    while cnt < buf.len() && acc + width_of(buf[cnt]) as u128 <= overflow
        invariant
            cnt <= buf@.len(),
            acc <= overflow,
            overflow <= 4 * buf@.len(),
            overflow == utf8_len(buf@) - RTT_BUF_CAP,
            fit_prefix(buf@, overflow as int) == cnt + fit_prefix(
                buf@.skip(cnt as int),
                overflow - acc,
            ),
        decreases buf@.len() - cnt,
    {
        proof {
            let t = buf@.skip(cnt as int);
            assert(t[0] == buf@[cnt as int]);
            assert(t.drop_first() =~= buf@.skip(cnt + 1));
        }
        acc = acc + width_of(buf[cnt]) as u128;
        cnt = cnt + 1;
    }
    proof {
        let t = buf@.skip(cnt as int);
        if cnt < buf@.len() {
            assert(t[0] == buf@[cnt as int]);
        }
    }
    let mut b = buf;
    let tail = b.split_off(cnt);
    tail
}

/// The first variant of the first loaded family that has any.
pub(crate) fn first_chip_of(loaded: &Vec<ChipFileInfo>) -> (r: Option<String>)
    ensures
        r == first_chip(loaded@),
{
    let mut i: usize = 0;
    assert(loaded@.skip(0) =~= loaded@);
    while i < loaded.len()
        invariant
            i <= loaded.len(),
            first_chip(loaded@) == first_chip(loaded@.skip(i as int)),
        decreases loaded.len() - i,
    {
        proof {
            assert(loaded@.skip(i as int)[0] == loaded@[i as int]);
            assert(loaded@.skip(i as int).drop_first() =~= loaded@.skip(i + 1));
        }
        if loaded[i].chips.len() > 0 {
            return Some(loaded[i].chips[0].clone());
        }
        i = i + 1;
    }
    None
}

/// Notes the pack files that were written.
fn note_written(pending: &mut Vec<LogEntry>, fams: &Vec<TargetGenFamilyInfo>, lang: Lang)
    ensures
        entries_items(final(pending)@) == entries_items(old(pending)@) + written_items(fams@, lang),
{
    let ghost start = entries_items(pending@);
    let mut k: usize = 0;
    assert(fams@.take(0) =~= Seq::<TargetGenFamilyInfo>::empty());
    assert(start + no_items() =~= start);
    while k < fams.len()
        invariant
            k <= fams.len(),
            entries_items(pending@) == start + written_items(fams@.take(k as int), lang),
        decreases fams.len() - k,
    {
        let ghost before = entries_items(pending@);
        proof {
            assert(fams@.take(k + 1).drop_last() =~= fams@.take(k as int));
            assert(fams@.take(k + 1).last() == fams@[k as int]);
        }
        let f = &fams[k];
        if !f.output_file.as_str().is_empty() {
            let mut args: Vec<String> = Vec::new();
            args.push(f.output_file.clone());
            args.push(decimal_text(f.variant_count as u64));
            proof {
                assert(views(args@) =~= seq![f.output_file@, decimal(f.variant_count as nat)]);
            }
            let t = fill(lang.tr(Msg::TargetFileWritten), args.as_slice());
            note(pending, LogLevel::Info, t);
            assert(entries_items(pending@) =~= start + written_items(fams@.take(k + 1), lang));
        } else {
            assert(before + no_items() =~= before);
            assert(entries_items(pending@) =~= start + written_items(fams@.take(k + 1), lang));
        }
        k = k + 1;
    }
    assert(fams@.take(fams@.len() as int) =~= fams@);
}

/// The bar after a progress report.
fn updated_bar(bar: &OpBar, done: u64, total: Option<u64>, state: OpState) -> (r: OpBar)
    ensures
        r == bar_updated(*bar, done, total, state),
{
    let t = match total {
        Some(x) => Some(x),
        None => bar.total,
    };
    match state {
        OpState::Active => OpBar {
            label: bar.label.clone(),
            done: bar.done.wrapping_add(done),
            total: t,
            state: bar.state,
        },
        OpState::Done => OpBar {
            label: bar.label.clone(),
            done: match t {
                Some(x) => x,
                None => bar.done,
            },
            total: t,
            state: OpState::Done,
        },
        OpState::Failed => OpBar {
            label: bar.label.clone(),
            done: bar.done,
            total: t,
            state: OpState::Failed,
        },
    }
}

/// Applies a progress report for `label` to the bars.
fn apply_progress(bars: &mut Vec<OpBar>, label: &str, done: u64, total: Option<u64>, state: OpState)
    ensures
        bars_after(old(bars)@, final(bars)@, label@, done, total, state),
{
    match find_bar(bars, label) {
        Some(i) => {
            let updated = updated_bar(&bars[i], done, total, state);
            bars.set(i, updated);
        },
        None => {
            bars.push(OpBar { label: owned(label), done, total, state });
            assert(bars@.drop_last() =~= old(bars)@);
        },
    }
}

/// The steps of taking in a finished generation make up its effect.
pub(crate) proof fn lemma_generation_effect(
    old: ProbeUiApp,
    mid: ProbeUiApp,
    new: ProbeUiApp,
    result: TargetGenResult,
    cmd: Option<WorkerCommand>,
)
    requires
        merged(old, mid, result.loaded@),
        mid == (ProbeUiApp { chip_families: mid.chip_families, chip_brands: mid.chip_brands, ..old }),
        new == (ProbeUiApp {
            manual_target: if connects_after(result, old.tg_auto_connect, old.probes@.len()) {
                first_chip(result.loaded@)->0
            } else {
                old.manual_target
            },
            connecting: connects_after(result, old.tg_auto_connect, old.probes@.len()) || mid.connecting,
            busy: connects_after(result, old.tg_auto_connect, old.probes@.len()) || mid.busy,
            tg_busy: false,
            tg_auto_connect: false,
            tg_result: Some(result),
            log: new.log,
            ..mid
        }),
        logs(
            mid.log@,
            new.log@,
            generation_items(old.lang, result, old.tg_auto_connect, old.probes@.len()),
        ),
        cmd == (if connects_after(result, old.tg_auto_connect, old.probes@.len()) {
            Some(
                WorkerCommand::ConnectManual {
                    probe: old.selected_probe,
                    target: first_chip(result.loaded@)->0,
                    boot_mode: old.boot_mode,
                },
            )
        } else {
            None
        }),
    ensures
        target_gen_effect(old, new, Ok(result), cmd),
{
    reveal(target_gen_effect);
    assert(ProbeUiApp {
        tg_busy: old.tg_busy,
        tg_auto_connect: old.tg_auto_connect,
        tg_result: old.tg_result,
        manual_target: old.manual_target,
        connecting: old.connecting,
        busy: old.busy,
        log: old.log,
        ..new
    } == mid);
}

/// Merging chip files keeps every position that a brand lists valid.
proof fn lemma_merged_in_range(old: ProbeUiApp, new: ProbeUiApp, infos: Seq<ChipFileInfo>)
    requires
        merged(old, new, infos),
        members_in_range(old.chip_families@, old.chip_brands@),
    ensures
        members_in_range(new.chip_families@, new.chip_brands@),
{
    reveal(merged);
    if infos.len() > 0 {
        lemma_grouping_in_range(new.chip_families@, new.chip_brands@);
    } else {
        assert(families_view(new.chip_families@).len() == families_view(old.chip_families@).len());
        assert forall|b: int, k: int|
            0 <= b < new.chip_brands@.len() && 0 <= k < new.chip_brands@[b].families@.len() implies #[trigger] new.chip_brands@[b].families@[k]
            < new.chip_families@.len() by {
            assert(old.chip_brands@[b].families@[k] < old.chip_families@.len());
        }
    }
}

/// Taking in an event keeps every position that a brand lists valid.
pub proof fn lemma_event_keeps_chip_list(
    old: ProbeUiApp,
    new: ProbeUiApp,
    ev: WorkerEvent,
    cmd: Option<WorkerCommand>,
)
    requires
        event_effect(old, new, ev, cmd),
        members_in_range(old.chip_families@, old.chip_brands@),
    ensures
        members_in_range(new.chip_families@, new.chip_brands@),
{
    match ev {
        WorkerEvent::Probes(r) => {
            reveal(probes_effect);
        },
        WorkerEvent::Connected(r) => {
            reveal(connected_effect);
        },
        WorkerEvent::Progress { .. } => {
            reveal(progress_effect);
        },
        WorkerEvent::OperationDone(r) => {
            reveal(done_effect);
        },
        WorkerEvent::FirmwareScanned { .. } => {
            reveal(scanned_effect);
        },
        WorkerEvent::ChipFileLoaded(r) => {
            reveal(chip_file_effect);
            match r {
                Ok(info) => lemma_merged_in_range(old, ProbeUiApp { log: old.log, ..new }, seq![info]),
                Err(_) => {},
            }
        },
        WorkerEvent::PackGenerated(r) => {
            reveal(pack_effect);
            match r {
                Ok(infos) => lemma_merged_in_range(old, ProbeUiApp { log: old.log, ..new }, infos@),
                Err(_) => {},
            }
        },
        WorkerEvent::TargetGenDone(r) => {
            reveal(target_gen_effect);
            match r {
                Ok(result) => lemma_merged_in_range(
                    old,
                    ProbeUiApp {
                        tg_busy: old.tg_busy,
                        tg_auto_connect: old.tg_auto_connect,
                        tg_result: old.tg_result,
                        manual_target: old.manual_target,
                        connecting: old.connecting,
                        busy: old.busy,
                        log: old.log,
                        ..new
                    },
                    result.loaded@,
                ),
                Err(_) => {},
            }
        },
        WorkerEvent::RttData { .. } => {
            reveal(rtt_data_effect);
        },
        WorkerEvent::RttStarted { .. } => {
            reveal(rtt_started_effect);
        },
        WorkerEvent::MemoryRead(r) => {
            reveal(memory_read_effect);
        },
        WorkerEvent::MemoryWrite(r) => {
            reveal(memory_write_effect);
        },
        _ => {},
    }
}

impl ProbeUiApp {
    fn on_probes(&mut self, r: Result<Vec<ProbeInfo>, String>)
        ensures
            probes_effect(*old(self), *final(self), r),
    {
        match r {
            Ok(list) => self.probes_listed(list),
            Err(e) => self.probing_failed(e),
        }
    }

    fn probes_listed(&mut self, list: Vec<ProbeInfo>)
        ensures
            probes_effect(*old(self), *final(self), Ok(list)),
    {
        reveal(probes_effect);
        let n = list.len();
        let t = if n == 0 {
            self.text(Msg::NoProbes)
        } else {
            self.message1(Msg::DetectedProbes, decimal_text(n as u64))
        };
        let level = if n == 0 {
            LogLevel::Warn
        } else {
            LogLevel::Success
        };
        self.probing = false;
        self.probes = list;
        self.selected_probe = if self.selected_probe >= n {
            0
        } else {
            self.selected_probe
        };
        self.log(t, level);
    }

    fn probing_failed(&mut self, e: String)
        ensures
            probes_effect(*old(self), *final(self), Err(e)),
    {
        reveal(probes_effect);
        self.probing = false;
        self.log(e, LogLevel::Error);
    }

    fn on_connected(&mut self, r: Result<TargetSummary, String>)
        ensures
            connected_effect(*old(self), *final(self), r),
    {
        match r {
            Ok(summary) => self.target_attached(summary),
            Err(e) => self.attach_failed(e),
        }
    }

    fn target_attached(&mut self, summary: TargetSummary)
        ensures
            connected_effect(*old(self), *final(self), Ok(summary)),
    {
        reveal(connected_effect);
        let t = self.message1(Msg::ConnectedTo, summary.name.clone());
        self.take_regions(&summary.memory);
        self.connecting = false;
        self.busy = false;
        self.connected = Some(summary);
        self.log(t, LogLevel::Success);
    }

    /// Reading back defaults to the first flash region, the memory viewer
    /// to the first RAM region.
    fn take_regions(&mut self, memory: &Vec<MemRegionInfo>)
        ensures
            *final(self) == (ProbeUiApp {
                read_start: final(self).read_start,
                read_end: final(self).read_end,
                bin_base: final(self).bin_base,
                mem_start: final(self).mem_start,
                mem_write_start: final(self).mem_write_start,
                ..*old(self)
            }),
            final(self).read_start == (match first_region(memory@, "FLASH"@) {
                Some(f) => f.start,
                None => old(self).read_start,
            }),
            final(self).read_end == (match first_region(memory@, "FLASH"@) {
                Some(f) => f.end,
                None => old(self).read_end,
            }),
            final(self).bin_base == (match first_region(memory@, "FLASH"@) {
                Some(f) => f.start,
                None => old(self).bin_base,
            }),
            final(self).mem_start == (match first_region(memory@, "RAM"@) {
                Some(m) => m.start,
                None => old(self).mem_start,
            }),
            final(self).mem_write_start == (match first_region(memory@, "RAM"@) {
                Some(m) => m.start,
                None => old(self).mem_write_start,
            }),
    {
        let (read_start, read_end, bin_base) = match first_region_bounds(memory, "FLASH") {
            Some((start, end)) => (start, end, start),
            None => (self.read_start, self.read_end, self.bin_base),
        };
        let (mem_start, mem_write_start) = match first_region_bounds(memory, "RAM") {
            Some((start, _)) => (start, start),
            None => (self.mem_start, self.mem_write_start),
        };
        self.read_start = read_start;
        self.read_end = read_end;
        self.bin_base = bin_base;
        self.mem_start = mem_start;
        self.mem_write_start = mem_write_start;
    }

    fn attach_failed(&mut self, e: String)
        ensures
            connected_effect(*old(self), *final(self), Err(e)),
    {
        reveal(connected_effect);
        self.connecting = false;
        self.busy = false;
        self.show_manual = true;
        self.log(e, LogLevel::Error);
    }

    fn on_progress(&mut self, operation: &str, done: u64, total: Option<u64>, state: OpState)
        ensures
            progress_effect(*old(self), *final(self), operation@, done, total, state),
    {
        reveal(progress_effect);
        apply_progress(&mut self.op_bars, operation, done, total, state);
    }

    fn on_done(&mut self, r: Result<(), String>)
        ensures
            done_effect(*old(self), *final(self), r),
    {
        reveal(done_effect);
        self.busy = false;
        let (t, level) = match r {
            Ok(_) => (self.text(Msg::OperationCompleted), LogLevel::Success),
            Err(e) => (e, LogLevel::Error),
        };
        self.log(t, level);
    }

    fn on_scanned(&mut self, root: String, candidates: Vec<FirmwareCandidate>, best: Option<usize>)
        requires
            candidates@.len() == 0 || match best {
                Some(i) => i < candidates@.len(),
                None => true,
            },
        ensures
            scanned_effect(*old(self), *final(self), root, candidates, best),
    {
        reveal(scanned_effect);
        self.firmware_scanning = false;
        let n = candidates.len();
        let mut pending: Vec<LogEntry> = Vec::new();
        assert(entries_items(pending@) =~= no_items());
        if n == 0 {
            let t = self.message1(Msg::NoFirmwareFound, root.clone());
            note(&mut pending, LogLevel::Warn, t);
        } else {
            match best {
                Some(i) => {
                    self.file_path = candidates[i].path.clone();
                    let t = self.message2(
                        Msg::AutoDetectedFirmware,
                        candidates[i].path.clone(),
                        decimal_text(n as u64),
                    );
                    note(&mut pending, LogLevel::Success, t);
                    if n > 1 {
                        let more = self.text(Msg::UseOtherFirmware);
                        note(&mut pending, LogLevel::Info, more);
                    } else {
                        assert(entries_items(pending@) + no_items() =~= entries_items(pending@));
                    }
                },
                None => {},
            }
        }
        self.firmware_root = root;
        self.firmware_candidates = candidates;
        self.log_all(pending);
    }

    fn on_chip_file(&mut self, r: Result<ChipFileInfo, String>)
        ensures
            chip_file_effect(*old(self), *final(self), r),
    {
        reveal(chip_file_effect);
        let (t, level) = match r {
            Ok(info) => {
                let n = info.chips.len();
                let name = info.family_name.clone();
                let mut infos: Vec<ChipFileInfo> = Vec::new();
                infos.push(info);
                assert(infos@ =~= seq![info]);
                self.merge_chip_files(&infos);
                (self.message2(Msg::ChipFileLoaded, name, decimal_text(n as u64)), LogLevel::Success)
            },
            Err(e) => (e, LogLevel::Error),
        };
        self.log(t, level);
    }

    fn on_pack(&mut self, r: Result<Vec<ChipFileInfo>, String>)
        ensures
            pack_effect(*old(self), *final(self), r),
    {
        reveal(pack_effect);
        let (t, level) = match r {
            Ok(infos) => {
                self.merge_chip_files(&infos);
                (self.message1(Msg::PackGenerated, decimal_text(infos.len() as u64)), LogLevel::Success)
            },
            Err(e) => (e, LogLevel::Error),
        };
        self.log(t, level);
    }

    fn on_rtt_data(&mut self, channel: usize, data: &Vec<u8>)
        ensures
            rtt_data_effect(*old(self), *final(self), channel, data@),
    {
        reveal(rtt_data_effect);
        let mut added = rtt_text(self.rtt_view_channel, channel, data);
        let mut buf = chars_of(self.rtt_buf.as_str());
        buf.append(&mut added);
        let kept = cap_chars(buf);
        self.rtt_buf = string_of(&kept);
    }

    fn on_rtt_started(&mut self, up: usize, down: usize)
        ensures
            rtt_started_effect(*old(self), *final(self), up, down),
    {
        reveal(rtt_started_effect);
        let t = self.message2(
            Msg::RttStartedSummary,
            decimal_text(up as u64),
            decimal_text(down as u64),
        );
        let most = if down > 1 {
            down
        } else {
            1
        };
        self.rtt_on = true;
        self.rtt_up_channels = up;
        self.rtt_down_channels = down;
        self.rtt_view_channel = match self.rtt_view_channel {
            Some(v) => if v >= up {
                None
            } else {
                Some(v)
            },
            None => None,
        };
        self.rtt_send_channel = if self.rtt_send_channel >= most {
            0
        } else {
            self.rtt_send_channel
        };
        self.log(t, LogLevel::Success);
    }

    fn on_memory_read(&mut self, r: Result<Vec<u8>, String>)
        ensures
            memory_read_effect(*old(self), *final(self), r),
    {
        match r {
            Ok(data) => self.memory_arrived(data),
            Err(e) => self.memory_read_failed(e),
        }
    }

    fn memory_arrived(&mut self, data: Vec<u8>)
        ensures
            memory_read_effect(*old(self), *final(self), Ok(data)),
    {
        reveal(memory_read_effect);
        let t = self.message1(Msg::MemoryReadDone, decimal_text(data.len() as u64));
        self.mem_busy = false;
        self.mem_read_addr = self.mem_start;
        self.mem_data = data;
        self.log(t, LogLevel::Success);
    }

    fn memory_read_failed(&mut self, e: String)
        ensures
            memory_read_effect(*old(self), *final(self), Err(e)),
    {
        reveal(memory_read_effect);
        self.mem_busy = false;
        self.mem_data = Vec::new();
        self.log(e, LogLevel::Error);
    }

    fn on_memory_write(&mut self, r: Result<(), String>)
        ensures
            memory_write_effect(*old(self), *final(self), r),
    {
        reveal(memory_write_effect);
        self.mem_busy = false;
        let (t, level) = match r {
            Ok(_) => (self.text(Msg::MemoryWritten), LogLevel::Success),
            Err(e) => (e, LogLevel::Error),
        };
        self.log(t, level);
    }
}

/// The log entries of a finished generation.
pub(crate) fn generation_log(lang: Lang, result: &TargetGenResult, auto: bool, probes: usize, chip: &Option<String>) -> (v: Vec<LogEntry>)
    requires
        *chip == first_chip(result.loaded@),
    ensures
        entries_items(v@) == generation_items(lang, *result, auto, probes as nat),
{
    let mut v: Vec<LogEntry> = Vec::new();
    assert(entries_items(v@) =~= no_items());
    let mut args: Vec<String> = Vec::new();
    args.push(decimal_text(result.families.len() as u64));
    assert(views(args@) =~= seq![decimal(result.families@.len())]);
    note(&mut v, LogLevel::Success, fill(lang.tr(Msg::TargetsGenerated), args.as_slice()));
    let ghost first = entries_items(v@);
    note_written(&mut v, &result.families, lang);
    let ghost second = entries_items(v@);
    if result.loaded.len() > 0 {
        let mut args: Vec<String> = Vec::new();
        args.push(decimal_text(result.loaded.len() as u64));
        assert(views(args@) =~= seq![decimal(result.loaded@.len())]);
        note(&mut v, LogLevel::Info, fill(lang.tr(Msg::TgLoadedToSelection), args.as_slice()));
    } else {
        assert(second + no_items() =~= second);
    }
    let ghost third = entries_items(v@);
    if auto && probes == 0 {
        note(&mut v, LogLevel::Warn, owned(lang.tr(Msg::ConnectFirst)));
    } else if auto && probes > 0 && chip.is_some() {
        match chip {
            Some(c) => {
                let mut args: Vec<String> = Vec::new();
                args.push(c.clone());
                assert(views(args@) =~= seq![c@]);
                note(&mut v, LogLevel::Info, fill(lang.tr(Msg::ConnectingTo), args.as_slice()));
            },
            None => {},
        }
    } else {
        assert(third + no_items() =~= third);
    }
    v
}

impl ProbeUiApp {
    #[verifier::rlimit(100)]
    #[verifier::spinoff_prover]
    fn targets_generated(&mut self, result: TargetGenResult) -> (cmd: Option<WorkerCommand>)
        ensures
            target_gen_effect(*old(self), *final(self), Ok(result), cmd),
    {
        let ghost start = *self;
        let ghost res = result;
        let auto = self.tg_auto_connect;
        let chip = first_chip_of(&result.loaded);
        let probes = self.probes.len();
        let connect = auto && probes > 0 && chip.is_some();
        let pending = generation_log(self.lang, &result, auto, probes, &chip);
        let (manual, cmd) = self.connect_choice(chip, connect);
        self.merge_chip_files(&result.loaded);
        let ghost mid = *self;
        self.finish_generation(manual, connect, result, pending);
        proof {
            lemma_generation_effect(start, mid, *self, res, cmd);
        }
        cmd
    }

    /// Records a finished generation and logs it.
    #[verifier::rlimit(100)]
    #[verifier::spinoff_prover]
    fn finish_generation(&mut self, manual: String, connect: bool, result: TargetGenResult, pending: Vec<LogEntry>)
        ensures
            *final(self) == (ProbeUiApp {
                manual_target: manual,
                connecting: connect || old(self).connecting,
                busy: connect || old(self).busy,
                tg_busy: false,
                tg_auto_connect: false,
                tg_result: Some(result),
                log: final(self).log,
                ..*old(self)
            }),
            logs(old(self).log@, final(self).log@, entries_items(pending@)),
    {
        self.manual_target = manual;
        self.connecting = connect || self.connecting;
        self.busy = connect || self.busy;
        self.tg_busy = false;
        self.tg_auto_connect = false;
        self.tg_result = Some(result);
        self.log_all(pending);
    }

    /// The target to select and the command to send after a generation.
    pub(crate) fn connect_choice(&self, chip: Option<String>, connect: bool) -> (r: (String, Option<WorkerCommand>))
        requires
            connect ==> chip is Some,
        ensures
            r.0 == (if connect {
                chip->0
            } else {
                self.manual_target
            }),
            r.1 == (if connect {
                Some(
                    WorkerCommand::ConnectManual {
                        probe: self.selected_probe,
                        target: chip->0,
                        boot_mode: self.boot_mode,
                    },
                )
            } else {
                None
            }),
    {
        match chip {
            Some(c) => if connect {
                (
                    c.clone(),
                    Some(
                        WorkerCommand::ConnectManual {
                            probe: self.selected_probe,
                            target: c,
                            boot_mode: self.boot_mode,
                        },
                    ),
                )
            } else {
                (self.manual_target.clone(), None)
            },
            None => (self.manual_target.clone(), None),
        }
    }

    fn target_gen_failed(&mut self, e: String)
        ensures
            target_gen_effect(*old(self), *final(self), Err(e), None),
    {
        reveal(target_gen_effect);
        self.tg_busy = false;
        self.tg_auto_connect = false;
        self.log(e, LogLevel::Error);
    }

    /// Takes in an event from the worker: updates the state and the log
    /// as the event reports, and returns the command that a finished pack
    /// generation sends to connect, if any.
    pub fn handle_event(&mut self, ev: WorkerEvent) -> (cmd: Option<WorkerCommand>)
        requires
            event_ok(ev),
        ensures
            event_effect(*old(self), *final(self), ev, cmd),
            members_in_range(old(self).chip_families@, old(self).chip_brands@) ==> members_in_range(
                final(self).chip_families@,
                final(self).chip_brands@,
            ),
    {
        let ghost e = ev;
        let ghost start = *self;
        let cmd = match ev {
            WorkerEvent::Probes(_)
            | WorkerEvent::Connected(_)
            | WorkerEvent::Status(_)
            | WorkerEvent::Diagnostic(_) => self.link_event(ev),
            WorkerEvent::Progress { .. }
            | WorkerEvent::OperationDone(_)
            | WorkerEvent::FirmwareScanned { .. } => self.operation_event(ev),
            WorkerEvent::ChipFileLoaded(_)
            | WorkerEvent::PackGenerated(_)
            | WorkerEvent::TargetGenDone(_) => self.chip_event(ev),
            WorkerEvent::RttData { .. }
            | WorkerEvent::RttStarted { .. }
            | WorkerEvent::RttStopped => self.rtt_event(ev),
            WorkerEvent::MemoryRead(_) | WorkerEvent::MemoryWrite(_) => self.memory_event(ev),
        };
        proof {
            if members_in_range(start.chip_families@, start.chip_brands@) {
                lemma_event_keeps_chip_list(start, *self, e, cmd);
            }
        }
        cmd
    }

    fn link_event(&mut self, ev: WorkerEvent) -> (cmd: Option<WorkerCommand>)
        requires
            ev is Probes || ev is Connected || ev is Status || ev is Diagnostic,
        ensures
            event_effect(*old(self), *final(self), ev, cmd),
    {
        match ev {
            WorkerEvent::Probes(r) => self.on_probes(r),
            WorkerEvent::Connected(r) => self.on_connected(r),
            WorkerEvent::Status(s) => self.log(s, LogLevel::Info),
            WorkerEvent::Diagnostic(s) => self.log(s, LogLevel::Info),
            _ => {},
        }
        None
    }

    fn operation_event(&mut self, ev: WorkerEvent) -> (cmd: Option<WorkerCommand>)
        requires
            ev is Progress || ev is OperationDone || ev is FirmwareScanned,
            event_ok(ev),
        ensures
            event_effect(*old(self), *final(self), ev, cmd),
    {
        match ev {
            WorkerEvent::Progress { operation, done, total, state } => self.on_progress(
                operation,
                done,
                total,
                state,
            ),
            WorkerEvent::OperationDone(r) => self.on_done(r),
            WorkerEvent::FirmwareScanned { root, candidates, best } => self.on_scanned(
                root,
                candidates,
                best,
            ),
            _ => {},
        }
        None
    }

    fn chip_event(&mut self, ev: WorkerEvent) -> (cmd: Option<WorkerCommand>)
        requires
            ev is ChipFileLoaded || ev is PackGenerated || ev is TargetGenDone,
        ensures
            event_effect(*old(self), *final(self), ev, cmd),
    {
        match ev {
            WorkerEvent::ChipFileLoaded(r) => {
                self.on_chip_file(r);
                None
            },
            WorkerEvent::PackGenerated(r) => {
                self.on_pack(r);
                None
            },
            WorkerEvent::TargetGenDone(r) => self.on_target_gen(r),
            _ => None,
        }
    }

    fn rtt_event(&mut self, ev: WorkerEvent) -> (cmd: Option<WorkerCommand>)
        requires
            ev is RttData || ev is RttStarted || ev is RttStopped,
        ensures
            event_effect(*old(self), *final(self), ev, cmd),
    {
        match ev {
            WorkerEvent::RttData { channel, data } => self.on_rtt_data(channel, &data),
            WorkerEvent::RttStarted { up_channels, down_channels } => self.on_rtt_started(
                up_channels,
                down_channels,
            ),
            WorkerEvent::RttStopped => self.rtt_on = false,
            _ => {},
        }
        None
    }

    fn memory_event(&mut self, ev: WorkerEvent) -> (cmd: Option<WorkerCommand>)
        requires
            ev is MemoryRead || ev is MemoryWrite,
        ensures
            event_effect(*old(self), *final(self), ev, cmd),
    {
        match ev {
            WorkerEvent::MemoryRead(r) => self.on_memory_read(r),
            WorkerEvent::MemoryWrite(r) => self.on_memory_write(r),
            _ => {},
        }
        None
    }

    fn on_target_gen(&mut self, r: Result<TargetGenResult, String>) -> (cmd: Option<WorkerCommand>)
        ensures
            target_gen_effect(*old(self), *final(self), r, cmd),
    {
        match r {
            Ok(result) => self.targets_generated(result),
            Err(e) => {
                self.target_gen_failed(e);
                None
            },
        }
    }
}

} // verus!
