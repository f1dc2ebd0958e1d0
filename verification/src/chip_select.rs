//! Manual target selection: the search filter over the chip list and the
//! brand / family / variant cascade that the three columns show.

use vstd::prelude::*;

use crate::app_state::ProbeUiApp;
use crate::chips::brand_members;
use crate::chips::is_brand_grouping;
use crate::chips::ChipBrandInfo;
use crate::chips::ChipFamilyInfo;
use crate::text::chars_of;
use crate::text::contains;
use crate::text::contains_chars;
use crate::text::lowercase;
use crate::text::string_of;
use crate::text::to_lower;
use crate::text::trim;
use crate::text::trim_chars;

verus! {

// ---------------------------------------------------------------------------
// The filter
// ---------------------------------------------------------------------------

/// The text the search box filters by: trimmed, in lower case.
pub open spec fn search_filter(search: Seq<char>) -> Seq<char> {
    lowercase(trim(search))
}

/// Some variant of `f` contains `filter` (compared in lower case).
pub open spec fn chip_hit(f: ChipFamilyInfo, filter: Seq<char>) -> bool {
    exists|c: int| 0 <= c < f.chips@.len() && contains(lowercase(#[trigger] f.chips@[c]@), filter)
}

/// `f` is shown under `filter`: no filter, or its name or one of its
/// variants contains it.
pub open spec fn family_shown(f: ChipFamilyInfo, filter: Seq<char>) -> bool {
    filter.len() == 0 || contains(lowercase(f.name@), filter) || chip_hit(f, filter)
}

/// The members of a brand that are shown, in order.
pub open spec fn shown_families(fams: Seq<ChipFamilyInfo>, members: Seq<usize>, filter: Seq<char>) -> Seq<usize> {
    members.filter(|i: usize| family_shown(fams[i as int], filter))
}

/// The rows of the brand column over the first `n` brands: each brand with
/// at least one shown family, with those families.
pub open spec fn brand_rows(
    fams: Seq<ChipFamilyInfo>,
    brands: Seq<ChipBrandInfo>,
    filter: Seq<char>,
    n: int,
) -> Seq<(usize, Seq<usize>)>
    decreases n,
{
    if n <= 0 {
        Seq::empty()
    } else {
        let rest = brand_rows(fams, brands, filter, n - 1);
        let kept = shown_families(fams, brands[n - 1].families@, filter);
        if kept.len() > 0 {
            rest.push(((n - 1) as usize, kept))
        } else {
            rest
        }
    }
}

/// Position of the first row of brand `b`, from row `k` on.
pub open spec fn row_of(rows: Seq<(usize, Seq<usize>)>, b: usize, k: int) -> Option<int>
    decreases rows.len() - k,
{
    if k < 0 || k >= rows.len() {
        None
    } else if rows[k].0 == b {
        Some(k)
    } else {
        row_of(rows, b, k + 1)
    }
}

/// The row that is selected: that of the selected brand, else the first.
pub open spec fn selected_row(rows: Seq<(usize, Seq<usize>)>, sel: Option<usize>) -> int {
    match sel {
        Some(b) => match row_of(rows, b, 0) {
            Some(p) => p,
            None => 0,
        },
        None => 0,
    }
}

/// The first of `s`, if any.
pub open spec fn first_of(s: Seq<usize>) -> Option<usize> {
    if s.len() > 0 {
        Some(s[0])
    } else {
        None
    }
}

/// The first family of `cands` from position `k` on with a variant that
/// contains `filter`.
pub open spec fn first_chip_hit(fams: Seq<ChipFamilyInfo>, cands: Seq<usize>, filter: Seq<char>, k: int) -> Option<
    usize,
>
    decreases cands.len() - k,
{
    if k < 0 || k >= cands.len() {
        None
    } else if chip_hit(fams[cands[k] as int], filter) {
        Some(cands[k])
    } else {
        first_chip_hit(fams, cands, filter, k + 1)
    }
}

/// The family that is selected among the shown families `cands`: the
/// selected one if it is shown, else the first; when searching, a family
/// with no matching variant gives way to the first that has one.
pub open spec fn selected_family(
    fams: Seq<ChipFamilyInfo>,
    cands: Seq<usize>,
    sel: Option<usize>,
    filter: Seq<char>,
) -> Option<usize> {
    let base = match sel {
        Some(i) => if cands.contains(i) {
            Some(i)
        } else {
            first_of(cands)
        },
        None => first_of(cands),
    };
    if filter.len() == 0 {
        base
    } else {
        let good = match base {
            Some(i) => i < fams.len() && chip_hit(fams[i as int], filter),
            None => false,
        };
        if good {
            base
        } else {
            match first_chip_hit(fams, cands, filter, 0) {
                Some(i) => Some(i),
                None => first_of(cands),
            }
        }
    }
}

/// Positions of the variants of `f` that are shown under `filter`.
pub open spec fn shown_variants(f: ChipFamilyInfo, filter: Seq<char>, n: int) -> Seq<usize>
    decreases n,
{
    if n <= 0 {
        Seq::empty()
    } else {
        let rest = shown_variants(f, filter, n - 1);
        if filter.len() == 0 || contains(lowercase(f.chips@[n - 1]@), filter) {
            rest.push((n - 1) as usize)
        } else {
            rest
        }
    }
}

/// Every family index that a brand lists is a valid index.
pub open spec fn members_in_range(fams: Seq<ChipFamilyInfo>, brands: Seq<ChipBrandInfo>) -> bool {
    forall|b: int, k: int|
        0 <= b < brands.len() && 0 <= k < brands[b].families@.len() ==> #[trigger] brands[b].families@[k]
            < fams.len()
}

/// What the three columns show.
pub struct ChipView {
    /// The brands with a shown family: the brand's position and its shown
    /// families.
    pub brands: Vec<(usize, Vec<usize>)>,
    /// The shown families of the selected brand.
    pub families: Vec<usize>,
    /// The selected brand.
    pub brand: Option<usize>,
    /// The selected family.
    pub family: Option<usize>,
    /// Positions of the selected family's variants that are shown.
    pub variants: Vec<usize>,
}

/// The view of the rows.
pub open spec fn rows_view(rows: Seq<(usize, Vec<usize>)>) -> Seq<(usize, Seq<usize>)> {
    rows.map_values(|r: (usize, Vec<usize>)| (r.0, r.1@))
}

/// `v` is what the columns show for the chip list, the search text and the
/// current selection.
pub open spec fn is_chip_view(
    v: ChipView,
    fams: Seq<ChipFamilyInfo>,
    brands: Seq<ChipBrandInfo>,
    search: Seq<char>,
    sel_brand: Option<usize>,
    sel_family: Option<usize>,
) -> bool {
    let filter = search_filter(search);
    let rows = brand_rows(fams, brands, filter, brands.len() as int);
    let pos = selected_row(rows, sel_brand);
    let cands = if pos < rows.len() {
        rows[pos].1
    } else {
        Seq::empty()
    };
    let fam = selected_family(fams, cands, sel_family, filter);
    &&& rows_view(v.brands@) == rows
    &&& v.brand == (if pos < rows.len() {
        Some(rows[pos].0)
    } else {
        None
    })
    &&& v.families@ == cands
    &&& v.family == fam
    &&& v.variants@ == (match fam {
        Some(i) => if i < fams.len() {
            shown_variants(fams[i as int], filter, fams[i as int].chips@.len() as int)
        } else {
            Seq::empty()
        },
        None => Seq::empty(),
    })
}

// ---------------------------------------------------------------------------
// Computing the view
// ---------------------------------------------------------------------------

/// Whether `text` contains `filter` in lower case.
fn lower_contains(text: &String, filter: &Vec<char>) -> (r: bool)
    ensures
        r == contains(lowercase(text@), filter@),
{
    let l = to_lower(text.as_str());
    let lc = chars_of(l.as_str());
    contains_chars(&lc, filter)
}

/// Whether a variant of `f` contains `filter`.
fn has_chip_hit(f: &ChipFamilyInfo, filter: &Vec<char>) -> (r: bool)
    ensures
        r == chip_hit(*f, filter@),
{
    let mut c: usize = 0;
    while c < f.chips.len()
        invariant
            c <= f.chips@.len(),
            forall|j: int| 0 <= j < c ==> !contains(lowercase(#[trigger] f.chips@[j]@), filter@),
        decreases f.chips@.len() - c,
    {
        if lower_contains(&f.chips[c], filter) {
            assert(contains(lowercase(f.chips@[c as int]@), filter@));
            return true;
        }
        c = c + 1;
    }
    false
}

/// Whether `f` is shown under `filter`.
fn is_shown(f: &ChipFamilyInfo, filter: &Vec<char>) -> (r: bool)
    ensures
        r == family_shown(*f, filter@),
{
    filter.len() == 0 || lower_contains(&f.name, filter) || has_chip_hit(f, filter)
}

/// The shown members of a brand.
fn shown_of(fams: &Vec<ChipFamilyInfo>, members: &Vec<usize>, filter: &Vec<char>) -> (r: Vec<usize>)
    requires
        forall|k: int| 0 <= k < members@.len() ==> #[trigger] members@[k] < fams@.len(),
    ensures
        r@ == shown_families(fams@, members@, filter@),
{
    let ghost f = filter@;
    let mut r: Vec<usize> = Vec::new();
    let mut k: usize = 0;
    while k < members.len()
        invariant
            k <= members@.len(),
            f == filter@,
            forall|j: int| 0 <= j < members@.len() ==> #[trigger] members@[j] < fams@.len(),
            r@ == members@.take(k as int).filter(|i: usize| family_shown(fams@[i as int], f)),
        decreases members@.len() - k,
    {
        let i = members[k];
        let keep = is_shown(&fams[i], filter);
        if keep {
            r.push(i);
        }
        proof {
            assert(members@.take(k + 1).drop_last() =~= members@.take(k as int));
            assert(members@.take(k + 1).last() == i);
            reveal_with_fuel(Seq::<_>::filter, 1);
        }
        k = k + 1;
    }
    assert(members@.take(members@.len() as int) =~= members@);
    r
}

/// The rows of the brand column.
fn rows_of(fams: &Vec<ChipFamilyInfo>, brands: &Vec<ChipBrandInfo>, filter: &Vec<char>) -> (r: Vec<
    (usize, Vec<usize>),
>)
    requires
        members_in_range(fams@, brands@),
    ensures
        rows_view(r@) == brand_rows(fams@, brands@, filter@, brands@.len() as int),
{
    let mut r: Vec<(usize, Vec<usize>)> = Vec::new();
    let mut b: usize = 0;
    assert(rows_view(r@) =~= Seq::<(usize, Seq<usize>)>::empty());
    while b < brands.len()
        invariant
            b <= brands@.len(),
            members_in_range(fams@, brands@),
            rows_view(r@) == brand_rows(fams@, brands@, filter@, b as int),
        decreases brands@.len() - b,
    {
        let ghost before = r@;
        proof {
            assert forall|k: int| 0 <= k < brands@[b as int].families@.len() implies #[trigger] brands@[b as int].families@[k]
                < fams@.len() by {
                assert(brands@[b as int].families@[k] == brands@[b as int].families@[k]);
            }
        }
        let kept = shown_of(fams, &brands[b].families, filter);
        if kept.len() > 0 {
            r.push((b, kept));
            assert(rows_view(r@) =~= rows_view(before).push((b, brand_rows(fams@, brands@, filter@, b + 1).last().1)));
        }
        b = b + 1;
    }
    r
}

/// Position of the first row of brand `b`.
fn find_row(rows: &Vec<(usize, Vec<usize>)>, b: usize) -> (r: Option<usize>)
    ensures
        match r {
            Some(p) => p < rows@.len() && row_of(rows_view(rows@), b, 0) == Some(p as int),
            None => row_of(rows_view(rows@), b, 0) is None,
        },
{
    let ghost rv = rows_view(rows@);
    let mut k: usize = 0;
    while k < rows.len()
        invariant
            k <= rows@.len(),
            rv == rows_view(rows@),
            row_of(rv, b, 0) == row_of(rv, b, k as int),
        decreases rows@.len() - k,
    {
        assert(rv[k as int].0 == rows@[k as int].0);
        if rows[k].0 == b {
            return Some(k);
        }
        k = k + 1;
    }
    None
}

/// A copy of a list of positions.
fn copy_positions(v: &Vec<usize>) -> (r: Vec<usize>)
    ensures
        r@ == v@,
{
    let mut r: Vec<usize> = Vec::new();
    let mut i: usize = 0;
    while i < v.len()
        invariant
            i <= v@.len(),
            r@ == v@.take(i as int),
        decreases v@.len() - i,
    {
        proof {
            assert(v@.take(i + 1) =~= v@.take(i as int).push(v@[i as int]));
        }
        r.push(v[i]);
        i = i + 1;
    }
    assert(v@.take(v@.len() as int) =~= v@);
    r
}

/// Whether `i` is one of `v`.
fn holds(v: &Vec<usize>, i: usize) -> (r: bool)
    ensures
        r == v@.contains(i),
{
    let mut k: usize = 0;
    while k < v.len()
        invariant
            k <= v@.len(),
            forall|j: int| 0 <= j < k ==> v@[j] != i,
        decreases v@.len() - k,
    {
        if v[k] == i {
            assert(v@[k as int] == i);
            return true;
        }
        k = k + 1;
    }
    false
}

/// The first candidate with a variant that contains `filter`.
fn find_chip_hit(fams: &Vec<ChipFamilyInfo>, cands: &Vec<usize>, filter: &Vec<char>) -> (r: Option<usize>)
    requires
        forall|k: int| 0 <= k < cands@.len() ==> #[trigger] cands@[k] < fams@.len(),
    ensures
        r == first_chip_hit(fams@, cands@, filter@, 0),
{
    let mut k: usize = 0;
    while k < cands.len()
        invariant
            k <= cands@.len(),
            forall|j: int| 0 <= j < cands@.len() ==> #[trigger] cands@[j] < fams@.len(),
            first_chip_hit(fams@, cands@, filter@, 0) == first_chip_hit(fams@, cands@, filter@, k as int),
        decreases cands@.len() - k,
    {
        let i = cands[k];
        if has_chip_hit(&fams[i], filter) {
            return Some(i);
        }
        k = k + 1;
    }
    None
}

/// The shown variants of `f`.
fn variants_of(f: &ChipFamilyInfo, filter: &Vec<char>) -> (r: Vec<usize>)
    ensures
        r@ == shown_variants(*f, filter@, f.chips@.len() as int),
{
    let mut r: Vec<usize> = Vec::new();
    let mut c: usize = 0;
    while c < f.chips.len()
        invariant
            c <= f.chips@.len(),
            r@ == shown_variants(*f, filter@, c as int),
        decreases f.chips@.len() - c,
    {
        if filter.len() == 0 || lower_contains(&f.chips[c], filter) {
            r.push(c);
        }
        c = c + 1;
    }
    r
}

/// The family to select among the shown families of the selected brand.
fn pick_family(fams: &Vec<ChipFamilyInfo>, cands: &Vec<usize>, sel: Option<usize>, filter: &Vec<char>) -> (r: Option<
    usize,
>)
    requires
        forall|k: int| 0 <= k < cands@.len() ==> #[trigger] cands@[k] < fams@.len(),
    ensures
        r == selected_family(fams@, cands@, sel, filter@),
{
    let first = if cands.len() > 0 {
        Some(cands[0])
    } else {
        None
    };
    let base = match sel {
        Some(i) => if holds(cands, i) {
            Some(i)
        } else {
            first
        },
        None => first,
    };
    if filter.len() == 0 {
        return base;
    }
    let good = match base {
        Some(i) => i < fams.len() && has_chip_hit(&fams[i], filter),
        None => false,
    };
    if good {
        base
    } else {
        match find_chip_hit(fams, cands, filter) {
            Some(i) => Some(i),
            None => first,
        }
    }
}

/// What the brand, family and variant columns show for the chip list,
/// the search text and the current selection.
pub fn chip_view(
    fams: &Vec<ChipFamilyInfo>,
    brands: &Vec<ChipBrandInfo>,
    search: &str,
    sel_brand: Option<usize>,
    sel_family: Option<usize>,
) -> (v: ChipView)
    requires
        members_in_range(fams@, brands@),
    ensures
        is_chip_view(v, fams@, brands@, search@, sel_brand, sel_family),
{
    let trimmed = trim_chars(&chars_of(search));
    let lower = to_lower(string_of(&trimmed).as_str());
    let filter = chars_of(lower.as_str());
    let rows = rows_of(fams, brands, &filter);
    let ghost rv = rows_view(rows@);
    let pos: usize = match sel_brand {
        Some(b) => match find_row(&rows, b) {
            Some(p) => p,
            None => 0,
        },
        None => 0,
    };
    let (brand, cands) = if pos < rows.len() {
        assert(rv[pos as int] == (rows@[pos as int].0, rows@[pos as int].1@));
        (Some(rows[pos].0), copy_positions(&rows[pos].1))
    } else {
        (None, Vec::new())
    };
    proof {
        lemma_rows_in_range(fams@, brands@, filter@, brands@.len() as int);
        if pos < rows@.len() {
            assert(cands@ == rv[pos as int].1);
            assert forall|k: int| 0 <= k < cands@.len() implies #[trigger] cands@[k] < fams@.len() by {
                assert(rv[pos as int].1[k] < fams@.len());
            }
        }
    }
    let family = pick_family(fams, &cands, sel_family, &filter);
    let variants = match family {
        Some(i) => if i < fams.len() {
            variants_of(&fams[i], &filter)
        } else {
            Vec::new()
        },
        None => Vec::new(),
    };
    let v = ChipView { brands: rows, families: cands, brand, family, variants };
    assert(filter@ == search_filter(search@));
    assert(rows_view(v.brands@) == brand_rows(fams@, brands@, search_filter(search@), brands@.len() as int));
    assert(pos as int == selected_row(rv, sel_brand));
    v
}

/// Every family that a row lists is a valid index.
proof fn lemma_rows_in_range(fams: Seq<ChipFamilyInfo>, brands: Seq<ChipBrandInfo>, filter: Seq<char>, n: int)
    requires
        members_in_range(fams, brands),
        n <= brands.len(),
    ensures
        forall|r: int, k: int|
            0 <= r < brand_rows(fams, brands, filter, n).len() && 0 <= k < brand_rows(
                fams,
                brands,
                filter,
                n,
            )[r].1.len() ==> #[trigger] brand_rows(fams, brands, filter, n)[r].1[k] < fams.len(),
    decreases n,
{
    if n > 0 {
        lemma_rows_in_range(fams, brands, filter, n - 1);
        let members = brands[n - 1].families@;
        let pred = |i: usize| family_shown(fams[i as int], filter);
        let kept = members.filter(pred);
        assert forall|k: int| 0 <= k < kept.len() implies kept[k] < fams.len() by {
            assert(kept.contains(kept[k]));
            members.lemma_filter_contains_rev(pred, kept[k]);
            let j = choose|j: int| 0 <= j < members.len() && members[j] == kept[k];
            assert(brands[n - 1].families@[j] < fams.len());
        }
        let prev = brand_rows(fams, brands, filter, n - 1);
        let rows = brand_rows(fams, brands, filter, n);
        assert(kept == shown_families(fams, members, filter));
        assert forall|r: int, k: int| 0 <= r < rows.len() && 0 <= k < rows[r].1.len() implies #[trigger] rows[r].1[k]
            < fams.len() by {
            if r < prev.len() {
                assert(rows[r] == prev[r]);
                assert(prev[r].1[k] < fams.len());
            } else {
                assert(rows[r].1 == kept);
            }
        }
    }
}

} // verus!

verus! {

/// The members of a brand among the first `n` families are below `n`.
proof fn lemma_members_below(fams: Seq<ChipFamilyInfo>, name: Seq<char>, n: int)
    ensures
        forall|k: int|
            0 <= k < brand_members(fams, name, n).len() ==> #[trigger] brand_members(fams, name, n)[k] < n,
    decreases n,
{
    if n > 0 {
        lemma_members_below(fams, name, n - 1);
        let prev = brand_members(fams, name, n - 1);
        let cur = brand_members(fams, name, n);
        assert forall|k: int| 0 <= k < cur.len() implies #[trigger] cur[k] < n by {
            if k < prev.len() {
                assert(cur[k] == prev[k]);
            }
        }
    }
}

/// A grouping by brand lists only valid family positions.
pub proof fn lemma_grouping_in_range(fams: Seq<ChipFamilyInfo>, brands: Seq<ChipBrandInfo>)
    requires
        is_brand_grouping(fams, brands),
    ensures
        members_in_range(fams, brands),
{
    assert forall|b: int, k: int|
        0 <= b < brands.len() && 0 <= k < brands[b].families@.len() implies #[trigger] brands[b].families@[k]
        < fams.len() by {
        lemma_members_below(fams, brands[b].name@, fams.len() as int);
        assert(brands[b].families@ == brand_members(fams, brands[b].name@, fams.len() as int));
    }
}

impl ProbeUiApp {
    /// Computes what the chip columns show and keeps the selection that
    /// they show.
    pub fn refresh_chip_view(&mut self) -> (v: ChipView)
        requires
            members_in_range(old(self).chip_families@, old(self).chip_brands@),
        ensures
            is_chip_view(
                v,
                old(self).chip_families@,
                old(self).chip_brands@,
                old(self).chip_search@,
                old(self).selected_brand,
                old(self).selected_family,
            ),
            *final(self) == (ProbeUiApp {
                selected_brand: v.brand,
                selected_family: v.family,
                ..*old(self)
            }),
    {
        let v = chip_view(
            &self.chip_families,
            &self.chip_brands,
            self.chip_search.as_str(),
            self.selected_brand,
            self.selected_family,
        );
        self.selected_brand = v.brand;
        self.selected_family = v.family;
        v
    }

    /// A brand was clicked: it is selected with `first_family`, the first
    /// of its shown families; with no chip chosen yet, that family's first
    /// variant is chosen.
    pub fn pick_brand(&mut self, brand: usize, first_family: Option<usize>)
        ensures
            *final(self) == (ProbeUiApp {
                selected_brand: Some(brand),
                selected_family: first_family,
                manual_target: first_variant_if_none(
                    old(self).chip_families@,
                    first_family,
                    old(self).manual_target,
                ),
                ..*old(self)
            }),
    {
        let target = self.default_target(first_family);
        self.selected_brand = Some(brand);
        self.selected_family = first_family;
        self.manual_target = target;
    }

    /// A family was clicked: it is selected; with no chip chosen yet, its
    /// first variant is chosen.
    pub fn pick_family(&mut self, family: usize)
        ensures
            *final(self) == (ProbeUiApp {
                selected_family: Some(family),
                manual_target: first_variant_if_none(
                    old(self).chip_families@,
                    Some(family),
                    old(self).manual_target,
                ),
                ..*old(self)
            }),
    {
        let target = self.default_target(Some(family));
        self.selected_family = Some(family);
        self.manual_target = target;
    }

    /// A variant was clicked: it becomes the chip to connect to.
    pub fn pick_chip(&mut self, name: String)
        ensures
            *final(self) == (ProbeUiApp { manual_target: name, ..*old(self) }),
    {
        self.manual_target = name;
    }

    fn default_target(&self, family: Option<usize>) -> (t: String)
        ensures
            t == first_variant_if_none(self.chip_families@, family, self.manual_target),
    {
        if self.manual_target.as_str().is_empty() {
            match family {
                Some(i) => if i < self.chip_families.len() && self.chip_families[i].chips.len() > 0 {
                    return self.chip_families[i].chips[0].clone();
                },
                None => {},
            }
        }
        self.manual_target.clone()
    }
}

/// The chip after picking `family`: its first variant when no chip is
/// chosen yet and it has one, else `current`.
pub open spec fn first_variant_if_none(fams: Seq<ChipFamilyInfo>, family: Option<usize>, current: String) -> String {
    match family {
        Some(i) => if current@.len() == 0 && i < fams.len() && fams[i as int].chips@.len() > 0 {
            fams[i as int].chips@[0]
        } else {
            current
        },
        None => current,
    }
}

proof fn lemma_first_chip_hit_in(fams: Seq<ChipFamilyInfo>, cands: Seq<usize>, filter: Seq<char>, k: int)
    requires
        0 <= k,
    ensures
        first_chip_hit(fams, cands, filter, k) matches Some(i) ==> cands.contains(i),
    decreases cands.len() - k,
{
    if k < cands.len() {
        if chip_hit(fams[cands[k] as int], filter) {
            assert(cands[k] == cands[k]);
        } else {
            lemma_first_chip_hit_in(fams, cands, filter, k + 1);
        }
    }
}

proof fn lemma_rows_not_empty(fams: Seq<ChipFamilyInfo>, brands: Seq<ChipBrandInfo>, filter: Seq<char>, n: int)
    ensures
        forall|r: int|
            0 <= r < brand_rows(fams, brands, filter, n).len() ==> #[trigger] brand_rows(
                fams,
                brands,
                filter,
                n,
            )[r].1.len() > 0,
    decreases n,
{
    if n > 0 {
        lemma_rows_not_empty(fams, brands, filter, n - 1);
        let prev = brand_rows(fams, brands, filter, n - 1);
        let rows = brand_rows(fams, brands, filter, n);
        assert forall|r: int| 0 <= r < rows.len() implies #[trigger] rows[r].1.len() > 0 by {
            if r < prev.len() {
                assert(rows[r] == prev[r]);
            }
        }
    }
}

/// What the columns select is what they show: a family is selected exactly
/// when the selected brand shows families, and it is one of them; a brand
/// is selected exactly when some brand has a shown family.
pub proof fn lemma_selection_is_shown(
    v: ChipView,
    fams: Seq<ChipFamilyInfo>,
    brands: Seq<ChipBrandInfo>,
    search: Seq<char>,
    sel_brand: Option<usize>,
    sel_family: Option<usize>,
)
    requires
        is_chip_view(v, fams, brands, search, sel_brand, sel_family),
    ensures
        v.brand is Some <==> v.brands@.len() > 0,
        v.family is Some <==> v.brand is Some,
        v.family matches Some(i) ==> v.families@.contains(i),
{
    let filter = search_filter(search);
    let rows = brand_rows(fams, brands, filter, brands.len() as int);
    let pos = selected_row(rows, sel_brand);
    let cands = v.families@;
    lemma_rows_not_empty(fams, brands, filter, brands.len() as int);
    lemma_row_of_in(rows, sel_brand);
    lemma_first_chip_hit_in(fams, cands, filter, 0);
    if pos < rows.len() {
        assert(rows[pos].1.len() > 0);
        assert(cands[0] == cands[0]);
    }
}

proof fn lemma_row_of_in(rows: Seq<(usize, Seq<usize>)>, sel: Option<usize>)
    ensures
        0 <= selected_row(rows, sel),
        rows.len() > 0 ==> selected_row(rows, sel) < rows.len(),
{
    match sel {
        Some(b) => lemma_row_of_bounds(rows, b, 0),
        None => {},
    }
}

proof fn lemma_row_of_bounds(rows: Seq<(usize, Seq<usize>)>, b: usize, k: int)
    requires
        0 <= k,
    ensures
        row_of(rows, b, k) matches Some(p) ==> k <= p < rows.len(),
    decreases rows.len() - k,
{
    if k < rows.len() && rows[k].0 != b {
        lemma_row_of_bounds(rows, b, k + 1);
    }
}

proof fn lemma_shown_member_has_row(
    fams: Seq<ChipFamilyInfo>,
    brands: Seq<ChipBrandInfo>,
    filter: Seq<char>,
    n: int,
    b: int,
    k: int,
)
    requires
        0 <= b < n <= brands.len(),
        brands.len() <= usize::MAX,
        0 <= k < brands[b].families@.len(),
        family_shown(fams[brands[b].families@[k] as int], filter),
    ensures
        exists|r: int|
            0 <= r < brand_rows(fams, brands, filter, n).len() && (#[trigger] brand_rows(
                fams,
                brands,
                filter,
                n,
            )[r]).0 == b && brand_rows(fams, brands, filter, n)[r].1.contains(
                brands[b].families@[k],
            ),
    decreases n,
{
    let rows = brand_rows(fams, brands, filter, n);
    let rest = brand_rows(fams, brands, filter, n - 1);
    if b < n - 1 {
        lemma_shown_member_has_row(fams, brands, filter, n - 1, b, k);
        let r = choose|r: int|
            0 <= r < rest.len() && (#[trigger] rest[r]).0 == b && rest[r].1.contains(
                brands[b].families@[k],
            );
        assert(rows[r] == rest[r]);
        assert(rows[r].0 == b && rows[r].1.contains(brands[b].families@[k]));
    } else {
        let members = brands[b].families@;
        let kept = shown_families(fams, members, filter);
        broadcast use vstd::seq_lib::group_filter_ensures;
        assert(kept.contains(members[k]));
        assert(kept.len() > 0);
        assert(rows[rest.len() as int] == ((n - 1) as usize, kept));
        assert(rows[rest.len() as int].0 == b);
        assert(rows[rest.len() as int].1.contains(members[k]));
    }
}

/// Searching by family name: under any search text, a family whose name
/// contains the filter (the trimmed search text in lower case, compared
/// with the name in lower case) is among the families shown for its brand,
/// and that brand has a row, whether or not any of its variants matches.
pub proof fn lemma_name_match_is_shown(
    v: ChipView,
    fams: Seq<ChipFamilyInfo>,
    brands: Seq<ChipBrandInfo>,
    search: Seq<char>,
    sel_brand: Option<usize>,
    sel_family: Option<usize>,
    b: int,
    k: int,
)
    requires
        is_chip_view(v, fams, brands, search, sel_brand, sel_family),
        brands.len() <= usize::MAX,
        0 <= b < brands.len(),
        0 <= k < brands[b].families@.len(),
        brands[b].families@[k] < fams.len(),
        contains(lowercase(fams[brands[b].families@[k] as int].name@), search_filter(search)),
    ensures
        exists|r: int|
            0 <= r < v.brands@.len() && (#[trigger] v.brands@[r]).0 == b && v.brands@[r].1@.contains(
                brands[b].families@[k],
            ),
{
    let filter = search_filter(search);
    lemma_shown_member_has_row(fams, brands, filter, brands.len() as int, b, k);
    let rows = brand_rows(fams, brands, filter, brands.len() as int);
    let r = choose|r: int|
        0 <= r < rows.len() && (#[trigger] rows[r]).0 == b && rows[r].1.contains(brands[b].families@[k]);
    assert(rows_view(v.brands@)[r] == rows[r]);
    assert(v.brands@[r].1@ == rows[r].1);
}

} // verus!
