//! Chip database: families grouped by brand, brand attribution of families,
//! and the built-in family list of probe-rs.

use vstd::prelude::*;

use crate::text::chars_of;
use crate::text::contains;
use crate::text::contains_chars;
use crate::text::ends_with_chars;
use crate::text::has_prefix;
use crate::text::has_suffix;
use crate::text::lemma_lt_irreflexive;
use crate::text::lemma_lt_total;
use crate::text::lemma_lt_transitive;
use crate::text::lowercase;
use crate::text::lt_chars;
use crate::text::owned;
use crate::text::seq_eq;
use crate::text::seq_lt;
use crate::text::starts_with_chars;
use crate::text::str_eq;
use crate::text::string_of;
use crate::text::to_lower;
use crate::text::trim;
use crate::text::lemma_trim_idempotent;
use crate::text::lemma_trim_unpadded;
use crate::text::trim_chars;
use crate::text::views;

verus! {

/// A chip family and its variants (the three-column chip selector).
#[derive(Clone)]
pub struct ChipFamilyInfo {
    pub name: String,
    pub brand: String,
    pub chips: Vec<String>,
}

/// A brand and the indices of its families in the family list.
#[derive(Clone)]
pub struct ChipBrandInfo {
    pub name: String,
    pub families: Vec<usize>,
}

// ---------------------------------------------------------------------------
// Grouping by brand
// ---------------------------------------------------------------------------

/// The name of the catch-all brand, listed last.
pub open spec fn other_brand() -> Seq<char> {
    "Other"@
}

/// Brand order: by name, except that the catch-all brand comes last.
pub open spec fn brand_before(a: Seq<char>, b: Seq<char>) -> bool {
    a != other_brand() && (b == other_brand() || seq_lt(a, b))
}

/// The indices `i < n`, ascending, of the families whose brand is `name`.
pub open spec fn brand_members(fams: Seq<ChipFamilyInfo>, name: Seq<char>, n: int) -> Seq<usize>
    decreases n,
{
    if n <= 0 {
        seq![]
    } else if fams[n - 1].brand@ == name {
        brand_members(fams, name, n - 1).push((n - 1) as usize)
    } else {
        brand_members(fams, name, n - 1)
    }
}

/// Some entry of `brands` is named `name`.
pub open spec fn has_brand(brands: Seq<ChipBrandInfo>, name: Seq<char>) -> bool {
    exists|b: int| 0 <= b < brands.len() && #[trigger] brands[b].name@ == name
}

/// `brands` groups `fams` by brand: one entry per distinct brand, holding
/// the ascending indices of that brand's families, the entries ordered by
/// name with the catch-all brand last.
pub open spec fn is_brand_grouping(fams: Seq<ChipFamilyInfo>, brands: Seq<ChipBrandInfo>) -> bool {
    &&& forall|b: int|
        0 <= b < brands.len() ==> #[trigger] brands[b].families@ == brand_members(
            fams,
            brands[b].name@,
            fams.len() as int,
        ) && brands[b].families@.len() > 0
    &&& forall|i: int| 0 <= i < fams.len() ==> has_brand(brands, #[trigger] fams[i].brand@)
    &&& forall|b1: int, b2: int|
        0 <= b1 < b2 < brands.len() ==> brand_before(
            #[trigger] brands[b1].name@,
            #[trigger] brands[b2].name@,
        )
}

proof fn lemma_before_irreflexive(a: Seq<char>)
    ensures
        !brand_before(a, a),
{
    lemma_lt_irreflexive(a);
}

proof fn lemma_before_transitive(a: Seq<char>, b: Seq<char>, c: Seq<char>)
    requires
        brand_before(a, b),
        brand_before(b, c),
    ensures
        brand_before(a, c),
{
    if c != other_brand() {
        lemma_lt_transitive(a, b, c);
    }
}

proof fn lemma_before_total(a: Seq<char>, b: Seq<char>)
    requires
        a != b,
    ensures
        brand_before(a, b) || brand_before(b, a),
{
    if a != other_brand() && b != other_brand() {
        lemma_lt_total(a, b);
    }
}

proof fn lemma_members_bounds(fams: Seq<ChipFamilyInfo>, name: Seq<char>, n: int)
    requires
        0 <= n <= fams.len(),
        fams.len() <= usize::MAX,
    ensures
        forall|k: int|
            0 <= k < brand_members(fams, name, n).len() ==> {
                let i = #[trigger] brand_members(fams, name, n)[k];
                &&& i < n
                &&& fams[i as int].brand@ == name
            },
        forall|i: int|
            0 <= i < n && fams[i].brand@ == name ==> #[trigger] brand_members(
                fams,
                name,
                n,
            ).contains(i as usize),
    decreases n,
{
    if n > 0 {
        lemma_members_bounds(fams, name, n - 1);
        let prev = brand_members(fams, name, n - 1);
        let cur = brand_members(fams, name, n);
        assert forall|k: int| 0 <= k < cur.len() implies {
            let i = #[trigger] cur[k];
            &&& i < n
            &&& fams[i as int].brand@ == name
        } by {
            if k < prev.len() {
                assert(cur[k] == prev[k]);
                assert(prev[k] < n - 1);
                assert(fams[prev[k] as int].brand@ == name);
            } else {
                assert(fams[n - 1].brand@ == name);
                assert(cur[k] == (n - 1) as usize);
            }
        }
        assert forall|i: int| 0 <= i < n && fams[i].brand@ == name implies cur.contains(
            i as usize,
        ) by {
            if i < n - 1 {
                assert(prev.contains(i as usize));
                let k = choose|k: int| 0 <= k < prev.len() && prev[k] == i as usize;
                assert(cur[k] == prev[k]);
            } else {
                assert(cur[cur.len() - 1] == (n - 1) as usize);
            }
        }
    }
}

/// Groups families by brand: brands sorted by name with the catch-all brand
/// `Other` last, each holding the indices of its families in ascending order.
pub fn group_brands(families: &[ChipFamilyInfo]) -> (brands: Vec<ChipBrandInfo>)
    ensures
        is_brand_grouping(families@, brands@),
{
    let ghost fams = families@;
    let other = chars_of("Other");
    let mut brands: Vec<ChipBrandInfo> = Vec::new();
    let mut names: Vec<Vec<char>> = Vec::new();
    let mut i: usize = 0;
    while i < families.len()
        invariant
            fams == families@,
            i <= families.len(),
            other@ == other_brand(),
            names@.len() == brands@.len(),
            forall|b: int| 0 <= b < brands@.len() ==> #[trigger] names@[b]@ == brands@[b].name@,
            forall|b: int|
                0 <= b < brands@.len() ==> #[trigger] brands@[b].families@ == brand_members(
                    fams,
                    brands@[b].name@,
                    i as int,
                ) && brands@[b].families@.len() > 0,
            forall|j: int| 0 <= j < i ==> has_brand(brands@, #[trigger] fams[j].brand@),
            forall|b1: int, b2: int|
                0 <= b1 < b2 < brands@.len() ==> brand_before(
                    #[trigger] brands@[b1].name@,
                    #[trigger] brands@[b2].name@,
                ),
        decreases families.len() - i,
    {
        let bname = chars_of(families[i].brand.as_str());
        let mut b: usize = 0;
        let mut found = false;
        while b < names.len() && !found
            invariant
                b <= names@.len(),
                names@.len() == brands@.len(),
                forall|c: int| 0 <= c < brands@.len() ==> #[trigger] names@[c]@ == brands@[c].name@,
                !found ==> forall|c: int| 0 <= c < b ==> brands@[c].name@ != bname@,
                found ==> b < brands@.len() && brands@[b as int].name@ == bname@,
            decreases names@.len() - b + (if found { 0int } else { 1int }),
        {
            if seq_eq(&names[b], &bname) {
                found = true;
            } else {
                b = b + 1;
            }
        }
        let ghost old_brands = brands@;
        if found {
            let mut entry = brands.remove(b);
            entry.families.push(i);
            brands.insert(b, entry);
            proof {
                assert forall|c: int| 0 <= c < brands@.len() implies #[trigger] names@[c]@ == brands@[c].name@ by {
                    assert(brands@[c].name@ == old_brands[c].name@);
                }
                assert forall|c: int|
                    0 <= c < brands@.len() implies #[trigger] brands@[c].families@ == brand_members(
                        fams,
                        brands@[c].name@,
                        i + 1,
                    ) && brands@[c].families@.len() > 0 by {
                    assert(brands@[c].name@ == old_brands[c].name@);
                    if c == b {
                    } else {
                        assert(brands@[c] == old_brands[c]);
                        assert(brands@[c].name@ != bname@) by {
                            lemma_before_irreflexive(bname@);
                            if c < b {
                                assert(brand_before(old_brands[c].name@, old_brands[b as int].name@));
                            } else {
                                assert(brand_before(old_brands[b as int].name@, old_brands[c].name@));
                            }
                        }
                    }
                }
                assert forall|j: int| 0 <= j < i + 1 implies has_brand(brands@, #[trigger] fams[j].brand@) by {
                    if j < i {
                        let c = choose|c: int|
                            0 <= c < old_brands.len() && #[trigger] old_brands[c].name@ == fams[j].brand@;
                        assert(brands@[c].name@ == old_brands[c].name@);
                    } else {
                        assert(brands@[b as int].name@ == fams[j].brand@);
                    }
                }
                assert forall|b1: int, b2: int|
                    0 <= b1 < b2 < brands@.len() implies brand_before(
                    #[trigger] brands@[b1].name@,
                    #[trigger] brands@[b2].name@,
                ) by {
                    assert(brands@[b1].name@ == old_brands[b1].name@);
                    assert(brands@[b2].name@ == old_brands[b2].name@);
                }
            }
        } else {
            let mut p: usize = 0;
            while p < names.len() && !insert_here(&names[p], &bname, &other)
                invariant
                    p <= names@.len(),
                    names@.len() == brands@.len(),
                    other@ == other_brand(),
                    forall|c: int| 0 <= c < brands@.len() ==> #[trigger] names@[c]@ == brands@[c].name@,
                    forall|c: int| 0 <= c < p ==> !brand_before(bname@, #[trigger] brands@[c].name@),
                decreases names@.len() - p,
            {
                p = p + 1;
            }
            let mut fam_list: Vec<usize> = Vec::new();
            fam_list.push(i);
            let entry = ChipBrandInfo { name: string_of(&bname), families: fam_list };
            brands.insert(p, entry);
            names.insert(p, bname);
            proof {
                assert forall|c: int| 0 <= c < p implies brand_before(
                    #[trigger] old_brands[c].name@,
                    bname@,
                ) by {
                    lemma_before_total(old_brands[c].name@, bname@);
                }
                assert forall|c: int| 0 <= c < brands@.len() implies #[trigger] names@[c]@ == brands@[c].name@ by {
                    if c < p {
                        assert(brands@[c] == old_brands[c]);
                    } else if c > p {
                        assert(brands@[c] == old_brands[c - 1]);
                    }
                }
                assert(brand_members(fams, bname@, i as int) =~= seq![]) by {
                    lemma_members_bounds(fams, bname@, i as int);
                    if brand_members(fams, bname@, i as int).len() > 0 {
                        let j = brand_members(fams, bname@, i as int)[0];
                        let c = choose|c: int|
                            0 <= c < old_brands.len() && #[trigger] old_brands[c].name@
                                == fams[j as int].brand@;
                        assert(false);
                    }
                }
                assert forall|c: int|
                    0 <= c < brands@.len() implies #[trigger] brands@[c].families@ == brand_members(
                        fams,
                        brands@[c].name@,
                        i + 1,
                    ) && brands@[c].families@.len() > 0 by {
                    if c == p {
                        assert(brands@[c].families@ =~= seq![i]);
                    } else {
                        let oc = if c < p { c } else { c - 1 };
                        assert(brands@[c] == old_brands[oc]);
                        assert(old_brands[oc].name@ != bname@);
                    }
                }
                assert forall|j: int| 0 <= j < i + 1 implies has_brand(brands@, #[trigger] fams[j].brand@) by {
                    if j < i {
                        let c = choose|c: int|
                            0 <= c < old_brands.len() && #[trigger] old_brands[c].name@ == fams[j].brand@;
                        if c < p {
                            assert(brands@[c] == old_brands[c]);
                        } else {
                            assert(brands@[c + 1] == old_brands[c]);
                        }
                    } else {
                        assert(brands@[p as int].name@ == fams[j].brand@);
                    }
                }
                assert forall|b1: int, b2: int|
                    0 <= b1 < b2 < brands@.len() implies brand_before(
                    #[trigger] brands@[b1].name@,
                    #[trigger] brands@[b2].name@,
                ) by {
                    if b1 < p && b2 < p {
                        assert(brands@[b1] == old_brands[b1]);
                        assert(brands@[b2] == old_brands[b2]);
                    } else if b1 < p && b2 == p {
                        assert(brands@[b1] == old_brands[b1]);
                    } else if b1 < p {
                        assert(brands@[b1] == old_brands[b1]);
                        assert(brands@[b2] == old_brands[b2 - 1]);
                        assert(brand_before(bname@, old_brands[p as int].name@));
                        if b2 - 1 > p {
                            lemma_before_transitive(bname@, old_brands[p as int].name@, old_brands[b2 - 1].name@);
                        }
                        lemma_before_transitive(old_brands[b1].name@, bname@, old_brands[b2 - 1].name@);
                    } else if b1 == p {
                        assert(brands@[b2] == old_brands[b2 - 1]);
                        assert(brand_before(bname@, old_brands[p as int].name@));
                        if b2 - 1 > p {
                            lemma_before_transitive(bname@, old_brands[p as int].name@, old_brands[b2 - 1].name@);
                        }
                    } else {
                        assert(brands@[b1] == old_brands[b1 - 1]);
                        assert(brands@[b2] == old_brands[b2 - 1]);
                    }
                }
            }
        }
        i = i + 1;
    }
    brands
}

/// Whether a new brand `name` goes before the existing brand `here`.
fn insert_here(here: &Vec<char>, name: &Vec<char>, other: &Vec<char>) -> (r: bool)
    requires
        other@ == other_brand(),
    ensures
        r == brand_before(name@, here@),
{
    !seq_eq(name, other) && (seq_eq(here, other) || lt_chars(name, here))
}

/// Every family belongs to exactly one brand of a grouping.
pub proof fn lemma_each_family_in_one_brand(
    fams: Seq<ChipFamilyInfo>,
    brands: Seq<ChipBrandInfo>,
    i: int,
)
    requires
        is_brand_grouping(fams, brands),
        0 <= i < fams.len(),
        fams.len() <= usize::MAX,
    ensures
        exists|b: int| 0 <= b < brands.len() && #[trigger] brands[b].families@.contains(i as usize),
        forall|b1: int, b2: int|
            0 <= b1 < brands.len() && 0 <= b2 < brands.len() && #[trigger] brands[b1].families@.contains(
                i as usize,
            ) && #[trigger] brands[b2].families@.contains(i as usize) ==> b1 == b2,
{
    let b = choose|b: int| 0 <= b < brands.len() && #[trigger] brands[b].name@ == #[trigger] fams[i].brand@;
    lemma_members_bounds(fams, fams[i].brand@, fams.len() as int);
    assert(brands[b].families@ == brand_members(fams, brands[b].name@, fams.len() as int));
    assert(brand_members(fams, fams[i].brand@, fams.len() as int).contains(i as usize));
    assert(brands[b].families@.contains(i as usize));
    assert forall|b1: int, b2: int|
        0 <= b1 < brands.len() && 0 <= b2 < brands.len() && #[trigger] brands[b1].families@.contains(
            i as usize,
        ) && #[trigger] brands[b2].families@.contains(i as usize) implies b1 == b2 by {
        assert(brands[b1].families@ == brand_members(fams, brands[b1].name@, fams.len() as int));
        assert(brands[b2].families@ == brand_members(fams, brands[b2].name@, fams.len() as int));
        lemma_members_bounds(fams, brands[b1].name@, fams.len() as int);
        lemma_members_bounds(fams, brands[b2].name@, fams.len() as int);
        let k1 = choose|k: int| 0 <= k < brands[b1].families@.len() && brands[b1].families@[k] == i as usize;
        let k2 = choose|k: int| 0 <= k < brands[b2].families@.len() && brands[b2].families@[k] == i as usize;
        assert(brand_members(fams, brands[b1].name@, fams.len() as int)[k1] == i as usize);
        assert(brand_members(fams, brands[b2].name@, fams.len() as int)[k2] == i as usize);
        if b1 != b2 {
            if b1 < b2 {
                lemma_before_irreflexive(brands[b1].name@);
            } else {
                lemma_before_irreflexive(brands[b2].name@);
            }
        }
    }
}

} // verus!

verus! {

// ---------------------------------------------------------------------------
// Brand attribution
// ---------------------------------------------------------------------------

/// Number of family-name prefix rules.
pub open spec fn rule_count() -> int {
    78
}

/// Rule `i`: a family-name prefix and the brand it stands for.  The rules
/// are tried in order and the first match wins.
pub open spec fn brand_rule(i: usize) -> (Seq<char>, Seq<char>) {
    match i {
        0 => ("Generic RISC-V"@, "RISC-V"@),
        1 => ("Generic ARMv"@, "ARM"@),
        2 => ("MIMXRT"@, "NXP"@),
        3 => ("Raspberry"@, "Raspberry Pi"@),
        4 => ("Microchip"@, "Microchip"@),
        5 => ("OpenTitan"@, "lowRISC"@),
        6 => ("Trident"@, "Trident IoT"@),
        7 => ("Nuclei"@, "Nuclei"@),
        8 => ("STM32"@, "ST"@),
        9 => ("ADuCM"@, "Analog Devices"@),
        10 => ("MSP432"@, "TI"@),
        11 => ("MSPM0"@, "TI"@),
        12 => ("MAX326"@, "Maxim"@),
        13 => ("MAX780"@, "Maxim"@),
        14 => ("MAX326"@, "Maxim"@),
        15 => ("MAX32"@, "Maxim"@),
        16 => ("MAX78"@, "Maxim"@),
        17 => ("MAX7"@, "Maxim"@),
        18 => ("EFM32"@, "Silicon Labs"@),
        19 => ("EFR32"@, "Silicon Labs"@),
        20 => ("EFM8"@, "Silicon Labs"@),
        21 => ("EFM"@, "Silicon Labs"@),
        22 => ("GD32"@, "GigaDevice"@),
        23 => ("AT32"@, "Artery"@),
        24 => ("PIC32"@, "Microchip"@),
        25 => ("PIC24"@, "Microchip"@),
        26 => ("dsPIC"@, "Microchip"@),
        27 => ("ATSAM"@, "Microchip"@),
        28 => ("ATmega"@, "Microchip"@),
        29 => ("ATtiny"@, "Microchip"@),
        30 => ("AT90"@, "Microchip"@),
        31 => ("SAM"@, "Microchip"@),
        32 => ("MSP"@, "TI"@),
        33 => ("nRF"@, "Nordic"@),
        34 => ("LPC"@, "NXP"@),
        35 => ("MCX"@, "NXP"@),
        36 => ("OL23"@, "NXP"@),
        37 => ("S32K"@, "NXP"@),
        38 => ("iMX"@, "NXP"@),
        39 => ("TMS570"@, "TI"@),
        40 => ("CC13"@, "TI"@),
        41 => ("CC23"@, "TI"@),
        42 => ("LM3S"@, "TI"@),
        43 => ("Tiva"@, "TI"@),
        44 => ("AM2"@, "TI"@),
        45 => ("RA"@, "Renesas"@),
        46 => ("XMC"@, "Infineon"@),
        47 => ("FM3"@, "Infineon"@),
        48 => ("PSC3"@, "Infineon"@),
        49 => ("PSOC"@, "Infineon"@),
        50 => ("psoc"@, "Infineon"@),
        51 => ("TLE"@, "Infineon"@),
        52 => ("CY8"@, "Infineon"@),
        53 => ("HT32"@, "Holtek"@),
        54 => ("HT50"@, "Holtek"@),
        55 => ("HF"@, "Holtek"@),
        56 => ("HK32"@, "Hangshun"@),
        57 => ("HC32"@, "HDSC"@),
        58 => ("CH32"@, "WCH"@),
        59 => ("CH6"@, "WCH"@),
        60 => ("CW32"@, "Xinyuan"@),
        61 => ("AIR"@, "AirM2M"@),
        62 => ("HPM"@, "HPMicro"@),
        63 => ("SF32"@, "Siflower"@),
        64 => ("W75"@, "WIZnet"@),
        65 => ("Zynq"@, "AMD"@),
        66 => ("VA1"@, "Silicon Space"@),
        67 => ("VA4"@, "Silicon Space"@),
        68 => ("synwit"@, "Synwit"@),
        69 => ("SiFive"@, "SiFive"@),
        70 => ("fe3"@, "SiFive"@),
        71 => ("PAC5"@, "Qorvo"@),
        72 => ("PY32"@, "Puya"@),
        73 => ("ESP32"@, "Espressif"@),
        74 => ("ESP"@, "Espressif"@),
        75 => ("RP2"@, "Raspberry Pi"@),
        76 => ("ARM"@, "ARM"@),
        77 => ("RISC-V"@, "RISC-V"@),
        _ => (seq![], seq![]),
    }
}

fn brand_rule_at(i: usize) -> (r: (&'static str, &'static str))
    requires
        i < rule_count(),
    ensures
        r.0@ == brand_rule(i).0,
        r.1@ == brand_rule(i).1,
{
    match i {
        0 => ("Generic RISC-V", "RISC-V"),
        1 => ("Generic ARMv", "ARM"),
        2 => ("MIMXRT", "NXP"),
        3 => ("Raspberry", "Raspberry Pi"),
        4 => ("Microchip", "Microchip"),
        5 => ("OpenTitan", "lowRISC"),
        6 => ("Trident", "Trident IoT"),
        7 => ("Nuclei", "Nuclei"),
        8 => ("STM32", "ST"),
        9 => ("ADuCM", "Analog Devices"),
        10 => ("MSP432", "TI"),
        11 => ("MSPM0", "TI"),
        12 => ("MAX326", "Maxim"),
        13 => ("MAX780", "Maxim"),
        14 => ("MAX326", "Maxim"),
        15 => ("MAX32", "Maxim"),
        16 => ("MAX78", "Maxim"),
        17 => ("MAX7", "Maxim"),
        18 => ("EFM32", "Silicon Labs"),
        19 => ("EFR32", "Silicon Labs"),
        20 => ("EFM8", "Silicon Labs"),
        21 => ("EFM", "Silicon Labs"),
        22 => ("GD32", "GigaDevice"),
        23 => ("AT32", "Artery"),
        24 => ("PIC32", "Microchip"),
        25 => ("PIC24", "Microchip"),
        26 => ("dsPIC", "Microchip"),
        27 => ("ATSAM", "Microchip"),
        28 => ("ATmega", "Microchip"),
        29 => ("ATtiny", "Microchip"),
        30 => ("AT90", "Microchip"),
        31 => ("SAM", "Microchip"),
        32 => ("MSP", "TI"),
        33 => ("nRF", "Nordic"),
        34 => ("LPC", "NXP"),
        35 => ("MCX", "NXP"),
        36 => ("OL23", "NXP"),
        37 => ("S32K", "NXP"),
        38 => ("iMX", "NXP"),
        39 => ("TMS570", "TI"),
        40 => ("CC13", "TI"),
        41 => ("CC23", "TI"),
        42 => ("LM3S", "TI"),
        43 => ("Tiva", "TI"),
        44 => ("AM2", "TI"),
        45 => ("RA", "Renesas"),
        46 => ("XMC", "Infineon"),
        47 => ("FM3", "Infineon"),
        48 => ("PSC3", "Infineon"),
        49 => ("PSOC", "Infineon"),
        50 => ("psoc", "Infineon"),
        51 => ("TLE", "Infineon"),
        52 => ("CY8", "Infineon"),
        53 => ("HT32", "Holtek"),
        54 => ("HT50", "Holtek"),
        55 => ("HF", "Holtek"),
        56 => ("HK32", "Hangshun"),
        57 => ("HC32", "HDSC"),
        58 => ("CH32", "WCH"),
        59 => ("CH6", "WCH"),
        60 => ("CW32", "Xinyuan"),
        61 => ("AIR", "AirM2M"),
        62 => ("HPM", "HPMicro"),
        63 => ("SF32", "Siflower"),
        64 => ("W75", "WIZnet"),
        65 => ("Zynq", "AMD"),
        66 => ("VA1", "Silicon Space"),
        67 => ("VA4", "Silicon Space"),
        68 => ("synwit", "Synwit"),
        69 => ("SiFive", "SiFive"),
        70 => ("fe3", "SiFive"),
        71 => ("PAC5", "Qorvo"),
        72 => ("PY32", "Puya"),
        73 => ("ESP32", "Espressif"),
        74 => ("ESP", "Espressif"),
        75 => ("RP2", "Raspberry Pi"),
        76 => ("ARM", "ARM"),
        77 => ("RISC-V", "RISC-V"),
        _ => ("", ""),
    }
}

/// The brand of the first rule, from rule `i` on, whose prefix starts `name`.
pub open spec fn rule_brand_from(name: Seq<char>, i: int) -> Option<Seq<char>>
    decreases rule_count() - i,
{
    if i < 0 || i >= rule_count() {
        None
    } else if has_prefix(name, brand_rule(i as usize).0) {
        Some(brand_rule(i as usize).1)
    } else {
        rule_brand_from(name, i + 1)
    }
}

/// The brand that the prefix rules give `name`, if any rule matches.
pub open spec fn rule_brand(name: Seq<char>) -> Option<Seq<char>> {
    rule_brand_from(name, 0)
}

/// Official JEP106 manufacturer names shortened to the usual brand names;
/// any other name is kept, trimmed.
pub open spec fn normalized_brand(raw: Seq<char>) -> Seq<char> {
    let t = trim(raw);
    if t == "STMicroelectronics"@ {
            "ST"@
        } else if t == "Nordic VLSI ASA"@ {
            "Nordic"@
        } else if t == "Espressif Systems"@ {
            "Espressif"@
        } else if t == "NXP Semiconductors"@ {
            "NXP"@
        } else if t == "Microchip Technology Inc"@ {
            "Microchip"@
        } else if t == "Atmel Corporation"@ {
            "Microchip"@
        } else if t == "Renesas Technology Corp"@ {
            "Renesas"@
        } else if t == "Silicon Laboratories"@ {
            "Silicon Labs"@
        } else if t == "Texas Instruments"@ {
            "TI"@
        } else if t == "Infineon Technologies"@ {
            "Infineon"@
        } else if t == "Cypress Semiconductor"@ {
            "Infineon"@
        } else if t == "Dialog Semiconductor"@ {
            "Dialog"@
        } else if t == "Analog Devices Inc"@ {
            "Analog Devices"@
        } else if t == "Maxim Integrated Products"@ {
            "Maxim"@
        } else if t == "Nuvoton Technology Corp"@ {
            "Nuvoton"@
        } else if t == "GigaDevice Semiconductor"@ {
            "GigaDevice"@
        } else if t == "ARM Ltd"@ {
            "ARM"@
    } else {
        t
    }
}

/// Each official JEP106 manufacturer name of the table shortens to its
/// usual brand, whatever white space surrounds it, so that families
/// attributed through their maker group with those that the prefix rules
/// give the same brand (Silicon Laboratories with Silicon Labs' EFM32 and
/// EFR32, Atmel and Microchip under Microchip, and so on).
#[verifier::spinoff_prover]
pub proof fn lemma_maker_names_shorten(raw: Seq<char>)
    ensures
        trim(raw) == "STMicroelectronics"@ ==> normalized_brand(raw) == "ST"@,
        trim(raw) == "Nordic VLSI ASA"@ ==> normalized_brand(raw) == "Nordic"@,
        trim(raw) == "Espressif Systems"@ ==> normalized_brand(raw) == "Espressif"@,
        trim(raw) == "NXP Semiconductors"@ ==> normalized_brand(raw) == "NXP"@,
        trim(raw) == "Microchip Technology Inc"@ ==> normalized_brand(raw) == "Microchip"@,
        trim(raw) == "Atmel Corporation"@ ==> normalized_brand(raw) == "Microchip"@,
        trim(raw) == "Renesas Technology Corp"@ ==> normalized_brand(raw) == "Renesas"@,
        trim(raw) == "Silicon Laboratories"@ ==> normalized_brand(raw) == "Silicon Labs"@,
        trim(raw) == "Texas Instruments"@ ==> normalized_brand(raw) == "TI"@,
        trim(raw) == "Infineon Technologies"@ ==> normalized_brand(raw) == "Infineon"@,
        trim(raw) == "Cypress Semiconductor"@ ==> normalized_brand(raw) == "Infineon"@,
        trim(raw) == "Dialog Semiconductor"@ ==> normalized_brand(raw) == "Dialog"@,
        trim(raw) == "Analog Devices Inc"@ ==> normalized_brand(raw) == "Analog Devices"@,
        trim(raw) == "Maxim Integrated Products"@ ==> normalized_brand(raw) == "Maxim"@,
        trim(raw) == "Nuvoton Technology Corp"@ ==> normalized_brand(raw) == "Nuvoton"@,
        trim(raw) == "GigaDevice Semiconductor"@ ==> normalized_brand(raw) == "GigaDevice"@,
        trim(raw) == "ARM Ltd"@ ==> normalized_brand(raw) == "ARM"@,
{
    if trim(raw) == "STMicroelectronics"@ {
        reveal_strlit("STMicroelectronics");
        assert(normalized_brand(raw) == "ST"@);
    }
    if trim(raw) == "Nordic VLSI ASA"@ {
        reveal_strlit("Nordic VLSI ASA");
        reveal_strlit("STMicroelectronics");
        assert("Nordic VLSI ASA"@.len() != "STMicroelectronics"@.len());
        assert(normalized_brand(raw) == "Nordic"@);
    }
    if trim(raw) == "Espressif Systems"@ {
        reveal_strlit("Espressif Systems");
        reveal_strlit("STMicroelectronics");
        assert("Espressif Systems"@.len() != "STMicroelectronics"@.len());
        reveal_strlit("Nordic VLSI ASA");
        assert("Espressif Systems"@.len() != "Nordic VLSI ASA"@.len());
        assert(normalized_brand(raw) == "Espressif"@);
    }
    if trim(raw) == "NXP Semiconductors"@ {
        reveal_strlit("NXP Semiconductors");
        reveal_strlit("STMicroelectronics");
        assert("NXP Semiconductors"@[0] != "STMicroelectronics"@[0]);
        reveal_strlit("Nordic VLSI ASA");
        assert("NXP Semiconductors"@.len() != "Nordic VLSI ASA"@.len());
        reveal_strlit("Espressif Systems");
        assert("NXP Semiconductors"@.len() != "Espressif Systems"@.len());
        assert(normalized_brand(raw) == "NXP"@);
    }
    if trim(raw) == "Microchip Technology Inc"@ {
        reveal_strlit("Microchip Technology Inc");
        reveal_strlit("STMicroelectronics");
        assert("Microchip Technology Inc"@.len() != "STMicroelectronics"@.len());
        reveal_strlit("Nordic VLSI ASA");
        assert("Microchip Technology Inc"@.len() != "Nordic VLSI ASA"@.len());
        reveal_strlit("Espressif Systems");
        assert("Microchip Technology Inc"@.len() != "Espressif Systems"@.len());
        reveal_strlit("NXP Semiconductors");
        assert("Microchip Technology Inc"@.len() != "NXP Semiconductors"@.len());
        assert(normalized_brand(raw) == "Microchip"@);
    }
    if trim(raw) == "Atmel Corporation"@ {
        reveal_strlit("Atmel Corporation");
        reveal_strlit("STMicroelectronics");
        assert("Atmel Corporation"@.len() != "STMicroelectronics"@.len());
        reveal_strlit("Nordic VLSI ASA");
        assert("Atmel Corporation"@.len() != "Nordic VLSI ASA"@.len());
        reveal_strlit("Espressif Systems");
        assert("Atmel Corporation"@[0] != "Espressif Systems"@[0]);
        reveal_strlit("NXP Semiconductors");
        assert("Atmel Corporation"@.len() != "NXP Semiconductors"@.len());
        reveal_strlit("Microchip Technology Inc");
        assert("Atmel Corporation"@.len() != "Microchip Technology Inc"@.len());
        assert(normalized_brand(raw) == "Microchip"@);
    }
    if trim(raw) == "Renesas Technology Corp"@ {
        reveal_strlit("Renesas Technology Corp");
        reveal_strlit("STMicroelectronics");
        assert("Renesas Technology Corp"@.len() != "STMicroelectronics"@.len());
        reveal_strlit("Nordic VLSI ASA");
        assert("Renesas Technology Corp"@.len() != "Nordic VLSI ASA"@.len());
        reveal_strlit("Espressif Systems");
        assert("Renesas Technology Corp"@.len() != "Espressif Systems"@.len());
        reveal_strlit("NXP Semiconductors");
        assert("Renesas Technology Corp"@.len() != "NXP Semiconductors"@.len());
        reveal_strlit("Microchip Technology Inc");
        assert("Renesas Technology Corp"@.len() != "Microchip Technology Inc"@.len());
        reveal_strlit("Atmel Corporation");
        assert("Renesas Technology Corp"@.len() != "Atmel Corporation"@.len());
        assert(normalized_brand(raw) == "Renesas"@);
    }
    if trim(raw) == "Silicon Laboratories"@ {
        reveal_strlit("Silicon Laboratories");
        reveal_strlit("STMicroelectronics");
        assert("Silicon Laboratories"@.len() != "STMicroelectronics"@.len());
        reveal_strlit("Nordic VLSI ASA");
        assert("Silicon Laboratories"@.len() != "Nordic VLSI ASA"@.len());
        reveal_strlit("Espressif Systems");
        assert("Silicon Laboratories"@.len() != "Espressif Systems"@.len());
        reveal_strlit("NXP Semiconductors");
        assert("Silicon Laboratories"@.len() != "NXP Semiconductors"@.len());
        reveal_strlit("Microchip Technology Inc");
        assert("Silicon Laboratories"@.len() != "Microchip Technology Inc"@.len());
        reveal_strlit("Atmel Corporation");
        assert("Silicon Laboratories"@.len() != "Atmel Corporation"@.len());
        reveal_strlit("Renesas Technology Corp");
        assert("Silicon Laboratories"@.len() != "Renesas Technology Corp"@.len());
        assert(normalized_brand(raw) == "Silicon Labs"@);
    }
    if trim(raw) == "Texas Instruments"@ {
        reveal_strlit("Texas Instruments");
        reveal_strlit("STMicroelectronics");
        assert("Texas Instruments"@.len() != "STMicroelectronics"@.len());
        reveal_strlit("Nordic VLSI ASA");
        assert("Texas Instruments"@.len() != "Nordic VLSI ASA"@.len());
        reveal_strlit("Espressif Systems");
        assert("Texas Instruments"@[0] != "Espressif Systems"@[0]);
        reveal_strlit("NXP Semiconductors");
        assert("Texas Instruments"@.len() != "NXP Semiconductors"@.len());
        reveal_strlit("Microchip Technology Inc");
        assert("Texas Instruments"@.len() != "Microchip Technology Inc"@.len());
        reveal_strlit("Atmel Corporation");
        assert("Texas Instruments"@[0] != "Atmel Corporation"@[0]);
        reveal_strlit("Renesas Technology Corp");
        assert("Texas Instruments"@.len() != "Renesas Technology Corp"@.len());
        reveal_strlit("Silicon Laboratories");
        assert("Texas Instruments"@.len() != "Silicon Laboratories"@.len());
        assert(normalized_brand(raw) == "TI"@);
    }
    if trim(raw) == "Infineon Technologies"@ {
        reveal_strlit("Infineon Technologies");
        reveal_strlit("STMicroelectronics");
        assert("Infineon Technologies"@.len() != "STMicroelectronics"@.len());
        reveal_strlit("Nordic VLSI ASA");
        assert("Infineon Technologies"@.len() != "Nordic VLSI ASA"@.len());
        reveal_strlit("Espressif Systems");
        assert("Infineon Technologies"@.len() != "Espressif Systems"@.len());
        reveal_strlit("NXP Semiconductors");
        assert("Infineon Technologies"@.len() != "NXP Semiconductors"@.len());
        reveal_strlit("Microchip Technology Inc");
        assert("Infineon Technologies"@.len() != "Microchip Technology Inc"@.len());
        reveal_strlit("Atmel Corporation");
        assert("Infineon Technologies"@.len() != "Atmel Corporation"@.len());
        reveal_strlit("Renesas Technology Corp");
        assert("Infineon Technologies"@.len() != "Renesas Technology Corp"@.len());
        reveal_strlit("Silicon Laboratories");
        assert("Infineon Technologies"@.len() != "Silicon Laboratories"@.len());
        reveal_strlit("Texas Instruments");
        assert("Infineon Technologies"@.len() != "Texas Instruments"@.len());
        assert(normalized_brand(raw) == "Infineon"@);
    }
    if trim(raw) == "Cypress Semiconductor"@ {
        reveal_strlit("Cypress Semiconductor");
        reveal_strlit("STMicroelectronics");
        assert("Cypress Semiconductor"@.len() != "STMicroelectronics"@.len());
        reveal_strlit("Nordic VLSI ASA");
        assert("Cypress Semiconductor"@.len() != "Nordic VLSI ASA"@.len());
        reveal_strlit("Espressif Systems");
        assert("Cypress Semiconductor"@.len() != "Espressif Systems"@.len());
        reveal_strlit("NXP Semiconductors");
        assert("Cypress Semiconductor"@.len() != "NXP Semiconductors"@.len());
        reveal_strlit("Microchip Technology Inc");
        assert("Cypress Semiconductor"@.len() != "Microchip Technology Inc"@.len());
        reveal_strlit("Atmel Corporation");
        assert("Cypress Semiconductor"@.len() != "Atmel Corporation"@.len());
        reveal_strlit("Renesas Technology Corp");
        assert("Cypress Semiconductor"@.len() != "Renesas Technology Corp"@.len());
        reveal_strlit("Silicon Laboratories");
        assert("Cypress Semiconductor"@.len() != "Silicon Laboratories"@.len());
        reveal_strlit("Texas Instruments");
        assert("Cypress Semiconductor"@.len() != "Texas Instruments"@.len());
        reveal_strlit("Infineon Technologies");
        assert("Cypress Semiconductor"@[0] != "Infineon Technologies"@[0]);
        assert(normalized_brand(raw) == "Infineon"@);
    }
    if trim(raw) == "Dialog Semiconductor"@ {
        reveal_strlit("Dialog Semiconductor");
        reveal_strlit("STMicroelectronics");
        assert("Dialog Semiconductor"@.len() != "STMicroelectronics"@.len());
        reveal_strlit("Nordic VLSI ASA");
        assert("Dialog Semiconductor"@.len() != "Nordic VLSI ASA"@.len());
        reveal_strlit("Espressif Systems");
        assert("Dialog Semiconductor"@.len() != "Espressif Systems"@.len());
        reveal_strlit("NXP Semiconductors");
        assert("Dialog Semiconductor"@.len() != "NXP Semiconductors"@.len());
        reveal_strlit("Microchip Technology Inc");
        assert("Dialog Semiconductor"@.len() != "Microchip Technology Inc"@.len());
        reveal_strlit("Atmel Corporation");
        assert("Dialog Semiconductor"@.len() != "Atmel Corporation"@.len());
        reveal_strlit("Renesas Technology Corp");
        assert("Dialog Semiconductor"@.len() != "Renesas Technology Corp"@.len());
        reveal_strlit("Silicon Laboratories");
        assert("Dialog Semiconductor"@[0] != "Silicon Laboratories"@[0]);
        reveal_strlit("Texas Instruments");
        assert("Dialog Semiconductor"@.len() != "Texas Instruments"@.len());
        reveal_strlit("Infineon Technologies");
        assert("Dialog Semiconductor"@.len() != "Infineon Technologies"@.len());
        reveal_strlit("Cypress Semiconductor");
        assert("Dialog Semiconductor"@.len() != "Cypress Semiconductor"@.len());
        assert(normalized_brand(raw) == "Dialog"@);
    }
    if trim(raw) == "Analog Devices Inc"@ {
        reveal_strlit("Analog Devices Inc");
        reveal_strlit("STMicroelectronics");
        assert("Analog Devices Inc"@[0] != "STMicroelectronics"@[0]);
        reveal_strlit("Nordic VLSI ASA");
        assert("Analog Devices Inc"@.len() != "Nordic VLSI ASA"@.len());
        reveal_strlit("Espressif Systems");
        assert("Analog Devices Inc"@.len() != "Espressif Systems"@.len());
        reveal_strlit("NXP Semiconductors");
        assert("Analog Devices Inc"@[0] != "NXP Semiconductors"@[0]);
        reveal_strlit("Microchip Technology Inc");
        assert("Analog Devices Inc"@.len() != "Microchip Technology Inc"@.len());
        reveal_strlit("Atmel Corporation");
        assert("Analog Devices Inc"@.len() != "Atmel Corporation"@.len());
        reveal_strlit("Renesas Technology Corp");
        assert("Analog Devices Inc"@.len() != "Renesas Technology Corp"@.len());
        reveal_strlit("Silicon Laboratories");
        assert("Analog Devices Inc"@.len() != "Silicon Laboratories"@.len());
        reveal_strlit("Texas Instruments");
        assert("Analog Devices Inc"@.len() != "Texas Instruments"@.len());
        reveal_strlit("Infineon Technologies");
        assert("Analog Devices Inc"@.len() != "Infineon Technologies"@.len());
        reveal_strlit("Cypress Semiconductor");
        assert("Analog Devices Inc"@.len() != "Cypress Semiconductor"@.len());
        reveal_strlit("Dialog Semiconductor");
        assert("Analog Devices Inc"@.len() != "Dialog Semiconductor"@.len());
        assert(normalized_brand(raw) == "Analog Devices"@);
    }
    if trim(raw) == "Maxim Integrated Products"@ {
        reveal_strlit("Maxim Integrated Products");
        reveal_strlit("STMicroelectronics");
        assert("Maxim Integrated Products"@.len() != "STMicroelectronics"@.len());
        reveal_strlit("Nordic VLSI ASA");
        assert("Maxim Integrated Products"@.len() != "Nordic VLSI ASA"@.len());
        reveal_strlit("Espressif Systems");
        assert("Maxim Integrated Products"@.len() != "Espressif Systems"@.len());
        reveal_strlit("NXP Semiconductors");
        assert("Maxim Integrated Products"@.len() != "NXP Semiconductors"@.len());
        reveal_strlit("Microchip Technology Inc");
        assert("Maxim Integrated Products"@.len() != "Microchip Technology Inc"@.len());
        reveal_strlit("Atmel Corporation");
        assert("Maxim Integrated Products"@.len() != "Atmel Corporation"@.len());
        reveal_strlit("Renesas Technology Corp");
        assert("Maxim Integrated Products"@.len() != "Renesas Technology Corp"@.len());
        reveal_strlit("Silicon Laboratories");
        assert("Maxim Integrated Products"@.len() != "Silicon Laboratories"@.len());
        reveal_strlit("Texas Instruments");
        assert("Maxim Integrated Products"@.len() != "Texas Instruments"@.len());
        reveal_strlit("Infineon Technologies");
        assert("Maxim Integrated Products"@.len() != "Infineon Technologies"@.len());
        reveal_strlit("Cypress Semiconductor");
        assert("Maxim Integrated Products"@.len() != "Cypress Semiconductor"@.len());
        reveal_strlit("Dialog Semiconductor");
        assert("Maxim Integrated Products"@.len() != "Dialog Semiconductor"@.len());
        reveal_strlit("Analog Devices Inc");
        assert("Maxim Integrated Products"@.len() != "Analog Devices Inc"@.len());
        assert(normalized_brand(raw) == "Maxim"@);
    }
    if trim(raw) == "Nuvoton Technology Corp"@ {
        reveal_strlit("Nuvoton Technology Corp");
        reveal_strlit("STMicroelectronics");
        assert("Nuvoton Technology Corp"@.len() != "STMicroelectronics"@.len());
        reveal_strlit("Nordic VLSI ASA");
        assert("Nuvoton Technology Corp"@.len() != "Nordic VLSI ASA"@.len());
        reveal_strlit("Espressif Systems");
        assert("Nuvoton Technology Corp"@.len() != "Espressif Systems"@.len());
        reveal_strlit("NXP Semiconductors");
        assert("Nuvoton Technology Corp"@.len() != "NXP Semiconductors"@.len());
        reveal_strlit("Microchip Technology Inc");
        assert("Nuvoton Technology Corp"@.len() != "Microchip Technology Inc"@.len());
        reveal_strlit("Atmel Corporation");
        assert("Nuvoton Technology Corp"@.len() != "Atmel Corporation"@.len());
        reveal_strlit("Renesas Technology Corp");
        assert("Nuvoton Technology Corp"@[0] != "Renesas Technology Corp"@[0]);
        reveal_strlit("Silicon Laboratories");
        assert("Nuvoton Technology Corp"@.len() != "Silicon Laboratories"@.len());
        reveal_strlit("Texas Instruments");
        assert("Nuvoton Technology Corp"@.len() != "Texas Instruments"@.len());
        reveal_strlit("Infineon Technologies");
        assert("Nuvoton Technology Corp"@.len() != "Infineon Technologies"@.len());
        reveal_strlit("Cypress Semiconductor");
        assert("Nuvoton Technology Corp"@.len() != "Cypress Semiconductor"@.len());
        reveal_strlit("Dialog Semiconductor");
        assert("Nuvoton Technology Corp"@.len() != "Dialog Semiconductor"@.len());
        reveal_strlit("Analog Devices Inc");
        assert("Nuvoton Technology Corp"@.len() != "Analog Devices Inc"@.len());
        reveal_strlit("Maxim Integrated Products");
        assert("Nuvoton Technology Corp"@.len() != "Maxim Integrated Products"@.len());
        assert(normalized_brand(raw) == "Nuvoton"@);
    }
    if trim(raw) == "GigaDevice Semiconductor"@ {
        reveal_strlit("GigaDevice Semiconductor");
        reveal_strlit("STMicroelectronics");
        assert("GigaDevice Semiconductor"@.len() != "STMicroelectronics"@.len());
        reveal_strlit("Nordic VLSI ASA");
        assert("GigaDevice Semiconductor"@.len() != "Nordic VLSI ASA"@.len());
        reveal_strlit("Espressif Systems");
        assert("GigaDevice Semiconductor"@.len() != "Espressif Systems"@.len());
        reveal_strlit("NXP Semiconductors");
        assert("GigaDevice Semiconductor"@.len() != "NXP Semiconductors"@.len());
        reveal_strlit("Microchip Technology Inc");
        assert("GigaDevice Semiconductor"@[0] != "Microchip Technology Inc"@[0]);
        reveal_strlit("Atmel Corporation");
        assert("GigaDevice Semiconductor"@.len() != "Atmel Corporation"@.len());
        reveal_strlit("Renesas Technology Corp");
        assert("GigaDevice Semiconductor"@.len() != "Renesas Technology Corp"@.len());
        reveal_strlit("Silicon Laboratories");
        assert("GigaDevice Semiconductor"@.len() != "Silicon Laboratories"@.len());
        reveal_strlit("Texas Instruments");
        assert("GigaDevice Semiconductor"@.len() != "Texas Instruments"@.len());
        reveal_strlit("Infineon Technologies");
        assert("GigaDevice Semiconductor"@.len() != "Infineon Technologies"@.len());
        reveal_strlit("Cypress Semiconductor");
        assert("GigaDevice Semiconductor"@.len() != "Cypress Semiconductor"@.len());
        reveal_strlit("Dialog Semiconductor");
        assert("GigaDevice Semiconductor"@.len() != "Dialog Semiconductor"@.len());
        reveal_strlit("Analog Devices Inc");
        assert("GigaDevice Semiconductor"@.len() != "Analog Devices Inc"@.len());
        reveal_strlit("Maxim Integrated Products");
        assert("GigaDevice Semiconductor"@.len() != "Maxim Integrated Products"@.len());
        reveal_strlit("Nuvoton Technology Corp");
        assert("GigaDevice Semiconductor"@.len() != "Nuvoton Technology Corp"@.len());
        assert(normalized_brand(raw) == "GigaDevice"@);
    }
    if trim(raw) == "ARM Ltd"@ {
        reveal_strlit("ARM Ltd");
        reveal_strlit("STMicroelectronics");
        assert("ARM Ltd"@.len() != "STMicroelectronics"@.len());
        reveal_strlit("Nordic VLSI ASA");
        assert("ARM Ltd"@.len() != "Nordic VLSI ASA"@.len());
        reveal_strlit("Espressif Systems");
        assert("ARM Ltd"@.len() != "Espressif Systems"@.len());
        reveal_strlit("NXP Semiconductors");
        assert("ARM Ltd"@.len() != "NXP Semiconductors"@.len());
        reveal_strlit("Microchip Technology Inc");
        assert("ARM Ltd"@.len() != "Microchip Technology Inc"@.len());
        reveal_strlit("Atmel Corporation");
        assert("ARM Ltd"@.len() != "Atmel Corporation"@.len());
        reveal_strlit("Renesas Technology Corp");
        assert("ARM Ltd"@.len() != "Renesas Technology Corp"@.len());
        reveal_strlit("Silicon Laboratories");
        assert("ARM Ltd"@.len() != "Silicon Laboratories"@.len());
        reveal_strlit("Texas Instruments");
        assert("ARM Ltd"@.len() != "Texas Instruments"@.len());
        reveal_strlit("Infineon Technologies");
        assert("ARM Ltd"@.len() != "Infineon Technologies"@.len());
        reveal_strlit("Cypress Semiconductor");
        assert("ARM Ltd"@.len() != "Cypress Semiconductor"@.len());
        reveal_strlit("Dialog Semiconductor");
        assert("ARM Ltd"@.len() != "Dialog Semiconductor"@.len());
        reveal_strlit("Analog Devices Inc");
        assert("ARM Ltd"@.len() != "Analog Devices Inc"@.len());
        reveal_strlit("Maxim Integrated Products");
        assert("ARM Ltd"@.len() != "Maxim Integrated Products"@.len());
        reveal_strlit("Nuvoton Technology Corp");
        assert("ARM Ltd"@.len() != "Nuvoton Technology Corp"@.len());
        reveal_strlit("GigaDevice Semiconductor");
        assert("ARM Ltd"@.len() != "GigaDevice Semiconductor"@.len());
        assert(normalized_brand(raw) == "ARM"@);
    }
}

/// Shortening a manufacturer name a second time changes nothing: a
/// shortened name is trimmed and is none of the official names.
#[verifier::spinoff_prover]
pub proof fn lemma_normalize_brand_idempotent(raw: Seq<char>)
    ensures
        normalized_brand(normalized_brand(raw)) == normalized_brand(raw),
{
    reveal_strlit("STMicroelectronics");
    reveal_strlit("Nordic VLSI ASA");
    reveal_strlit("Espressif Systems");
    reveal_strlit("NXP Semiconductors");
    reveal_strlit("Microchip Technology Inc");
    reveal_strlit("Atmel Corporation");
    reveal_strlit("Renesas Technology Corp");
    reveal_strlit("Silicon Laboratories");
    reveal_strlit("Texas Instruments");
    reveal_strlit("Infineon Technologies");
    reveal_strlit("Cypress Semiconductor");
    reveal_strlit("Dialog Semiconductor");
    reveal_strlit("Analog Devices Inc");
    reveal_strlit("Maxim Integrated Products");
    reveal_strlit("Nuvoton Technology Corp");
    reveal_strlit("GigaDevice Semiconductor");
    reveal_strlit("ARM Ltd");
    reveal_strlit("ARM");
    reveal_strlit("Analog Devices");
    reveal_strlit("Dialog");
    reveal_strlit("Espressif");
    reveal_strlit("GigaDevice");
    reveal_strlit("Infineon");
    reveal_strlit("Maxim");
    reveal_strlit("Microchip");
    reveal_strlit("NXP");
    reveal_strlit("Nordic");
    reveal_strlit("Nuvoton");
    reveal_strlit("Renesas");
    reveal_strlit("ST");
    reveal_strlit("Silicon Labs");
    reveal_strlit("TI");
    let n = normalized_brand(raw);
    if n == trim(raw) {
        lemma_trim_idempotent(raw);
        assert(trim(n) == n);
        assert(normalized_brand(n) == n);
    } else if n == "ARM"@ {
        lemma_trim_unpadded(n);
        assert(normalized_brand(n) == n);
    } else if n == "Analog Devices"@ {
        lemma_trim_unpadded(n);
        assert(normalized_brand(n) == n);
    } else if n == "Dialog"@ {
        lemma_trim_unpadded(n);
        assert(normalized_brand(n) == n);
    } else if n == "Espressif"@ {
        lemma_trim_unpadded(n);
        assert(normalized_brand(n) == n);
    } else if n == "GigaDevice"@ {
        lemma_trim_unpadded(n);
        assert(normalized_brand(n) == n);
    } else if n == "Infineon"@ {
        lemma_trim_unpadded(n);
        assert(normalized_brand(n) == n);
    } else if n == "Maxim"@ {
        lemma_trim_unpadded(n);
        assert(normalized_brand(n) == n);
    } else if n == "Microchip"@ {
        lemma_trim_unpadded(n);
        assert(normalized_brand(n) == n);
    } else if n == "NXP"@ {
        lemma_trim_unpadded(n);
        assert(n.len() != "NXP Semiconductors"@.len());
        assert(normalized_brand(n) == n);
    } else if n == "Nordic"@ {
        lemma_trim_unpadded(n);
        assert(normalized_brand(n) == n);
    } else if n == "Nuvoton"@ {
        lemma_trim_unpadded(n);
        assert(normalized_brand(n) == n);
    } else if n == "Renesas"@ {
        lemma_trim_unpadded(n);
        assert(normalized_brand(n) == n);
    } else if n == "ST"@ {
        lemma_trim_unpadded(n);
        assert(normalized_brand(n) == n);
    } else if n == "Silicon Labs"@ {
        lemma_trim_unpadded(n);
        assert(normalized_brand(n) == n);
    } else if n == "TI"@ {
        lemma_trim_unpadded(n);
        assert(normalized_brand(n) == n);
    } else {
        assert(false);
    }
}

/// Shortens an official JEP106 manufacturer name to the usual brand name.
pub fn normalize_brand(raw: &str) -> (r: String)
    ensures
        r@ == normalized_brand(raw@),
{
    let t = trim_chars(&chars_of(raw));
    let s = string_of(&t);
    owned(
        if str_eq(s.as_str(), "STMicroelectronics") {
            "ST"
        } else if str_eq(s.as_str(), "Nordic VLSI ASA") {
            "Nordic"
        } else if str_eq(s.as_str(), "Espressif Systems") {
            "Espressif"
        } else if str_eq(s.as_str(), "NXP Semiconductors") {
            "NXP"
        } else if str_eq(s.as_str(), "Microchip Technology Inc") {
            "Microchip"
        } else if str_eq(s.as_str(), "Atmel Corporation") {
            "Microchip"
        } else if str_eq(s.as_str(), "Renesas Technology Corp") {
            "Renesas"
        } else if str_eq(s.as_str(), "Silicon Laboratories") {
            "Silicon Labs"
        } else if str_eq(s.as_str(), "Texas Instruments") {
            "TI"
        } else if str_eq(s.as_str(), "Infineon Technologies") {
            "Infineon"
        } else if str_eq(s.as_str(), "Cypress Semiconductor") {
            "Infineon"
        } else if str_eq(s.as_str(), "Dialog Semiconductor") {
            "Dialog"
        } else if str_eq(s.as_str(), "Analog Devices Inc") {
            "Analog Devices"
        } else if str_eq(s.as_str(), "Maxim Integrated Products") {
            "Maxim"
        } else if str_eq(s.as_str(), "Nuvoton Technology Corp") {
            "Nuvoton"
        } else if str_eq(s.as_str(), "GigaDevice Semiconductor") {
            "GigaDevice"
        } else if str_eq(s.as_str(), "ARM Ltd") {
            "ARM"
        } else {
            return s;
        },
    )
}

/// The suffix that family names may carry and that the selector drops.
pub open spec fn series_suffix() -> Seq<char> {
    seq![' ', 'S', 'e', 'r', 'i', 'e', 's']
}

/// `name` with every trailing " Series" removed (`trim_end_matches`).
pub open spec fn strip_series(name: Seq<char>) -> Seq<char>
    decreases name.len(),
{
    if has_suffix(name, series_suffix()) {
        strip_series(name.take(name.len() - 7))
    } else {
        name
    }
}

/// Removes every trailing " Series" from `name`.
pub fn strip_series_chars(name: &Vec<char>) -> (r: Vec<char>)
    ensures
        r@ == strip_series(name@),
{
    let suffix = vec![' ', 'S', 'e', 'r', 'i', 'e', 's'];
    assert(suffix@ =~= series_suffix());
    let mut r: Vec<char> = Vec::new();
    let mut i: usize = 0;
    while i < name.len()
        invariant
            i <= name.len(),
            r@ == name@.take(i as int),
        decreases name.len() - i,
    {
        r.push(name[i]);
        i = i + 1;
        assert(r@ =~= name@.take(i as int));
    }
    assert(r@ =~= name@);
    while ends_with_chars(&r, &suffix)
        invariant
            suffix@ == series_suffix(),
            strip_series(r@) == strip_series(name@),
        decreases r@.len(),
    {
        let ghost before = r@;
        let n = r.len() - 7;
        r.truncate(n);
        assert(r@ =~= before.take(before.len() - 7));
    }
    r
}

/// The brand of a family named `name` whose manufacturer (by its JEP106
/// code) is `maker`: the first prefix rule that matches the name without its
/// " Series" suffix; else a generic ARM or RISC-V target recognised from the
/// lower-case name; else the manufacturer's name, shortened; else `Other`.
pub open spec fn family_brand(name: Seq<char>, maker: Option<Seq<char>>) -> Seq<char> {
    let n = strip_series(name);
    match rule_brand(n) {
        Some(b) => b,
        None => {
            let l = lowercase(n);
            if contains(l, "generic"@) && contains(l, "arm"@) {
                "ARM"@
            } else if contains(l, "generic"@) && (contains(l, "risc-v"@) || contains(l, "riscv"@)) {
                "RISC-V"@
            } else {
                match maker {
                    Some(raw) => normalized_brand(raw),
                    None => other_brand(),
                }
            }
        },
    }
}

/// Attributes a family to a brand (see [`family_brand`]).
pub fn family_brand_of(name: &str, maker: &Option<String>) -> (r: String)
    ensures
        r@ == family_brand(name@, match maker {
            Some(m) => Some(m@),
            None => None,
        }),
{
    let n = strip_series_chars(&chars_of(name));
    let mut i: usize = 0;
    while i < 78
        invariant
            i <= 78,
            n@ == strip_series(name@),
            rule_brand(n@) == rule_brand_from(n@, i as int),
        decreases 78 - i,
    {
        let (prefix, brand) = brand_rule_at(i);
        if starts_with_chars(&n, &chars_of(prefix)) {
            assert(rule_brand_from(n@, i as int) == Some(brand_rule(i).1));
            return owned(brand);
        }
        i = i + 1;
    }
    let l = chars_of(to_lower(string_of(&n).as_str()).as_str());
    let generic = contains_chars(&l, &chars_of("generic"));
    if generic && contains_chars(&l, &chars_of("arm")) {
        return owned("ARM");
    }
    if generic && (contains_chars(&l, &chars_of("risc-v")) || contains_chars(&l, &chars_of("riscv"))) {
        return owned("RISC-V");
    }
    match maker {
        Some(raw) => normalize_brand(raw.as_str()),
        None => owned("Other"),
    }
}

} // verus!

verus! {

// ---------------------------------------------------------------------------
// The family list
// ---------------------------------------------------------------------------

/// A chip family as the chip database describes it: its name, its
/// manufacturer's JEP106 code (continuation code, identification code) and
/// the names of its variants.
pub struct FamilyRecord {
    pub name: String,
    pub manufacturer: Option<(u8, u8)>,
    pub variants: Vec<String>,
}

/// The manufacturer name that the JEP106 table of the `jep106` crate holds
/// for a code, if any.
pub uninterp spec fn jep106_name(cc: u8, id: u8) -> Option<Seq<char>>;

/// `jep106::JEP106Code::get_raw`: the result is named [`jep106_name`].
#[verifier::external_body]
fn manufacturer_name(cc: u8, id: u8) -> (r: Option<String>)
    ensures
        match r {
            Some(s) => jep106_name(cc, id) == Some(s@),
            None => jep106_name(cc, id) == None::<Seq<char>>,
        },
{
    jep106::JEP106Code::get_raw(cc, id).map(|s| s.to_owned())
}

/// The manufacturer name of a record's JEP106 code.
pub open spec fn maker_of(rec: FamilyRecord) -> Option<Seq<char>> {
    match rec.manufacturer {
        Some((cc, id)) => jep106_name(cc, id),
        None => None,
    }
}

/// `r` lists, in strictly ascending order, each name of `v` once.
pub open spec fn sorted_unique(r: Seq<Seq<char>>, v: Seq<Seq<char>>) -> bool {
    &&& forall|i: int, j: int| 0 <= i < j < r.len() ==> seq_lt(#[trigger] r[i], #[trigger] r[j])
    &&& forall|x: Seq<char>| r.contains(x) <==> v.contains(x)
}

/// `info` is the selector entry for `rec`: the name without its " Series"
/// suffix, the brand of [`family_brand`], and the variant names sorted with
/// duplicates removed.
pub open spec fn describes(info: ChipFamilyInfo, rec: FamilyRecord) -> bool {
    &&& info.name@ == strip_series(rec.name@)
    &&& info.brand@ == family_brand(rec.name@, maker_of(rec))
    &&& sorted_unique(views(info.chips@), views(rec.variants@))
}

proof fn lemma_push_contains(s: Seq<Seq<char>>, e: Seq<char>, x: Seq<char>)
    ensures
        s.push(e).contains(x) <==> (s.contains(x) || x == e),
{
    if s.contains(x) {
        let k = choose|k: int| 0 <= k < s.len() && s[k] == x;
        assert(s.push(e)[k] == x);
    }
    if x == e {
        assert(s.push(e)[s.len() as int] == x);
    }
    if s.push(e).contains(x) {
        let k = choose|k: int| 0 <= k < s.push(e).len() && s.push(e)[k] == x;
        if k < s.len() {
            assert(s[k] == x);
        }
    }
}

/// Sorts `names` and removes duplicates.
pub fn sorted_unique_names(names: &Vec<String>) -> (r: Vec<String>)
    ensures
        sorted_unique(views(r@), views(names@)),
{
    let mut r: Vec<String> = Vec::new();
    let mut keys: Vec<Vec<char>> = Vec::new();
    let mut i: usize = 0;
    while i < names.len()
        invariant
            i <= names.len(),
            keys@.len() == r@.len(),
            forall|k: int| 0 <= k < r@.len() ==> #[trigger] keys@[k]@ == r@[k]@,
            forall|a: int, b: int|
                0 <= a < b < r@.len() ==> seq_lt(#[trigger] r@[a]@, #[trigger] r@[b]@),
            forall|x: Seq<char>|
                views(r@).contains(x) <==> views(names@.take(i as int)).contains(x),
        decreases names.len() - i,
    {
        let key = chars_of(names[i].as_str());
        let mut p: usize = 0;
        while p < keys.len() && lt_chars(&keys[p], &key)
            invariant
                p <= keys@.len(),
                keys@.len() == r@.len(),
                forall|k: int| 0 <= k < r@.len() ==> #[trigger] keys@[k]@ == r@[k]@,
                forall|k: int| 0 <= k < p ==> seq_lt(#[trigger] r@[k]@, key@),
            decreases keys@.len() - p,
        {
            p = p + 1;
        }
        let ghost old_r = r@;
        proof {
            assert(names@.take(i + 1) =~= names@.take(i as int).push(names@[i as int]));
            assert(views(names@.take(i + 1)) =~= views(names@.take(i as int)).push(
                names@[i as int]@,
            ));
        }
        if p < keys.len() && seq_eq(&keys[p], &key) {
            proof {
                assert forall|x: Seq<char>| views(r@).contains(x) <==> views(
                    names@.take(i + 1),
                ).contains(x) by {
                    lemma_push_contains(views(names@.take(i as int)), names@[i as int]@, x);
                    if x == key@ {
                        assert(views(r@)[p as int] == x);
                    }
                }
            }
        } else {
            let name = names[i].clone();
            r.insert(p, name);
            keys.insert(p, key);
            proof {
                assert(views(r@) =~= views(old_r).insert(p as int, key@));
                assert forall|k: int| 0 <= k < r@.len() implies #[trigger] keys@[k]@ == r@[k]@ by {
                }
                if p < old_r.len() {
                    assert(old_r[p as int]@ != key@);
                    lemma_lt_total(old_r[p as int]@, key@);
                }
                assert forall|a: int, b: int|
                    0 <= a < b < r@.len() implies seq_lt(#[trigger] r@[a]@, #[trigger] r@[b]@) by {
                    if b == p {
                    } else if a == p {
                        if b - 1 > p {
                            lemma_lt_transitive(key@, old_r[p as int]@, old_r[b - 1]@);
                        }
                    } else if a < p && b > p {
                        assert(seq_lt(old_r[a]@, key@));
                        if b - 1 > p {
                            lemma_lt_transitive(key@, old_r[p as int]@, old_r[b - 1]@);
                        }
                        lemma_lt_transitive(old_r[a]@, key@, old_r[b - 1]@);
                    }
                }
                assert forall|x: Seq<char>| views(r@).contains(x) <==> views(
                    names@.take(i + 1),
                ).contains(x) by {
                    lemma_push_contains(views(names@.take(i as int)), names@[i as int]@, x);
                    if x == key@ {
                        assert(views(r@)[p as int] == x);
                    }
                    if views(r@).contains(x) && x != key@ {
                        let k = choose|k: int| 0 <= k < views(r@).len() && views(r@)[k] == x;
                        if k < p {
                            assert(views(old_r)[k] == x);
                        } else {
                            assert(views(old_r)[k - 1] == x);
                        }
                    }
                    if views(old_r).contains(x) {
                        let k = choose|k: int| 0 <= k < views(old_r).len() && views(old_r)[k] == x;
                        if k < p {
                            assert(views(r@)[k] == x);
                        } else {
                            assert(views(r@)[k + 1] == x);
                        }
                    }
                }
            }
        }
        i = i + 1;
    }
    assert(names@.take(names@.len() as int) =~= names@);
    r
}

/// The selector entry of one database family.
pub fn family_info(rec: &FamilyRecord) -> (info: ChipFamilyInfo)
    ensures
        describes(info, *rec),
{
    let maker = match rec.manufacturer {
        Some((cc, id)) => manufacturer_name(cc, id),
        None => None,
    };
    let name = string_of(&strip_series_chars(&chars_of(rec.name.as_str())));
    let brand = family_brand_of(rec.name.as_str(), &maker);
    let chips = sorted_unique_names(&rec.variants);
    ChipFamilyInfo { name, brand, chips }
}

/// Where a family named `key` goes in `s`: before the first entry whose
/// name sorts after `key`, looking from position `k` on.
pub open spec fn name_slot(s: Seq<ChipFamilyInfo>, key: Seq<char>, k: int) -> int
    decreases s.len() - k,
{
    if k < 0 || k >= s.len() {
        s.len() as int
    } else if seq_lt(key, s[k].name@) {
        k
    } else {
        name_slot(s, key, k + 1)
    }
}

/// `s` stably sorted by name (a stable insertion sort): entries with equal
/// names keep their relative order.
pub open spec fn sorted_by_name(s: Seq<ChipFamilyInfo>) -> Seq<ChipFamilyInfo>
    decreases s.len(),
{
    if s.len() == 0 {
        s
    } else {
        let t = sorted_by_name(s.drop_last());
        t.insert(name_slot(t, s.last().name@, 0), s.last())
    }
}

/// `fams` is the selector's family list for the database `records`: one
/// entry per record, as [`describes`] says, stably sorted by name.
pub open spec fn family_list_of(records: Seq<FamilyRecord>, fams: Seq<ChipFamilyInfo>) -> bool {
    exists|m: Seq<ChipFamilyInfo>|
        m.len() == records.len() && (forall|i: int|
            0 <= i < m.len() ==> describes(#[trigger] m[i], records[i])) && fams
            == sorted_by_name(m)
}

proof fn lemma_name_slot_bounds(s: Seq<ChipFamilyInfo>, key: Seq<char>, k: int)
    requires
        0 <= k <= s.len(),
    ensures
        k <= name_slot(s, key, k) <= s.len(),
    decreases s.len() - k,
{
    if k < s.len() && !seq_lt(key, s[k].name@) {
        lemma_name_slot_bounds(s, key, k + 1);
    }
}

/// Builds the selector's family list from database records.
pub fn chip_families_from(records: &Vec<FamilyRecord>) -> (fams: Vec<ChipFamilyInfo>)
    ensures
        family_list_of(records@, fams@),
{
    let mut mapped: Vec<ChipFamilyInfo> = Vec::new();
    let mut i: usize = 0;
    while i < records.len()
        invariant
            i <= records.len(),
            mapped@.len() == i,
            forall|k: int| 0 <= k < i ==> describes(#[trigger] mapped@[k], records@[k]),
        decreases records.len() - i,
    {
        mapped.push(family_info(&records[i]));
        i = i + 1;
    }
    let ghost m = mapped@;
    assert(m.len() == mapped.len());
    let mut fams: Vec<ChipFamilyInfo> = Vec::new();
    let mut names: Vec<Vec<char>> = Vec::new();
    let mut j: usize = 0;
    while mapped.len() > 0
        invariant
            j + mapped@.len() == m.len(),
            m.len() <= usize::MAX,
            mapped@ == m.skip(j as int),
            fams@ == sorted_by_name(m.take(j as int)),
            names@.len() == fams@.len(),
            forall|k: int| 0 <= k < fams@.len() ==> #[trigger] names@[k]@ == fams@[k].name@,
        decreases mapped@.len(),
    {
        let f = mapped.remove(0);
        let key = chars_of(f.name.as_str());
        let mut p: usize = 0;
        while p < names.len() && !lt_chars(&key, &names[p])
            invariant
                p <= names@.len(),
                names@.len() == fams@.len(),
                forall|k: int| 0 <= k < fams@.len() ==> #[trigger] names@[k]@ == fams@[k].name@,
                name_slot(fams@, key@, 0) == name_slot(fams@, key@, p as int),
            decreases names@.len() - p,
        {
            p = p + 1;
        }
        proof {
            assert(m.take(j + 1).drop_last() =~= m.take(j as int));
            assert(m.take(j + 1).last() == m[j as int]);
            assert(m[j as int] == f);
        }
        fams.insert(p, f);
        names.insert(p, key);
        j = j + 1;
    }
    assert(m.take(m.len() as int) =~= m);
    fams
}

/// How many generic families probe-rs appends after its built-in database.
pub const GENERIC_FAMILY_COUNT: usize = 6;

/// Name of the `k`-th generic family that probe-rs appends to its built-in
/// database.
pub open spec fn generic_name(k: int) -> Seq<char> {
    if k == 0 {
        "Generic ARMv6-M"@
    } else if k == 1 {
        "Generic ARMv7-M"@
    } else if k == 2 {
        "Generic ARMv7E-M"@
    } else if k == 3 {
        "Generic ARMv8-M"@
    } else if k == 4 {
        "Generic RISC-V"@
    } else {
        "Generic RISC-V 64-bit"@
    }
}

/// Variant names of the `k`-th generic family.
pub open spec fn generic_variants(k: int) -> Seq<Seq<char>> {
    if k == 0 {
        seq!["Cortex-M0"@, "Cortex-M0+"@, "Cortex-M1"@]
    } else if k == 1 {
        seq!["Cortex-M3"@]
    } else if k == 2 {
        seq!["Cortex-M4"@, "Cortex-M7"@]
    } else if k == 3 {
        seq!["Cortex-M23"@, "Cortex-M33"@, "Cortex-M35P"@, "Cortex-M55"@]
    } else if k == 4 {
        seq!["riscv"@]
    } else {
        seq!["riscv64"@]
    }
}

/// `recs` ends with the generic families, in order, each without a
/// manufacturer code.
pub open spec fn ends_with_generic(recs: Seq<FamilyRecord>) -> bool {
    &&& recs.len() >= GENERIC_FAMILY_COUNT
    &&& forall|k: int|
        0 <= k < GENERIC_FAMILY_COUNT ==> {
            let r = #[trigger] recs[recs.len() - GENERIC_FAMILY_COUNT + k];
            &&& r.name@ == generic_name(k)
            &&& r.manufacturer is None
            &&& views(r.variants@) == generic_variants(k)
        }
}

/// `f` is the selector entry of the `k`-th generic family (see
/// [`describes`]).
pub open spec fn generic_entry(f: ChipFamilyInfo, k: int) -> bool {
    &&& f.name@ == strip_series(generic_name(k))
    &&& f.brand@ == family_brand(generic_name(k), None)
    &&& sorted_unique(views(f.chips@), generic_variants(k))
}

/// Some entry of `fams` is that of the `k`-th generic family.
pub open spec fn generic_listed(fams: Seq<ChipFamilyInfo>, k: int) -> bool {
    exists|j: int| 0 <= j < fams.len() && generic_entry(#[trigger] fams[j], k)
}

/// `fams` has an entry for each generic family.
pub open spec fn lists_generic_families(fams: Seq<ChipFamilyInfo>) -> bool {
    forall|k: int| 0 <= k < GENERIC_FAMILY_COUNT ==> #[trigger] generic_listed(fams, k)
}

proof fn lemma_sorted_by_name_keeps(s: Seq<ChipFamilyInfo>)
    ensures
        sorted_by_name(s).len() == s.len(),
        forall|i: int| 0 <= i < s.len() ==> #[trigger] sorted_by_name(s).contains(s[i]),
    decreases s.len(),
{
    if s.len() > 0 {
        let d = s.drop_last();
        lemma_sorted_by_name_keeps(d);
        let t = sorted_by_name(d);
        let p = name_slot(t, s.last().name@, 0);
        lemma_name_slot_bounds(t, s.last().name@, 0);
        let u = t.insert(p, s.last());
        assert(u[p] == s.last());
        assert forall|i: int| 0 <= i < s.len() implies #[trigger] sorted_by_name(s).contains(s[i]) by {
            if i < s.len() - 1 {
                assert(d[i] == s[i]);
                assert(t.contains(d[i]));
                let q = choose|q: int| 0 <= q < t.len() && t[q] == d[i];
                if q < p {
                    assert(u[q] == s[i]);
                } else {
                    assert(u[q + 1] == s[i]);
                }
            } else {
                assert(u[p] == s[i]);
            }
        }
    }
}

/// A family list built from records that end with the generic families
/// has an entry for each of them.
proof fn lemma_generic_families_listed(records: Seq<FamilyRecord>, fams: Seq<ChipFamilyInfo>)
    requires
        family_list_of(records, fams),
        ends_with_generic(records),
    ensures
        fams.len() >= GENERIC_FAMILY_COUNT,
        lists_generic_families(fams),
{
    let m = choose|m: Seq<ChipFamilyInfo>|
        m.len() == records.len() && (forall|i: int|
            0 <= i < m.len() ==> describes(#[trigger] m[i], records[i])) && fams
            == sorted_by_name(m);
    lemma_sorted_by_name_keeps(m);
    assert forall|k: int| 0 <= k < GENERIC_FAMILY_COUNT implies #[trigger] generic_listed(fams, k) by {
        let i = records.len() - GENERIC_FAMILY_COUNT + k;
        assert(describes(m[i], records[i]));
        assert(fams.contains(m[i]));
        let j = choose|j: int| 0 <= j < fams.len() && fams[j] == m[i];
        assert(generic_entry(fams[j], k));
    }
}

/// The records of probe-rs's built-in chip families
/// (`probe_rs::config::Registry::from_builtin_families`), each family's
/// name, JEP106 code and variant names moved out as they stand.  probe-rs
/// appends its six generic families after the built-in database, so the
/// list ends with them; which families the database itself holds (it can
/// grow while the process runs) is not stated.
#[verifier::external_body]
fn builtin_family_records() -> (recs: Vec<FamilyRecord>)
    ensures
        ends_with_generic(recs@),
{
    let registry = probe_rs::config::Registry::from_builtin_families();
    registry.families().iter().map(|f| FamilyRecord {
        name: f.name.clone(),
        manufacturer: f.manufacturer.map(|c| (c.cc, c.id)),
        variants: f.variants.iter().map(|c| c.name.clone()).collect(),
    }).collect()
}

/// The built-in chip families of probe-rs, as selector entries sorted by
/// name; the generic families are always among them.
pub fn builtin_chip_families() -> (fams: Vec<ChipFamilyInfo>)
    ensures
        exists|records: Seq<FamilyRecord>| family_list_of(records, fams@) && ends_with_generic(records),
        fams@.len() >= GENERIC_FAMILY_COUNT,
        lists_generic_families(fams@),
{
    let records = builtin_family_records();
    let fams = chip_families_from(&records);
    proof {
        lemma_generic_families_listed(records@, fams@);
    }
    fams
}

} // verus!
