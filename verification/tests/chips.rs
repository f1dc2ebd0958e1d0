use probe_rs_ui::chips::builtin_chip_families;
use probe_rs_ui::chips::chip_families_from;
use probe_rs_ui::chips::family_brand_of;
use probe_rs_ui::chips::family_info;
use probe_rs_ui::chips::group_brands;
use probe_rs_ui::chips::normalize_brand;
use probe_rs_ui::chips::sorted_unique_names;
use probe_rs_ui::chips::ChipFamilyInfo;
use probe_rs_ui::chips::FamilyRecord;

fn fam(name: &str, brand: &str, chips: &[&str]) -> ChipFamilyInfo {
    ChipFamilyInfo {
        name: name.to_string(),
        brand: brand.to_string(),
        chips: chips.iter().map(|c| c.to_string()).collect(),
    }
}

#[test]
fn brand_grouping_covers_all_families() {
    let families = builtin_chip_families();
    let brands = group_brands(&families);
    let total: usize = brands.iter().map(|b| b.families.len()).sum();
    assert_eq!(
        total,
        families.len(),
        "every family must be assigned to a brand"
    );

    let mut others: Vec<&str> = brands
        .iter()
        .filter(|b| b.name == "Other")
        .flat_map(|b| b.families.iter())
        .map(|&i| families[i].name.as_str())
        .collect();
    others.sort();
    assert_eq!(others, vec!["CIU32F0"], "unexpected unknown brand(s)");

    let brand_of = |name: &str| {
        families
            .iter()
            .position(|f| f.name == name)
            .and_then(|i| brands.iter().find(|b| b.families.contains(&i)))
            .map(|b| b.name.as_str())
    };
    assert_eq!(brand_of("STM32F1"), Some("ST"));
    assert_eq!(brand_of("nRF52"), Some("Nordic"));
    assert_eq!(brand_of("RP235x"), Some("Raspberry Pi"));
    assert_eq!(brand_of("MAX32660"), Some("Maxim"));
    assert_eq!(brand_of("psoc6_01"), Some("Infineon"));
    assert_eq!(brand_of("GD32F1x0"), Some("GigaDevice"));
    assert_eq!(brand_of("SAM3U"), Some("Microchip"));
    assert_eq!(brand_of("Generic ARMv8-M"), Some("ARM"));
}

#[test]
fn grouping_sorts_brands_with_other_last() {
    let families = vec![
        fam("b1", "Zeta", &[]),
        fam("b2", "Other", &[]),
        fam("b3", "Alpha", &[]),
        fam("b4", "Zeta", &[]),
        fam("b5", "Beta", &[]),
    ];
    let brands = group_brands(&families);
    let names: Vec<&str> = brands.iter().map(|b| b.name.as_str()).collect();
    assert_eq!(names, vec!["Alpha", "Beta", "Zeta", "Other"]);
    assert_eq!(brands[2].families, vec![0, 3]);
    assert_eq!(brands[3].families, vec![1]);
    assert_eq!(brands[0].families, vec![2]);
}

#[test]
fn every_family_lies_in_exactly_one_brand() {
    let families = vec![
        fam("a", "X", &[]),
        fam("b", "Y", &[]),
        fam("c", "X", &[]),
        fam("d", "Other", &[]),
    ];
    let brands = group_brands(&families);
    for i in 0..families.len() {
        let holders = brands.iter().filter(|b| b.families.contains(&i)).count();
        assert_eq!(holders, 1);
        let b = brands.iter().find(|b| b.families.contains(&i)).unwrap();
        assert_eq!(b.name, families[i].brand);
    }
}

#[test]
fn grouping_of_no_families_is_empty() {
    let brands = group_brands(&[]);
    assert!(brands.is_empty());
}

#[test]
fn normalize_brand_shortens_known_names() {
    assert_eq!(normalize_brand("STMicroelectronics"), "ST");
    assert_eq!(normalize_brand("  Nordic VLSI ASA "), "Nordic");
    assert_eq!(normalize_brand("Atmel Corporation"), "Microchip");
    assert_eq!(normalize_brand("Cypress Semiconductor"), "Infineon");
    assert_eq!(normalize_brand("Texas Instruments"), "TI");
    assert_eq!(normalize_brand("  Acme Chips  "), "Acme Chips");
    assert_eq!(normalize_brand(""), "");
}

#[test]
fn family_brand_prefers_prefix_rules() {
    assert_eq!(family_brand_of("STM32F4 Series", &None), "ST");
    assert_eq!(family_brand_of("nRF91", &Some("Whoever".to_string())), "Nordic");
    assert_eq!(family_brand_of("GD32VF103", &None), "GigaDevice");
    assert_eq!(family_brand_of("RP2040", &None), "Raspberry Pi");
}

#[test]
fn family_brand_recognises_generic_targets() {
    assert_eq!(family_brand_of("Generic ARMv7-M", &None), "ARM");
    assert_eq!(family_brand_of("generic RISC-V", &None), "RISC-V");
    assert_eq!(family_brand_of("Generic RiscV core", &None), "RISC-V");
}

#[test]
fn family_brand_falls_back_to_maker_then_other() {
    assert_eq!(
        family_brand_of("XYZ100", &Some("Texas Instruments".to_string())),
        "TI"
    );
    assert_eq!(family_brand_of("XYZ100", &Some("Acme".to_string())), "Acme");
    assert_eq!(family_brand_of("XYZ100", &None), "Other");
}

#[test]
fn sorted_unique_names_sorts_and_drops_repeats() {
    let names: Vec<String> = ["b", "a", "c", "a", "b"]
        .iter()
        .map(|s| s.to_string())
        .collect();
    assert_eq!(sorted_unique_names(&names), vec!["a", "b", "c"]);
}

#[test]
fn family_info_uses_the_jep106_manufacturer() {
    let rec = FamilyRecord {
        name: "XYZ100".to_string(),
        manufacturer: Some((0, 0x20)),
        variants: vec!["XYZ100B".to_string(), "XYZ100A".to_string(), "XYZ100A".to_string()],
    };
    let info = family_info(&rec);
    assert_eq!(info.name, "XYZ100");
    assert_eq!(info.brand, "ST");
    assert_eq!(info.chips, vec!["XYZ100A", "XYZ100B"]);

    let nordic = FamilyRecord {
        name: "ABC".to_string(),
        manufacturer: Some((2, 0x44)),
        variants: vec![],
    };
    assert_eq!(family_info(&nordic).brand, "Nordic");

    let unknown = FamilyRecord {
        name: "ABC".to_string(),
        manufacturer: None,
        variants: vec![],
    };
    assert_eq!(family_info(&unknown).brand, "Other");
}

#[test]
fn chip_families_are_sorted_by_name() {
    let recs = vec![
        FamilyRecord {
            name: "STM32F4".to_string(),
            manufacturer: None,
            variants: vec!["STM32F407".to_string()],
        },
        FamilyRecord {
            name: "LPC55".to_string(),
            manufacturer: None,
            variants: vec!["LPC55S69".to_string()],
        },
    ];
    let fams = chip_families_from(&recs);
    let names: Vec<&str> = fams.iter().map(|f| f.name.as_str()).collect();
    assert_eq!(names, vec!["LPC55", "STM32F4"]);
    assert_eq!(fams[0].brand, "NXP");
    assert_eq!(fams[1].brand, "ST");
}

#[test]
fn builtin_list_holds_the_generic_families() {
    let families = builtin_chip_families();
    let names = [
        "Generic ARMv6-M",
        "Generic ARMv7-M",
        "Generic ARMv7E-M",
        "Generic ARMv8-M",
        "Generic RISC-V",
        "Generic RISC-V 64-bit",
    ];
    for n in names {
        assert!(families.iter().any(|f| f.name == n), "missing {n}");
    }
    let m0 = families.iter().find(|f| f.name == "Generic ARMv6-M").unwrap();
    assert_eq!(m0.chips, vec!["Cortex-M0".to_string(), "Cortex-M0+".to_string(), "Cortex-M1".to_string()]);
    assert_eq!(m0.brand, "ARM");
    let rv = families.iter().find(|f| f.name == "Generic RISC-V").unwrap();
    assert_eq!(rv.brand, "RISC-V");
}

#[test]
fn normalizing_twice_changes_nothing() {
    for raw in ["  STMicroelectronics ", "Nordic VLSI ASA", "ARM Ltd", " Foo Corp\t", "", "ST", "Silicon Labs"] {
        let once = normalize_brand(raw);
        assert_eq!(normalize_brand(&once), once);
    }
    assert_eq!(normalize_brand(" Foo Corp\t"), "Foo Corp");
}
