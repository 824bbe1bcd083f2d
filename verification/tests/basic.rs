use c_enum::expr::ValueExpr;
use c_enum::model::{EntrySpec, EnumSpec};
use c_enum::resolve::{resolve, ResolvedEnum};
use c_enum::value::CValue;

fn entry(label: &str, value: Option<i128>) -> EntrySpec {
    EntrySpec {
        label: label.to_string(),
        explicit_value: value.map(ValueExpr::Literal),
        attributes: Vec::new(),
    }
}

fn declare(name: &str, underlying: &str, entries: Vec<EntrySpec>) -> ResolvedEnum {
    let spec = EnumSpec {
        name: name.to_string(),
        underlying_type: underlying.to_string(),
        visibility: "pub".to_string(),
        outer_attributes: vec!["#[derive(Clone, Copy, PartialEq, Eq, Hash)]".to_string()],
        entries,
    };
    resolve(&spec).unwrap()
}

fn software() -> ResolvedEnum {
    let mut cpu_cycles = entry("CPU_CYCLES", None);
    cpu_cycles.attributes.push("/// Doc comments".to_string());
    declare(
        "Software",
        "u64",
        vec![
            cpu_cycles,
            entry("INSTRUCTIONS", Some(2)),
            entry("CACHE_REFERENCES", None),
            entry("CACHE_MISSES", None),
            entry("BRANCH_INSTRUCTIONS", Some(5)),
            entry("Lowercase", None),
        ],
    )
}

fn duplicates() -> ResolvedEnum {
    declare(
        "Duplicates",
        "u8",
        vec![entry("ITEM1", Some(2)), entry("ITEM2", Some(2))],
    )
}

fn constant(of: &ResolvedEnum, label: &str) -> CValue {
    of.constant(label).unwrap()
}

#[test]
fn increment_after_assign() {
    let software = software();
    assert_eq!(constant(&software, "Lowercase").0, 6);
    assert_ne!(
        constant(&software, "Lowercase"),
        constant(&software, "BRANCH_INSTRUCTIONS")
    );
}

#[test]
fn duplicates_are_equal() {
    let duplicates = duplicates();
    assert_eq!(
        constant(&duplicates, "ITEM1"),
        constant(&duplicates, "ITEM2")
    );
}

#[test]
fn verify_variant_label() {
    let software = software();
    assert_eq!(
        software.variant_label(constant(&software, "CPU_CYCLES")),
        Some("CPU_CYCLES")
    );
}

#[test]
fn variant_label_duplicate() {
    // In the case of duplicates the variant that comes first should be the
    // the one whose label is used.
    let duplicates = duplicates();
    assert_eq!(
        duplicates.variant_label(constant(&duplicates, "ITEM1")),
        Some("ITEM1")
    );
    assert_eq!(
        duplicates.variant_label(constant(&duplicates, "ITEM2")),
        Some("ITEM1")
    );
}

#[test]
fn variant_label_overlap_assigned() {
    let overlap = declare(
        "Overlap",
        "u32",
        vec![
            entry("A1", Some(2)),
            entry("A2", None),
            entry("A3", None),
            entry("B1", Some(2)),
            entry("B2", None),
            entry("B3", None),
        ],
    );

    assert_eq!(constant(&overlap, "A1"), constant(&overlap, "B1"));
    assert_eq!(constant(&overlap, "A3"), constant(&overlap, "B3"));
}
