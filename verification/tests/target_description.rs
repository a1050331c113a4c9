//! Validation of the target description, and the MEM-AP block planning.

use probe_rs::dap::{PortType, TransferDirection};
use probe_rs::family::{
    default_source, AddressRange, Chip, ChipFamily, ChipFamilyError, CoreDescription, CoreType,
    MemoryRegion, RamRegion, TargetDescriptionSource,
};
use probe_rs::flash_algorithm::RawFlashAlgorithm;
use probe_rs::flash_properties::{sector_size_at, FlashProperties, SectorDescription};
use probe_rs::memap::{plan_block_access, TAR_ADDRESS};

fn named_algorithm(name: &str) -> RawFlashAlgorithm {
    RawFlashAlgorithm {
        name: String::from(name),
        load_address: None,
        instructions: vec![],
        pc_init: None,
        pc_uninit: None,
        pc_program_page: 0,
        pc_erase_sector: 0,
        pc_erase_all: None,
        data_section_offset: 0,
        stack_size: 0,
        flash_properties: FlashProperties::default(),
    }
}

fn core_descr(name: &str, core_type: CoreType) -> CoreDescription {
    CoreDescription { name: String::from(name), core_type, ap: 0, debug_base: None }
}

fn chip(name: &str, cores: Vec<CoreDescription>, algorithms: Vec<String>) -> Chip {
    Chip {
        name: String::from(name),
        cores,
        memory_map: vec![],
        flash_algorithms: algorithms,
    }
}

fn family(variants: Vec<Chip>, algorithms: Vec<RawFlashAlgorithm>) -> ChipFamily {
    ChipFamily {
        name: String::from("test family"),
        manufacturer: None,
        variants,
        flash_algorithms: algorithms,
        source: default_source(),
    }
}

#[test]
fn valid_family_passes_validation() {
    let family = family(
        vec![chip(
            "variant-a",
            vec![core_descr("main", CoreType::Armv6m), core_descr("second", CoreType::Armv7m)],
            vec![String::from("algo")],
        )],
        vec![named_algorithm("algo")],
    );
    assert_eq!(family.validate(), Ok(()));
    assert_eq!(family.source, TargetDescriptionSource::External);
}

#[test]
fn unknown_algorithm_fails_validation() {
    let family = family(
        vec![chip(
            "variant-a",
            vec![core_descr("main", CoreType::Armv6m)],
            vec![String::from("missing")],
        )],
        vec![named_algorithm("algo")],
    );
    assert_eq!(
        family.validate(),
        Err(ChipFamilyError::UnknownFlashAlgorithm { variant_index: 0, algorithm_index: 0 })
    );
}

#[test]
fn variant_without_cores_fails_validation() {
    let family = family(vec![chip("variant-a", vec![], vec![])], vec![]);
    assert_eq!(family.validate(), Err(ChipFamilyError::NoCoresDefined { variant_index: 0 }));
}

#[test]
fn mixed_architectures_fail_validation() {
    let family = family(
        vec![chip(
            "variant-a",
            vec![core_descr("main", CoreType::Armv7a), core_descr("soft", CoreType::Riscv)],
            vec![],
        )],
        vec![],
    );
    assert_eq!(
        family.validate(),
        Err(ChipFamilyError::MixedCoreArchitectures { variant_index: 0 })
    );
}

#[test]
fn algorithm_lookup_finds_by_name() {
    let family = family(vec![], vec![named_algorithm("first"), named_algorithm("second")]);
    assert!(family.get_algorithm(&String::from("second")).is_some());
    assert!(family.get_algorithm(&String::from("third")).is_none());
}

#[test]
fn sector_table_lookup_takes_last_entry_at_or_below() {
    let sectors = vec![
        SectorDescription { size: 1024, address: 0 },
        SectorDescription { size: 4096, address: 0x4000 },
    ];
    assert_eq!(sector_size_at(&sectors, 0), Some(1024));
    assert_eq!(sector_size_at(&sectors, 0x3FFF), Some(1024));
    assert_eq!(sector_size_at(&sectors, 0x4000), Some(4096));
    let empty: Vec<SectorDescription> = vec![];
    assert_eq!(sector_size_at(&empty, 0), None);
}

#[test]
fn ram_region_lookup_honours_core_names() {
    let map = vec![
        MemoryRegion::Ram(RamRegion {
            range: AddressRange { start: 0x2000_0000, end: 0x2000_1000 },
            cores: vec![String::from("other")],
            is_boot_memory: false,
        }),
        MemoryRegion::Ram(RamRegion {
            range: AddressRange { start: 0x3000_0000, end: 0x3000_1000 },
            cores: vec![String::from("main")],
            is_boot_memory: false,
        }),
    ];
    let found = probe_rs::family::find_ram_region(&map, &String::from("main")).unwrap();
    assert_eq!(found.range.start, 0x3000_0000);
    assert!(probe_rs::family::find_ram_region(&map, &String::from("nobody")).is_none());
}

/// A block write crossing the 1 KiB auto-increment window reprograms the
/// TAR exactly once per boundary crossed.
#[test]
fn one_tar_reprogram_per_boundary() {
    // 128 words starting 256 bytes below a window boundary: one crossing.
    let values: Vec<u32> = (0..128).collect();
    let plan = plan_block_access(0x2000_0300, Some(&values), 0, 128);

    let tar_writes: Vec<usize> = plan
        .iter()
        .enumerate()
        .filter(|(_, t)| {
            t.port == PortType::AccessPort
                && t.address == TAR_ADDRESS
                && t.direction == TransferDirection::Write
        })
        .map(|(i, _)| i)
        .collect();

    // The initial TAR write, and one reprogram where the address reaches
    // 0x2000_0400 after 64 words.
    assert_eq!(tar_writes.len(), 2);
    assert_eq!(tar_writes[0], 1);
    assert_eq!(tar_writes[1], 2 + 64);
    assert_eq!(plan[2 + 64].value, 0x2000_0400);

    // A block inside one window needs no reprogram.
    let plan = plan_block_access(0x2000_0000, None, 0, 64);
    let tar_count = plan
        .iter()
        .filter(|t| {
            t.port == PortType::AccessPort
                && t.address == TAR_ADDRESS
                && t.direction == TransferDirection::Write
        })
        .count();
    assert_eq!(tar_count, 1);
}
