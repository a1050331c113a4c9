//! Core types of the target description: what kind of core a chip has,
//! which architecture family it belongs to, and which instruction set it
//! runs.

use vstd::prelude::*;

use crate::flash_algorithm::RawFlashAlgorithm;

verus! {

/// Source of a target description, used for diagnostics.
#[derive(Debug, Clone, Copy, PartialEq, Eq, Structural)]
pub enum TargetDescriptionSource {
    /// A generic description: just a core type, no flash algorithm or
    /// memory map.
    Generic,
    /// A description built into the host program.
    BuiltIn,
    /// A description loaded from an external source at runtime.
    External,
}

/// Type of a supported core.
#[derive(Debug, Clone, Copy, PartialEq, Eq, Structural)]
pub enum CoreType {
    /// ARMv6-M: Cortex M0, M0+, M1.
    Armv6m,
    /// ARMv7-A: Cortex A7, A9, A15.
    Armv7a,
    /// ARMv7-M: Cortex M3.
    Armv7m,
    /// ARMv7e-M: Cortex M4, M7.
    Armv7em,
    /// ARMv8-M: Cortex M23, M33.
    Armv8m,
    /// RISC-V.
    Riscv,
}

/// The architecture family of a specific [`CoreType`].
#[derive(Debug, Clone, Copy, PartialEq, Eq, Structural)]
pub enum Architecture {
    /// An ARM core.
    Arm,
    /// A RISC-V core.
    Riscv,
}

/// Instruction set used by a core.
#[derive(Debug, Clone, Copy, PartialEq, Eq, Structural)]
pub enum InstructionSet {
    /// ARM Thumb 2 instruction set.
    Thumb2,
    /// ARM A32 (often just called ARM) instruction set.
    A32,
    /// RISC-V 32-bit instruction set.
    RV32,
}

/// A half-open range of target addresses.
#[derive(Debug, Clone, Copy, PartialEq, Eq, Structural)]
pub struct AddressRange {
    /// The first address of the range.
    pub start: u32,
    /// One past the last address of the range.
    pub end: u32,
}

/// A region of RAM in the target's memory map.
#[derive(Debug, Clone)]
pub struct RamRegion {
    /// The addresses the region covers.
    pub range: AddressRange,
    /// The names of the cores that can access this region.
    pub cores: Vec<String>,
    /// Whether the chip boots from this region.
    pub is_boot_memory: bool,
}

/// A region of non-volatile memory in the target's memory map.
#[derive(Debug, Clone)]
pub struct NvmRegion {
    /// The addresses the region covers.
    pub range: AddressRange,
    /// The names of the cores that can access this region.
    pub cores: Vec<String>,
    /// Whether the chip boots from this region.
    pub is_boot_memory: bool,
}

/// A region of the memory map that is neither RAM nor flash.
#[derive(Debug, Clone)]
pub struct GenericRegion {
    /// The addresses the region covers.
    pub range: AddressRange,
    /// The names of the cores that can access this region.
    pub cores: Vec<String>,
    /// Whether the chip boots from this region.
    pub is_boot_memory: bool,
}

/// One region of the target's memory map.
#[derive(Debug, Clone)]
pub enum MemoryRegion {
    /// A RAM region.
    Ram(RamRegion),
    /// A non-volatile memory (flash) region.
    Nvm(NvmRegion),
    /// A region of some other kind.
    Generic(GenericRegion),
}

/// A JEDEC manufacturer code: the continuation count and the identity
/// byte.
#[derive(Debug, Clone, Copy, PartialEq, Eq, Structural)]
pub struct JepCode {
    /// How many continuation bytes precede the identity byte.
    pub cc: u8,
    /// The identity byte.
    pub id: u8,
}

/// One core of a chip variant, with its access options.
#[derive(Debug, Clone)]
pub struct CoreDescription {
    /// The core's name, as the memory map refers to it.
    pub name: String,
    /// The type of the core.
    pub core_type: CoreType,
    /// The index of the access port the core is reached through.
    pub ap: u32,
    /// The debug-register base address, where the core type needs one.
    pub debug_base: Option<u32>,
}

/// A chip variant: its cores, its memory map, and the names of the flash
/// algorithms that serve it.
#[derive(Debug, Clone)]
pub struct Chip {
    /// The variant's name.
    pub name: String,
    /// The cores of the variant.
    pub cores: Vec<CoreDescription>,
    /// The memory map of the variant, with non-overlapping regions.
    pub memory_map: Vec<MemoryRegion>,
    /// The names of the flash algorithms that serve this variant.
    pub flash_algorithms: Vec<String>,
}

/// What `ChipFamily::validate` can find wrong.
#[derive(Debug, Clone, Copy, PartialEq, Eq, Structural)]
pub enum ChipFamilyError {
    /// A variant names a flash algorithm the family does not have.
    UnknownFlashAlgorithm {
        /// The index of the offending variant.
        variant_index: usize,
        /// The index of the unknown name within the variant's list.
        algorithm_index: usize,
    },
    /// A variant has no cores at all.
    NoCoresDefined {
        /// The index of the offending variant.
        variant_index: usize,
    },
    /// A variant mixes cores of different architecture families.
    MixedCoreArchitectures {
        /// The index of the offending variant.
        variant_index: usize,
    },
}

/// The architecture family a core type belongs to.
pub open spec fn spec_architecture_of(t: CoreType) -> Architecture {
    if t == CoreType::Riscv {
        Architecture::Riscv
    } else {
        Architecture::Arm
    }
}

/// Whether the family has an algorithm of the given name.
pub open spec fn spec_algorithm_known(algos: Seq<RawFlashAlgorithm>, name: Seq<char>) -> bool {
    exists|i: int| 0 <= i < algos.len() && (#[trigger] algos[i]).name@ == name
}

/// What `ChipFamily::validate` checks of one variant: every algorithm
/// name it references exists, it has at least one core, and all its cores
/// share one architecture family.
pub open spec fn spec_variant_valid(algos: Seq<RawFlashAlgorithm>, chip: Chip) -> bool {
    &&& forall|a: int|
        0 <= a < chip.flash_algorithms@.len() ==> spec_algorithm_known(
            algos,
            (#[trigger] chip.flash_algorithms@[a])@,
        )
    &&& chip.cores@.len() > 0
    &&& forall|c: int|
        0 <= c < chip.cores@.len() ==> spec_architecture_of(
            (#[trigger] chip.cores@[c]).core_type,
        ) == spec_architecture_of(chip.cores@[0].core_type)
}

/// A chip family: a manufacturer, a set of variants, and the flash
/// algorithms that serve them.
#[derive(Debug, Clone)]
pub struct ChipFamily {
    /// The name of the family in base form.
    pub name: String,
    /// The manufacturer's JEDEC code, where known.
    pub manufacturer: Option<JepCode>,
    /// The variants of the family.
    pub variants: Vec<Chip>,
    /// The flash algorithms available to the family.
    pub flash_algorithms: Vec<RawFlashAlgorithm>,
    /// Where the description came from, for diagnostics.
    pub source: TargetDescriptionSource,
}

impl ChipFamily {
    /// Every variant of the family is valid.
    pub open spec fn spec_valid(&self) -> bool {
        forall|v: int|
            0 <= v < self.variants@.len() ==> spec_variant_valid(
                self.flash_algorithms@,
                #[trigger] self.variants@[v],
            )
    }

    /// Check the family, so later stages can rely on it: every algorithm
    /// name a variant references exists, every variant has at least one
    /// core, and no variant mixes core architectures.
    pub fn validate(&self) -> (r: Result<(), ChipFamilyError>)
        ensures
            r == Ok::<(), ChipFamilyError>(()) <==> self.spec_valid(),
    {
        let mut v: usize = 0;
        while v < self.variants.len()
            invariant
                v <= self.variants@.len(),
                forall|k: int|
                    0 <= k < v ==> spec_variant_valid(
                        self.flash_algorithms@,
                        #[trigger] self.variants@[k],
                    ),
            decreases self.variants@.len() - v,
        {
            let variant = &self.variants[v];

            // Every algorithm name used on the variant must exist on the
            // family.
            let mut a: usize = 0;
            while a < variant.flash_algorithms.len()
                invariant
                    a <= variant.flash_algorithms@.len(),
                    variant == &self.variants@[v as int],
                    v < self.variants@.len(),
                    forall|k: int|
                        0 <= k < a ==> spec_algorithm_known(
                            self.flash_algorithms@,
                            (#[trigger] variant.flash_algorithms@[k])@,
                        ),
                decreases variant.flash_algorithms@.len() - a,
            {
                let mut found = false;
                let mut i: usize = 0;
                while i < self.flash_algorithms.len()
                    invariant
                        i <= self.flash_algorithms@.len(),
                        a < variant.flash_algorithms@.len(),
                        found ==> spec_algorithm_known(
                            self.flash_algorithms@,
                            variant.flash_algorithms@[a as int]@,
                        ),
                        !found ==> forall|k: int|
                            0 <= k < i ==> (#[trigger] self.flash_algorithms@[k]).name@
                                != variant.flash_algorithms@[a as int]@,
                    decreases self.flash_algorithms@.len() - i,
                {
                    if self.flash_algorithms[i].name == variant.flash_algorithms[a] {
                        found = true;
                    }
                    i = i + 1;
                }
                if !found {
                    proof {
                        assert(!spec_algorithm_known(
                            self.flash_algorithms@,
                            variant.flash_algorithms@[a as int]@,
                        ));
                        assert(!spec_variant_valid(
                            self.flash_algorithms@,
                            self.variants@[v as int],
                        ));
                    }
                    return Err(ChipFamilyError::UnknownFlashAlgorithm {
                        variant_index: v,
                        algorithm_index: a,
                    });
                }
                a = a + 1;
            }

            // There must be at least one core.
            if variant.cores.len() == 0 {
                return Err(ChipFamilyError::NoCoresDefined { variant_index: v });
            }

            // The core architectures must not be mixed.
            let architecture = variant.cores[0].core_type.architecture();
            let mut c: usize = 1;
            while c < variant.cores.len()
                invariant
                    1 <= c,
                    c <= variant.cores@.len(),
                    variant == &self.variants@[v as int],
                    v < self.variants@.len(),
                    variant.cores@.len() > 0,
                    architecture == spec_architecture_of(variant.cores@[0].core_type),
                    forall|k: int|
                        0 <= k < c ==> spec_architecture_of(
                            (#[trigger] variant.cores@[k]).core_type,
                        ) == spec_architecture_of(variant.cores@[0].core_type),
                decreases variant.cores@.len() - c,
            {
                if variant.cores[c].core_type.architecture() != architecture {
                    return Err(ChipFamilyError::MixedCoreArchitectures { variant_index: v });
                }
                c = c + 1;
            }

            v = v + 1;
        }
        Ok(())
    }

    /// The variants of this family.
    pub fn variants(&self) -> (r: &Vec<Chip>)
        ensures
            r@ == self.variants@,
    {
        &self.variants
    }

    /// The flash algorithms of this family.
    pub fn algorithms(&self) -> (r: &Vec<RawFlashAlgorithm>)
        ensures
            r@ == self.flash_algorithms@,
    {
        &self.flash_algorithms
    }

    /// The first flash algorithm of the given name, if any.
    pub fn get_algorithm(&self, name: &String) -> (r: Option<&RawFlashAlgorithm>)
        ensures
            r matches Some(algo) ==> algo.name@ == name@ && spec_algorithm_known(
                self.flash_algorithms@,
                name@,
            ),
            r is None ==> !spec_algorithm_known(self.flash_algorithms@, name@),
    {
        let mut i: usize = 0;
        while i < self.flash_algorithms.len()
            invariant
                i <= self.flash_algorithms@.len(),
                forall|k: int|
                    0 <= k < i ==> (#[trigger] self.flash_algorithms@[k]).name@ != name@,
            decreases self.flash_algorithms@.len() - i,
        {
            if self.flash_algorithms[i].name == *name {
                return Some(&self.flash_algorithms[i]);
            }
            i = i + 1;
        }
        None
    }
}

/// The source a description is assumed to come from when none is given.
pub fn default_source() -> (r: TargetDescriptionSource)
    ensures
        r == TargetDescriptionSource::External,
{
    TargetDescriptionSource::External
}

/// The first RAM region of a memory map that the named core can access.
pub fn find_ram_region<'a>(memory_map: &'a Vec<MemoryRegion>, core_name: &String) -> (r: Option<
    &'a RamRegion,
>)
    ensures
        r matches Some(region) ==> exists|i: int|
            0 <= i < memory_map@.len() && ((#[trigger] memory_map@[i]) matches MemoryRegion::Ram(
                rr,
            ) && rr == *region),
{
    let mut i: usize = 0;
    while i < memory_map.len()
        invariant
            i <= memory_map@.len(),
        decreases memory_map@.len() - i,
    {
        match &memory_map[i] {
            MemoryRegion::Ram(region) => {
                let mut c: usize = 0;
                let mut accessible = false;
                while c < region.cores.len()
                    invariant
                        c <= region.cores@.len(),
                        i < memory_map@.len(),
                        memory_map@[i as int] matches MemoryRegion::Ram(rr) && rr == *region,
                    decreases region.cores@.len() - c,
                {
                    if region.cores[c] == *core_name {
                        accessible = true;
                    }
                    c = c + 1;
                }
                if accessible {
                    return Some(region);
                }
            }
            _ => {}
        }
        i = i + 1;
    }
    None
}

impl CoreType {
    /// Whether this core is an ARM Cortex-M.
    pub fn is_cortex_m(&self) -> (r: bool)
        ensures
            r == (*self == CoreType::Armv6m || *self == CoreType::Armv7em || *self
                == CoreType::Armv7m || *self == CoreType::Armv8m),
    {
        matches!(
            self,
            CoreType::Armv6m | CoreType::Armv7em | CoreType::Armv7m | CoreType::Armv8m
        )
    }

    /// The parent architecture family of this core type.
    pub fn architecture(&self) -> (r: Architecture)
        ensures
            r == (if *self == CoreType::Riscv {
                Architecture::Riscv
            } else {
                Architecture::Arm
            }),
    {
        match self {
            CoreType::Riscv => Architecture::Riscv,
            _ => Architecture::Arm,
        }
    }
}

} // verus!
