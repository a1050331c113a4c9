//! Properties of a device's flash memory, as used when programming it.

use vstd::prelude::*;

use crate::family::AddressRange;

verus! {

/// A contiguous group of equally sized flash sectors.
#[derive(Debug, Clone, Copy, PartialEq, Eq, Structural)]
pub struct SectorDescription {
    /// The size of each sector in the group.
    pub size: u32,
    /// The offset of the group's first sector from the start of flash.
    pub address: u32,
}

/// Properties of the device flash.
#[derive(Debug, Clone)]
pub struct FlashProperties {
    /// The address range of the device flash.
    pub address_range: AddressRange,
    /// The page size: the granularity of programming.
    pub page_size: u32,
    /// The value of a byte in flash that was just erased.
    pub erased_byte_value: u8,
    /// The approximate time in milliseconds it takes to program a page.
    pub program_page_timeout: u32,
    /// The approximate time in milliseconds it takes to erase a sector.
    pub erase_sector_timeout: u32,
    /// The sector table of the device flash.
    pub sectors: Vec<SectorDescription>,
}

impl Default for FlashProperties {
    /// Empty flash: a zero-length range, zero sizes and timeouts, and no
    /// sector table.
    fn default() -> (r: Self)
        ensures
            r.address_range == (AddressRange { start: 0, end: 0 }),
            r.page_size == 0,
            r.erased_byte_value == 0,
            r.program_page_timeout == 0,
            r.erase_sector_timeout == 0,
            r.sectors@ == Seq::<SectorDescription>::empty(),
    {
        FlashProperties {
            address_range: AddressRange { start: 0, end: 0 },
            page_size: 0,
            erased_byte_value: 0,
            program_page_timeout: 0,
            erase_sector_timeout: 0,
            sectors: Vec::new(),
        }
    }
}

/// The sector size governing the byte at `offset` from the start of
/// flash: the last table entry at or below the offset decides.
pub open spec fn spec_sector_size_at(sectors: Seq<SectorDescription>, offset: int) -> Option<u32>
    decreases sectors.len(),
{
    if sectors.len() == 0 {
        None
    } else if sectors.last().address <= offset {
        Some(sectors.last().size)
    } else {
        spec_sector_size_at(sectors.drop_last(), offset)
    }
}

/// Look up the sector size governing the byte at `offset` from the start
/// of flash.
pub fn sector_size_at(sectors: &Vec<SectorDescription>, offset: u32) -> (r: Option<u32>)
    ensures
        r == spec_sector_size_at(sectors@, offset as int),
{
    let mut i: usize = sectors.len();
    proof {
        assert(sectors@.subrange(0, sectors@.len() as int) =~= sectors@);
    }
    while i > 0
        invariant
            i <= sectors@.len(),
            spec_sector_size_at(sectors@, offset as int) == spec_sector_size_at(
                sectors@.subrange(0, i as int),
                offset as int,
            ),
        decreases i,
    {
        i = i - 1;
        let entry = sectors[i];
        proof {
            assert(sectors@.subrange(0, i + 1).last() == sectors@[i as int]);
            assert(sectors@.subrange(0, i + 1).drop_last() =~= sectors@.subrange(0, i as int));
        }
        if entry.address <= offset {
            return Some(entry.size);
        }
    }
    None
}

} // verus!
