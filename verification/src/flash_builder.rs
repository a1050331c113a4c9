//! Building a flash layout: from an unordered list of data spans to the
//! sectors to erase, the pages to program, and the ranges to read back
//! from flash when unwritten bytes are to be restored.

use vstd::prelude::*;

use crate::family::NvmRegion;
use crate::flash_algorithm::{FlashAlgorithm, FlashError};
use crate::flash_properties::{sector_size_at, SectorDescription};

verus! {

/// One span of bytes to write.
#[derive(Debug, Clone)]
pub struct FlashDataBlock {
    /// The address the span starts at.
    pub address: u32,
    /// The bytes to write there.
    pub data: Vec<u8>,
}

/// A sector that must be erased.
#[derive(Debug, Clone, Copy, PartialEq, Eq, Structural)]
pub struct FlashSector {
    address: u32,
    size: u32,
}

impl FlashSector {
    /// The sector's start address.
    pub fn address(&self) -> (r: u32)
        ensures
            r == self.spec_address(),
    {
        self.address
    }

    /// The sector's start address.
    pub closed spec fn spec_address(&self) -> u32 {
        self.address
    }

    /// The sector's size in bytes.
    pub fn size(&self) -> (r: u32)
        ensures
            r == self.spec_size(),
    {
        self.size
    }

    /// The sector's size in bytes.
    pub closed spec fn spec_size(&self) -> u32 {
        self.size
    }
}

/// A page to program, holding the final contents to write.
#[derive(Debug, Clone)]
pub struct FlashPage {
    address: u32,
    data: Vec<u8>,
}

impl FlashPage {
    /// The page's start address.
    pub fn address(&self) -> (r: u32)
        ensures
            r == self.spec_address(),
    {
        self.address
    }

    /// The page's start address.
    pub closed spec fn spec_address(&self) -> u32 {
        self.address
    }

    /// The page's size in bytes.
    pub fn size(&self) -> (r: u32)
        requires
            self.spec_data().len() <= u32::MAX,
        ensures
            r == self.spec_data().len(),
    {
        self.data.len() as u32
    }

    /// The bytes to program.
    pub fn data(&self) -> (r: &Vec<u8>)
        ensures
            r@ == self.spec_data(),
    {
        &self.data
    }

    /// The bytes to program.
    pub closed spec fn spec_data(&self) -> Seq<u8> {
        self.data@
    }

    /// Replace one byte of the page, as a fill read from flash does.
    pub fn set_byte(&mut self, index: usize, value: u8)
        requires
            index < old(self).spec_data().len(),
        ensures
            final(self).spec_address() == old(self).spec_address(),
            final(self).spec_data() == old(self).spec_data().update(index as int, value),
    {
        self.data.set(index, value);
    }
}

/// A range within a page whose bytes must be read from flash and
/// restored, because nothing writes them.
#[derive(Debug, Clone, Copy, PartialEq, Eq, Structural)]
pub struct FlashFill {
    address: u32,
    size: u32,
    page_index: usize,
}

impl FlashFill {
    /// The fill's start address.
    pub fn address(&self) -> (r: u32)
        ensures
            r == self.spec_address(),
    {
        self.address
    }

    /// The fill's start address.
    pub closed spec fn spec_address(&self) -> u32 {
        self.address
    }

    /// The fill's size in bytes.
    pub fn size(&self) -> (r: u32)
        ensures
            r == self.spec_size(),
    {
        self.size
    }

    /// The fill's size in bytes.
    pub closed spec fn spec_size(&self) -> u32 {
        self.size
    }

    /// The index of the page the fill belongs to.
    pub fn page_index(&self) -> (r: usize)
        ensures
            r == self.spec_page_index(),
    {
        self.page_index
    }

    /// The index of the page the fill belongs to.
    pub closed spec fn spec_page_index(&self) -> usize {
        self.page_index
    }
}

/// The derived flash layout of one programming job.
#[derive(Debug, Clone)]
pub struct FlashLayout {
    sectors: Vec<FlashSector>,
    pages: Vec<FlashPage>,
    fills: Vec<FlashFill>,
}

impl FlashLayout {
    /// The sectors to erase, in ascending address order.
    pub fn sectors(&self) -> (r: &Vec<FlashSector>)
        ensures
            r@ == self.spec_sectors(),
    {
        &self.sectors
    }

    /// The sectors to erase.
    pub closed spec fn spec_sectors(&self) -> Seq<FlashSector> {
        self.sectors@
    }

    /// The pages to program, in ascending address order.
    pub fn pages(&self) -> (r: &Vec<FlashPage>)
        ensures
            r@ == self.spec_pages(),
    {
        &self.pages
    }

    /// The pages to program.
    pub closed spec fn spec_pages(&self) -> Seq<FlashPage> {
        self.pages@
    }

    /// The ranges to read back from flash.
    pub fn fills(&self) -> (r: &Vec<FlashFill>)
        ensures
            r@ == self.spec_fills(),
    {
        &self.fills
    }

    /// The ranges to read back from flash.
    pub closed spec fn spec_fills(&self) -> Seq<FlashFill> {
        self.fills@
    }

    /// Take one page out for filling, to put it back with
    /// [`FlashLayout::put_page`].
    pub fn take_page(&mut self, index: usize) -> (r: FlashPage)
        requires
            index < old(self).spec_pages().len(),
        ensures
            r == old(self).spec_pages()[index as int],
            final(self).spec_pages() == old(self).spec_pages().remove(index as int),
            final(self).spec_sectors() == old(self).spec_sectors(),
            final(self).spec_fills() == old(self).spec_fills(),
    {
        self.pages.remove(index)
    }

    /// Put a page taken with [`FlashLayout::take_page`] back.
    pub fn put_page(&mut self, index: usize, page: FlashPage)
        requires
            index <= old(self).spec_pages().len(),
        ensures
            final(self).spec_pages() == old(self).spec_pages().insert(index as int, page),
            final(self).spec_sectors() == old(self).spec_sectors(),
            final(self).spec_fills() == old(self).spec_fills(),
    {
        self.pages.insert(index, page);
    }
}

/// Well-formed spans: each fits the address space, and they are sorted
/// and disjoint.
pub open spec fn blocks_wf(blocks: Seq<FlashDataBlock>) -> bool {
    &&& forall|i: int|
        0 <= i < blocks.len() ==> (#[trigger] blocks[i]).address + blocks[i].data@.len()
            <= 0x1_0000_0000
    &&& forall|i: int|
        0 <= i < blocks.len() - 1 ==> (#[trigger] blocks[i]).address + blocks[i].data@.len()
            <= blocks[i + 1].address
}

/// The byte the spans assign to `addr`: the covering span's byte, or the
/// erased value where nothing writes the address.
pub open spec fn spec_byte_at(blocks: Seq<FlashDataBlock>, addr: int, erased: u8) -> u8
    decreases blocks.len(),
{
    if blocks.len() == 0 {
        erased
    } else if blocks.last().address <= addr < blocks.last().address + blocks.last().data@.len() {
        blocks.last().data@[addr - blocks.last().address]
    } else {
        spec_byte_at(blocks.drop_last(), addr, erased)
    }
}

/// Whether any span writes the byte at `addr`.
pub open spec fn spec_covered(blocks: Seq<FlashDataBlock>, addr: int) -> bool
    decreases blocks.len(),
{
    if blocks.len() == 0 {
        false
    } else if blocks.last().address <= addr < blocks.last().address + blocks.last().data@.len() {
        true
    } else {
        spec_covered(blocks.drop_last(), addr)
    }
}

/// Look up the byte the spans assign to `addr`.
fn byte_at(blocks: &Vec<FlashDataBlock>, addr: u32, erased: u8) -> (r: u8)
    ensures
        r == spec_byte_at(blocks@, addr as int, erased),
{
    let mut i: usize = blocks.len();
    proof {
        assert(blocks@.subrange(0, blocks@.len() as int) =~= blocks@);
    }
    while i > 0
        invariant
            i <= blocks@.len(),
            spec_byte_at(blocks@, addr as int, erased) == spec_byte_at(
                blocks@.subrange(0, i as int),
                addr as int,
                erased,
            ),
        decreases i,
    {
        i = i - 1;
        let block_addr = blocks[i].address;
        let block_len = blocks[i].data.len();
        proof {
            assert(blocks@.subrange(0, i + 1).last() == blocks@[i as int]);
            assert(blocks@.subrange(0, i + 1).drop_last() =~= blocks@.subrange(0, i as int));
        }
        if block_addr <= addr && ((addr - block_addr) as usize) < block_len {
            return blocks[i].data[(addr - block_addr) as usize];
        }
    }
    erased
}

/// Whether any span writes the byte at `addr`.
fn covered_at(blocks: &Vec<FlashDataBlock>, addr: u32) -> (r: bool)
    ensures
        r == spec_covered(blocks@, addr as int),
{
    let mut i: usize = blocks.len();
    proof {
        assert(blocks@.subrange(0, blocks@.len() as int) =~= blocks@);
    }
    while i > 0
        invariant
            i <= blocks@.len(),
            spec_covered(blocks@, addr as int) == spec_covered(
                blocks@.subrange(0, i as int),
                addr as int,
            ),
        decreases i,
    {
        i = i - 1;
        let block_addr = blocks[i].address;
        let block_len = blocks[i].data.len();
        proof {
            assert(blocks@.subrange(0, i + 1).last() == blocks@[i as int]);
            assert(blocks@.subrange(0, i + 1).drop_last() =~= blocks@.subrange(0, i as int));
        }
        if block_addr <= addr && ((addr - block_addr) as usize) < block_len {
            return true;
        }
    }
    false
}

/// The contents of the page at `page_address`: span bytes where written,
/// the erased value elsewhere.
fn build_page_data(blocks: &Vec<FlashDataBlock>, page_address: u32, page_size: u32, erased: u8) -> (r: Vec<u8>)
    requires
        page_address + page_size <= 0x1_0000_0000,
    ensures
        r@.len() == page_size,
        forall|j: int|
            0 <= j < page_size ==> #[trigger] r@[j] == spec_byte_at(
                blocks@,
                page_address + j,
                erased,
            ),
{
    let mut data: Vec<u8> = Vec::new();
    let mut j: u32 = 0;
    while j < page_size
        invariant
            j <= page_size,
            page_address + page_size <= 0x1_0000_0000,
            data@.len() == j,
            forall|k: int|
                0 <= k < j ==> #[trigger] data@[k] == spec_byte_at(
                    blocks@,
                    page_address + k,
                    erased,
                ),
        decreases page_size - j,
    {
        data.push(byte_at(blocks, page_address + j, erased));
        j = j + 1;
    }
    data
}

/// An unordered list of spans to write, kept sorted and disjoint.
#[derive(Debug, Clone)]
pub struct FlashBuilder {
    blocks: Vec<FlashDataBlock>,
}

impl FlashBuilder {
    /// An empty builder.
    pub fn new() -> (r: FlashBuilder)
        ensures
            r.spec_blocks() == Seq::<FlashDataBlock>::empty(),
            r.wf(),
    {
        FlashBuilder { blocks: Vec::new() }
    }

    /// The spans added so far, in address order.
    pub closed spec fn spec_blocks(&self) -> Seq<FlashDataBlock> {
        self.blocks@
    }

    /// The builder's spans are sorted and disjoint.
    pub open spec fn wf(&self) -> bool {
        blocks_wf(self.spec_blocks())
    }

    /// Add one span.  A span that overlaps an existing one, or that does
    /// not fit the address space, is rejected.
    pub fn add_data(&mut self, address: u32, data: Vec<u8>) -> (r: Result<(), FlashError>)
        requires
            old(self).wf(),
        ensures
            final(self).wf(),
            r matches Err(e) ==> final(self).spec_blocks() == old(self).spec_blocks(),
            r matches Ok(()) ==> exists|k: int|
                0 <= k <= old(self).spec_blocks().len() && final(self).spec_blocks() == old(
                    self,
                ).spec_blocks().insert(
                    k,
                    FlashDataBlock { address, data: data },
                ),
    {
        if data.len() as u64 > 0x1_0000_0000u64 - address as u64 {
            return Err(FlashError::AddressOutOfRegion { address });
        }

        // Find the insertion point: the first span starting past ours.
        let mut pos: usize = 0;
        while pos < self.blocks.len() && self.blocks[pos].address <= address
            invariant
                pos <= self.blocks@.len(),
                self.blocks@ == old(self).spec_blocks(),
                forall|i: int| 0 <= i < pos ==> (#[trigger] self.blocks@[i]).address <= address,
            decreases self.blocks@.len() - pos,
        {
            pos = pos + 1;
        }

        // No overlap with the span before or after.
        if pos > 0 {
            let prev_addr = self.blocks[pos - 1].address;
            let prev_len = self.blocks[pos - 1].data.len();
            if prev_addr as u64 + prev_len as u64 > address as u64 {
                return Err(FlashError::DataOverlaps { address });
            }
        }
        if pos < self.blocks.len() {
            let next_addr = self.blocks[pos].address;
            if address as u64 + data.len() as u64 > next_addr as u64 {
                return Err(FlashError::DataOverlaps { address });
            }
        }

        let block = FlashDataBlock { address, data };
        self.blocks.insert(pos, block);
        proof {
            let nb = self.blocks@;
            let ob = old(self).spec_blocks();
            assert forall|i: int| 0 <= i < nb.len() implies (#[trigger] nb[i]).address
                + nb[i].data@.len() <= 0x1_0000_0000 by {
                if i < pos {
                    assert(nb[i] == ob[i]);
                } else if i > pos {
                    assert(nb[i] == ob[i - 1]);
                }
            }
            assert forall|i: int| 0 <= i < nb.len() - 1 implies (#[trigger] nb[i]).address
                + nb[i].data@.len() <= nb[i + 1].address by {
                if i + 1 < pos {
                    assert(nb[i] == ob[i] && nb[i + 1] == ob[i + 1]);
                } else if i + 1 == pos {
                    assert(nb[i] == ob[i]);
                } else if i == pos {
                    assert(nb[i + 1] == ob[i]);
                } else {
                    assert(nb[i] == ob[i - 1] && nb[i + 1] == ob[i]);
                }
            }
        }
        Ok(())
    }

    /// Derive the flash layout: the sectors to erase, the pages to
    /// program — each holding the bytes the spans assign, the erased
    /// value elsewhere — and, when `restore_unwritten` is set, the ranges
    /// to read back from flash.
    ///
    /// A page or sector size of zero is rejected.
    pub fn build_sectors_and_pages(&self, region: &NvmRegion, flash_algorithm: &FlashAlgorithm, restore_unwritten: bool) -> (r: Result<FlashLayout, FlashError>)
        requires
            self.wf(),
        ensures
            flash_algorithm.flash_properties.page_size == 0 ==> (r matches Err(e) && (e matches
            FlashError::InvalidPageSize)),
            r matches Err(e) ==> (e matches FlashError::InvalidPageSize) || (e matches
            FlashError::AddressOutOfRegion { address }),
            r matches Ok(layout) ==> {
                let page_size = flash_algorithm.flash_properties.page_size;
                let erased = flash_algorithm.flash_properties.erased_byte_value;
                &&& forall|pi: int|
                    0 <= pi < layout.spec_pages().len() ==> {
                        let page = #[trigger] layout.spec_pages()[pi];
                        &&& page.spec_data().len() == page_size
                        &&& page.spec_address() % page_size == 0
                        &&& page.spec_address() + page_size <= 0x1_0000_0000
                        &&& forall|j: int|
                            0 <= j < page_size ==> #[trigger] page.spec_data()[j] == spec_byte_at(
                                self.spec_blocks(),
                                page.spec_address() + j,
                                erased,
                            )
                    }
                &&& forall|fi: int|
                    0 <= fi < layout.spec_fills().len() ==> (
                    #[trigger] layout.spec_fills()[fi]).spec_page_index()
                        < layout.spec_pages().len()
            },
    {
        let page_size = flash_algorithm.flash_properties.page_size;
        if page_size == 0 {
            return Err(FlashError::InvalidPageSize);
        }
        let erased = flash_algorithm.flash_properties.erased_byte_value;
        let flash_start = flash_algorithm.flash_properties.address_range.start;

        let mut sectors: Vec<FlashSector> = Vec::new();
        let mut pages: Vec<FlashPage> = Vec::new();
        let mut fills: Vec<FlashFill> = Vec::new();

        let mut b: usize = 0;
        while b < self.blocks.len()
            invariant
                b <= self.blocks@.len(),
                self.wf(),
                page_size == flash_algorithm.flash_properties.page_size,
                page_size > 0,
                erased == flash_algorithm.flash_properties.erased_byte_value,
                forall|pi: int|
                    0 <= pi < pages@.len() ==> {
                        let page = #[trigger] pages@[pi];
                        &&& page.spec_data().len() == page_size
                        &&& page.spec_address() % page_size == 0
                        &&& page.spec_address() + page_size <= 0x1_0000_0000
                        &&& forall|j: int|
                            0 <= j < page_size ==> #[trigger] page.spec_data()[j] == spec_byte_at(
                                self.spec_blocks(),
                                page.spec_address() + j,
                                erased,
                            )
                    },
                forall|fi: int|
                    0 <= fi < fills@.len() ==> (#[trigger] fills@[fi]).spec_page_index()
                        < pages@.len(),
            decreases self.blocks@.len() - b,
        {
            let block_addr = self.blocks[b].address;
            let block_len = self.blocks[b].data.len();

            if block_len > 0 {
                // Every span must lie in the region being programmed.
                if block_addr < region.range.start || (block_addr as u64 + block_len as u64)
                    > region.range.end as u64 {
                    return Err(FlashError::AddressOutOfRegion { address: block_addr });
                }

                let block_end: u32 = ((block_addr as u64 + block_len as u64) - 1) as u32;
                proof {
                    vstd::arithmetic::div_mod::lemma_mod_decreases(
                        block_addr as nat,
                        page_size as nat,
                    );
                    vstd::arithmetic::div_mod::lemma_fundamental_div_mod(
                        block_addr as int,
                        page_size as int,
                    );
                    vstd::arithmetic::div_mod::lemma_mod_multiples_vanish(
                        block_addr as int / page_size as int,
                        0,
                        page_size as int,
                    );
                }
                let mut page_addr: u32 = block_addr - block_addr % page_size;

                loop
                    invariant
                        self.wf(),
                        page_size > 0,
                        page_addr % page_size == 0,
                        page_addr as int <= block_end as int + page_size,
                        erased == flash_algorithm.flash_properties.erased_byte_value,
                        page_size == flash_algorithm.flash_properties.page_size,
                        forall|pi: int|
                            0 <= pi < pages@.len() ==> {
                                let page = #[trigger] pages@[pi];
                                &&& page.spec_data().len() == page_size
                                &&& page.spec_address() % page_size == 0
                                &&& page.spec_address() + page_size <= 0x1_0000_0000
                                &&& forall|j: int|
                                    0 <= j < page_size ==> #[trigger] page.spec_data()[j]
                                        == spec_byte_at(
                                        self.spec_blocks(),
                                        page.spec_address() + j,
                                        erased,
                                    )
                            },
                        forall|fi: int|
                            0 <= fi < fills@.len() ==> (#[trigger] fills@[fi]).spec_page_index()
                                < pages@.len(),
                    decreases block_end as int + (page_size as int) - page_addr,
                {
                    if page_addr > block_end {
                        break;
                    }
                    if page_addr > u32::MAX - (page_size - 1) {
                        // The page would leave the address space.
                        return Err(FlashError::AddressOutOfRegion { address: page_addr });
                    }

                    // A page already created by an earlier span is not
                    // repeated: spans ascend, so only the last page can
                    // collide.
                    let already_there = if pages.len() > 0 {
                        pages[pages.len() - 1].address == page_addr
                    } else {
                        false
                    };

                    if !already_there {
                        // The sector holding this page must be erased.
                        if page_addr >= flash_start {
                            let offset = page_addr - flash_start;
                            match sector_size_at(&flash_algorithm.flash_properties.sectors, offset)
                            {
                                Some(sector_size) => {
                                    if sector_size == 0 {
                                        return Err(FlashError::InvalidPageSize);
                                    }
                                    proof {
                                        vstd::arithmetic::div_mod::lemma_mod_decreases(
                                            offset as nat,
                                            sector_size as nat,
                                        );
                                    }
                                    let sector_addr = page_addr - offset % sector_size;
                                    let new_sector = if sectors.len() > 0 {
                                        sectors[sectors.len() - 1].address != sector_addr
                                    } else {
                                        true
                                    };
                                    if new_sector {
                                        sectors.push(
                                            FlashSector { address: sector_addr, size: sector_size },
                                        );
                                    }
                                }
                                None => {
                                    return Err(FlashError::InvalidPageSize);
                                }
                            }
                        }

                        let data = build_page_data(&self.blocks, page_addr, page_size, erased);
                        pages.push(FlashPage { address: page_addr, data });

                        // The unwritten runs of the page become fills.
                        if restore_unwritten {
                            let page_index = pages.len() - 1;
                            let mut run_start: u32 = 0;
                            let mut in_run = false;
                            let mut j: u32 = 0;
                            while j < page_size
                                invariant
                                    j <= page_size,
                                    page_addr + page_size <= 0x1_0000_0000,
                                    in_run ==> run_start < j,
                                    page_index < pages@.len(),
                                    forall|fi: int|
                                        0 <= fi < fills@.len() ==> (
                                        #[trigger] fills@[fi]).spec_page_index() < pages@.len(),
                                decreases page_size - j,
                            {
                                let is_unwritten = !covered_at(&self.blocks, page_addr + j);
                                if is_unwritten && !in_run {
                                    run_start = j;
                                    in_run = true;
                                } else if !is_unwritten && in_run {
                                    fills.push(
                                        FlashFill {
                                            address: page_addr + run_start,
                                            size: j - run_start,
                                            page_index,
                                        },
                                    );
                                    in_run = false;
                                }
                                j = j + 1;
                            }
                            if in_run {
                                fills.push(
                                    FlashFill {
                                        address: page_addr + run_start,
                                        size: page_size - run_start,
                                        page_index,
                                    },
                                );
                            }
                        }
                    }

                    if page_addr > u32::MAX - page_size {
                        break;
                    }
                    proof {
                        vstd::arithmetic::div_mod::lemma_mod_multiples_vanish(
                            1,
                            page_addr as int,
                            page_size as int,
                        );
                    }
                    page_addr = page_addr + page_size;
                }
            }
            b = b + 1;
        }

        Ok(FlashLayout { sectors, pages, fills })
    }
}

} // verus!
