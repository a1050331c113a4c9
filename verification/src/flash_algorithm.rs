//! Flash algorithms: the raw, vendor-supplied form and the runtime form
//! assembled against a chosen RAM region.

use vstd::prelude::*;

use crate::family::RamRegion;
use crate::flash_properties::FlashProperties;

verus! {

/// The sentinel word placed before the algorithm blob: two breakpoint
/// instructions.  The algorithm's return address points here, so the core
/// halts when a routine returns.
pub const ALGORITHM_HEADER: u32 = 0xBE00_BE00;

/// A flash algorithm as the target description delivers it: an opaque
/// instruction blob with entry-point offsets and the flash properties.
#[derive(Debug, Clone)]
pub struct RawFlashAlgorithm {
    /// The algorithm's name.
    pub name: String,
    /// A fixed load address, where the blob cannot run from anywhere.
    pub load_address: Option<u32>,
    /// The instruction blob, as 32-bit words.
    pub instructions: Vec<u32>,
    /// Offset of the init entry point within the blob, if any.
    pub pc_init: Option<u32>,
    /// Offset of the uninit entry point within the blob, if any.
    pub pc_uninit: Option<u32>,
    /// Offset of the program-page entry point within the blob.
    pub pc_program_page: u32,
    /// Offset of the erase-sector entry point within the blob.
    pub pc_erase_sector: u32,
    /// Offset of the erase-all entry point within the blob, if any.
    pub pc_erase_all: Option<u32>,
    /// Offset of the RW data section within the blob.
    pub data_section_offset: u32,
    /// The stack size the algorithm declares.
    pub stack_size: u32,
    /// The flash properties of the device.
    pub flash_properties: FlashProperties,
}

/// A flash algorithm assembled against a RAM region: absolute addresses
/// for the blob, its data, the stack and the page buffers, and resolved
/// entry-point addresses.
#[derive(Debug, Clone)]
pub struct FlashAlgorithm {
    /// Where the blob (with its sentinel header) is loaded.
    pub load_address: u32,
    /// The words to load: the sentinel header followed by the blob.
    pub instructions: Vec<u32>,
    /// Absolute address of the init entry point, if any.
    pub pc_init: Option<u32>,
    /// Absolute address of the uninit entry point, if any.
    pub pc_uninit: Option<u32>,
    /// Absolute address of the program-page entry point.
    pub pc_program_page: u32,
    /// Absolute address of the erase-sector entry point.
    pub pc_erase_sector: u32,
    /// Absolute address of the erase-all entry point, if any.
    pub pc_erase_all: Option<u32>,
    /// The static base: absolute address of the RW data section.
    pub static_base: u32,
    /// The initial stack pointer handed to the algorithm.
    pub begin_stack: u32,
    /// The address page data is staged at: the first page buffer.
    pub begin_data: u32,
    /// One page buffer, or two when there is room for double buffering.
    pub page_buffers: Vec<u32>,
    /// The flash properties of the device.
    pub flash_properties: FlashProperties,
}

/// The failure cases of assembly and programming.
#[derive(Debug)]
pub enum FlashError {
    /// No RAM region suitable for the algorithm is defined.
    NoRamDefined,
    /// The algorithm's code, data, stack and one page buffer do not fit
    /// into the chosen RAM region.
    AlgorithmTooLarge,
    /// The flash layout cannot be built because the page or sector size
    /// is zero.
    InvalidPageSize,
    /// Two data spans handed to the flash builder overlap.
    DataOverlaps {
        /// The address at which the overlapping span starts.
        address: u32,
    },
    /// A data span does not lie within the region being programmed.
    AddressOutOfRegion {
        /// The address at which the offending span starts.
        address: u32,
    },
    /// Reading back the loaded algorithm did not give the loaded words.
    FlashAlgorithmNotLoaded,
    /// The algorithm has no erase-all routine.
    ChipEraseNotSupported,
    /// The algorithm has only one page buffer, so the double-buffered
    /// pipeline cannot run.
    DoubleBufferingNotSupported,
    /// The chip-wide erase failed.
    ChipEraseFailed {
        /// What failed underneath.
        source: Box<FlashError>,
    },
    /// A core operation failed.
    Core(crate::error::Error),
    /// Erasing a sector failed.
    EraseFailed {
        /// The address of the sector that failed.
        sector_address: u32,
        /// What failed underneath.
        source: Box<FlashError>,
    },
    /// Programming a page failed.
    PageWrite {
        /// The address of the page that failed.
        page_address: u32,
        /// What failed underneath.
        source: Box<FlashError>,
    },
    /// An algorithm routine returned a nonzero code.
    RoutineCallFailed {
        /// The routine's name.
        name: &'static str,
        /// The code it returned.
        error_code: u32,
    },
    /// The init routine failed.
    Init(Box<FlashError>),
    /// The uninit routine failed.
    Uninit(Box<FlashError>),
}

impl FlashAlgorithm {
    /// Assemble a raw algorithm against a RAM region: the sentinel header
    /// and blob at the RAM base (or the declared load address), the RW
    /// data after the blob, the stack after the data, and one or — where
    /// there is room — two page buffers after the stack.
    pub fn assemble_from_raw(raw: &RawFlashAlgorithm, ram: &RamRegion) -> (r: Result<
        FlashAlgorithm,
        FlashError,
    >)
        ensures
            r matches Ok(algo) ==> {
                let load = match raw.load_address {
                    Some(a) => a,
                    None => ram.range.start,
                };
                let code_start = load + 4;
                &&& algo.load_address == load
                &&& algo.instructions@ == seq![ALGORITHM_HEADER] + raw.instructions@
                &&& algo.pc_program_page as int == code_start + raw.pc_program_page
                &&& algo.pc_erase_sector as int == code_start + raw.pc_erase_sector
                &&& (raw.pc_init matches Some(p) ==> algo.pc_init == Some(
                    (code_start + p) as u32,
                ))
                &&& (raw.pc_init is None ==> algo.pc_init is None)
                &&& (raw.pc_uninit matches Some(p) ==> algo.pc_uninit == Some(
                    (code_start + p) as u32,
                ))
                &&& (raw.pc_uninit is None ==> algo.pc_uninit is None)
                &&& algo.static_base as int == code_start + raw.data_section_offset
                &&& algo.begin_stack as int == load + 4 + 4 * raw.instructions@.len()
                    + raw.stack_size
                &&& algo.begin_data == algo.begin_stack
                &&& algo.page_buffers@.len() == 1 || algo.page_buffers@.len() == 2
                &&& algo.page_buffers@[0] == algo.begin_data
                &&& (algo.page_buffers@.len() == 2 ==> algo.page_buffers@[1] as int
                    == algo.begin_data + raw.flash_properties.page_size)
            },
    {
        let load_address = match raw.load_address {
            Some(a) => a,
            None => ram.range.start,
        };

        // Absolute layout, checked against the 32-bit address space.
        let n_words = raw.instructions.len();
        if n_words > 0x0100_0000 {
            return Err(FlashError::AlgorithmTooLarge);
        }
        let code_size = 4 + 4 * (n_words as u32);
        if load_address > u32::MAX - code_size {
            return Err(FlashError::AlgorithmTooLarge);
        }
        let code_start = load_address + 4;
        let data_start = load_address + code_size;
        if data_start > u32::MAX - raw.stack_size {
            return Err(FlashError::AlgorithmTooLarge);
        }
        let begin_stack = data_start + raw.stack_size;
        let begin_data = begin_stack;

        let page_size = raw.flash_properties.page_size;
        if begin_data > u32::MAX - page_size {
            return Err(FlashError::AlgorithmTooLarge);
        }

        // The code, data, stack and at least one page buffer must fit in
        // the RAM region.
        if load_address < ram.range.start || begin_data + page_size > ram.range.end {
            return Err(FlashError::AlgorithmTooLarge);
        }

        // Entry points, resolved to absolute addresses.
        let code_limit = u32::MAX - code_start;
        if raw.pc_program_page > code_limit || raw.pc_erase_sector > code_limit
            || raw.data_section_offset > code_limit {
            return Err(FlashError::AlgorithmTooLarge);
        }
        let pc_init = match raw.pc_init {
            Some(p) => {
                if p > code_limit {
                    return Err(FlashError::AlgorithmTooLarge);
                }
                Some(code_start + p)
            }
            None => None,
        };
        let pc_uninit = match raw.pc_uninit {
            Some(p) => {
                if p > code_limit {
                    return Err(FlashError::AlgorithmTooLarge);
                }
                Some(code_start + p)
            }
            None => None,
        };
        let pc_erase_all = match raw.pc_erase_all {
            Some(p) => {
                if p > code_limit {
                    return Err(FlashError::AlgorithmTooLarge);
                }
                Some(code_start + p)
            }
            None => None,
        };

        // A second page buffer, where the RAM has room for it, enables
        // double buffering.
        let mut page_buffers: Vec<u32> = Vec::new();
        page_buffers.push(begin_data);
        if page_size > 0 && (begin_data + page_size) <= u32::MAX - page_size && begin_data + 2
            * page_size <= ram.range.end {
            page_buffers.push(begin_data + page_size);
        }

        let mut instructions: Vec<u32> = Vec::new();
        instructions.push(ALGORITHM_HEADER);
        let mut i: usize = 0;
        while i < raw.instructions.len()
            invariant
                i <= raw.instructions@.len(),
                instructions@ == seq![ALGORITHM_HEADER] + raw.instructions@.subrange(0, i as int),
            decreases raw.instructions@.len() - i,
        {
            instructions.push(raw.instructions[i]);
            i = i + 1;
            proof {
                assert(seq![ALGORITHM_HEADER] + raw.instructions@.subrange(0, i - 1) + seq![
                    raw.instructions@[i - 1],
                ] =~= seq![ALGORITHM_HEADER] + raw.instructions@.subrange(0, i as int));
            }
        }
        proof {
            assert(raw.instructions@.subrange(0, raw.instructions@.len() as int)
                =~= raw.instructions@);
        }

        Ok(
            FlashAlgorithm {
                load_address,
                instructions,
                pc_init,
                pc_uninit,
                pc_program_page: code_start + raw.pc_program_page,
                pc_erase_sector: code_start + raw.pc_erase_sector,
                pc_erase_all,
                static_base: code_start + raw.data_section_offset,
                begin_stack,
                begin_data,
                page_buffers,
                flash_properties: raw.flash_properties.clone(),
            },
        )
    }
}

} // verus!
