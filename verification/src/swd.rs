//! Bit-exact assembly and parsing of SWD wire sequences.
//!
//! A request is serialized as: 2 idle bits; 8 request bits (start, APnDP,
//! RnW, A[2], A[3], parity, stop, park); 1 turnaround; 3 ACK bits; then for
//! writes 2 turnaround + 32 data + parity, for reads 32 data + parity + 1
//! turnaround.  Every sequence is 48 bits long, plus trailing idle cycles.

use vstd::prelude::*;

use crate::dap::{DapError, DapTransfer, PortType, TransferDirection, TransferType};

verus! {

/// Bit `i` of a 32-bit word, LSB first.
pub open spec fn u32_bit(v: u32, i: u32) -> bool {
    (v >> i) & 1 == 1
}

/// Exclusive-or fold over the low `n` bits of `v`: true when an odd number
/// of them is set.
pub open spec fn xor_bits(v: u32, n: int) -> bool
    decreases n,
{
    if n <= 0 {
        false
    } else {
        xor_bits(v, n - 1) ^ u32_bit(v, (n - 1) as u32)
    }
}

/// The number of set bits in a bit sequence.
pub open spec fn seq_ones(s: Seq<bool>) -> int
    decreases s.len(),
{
    if s.len() == 0 {
        0
    } else {
        seq_ones(s.drop_last()) + (if s.last() { 1int } else { 0int })
    }
}

/// The value of a bit sequence read LSB-first.
pub open spec fn bits_value(s: Seq<bool>) -> int
    decreases s.len(),
{
    if s.len() == 0 {
        0
    } else {
        (if s[0] { 1int } else { 0int }) + 2 * bits_value(s.subrange(1, s.len() as int))
    }
}

/// A bit sequence's value is bounded by two to the power of its length.
pub proof fn lemma_bits_value_bound(s: Seq<bool>)
    ensures
        0 <= bits_value(s),
        bits_value(s) < vstd::arithmetic::power2::pow2(s.len()),
    decreases s.len(),
{
    if s.len() == 0 {
        vstd::arithmetic::power2::lemma_pow2_pos(0);
    } else {
        vstd::arithmetic::power2::lemma_pow2_unfold(s.len());
        lemma_bits_value_bound(s.subrange(1, s.len() as int));
    }
}

/// The parity fold equals the odd/even count of the bits of `v`, taken as a
/// sequence.  This ties the transmitted parity bit to the Hamming weight of
/// the transmitted word.
pub proof fn lemma_xor_bits_counts_ones(v: u32, n: int)
    requires
        0 <= n <= 32,
    ensures
        xor_bits(v, n) == (seq_ones(Seq::new(n as nat, |i: int| u32_bit(v, i as u32))) % 2 == 1),
    decreases n,
{
    let s = Seq::new(n as nat, |i: int| u32_bit(v, i as u32));
    if n > 0 {
        lemma_xor_bits_counts_ones(v, n - 1);
        let s0 = Seq::new((n - 1) as nat, |i: int| u32_bit(v, i as u32));
        assert(s.drop_last() =~= s0);
    }
}

/// Law: the data bits of a written word together with the parity bit the
/// engine emits for them have an even total Hamming weight.
pub proof fn lemma_write_parity_even(v: u32)
    ensures
        (seq_ones(spec_data_bits(v)) + (if xor_bits(v, 32) {
            1int
        } else {
            0int
        })) % 2 == 0,
{
    lemma_xor_bits_counts_ones(v, 32);
    assert(Seq::new(32, |i: int| u32_bit(v, i as u32)) =~= spec_data_bits(v));
}

/// The two raw bit streams handed to a probe: data bits and, for each, the
/// direction in which the line is driven (true = host drives).
pub struct IoSequence {
    io: Vec<bool>,
    direction: Vec<bool>,
}

impl IoSequence {
    /// The empty sequence.
    pub fn new() -> (r: IoSequence)
        ensures
            r.io_spec() == Seq::<bool>::empty(),
            r.dir_spec() == Seq::<bool>::empty(),
    {
        IoSequence { io: Vec::new(), direction: Vec::new() }
    }

    /// The data bits.
    pub closed spec fn io_spec(&self) -> Seq<bool> {
        self.io@
    }

    /// The direction bits.
    pub closed spec fn dir_spec(&self) -> Seq<bool> {
        self.direction@
    }

    /// Append one bit driven by the host.
    pub fn add_output(&mut self, bit: bool)
        ensures
            final(self).io_spec() == old(self).io_spec().push(bit),
            final(self).dir_spec() == old(self).dir_spec().push(true),
    {
        self.io.push(bit);
        self.direction.push(true);
    }

    /// Append several bits driven by the host.
    pub fn add_output_sequence(&mut self, bits: &Vec<bool>)
        ensures
            final(self).io_spec() == old(self).io_spec() + bits@,
            final(self).dir_spec() == old(self).dir_spec() + Seq::new(bits@.len(), |i: int| true),
    {
        let ghost old_io = self.io@;
        let ghost old_dir = self.direction@;
        let mut i: usize = 0;
        while i < bits.len()
            invariant
                i <= bits@.len(),
                self.io@ == old_io + bits@.subrange(0, i as int),
                self.direction@ == old_dir + Seq::new(i as nat, |j: int| true),
            decreases bits@.len() - i,
        {
            self.io.push(bits[i]);
            self.direction.push(true);
            i = i + 1;
            proof {
                assert(old_io + bits@.subrange(0, i - 1) + seq![bits@[i - 1]] =~= old_io
                    + bits@.subrange(0, i as int));
                assert(old_dir + Seq::new((i - 1) as nat, |j: int| true) + seq![true] =~= old_dir
                    + Seq::new(i as nat, |j: int| true));
            }
        }
        proof {
            assert(bits@.subrange(0, bits@.len() as int) =~= bits@);
        }
    }

    /// Append one bit during which the target drives the line.
    pub fn add_input(&mut self)
        ensures
            final(self).io_spec() == old(self).io_spec().push(false),
            final(self).dir_spec() == old(self).dir_spec().push(false),
    {
        self.io.push(false);
        self.direction.push(false);
    }

    /// Append several bits during which the target drives the line.
    pub fn add_input_sequence(&mut self, length: usize)
        ensures
            final(self).io_spec() == old(self).io_spec() + Seq::new(
                length as nat,
                |i: int| false,
            ),
            final(self).dir_spec() == old(self).dir_spec() + Seq::new(
                length as nat,
                |i: int| false,
            ),
    {
        let ghost old_io = self.io@;
        let ghost old_dir = self.direction@;
        let mut i: usize = 0;
        while i < length
            invariant
                i <= length,
                self.io@ == old_io + Seq::new(i as nat, |j: int| false),
                self.direction@ == old_dir + Seq::new(i as nat, |j: int| false),
            decreases length - i,
        {
            self.io.push(false);
            self.direction.push(false);
            i = i + 1;
            proof {
                assert(old_io + Seq::new((i - 1) as nat, |j: int| false) + seq![false] =~= old_io
                    + Seq::new(i as nat, |j: int| false));
                assert(old_dir + Seq::new((i - 1) as nat, |j: int| false) + seq![false] =~= old_dir
                    + Seq::new(i as nat, |j: int| false));
            }
        }
    }

    /// The data bits, as handed to the probe.
    pub fn io_bits(&self) -> (r: &Vec<bool>)
        ensures
            r@ == self.io_spec(),
    {
        &self.io
    }

    /// The direction bits, as handed to the probe.
    pub fn direction_bits(&self) -> (r: &Vec<bool>)
        ensures
            r@ == self.dir_spec(),
    {
        &self.direction
    }

    /// Append another sequence to this one.
    pub fn extend(&mut self, other: &IoSequence)
        ensures
            final(self).io_spec() == old(self).io_spec() + other.io_spec(),
            final(self).dir_spec() == old(self).dir_spec() + other.dir_spec(),
    {
        self.add_output_sequence_raw(&other.io, &other.direction);
    }

    /// Append raw bit/direction pairs.
    fn add_output_sequence_raw(&mut self, io: &Vec<bool>, direction: &Vec<bool>)
        ensures
            final(self).io_spec() == old(self).io_spec() + io@,
            final(self).dir_spec() == old(self).dir_spec() + direction@,
    {
        let ghost old_io = self.io@;
        let ghost old_dir = self.direction@;
        let mut i: usize = 0;
        while i < io.len()
            invariant
                i <= io@.len(),
                self.io@ == old_io + io@.subrange(0, i as int),
                self.direction@ == old_dir + direction@.subrange(
                    0,
                    if i <= direction@.len() {
                        i as int
                    } else {
                        direction@.len() as int
                    },
                ),
            decreases io@.len() - i,
        {
            self.io.push(io[i]);
            if i < direction.len() {
                self.direction.push(direction[i]);
            }
            i = i + 1;
            proof {
                assert(old_io + io@.subrange(0, i - 1) + seq![io@[i - 1]] =~= old_io + io@.subrange(
                    0,
                    i as int,
                ));
                if i <= direction@.len() {
                    assert(old_dir + direction@.subrange(0, i - 1) + seq![direction@[i - 1]]
                        =~= old_dir + direction@.subrange(0, i as int));
                }
            }
        }
        let mut j: usize = io.len();
        while j < direction.len()
            invariant
                io@.len() <= j <= direction@.len() || j == io.len(),
                self.io@ == old_io + io@,
                self.direction@ == old_dir + direction@.subrange(
                    0,
                    if j <= direction@.len() {
                        j as int
                    } else {
                        direction@.len() as int
                    },
                ),
            decreases direction@.len() - j,
        {
            self.direction.push(direction[j]);
            j = j + 1;
            proof {
                assert(old_dir + direction@.subrange(0, j - 1) + seq![direction@[j - 1]]
                    =~= old_dir + direction@.subrange(0, j as int));
            }
        }
        proof {
            assert(io@.subrange(0, io@.len() as int) =~= io@);
            assert(direction@.subrange(0, direction@.len() as int) =~= direction@);
        }
    }
}

/// The ten host-driven request bits: 2 idle, start, APnDP, RnW, A[2], A[3],
/// even parity over the four preceding bits, stop, park.
pub open spec fn spec_request_bits(port: PortType, transfer: TransferType, address: u8) -> Seq<
    bool,
> {
    let apndp = port == PortType::AccessPort;
    let rnw = transfer == TransferType::Read;
    let a2 = (address >> 2) & 1 == 1;
    let a3 = (address >> 3) & 1 == 1;
    seq![false, false, true, apndp, rnw, a2, a3, ((apndp ^ rnw) ^ a2) ^ a3, false, true]
}

/// The 32 data bits of a written word, LSB first.
pub open spec fn spec_data_bits(value: u32) -> Seq<bool> {
    Seq::new(32, |i: int| u32_bit(value, i as u32))
}

/// The full data-bit stream of one transfer, without trailing idle cycles.
pub open spec fn spec_swd_io(port: PortType, transfer: TransferType, address: u8) -> Seq<bool> {
    match transfer {
        TransferType::Read => spec_request_bits(port, transfer, address) + Seq::new(
            38,
            |i: int| false,
        ),
        TransferType::Write(v) => spec_request_bits(port, transfer, address) + Seq::new(
            5,
            |i: int| false,
        ) + spec_data_bits(v) + seq![xor_bits(v, 32)],
    }
}

/// The full direction-bit stream of one transfer, without trailing idle
/// cycles: the request is driven by the host, the turnaround, ACK and (for
/// reads) data bits by the target, the written data again by the host.
pub open spec fn spec_swd_dir(port: PortType, transfer: TransferType, address: u8) -> Seq<bool> {
    match transfer {
        TransferType::Read => Seq::new(10, |i: int| true) + Seq::new(38, |i: int| false),
        TransferType::Write(v) => Seq::new(10, |i: int| true) + Seq::new(5, |i: int| false)
            + Seq::new(33, |i: int| true),
    }
}

/// Assemble the raw SWD bit sequence for one register access.
pub fn build_swd_transfer(port: PortType, direction: TransferType, address: u8) -> (r: IoSequence)
    ensures
        r.io_spec() == spec_swd_io(port, direction, address),
        r.dir_spec() == spec_swd_dir(port, direction, address),
        r.io_spec().len() == 48,
        r.dir_spec().len() == 48,
{
    let apndp = match port {
        PortType::DebugPort => false,
        PortType::AccessPort => true,
    };
    let direction_bit = direction == TransferType::Read;
    let a2 = (address >> 2) & 1 == 1;
    let a3 = (address >> 3) & 1 == 1;

    let mut sequence = IoSequence::new();

    // Two idle cycles, then the request byte.
    sequence.add_output(false);
    sequence.add_output(false);
    sequence.add_output(true);
    sequence.add_output(apndp);
    sequence.add_output(direction_bit);
    sequence.add_output(a2);
    sequence.add_output(a3);
    sequence.add_output(((apndp ^ direction_bit) ^ a2) ^ a3);
    sequence.add_output(false);
    sequence.add_output(true);

    proof {
        assert(sequence.io_spec() =~= spec_request_bits(port, direction, address));
        assert(sequence.dir_spec() =~= Seq::new(10, |i: int| true));
    }

    // Turnaround, then the three ACK bits, driven by the target.
    sequence.add_input();
    sequence.add_input_sequence(3);

    match direction {
        TransferType::Write(value) => {
            // A second turnaround, then the data and its parity bit.
            sequence.add_input();
            proof {
                assert(sequence.io_spec() =~= spec_request_bits(port, direction, address)
                    + Seq::new(5, |i: int| false));
                assert(sequence.dir_spec() =~= Seq::new(10, |i: int| true) + Seq::new(
                    5,
                    |i: int| false,
                ));
            }
            let ghost base_io = sequence.io_spec();
            let ghost base_dir = sequence.dir_spec();
            let mut parity = false;
            let mut i: u32 = 0;
            while i < 32
                invariant
                    i <= 32,
                    parity == xor_bits(value, i as int),
                    sequence.io_spec() == base_io + Seq::new(
                        i as nat,
                        |j: int| u32_bit(value, j as u32),
                    ),
                    sequence.dir_spec() == base_dir + Seq::new(i as nat, |j: int| true),
                decreases 32 - i,
            {
                let bit = (value >> i) & 1 == 1;
                sequence.add_output(bit);
                parity = parity ^ bit;
                i = i + 1;
                proof {
                    assert(base_io + Seq::new((i - 1) as nat, |j: int| u32_bit(value, j as u32))
                        + seq![u32_bit(value, (i - 1) as u32)] =~= base_io + Seq::new(
                        i as nat,
                        |j: int| u32_bit(value, j as u32),
                    ));
                    assert(base_dir + Seq::new((i - 1) as nat, |j: int| true) + seq![true]
                        =~= base_dir + Seq::new(i as nat, |j: int| true));
                }
            }
            sequence.add_output(parity);
            proof {
                assert(Seq::new(32, |j: int| u32_bit(value, j as u32)) =~= spec_data_bits(value));
                assert(sequence.io_spec() =~= spec_swd_io(port, direction, address));
                assert(sequence.dir_spec() =~= spec_swd_dir(port, direction, address));
            }
        }
        TransferType::Read => {
            // Data, parity and the final turnaround, all driven by the target.
            sequence.add_input_sequence(32);
            sequence.add_input();
            sequence.add_input();
            proof {
                assert(sequence.io_spec() =~= spec_swd_io(port, direction, address));
                assert(sequence.dir_spec() =~= spec_swd_dir(port, direction, address));
            }
        }
    }

    sequence
}

/// The length in bits of the response to one transfer, excluding idle
/// cycles: 2 idle + 8 request + 3 ACK + 32 data + parity + 2 turnaround.
pub fn response_length(direction: TransferDirection) -> (r: usize)
    ensures
        r == 48,
{
    match direction {
        TransferDirection::Read => 2 + 8 + 3 + 32 + 1 + 2,
        TransferDirection::Write => 2 + 8 + 3 + 2 + 32 + 1,
    }
}

impl DapTransfer {
    /// The raw bit sequence of this transfer, with its trailing idle cycles.
    pub fn io_sequence(&self) -> (r: IoSequence)
        ensures
            r.io_spec() == spec_transfer_io(*self),
            r.dir_spec() == spec_transfer_dir(*self),
    {
        let mut seq = build_swd_transfer(self.port, self.transfer_type(), self.address);
        if self.idle_cycles_after > 0 {
            let idle = vec![false; self.idle_cycles_after];
            seq.add_output_sequence(&idle);
        }
        proof {
            assert(seq.io_spec() =~= spec_transfer_io(*self));
            assert(seq.dir_spec() =~= spec_transfer_dir(*self));
        }
        seq
    }
}

/// The data bits of a transfer including its trailing idle cycles.
pub open spec fn spec_transfer_io(t: DapTransfer) -> Seq<bool> {
    spec_swd_io(t.port, crate::dap::spec_transfer_type(t), t.address) + Seq::new(
        t.idle_cycles_after as nat,
        |i: int| false,
    )
}

/// The direction bits of a transfer including its trailing idle cycles,
/// which the host drives.
pub open spec fn spec_transfer_dir(t: DapTransfer) -> Seq<bool> {
    spec_swd_dir(t.port, crate::dap::spec_transfer_type(t), t.address) + Seq::new(
        t.idle_cycles_after as nat,
        |i: int| true,
    )
}

/// The meaning of a response: what [`parse_swd_response`] returns for the
/// bits starting at `offset`.
pub open spec fn spec_parse_swd_response(
    s: Seq<bool>,
    offset: int,
    direction: TransferDirection,
) -> Result<u32, DapError> {
    if s.len() < offset + 46 {
        Err(DapError::SwdProtocol)
    } else {
        let a = offset + 10;
        let ack0 = s[a];
        let ack1 = s[a + 1];
        let ack2 = s[a + 2];
        if ack0 && ack1 && ack2 {
            Err(DapError::NoAcknowledge)
        } else if ack1 {
            Err(DapError::WaitResponse)
        } else if ack2 {
            Err(DapError::FaultResponse)
        } else if ack0 {
            if direction == TransferDirection::Read {
                let data = s.subrange(a + 3, a + 35);
                let parity = s[a + 35];
                if (seq_ones(data) + (if parity {
                    1int
                } else {
                    0int
                })) % 2 == 0 {
                    Ok(bits_value(data) as u32)
                } else {
                    Err(DapError::IncorrectParity)
                }
            } else {
                Ok(0)
            }
        } else {
            Err(DapError::SwdProtocol)
        }
    }
}

/// Parse the probe's response to one transfer, whose bits start at `offset`
/// within `response`.
///
/// The acknowledge is sampled at bit 10 (the turnaround bit leads by one
/// because the probe samples on the falling edge).  `001` is OK, `010` WAIT,
/// `100` FAULT; all ones means nothing drove the line, anything else is a
/// framing error.  For an OK read, the 32 data bits are accepted only when
/// the trailing parity bit makes the total number of set bits even.
pub fn parse_swd_response(response: &Vec<bool>, offset: usize, direction: TransferDirection) -> (r:
    Result<u32, DapError>)
    ensures
        r == spec_parse_swd_response(response@, offset as int, direction),
        ({
            let s = response@;
            let a = offset + 10;
            &&& (s.len() < offset + 46) ==> r == Err::<u32, DapError>(DapError::SwdProtocol)
            &&& (s.len() >= offset + 46) ==> {
                let ack0 = s[a as int];
                let ack1 = s[a + 1];
                let ack2 = s[a + 2];
                let data = s.subrange(a + 3, a + 35);
                let parity = s[a + 35];
                &&& (ack0 && ack1 && ack2) ==> r == Err::<u32, DapError>(DapError::NoAcknowledge)
                &&& (!(ack0 && ack1 && ack2) && ack1) ==> r == Err::<u32, DapError>(
                    DapError::WaitResponse,
                )
                &&& (!(ack0 && ack1 && ack2) && !ack1 && ack2) ==> r == Err::<u32, DapError>(
                    DapError::FaultResponse,
                )
                &&& (ack0 && !ack1 && !ack2 && direction == TransferDirection::Read) ==> ((
                (seq_ones(data) + (if parity {
                    1int
                } else {
                    0int
                })) % 2 == 0) ==> r == Ok::<u32, DapError>(bits_value(data) as u32)) && (((
                seq_ones(data) + (if parity {
                    1int
                } else {
                    0int
                })) % 2 != 0) ==> r == Err::<u32, DapError>(DapError::IncorrectParity))
                &&& (ack0 && !ack1 && !ack2 && direction == TransferDirection::Write) ==> r
                    == Ok::<u32, DapError>(0)
                &&& (!ack0 && !ack1 && !ack2) ==> r == Err::<u32, DapError>(DapError::SwdProtocol)
            }
            &&& (r matches Ok(v) ==> (direction == TransferDirection::Read ==> {
                let data = s.subrange(a + 3, a + 35);
                let parity = s[a + 35];
                &&& (seq_ones(data) + (if parity {
                    1int
                } else {
                    0int
                })) % 2 == 0
                &&& v as int == bits_value(data)
            }))
        }),
{
    // There are two idle bits and eight request bits; the acknowledge comes
    // directly after, shifted ahead by one into the turnaround position.
    let len = response.len();
    if len < 46 || offset > len - 46 {
        return Err(DapError::SwdProtocol);
    }
    let ack_offset = offset + 10;

    let ack0 = response[ack_offset];
    let ack1 = response[ack_offset + 1];
    let ack2 = response[ack_offset + 2];

    let read_value_offset = ack_offset + 3;

    if ack0 && ack1 && ack2 {
        // All bits high: nothing answered on the line.
        return Err(DapError::NoAcknowledge);
    }
    if ack1 {
        return Err(DapError::WaitResponse);
    }
    if ack2 {
        return Err(DapError::FaultResponse);
    }

    if ack0 {
        if direction == TransferDirection::Read {
            let ghost data = response@.subrange(read_value_offset as int, read_value_offset + 32);

            // Read the 32 data bits LSB-first, from the top down so the
            // value can be built by doubling.
            let mut value: u32 = 0;
            let mut i: usize = 32;
            proof {
                assert(data.subrange(32, 32) =~= Seq::<bool>::empty());
            }
            while i > 0
                invariant
                    i <= 32,
                    offset + 46 <= response@.len(),
                    read_value_offset + 32 <= response@.len(),
                    read_value_offset <= usize::MAX - 33,
                    read_value_offset == offset + 13,
                    data == response@.subrange(read_value_offset as int, read_value_offset + 32),
                    value as int == bits_value(data.subrange(i as int, 32)),
                decreases i,
            {
                proof {
                    lemma_bits_value_bound(data.subrange(i as int, 32));
                    vstd::arithmetic::power2::lemma2_to64();
                    vstd::arithmetic::power2::lemma_pow2_adds((32 - i) as nat, (i - 1) as nat);
                    vstd::arithmetic::power2::lemma_pow2_pos((i - 1) as nat);
                }
                i = i - 1;
                let bit = response[read_value_offset + i];
                proof {
                    assert(data.subrange(i as int, 32)[0] == bit);
                    assert(data.subrange(i as int, 32).subrange(1, (32 - i) as int)
                        =~= data.subrange(i + 1, 32));
                }
                value = value * 2 + (if bit {
                    1
                } else {
                    0
                });
            }
            proof {
                assert(data.subrange(0, 32) =~= data);
            }

            // Count the set data bits for the parity check.
            let mut ones: u64 = 0;
            let mut j: usize = 0;
            proof {
                assert(data.subrange(0, 0) =~= Seq::<bool>::empty());
            }
            while j < 32
                invariant
                    j <= 32,
                    offset + 46 <= response@.len(),
                    read_value_offset + 32 <= response@.len(),
                    read_value_offset <= usize::MAX - 33,
                    read_value_offset == offset + 13,
                    data == response@.subrange(read_value_offset as int, read_value_offset + 32),
                    ones as int == seq_ones(data.subrange(0, j as int)),
                    ones <= j,
                decreases 32 - j,
            {
                let bit = response[read_value_offset + j];
                if bit {
                    ones = ones + 1;
                }
                j = j + 1;
                proof {
                    assert(data.subrange(0, j as int).drop_last() =~= data.subrange(0, j - 1));
                    assert(data.subrange(0, j as int).last() == bit);
                }
            }

            let parity_bit = response[read_value_offset + 32];

            if (ones % 2 == 1) == parity_bit {
                proof {
                    lemma_bits_value_bound(data);
                    vstd::arithmetic::power2::lemma2_to64();
                }
                Ok(value)
            } else {
                Err(DapError::IncorrectParity)
            }
        } else {
            // A write: the response carries no value.
            Ok(0)
        }
    } else {
        // The acknowledge pattern does not conform to the specification.
        Err(DapError::SwdProtocol)
    }
}

} // verus!
