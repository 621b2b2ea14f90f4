use vstd::prelude::*;
use bit_field::BitField;

verus! {

/// Bit 16 of a local vector table entry: the interrupt is masked.
pub const LVT_MASKED: u32 = 0x1_0000;
/// Bit 15 of a local vector table entry: level triggered (else edge triggered).
pub const LVT_LEVEL_TRIGGERED: u32 = 0x8000;
/// Bit 13 of a local vector table entry: active low (else active high).
pub const LVT_ACTIVE_LOW: u32 = 0x2000;
/// Bits 0..8 of a local vector table entry: the interrupt vector.
pub const LVT_VECTOR: u32 = 0xFF;

/// `d` with the bits of `mask` set when `on`, cleared otherwise.
pub open spec fn with_flag(d: u32, mask: u32, on: bool) -> u32 {
    if on {
        d | mask
    } else {
        d & !mask
    }
}

/// `d` with its vector field replaced by the low byte of `vector`.
pub open spec fn with_vector(d: u32, vector: u32) -> u32 {
    (d & !LVT_VECTOR) | (vector & LVT_VECTOR)
}

/// Bit `i` of `d`.
pub open spec fn bit_of(d: u32, i: u32) -> bool {
    (d >> i) & 1 == 1
}

/// A builder for the value of a local vector table register.
#[allow(non_camel_case_types)]
pub struct LVT_Editor {
    pub data: u32,
}

impl LVT_Editor {
    /// An entry with every bit clear.
    pub fn new() -> (r: Self)
        ensures
            r.data == 0,
    {
        LVT_Editor { data: 0 }
    }

    /// An entry holding `data`.
    pub fn with_data(data: u32) -> (r: Self)
        ensures
            r.data == data,
    {
        LVT_Editor { data }
    }

    /// The raw register value.
    pub fn bits(&self) -> (r: u32)
        ensures
            r == self.data,
    {
        self.data
    }

    /// Sets or clears the mask bit.
    pub fn write_masked(self, masked: bool) -> (r: Self)
        ensures
            r.data == with_flag(self.data, LVT_MASKED, masked),
    {
        let mut s = self;
        if masked {
            s.data = s.data | LVT_MASKED;
        } else {
            s.data = s.data & !LVT_MASKED;
        }
        s
    }

    /// Sets or clears the level-triggered bit.
    pub fn write_level_triggered(self, level_triggered: bool) -> (r: Self)
        ensures
            r.data == with_flag(self.data, LVT_LEVEL_TRIGGERED, level_triggered),
    {
        let mut s = self;
        if level_triggered {
            s.data = s.data | LVT_LEVEL_TRIGGERED;
        } else {
            s.data = s.data & !LVT_LEVEL_TRIGGERED;
        }
        s
    }

    /// Sets or clears the active-low bit.
    pub fn write_active_low(self, active_low: bool) -> (r: Self)
        ensures
            r.data == with_flag(self.data, LVT_ACTIVE_LOW, active_low),
    {
        let mut s = self;
        if active_low {
            s.data = s.data | LVT_ACTIVE_LOW;
        } else {
            s.data = s.data & !LVT_ACTIVE_LOW;
        }
        s
    }

    /// Replaces the vector field with the low byte of `vector`.
    pub fn write_vector(self, vector: u32) -> (r: Self)
        ensures
            r.data == with_vector(self.data, vector),
    {
        let mut s = self;
        s.data = s.data & !LVT_VECTOR;
        s.data = s.data | (vector & LVT_VECTOR);
        s
    }

    /// Sets bit `index` when `value` holds; a `false` leaves the entry as it is.
    pub fn write_bit(self, index: u32, value: bool) -> (r: Self)
        requires
            value ==> index < 32,
        ensures
            r.data == (if value { self.data | (1u32 << index) } else { self.data }),
    {
        let mut s = self;
        let b: u32 = if value { 1u32 << index } else { 0 };
        s.data = s.data | b;
        proof {
            assert(self.data | 0u32 == self.data) by (bit_vector);
        }
        s
    }
}

/// Bit-level meaning of setting or clearing the single bit `k`.
proof fn lemma_single_bit_write(d: u32, k: u32, on: bool, i: u32)
    requires
        k < 32,
        i < 32,
    ensures
        bit_of(with_flag(d, 1u32 << k, on), i) == (if i == k { on } else { bit_of(d, i) }),
{
    if on {
        assert(((d | (1u32 << k)) >> i) & 1 == 1 <==> (if i == k { true } else { (d >> i) & 1 == 1 }))
            by (bit_vector)
            requires
                k < 32,
                i < 32,
        ;
    } else {
        assert(((d & !(1u32 << k)) >> i) & 1 == 1 <==> (if i == k { false } else { (d >> i) & 1 == 1 }))
            by (bit_vector)
            requires
                k < 32,
                i < 32,
        ;
    }
}

/// A flag write sets (or clears) exactly the flag's bit: bit 16, 15 or 13
/// takes the written value and every other bit keeps its old value.
pub proof fn lemma_flag_write_is_exact(d: u32, on: bool, i: u32)
    requires
        i < 32,
    ensures
        bit_of(with_flag(d, LVT_MASKED, on), i) == (if i == 16 { on } else { bit_of(d, i) }),
        bit_of(with_flag(d, LVT_LEVEL_TRIGGERED, on), i) == (if i == 15 { on } else { bit_of(d, i) }),
        bit_of(with_flag(d, LVT_ACTIVE_LOW, on), i) == (if i == 13 { on } else { bit_of(d, i) }),
{
    assert(1u32 << 16u32 == 0x1_0000u32) by (bit_vector);
    assert(1u32 << 15u32 == 0x8000u32) by (bit_vector);
    assert(1u32 << 13u32 == 0x2000u32) by (bit_vector);
    lemma_single_bit_write(d, 16, on, i);
    lemma_single_bit_write(d, 15, on, i);
    lemma_single_bit_write(d, 13, on, i);
}

/// Writing the vector puts the low byte of `vector` in bits 0..8 and keeps
/// bits 8..32 of the entry.
pub proof fn lemma_vector_write_is_exact(d: u32, vector: u32)
    ensures
        with_vector(d, vector) & 0xFF == vector & 0xFF,
        with_vector(d, vector) >> 8 == d >> 8,
{
    assert(((d & !0xFFu32) | (vector & 0xFFu32)) & 0xFF == vector & 0xFF) by (bit_vector);
    assert(((d & !0xFFu32) | (vector & 0xFFu32)) >> 8 == d >> 8) by (bit_vector);
}

/// Writing a mask twice: the second write decides.
proof fn lemma_with_flag_twice(d: u32, m: u32, first: bool, second: bool)
    ensures
        with_flag(with_flag(d, m, first), m, second) == with_flag(d, m, second),
{
    assert((d | m) | m == d | m) by (bit_vector);
    assert((d | m) & !m == d & !m) by (bit_vector);
    assert((d & !m) | m == d | m) by (bit_vector);
    assert((d & !m) & !m == d & !m) by (bit_vector);
}

/// The last write of a flag wins: a second write of the same flag undoes the
/// first, whatever the first wrote.
pub proof fn lemma_flag_last_write_wins(d: u32, first: bool, second: bool)
    ensures
        with_flag(with_flag(d, LVT_MASKED, first), LVT_MASKED, second) == with_flag(d, LVT_MASKED, second),
        with_flag(with_flag(d, LVT_LEVEL_TRIGGERED, first), LVT_LEVEL_TRIGGERED, second)
            == with_flag(d, LVT_LEVEL_TRIGGERED, second),
        with_flag(with_flag(d, LVT_ACTIVE_LOW, first), LVT_ACTIVE_LOW, second)
            == with_flag(d, LVT_ACTIVE_LOW, second),
{
    lemma_with_flag_twice(d, LVT_MASKED, first, second);
    lemma_with_flag_twice(d, LVT_LEVEL_TRIGGERED, first, second);
    lemma_with_flag_twice(d, LVT_ACTIVE_LOW, first, second);
}

/// Offset of the APIC ID register.
pub const APIC_ID: u32 = 0x20;
/// Offset of the version register.
pub const APIC_VERSION: u32 = 0x30;
/// Offset of the task priority register.
pub const APIC_TPR: u32 = 0x80;
/// Offset of the end-of-interrupt register.
pub const APIC_EOI: u32 = 0xB0;
/// Offset of the spurious interrupt vector register.
pub const APIC_SVR: u32 = 0xF0;
/// Offset of the error status register.
pub const APIC_ESR: u32 = 0x280;
/// Offset of the low half of the interrupt command register.
pub const APIC_ICR_LOW: u32 = 0x300;
/// Offset of the high half of the interrupt command register.
pub const APIC_ICR_HIGH: u32 = 0x310;
/// Offset of the timer entry of the local vector table.
pub const APIC_LVT_TIMER: u32 = 0x320;
/// Offset of the performance-counter entry of the local vector table.
pub const APIC_LVT_PCINT: u32 = 0x340;
/// Offset of the LINT0 entry of the local vector table.
pub const APIC_LVT_LINT0: u32 = 0x350;
/// Offset of the LINT1 entry of the local vector table.
pub const APIC_LVT_LINT1: u32 = 0x360;
/// Offset of the error entry of the local vector table.
pub const APIC_LVT_ERROR: u32 = 0x370;
/// The software-enable bit of the spurious interrupt vector register.
pub const SVR_APIC_ENABLE: u32 = 0x100;
/// The vector of spurious interrupts.
pub const SPURIOUS_INTERRUPT_VECTOR: u32 = 0xFF;
/// The vector of APIC error interrupts.
pub const ERROR_INTERRUPT_VECTOR: u32 = 0xFE;
/// First vector of the hardware interrupt lines.
pub const IRQ_BASE: u32 = 0x20;
/// Line of the timer, counted from `IRQ_BASE`.
pub const IRQ_TIMER: u32 = 0;
/// The interrupt command sent during initialisation: INIT level de-assert,
/// level triggered, to all processors but this one.
pub const ICR_INIT_DEASSERT_ALL: u64 = 0x14_4000;

/// One step of a program of register accesses on the local APIC.
#[derive(PartialEq, Eq, Structural, Debug, Clone, Copy)]
pub enum ApicOp {
    /// Write `value` to the register at offset `reg`.
    Write { reg: u32, value: u32 },
    /// Read the low half of the interrupt command register until its
    /// delivery-status bit is clear.
    WaitIcrIdle,
}

/// Bit `bit` of `value`, from the bit_field crate.
///
/// Calls `<u32 as bit_field::BitField>::get_bit`, whose source returns
/// `value & (1 << bit) != 0` and asserts `bit < 32`; the contract claims that
/// it returns bit `bit` of `value`.
#[verifier::external_body]
fn u32_get_bit(value: u32, bit: usize) -> (r: bool)
    requires
        bit < 32,
    ensures
        r == bit_of(value, bit as u32),
{
    value.get_bit(bit)
}

/// The value of the interrupt command register made of its two halves.
pub open spec fn icr_value(high: u32, low: u32) -> u64 {
    (high as int * 0x1_0000_0000 + low as int) as u64
}

/// The register program that sends the interrupt command `value`: wait for
/// the previous command, write the high half, then the low half (which sends
/// it), and wait until it has been delivered.
pub open spec fn set_icr_program(value: u64) -> Seq<ApicOp> {
    seq![
        ApicOp::WaitIcrIdle,
        ApicOp::Write { reg: APIC_ICR_HIGH, value: (value as int / 0x1_0000_0000) as u32 },
        ApicOp::Write { reg: APIC_ICR_LOW, value: (value as int % 0x1_0000_0000) as u32 },
        ApicOp::WaitIcrIdle,
    ]
}

/// The timer entry that `cpu_init` programs: unmasked, edge triggered,
/// active high, periodic (bit 17), on vector `IRQ_BASE + IRQ_TIMER`.
pub open spec fn timer_lvt_value() -> u32 {
    0x2_0020
}

/// The register program that initialises the local APIC, given the value
/// that the spurious interrupt vector register held before.
pub open spec fn cpu_init_program(svr: u32) -> Seq<ApicOp> {
    seq![
        ApicOp::Write { reg: APIC_SVR, value: svr | SVR_APIC_ENABLE | SPURIOUS_INTERRUPT_VECTOR },
        ApicOp::Write { reg: APIC_LVT_TIMER, value: timer_lvt_value() },
        ApicOp::Write { reg: APIC_LVT_LINT0, value: LVT_MASKED },
        ApicOp::Write { reg: APIC_LVT_LINT1, value: LVT_MASKED },
        ApicOp::Write { reg: APIC_LVT_LINT0, value: LVT_MASKED },
        ApicOp::Write { reg: APIC_LVT_PCINT, value: LVT_MASKED },
        ApicOp::Write { reg: APIC_LVT_ERROR, value: ERROR_INTERRUPT_VECTOR },
        ApicOp::Write { reg: APIC_ESR, value: 0 },
        ApicOp::Write { reg: APIC_ESR, value: 0 },
        ApicOp::Write { reg: APIC_EOI, value: 0 },
    ] + set_icr_program(ICR_INIT_DEASSERT_ALL) + seq![ApicOp::Write { reg: APIC_TPR, value: 0 }]
}

/// A local APIC in xAPIC mode, reached through memory-mapped registers
/// starting at `addr`.
pub struct XApic {
    addr: u64,
}

impl XApic {
    pub closed spec fn base(&self) -> u64 {
        self.addr
    }

    /// The APIC whose registers start at `addr`.
    pub fn new(addr: u64) -> (r: Self)
        ensures
            r.base() == addr,
    {
        XApic { addr }
    }

    /// The address of the register at offset `reg`.
    pub fn register_address(&self, reg: u32) -> (r: u64)
        requires
            self.base() + reg <= u64::MAX,
        ensures
            r == self.base() + reg,
    {
        self.addr + reg as u64
    }

    /// The APIC id held in the top byte of the ID register.
    pub fn id_from(raw: u32) -> (r: u32)
        ensures
            r == raw / 0x100_0000,
    {
        assert(raw >> 24u32 == raw / 0x100_0000) by (bit_vector);
        raw >> 24
    }

    /// The interrupt command register value made of its high and low halves.
    pub fn icr_from(high: u32, low: u32) -> (r: u64)
        ensures
            r == icr_value(high, low),
    {
        let r = ((high as u64) << 32u64) | (low as u64);
        assert(((high as u64) << 32u64) | (low as u64) == high as u64 * 0x1_0000_0000u64 + low as u64)
            by (bit_vector);
        r
    }

    /// Whether the delivery-status bit (bit 12) of the low half of the
    /// interrupt command register says that a command is still being sent.
    pub fn icr_pending(low: u32) -> (r: bool)
        ensures
            r == bit_of(low, 12),
    {
        u32_get_bit(low, 12)
    }

    /// The register program of `set_icr(value)`.
    pub fn set_icr_plan(value: u64) -> (ops: Vec<ApicOp>)
        ensures
            ops@ == set_icr_program(value),
    {
        let high = (value >> 32u64) as u32;
        let low = value as u32;
        assert((value >> 32u64) as u32 == (value / 0x1_0000_0000u64) as u32) by (bit_vector);
        assert(value as u32 == (value % 0x1_0000_0000u64) as u32) by (bit_vector);
        let mut ops: Vec<ApicOp> = Vec::new();
        ops.push(ApicOp::WaitIcrIdle);
        ops.push(ApicOp::Write { reg: APIC_ICR_HIGH, value: high });
        ops.push(ApicOp::Write { reg: APIC_ICR_LOW, value: low });
        ops.push(ApicOp::WaitIcrIdle);
        assert(ops@ =~= set_icr_program(value));
        ops
    }

    /// The register program of `cpu_init`, given the value that the spurious
    /// interrupt vector register held before: enable the APIC with the
    /// spurious vector, program the periodic timer, mask LINT0, LINT1 and the
    /// performance counter, route errors, clear the error status, acknowledge
    /// pending interrupts, synchronise arbitration ids and accept every
    /// priority.
    pub fn cpu_init_plan(svr: u32) -> (ops: Vec<ApicOp>)
        ensures
            ops@ == cpu_init_program(svr),
    {
        let timer = LVT_Editor::new()
            .write_masked(false)
            .write_level_triggered(false)
            .write_active_low(false)
            .write_vector(IRQ_BASE + IRQ_TIMER)
            .write_bit(17, true)
            .bits();
        assert(((((((0u32 & !0x1_0000u32) & !0x8000u32) & !0x2000u32) & !0xFFu32) | (0x20u32 & 0xFFu32))
            | (1u32 << 17u32)) == 0x2_0020u32) by (bit_vector);
        let lint0 = LVT_Editor::new().write_masked(true).bits();
        assert(0u32 | 0x1_0000u32 == 0x1_0000u32) by (bit_vector);
        let mut ops: Vec<ApicOp> = Vec::new();
        ops.push(ApicOp::Write { reg: APIC_SVR, value: svr | SVR_APIC_ENABLE | SPURIOUS_INTERRUPT_VECTOR });
        ops.push(ApicOp::Write { reg: APIC_LVT_TIMER, value: timer });
        ops.push(ApicOp::Write { reg: APIC_LVT_LINT0, value: lint0 });
        ops.push(ApicOp::Write { reg: APIC_LVT_LINT1, value: LVT_MASKED });
        ops.push(ApicOp::Write { reg: APIC_LVT_LINT0, value: LVT_MASKED });
        ops.push(ApicOp::Write { reg: APIC_LVT_PCINT, value: LVT_MASKED });
        ops.push(ApicOp::Write { reg: APIC_LVT_ERROR, value: ERROR_INTERRUPT_VECTOR });
        ops.push(ApicOp::Write { reg: APIC_ESR, value: 0 });
        ops.push(ApicOp::Write { reg: APIC_ESR, value: 0 });
        ops.push(ApicOp::Write { reg: APIC_EOI, value: 0 });
        let mut icr = Self::set_icr_plan(ICR_INIT_DEASSERT_ALL);
        ops.append(&mut icr);
        ops.push(ApicOp::Write { reg: APIC_TPR, value: 0 });
        assert(ops@ =~= cpu_init_program(svr));
        ops
    }
}

/// Reading the interrupt command register back gives what `set_icr` wrote:
/// the two halves written by the program recombine into the value.
pub proof fn lemma_icr_roundtrip(value: u64)
    ensures
        ({
            let p = set_icr_program(value);
            &&& p[1] matches ApicOp::Write { reg: APIC_ICR_HIGH, value: high }
            &&& p[2] matches ApicOp::Write { reg: APIC_ICR_LOW, value: low }
            &&& icr_value(high, low) == value
        }),
{
    let high = (value as int / 0x1_0000_0000) as u32;
    let low = (value as int % 0x1_0000_0000) as u32;
    assert(icr_value(high, low) == value);
}

} // verus!
