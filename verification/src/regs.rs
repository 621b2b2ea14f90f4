use vstd::prelude::*;

verus! {

/// The general-purpose registers saved when an interrupt enters the kernel.
#[derive(Clone, Copy)]
pub struct RegistersValue {
    pub r15: usize,
    pub r14: usize,
    pub r13: usize,
    pub r12: usize,
    pub r11: usize,
    pub r10: usize,
    pub r9: usize,
    pub r8: usize,
    pub rdi: usize,
    pub rsi: usize,
    pub rdx: usize,
    pub rcx: usize,
    pub rbx: usize,
    pub rax: usize,
    pub rbp: usize,
}

/// Every register zero.
pub open spec fn zero_registers() -> RegistersValue {
    RegistersValue {
        r15: 0,
        r14: 0,
        r13: 0,
        r12: 0,
        r11: 0,
        r10: 0,
        r9: 0,
        r8: 0,
        rdi: 0,
        rsi: 0,
        rdx: 0,
        rcx: 0,
        rbx: 0,
        rax: 0,
        rbp: 0,
    }
}

impl Default for RegistersValue {
    fn default() -> (r: Self)
        ensures
            r == zero_registers(),
    {
        RegistersValue {
            r15: 0,
            r14: 0,
            r13: 0,
            r12: 0,
            r11: 0,
            r10: 0,
            r9: 0,
            r8: 0,
            rdi: 0,
            rsi: 0,
            rdx: 0,
            rcx: 0,
            rbx: 0,
            rax: 0,
            rbp: 0,
        }
    }
}

/// What a process needs to resume: its registers and the interrupt stack
/// frame that `iretq` returns through.
#[derive(Clone, Copy)]
pub struct ProcessContext {
    pub regs: RegistersValue,
    pub instruction_pointer: u64,
    pub code_segment: u64,
    pub cpu_flags: u64,
    pub stack_pointer: u64,
    pub stack_segment: u64,
}

/// The context of a process that has not run yet: everything zero.
pub open spec fn empty_context() -> ProcessContext {
    ProcessContext {
        regs: zero_registers(),
        instruction_pointer: 0,
        code_segment: 0,
        cpu_flags: 0,
        stack_pointer: 0,
        stack_segment: 0,
    }
}

/// `ctx` set to start running at `entry`.
pub open spec fn at_entry(ctx: ProcessContext, entry: u64) -> ProcessContext {
    ProcessContext { instruction_pointer: entry, ..ctx }
}

impl Default for ProcessContext {
    fn default() -> (r: Self)
        ensures
            r == empty_context(),
    {
        ProcessContext {
            regs: RegistersValue::default(),
            instruction_pointer: 0,
            code_segment: 0,
            cpu_flags: 0,
            stack_pointer: 0,
            stack_segment: 0,
        }
    }
}

impl ProcessContext {
    /// Sets the register that carries a system call's return value.
    pub fn set_rax(&mut self, value: usize)
        ensures
            final(self).regs == (RegistersValue { rax: value, ..old(self).regs }),
            final(self).instruction_pointer == old(self).instruction_pointer,
            final(self).code_segment == old(self).code_segment,
            final(self).cpu_flags == old(self).cpu_flags,
            final(self).stack_pointer == old(self).stack_pointer,
            final(self).stack_segment == old(self).stack_segment,
    {
        self.regs.rax = value;
    }
}

/// The lowercase hexadecimal digit of `d` (0 to 15).
pub open spec fn hex_digit(d: nat) -> char {
    if d < 10 {
        (48 + d) as char
    } else {
        (87 + d) as char
    }
}

/// The last `n` hexadecimal digits of `v`, most significant first, padded
/// with zeros.
pub open spec fn hex_digits(v: nat, n: nat) -> Seq<char>
    decreases n,
{
    if n == 0 {
        Seq::empty()
    } else {
        hex_digits(v / 16, (n - 1) as nat).push(hex_digit(v % 16))
    }
}

/// Appends the last `n` hexadecimal digits of `v`.
fn push_hex(s: &mut String, v: u64, n: u32)
    requires
        n <= 16,
    ensures
        final(s)@ == old(s)@ + hex_digits(v as nat, n as nat),
    decreases n,
{
    if n == 0 {
        assert(old(s)@ + hex_digits(v as nat, 0) =~= old(s)@);
        return;
    }
    push_hex(s, v / 16, n - 1);
    let d = v % 16;
    let c = if d < 10 { ((48 + d) as u8) as char } else { ((87 + d) as u8) as char };
    s.push(c);
    assert(final(s)@ =~= old(s)@ + hex_digits(v as nat, n as nat));
}

/// One field of the register dump: `label`, the value as sixteen hex
/// digits, then `sep`.
pub open spec fn field_text(label: &str, v: usize, sep: &str) -> Seq<char> {
    label@ + hex_digits(v as nat, 16) + sep@
}

fn push_field(s: &mut String, label: &str, v: usize, sep: &str)
    ensures
        final(s)@ == old(s)@ + field_text(label, v, sep),
{
    s.append(label);
    push_hex(s, v as u64, 16);
    s.append(sep);
    assert(final(s)@ =~= old(s)@ + field_text(label, v, sep));
}

/// The register dump: a title line, then three registers per line.
pub open spec fn registers_text(r: RegistersValue) -> Seq<char> {
    "Registers\n"@
        + field_text("r15: 0x", r.r15, ", ") + field_text("r14: 0x", r.r14, ", ") + field_text("r13: 0x", r.r13, ",\n")
        + field_text("r12: 0x", r.r12, ", ") + field_text("r11: 0x", r.r11, ", ") + field_text("r10: 0x", r.r10, ",\n")
        + field_text("r9 : 0x", r.r9, ", ") + field_text("r8 : 0x", r.r8, ", ") + field_text("rdi: 0x", r.rdi, ",\n")
        + field_text("rsi: 0x", r.rsi, ", ") + field_text("rdx: 0x", r.rdx, ", ") + field_text("rcx: 0x", r.rcx, ",\n")
        + field_text("rbx: 0x", r.rbx, ", ") + field_text("rax: 0x", r.rax, ", ") + field_text("rbp: 0x", r.rbp, "")
}

impl RegistersValue {
    /// The register dump printed when the registers are debugged.
    pub fn describe(&self) -> (s: String)
        ensures
            s@ == registers_text(*self),
    {
        let mut s = String::from_str("Registers\n");
        push_field(&mut s, "r15: 0x", self.r15, ", ");
        push_field(&mut s, "r14: 0x", self.r14, ", ");
        push_field(&mut s, "r13: 0x", self.r13, ",\n");
        push_field(&mut s, "r12: 0x", self.r12, ", ");
        push_field(&mut s, "r11: 0x", self.r11, ", ");
        push_field(&mut s, "r10: 0x", self.r10, ",\n");
        push_field(&mut s, "r9 : 0x", self.r9, ", ");
        push_field(&mut s, "r8 : 0x", self.r8, ", ");
        push_field(&mut s, "rdi: 0x", self.rdi, ",\n");
        push_field(&mut s, "rsi: 0x", self.rsi, ", ");
        push_field(&mut s, "rdx: 0x", self.rdx, ", ");
        push_field(&mut s, "rcx: 0x", self.rcx, ",\n");
        push_field(&mut s, "rbx: 0x", self.rbx, ", ");
        push_field(&mut s, "rax: 0x", self.rax, ", ");
        push_field(&mut s, "rbp: 0x", self.rbp, "");
        assert(s@ =~= registers_text(*self));
        s
    }
}

} // verus!
