use vstd::prelude::*;

verus! {

/// The size of a page frame.
pub const FRAME_SIZE: u64 = 0x1000;

/// The lowest physical address limit that is always mapped, so that the
/// memory-mapped I/O APIC is reachable.
pub const MIN_PHYS_LIMIT: u64 = 0x1_0000_0000;

/// The end of a memory region that starts at `start` and spans `pages`
/// frames.
pub open spec fn region_end(start: u64, pages: u64) -> int {
    start + pages * 0x1000
}

/// The end of the highest memory region, and at least `MIN_PHYS_LIMIT`:
/// the amount of physical memory that the boot loader maps. `regions` holds
/// the start address and the number of frames of each region of the memory
/// map, which is never empty.
pub fn max_phys_addr(regions: &Vec<(u64, u64)>) -> (m: u64)
    requires
        regions@.len() > 0,
        forall|i: int| 0 <= i < regions@.len() ==> region_end(#[trigger] regions@[i].0, regions@[i].1) <= u64::MAX,
    ensures
        m >= MIN_PHYS_LIMIT,
        forall|i: int| 0 <= i < regions@.len() ==> m >= region_end(#[trigger] regions@[i].0, regions@[i].1),
        m == MIN_PHYS_LIMIT || exists|i: int| 0 <= i < regions@.len() && m == region_end(#[trigger] regions@[i].0, regions@[i].1),
{
    let mut best: u64 = 0;
    let mut i: usize = 0;
    while i < regions.len()
        invariant
            0 <= i <= regions@.len(),
            forall|k: int| 0 <= k < regions@.len() ==> region_end(#[trigger] regions@[k].0, regions@[k].1) <= u64::MAX,
            forall|k: int| 0 <= k < i ==> best >= region_end(#[trigger] regions@[k].0, regions@[k].1),
            i > 0 ==> exists|k: int| 0 <= k < i && best == region_end(#[trigger] regions@[k].0, regions@[k].1),
        decreases regions@.len() - i,
    {
        let (start, pages) = regions[i];
        assert(region_end(regions@[i as int].0, regions@[i as int].1) <= u64::MAX);
        let end = start + pages * FRAME_SIZE;
        if i == 0 || end > best {
            best = end;
        }
        i = i + 1;
    }
    if best > MIN_PHYS_LIMIT {
        best
    } else {
        MIN_PHYS_LIMIT
    }
}

/// The initial stack pointer of the kernel: eight bytes below the top of a
/// stack of `pages` frames starting at `address`.
pub fn kernel_stack_top(address: u64, pages: u64) -> (top: u64)
    requires
        8 <= address + pages * 0x1000 <= u64::MAX,
    ensures
        top == address + pages * 0x1000 - 8,
{
    address + pages * FRAME_SIZE - 8
}

/// The size of the identification part of an ELF header, which every
/// class shares.
pub const ELF_IDENT_SIZE: usize = 16;
/// The size of a whole ELF header of the 32-bit class.
pub const ELF32_HEADER_SIZE: usize = 52;
/// The size of a whole ELF header of the 64-bit class.
pub const ELF64_HEADER_SIZE: usize = 64;
/// Where the entry field starts in an ELF header, in both classes.
pub const ELF_ENTRY_OFFSET: usize = 24;

/// The four bytes at `at`, least significant first.
pub open spec fn le_u32_at(b: Seq<u8>, at: int) -> int {
    b[at] + b[at + 1] * 0x100 + b[at + 2] * 0x1_0000 + b[at + 3] * 0x100_0000
}

/// The eight bytes at `at`, least significant first.
pub open spec fn le_u64_at(b: Seq<u8>, at: int) -> int {
    le_u32_at(b, at) + le_u32_at(b, at + 4) * 0x1_0000_0000
}

/// `image` starts with the ELF magic number.
pub open spec fn has_elf_magic(image: Seq<u8>) -> bool {
    image[0] == 0x7f && image[1] == 0x45 && image[2] == 0x4c && image[3] == 0x46
}

/// The entry point that the ELF header of `image` records, or `None` when
/// the header is not one: it is too short for the identification part,
/// lacks the magic number, has a class other than 32-bit (1) or 64-bit (2),
/// or is too short for the header of its class. The entry field is read
/// least significant byte first, the byte order of the machines the kernel
/// runs on, as the header parser of xmas-elf reads it there.
pub open spec fn elf_entry(image: Seq<u8>) -> Option<u64> {
    if image.len() < ELF_IDENT_SIZE || !has_elf_magic(image) {
        None
    } else if image[4] == 1 {
        if image.len() < ELF32_HEADER_SIZE {
            None
        } else {
            Some(le_u32_at(image, 24) as u64)
        }
    } else if image[4] == 2 {
        if image.len() < ELF64_HEADER_SIZE {
            None
        } else {
            Some(le_u64_at(image, 24) as u64)
        }
    } else {
        None
    }
}

fn read_le_u32(b: &[u8], at: usize) -> (v: u64)
    requires
        at + 4 <= b@.len(),
    ensures
        v == le_u32_at(b@, at as int),
        v <= 0xFFFF_FFFF,
{
    (b[at] as u64) + (b[at + 1] as u64) * 0x100 + (b[at + 2] as u64) * 0x1_0000 + (b[at + 3] as u64) * 0x100_0000
}

fn read_le_u64(b: &[u8], at: usize) -> (v: u64)
    requires
        at + 8 <= b@.len(),
    ensures
        v == le_u64_at(b@, at as int),
{
    let n = b.len();
    assert(at + 4 < n);
    let lo = read_le_u32(b, at);
    let hi = read_le_u32(b, at + 4);
    lo + hi * 0x1_0000_0000
}

/// The entry read from a 64-bit header is the eight bytes at offset 24,
/// least significant first, and one from a 32-bit header the four bytes
/// there: whatever the header holds beyond its magic number and class.
pub proof fn lemma_elf_entry_bytes(image: Seq<u8>)
    requires
        image.len() >= 16,
        image[0] == 0x7f && image[1] == 0x45 && image[2] == 0x4c && image[3] == 0x46,
    ensures
        image[4] == 2 && image.len() >= 64 ==> elf_entry(image) == Some((image[24] + 0x100 * image[25] + 0x1_0000
            * image[26] + 0x100_0000 * image[27] + 0x1_0000_0000 * image[28] + 0x100_0000_0000 * image[29]
            + 0x1_0000_0000_0000 * image[30] + 0x100_0000_0000_0000 * image[31]) as u64),
        image[4] == 1 && image.len() >= 52 ==> elf_entry(image) == Some((image[24] + 0x100 * image[25] + 0x1_0000
            * image[26] + 0x100_0000 * image[27]) as u64),
{
}

/// What follows a whole ELF header (program headers, code, data) does not
/// change the entry point read from it.
pub proof fn lemma_elf_entry_ignores_trailing_bytes(image: Seq<u8>, extra: Seq<u8>)
    requires
        elf_entry(image) is Some,
    ensures
        elf_entry(image + extra) == elf_entry(image),
{
    let whole = image + extra;
    assert forall|i: int| 0 <= i < image.len() implies whole[i] == image[i] by {}
    assert(whole[0] == image[0] && whole[1] == image[1] && whole[2] == image[2] && whole[3] == image[3]);
    assert(whole[4] == image[4]);
    if image[4] == 2 {
        assert(whole[24] == image[24] && whole[25] == image[25] && whole[26] == image[26] && whole[27] == image[27]);
        assert(whole[28] == image[28] && whole[29] == image[29] && whole[30] == image[30] && whole[31] == image[31]);
    } else {
        assert(whole[24] == image[24] && whole[25] == image[25] && whole[26] == image[26] && whole[27] == image[27]);
    }
}

/// The address where an ELF image (the kernel, or a program) starts
/// running, read from its header; `None` when the image has no ELF header.
pub fn kernel_entry(image: &[u8]) -> (r: Option<u64>)
    ensures
        r == elf_entry(image@),
{
    if image.len() < ELF_IDENT_SIZE || !(image[0] == 0x7f && image[1] == 0x45 && image[2] == 0x4c && image[3] == 0x46) {
        None
    } else if image[4] == 1 {
        if image.len() < ELF32_HEADER_SIZE {
            None
        } else {
            Some(read_le_u32(image, ELF_ENTRY_OFFSET))
        }
    } else if image[4] == 2 {
        if image.len() < ELF64_HEADER_SIZE {
            None
        } else {
            Some(read_le_u64(image, ELF_ENTRY_OFFSET))
        }
    } else {
        None
    }
}

} // verus!
