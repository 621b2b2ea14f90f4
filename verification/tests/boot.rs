use ysos::boot::{kernel_entry, kernel_stack_top, max_phys_addr};

#[test]
fn physical_limit_is_at_least_four_gib() {
    assert_eq!(max_phys_addr(&vec![(0, 16), (0x10_0000, 256)]), 0x1_0000_0000);
}

#[test]
fn physical_limit_follows_the_highest_region() {
    let regions = vec![(0x1_0000_0000, 0x10), (0, 1), (0x2_0000_0000, 2), (0x1000, 3)];
    assert_eq!(max_phys_addr(&regions), 0x2_0000_2000);
}

#[test]
fn stack_top_is_eight_below_the_end() {
    assert_eq!(kernel_stack_top(0xFFFF_FF01_0000_0000, 512), 0xFFFF_FF01_001F_FFF8);
}

fn elf64_header(entry: u64) -> Vec<u8> {
    let mut image = vec![0u8; 64];
    image[..4].copy_from_slice(&[0x7f, b'E', b'L', b'F']);
    image[4] = 2;
    image[5] = 1;
    image[6] = 1;
    image[24..32].copy_from_slice(&entry.to_le_bytes());
    image
}

#[test]
fn kernel_entry_reads_the_elf_header() {
    assert_eq!(kernel_entry(&elf64_header(0xFFFF_FF00_0000_1000)), Some(0xFFFF_FF00_0000_1000));
}

#[test]
fn kernel_entry_refuses_what_is_not_elf() {
    assert_eq!(kernel_entry(b"\x7fELF"), None);
    let mut image = elf64_header(0x1000);
    image[1] = b'X';
    assert_eq!(kernel_entry(&image), None);
}

#[test]
fn kernel_entry_of_a_32_bit_image() {
    let mut image = vec![0u8; 52];
    image[..4].copy_from_slice(&[0x7f, b'E', b'L', b'F']);
    image[4] = 1;
    image[24..28].copy_from_slice(&0x0804_8000u32.to_le_bytes());
    assert_eq!(kernel_entry(&image), Some(0x0804_8000));
    image.truncate(51);
    assert_eq!(kernel_entry(&image), None);
}

#[test]
fn kernel_entry_needs_a_known_class_and_a_whole_header() {
    let mut image = elf64_header(0x1000);
    image[4] = 3;
    assert_eq!(kernel_entry(&image), None);
    let mut short = elf64_header(0x1000);
    short.truncate(63);
    assert_eq!(kernel_entry(&short), None);
}
