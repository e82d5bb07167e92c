//! Tests of name normalization, byte-level memory reads, and the
//! narrow/wide string decoders.

use loadgate::callconv::{read_stack_argument, return_to_caller};
use loadgate::emu::{gateway, Emu};
use loadgate::fault::Fault;
use loadgate::images::ImageFile;
use loadgate::mem::Memory;
use loadgate::name::{bytes_eq, normalize_name};
use loadgate::regs::RegisterFile;

fn mem_with(base: u32, bytes: Vec<u8>) -> Memory {
    let mut m = Memory::new();
    assert!(m.insert_mapping(b"region".to_vec(), base, bytes));
    m
}

#[test]
fn normalization_lowers_case_and_strips_extension() {
    assert_eq!(normalize_name(&b"NTDLL.DLL".to_vec()), b"ntdll".to_vec());
    assert_eq!(normalize_name(&b"NtDll.dLl".to_vec()), b"ntdll".to_vec());
    assert_eq!(normalize_name(&b"ws2_32".to_vec()), b"ws2_32".to_vec());
    assert_eq!(normalize_name(&b"WININET.dll".to_vec()), b"wininet".to_vec());
    // Only a trailing ".dll" is stripped, and only once.
    assert_eq!(normalize_name(&b"a.dll.dll".to_vec()), b"a.dll".to_vec());
    assert_eq!(normalize_name(&b".dll".to_vec()), b"".to_vec());
    assert_eq!(normalize_name(&b"dll".to_vec()), b"dll".to_vec());
    assert_eq!(normalize_name(&b"".to_vec()), b"".to_vec());
}

#[test]
fn bytes_eq_compares_content() {
    assert!(bytes_eq(&b"abc".to_vec(), &b"abc".to_vec()));
    assert!(!bytes_eq(&b"abc".to_vec(), &b"abd".to_vec()));
    assert!(!bytes_eq(&b"abc".to_vec(), &b"ab".to_vec()));
    assert!(bytes_eq(&b"".to_vec(), &b"".to_vec()));
}

#[test]
fn word_reads_are_little_endian() {
    let m = mem_with(0x1000, vec![0x78, 0x56, 0x34, 0x12, 0xff]);
    assert_eq!(m.read_u32(0x1000), Some(0x1234_5678));
    assert_eq!(m.read_u32(0x1001), Some(0xff12_3456));
    // The word would run past the mapping.
    assert_eq!(m.read_u32(0x1002), None);
    // Unmapped address.
    assert_eq!(m.read_u32(0x2000), None);
}

#[test]
fn first_mapping_wins_for_overlapping_regions() {
    let mut m = Memory::new();
    assert!(m.insert_mapping(b"first".to_vec(), 0x1000, vec![1, 1, 1, 1]));
    assert!(m.insert_mapping(b"second".to_vec(), 0x1000, vec![2, 2, 2, 2]));
    assert_eq!(m.read_u32(0x1000), Some(0x0101_0101));
}

#[test]
fn duplicate_mapping_names_are_rejected() {
    let mut m = Memory::new();
    assert!(m.insert_mapping(b"region".to_vec(), 0x1000, vec![0]));
    assert!(!m.insert_mapping(b"region".to_vec(), 0x2000, vec![1]));
    assert_eq!(m.count(), 1);
}

#[test]
fn narrow_reads_stop_at_nul_or_region_end() {
    let m = mem_with(0x1000, b"ntdll.dll\0junk".to_vec());
    assert_eq!(m.read_ansi(0x1000), b"ntdll.dll".to_vec());
    // Starting past the terminator reads the trailing junk to the end.
    assert_eq!(m.read_ansi(0x100a), b"junk".to_vec());
    // An unmapped start decodes to the empty string.
    assert_eq!(m.read_ansi(0x5000), Vec::<u8>::new());
}

#[test]
fn wide_reads_decode_units_and_substitute() {
    // "ab" as wide units, then a terminator, then a unit above the
    // narrow range (0x4e00), then a lone trailing byte.
    let bytes = vec![0x61, 0x00, 0x62, 0x00, 0x00, 0x00, 0x00, 0x4e, 0x99];
    let m = mem_with(0x1000, bytes);
    assert_eq!(m.read_wide(0x1000), b"ab".to_vec());
    // The out-of-range unit decodes to the substitution byte '?'.
    assert_eq!(m.read_wide(0x1006), b"?".to_vec());
    // A single trailing byte cannot form a unit.
    assert_eq!(m.read_wide(0x1008), Vec::<u8>::new());
}

#[test]
fn wide_name_with_out_of_range_unit_is_unsupported() {
    let mut emu = Emu::new(Vec::<ImageFile>::new());
    let mut stack = Vec::new();
    stack.extend_from_slice(&[0x00, 0x10, 0x40, 0x00]); // return address
    stack.extend_from_slice(&[0x00, 0x00, 0x20, 0x00]); // name pointer
    assert!(emu.mem.insert_mapping(b"stack".to_vec(), 0x0010_0000, stack));
    // One code unit 0x4e00, then the terminator.
    assert!(emu
        .mem
        .insert_mapping(b"data".to_vec(), 0x0020_0000, vec![0x00, 0x4e, 0x00, 0x00]));
    emu.regs.esp = 0x0010_0000;
    let r = gateway(0x75e93c01, &mut emu);
    match r {
        Err(Fault::UnsupportedModule(name)) => assert_eq!(name, b"?".to_vec()),
        _ => panic!("expected an unsupported-module fault"),
    }
}

#[test]
fn stack_argument_slots_index_upward() {
    let mut bytes = Vec::new();
    for v in [0x1111_1111u32, 0x2222_2222, 0x3333_3333, 0x4444_4444] {
        bytes.extend_from_slice(&v.to_le_bytes());
    }
    let m = mem_with(0x1000, bytes);
    let regs = RegisterFile { eax: 0, esp: 0x1000, eip: 0 };
    // Slot 0 is the first parameter, just above the return address.
    assert_eq!(read_stack_argument(&regs, &m, 0).ok(), Some(0x2222_2222));
    assert_eq!(read_stack_argument(&regs, &m, 1).ok(), Some(0x3333_3333));
    assert_eq!(read_stack_argument(&regs, &m, 2).ok(), Some(0x4444_4444));
    assert!(read_stack_argument(&regs, &m, 3).is_err());
}

#[test]
fn return_sequence_can_reclaim_an_extra_slot() {
    let mut bytes = 0x0040_2000u32.to_le_bytes().to_vec();
    bytes.extend_from_slice(&[0u8; 8]);
    let m = mem_with(0x1000, bytes);

    let mut regs = RegisterFile { eax: 7, esp: 0x1000, eip: 0 };
    assert!(return_to_caller(&mut regs, &m, false).is_ok());
    assert_eq!((regs.eip, regs.esp, regs.eax), (0x0040_2000, 0x1004, 7));

    let mut regs = RegisterFile { eax: 7, esp: 0x1000, eip: 0 };
    assert!(return_to_caller(&mut regs, &m, true).is_ok());
    assert_eq!((regs.eip, regs.esp, regs.eax), (0x0040_2000, 0x1008, 7));
}

#[test]
fn stack_pointer_wraps_at_the_address_space_end() {
    let m = mem_with(0xffff_fff8, 0x0040_3000u32.to_le_bytes().iter().chain([0u8; 4].iter()).copied().collect());
    let mut regs = RegisterFile { eax: 0, esp: 0xffff_fff8, eip: 0 };
    assert!(return_to_caller(&mut regs, &m, true).is_ok());
    assert_eq!(regs.eip, 0x0040_3000);
    assert_eq!(regs.esp, 0);
}
