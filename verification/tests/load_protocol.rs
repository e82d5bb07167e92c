//! End-to-end tests of the gateway and the LoadLibrary handlers.

use loadgate::emu::{gateway, Emu};
use loadgate::fault::{Fault, HandlerId};
use loadgate::gateway::{GatewayEntry, GatewayTable};
use loadgate::images::ImageFile;
use loadgate::mem::Memory;
use loadgate::regs::RegisterFile;

const LOAD_LIBRARY_A: u32 = 0x75e9395c;
const LOAD_LIBRARY_EX_A: u32 = 0x75e847fa;
const LOAD_LIBRARY_EX_A_ALIAS: u32 = 0x75e93951;
const LOAD_LIBRARY_EX_W: u32 = 0x75e84775;
const LOAD_LIBRARY_W: u32 = 0x75e93c01;

const STACK_BASE: u32 = 0x0010_0000;
const DATA_BASE: u32 = 0x0020_0000;
const RETURN_ADDR: u32 = 0x0040_1000;

fn le(v: u32) -> [u8; 4] {
    [v as u8, (v >> 8) as u8, (v >> 16) as u8, (v >> 24) as u8]
}

/// A stack whose top slot holds the return address and whose first
/// argument slot holds `arg`.
fn stack_bytes(arg: u32) -> Vec<u8> {
    let mut b = Vec::new();
    b.extend_from_slice(&le(RETURN_ADDR));
    b.extend_from_slice(&le(arg));
    b.extend_from_slice(&[0u8; 24]);
    b
}

fn wide_encode(s: &[u8]) -> Vec<u8> {
    let mut b = Vec::new();
    for &c in s {
        b.push(c);
        b.push(0);
    }
    b.push(0);
    b.push(0);
    b
}

fn default_images() -> Vec<ImageFile> {
    vec![
        ImageFile { path: b"maps/ws2_32.bin".to_vec(), bytes: vec![0x4d, 0x5a, 0x90] },
        ImageFile { path: b"maps/ws2_32_text.bin".to_vec(), bytes: vec![0x55, 0x8b] },
        ImageFile { path: b"maps/wininet.bin".to_vec(), bytes: vec![0x4d, 0x5a] },
        ImageFile { path: b"maps/wininet_text.bin".to_vec(), bytes: vec![0xcc] },
    ]
}

/// A session with ntdll pre-mapped, a stack whose argument slot holds
/// `arg`, and a data region holding `data` at `DATA_BASE`.
fn session(arg: u32, data: &[u8]) -> Emu {
    let mut emu = Emu::new(default_images());
    assert!(emu
        .mem
        .insert_mapping(b"ntdll".to_vec(), 0x7757_0000, vec![0u8; 16]));
    assert!(emu
        .mem
        .insert_mapping(b"stack".to_vec(), STACK_BASE, stack_bytes(arg)));
    assert!(emu
        .mem
        .insert_mapping(b"data".to_vec(), DATA_BASE, data.to_vec()));
    emu.regs.esp = STACK_BASE;
    emu
}

#[test]
fn narrow_load_of_resident_module_reuses_mapping() {
    let mut emu = session(DATA_BASE, b"ntdll.dll\0");
    let before = emu.mem.count();
    let r = gateway(LOAD_LIBRARY_A, &mut emu);
    assert!(r.is_ok());
    assert_eq!(emu.regs.eax, 0x7757_0000);
    assert_eq!(emu.regs.esp, STACK_BASE + 4);
    assert_eq!(emu.regs.eip, RETURN_ADDR);
    assert_eq!(emu.mem.count(), before);
}

#[test]
fn narrow_load_creates_dual_mappings() {
    let mut emu = session(DATA_BASE, b"ws2_32.dll\0");
    let before = emu.mem.count();
    let r = gateway(LOAD_LIBRARY_A, &mut emu);
    assert!(r.is_ok());
    assert_eq!(emu.regs.eax, 0x7748_0000);
    assert_eq!(emu.mem.count(), before + 2);
    let primary = emu.mem.find_named(&b"ws2_32".to_vec()).unwrap();
    assert_eq!(emu.mem.base_of(primary), 0x7748_0000);
    assert_eq!(emu.mem.bytes_of(primary), &vec![0x4d, 0x5a, 0x90]);
    let text = emu.mem.find_named(&b"ws2_32_text".to_vec()).unwrap();
    assert_eq!(emu.mem.base_of(text), 0x7748_1000);
    assert_eq!(emu.mem.bytes_of(text), &vec![0x55, 0x8b]);
    assert_eq!(emu.regs.esp, STACK_BASE + 4);
    assert_eq!(emu.regs.eip, RETURN_ADDR);
}

#[test]
fn wide_load_matches_narrow_outcome() {
    let mut emu = session(DATA_BASE, &wide_encode(b"ntdll.dll"));
    let before = emu.mem.count();
    let r = gateway(LOAD_LIBRARY_W, &mut emu);
    assert!(r.is_ok());
    assert_eq!(emu.regs.eax, 0x7757_0000);
    assert_eq!(emu.regs.esp, STACK_BASE + 4);
    assert_eq!(emu.regs.eip, RETURN_ADDR);
    assert_eq!(emu.mem.count(), before);
}

#[test]
fn unknown_module_faults_with_name_and_mutates_nothing() {
    let mut emu = session(DATA_BASE, b"evil.dll\0");
    let before = emu.mem.count();
    let regs_before = emu.regs;
    let r = gateway(LOAD_LIBRARY_A, &mut emu);
    match r {
        Err(Fault::UnsupportedModule(name)) => assert_eq!(name, b"evil.dll".to_vec()),
        _ => panic!("expected an unsupported-module fault"),
    }
    assert_eq!(emu.mem.count(), before);
    assert_eq!(emu.regs, regs_before);
}

#[test]
fn second_load_is_idempotent_across_spellings() {
    let mut emu = session(DATA_BASE, b"ws2_32.dll\0");
    assert!(gateway(LOAD_LIBRARY_A, &mut emu).is_ok());
    let first_base = emu.regs.eax;
    let count_after_first = emu.mem.count();

    // Ask again under another spelling: upper case, no extension.
    emu.regs.esp = STACK_BASE;
    assert!(emu
        .mem
        .insert_mapping(b"data2".to_vec(), 0x0030_0000, b"WS2_32\0".to_vec()));
    // Point the argument slot at the new spelling through a second
    // stack region.
    assert!(emu.mem.insert_mapping(b"stack2".to_vec(), 0x0011_0000, {
        let mut b = Vec::new();
        b.extend_from_slice(&le(RETURN_ADDR));
        b.extend_from_slice(&le(0x0030_0000));
        b
    }));
    emu.regs.esp = 0x0011_0000;
    let count_before_second = emu.mem.count();
    let r = gateway(LOAD_LIBRARY_A, &mut emu);
    assert!(r.is_ok());
    assert_eq!(emu.regs.eax, first_base);
    assert_eq!(emu.mem.count(), count_before_second);
    assert_eq!(emu.mem.count(), count_after_first + 2);
}

#[test]
fn case_and_extension_insensitive_lookup() {
    let mut emu = session(DATA_BASE, b"NTDLL.DLL\0");
    assert!(gateway(LOAD_LIBRARY_A, &mut emu).is_ok());
    assert_eq!(emu.regs.eax, 0x7757_0000);

    let mut emu2 = session(DATA_BASE, b"NtDll\0");
    assert!(gateway(LOAD_LIBRARY_A, &mut emu2).is_ok());
    assert_eq!(emu2.regs.eax, 0x7757_0000);
}

#[test]
fn wininet_loads_at_catalog_addresses() {
    let mut emu = session(DATA_BASE, b"wininet\0");
    assert!(gateway(LOAD_LIBRARY_A, &mut emu).is_ok());
    assert_eq!(emu.regs.eax, 0x7631_0000);
    let text = emu.mem.find_named(&b"wininet_text".to_vec()).unwrap();
    assert_eq!(emu.mem.base_of(text), 0x7631_1000);
}

#[test]
fn unknown_address_is_an_unsupported_call() {
    let mut emu = session(DATA_BASE, b"ntdll.dll\0");
    let before = emu.mem.count();
    let regs_before = emu.regs;
    let r = gateway(0xdead_beef, &mut emu);
    match r {
        Err(Fault::UnsupportedCall(a)) => assert_eq!(a, 0xdead_beef),
        _ => panic!("expected an unsupported-call fault"),
    }
    assert_eq!(emu.mem.count(), before);
    assert_eq!(emu.regs, regs_before);
}

#[test]
fn extended_narrow_stub_decodes_then_fails() {
    let mut emu = session(DATA_BASE, b"ntdll.dll\0");
    let regs_before = emu.regs;
    let r = gateway(LOAD_LIBRARY_EX_A, &mut emu);
    match r {
        Err(Fault::IncompleteHandler(h)) => assert_eq!(h, HandlerId::LoadLibraryExA),
        _ => panic!("expected an incomplete-handler fault"),
    }
    assert_eq!(emu.regs, regs_before);
}

#[test]
fn extended_narrow_stub_faults_on_unmapped_stack() {
    let mut emu = session(DATA_BASE, b"ntdll.dll\0");
    emu.regs.esp = 0x7fff_0000;
    let r = gateway(LOAD_LIBRARY_EX_A, &mut emu);
    assert!(matches!(r, Err(Fault::MalformedArgument)));
}

#[test]
fn extended_alias_addresses_agree() {
    let mut a = session(DATA_BASE, b"ntdll.dll\0");
    let mut b = session(DATA_BASE, b"ntdll.dll\0");
    let ra = gateway(LOAD_LIBRARY_EX_A, &mut a);
    let rb = gateway(LOAD_LIBRARY_EX_A_ALIAS, &mut b);
    match (ra, rb) {
        (Err(Fault::IncompleteHandler(ha)), Err(Fault::IncompleteHandler(hb))) => {
            assert_eq!(ha, hb);
        }
        _ => panic!("expected matching incomplete-handler faults"),
    }
    assert_eq!(a.regs, b.regs);
    assert_eq!(a.mem.count(), b.mem.count());
}

#[test]
fn custom_alias_rows_dispatch_identically() {
    // Two addresses registered for the narrow-name handler behave alike.
    let run = |addr: u32| {
        let mut mem = Memory::new();
        assert!(mem.insert_mapping(b"ntdll".to_vec(), 0x7757_0000, vec![0u8; 16]));
        assert!(mem.insert_mapping(b"stack".to_vec(), STACK_BASE, stack_bytes(DATA_BASE)));
        assert!(mem.insert_mapping(b"data".to_vec(), DATA_BASE, b"ntdll\0".to_vec()));
        let table = GatewayTable::new(vec![
            GatewayEntry { addr: 0x100, handler: HandlerId::LoadLibraryA },
            GatewayEntry { addr: 0x200, handler: HandlerId::LoadLibraryA },
        ]);
        let mut emu = Emu::with_config(
            RegisterFile { eax: 0, esp: STACK_BASE, eip: 0 },
            mem,
            loadgate::catalog::default_catalog(),
            table,
            loadgate::images::ImageStore::new(default_images()),
        );
        let r = gateway(addr, &mut emu);
        (r.is_ok(), emu.regs, emu.mem.count())
    };
    assert_eq!(run(0x100), run(0x200));
}

#[test]
fn extended_wide_stub_touches_nothing() {
    let mut emu = session(DATA_BASE, b"ntdll.dll\0");
    // Even a session with a completely unmapped stack is left alone.
    emu.regs.esp = 0x7fff_0000;
    let regs_before = emu.regs;
    let before = emu.mem.count();
    let r = gateway(LOAD_LIBRARY_EX_W, &mut emu);
    match r {
        Err(Fault::IncompleteHandler(h)) => assert_eq!(h, HandlerId::LoadLibraryExW),
        _ => panic!("expected an incomplete-handler fault"),
    }
    assert_eq!(emu.regs, regs_before);
    assert_eq!(emu.mem.count(), before);
}

#[test]
fn malformed_stack_faults_narrow_load() {
    let mut emu = session(DATA_BASE, b"ntdll.dll\0");
    emu.regs.esp = 0x7fff_0000;
    let regs_before = emu.regs;
    let r = gateway(LOAD_LIBRARY_A, &mut emu);
    assert!(matches!(r, Err(Fault::MalformedArgument)));
    assert_eq!(emu.regs, regs_before);
}

#[test]
fn unmapped_name_pointer_reads_empty_name() {
    // The name pointer aims at unmapped memory: the decoded name is
    // empty, which no catalog entry carries.
    let mut emu = session(0x7fff_0000, b"unused\0");
    let r = gateway(LOAD_LIBRARY_A, &mut emu);
    match r {
        Err(Fault::UnsupportedModule(name)) => assert!(name.is_empty()),
        _ => panic!("expected an unsupported-module fault"),
    }
}

#[test]
fn missing_image_loads_empty_content() {
    // No snapshot images at all: the mappings are still created at the
    // catalog addresses, with empty content.
    let mut emu = Emu::new(Vec::new());
    assert!(emu
        .mem
        .insert_mapping(b"stack".to_vec(), STACK_BASE, stack_bytes(DATA_BASE)));
    assert!(emu
        .mem
        .insert_mapping(b"data".to_vec(), DATA_BASE, b"ws2_32\0".to_vec()));
    emu.regs.esp = STACK_BASE;
    assert!(gateway(LOAD_LIBRARY_A, &mut emu).is_ok());
    let primary = emu.mem.find_named(&b"ws2_32".to_vec()).unwrap();
    assert!(emu.mem.bytes_of(primary).is_empty());
    assert_eq!(emu.mem.base_of(primary), 0x7748_0000);
}
