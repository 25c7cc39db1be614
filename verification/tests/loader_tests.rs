use proc_core::header::Header;
use proc_core::loader::fixup;
use proc_core::loader::load;
use proc_core::loader::LoadError;

fn store_le32(b: &mut Vec<u8>, off: usize, v: u32) {
    let bytes = v.to_le_bytes();
    for i in 0..4 {
        b[off + i] = bytes[i];
    }
}

/// A flash image: a 76-byte header (checksum computed) followed by payload.
fn flash_image(fields: [u32; 18], payload: &[u8]) -> Vec<u8> {
    let mut v = vec![0u8; 76];
    let mut ck = 0u32;
    for (i, f) in fields.iter().enumerate() {
        store_le32(&mut v, i * 4, *f);
        ck ^= *f;
    }
    store_le32(&mut v, 72, ck);
    v.extend_from_slice(payload);
    v
}

/// Fields: version, total_size, entry_offset, rel_data_offset,
/// rel_data_size, text_offset, text_size, got_offset, got_size,
/// data_offset, data_size, bss_mem_offset, bss_size, min_stack_len,
/// min_app_heap_len, min_kernel_heap_len, pkg_name_offset, pkg_name_size.
fn segment_fields(got_size: u32, data_size: u32) -> [u32; 18] {
    [
        1,
        76 + got_size + data_size,
        41,
        0,
        0,
        0,
        0,
        76,
        got_size,
        76 + got_size,
        data_size,
        got_size + data_size,
        0,
        256,
        256,
        128,
        0,
        0,
    ]
}

const RAM_BASE: u32 = 0x20000000;
const TEXT_BASE: u32 = 0x00010000;

#[test]
fn fixup_memory_relative_entry() {
    assert_eq!(fixup(0x00000010, RAM_BASE, TEXT_BASE), 0x20000010);
}

#[test]
fn fixup_code_relative_entry() {
    assert_eq!(fixup(0x80000100, RAM_BASE, TEXT_BASE), 0x00010100);
}

#[test]
fn load_exact_fit_succeeds_one_byte_less_fails() {
    let payload: Vec<u8> = (0..16u8).collect();
    let flash = flash_image(segment_fields(8, 8), &payload);
    let h = Header::parse(&flash).unwrap();

    let exact = load(&h, &flash, TEXT_BASE, RAM_BASE, 16);
    assert!(exact.is_ok());

    let short = load(&h, &flash, TEXT_BASE, RAM_BASE, 15);
    assert!(matches!(short, Err(LoadError::InsufficientMemory)));
}

#[test]
fn load_copies_got_and_data_contiguously() {
    let payload: Vec<u8> = vec![9, 9, 9, 9, 9, 9, 9, 9, 1, 2, 3, 4, 5, 6, 7, 8];
    let mut fields = segment_fields(8, 8);
    // The copied GOT holds no address-like words, so no fixup applies.
    fields[11] = 0;
    fields[12] = 0;
    let flash = flash_image(fields, &payload);
    let h = Header::parse(&flash).unwrap();
    let (ram, lr) = load(&h, &flash, TEXT_BASE, RAM_BASE, 64).unwrap();
    assert_eq!(ram.len(), 64);
    // GOT words get the RAM base added: 0x09090909 + 0x20000000, twice.
    assert_eq!(&ram[0..4], 0x29090909u32.to_le_bytes());
    assert_eq!(&ram[4..8], 0x29090909u32.to_le_bytes());
    // The data segment follows the GOT unchanged.
    assert_eq!(&ram[8..16], &payload[8..16]);
    // Everything above is zero.
    assert!(ram[16..].iter().all(|b| *b == 0));
    assert_eq!(lr.init_fn, TEXT_BASE + 41);
    assert_eq!(lr.app_flash_code_start, TEXT_BASE);
}

#[test]
fn load_zero_fills_bss_and_rejects_overrun() {
    let payload: Vec<u8> = vec![0xAA; 8];
    let mut fields = segment_fields(0, 8);
    fields[11] = 8;
    fields[12] = 8;
    let flash = flash_image(fields, &payload);
    let h = Header::parse(&flash).unwrap();

    let (ram, lr) = load(&h, &flash, TEXT_BASE, RAM_BASE, 16).unwrap();
    assert_eq!(&ram[0..8], &payload[..]);
    assert!(ram[8..16].iter().all(|b| *b == 0));
    // app_mem_start sits after the zero fill, 8-byte aligned.
    assert_eq!(lr.app_mem_start, RAM_BASE + 16);
    assert_eq!(lr.data_len, 16);

    let overrun = load(&h, &flash, TEXT_BASE, RAM_BASE, 15);
    assert!(matches!(overrun, Err(LoadError::Overflow)));
}

#[test]
fn load_applies_relocation_fixups() {
    // One relocation pair at offset 76: the even entry names image word 8.
    let mut payload = vec![0u8; 8];
    payload[0..4].copy_from_slice(&8u32.to_le_bytes());
    payload[4..8].copy_from_slice(&0u32.to_le_bytes());
    // The image: 8 bytes of GOT (skipped by giving no GOT), 12 data bytes.
    let data: Vec<u8> = {
        let mut d = vec![0u8; 12];
        d[8..12].copy_from_slice(&0x80000100u32.to_le_bytes());
        d
    };
    let mut all = payload.clone();
    all.extend_from_slice(&data);
    let fields: [u32; 18] = [
        1,
        76 + 20,
        41,
        76,
        8,
        0,
        0,
        0,
        0,
        84,
        12,
        12,
        0,
        256,
        256,
        128,
        0,
        0,
    ];
    let flash = flash_image(fields, &all);
    let h = Header::parse(&flash).unwrap();
    let (ram, _) = load(&h, &flash, TEXT_BASE, RAM_BASE, 32).unwrap();
    // Word 8 of the image held a code-relative entry: the high bit is
    // cleared and the text base added.
    assert_eq!(&ram[8..12], 0x00010100u32.to_le_bytes());
}

#[test]
fn load_rejects_relocation_outside_image() {
    let mut payload = vec![0u8; 8];
    payload[0..4].copy_from_slice(&100u32.to_le_bytes());
    let fields: [u32; 18] = [
        1,
        76 + 8,
        41,
        76,
        8,
        0,
        0,
        0,
        0,
        0,
        8,
        8,
        0,
        256,
        256,
        128,
        0,
        0,
    ];
    let flash = flash_image(fields, &payload);
    let h = Header::parse(&flash).unwrap();
    let r = load(&h, &flash, TEXT_BASE, RAM_BASE, 32);
    assert!(matches!(r, Err(LoadError::RelocationOutOfBounds)));
}

#[test]
fn load_returns_package_name_from_flash() {
    let payload = b"hello".to_vec();
    let mut fields = segment_fields(0, 0);
    fields[1] = 81;
    fields[16] = 76;
    fields[17] = 5;
    let flash = flash_image(fields, &payload);
    let h = Header::parse(&flash).unwrap();
    let (_, lr) = load(&h, &flash, TEXT_BASE, RAM_BASE, 16).unwrap();
    assert_eq!(lr.package_name, b"hello".to_vec());
}
