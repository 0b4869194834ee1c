use cauldron::mem::{find_cells, find_pattern, parse_pattern, PatternSearchError};
use cauldron::offsets::{offset_from_instruction, Offset, Offsets};
use cauldron::pe::{get_code_section, get_data_section, get_pe_section_range, get_rdata_section, get_section, module_range};

fn cells(s: &str) -> Vec<(u8, bool)> {
    parse_pattern(s).unwrap()
}

#[test]
fn patterns_parse_to_cells() {
    assert_eq!(cells("48 8B 0D ? ? ? ?"), vec![
        (0x48, false), (0x8B, false), (0x0D, false), (0, true), (0, true), (0, true), (0, true)
    ]);
    assert_eq!(cells("ff FF"), vec![(0xFF, false), (0xFF, false)]);
    assert_eq!(cells("4889"), vec![(0x48, false), (0x89, false)]);
    assert_eq!(cells("+F"), vec![(0x0F, false)]);
    assert_eq!(cells(""), vec![]);
    assert_eq!(cells("??"), vec![(0, true)]);
    assert_eq!(cells("48 ?? 8B"), vec![(0x48, false), (0, true), (0x8B, false)]);
    assert_eq!(cells("48 ? ?? 8B"), vec![(0x48, false), (0, true), (0, true), (0x8B, false)]);
    assert_eq!(cells("???"), vec![(0, true), (0, true)]);
}

#[test]
fn search_finds_first_occurrence() {
    let data = [0x00, 0x48, 0x8B, 0x01, 0x48, 0x8B, 0x02];
    assert_eq!(find_pattern(0x1000, &data, "48 8B").unwrap(), 0x1001);
    assert_eq!(find_pattern(0x1000, &data, "48 8B 02").unwrap(), 0x1004);
    assert_eq!(find_pattern(0, &data, "? 48").unwrap(), 0);
    assert!(matches!(find_pattern(0, &data, "48 8B 03"), Err(PatternSearchError::NotFound)));
    assert!(matches!(find_pattern(0, &data[..1], "00 00"), Err(PatternSearchError::NotFound)));
    assert_eq!(find_cells(&data, &vec![(0, true)]), Some(0));
    assert_eq!(find_cells(&data, &vec![(0x02, false)]), Some(6));
}

#[test]
fn offsets_keep_the_first_address() {
    let mut o = Offsets::new();
    assert!(o.is_empty());
    assert_eq!(o.resolve_raw("x"), None);
    o.map_address("x", 10);
    o.map_address("x", 20);
    o.map_address("y", 30);
    assert!(!o.is_empty());
    assert_eq!(o.resolve_raw("x"), Some(10));
    assert_eq!(o.resolve_raw("y"), Some(30));
    assert_eq!(o.resolve("x", 0x1000), Some(0x100A));
    assert_eq!(o.resolve("z", 0x1000), None);
    o.setup();
    assert_eq!(o.resolve_raw("x"), Some(10));
}

#[test]
fn offsets_from_patterns_and_offsets() {
    let image = [0x90, 0x90, 0xE8, 0x01, 0x02, 0x03, 0x04, 0x00];
    let mut o = Offsets::new();
    o.map_pattern("call", 0x4000, &image, "E8 ? ? ? ?");
    assert_eq!(o.resolve_raw("call"), Some(0x4002));
    o.map_offset("rel", Offset::new(0x4010), 0x4000);
    assert_eq!(o.resolve_raw("rel"), Some(0x10));
}

#[test]
fn offset_arithmetic() {
    let o = Offset::new(0x1000);
    assert_eq!(o.as_adjusted(0x10).address(), 0x1010);
    assert_eq!(o.as_nadjusted(0x10).address(), 0x0FF0);
    assert_eq!(o.displacement_address(7), 0x1003);
    assert_eq!(o.as_relative(7, 0x20).address(), 0x1027);
    assert_eq!(o.as_offset(0x800), 0x800);
    let image = [0x00, 0x48, 0x8D, 0x0D, 0x10, 0x00, 0x00, 0x00];
    assert_eq!(Offset::from_signature(0x500, &image, "48 8D 0D").unwrap().address(), 0x501);
    assert!(matches!(Offset::from_signature(0x500, &image, "FF"), Err(PatternSearchError::NotFound)));
}

#[test]
fn instruction_targets() {
    // lea rcx, [rip + 0x10] at offset 1; displacement at offset 4, target = 4 + 0x10 + 4
    let image = [0x00, 0x48, 0x8D, 0x0D, 0x10, 0x00, 0x00, 0x00, 0x00];
    assert_eq!(offset_from_instruction(0x10000, &image, "48 8D 0D", 3).unwrap(), 0x18);
    // negative displacement
    let image = [0x00, 0x00, 0x00, 0x00, 0x00, 0x00, 0x00, 0x00, 0x48, 0x8D, 0x0D, 0xF8, 0xFF, 0xFF, 0xFF];
    assert_eq!(offset_from_instruction(0x10000, &image, "48 8D 0D", 3).unwrap(), 11 - 8 + 4);
    assert!(matches!(offset_from_instruction(0, &image, "CC", 0), Err(PatternSearchError::NotFound)));
}

fn put_u32(b: &mut [u8], off: usize, v: u32) {
    b[off..off + 4].copy_from_slice(&v.to_le_bytes());
}

fn put_u16(b: &mut [u8], off: usize, v: u16) {
    b[off..off + 2].copy_from_slice(&v.to_le_bytes());
}

fn image_with_sections(sections: &[(&[u8], u32, u32)]) -> Vec<u8> {
    let nt = 0x80usize;
    let mut b = vec![0u8; nt + 264 + 40 * sections.len()];
    b[0] = b'M';
    b[1] = b'Z';
    put_u32(&mut b, 0x3C, nt as u32);
    put_u32(&mut b, nt, 0x4550);
    put_u16(&mut b, nt + 6, sections.len() as u16);
    put_u32(&mut b, nt + 80, 0x5000);
    for (i, (name, va, size)) in sections.iter().enumerate() {
        let h = nt + 264 + 40 * i;
        b[h..h + name.len()].copy_from_slice(name);
        put_u32(&mut b, h + 8, *size);
        put_u32(&mut b, h + 12, *va);
    }
    b
}

#[test]
fn module_range_from_headers() {
    let image = image_with_sections(&[]);
    assert_eq!(module_range(0x140000000, &image).unwrap(), (0x140000000, 0x140005000));
    assert!(matches!(module_range(0x1000, &image[..0x40]), Err(PatternSearchError::OutOfRange)));
    assert!(matches!(module_range(0x1000, &[]), Err(PatternSearchError::OutOfRange)));
}

#[test]
fn sections_are_found_by_name() {
    let image = image_with_sections(&[(b".text", 0x1000, 0x200), (b".rdata", 0x2000, 0x300), (b".data", 0x3000, 0x10)]);
    let base = 0x140000000usize;
    assert_eq!(get_code_section(base, &image).unwrap(), (base + 0x1000, base + 0x1200));
    assert_eq!(get_rdata_section(base, &image).unwrap(), (base + 0x2000, base + 0x2300));
    assert_eq!(get_data_section(base, &image).unwrap(), (base + 0x3000, base + 0x3010));
    assert_eq!(get_section(base, &image, ".data").unwrap(), (base + 0x3000, base + 0x3010));
    assert!(matches!(get_pe_section_range(base, &image, ".pdata"), Err(PatternSearchError::OutOfRange)));
    assert!(matches!(get_pe_section_range(base, &image, ".tex"), Err(PatternSearchError::OutOfRange)));
    // a full eight-byte name has no terminating NUL
    let image = image_with_sections(&[(b"12345678", 0x10, 0x10)]);
    assert_eq!(get_pe_section_range(0x1000, &image, "12345678").unwrap(), (0x1010, 0x1020));
    // a section whose range would start at address zero is skipped
    let image = image_with_sections(&[(b".text", 0, 0x10), (b".text", 0x20, 0x10)]);
    assert_eq!(get_code_section(0, &image).unwrap(), (0x20, 0x30));
    // truncated section table
    let image = image_with_sections(&[(b".text", 0x1000, 0x200)]);
    assert!(matches!(get_code_section(base, &image[..image.len() - 1]), Err(PatternSearchError::OutOfRange)));
}
