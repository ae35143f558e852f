use elf_emit::elf::SymtabEntry;
use elf_emit::error::EmitError;
use elf_emit::layout::{
    Args, InputSymbol, Layout, Resolution, SectionDetails, SectionLayout, SegmentLayout,
    SymbolPlacement, TargetResolutionKind, TlsMode,
};
use elf_emit::symtab::SymbolTableWriter;
use elf_emit::window::Window;

fn details(name: &str, ty: u32, index: Option<u16>) -> SectionDetails {
    SectionDetails {
        name: name.as_bytes().to_vec(),
        ty,
        section_flags: 0,
        element_size: 0,
        link: None,
        info: 0,
        output_index: index,
        has_data_in_file: true,
    }
}

fn placed(file_offset: usize, file_size: usize, mem_offset: u64) -> SectionLayout {
    SectionLayout { file_offset, file_size, mem_offset, mem_size: file_size as u64, alignment: 1 }
}

fn plain(address: u64) -> Resolution {
    Resolution { address, got_address: None, plt_address: None, kind: TargetResolutionKind::Address }
}

/// Thirteen built-in sections, then `.text` (id 13) and the null section (id 14).
fn layout(pie: bool) -> Layout {
    let mut sections = Vec::new();
    let mut section_layouts = Vec::new();
    let names = [
        "", ".shstrtab", ".eh_frame_hdr", ".eh_frame", ".init", ".fini", ".init_array",
        ".fini_array", ".dynstr", ".dynsym", ".rela.dyn", ".bss", ".comment",
    ];
    for (i, name) in names.iter().enumerate() {
        sections.push(details(name, 1, None));
        section_layouts.push(placed(0x1000 + 0x100 * i, 0x100, 0x40_1000 + 0x100 * i as u64));
    }
    sections[1].output_index = Some(2);
    sections[1].ty = 3;
    sections.push(details(".text", 1, Some(1)));
    section_layouts.push(placed(0x3000, 1, 0x40_3000));
    sections.push(details("", 0, Some(0)));
    section_layouts.push(placed(0, 0, 0));
    section_layouts[2].mem_size = 12 + 8 * 2;
    Layout {
        args: Args { pie, link_static: true, strip_all: true, tls_mode: TlsMode::LocalExec },
        sections,
        section_layouts,
        section_order: vec![0, 14, 13, 1],
        part_layouts: Vec::new(),
        segments: vec![SegmentLayout {
            segment_type: 1,
            segment_flags: 5,
            alignment: 0x10,
            file_offset: 0,
            mem_offset: 0x40_0000,
            file_size: 0x4000,
            mem_size: 0x4000,
        }],
        symbols: Vec::new(),
        relaxations: Vec::new(),
        merged_string_start_addresses: vec![0; 15],
        entry_address: 0x40_3000,
        tls_start: 0x50_0000,
        tls_end: 0x50_0100,
        undefined_symbol_resolution: plain(0),
        tlsld_got_entry: None,
    }
}


fn writer(locals: usize, globals: usize, strings: usize) -> SymbolTableWriter {
    SymbolTableWriter::new(5, Window::new(locals), Window::new(globals), Window::new(strings))
}

fn symbol(name: &str, is_local: bool) -> InputSymbol {
    InputSymbol {
        name: name.as_bytes().to_vec(),
        address: 0x10,
        size: 4,
        is_local,
        st_info: 0x12,
        st_other: 2,
        placement: SymbolPlacement::Section(1),
        global_id: None,
        should_copy: true,
    }
}

#[test]
fn entry_layout() {
    let entry =
        SymtabEntry { name: 0x0403_0201, info: 5, other: 6, shndx: 0x0807, value: 0x11, size: 0x22 };
    let mut expected = vec![1, 2, 3, 4, 5, 6, 7, 8];
    expected.extend_from_slice(&0x11u64.to_le_bytes());
    expected.extend_from_slice(&0x22u64.to_le_bytes());
    assert_eq!(entry.encode(), expected);
}

#[test]
fn defined_symbol_and_its_name() {
    let mut w = writer(24, 24, 8);
    assert_eq!(w.define_symbol(false, 3, 0x1000, 8, &b"main".to_vec()), Ok(0));
    let entry = SymtabEntry { name: 5, info: 0, other: 0, shndx: 3, value: 0x1000, size: 8 };
    assert_eq!(w.global_entries.data, entry.encode());
    assert!(w.local_entries.data.is_empty());
    assert_eq!(w.strings.data, b"main\0".to_vec());
    assert_eq!(w.string_offset, 10);
    w.set_symbol_info(false, 0, 0x10, 3);
    let entry = SymtabEntry { name: 5, info: 0x10, other: 3, shndx: 3, value: 0x1000, size: 8 };
    assert_eq!(w.global_entries.data, entry.encode());
    assert_eq!(w.check_exhausted(), Err(EmitError::UnusedSymtab));
    assert_eq!(w.define_symbol(true, 0, 0, 0, &b"ab".to_vec()), Ok(0));
    assert_eq!(w.strings.data, b"main\0ab\0".to_vec());
    assert_eq!(w.string_offset, 13);
    assert_eq!(w.check_exhausted(), Ok(()));
}

#[test]
fn symbol_without_room() {
    let mut w = writer(23, 24, 8);
    assert_eq!(w.define_symbol(true, 0, 0, 0, &Vec::new()), Err(EmitError::SymtabTooSmall));
    assert_eq!(w.define_symbol(false, 0, 0, 0, &b"12345678".to_vec()), Err(EmitError::SymtabTooSmall));
    assert!(w.global_entries.data.is_empty());
    assert!(w.strings.data.is_empty());
    let mut high = SymbolTableWriter::new(
        u32::MAX - 2,
        Window::new(24),
        Window::new(24),
        Window::new(8),
    );
    assert_eq!(high.define_symbol(true, 0, 0, 0, &b"ab".to_vec()), Err(EmitError::StringOffsetOverflow));
    assert_eq!(high.define_symbol(true, 0, 0, 0, &b"a".to_vec()), Ok(0));
    assert_eq!(high.string_offset, u32::MAX);
}

#[test]
fn copied_symbol_keeps_its_info() {
    let l = layout(false);
    let mut w = writer(24, 0, 4);
    assert_eq!(w.copy_symbol(&symbol("foo", true), 13, 0x40_3000, &l), Ok(()));
    let entry =
        SymtabEntry { name: 5, info: 0x12, other: 2, shndx: 1, value: 0x40_3010, size: 4 };
    assert_eq!(w.local_entries.data, entry.encode());
    assert_eq!(w.strings.data, b"foo\0".to_vec());
    assert_eq!(w.check_exhausted(), Ok(()));
}

#[test]
fn uninteresting_symbols_and_unemitted_sections() {
    let l = layout(false);
    let mut w = writer(24, 24, 8);
    let mut dull = symbol("$d", true);
    dull.should_copy = false;
    assert_eq!(w.copy_symbol(&dull, 4, 0, &l), Ok(()));
    assert!(w.local_entries.data.is_empty());
    assert!(w.strings.data.is_empty());
    assert_eq!(w.copy_symbol(&symbol("x", true), 4, 0, &l), Err(EmitError::SymbolInUnemittedSection));
    assert_eq!(w.copy_symbol(&symbol("x", true), 400, 0, &l), Err(EmitError::SymbolInUnemittedSection));
    assert!(w.local_entries.data.is_empty());
}
