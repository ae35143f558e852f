use elf_emit::elf::{FileHeader, ProgramHeader};
use elf_emit::error::EmitError;
use elf_emit::headers::{
    write_dynamic_entry, write_program_headers, write_section_header_strings,
    write_section_headers, ProgramHeaderWriter,
};
use elf_emit::layout::{
    Args, HeaderInfo, InternalLayout, Layout, Resolution, SectionDetails, SectionLayout,
    SegmentLayout, TargetResolutionKind, TlsMode,
};
use elf_emit::window::Window;

fn details(name: &str, ty: u32, index: Option<u16>) -> SectionDetails {
    SectionDetails {
        name: name.as_bytes().to_vec(),
        ty,
        section_flags: 0,
        element_size: 0,
        link: None,
        info: 0,
        output_index: index,
        has_data_in_file: true,
    }
}

fn placed(file_offset: usize, file_size: usize, mem_offset: u64) -> SectionLayout {
    SectionLayout { file_offset, file_size, mem_offset, mem_size: file_size as u64, alignment: 1 }
}

fn plain(address: u64) -> Resolution {
    Resolution { address, got_address: None, plt_address: None, kind: TargetResolutionKind::Address }
}

/// Thirteen built-in sections, then `.text` (id 13) and the null section (id 14).
fn layout(pie: bool) -> Layout {
    let mut sections = Vec::new();
    let mut section_layouts = Vec::new();
    let names = [
        "", ".shstrtab", ".eh_frame_hdr", ".eh_frame", ".init", ".fini", ".init_array",
        ".fini_array", ".dynstr", ".dynsym", ".rela.dyn", ".bss", ".comment",
    ];
    for (i, name) in names.iter().enumerate() {
        sections.push(details(name, 1, None));
        section_layouts.push(placed(0x1000 + 0x100 * i, 0x100, 0x40_1000 + 0x100 * i as u64));
    }
    sections[1].output_index = Some(2);
    sections[1].ty = 3;
    sections.push(details(".text", 1, Some(1)));
    section_layouts.push(placed(0x3000, 1, 0x40_3000));
    sections.push(details("", 0, Some(0)));
    section_layouts.push(placed(0, 0, 0));
    section_layouts[2].mem_size = 12 + 8 * 2;
    Layout {
        args: Args { pie, link_static: true, strip_all: true, tls_mode: TlsMode::LocalExec },
        sections,
        section_layouts,
        section_order: vec![0, 14, 13, 1],
        part_layouts: Vec::new(),
        segments: vec![SegmentLayout {
            segment_type: 1,
            segment_flags: 5,
            alignment: 0x10,
            file_offset: 0,
            mem_offset: 0x40_0000,
            file_size: 0x4000,
            mem_size: 0x4000,
        }],
        symbols: Vec::new(),
        relaxations: Vec::new(),
        merged_string_start_addresses: vec![0; 15],
        entry_address: 0x40_3000,
        tls_start: 0x50_0000,
        tls_end: 0x50_0100,
        undefined_symbol_resolution: plain(0),
        tlsld_got_entry: None,
    }
}


fn info() -> HeaderInfo {
    HeaderInfo { num_output_sections_with_content: 3, num_active_segments: 1 }
}

fn internal() -> InternalLayout {
    InternalLayout {
        defined: Vec::new(),
        undefined_symbol_resolution: plain(0),
        tlsld_got_entry: None,
        merged_strings: Vec::new(),
        identity: b"Linker: test".to_vec(),
        comment_part: 0,
        header_info: info(),
        strings_offset_start: 0,
    }
}

fn u64_at(bytes: &[u8], at: usize) -> u64 {
    u64::from_le_bytes(bytes[at..at + 8].try_into().unwrap())
}

fn u32_at(bytes: &[u8], at: usize) -> u32 {
    u32::from_le_bytes(bytes[at..at + 4].try_into().unwrap())
}

fn u16_at(bytes: &[u8], at: usize) -> u16 {
    u16::from_le_bytes(bytes[at..at + 2].try_into().unwrap())
}

#[test]
fn file_header_of_a_static_executable() {
    let l = layout(false);
    let header = FileHeader::build(&l, &info()).unwrap();
    assert_eq!(header.ty, 2);
    assert_eq!(header.machine, 0x3e);
    assert_eq!(header.entry_point, 0x40_3000);
    assert_eq!(header.program_header_offset, 0x40);
    assert_eq!(header.section_header_offset, 0x40 + 0x38);
    assert_eq!(header.program_header_num, 1);
    assert_eq!(header.section_header_num, 3);
    assert_eq!(header.section_names_index, 2);
    let bytes = header.encode();
    assert_eq!(bytes.len(), 64);
    assert_eq!(&bytes[0..7], &[0x7f, b'E', b'L', b'F', 2, 1, 1]);
    assert_eq!(&bytes[7..16], &[0; 9]);
    assert_eq!(u16_at(&bytes, 16), 2);
    assert_eq!(u16_at(&bytes, 18), 0x3e);
    assert_eq!(u32_at(&bytes, 20), 1);
    assert_eq!(u64_at(&bytes, 24), 0x40_3000);
    assert_eq!(u64_at(&bytes, 32), 0x40);
    assert_eq!(u64_at(&bytes, 40), 0x78);
    assert_eq!(u32_at(&bytes, 48), 0);
    assert_eq!(u16_at(&bytes, 52), 0x40);
    assert_eq!(u16_at(&bytes, 54), 0x38);
    assert_eq!(u16_at(&bytes, 56), 1);
    assert_eq!(u16_at(&bytes, 58), 0x40);
    assert_eq!(u16_at(&bytes, 60), 3);
    assert_eq!(u16_at(&bytes, 62), 2);
}

#[test]
fn file_header_of_a_pie_and_without_names() {
    let mut l = layout(true);
    assert_eq!(FileHeader::build(&l, &info()).unwrap().ty, 3);
    l.sections[1].output_index = None;
    assert_eq!(FileHeader::build(&l, &info()), Err(EmitError::MissingSectionNames));
}

#[test]
fn loadable_segments_are_page_aligned() {
    let mut l = layout(false);
    l.segments.push(SegmentLayout {
        segment_type: 4,
        segment_flags: 4,
        alignment: 4,
        file_offset: 0x200,
        mem_offset: 0x40_0200,
        file_size: 0x20,
        mem_size: 0x30,
    });
    let mut writer = ProgramHeaderWriter::new(Window::new(2 * 0x38));
    assert_eq!(write_program_headers(&mut writer, &l), Ok(()));
    let bytes = &writer.headers.data;
    assert_eq!(bytes.len(), 0x70);
    assert_eq!((u32_at(bytes, 0), u32_at(bytes, 4)), (1, 5));
    assert_eq!(u64_at(bytes, 8), 0);
    assert_eq!(u64_at(bytes, 16), 0x40_0000);
    assert_eq!(u64_at(bytes, 24), 0x40_0000);
    assert_eq!(u64_at(bytes, 32), 0x4000);
    assert_eq!(u64_at(bytes, 40), 0x4000);
    assert_eq!(u64_at(bytes, 48), 0x1000);
    assert_eq!((u32_at(bytes, 56), u32_at(bytes, 60)), (4, 4));
    assert_eq!(u64_at(bytes, 56 + 8), 0x200);
    assert_eq!(u64_at(bytes, 56 + 32), 0x20);
    assert_eq!(u64_at(bytes, 56 + 40), 0x30);
    assert_eq!(u64_at(bytes, 56 + 48), 4);
    let mut small = ProgramHeaderWriter::new(Window::new(2 * 0x38 - 1));
    assert_eq!(write_program_headers(&mut small, &l), Err(EmitError::ProgramHeaderSlots));
}

#[test]
fn program_header_slots_are_taken_in_turn() {
    let header = ProgramHeader {
        segment_type: 6,
        flags: 4,
        offset: 0x40,
        virtual_addr: 1,
        physical_addr: 2,
        file_size: 3,
        mem_size: 4,
        alignment: 8,
    };
    let mut writer = ProgramHeaderWriter::new(Window::new(0x38));
    assert_eq!(writer.take_header(&header), Ok(()));
    assert_eq!(writer.headers.data, header.encode());
    assert_eq!(writer.take_header(&header), Err(EmitError::ProgramHeaderSlots));
}

#[test]
fn section_headers_and_their_names() {
    let mut l = layout(false);
    l.sections[13].link = Some(1);
    l.sections[13].info = 9;
    l.sections[13].element_size = 0x18;
    l.sections[13].section_flags = 6;
    l.section_layouts[13].alignment = 16;
    l.section_layouts[14].alignment = 77;
    let mut table = Window::new(3 * 0x40);
    assert_eq!(write_section_headers(&mut table, &l), Ok(()));
    let bytes = &table.data;
    assert_eq!(bytes.len(), 0xc0);
    assert_eq!(&bytes[0..0x40], &[0u8; 0x40]);
    let text = &bytes[0x40..0x80];
    assert_eq!((u32_at(text, 0), u32_at(text, 4)), (1, 1));
    assert_eq!(u64_at(text, 8), 6);
    assert_eq!(u64_at(text, 16), 0x40_3000);
    assert_eq!(u64_at(text, 24), 0x3000);
    assert_eq!(u64_at(text, 32), 1);
    assert_eq!((u32_at(text, 40), u32_at(text, 44)), (2, 9));
    assert_eq!(u64_at(text, 48), 16);
    assert_eq!(u64_at(text, 56), 0x18);
    let names = &bytes[0x80..0xc0];
    assert_eq!((u32_at(names, 0), u32_at(names, 4)), (7, 3));
    let mut strings = Window::new(17);
    assert_eq!(write_section_header_strings(&mut strings, &l), Ok(()));
    assert_eq!(strings.data, b"\0.text\0.shstrtab\0".to_vec());
    assert_eq!(&strings.data[1..6], b".text");
    assert_eq!(&strings.data[7..16], b".shstrtab");
}

#[test]
fn section_header_table_must_be_filled_exactly() {
    let l = layout(false);
    let mut large = Window::new(4 * 0x40);
    assert_eq!(write_section_headers(&mut large, &l), Err(EmitError::SectionHeaderCount));
    let mut small = Window::new(2 * 0x40);
    assert_eq!(write_section_headers(&mut small, &l), Err(EmitError::SectionHeaderCount));
    let mut strings = Window::new(16);
    assert_eq!(write_section_header_strings(&mut strings, &l), Err(EmitError::SectionTooSmall));
}

#[test]
fn link_to_a_section_that_is_not_emitted_is_zero() {
    let mut l = layout(false);
    l.sections[13].link = Some(4);
    let mut table = Window::new(3 * 0x40);
    assert_eq!(write_section_headers(&mut table, &l), Ok(()));
    assert_eq!(u32_at(&table.data, 0x40 + 40), 0);
}

#[test]
fn dynamic_table_has_eighteen_entries_and_ends_with_null() {
    let mut l = layout(true);
    l.section_layouts[10].file_size = 24 * 5 + 3;
    let mut window = Window::new(18 * 16);
    assert_eq!(internal().write_dynamic_entries(&mut window, &l), Ok(()));
    let bytes = &window.data;
    assert_eq!(bytes.len(), 18 * 16);
    let entry = |i: usize| (u64_at(bytes, 16 * i), u64_at(bytes, 16 * i + 8));
    assert_eq!(entry(0), (12, 0x1400));
    assert_eq!(entry(1), (13, 0x1500));
    assert_eq!(entry(2), (25, 0x1600));
    assert_eq!(entry(3), (27, 0x100));
    assert_eq!(entry(4), (26, 0x1700));
    assert_eq!(entry(5), (28, 0x100));
    assert_eq!(entry(6), (5, 0x1800));
    assert_eq!(entry(7), (10, 0x100));
    assert_eq!(entry(8), (6, 0x1900));
    assert_eq!(entry(9), (11, 24));
    assert_eq!(entry(10), (21, 0));
    assert_eq!(entry(11), (7, 0x1a00));
    assert_eq!(entry(12), (8, 123));
    assert_eq!(entry(13), (9, 24));
    assert_eq!(entry(14), (0x6fff_fff9, 5));
    assert_eq!(entry(15), (30, 8));
    assert_eq!(entry(16), (0x6fff_fffb, 0x0800_0001));
    assert_eq!(entry(17), (0, 0));
}

#[test]
fn dynamic_table_of_another_size_is_refused() {
    let l = layout(true);
    let mut small = Window::new(17 * 16);
    assert_eq!(internal().write_dynamic_entries(&mut small, &l), Err(EmitError::DynamicEntryCount));
    assert!(small.data.is_empty());
    let mut large = Window::new(19 * 16);
    assert_eq!(internal().write_dynamic_entries(&mut large, &l), Err(EmitError::DynamicEntryCount));
    let mut one = Window::new(16);
    assert_eq!(write_dynamic_entry(&mut one, 30, 8), Ok(()));
    assert_eq!(u64_at(&one.data, 0), 30);
    assert_eq!(u64_at(&one.data, 8), 8);
    assert_eq!(write_dynamic_entry(&mut one, 30, 8), Err(EmitError::DynamicEntryCount));
}
