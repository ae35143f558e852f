use elf_emit::eh_frame_hdr::{
    eh_frame_hdr_entry_count, eh_frame_ptr, sort_eh_frame_hdr_entries, write_eh_frame_hdr,
};
use elf_emit::error::EmitError;
use elf_emit::layout::{
    Args, EhFrameSection, Layout, ObjectLayout, Relocation, RelocationTarget, Resolution,
    SectionDetails, SectionLayout, SegmentLayout, TargetResolutionKind, TlsMode,
};
use elf_emit::plt_got::RelocationWriter;
use elf_emit::window::Window;

fn details(name: &str, ty: u32, index: Option<u16>) -> SectionDetails {
    SectionDetails {
        name: name.as_bytes().to_vec(),
        ty,
        section_flags: 0,
        element_size: 0,
        link: None,
        info: 0,
        output_index: index,
        has_data_in_file: true,
    }
}

fn placed(file_offset: usize, file_size: usize, mem_offset: u64) -> SectionLayout {
    SectionLayout { file_offset, file_size, mem_offset, mem_size: file_size as u64, alignment: 1 }
}

fn plain(address: u64) -> Resolution {
    Resolution { address, got_address: None, plt_address: None, kind: TargetResolutionKind::Address }
}

/// Thirteen built-in sections, then `.text` (id 13) and the null section (id 14).
fn layout(pie: bool) -> Layout {
    let mut sections = Vec::new();
    let mut section_layouts = Vec::new();
    let names = [
        "", ".shstrtab", ".eh_frame_hdr", ".eh_frame", ".init", ".fini", ".init_array",
        ".fini_array", ".dynstr", ".dynsym", ".rela.dyn", ".bss", ".comment",
    ];
    for (i, name) in names.iter().enumerate() {
        sections.push(details(name, 1, None));
        section_layouts.push(placed(0x1000 + 0x100 * i, 0x100, 0x40_1000 + 0x100 * i as u64));
    }
    sections[1].output_index = Some(2);
    sections[1].ty = 3;
    sections.push(details(".text", 1, Some(1)));
    section_layouts.push(placed(0x3000, 1, 0x40_3000));
    sections.push(details("", 0, Some(0)));
    section_layouts.push(placed(0, 0, 0));
    section_layouts[2].mem_size = 12 + 8 * 2;
    Layout {
        args: Args { pie, link_static: true, strip_all: true, tls_mode: TlsMode::LocalExec },
        sections,
        section_layouts,
        section_order: vec![0, 14, 13, 1],
        part_layouts: Vec::new(),
        segments: vec![SegmentLayout {
            segment_type: 1,
            segment_flags: 5,
            alignment: 0x10,
            file_offset: 0,
            mem_offset: 0x40_0000,
            file_size: 0x4000,
            mem_size: 0x4000,
        }],
        symbols: Vec::new(),
        relaxations: Vec::new(),
        merged_string_start_addresses: vec![0; 15],
        entry_address: 0x40_3000,
        tls_start: 0x50_0000,
        tls_end: 0x50_0100,
        undefined_symbol_resolution: plain(0),
        tlsld_got_entry: None,
    }
}


fn record(length: u32, cie_id: u32, fill: u8) -> Vec<u8> {
    let mut bytes = length.to_le_bytes().to_vec();
    bytes.extend_from_slice(&cie_id.to_le_bytes());
    bytes.resize(4 + length as usize, fill);
    bytes
}

fn pc_begin(offset: u64, section: usize) -> Relocation {
    Relocation { offset, r_type: 2, addend: 0, target: RelocationTarget::Section(section) }
}

fn object() -> ObjectLayout {
    ObjectLayout {
        file_id: 1,
        sections: Vec::new(),
        section_resolutions: vec![None, Some(plain(0x40_5000)), None],
        local_symbol_resolutions: Vec::new(),
        symbols: Vec::new(),
        plt_relocations: Vec::new(),
        loaded_symbols: Vec::new(),
        strings_offset_start: 0,
        eh_frame_start_address: 0x40_1300,
    }
}

/// CIE A, an FDE of discarded code, CIE B, an FDE of kept code that points
/// at CIE A, and the terminator.
fn input() -> EhFrameSection {
    let mut data = record(12, 0, 0xa1);
    data.extend(record(20, 20, 0xd1));
    data.extend(record(12, 0, 0xb1));
    data.extend(record(20, 60, 0xf1));
    data.extend([0, 0, 0, 0]);
    EhFrameSection { data, relocations: vec![pc_begin(24, 2), pc_begin(64, 1)] }
}

#[test]
fn kept_fde_points_at_its_cie_in_the_output() {
    let l = layout(false);
    let section = input();
    let mut eh_frame = Window::new(60);
    let mut eh_frame_hdr = Window::new(8);
    let mut rw = RelocationWriter::disabled();
    let outcome =
        object().write_eh_frame_data(&section, &mut eh_frame, &mut eh_frame_hdr, &l, &mut rw);
    assert_eq!(outcome, Ok(()));
    let out = &eh_frame.data;
    assert_eq!(out.len(), 60);
    assert_eq!(&out[0..16], &section.data[0..16]);
    assert_eq!(&out[16..32], &section.data[40..56]);
    assert_eq!(&out[32..36], &20u32.to_le_bytes());
    let cie_pointer = u32::from_le_bytes([out[36], out[37], out[38], out[39]]);
    assert_eq!(cie_pointer, 36);
    assert_eq!(&out[36 - cie_pointer as usize..][..16], &section.data[0..16]);
    assert_eq!(&out[40..44], &(0x40_5000u32 - (0x40_1300 + 32 + 8)).to_le_bytes());
    assert_eq!(&out[44..56], &[0xf1; 12]);
    assert_eq!(&out[56..60], &[0, 0, 0, 0]);
    let frame_ptr = 0x40_5000i32 - 0x40_1200;
    let frame_info_ptr = 0x40_1300i32 + 32;
    let mut row = frame_ptr.to_le_bytes().to_vec();
    row.extend_from_slice(&frame_info_ptr.to_le_bytes());
    assert_eq!(eh_frame_hdr.data, row);
}

#[test]
fn fde_without_pc_begin_relocation_is_dropped() {
    let l = layout(false);
    let mut section = input();
    section.relocations = vec![pc_begin(25, 1), pc_begin(70, 1)];
    let mut eh_frame = Window::new(60);
    let mut eh_frame_hdr = Window::new(8);
    let mut rw = RelocationWriter::disabled();
    let outcome =
        object().write_eh_frame_data(&section, &mut eh_frame, &mut eh_frame_hdr, &l, &mut rw);
    assert_eq!(outcome, Ok(()));
    assert_eq!(eh_frame.data.len(), 36);
    assert!(eh_frame_hdr.data.is_empty());
}

#[test]
fn eh_frame_errors() {
    let l = layout(false);
    let mut rw = RelocationWriter::disabled();
    let run = |section: &EhFrameSection, room: usize, rows: usize, rw: &mut RelocationWriter| {
        let mut eh_frame = Window::new(room);
        let mut eh_frame_hdr = Window::new(rows);
        object().write_eh_frame_data(section, &mut eh_frame, &mut eh_frame_hdr, &l, rw)
    };
    assert_eq!(run(&input(), 59, 8, &mut rw), Err(EmitError::EhFrameTooSmall));
    assert_eq!(run(&input(), 60, 7, &mut rw), Err(EmitError::EhFrameHdrTooSmall));
    let truncated = EhFrameSection { data: record(12, 0, 0)[..12].to_vec(), relocations: vec![] };
    assert_eq!(run(&truncated, 60, 8, &mut rw), Err(EmitError::InvalidEhFrame));
    let mut dangling = input();
    dangling.data[60..64].copy_from_slice(&59u32.to_le_bytes());
    assert_eq!(run(&dangling, 60, 8, &mut rw), Err(EmitError::DanglingCie));
    let mut beyond = input();
    beyond.data[60..64].copy_from_slice(&61u32.to_le_bytes());
    assert_eq!(run(&beyond, 60, 8, &mut rw), Err(EmitError::CiePointerTooLarge));
    let mut absolute = input();
    absolute.relocations[1].target = RelocationTarget::Absolute;
    assert_eq!(run(&absolute, 60, 8, &mut rw), Err(EmitError::BadPcBegin));
    let mut far = layout(false);
    far.section_layouts[2].mem_offset = 0x1_0000_0000_0000;
    let mut eh_frame = Window::new(60);
    let mut eh_frame_hdr = Window::new(8);
    let outcome =
        object().write_eh_frame_data(&input(), &mut eh_frame, &mut eh_frame_hdr, &far, &mut rw);
    assert_eq!(outcome, Err(EmitError::FramePtrOverflow));
    let mut high = object();
    high.eh_frame_start_address = 0x8000_0000;
    let mut eh_frame = Window::new(60);
    let mut eh_frame_hdr = Window::new(8);
    let outcome = high.write_eh_frame_data(&input(), &mut eh_frame, &mut eh_frame_hdr, &l, &mut rw);
    assert_eq!(outcome, Err(EmitError::FrameInfoPtrOverflow));
}

fn rows(table: &[(i32, i32)]) -> Vec<u8> {
    let mut bytes = vec![1, 0x1b, 0x03, 0x3b, 9, 9, 9, 9, 7, 7, 7, 7];
    for (frame_ptr, frame_info_ptr) in table {
        bytes.extend_from_slice(&frame_ptr.to_le_bytes());
        bytes.extend_from_slice(&frame_info_ptr.to_le_bytes());
    }
    bytes
}

#[test]
fn search_table_is_sorted_by_frame_ptr() {
    let mut section = rows(&[(0x300, 1), (-5, 2)]);
    assert_eq!(sort_eh_frame_hdr_entries(&mut section), Ok(()));
    assert_eq!(section, rows(&[(-5, 2), (0x300, 1)]));
    let mut section = rows(&[(0x300, 1), (-5, 2), (0x100, 3), (i32::MIN, 4), (i32::MAX, 5)]);
    assert_eq!(sort_eh_frame_hdr_entries(&mut section), Ok(()));
    assert_eq!(section, rows(&[(i32::MIN, 4), (-5, 2), (0x100, 3), (0x300, 1), (i32::MAX, 5)]));
    let mut empty = rows(&[]);
    assert_eq!(sort_eh_frame_hdr_entries(&mut empty), Ok(()));
    assert_eq!(empty, rows(&[]));
}

#[test]
fn search_table_of_odd_size_is_refused() {
    let mut section = rows(&[(3, 1), (2, 2)]);
    section.push(0);
    let before = section.clone();
    assert_eq!(sort_eh_frame_hdr_entries(&mut section), Err(EmitError::MalformedEhFrameHdr));
    assert_eq!(section, before);
    let mut short = vec![0u8; 11];
    assert_eq!(sort_eh_frame_hdr_entries(&mut short), Err(EmitError::MalformedEhFrameHdr));
}

#[test]
fn header_of_the_search_table() {
    let l = layout(false);
    assert_eq!(eh_frame_ptr(&l), Ok(0x100 - 4));
    assert_eq!(eh_frame_hdr_entry_count(&l), Ok(2));
    let mut window = Window::new(12);
    assert_eq!(write_eh_frame_hdr(&mut window, &l), Ok(()));
    assert_eq!(window.data, vec![1, 0x1b, 0x03, 0x3b, 0xfc, 0, 0, 0, 2, 0, 0, 0]);
    let mut small = Window::new(11);
    assert_eq!(write_eh_frame_hdr(&mut small, &l), Err(EmitError::EhFrameHdrTooSmall));
}

#[test]
fn eh_frame_below_the_search_table() {
    let mut l = layout(false);
    l.section_layouts[3].mem_offset = 0x1000;
    l.section_layouts[2].mem_offset = 0x2000;
    assert_eq!(eh_frame_ptr(&l), Ok(0x1000 - 0x2004));
    let mut window = Window::new(12);
    assert_eq!(write_eh_frame_hdr(&mut window, &l), Ok(()));
    let mut expected = vec![1, 0x1b, 0x03, 0x3b];
    expected.extend_from_slice(&(-0x1004i32).to_le_bytes());
    expected.extend_from_slice(&2u32.to_le_bytes());
    assert_eq!(window.data, expected);
}

#[test]
fn header_of_the_search_table_errors() {
    let mut l = layout(false);
    l.section_layouts[2].mem_offset = 0x1_0000_0000;
    l.section_layouts[3].mem_offset = l.section_layouts[2].mem_offset + 3;
    assert_eq!(eh_frame_ptr(&l), Ok(-1));
    l.section_layouts[3].mem_offset = l.section_layouts[2].mem_offset - 0x7fff_fffc;
    assert_eq!(eh_frame_ptr(&l), Ok(i32::MIN));
    l.section_layouts[3].mem_offset = l.section_layouts[2].mem_offset - 0x7fff_fffd;
    assert_eq!(eh_frame_ptr(&l), Err(EmitError::EhFrameTooFar));
    l.section_layouts[3].mem_offset = l.section_layouts[2].mem_offset + 0x8000_0004;
    assert_eq!(eh_frame_ptr(&l), Err(EmitError::EhFrameTooFar));
    l.section_layouts[3].mem_offset = l.section_layouts[2].mem_offset + 0x8000_0003;
    assert_eq!(eh_frame_ptr(&l), Ok(i32::MAX));
    l.section_layouts[2].mem_size = 11;
    assert_eq!(eh_frame_hdr_entry_count(&l), Err(EmitError::EhFrameHdrTooSmall));
    l.section_layouts[2].mem_size = 12 + 8 * 0x1_0000_0000;
    assert_eq!(eh_frame_hdr_entry_count(&l), Err(EmitError::EntryCountOverflow));
    l.section_layouts[2].mem_size = 12 + 8 * 0xffff_ffff + 7;
    assert_eq!(eh_frame_hdr_entry_count(&l), Ok(u32::MAX));
}
