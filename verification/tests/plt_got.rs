use elf_emit::elf::plt_entry_template;
use elf_emit::error::EmitError;
use elf_emit::layout::{
    Args, GlobalSymbol, Layout, PltRelocation, Resolution, SectionDetails, SectionLayout,
    SegmentLayout, SymbolResolution, TargetResolutionKind, TlsMode,
};
use elf_emit::plt_got::{PltGotWriter, RelocationWriter};
use elf_emit::window::Window;

fn details(name: &str, ty: u32, index: Option<u16>) -> SectionDetails {
    SectionDetails {
        name: name.as_bytes().to_vec(),
        ty,
        section_flags: 0,
        element_size: 0,
        link: None,
        info: 0,
        output_index: index,
        has_data_in_file: true,
    }
}

fn placed(file_offset: usize, file_size: usize, mem_offset: u64) -> SectionLayout {
    SectionLayout { file_offset, file_size, mem_offset, mem_size: file_size as u64, alignment: 1 }
}

fn plain(address: u64) -> Resolution {
    Resolution { address, got_address: None, plt_address: None, kind: TargetResolutionKind::Address }
}

/// Thirteen built-in sections, then `.text` (id 13) and the null section (id 14).
fn layout(pie: bool) -> Layout {
    let mut sections = Vec::new();
    let mut section_layouts = Vec::new();
    let names = [
        "", ".shstrtab", ".eh_frame_hdr", ".eh_frame", ".init", ".fini", ".init_array",
        ".fini_array", ".dynstr", ".dynsym", ".rela.dyn", ".bss", ".comment",
    ];
    for (i, name) in names.iter().enumerate() {
        sections.push(details(name, 1, None));
        section_layouts.push(placed(0x1000 + 0x100 * i, 0x100, 0x40_1000 + 0x100 * i as u64));
    }
    sections[1].output_index = Some(2);
    sections[1].ty = 3;
    sections.push(details(".text", 1, Some(1)));
    section_layouts.push(placed(0x3000, 1, 0x40_3000));
    sections.push(details("", 0, Some(0)));
    section_layouts.push(placed(0, 0, 0));
    section_layouts[2].mem_size = 12 + 8 * 2;
    Layout {
        args: Args { pie, link_static: true, strip_all: true, tls_mode: TlsMode::LocalExec },
        sections,
        section_layouts,
        section_order: vec![0, 14, 13, 1],
        part_layouts: Vec::new(),
        segments: vec![SegmentLayout {
            segment_type: 1,
            segment_flags: 5,
            alignment: 0x10,
            file_offset: 0,
            mem_offset: 0x40_0000,
            file_size: 0x4000,
            mem_size: 0x4000,
        }],
        symbols: Vec::new(),
        relaxations: Vec::new(),
        merged_string_start_addresses: vec![0; 15],
        entry_address: 0x40_3000,
        tls_start: 0x50_0000,
        tls_end: 0x50_0100,
        undefined_symbol_resolution: plain(0),
        tlsld_got_entry: None,
    }
}


fn writer(got: usize, plt: usize, rela_plt: usize) -> PltGotWriter {
    PltGotWriter::new(&layout(false), Window::new(got), Window::new(plt), Window::new(rela_plt))
}

fn rela(address: u64, info: u64, addend: u64) -> Vec<u8> {
    let mut bytes = address.to_le_bytes().to_vec();
    bytes.extend_from_slice(&info.to_le_bytes());
    bytes.extend_from_slice(&addend.to_le_bytes());
    bytes
}

#[test]
fn plt_entry_for_ifunc() {
    let mut w = writer(8, 16, 24);
    let mut rw = RelocationWriter::disabled();
    let res = Resolution {
        address: 0x1234,
        got_address: Some(0x4000),
        plt_address: Some(0x2000),
        kind: TargetResolutionKind::IFunc,
    };
    assert_eq!(w.process_resolution(&res, &mut rw), Ok(()));
    let template = plt_entry_template();
    assert_eq!(w.plt.data.len(), 16);
    assert_eq!(&w.plt.data[0..7], &template[0..7]);
    assert_eq!(&w.plt.data[7..11], &[0xf5, 0x1f, 0x00, 0x00]);
    assert_eq!(&w.plt.data[7..11], &(0x4000u32 - 0x200b).to_le_bytes());
    assert_eq!(&w.plt.data[11..16], &template[11..16]);
    assert_eq!(w.got.data, vec![0u8; 8]);
    let rel = PltRelocation { resolver: 0x1234, got_address: 0x4000 };
    assert_eq!(w.apply_relocation(&rel), Ok(()));
    assert_eq!(w.rela_plt.data, rela(0x4000, 37, 0x1234));
    assert_eq!(w.validate_empty(), Ok(()));
}

#[test]
fn plt_template_is_endbr_jmp_nop() {
    assert_eq!(
        plt_entry_template(),
        vec![0xf3, 0x0f, 0x1e, 0xfa, 0xf2, 0xff, 0x25, 0, 0, 0, 0, 0x0f, 0x1f, 0x44, 0, 0]
    );
}

#[test]
fn plt_delta_may_be_negative() {
    let mut w = writer(8, 16, 0);
    let mut rw = RelocationWriter::disabled();
    let res = Resolution {
        address: 0,
        got_address: Some(0x2000),
        plt_address: Some(0x4000),
        kind: TargetResolutionKind::Plt,
    };
    assert_eq!(w.process_resolution(&res, &mut rw), Ok(()));
    assert_eq!(&w.plt.data[7..11], &(0x2000i32 - 0x400b).to_le_bytes());
}

#[test]
fn under_allocated_got_is_an_error() {
    let mut w = writer(7, 0, 0);
    let mut rw = RelocationWriter::disabled();
    let first = Resolution {
        address: 0x1000,
        got_address: Some(0x4000),
        plt_address: None,
        kind: TargetResolutionKind::Got,
    };
    let outcome = w.process_resolution(&first, &mut rw);
    assert_eq!(outcome, Err(EmitError::GotTooSmall));
    assert!(EmitError::GotTooSmall.message().to_lowercase().contains("didn't allocate enough space in got"));
    assert!(w.got.data.is_empty());
}

#[test]
fn second_resolution_finds_the_got_full() {
    let mut w = writer(8, 0, 0);
    let mut rw = RelocationWriter::disabled();
    let res = Resolution {
        address: 0x1000,
        got_address: Some(0x4000),
        plt_address: None,
        kind: TargetResolutionKind::Got,
    };
    assert_eq!(w.process_resolution(&res, &mut rw), Ok(()));
    assert_eq!(w.got.data, 0x1000u64.to_le_bytes().to_vec());
    assert_eq!(w.process_resolution(&res, &mut rw), Err(EmitError::GotTooSmall));
}

#[test]
fn resolution_without_got_address_writes_nothing() {
    let mut w = writer(8, 16, 0);
    let mut rw = RelocationWriter::disabled();
    assert_eq!(w.process_resolution(&plain(0x77), &mut rw), Ok(()));
    assert!(w.got.data.is_empty());
    assert!(w.plt.data.is_empty());
    assert_eq!(w.validate_empty(), Err(EmitError::UnusedPltGot));
}

#[test]
fn tls_double_takes_module_and_offset() {
    let mut w = writer(16, 16, 0);
    let mut rw = RelocationWriter::new(true, Window::new(24));
    let res = Resolution {
        address: 0x50_00c0,
        got_address: Some(0x4000),
        plt_address: Some(0x2000),
        kind: TargetResolutionKind::GotTlsDouble,
    };
    assert_eq!(w.process_resolution(&res, &mut rw), Ok(()));
    let mut expected = 1u64.to_le_bytes().to_vec();
    expected.extend_from_slice(&(-0x40i64).to_le_bytes());
    assert_eq!(w.got.data, expected);
    assert!(w.plt.data.is_empty());
    assert!(rw.rela_dyn.data.is_empty());
}

#[test]
fn tls_double_needs_two_slots() {
    let mut w = writer(8, 0, 0);
    let mut rw = RelocationWriter::disabled();
    let res = Resolution {
        address: 0x50_00c0,
        got_address: Some(0x4000),
        plt_address: None,
        kind: TargetResolutionKind::GotTlsDouble,
    };
    assert_eq!(w.process_resolution(&res, &mut rw), Err(EmitError::GotTooSmall));
}

#[test]
fn tls_offset_is_relative_to_the_end_of_the_segment() {
    let mut w = writer(8, 0, 0);
    let mut rw = RelocationWriter::new(true, Window::new(24));
    let res = Resolution {
        address: 0x50_0000,
        got_address: Some(0x4000),
        plt_address: None,
        kind: TargetResolutionKind::GotTlsOffset,
    };
    assert_eq!(w.process_resolution(&res, &mut rw), Ok(()));
    assert_eq!(w.got.data, (-0x100i64).to_le_bytes().to_vec());
    assert!(rw.rela_dyn.data.is_empty());
}

#[test]
fn tls_offset_outside_the_segment_is_an_error() {
    let mut w = writer(8, 0, 0);
    let mut rw = RelocationWriter::disabled();
    let res = Resolution {
        address: 0x50_0100,
        got_address: Some(0x4000),
        plt_address: None,
        kind: TargetResolutionKind::GotTlsOffset,
    };
    assert_eq!(w.process_resolution(&res, &mut rw), Err(EmitError::TlsAddressOutsideSegment));
}

#[test]
fn relocatable_got_slot_gets_a_relative_relocation() {
    let mut w = writer(8, 0, 0);
    let mut rw = RelocationWriter::new(true, Window::new(24));
    let res = Resolution {
        address: 0xa000,
        got_address: Some(0x4000),
        plt_address: None,
        kind: TargetResolutionKind::Got,
    };
    assert_eq!(w.process_resolution(&res, &mut rw), Ok(()));
    assert_eq!(w.got.data, vec![0u8; 8]);
    assert_eq!(rw.rela_dyn.data, rela(0x4000, 8, 0xa000));
    assert_eq!(rw.validate_empty(), Ok(()));
}

#[test]
fn relocatable_got_slot_without_room_for_its_relocation() {
    let mut w = writer(8, 0, 0);
    let mut rw = RelocationWriter::new(true, Window::new(23));
    let res = Resolution {
        address: 0xa000,
        got_address: Some(0x4000),
        plt_address: None,
        kind: TargetResolutionKind::Got,
    };
    assert_eq!(w.process_resolution(&res, &mut rw), Err(EmitError::RelaDynTooSmall));
    assert_eq!(rw.validate_empty(), Err(EmitError::UnusedRelaDyn));
}

#[test]
fn plt_without_room_and_plt_out_of_reach() {
    let res = Resolution {
        address: 0,
        got_address: Some(0x4000),
        plt_address: Some(0x2000),
        kind: TargetResolutionKind::Plt,
    };
    let mut w = writer(8, 15, 0);
    let mut rw = RelocationWriter::disabled();
    assert_eq!(w.process_resolution(&res, &mut rw), Err(EmitError::PltTooSmall));
    let far = Resolution {
        address: 0,
        got_address: Some(0x1_0000_0000),
        plt_address: Some(0x2000),
        kind: TargetResolutionKind::Plt,
    };
    let mut w = writer(8, 16, 0);
    assert_eq!(w.process_resolution(&far, &mut rw), Err(EmitError::PltTooFarFromGot));
}

#[test]
fn inactive_writer_writes_no_relocation() {
    let mut rw = RelocationWriter::new(false, Window::new(24));
    assert_eq!(rw.write_relocation(0x7000, 0xa000), Ok(()));
    assert!(rw.rela_dyn.data.is_empty());
    let mut rw = RelocationWriter::new(true, Window::new(24));
    assert_eq!(rw.write_relocation(0x7000, 0xa000), Ok(()));
    assert_eq!(rw.rela_dyn.data, rela(0x7000, 8, 0xa000));
    assert_eq!(rw.write_relocation(0x7000, 0xa000), Err(EmitError::RelaDynTooSmall));
}

#[test]
fn rela_plt_without_room() {
    let mut w = writer(0, 0, 23);
    let rel = PltRelocation { resolver: 1, got_address: 2 };
    assert_eq!(w.apply_relocation(&rel), Err(EmitError::RelaPltTooSmall));
}

#[test]
fn symbols_without_resolution_get_nothing() {
    let mut l = layout(false);
    l.symbols.push(GlobalSymbol { name: b"a".to_vec(), file_id: 0, resolution: None });
    l.symbols.push(GlobalSymbol {
        name: b"b".to_vec(),
        file_id: 0,
        resolution: Some(SymbolResolution::Dynamic),
    });
    l.symbols.push(GlobalSymbol {
        name: b"c".to_vec(),
        file_id: 0,
        resolution: Some(SymbolResolution::Resolved(Resolution {
            address: 0x99,
            got_address: Some(0x4000),
            plt_address: None,
            kind: TargetResolutionKind::Got,
        })),
    });
    let mut w = PltGotWriter::new(&l, Window::new(8), Window::new(0), Window::new(0));
    let mut rw = RelocationWriter::disabled();
    assert_eq!(w.process_symbol(&l, 0, &mut rw), Ok(()));
    assert_eq!(w.process_symbol(&l, 1, &mut rw), Ok(()));
    assert_eq!(w.process_symbol(&l, 7, &mut rw), Ok(()));
    assert!(w.got.data.is_empty());
    assert_eq!(w.process_symbol(&l, 2, &mut rw), Ok(()));
    assert_eq!(w.got.data, 0x99u64.to_le_bytes().to_vec());
    assert_eq!(w.validate_empty(), Ok(()));
}

#[test]
fn failure_leaves_the_windows_alone() {
    let mut full = Window::new(20);
    assert!(full.emit(&vec![9; 13]));
    let mut w = PltGotWriter::new(&layout(false), full, Window::new(16), Window::new(0));
    let mut rw = RelocationWriter::new(true, Window::new(24));
    let plain_slot = Resolution {
        address: 0x1000,
        got_address: Some(0x4000),
        plt_address: Some(0x2000),
        kind: TargetResolutionKind::Got,
    };
    assert_eq!(w.process_resolution(&plain_slot, &mut rw), Err(EmitError::GotTooSmall));
    assert_eq!(w.got.data, vec![9; 13]);
    assert!(w.plt.data.is_empty());
    assert!(rw.rela_dyn.data.is_empty());
    let mut w = writer(8, 16, 0);
    let outside = Resolution {
        address: 0x4f_ffff,
        got_address: Some(0x4000),
        plt_address: Some(0x2000),
        kind: TargetResolutionKind::GotTlsOffset,
    };
    assert_eq!(w.process_resolution(&outside, &mut rw), Err(EmitError::TlsAddressOutsideSegment));
    assert!(w.got.data.is_empty());
    assert!(w.plt.data.is_empty());
    assert!(rw.rela_dyn.data.is_empty());
    let far = Resolution {
        address: 0x1000,
        got_address: Some(0x1_0000_0000),
        plt_address: Some(0x2000),
        kind: TargetResolutionKind::IFunc,
    };
    assert_eq!(w.process_resolution(&far, &mut rw), Err(EmitError::PltTooFarFromGot));
    assert!(w.plt.data.is_empty());
    assert_eq!(w.got.data, vec![0u8; 8]);
    let mut w = writer(8, 15, 0);
    assert_eq!(w.process_resolution(&plain_slot, &mut rw), Err(EmitError::PltTooSmall));
    assert!(w.plt.data.is_empty());
    assert_eq!(w.got.data, vec![0u8; 8]);
    let mut expected = 0x4000u64.to_le_bytes().to_vec();
    expected.extend_from_slice(&8u64.to_le_bytes());
    expected.extend_from_slice(&0x1000u64.to_le_bytes());
    assert_eq!(rw.rela_dyn.data, expected);
    let mut w = writer(8, 16, 0);
    assert_eq!(w.process_resolution(&plain_slot, &mut rw), Err(EmitError::RelaDynTooSmall));
    assert!(w.plt.data.is_empty());
    assert_eq!(w.got.data, vec![0u8; 8]);
    assert_eq!(rw.rela_dyn.data, expected);
}
