use elf_emit::bytes::{add_wrapping, le_bytes, put_bytes, read_u32, sub_wrapping};
use elf_emit::error::EmitError;
use elf_emit::layout::{
    Args, Buffers, DefinedSymbol, FileLayout, GlobalSymbol, HeaderInfo, InputSection, InputSymbol,
    InternalLayout, Layout, LocalSymbolResolution, MergedStrings, ObjectLayout, PltRelocation,
    Relocation, RelocationTarget, Resolution, SectionDetails, SectionLayout, SectionSlot,
    SegmentLayout, SymbolPlacement, SymbolResolution, TargetResolutionKind, TlsMode,
};
use elf_emit::plt_got::RelocationWriter;
use elf_emit::window::Window;

fn details(name: &str, ty: u32, index: Option<u16>) -> SectionDetails {
    SectionDetails {
        name: name.as_bytes().to_vec(),
        ty,
        section_flags: 0,
        element_size: 0,
        link: None,
        info: 0,
        output_index: index,
        has_data_in_file: true,
    }
}

fn placed(file_offset: usize, file_size: usize, mem_offset: u64) -> SectionLayout {
    SectionLayout { file_offset, file_size, mem_offset, mem_size: file_size as u64, alignment: 1 }
}

fn plain(address: u64) -> Resolution {
    Resolution { address, got_address: None, plt_address: None, kind: TargetResolutionKind::Address }
}

/// Thirteen built-in sections, then `.text` (id 13) and the null section (id 14).
fn layout(pie: bool) -> Layout {
    let mut sections = Vec::new();
    let mut section_layouts = Vec::new();
    let names = [
        "", ".shstrtab", ".eh_frame_hdr", ".eh_frame", ".init", ".fini", ".init_array",
        ".fini_array", ".dynstr", ".dynsym", ".rela.dyn", ".bss", ".comment",
    ];
    for (i, name) in names.iter().enumerate() {
        sections.push(details(name, 1, None));
        section_layouts.push(placed(0x1000 + 0x100 * i, 0x100, 0x40_1000 + 0x100 * i as u64));
    }
    sections[1].output_index = Some(2);
    sections[1].ty = 3;
    sections.push(details(".text", 1, Some(1)));
    section_layouts.push(placed(0x3000, 1, 0x40_3000));
    sections.push(details("", 0, Some(0)));
    section_layouts.push(placed(0, 0, 0));
    section_layouts[2].mem_size = 12 + 8 * 2;
    Layout {
        args: Args { pie, link_static: true, strip_all: true, tls_mode: TlsMode::LocalExec },
        sections,
        section_layouts,
        section_order: vec![0, 14, 13, 1],
        part_layouts: Vec::new(),
        segments: vec![SegmentLayout {
            segment_type: 1,
            segment_flags: 5,
            alignment: 0x10,
            file_offset: 0,
            mem_offset: 0x40_0000,
            file_size: 0x4000,
            mem_size: 0x4000,
        }],
        symbols: Vec::new(),
        relaxations: Vec::new(),
        merged_string_start_addresses: vec![0; 15],
        entry_address: 0x40_3000,
        tls_start: 0x50_0000,
        tls_end: 0x50_0100,
        undefined_symbol_resolution: plain(0),
        tlsld_got_entry: None,
    }
}


fn buffers(regular: Vec<usize>) -> Buffers {
    Buffers {
        file_headers: Window::new(0),
        shstrtab: Window::new(0),
        got: Window::new(0),
        plt: Window::new(0),
        rela_plt: Window::new(0),
        rela_dyn: Window::new(0),
        symtab_locals: Window::new(0),
        symtab_globals: Window::new(0),
        symtab_strings: Window::new(0),
        eh_frame: Window::new(0),
        eh_frame_hdr: Window::new(0),
        dynamic: Window::new(0),
        regular: regular.into_iter().map(Window::new).collect(),
    }
}

fn text(data: Vec<u8>, capacity: usize, relocations: Vec<Relocation>) -> InputSection {
    InputSection {
        index: 0,
        output_section_id: 13,
        part: 0,
        capacity,
        data,
        relocations,
        needs_got_entry: false,
    }
}

fn object(section: InputSection) -> ObjectLayout {
    ObjectLayout {
        file_id: 1,
        sections: vec![SectionSlot::Loaded(section)],
        section_resolutions: vec![Some(plain(0x40_3000))],
        local_symbol_resolutions: Vec::new(),
        symbols: Vec::new(),
        plt_relocations: Vec::new(),
        loaded_symbols: Vec::new(),
        strings_offset_start: 1,
        eh_frame_start_address: 0,
    }
}

fn internal() -> InternalLayout {
    InternalLayout {
        defined: Vec::new(),
        undefined_symbol_resolution: plain(0),
        tlsld_got_entry: None,
        merged_strings: Vec::new(),
        identity: b"Linker: test".to_vec(),
        comment_part: 0,
        header_info: HeaderInfo { num_output_sections_with_content: 3, num_active_segments: 1 },
        strings_offset_start: 0,
    }
}

fn internal_buffers() -> Buffers {
    let mut b = buffers(vec![12]);
    b.file_headers = Window::new(0x40 + 0x38 + 3 * 0x40);
    b.shstrtab = Window::new(17);
    b.eh_frame_hdr = Window::new(12);
    b
}

fn resolved(name: &str, res: Resolution) -> GlobalSymbol {
    GlobalSymbol {
        name: name.as_bytes().to_vec(),
        file_id: 1,
        resolution: Some(SymbolResolution::Resolved(res)),
    }
}

#[test]
fn empty_static_executable() {
    let l = layout(false);
    let out = object(text(vec![0xc3], 1, Vec::new())).write(buffers(vec![1]), &l).unwrap();
    assert_eq!(out.regular[0].data, vec![0xc3]);
    let out = internal().write(internal_buffers(), &l).unwrap();
    let headers = &out.file_headers.data;
    assert_eq!(headers.len(), 0x40 + 0x38 + 3 * 0x40);
    assert_eq!(&headers[0..4], &[0x7f, b'E', b'L', b'F']);
    assert_eq!(&headers[16..18], &[2, 0]);
    assert_eq!(&headers[18..20], &[0x3e, 0]);
    assert_eq!(&headers[24..32], &0x40_3000u64.to_le_bytes());
    assert_eq!(&headers[56..58], &[1, 0]);
    assert_eq!(&headers[60..62], &[3, 0]);
    assert_eq!(&headers[62..64], &[2, 0]);
    assert_eq!(&headers[0x40..0x44], &[1, 0, 0, 0]);
    assert_eq!(out.shstrtab.data, b"\0.text\0.shstrtab\0".to_vec());
    assert_eq!(out.regular[0].data, b"Linker: test".to_vec());
    assert!(out.dynamic.data.is_empty());
    assert_eq!(out.eh_frame_hdr.data.len(), 12);
}

#[test]
fn section_header_count_must_match_the_header() {
    let l = layout(false);
    let mut i = internal();
    i.header_info.num_output_sections_with_content = 4;
    let mut b = internal_buffers();
    b.file_headers = Window::new(0x40 + 0x38 + 4 * 0x40);
    assert_eq!(i.write(b, &l).err(), Some(EmitError::SectionHeaderCount));
    let mut b = internal_buffers();
    b.file_headers = Window::new(0x40 + 0x38 + 3 * 0x40 - 1);
    assert_eq!(internal().write(b, &l).err(), Some(EmitError::HeadersTooSmall));
}

#[test]
fn unused_program_header_slots_stay_zero() {
    let l = layout(false);
    let mut i = internal();
    i.header_info.num_active_segments = 2;
    let mut b = internal_buffers();
    b.file_headers = Window::new(0x40 + 2 * 0x38 + 3 * 0x40);
    let out = i.write(b, &l).unwrap();
    let headers = &out.file_headers.data;
    assert_eq!(&headers[0x40 + 0x38..0x40 + 0x70], &[0u8; 0x38]);
    assert_eq!(&headers[40..48], &(0x40u64 + 0x70).to_le_bytes());
    let mut i = internal();
    i.header_info.num_active_segments = 0;
    let mut b = internal_buffers();
    b.file_headers = Window::new(0x40 + 3 * 0x40);
    assert_eq!(i.write(b, &l).err(), Some(EmitError::ProgramHeaderSlots));
}

#[test]
fn internal_got_entries() {
    let mut l = layout(false);
    l.symbols.push(resolved(
        "_end",
        Resolution {
            address: 0x40_4000,
            got_address: Some(0x40_5018),
            plt_address: None,
            kind: TargetResolutionKind::Got,
        },
    ));
    let mut i = internal();
    i.undefined_symbol_resolution = Resolution {
        address: 0,
        got_address: Some(0x40_5000),
        plt_address: Some(0x40_6000),
        kind: TargetResolutionKind::Plt,
    };
    i.tlsld_got_entry = Some(0x40_5008);
    i.defined.push(DefinedSymbol { symbol_id: 0, section_id: 11 });
    let mut b = internal_buffers();
    b.got = Window::new(32);
    let out = i.write(b, &l).unwrap();
    let mut expected = Vec::new();
    for value in [0u64, 1, 0, 0x40_4000] {
        expected.extend_from_slice(&value.to_le_bytes());
    }
    assert_eq!(out.got.data, expected);
    assert!(out.plt.data.is_empty());
    let mut b = internal_buffers();
    b.got = Window::new(40);
    assert_eq!(i.write(b, &l).err(), Some(EmitError::UnusedPltGot));
    let mut b = internal_buffers();
    b.got = Window::new(7);
    let failure = i.write(b, &l).err().unwrap();
    assert_eq!(failure, EmitError::GotTooSmall);
    assert!(failure.message().contains("enough space in GOT"));
}

#[test]
fn internal_symbols_merged_strings_and_dynamic_table() {
    let mut l = layout(true);
    l.args.strip_all = false;
    l.symbols.push(resolved("_end", plain(0x40_4000)));
    l.symbols.push(resolved("__ehdr_start", plain(0x40_0000)));
    l.symbols.push(GlobalSymbol { name: b"gone".to_vec(), file_id: 0, resolution: None });
    let mut i = internal();
    i.defined.push(DefinedSymbol { symbol_id: 0, section_id: 13 });
    i.defined.push(DefinedSymbol { symbol_id: 1, section_id: 0 });
    i.defined.push(DefinedSymbol { symbol_id: 2, section_id: 13 });
    i.merged_strings.push(MergedStrings {
        part: 1,
        len: 6,
        strings: vec![b"ab\0".to_vec(), b"cd\0".to_vec()],
    });
    i.merged_strings.push(MergedStrings { part: 9, len: 0, strings: Vec::new() });
    let mut b = internal_buffers();
    b.regular.push(Window::new(6));
    b.symtab_locals = Window::new(24);
    b.symtab_globals = Window::new(24);
    b.symtab_strings = Window::new(6);
    b.dynamic = Window::new(18 * 16);
    let out = i.write(b, &l).unwrap();
    assert_eq!(out.symtab_locals.data, vec![0u8; 24]);
    let mut global = 1u32.to_le_bytes().to_vec();
    global.extend_from_slice(&[0x10, 0, 1, 0]);
    global.extend_from_slice(&0x40_4000u64.to_le_bytes());
    global.extend_from_slice(&0u64.to_le_bytes());
    assert_eq!(out.symtab_globals.data, global);
    assert_eq!(out.symtab_strings.data, b"\0_end\0".to_vec());
    assert_eq!(out.regular[1].data, b"ab\0cd\0".to_vec());
    assert_eq!(out.dynamic.data.len(), 18 * 16);
    assert_eq!(&out.dynamic.data[17 * 16..], &[0u8; 16]);
    assert_eq!(&out.file_headers.data[16..18], &[3, 0]);
    i.defined.push(DefinedSymbol { symbol_id: 0, section_id: 4 });
    let mut b = internal_buffers();
    b.regular.push(Window::new(6));
    b.symtab_locals = Window::new(24);
    b.symtab_globals = Window::new(48);
    b.symtab_strings = Window::new(11);
    b.dynamic = Window::new(18 * 16);
    assert_eq!(i.write(b, &l).err(), Some(EmitError::SymbolInUnemittedSection));
}

#[test]
fn section_is_padded_to_its_capacity() {
    let l = layout(false);
    let out = object(text(vec![0xc3], 4, Vec::new())).write(buffers(vec![4]), &l).unwrap();
    assert_eq!(out.regular[0].data, vec![0xc3, 0, 0, 0]);
    let large = object(text(vec![0xc3], 4, Vec::new())).write(buffers(vec![6]), &l);
    assert_eq!(large.err(), Some(EmitError::UnusedSectionSpace));
    let short = object(text(vec![0xc3], 4, Vec::new())).write(buffers(vec![3]), &l);
    assert_eq!(short.err(), Some(EmitError::SectionTooSmall));
    let wrong = object(text(vec![0xc3, 0x90], 1, Vec::new())).write(buffers(vec![3]), &l);
    assert_eq!(wrong.err(), Some(EmitError::SectionTooSmall));
    let mut elsewhere = text(vec![0xc3], 1, Vec::new());
    elsewhere.part = 1;
    assert_eq!(object(elsewhere).write(buffers(vec![3]), &l).err(), Some(EmitError::BadIndex));
}

#[test]
fn relocation_after_a_tls_rewrite_is_skipped() {
    let mut l = layout(false);
    l.symbols.push(resolved("tls_var", plain(l.tls_end - 0x40)));
    l.symbols.push(resolved("__tls_get_addr", plain(0x40_3100)));
    let data = vec![
        0x66, 0x48, 0x8d, 0x3d, 0, 0, 0, 0, 0x66, 0x66, 0x48, 0xe8, 0, 0, 0, 0, 0xe8, 0, 0, 0, 0,
    ];
    let relocations = vec![
        Relocation { offset: 4, r_type: 19, addend: (-4i64) as u64, target: RelocationTarget::Symbol(0) },
        Relocation { offset: 12, r_type: 4, addend: (-4i64) as u64, target: RelocationTarget::Symbol(1) },
        Relocation { offset: 17, r_type: 4, addend: (-4i64) as u64, target: RelocationTarget::Symbol(1) },
        Relocation { offset: 17, r_type: 4, addend: 0, target: RelocationTarget::Symbol(2) },
    ];
    let mut o = object(text(data, 21, relocations));
    o.local_symbol_resolutions = vec![
        LocalSymbolResolution::Global(0),
        LocalSymbolResolution::Global(1),
        LocalSymbolResolution::TlsGetAddr,
    ];
    let out = o.write(buffers(vec![21]), &l).unwrap();
    let bytes = &out.regular[0].data;
    assert_eq!(&bytes[0..12], &[0x64, 0x48, 0x8b, 0x04, 0x25, 0, 0, 0, 0, 0x48, 0x8d, 0x80]);
    assert_eq!(&bytes[12..16], &0xffff_ffc0u32.to_le_bytes());
    assert_eq!(bytes[16], 0xe8);
    assert_eq!(&bytes[17..21], &(0x40_3100u32 - 4 - 0x40_3011).to_le_bytes());
}

#[test]
fn what_relocations_refer_to() {
    let mut l = layout(false);
    l.symbols.push(resolved("f", plain(0x40_3100)));
    l.symbols.push(GlobalSymbol { name: b"u".to_vec(), file_id: 1, resolution: None });
    l.symbols.push(GlobalSymbol {
        name: b"d".to_vec(),
        file_id: 1,
        resolution: Some(SymbolResolution::Dynamic),
    });
    l.undefined_symbol_resolution = plain(0x77);
    l.merged_string_start_addresses[12] = 0x40_9000;
    let mut o = object(text(vec![0xc3], 1, Vec::new()));
    o.section_resolutions.push(None);
    o.symbols = vec![InputSymbol {
        name: b"local".to_vec(),
        address: 0x20,
        size: 0,
        is_local: true,
        st_info: 0,
        st_other: 0,
        placement: SymbolPlacement::Section(0),
        global_id: None,
        should_copy: true,
    }];
    o.local_symbol_resolutions = vec![
        LocalSymbolResolution::LocalSection(0),
        LocalSymbolResolution::Global(0),
        LocalSymbolResolution::Global(1),
        LocalSymbolResolution::WeakRefToGlobal(1),
        LocalSymbolResolution::UnresolvedWeak,
        LocalSymbolResolution::TlsGetAddr,
        LocalSymbolResolution::UndefinedSymbol,
        LocalSymbolResolution::Null,
        LocalSymbolResolution::MergedString { symbol_id: None, output_section_id: 12, offset: 5 },
        LocalSymbolResolution::MergedString { symbol_id: Some(0), output_section_id: 12, offset: 5 },
        LocalSymbolResolution::MergedString { symbol_id: Some(1), output_section_id: 12, offset: 5 },
        LocalSymbolResolution::Global(2),
        LocalSymbolResolution::LocalSection(1),
        LocalSymbolResolution::LocalSection(0),
    ];
    let to = |target: RelocationTarget| {
        o.get_resolution(&Relocation { offset: 0, r_type: 2, addend: 0, target }, &l)
    };
    let symbol = |i: usize| to(RelocationTarget::Symbol(i));
    assert_eq!(symbol(0), Ok(Some(plain(0x40_3020))));
    assert_eq!(symbol(1), Ok(Some(plain(0x40_3100))));
    assert_eq!(symbol(2), Err(EmitError::MissingResolution));
    assert_eq!(symbol(3), Ok(Some(plain(0x77))));
    assert_eq!(symbol(4), Ok(Some(plain(0x77))));
    assert_eq!(symbol(5), Ok(None));
    assert_eq!(symbol(6), Err(EmitError::UndefinedSymbol));
    assert_eq!(symbol(7), Err(EmitError::NullSymbol));
    assert_eq!(symbol(8), Ok(Some(plain(0x40_9005))));
    assert_eq!(symbol(9), Ok(Some(plain(0x40_3100))));
    assert_eq!(symbol(10), Err(EmitError::MissingResolution));
    assert_eq!(symbol(11), Err(EmitError::Unimplemented));
    assert_eq!(symbol(12), Err(EmitError::UnresolvedSection));
    assert_eq!(symbol(13), Err(EmitError::BadIndex));
    assert_eq!(symbol(14), Err(EmitError::BadIndex));
    assert_eq!(to(RelocationTarget::Section(0)), Ok(Some(plain(0x40_3000))));
    assert_eq!(to(RelocationTarget::Section(1)), Err(EmitError::UnresolvedSection));
    assert_eq!(to(RelocationTarget::Absolute), Err(EmitError::UnsupportedRelocation));
}

#[test]
fn object_got_plt_and_symbols() {
    let mut l = layout(true);
    l.args.strip_all = false;
    l.symbols.push(resolved(
        "ifunc",
        Resolution {
            address: 0x40_3000,
            got_address: Some(0x4000),
            plt_address: Some(0x2000),
            kind: TargetResolutionKind::IFunc,
        },
    ));
    l.symbols.push(resolved("common", plain(0x40_8000)));
    l.sections[11].output_index = Some(3);
    let mut section = text(vec![0xc3, 0, 0, 0, 0, 0, 0, 0, 0], 9, Vec::new());
    section.relocations.push(Relocation {
        offset: 1,
        r_type: 1,
        addend: 0,
        target: RelocationTarget::Section(0),
    });
    section.needs_got_entry = true;
    let mut o = object(section);
    o.section_resolutions[0] = Some(Resolution {
        address: 0x40_3000,
        got_address: Some(0x4008),
        plt_address: None,
        kind: TargetResolutionKind::Got,
    });
    o.plt_relocations.push(PltRelocation { resolver: 0x40_3000, got_address: 0x4000 });
    o.loaded_symbols = vec![0, 1];
    let symbol = |name: &str, placement: SymbolPlacement, global_id: Option<usize>| InputSymbol {
        name: name.as_bytes().to_vec(),
        address: 2,
        size: 1,
        is_local: global_id.is_none(),
        st_info: 0x12,
        st_other: 0,
        placement,
        global_id,
        should_copy: true,
    };
    o.symbols = vec![
        symbol("start", SymbolPlacement::Section(0), None),
        symbol("common", SymbolPlacement::Common, Some(1)),
        symbol("abs", SymbolPlacement::Other, None),
    ];
    let mut b = buffers(vec![9]);
    b.got = Window::new(16);
    b.plt = Window::new(16);
    b.rela_plt = Window::new(24);
    b.rela_dyn = Window::new(48);
    b.symtab_locals = Window::new(24);
    b.symtab_globals = Window::new(24);
    b.symtab_strings = Window::new(13);
    let out = o.write(b, &l).unwrap();
    assert_eq!(out.regular[0].data, vec![0xc3, 0, 0, 0, 0, 0, 0, 0, 0]);
    assert_eq!(out.got.data, vec![0u8; 16]);
    assert_eq!(&out.plt.data[7..11], &(0x4000u32 - 0x200b).to_le_bytes());
    let rela = |address: u64, info: u64, addend: u64| {
        let mut bytes = address.to_le_bytes().to_vec();
        bytes.extend_from_slice(&info.to_le_bytes());
        bytes.extend_from_slice(&addend.to_le_bytes());
        bytes
    };
    assert_eq!(out.rela_plt.data, rela(0x4000, 37, 0x40_3000));
    let mut dynamic = rela(0x40_3001, 8, 0x40_3000);
    dynamic.extend(rela(0x4008, 8, 0x40_3000));
    assert_eq!(out.rela_dyn.data, dynamic);
    assert_eq!(out.symtab_strings.data, b"start\0common\0".to_vec());
    assert_eq!(&out.symtab_locals.data[0..8], &[1, 0, 0, 0, 0x12, 0, 1, 0]);
    assert_eq!(&out.symtab_locals.data[8..16], &0x40_3002u64.to_le_bytes());
    assert_eq!(&out.symtab_globals.data[0..4], &7u32.to_le_bytes());
    assert_eq!(&out.symtab_globals.data[8..16], &0x40_8002u64.to_le_bytes());
}

#[test]
fn every_window_must_be_used_up() {
    let l = layout(true);
    let plain_object = || object(text(vec![0xc3], 1, Vec::new()));
    let mut b = buffers(vec![1]);
    b.got = Window::new(8);
    assert_eq!(plain_object().write(b, &l).err(), Some(EmitError::UnusedPltGot));
    let mut b = buffers(vec![1]);
    b.plt = Window::new(16);
    assert_eq!(plain_object().write(b, &l).err(), Some(EmitError::UnusedPltGot));
    let mut b = buffers(vec![1]);
    b.rela_dyn = Window::new(24);
    assert_eq!(plain_object().write(b, &l).err(), Some(EmitError::UnusedRelaDyn));
    let mut o = plain_object();
    o.plt_relocations.push(PltRelocation { resolver: 1, got_address: 2 });
    assert_eq!(o.write(buffers(vec![1]), &l).err(), Some(EmitError::RelaPltTooSmall));
    let mut unstripped = layout(false);
    unstripped.args.strip_all = false;
    let mut b = buffers(vec![1]);
    b.symtab_strings = Window::new(1);
    assert_eq!(plain_object().write(b, &unstripped).err(), Some(EmitError::UnusedSymtab));
    assert!(plain_object().write(buffers(vec![1]), &unstripped).is_ok());
}

#[test]
fn shared_objects_contribute_nothing() {
    let l = layout(false);
    let out = FileLayout::Dynamic.write(buffers(vec![3]), &l).unwrap();
    assert!(out.regular[0].data.is_empty());
    assert_eq!(out.regular[0].capacity, 3);
    let out = FileLayout::Object(object(text(vec![0xc3], 1, Vec::new())))
        .write(buffers(vec![1]), &l)
        .unwrap();
    assert_eq!(out.regular[0].data, vec![0xc3]);
    let out = FileLayout::Internal(internal()).write(internal_buffers(), &l).unwrap();
    assert_eq!(out.regular[0].data, b"Linker: test".to_vec());
}

#[test]
fn windows_are_taken_from_the_front() {
    let mut w = Window::new(6);
    assert_eq!(w.take_prefix(2), Some(0));
    assert!(w.emit(&vec![7, 8]));
    assert_eq!(w.remaining(), 2);
    assert_eq!(w.take_prefix(3), None);
    assert!(!w.emit(&vec![1, 2, 3]));
    assert_eq!(w.data, vec![0, 0, 7, 8]);
    w.patch(1, &vec![5, 6]);
    assert_eq!(w.data, vec![0, 5, 6, 8]);
    assert!(!w.is_exhausted());
    assert_eq!(w.take_prefix(2), Some(4));
    assert!(w.is_exhausted());
    assert_eq!(w.take_prefix(0), Some(6));
}

#[test]
fn little_endian_and_wrapping() {
    assert_eq!(le_bytes(0x0807_0605_0403_0201, 8), vec![1, 2, 3, 4, 5, 6, 7, 8]);
    assert_eq!(le_bytes(0x0807_0605_0403_0201, 3), vec![1, 2, 3]);
    assert_eq!(le_bytes(u64::MAX, 0), Vec::<u8>::new());
    assert_eq!(read_u32(&vec![9, 0x78, 0x56, 0x34, 0x12], 1), 0x1234_5678);
    assert_eq!(sub_wrapping(3, 5), u64::MAX - 1);
    assert_eq!(sub_wrapping(5, 3), 2);
    assert_eq!(add_wrapping(u64::MAX, 2), 1);
    assert_eq!(add_wrapping(u64::MAX - 1, 1), u64::MAX);
    let mut bytes = vec![1, 2, 3, 4];
    put_bytes(&mut bytes, 1, &vec![8, 9]);
    assert_eq!(bytes, vec![1, 8, 9, 4]);
    let mut rw = RelocationWriter::disabled();
    assert_eq!(rw.write_relocation(1, 2), Ok(()));
    assert_eq!(rw.validate_empty(), Ok(()));
}

#[test]
fn one_dynamic_relocation_per_absolute_address() {
    let mut l = layout(true);
    l.symbols.push(resolved("f", plain(0x40_3100)));
    l.symbols.push(resolved("null", plain(0)));
    let at = |offset: u64, r_type: u32, symbol: usize| Relocation {
        offset,
        r_type,
        addend: 0,
        target: RelocationTarget::Symbol(symbol),
    };
    let relocations = vec![at(0, 1, 0), at(8, 2, 0), at(12, 1, 1), at(20, 1, 0), at(28, 10, 0)];
    let mut o = object(text(vec![0xff; 32], 32, relocations));
    o.local_symbol_resolutions =
        vec![LocalSymbolResolution::Global(0), LocalSymbolResolution::Global(1)];
    let mut b = buffers(vec![32]);
    b.rela_dyn = Window::new(3 * 24);
    let out = o.write(b, &l).unwrap();
    assert_eq!(out.rela_dyn.data.len(), 3 * 24);
    let places: Vec<u64> = out
        .rela_dyn
        .data
        .chunks(24)
        .map(|entry| u64::from_le_bytes(entry[0..8].try_into().unwrap()))
        .collect();
    assert_eq!(places, vec![0x40_3000, 0x40_3014, 0x40_301c]);
    for entry in out.rela_dyn.data.chunks(24) {
        assert_eq!(&entry[8..16], &8u64.to_le_bytes());
        assert_eq!(&entry[16..24], &0x40_3100u64.to_le_bytes());
    }
    assert_eq!(&out.regular[0].data[0..8], &[0u8; 8]);
    assert_eq!(&out.regular[0].data[12..20], &[0u8; 8]);
    let mut b = buffers(vec![32]);
    b.rela_dyn = Window::new(4 * 24);
    assert_eq!(o.write(b, &l).err(), Some(EmitError::UnusedRelaDyn));
    let static_layout = {
        let mut l = layout(false);
        l.symbols.push(resolved("f", plain(0x40_3100)));
        l.symbols.push(resolved("null", plain(0)));
        l
    };
    let out = o.write(buffers(vec![32]), &static_layout).unwrap();
    assert!(out.rela_dyn.data.is_empty());
    assert_eq!(&out.regular[0].data[0..8], &0x40_3100u64.to_le_bytes());
}

#[test]
fn well_formed_layouts_and_windows() {
    let l = layout(false);
    assert!(l.is_well_formed());
    let mut short = layout(false);
    short.section_layouts.pop();
    assert!(!short.is_well_formed());
    let mut order = layout(false);
    order.section_order.push(15);
    assert!(!order.is_well_formed());
    let mut link = layout(false);
    link.sections[3].link = Some(15);
    assert!(!link.is_well_formed());
    link.sections[3].link = Some(14);
    assert!(link.is_well_formed());
    let mut part = layout(false);
    part.part_layouts.push(elf_emit::layout::PartLayout { section: 15, file_size: 0 });
    assert!(!part.is_well_formed());
    let mut b = buffers(vec![1, 2]);
    assert!(b.is_well_formed());
    b.regular[1] = Window { data: vec![1, 2, 3], capacity: 2 };
    assert!(!b.is_well_formed());
    b.regular[1] = Window { data: vec![1, 2], capacity: 2 };
    assert!(b.is_well_formed());
    b.got = Window { data: vec![1], capacity: 0 };
    assert!(!b.is_well_formed());
}

#[test]
fn object_with_unwind_records() {
    let l = layout(false);
    let mut data = Vec::new();
    data.extend_from_slice(&12u32.to_le_bytes());
    data.extend_from_slice(&0u32.to_le_bytes());
    data.extend_from_slice(&[0xc1; 8]);
    data.extend_from_slice(&20u32.to_le_bytes());
    data.extend_from_slice(&20u32.to_le_bytes());
    data.extend_from_slice(&[0xf1; 16]);
    data.extend_from_slice(&[0; 4]);
    let unwind = elf_emit::layout::EhFrameSection {
        data: data.clone(),
        relocations: vec![Relocation {
            offset: 24,
            r_type: 2,
            addend: 0,
            target: RelocationTarget::Section(0),
        }],
    };
    let mut o = object(text(vec![0xc3], 1, Vec::new()));
    o.sections.push(SectionSlot::Discard);
    o.sections.push(SectionSlot::EhFrameData(unwind));
    let mut b = buffers(vec![1]);
    b.eh_frame = Window::new(44);
    b.eh_frame_hdr = Window::new(8);
    let out = o.write(b, &l).unwrap();
    assert_eq!(out.regular[0].data, vec![0xc3]);
    assert_eq!(&out.eh_frame.data[0..24], &data[0..24]);
    assert_eq!(&out.eh_frame.data[24..28], &(0x40_3000u32 - 24).to_le_bytes());
    assert_eq!(&out.eh_frame.data[28..44], &data[28..44]);
    let mut row = 0x1e00i32.to_le_bytes().to_vec();
    row.extend_from_slice(&16i32.to_le_bytes());
    assert_eq!(out.eh_frame_hdr.data, row);
    let mut b = buffers(vec![1]);
    b.eh_frame = Window::new(43);
    b.eh_frame_hdr = Window::new(8);
    assert_eq!(o.write(b, &l).err(), Some(EmitError::EhFrameTooSmall));
}

#[test]
fn merged_strings_and_identity_need_room() {
    let l = layout(false);
    let mut i = internal();
    i.merged_strings.push(MergedStrings {
        part: 1,
        len: 6,
        strings: vec![b"ab\0".to_vec(), b"cd\0".to_vec()],
    });
    let mut b = internal_buffers();
    b.regular.push(Window::new(5));
    assert_eq!(i.write(b, &l).err(), Some(EmitError::SectionTooSmall));
    let mut b = internal_buffers();
    assert_eq!(i.write(b, &l).err(), Some(EmitError::BadIndex));
    b = internal_buffers();
    b.regular[0] = Window::new(11);
    assert_eq!(internal().write(b, &l).err(), Some(EmitError::SectionTooSmall));
    let mut same = internal();
    same.merged_strings.push(MergedStrings { part: 0, len: 3, strings: vec![b"ab\0".to_vec()] });
    let mut b = internal_buffers();
    b.regular[0] = Window::new(15);
    let out = same.write(b, &l).unwrap();
    assert_eq!(out.regular[0].data, b"ab\0Linker: test".to_vec());
}

#[test]
fn every_error_has_its_own_message() {
    let all = [
        EmitError::GotTooSmall,
        EmitError::PltTooSmall,
        EmitError::PltTooFarFromGot,
        EmitError::TlsAddressOutsideSegment,
        EmitError::UnusedPltGot,
        EmitError::RelaPltTooSmall,
        EmitError::RelaDynTooSmall,
        EmitError::UnusedRelaDyn,
        EmitError::SymtabTooSmall,
        EmitError::UnusedSymtab,
        EmitError::UnusedRelaPlt,
        EmitError::UnusedEhFrame,
        EmitError::UnusedEhFrameHdr,
        EmitError::UnusedSectionSpace,
        EmitError::UnusedHeaders,
        EmitError::UnusedSectionNames,
        EmitError::UnusedDynamic,
        EmitError::SymbolInUnemittedSection,
        EmitError::StringOffsetOverflow,
        EmitError::UnsupportedRelocation,
        EmitError::MissingGotAddress,
        EmitError::MissingPltAddress,
        EmitError::MissingTlsModuleSlot,
        EmitError::Unimplemented,
        EmitError::RelocationOutOfBounds,
        EmitError::PrefixTooShort,
        EmitError::PrefixMismatch,
        EmitError::UndefinedSymbol,
        EmitError::NullSymbol,
        EmitError::MissingResolution,
        EmitError::UnresolvedSection,
        EmitError::BadIndex,
        EmitError::InvalidEhFrame,
        EmitError::BadPcBegin,
        EmitError::CiePointerTooLarge,
        EmitError::DanglingCie,
        EmitError::FramePtrOverflow,
        EmitError::FrameInfoPtrOverflow,
        EmitError::EhFrameTooSmall,
        EmitError::EhFrameHdrTooSmall,
        EmitError::EhFrameTooFar,
        EmitError::EntryCountOverflow,
        EmitError::SectionTooSmall,
        EmitError::SectionsOverlap,
        EmitError::PartsExceedSection,
        EmitError::HeadersTooSmall,
        EmitError::ProgramHeaderSlots,
        EmitError::SectionHeaderCount,
        EmitError::DynamicEntryCount,
        EmitError::MalformedEhFrameHdr,
        EmitError::MissingSectionNames,
        EmitError::FieldOverflow,
    ];
    for (i, a) in all.iter().enumerate() {
        assert!(!a.message().is_empty());
        for b in &all[i + 1..] {
            assert_ne!(a.message(), b.message());
        }
    }
    assert_eq!(EmitError::GotTooSmall.message(), "Didn't allocate enough space in GOT");
    assert_eq!(EmitError::RelocationOutOfBounds.message(), "Relocation outside of bounds of section");
}

#[test]
fn room_left_over_is_an_error_for_an_object() {
    let l = layout(false);
    let o = || object(text(vec![0xc3], 1, Vec::new()));
    let with = |change: &dyn Fn(&mut Buffers)| {
        let mut b = buffers(vec![1]);
        change(&mut b);
        o().write(b, &l).err()
    };
    assert_eq!(with(&|_| {}), None);
    assert_eq!(with(&|b| b.rela_plt = Window::new(24)), Some(EmitError::UnusedRelaPlt));
    assert_eq!(with(&|b| b.eh_frame = Window::new(1)), Some(EmitError::UnusedEhFrame));
    assert_eq!(with(&|b| b.eh_frame_hdr = Window::new(8)), Some(EmitError::UnusedEhFrameHdr));
    assert_eq!(with(&|b| b.regular.push(Window::new(1))), Some(EmitError::UnusedSectionSpace));
    assert_eq!(with(&|b| b.symtab_locals = Window::new(24)), Some(EmitError::UnusedSymtab));
    assert_eq!(with(&|b| b.file_headers = Window::new(1)), Some(EmitError::UnusedHeaders));
    assert_eq!(with(&|b| b.shstrtab = Window::new(1)), Some(EmitError::UnusedSectionNames));
    assert_eq!(with(&|b| b.dynamic = Window::new(16)), Some(EmitError::UnusedDynamic));
    assert_eq!(
        with(&|b| {
            b.dynamic = Window::new(16);
            b.rela_plt = Window::new(24);
        }),
        Some(EmitError::UnusedRelaPlt)
    );
    let mut relocated = o();
    relocated.plt_relocations.push(PltRelocation { resolver: 1, got_address: 2 });
    let mut b = buffers(vec![1]);
    b.rela_plt = Window::new(48);
    assert_eq!(relocated.write(b, &l).err(), Some(EmitError::UnusedRelaPlt));
    let mut b = buffers(vec![1]);
    b.rela_plt = Window::new(24);
    let out = relocated.write(b, &l).unwrap();
    assert_eq!(out.rela_plt.data.len(), 24);
}

#[test]
fn room_left_over_is_an_error_for_the_linker_itself() {
    let l = layout(false);
    let with = |change: &dyn Fn(&mut Buffers)| {
        let mut b = internal_buffers();
        change(&mut b);
        internal().write(b, &l).err()
    };
    assert_eq!(with(&|_| {}), None);
    assert_eq!(with(&|b| b.rela_plt = Window::new(24)), Some(EmitError::UnusedRelaPlt));
    assert_eq!(with(&|b| b.eh_frame = Window::new(4)), Some(EmitError::UnusedEhFrame));
    assert_eq!(with(&|b| b.eh_frame_hdr = Window::new(13)), Some(EmitError::UnusedEhFrameHdr));
    assert_eq!(with(&|b| b.regular[0] = Window::new(13)), Some(EmitError::UnusedSectionSpace));
    assert_eq!(with(&|b| b.regular.push(Window::new(2))), Some(EmitError::UnusedSectionSpace));
    assert_eq!(with(&|b| b.symtab_strings = Window::new(1)), Some(EmitError::UnusedSymtab));
    assert_eq!(
        with(&|b| b.file_headers = Window::new(0x40 + 0x38 + 3 * 0x40 + 1)),
        Some(EmitError::UnusedHeaders)
    );
    assert_eq!(with(&|b| b.shstrtab = Window::new(18)), Some(EmitError::UnusedSectionNames));
    assert_eq!(with(&|b| b.dynamic = Window::new(18 * 16)), Some(EmitError::UnusedDynamic));
    assert_eq!(with(&|b| b.rela_dyn = Window::new(24)), Some(EmitError::UnusedRelaDyn));
}

#[test]
fn failed_walk_copies_nothing_of_the_failing_record() {
    let l = layout(false);
    let cie = |fill: u8| {
        let mut record = 12u32.to_le_bytes().to_vec();
        record.extend_from_slice(&0u32.to_le_bytes());
        record.extend_from_slice(&[fill; 8]);
        record
    };
    let fde = |cie_id: u32| {
        let mut record = 20u32.to_le_bytes().to_vec();
        record.extend_from_slice(&cie_id.to_le_bytes());
        record.extend_from_slice(&[0xf1; 16]);
        record
    };
    let pc_begin =
        Relocation { offset: 24, r_type: 2, addend: 0, target: RelocationTarget::Section(0) };
    let run = |data: Vec<u8>| {
        let section = elf_emit::layout::EhFrameSection { data, relocations: vec![pc_begin] };
        let mut eh_frame = Window::new(64);
        let mut eh_frame_hdr = Window::new(8);
        let mut rw = RelocationWriter::disabled();
        let o = object(text(vec![0xc3], 1, Vec::new()));
        let r = o.write_eh_frame_data(&section, &mut eh_frame, &mut eh_frame_hdr, &l, &mut rw);
        (r, eh_frame.data, eh_frame_hdr.data)
    };
    let mut truncated = cie(0xc1);
    truncated.extend_from_slice(&fde(20)[..20]);
    let (r, eh_frame, eh_frame_hdr) = run(truncated);
    assert_eq!(r, Err(EmitError::InvalidEhFrame));
    assert_eq!(eh_frame, cie(0xc1));
    assert!(eh_frame_hdr.is_empty());
    let mut dangling = cie(0xc1);
    dangling.extend(fde(19));
    let (r, eh_frame, eh_frame_hdr) = run(dangling);
    assert_eq!(r, Err(EmitError::DanglingCie));
    assert_eq!(eh_frame, cie(0xc1));
    assert!(eh_frame_hdr.is_empty());
    let mut beyond = cie(0xc1);
    beyond.extend(fde(21));
    let (r, eh_frame, eh_frame_hdr) = run(beyond);
    assert_eq!(r, Err(EmitError::CiePointerTooLarge));
    assert_eq!(eh_frame, cie(0xc1));
    assert!(eh_frame_hdr.is_empty());
}
