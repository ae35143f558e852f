//! The on-disk records of an ELF64 little-endian x86-64 file, each with the
//! exact bytes that stand for it.

use vstd::prelude::*;
use crate::bytes::{le_seq, push_le};

verus! {

pub const FILE_HEADER_SIZE: u16 = 0x40;

pub const PROGRAM_HEADER_SIZE: u16 = 0x38;

pub const SECTION_HEADER_SIZE: u16 = 0x40;

/// The program headers follow the file header directly.
pub const PHEADER_OFFSET: u64 = 0x40;

pub const PLT_ENTRY_SIZE: usize = 16;

pub const GOT_ENTRY_SIZE: usize = 8;

pub const RELA_ENTRY_SIZE: usize = 24;

pub const SYMTAB_ENTRY_SIZE: usize = 24;

pub const DYNAMIC_ENTRY_SIZE: usize = 16;

pub const EH_FRAME_HDR_SIZE: usize = 12;

pub const EH_FRAME_HDR_ENTRY_SIZE: usize = 8;

/// Length of the `length` and `cie_id` fields that start every `.eh_frame` record.
pub const EH_FRAME_PREFIX_LEN: usize = 8;

/// Where in an FDE the address of the function it describes is stored.
pub const FDE_PC_BEGIN_OFFSET: usize = 8;

/// Where in the `.eh_frame_hdr` header the pointer to `.eh_frame` is stored.
pub const FRAME_POINTER_FIELD_OFFSET: u64 = 4;

/// The TLS module index of the executable itself.
pub const CURRENT_EXE_TLS_MOD: u64 = 1;

pub const PAGE: u64 = 0x1000;

pub const NUM_DYNAMIC_ENTRIES: usize = 18;

pub const R_X86_64_RELATIVE: u64 = 8;

pub const R_X86_64_IRELATIVE: u64 = 37;

pub const FILE_TYPE_EXECUTABLE: u16 = 2;

pub const FILE_TYPE_SHARED_OBJECT: u16 = 3;

pub const MACHINE_X86_64: u16 = 0x3e;

pub const SEGMENT_TYPE_LOAD: u32 = 1;

pub const SHT_NULL: u32 = 0;

/// The `info` field of a global symbol of no type: binding 1 in its high half.
pub const GLOBAL_SYMBOL_INFO: u8 = 0x10;

pub const DT_NULL: u64 = 0;

pub const DT_STRTAB: u64 = 5;

pub const DT_SYMTAB: u64 = 6;

pub const DT_RELA: u64 = 7;

pub const DT_RELASZ: u64 = 8;

pub const DT_RELAENT: u64 = 9;

pub const DT_STRSZ: u64 = 10;

pub const DT_SYMENT: u64 = 11;

pub const DT_INIT: u64 = 12;

pub const DT_FINI: u64 = 13;

pub const DT_DEBUG: u64 = 21;

pub const DT_INIT_ARRAY: u64 = 25;

pub const DT_FINI_ARRAY: u64 = 26;

pub const DT_INIT_ARRAYSZ: u64 = 27;

pub const DT_FINI_ARRAYSZ: u64 = 28;

pub const DT_FLAGS: u64 = 30;

pub const DT_RELACOUNT: u64 = 0x6fff_fff9;

pub const DT_FLAGS_1: u64 = 0x6fff_fffb;

pub const DF_BIND_NOW: u64 = 0x8;

/// `DF_1_PIE | DF_1_NOW`.
pub const DF_1_PIE_NOW: u64 = 0x0800_0001;

/// `DW_EH_PE_sdata4 | DW_EH_PE_datarel`.
pub const EH_TABLE_ENCODING: u8 = 0x3b;

/// `DW_EH_PE_sdata4 | DW_EH_PE_pcrel`.
pub const EH_FRAME_POINTER_ENCODING: u8 = 0x1b;

/// `DW_EH_PE_udata4 | DW_EH_PE_absptr`.
pub const EH_COUNT_ENCODING: u8 = 0x03;

/// The trampoline of one PLT entry: `endbr64`, `bnd jmp *rel32(%rip)`, `nopl`.
/// The `rel32` at bytes 7 to 10 is filled in per entry.
pub open spec fn plt_template() -> Seq<u8> {
    seq![
        0xf3u8, 0x0f, 0x1e, 0xfa,
        0xf2, 0xff, 0x25, 0x00, 0x00, 0x00, 0x00,
        0x0f, 0x1f, 0x44, 0x00, 0x00,
    ]
}

/// The trampoline template as bytes.
pub fn plt_entry_template() -> (r: Vec<u8>)
    ensures
        r@ == plt_template(),
{
    let r: Vec<u8> = vec![
        0xf3u8, 0x0f, 0x1e, 0xfa,
        0xf2, 0xff, 0x25, 0x00, 0x00, 0x00, 0x00,
        0x0f, 0x1f, 0x44, 0x00, 0x00,
    ];
    assert(r@ =~= plt_template());
    r
}

/// A 32-bit signed number as the unsigned number with the same bits.
pub open spec fn twos32(x: i32) -> u64 {
    if x >= 0 {
        x as u64
    } else {
        (x + 0x1_0000_0000) as u64
    }
}

/// The unsigned number with the same bits as `x`.
pub fn i32_bits(x: i32) -> (r: u64)
    ensures
        r == twos32(x),
{
    if x >= 0 {
        x as u64
    } else {
        let wide: i64 = x as i64 + 0x1_0000_0000;
        wide as u64
    }
}

/// One relocation with an explicit addend.
#[derive(Clone, Copy, Debug, PartialEq, Eq, Structural)]
pub struct Rela {
    pub address: u64,
    pub info: u64,
    pub addend: u64,
}

impl Rela {
    /// The bytes of the record: its fields in order, each in little-endian.
    pub open spec fn encoding(self) -> Seq<u8> {
        le_seq(self.address, 8) + le_seq(self.info, 8) + le_seq(self.addend, 8)
    }

    /// The record as bytes.
    pub fn encode(&self) -> (r: Vec<u8>)
        ensures
            r@ == self.encoding(),
            r@.len() == RELA_ENTRY_SIZE,
    {
        let mut r: Vec<u8> = Vec::new();
        push_le(&mut r, self.address, 8);
        push_le(&mut r, self.info, 8);
        push_le(&mut r, self.addend, 8);
        assert(r@ =~= self.encoding());
        r
    }
}

/// One symbol table entry.
#[derive(Clone, Copy, Debug, PartialEq, Eq, Structural)]
pub struct SymtabEntry {
    pub name: u32,
    pub info: u8,
    pub other: u8,
    pub shndx: u16,
    pub value: u64,
    pub size: u64,
}

impl SymtabEntry {
    /// The bytes of the record: its fields in order, each in little-endian.
    pub open spec fn encoding(self) -> Seq<u8> {
        le_seq(self.name as u64, 4) + le_seq(self.info as u64, 1) + le_seq(self.other as u64, 1)
            + le_seq(self.shndx as u64, 2) + le_seq(self.value, 8) + le_seq(self.size, 8)
    }

    /// The record as bytes.
    pub fn encode(&self) -> (r: Vec<u8>)
        ensures
            r@ == self.encoding(),
            r@.len() == SYMTAB_ENTRY_SIZE,
    {
        let mut r: Vec<u8> = Vec::new();
        push_le(&mut r, self.name as u64, 4);
        push_le(&mut r, self.info as u64, 1);
        push_le(&mut r, self.other as u64, 1);
        push_le(&mut r, self.shndx as u64, 2);
        push_le(&mut r, self.value, 8);
        push_le(&mut r, self.size, 8);
        assert(r@ =~= self.encoding());
        r
    }
}

/// One entry of the dynamic table.
#[derive(Clone, Copy, Debug, PartialEq, Eq, Structural)]
pub struct DynamicEntry {
    pub tag: u64,
    pub value: u64,
}

impl DynamicEntry {
    /// The bytes of the record: its fields in order, each in little-endian.
    pub open spec fn encoding(self) -> Seq<u8> {
        le_seq(self.tag, 8) + le_seq(self.value, 8)
    }

    /// The record as bytes.
    pub fn encode(&self) -> (r: Vec<u8>)
        ensures
            r@ == self.encoding(),
            r@.len() == DYNAMIC_ENTRY_SIZE,
    {
        let mut r: Vec<u8> = Vec::new();
        push_le(&mut r, self.tag, 8);
        push_le(&mut r, self.value, 8);
        assert(r@ =~= self.encoding());
        r
    }
}

/// One program header.
#[derive(Clone, Copy, Debug, PartialEq, Eq, Structural)]
pub struct ProgramHeader {
    pub segment_type: u32,
    pub flags: u32,
    pub offset: u64,
    pub virtual_addr: u64,
    pub physical_addr: u64,
    pub file_size: u64,
    pub mem_size: u64,
    pub alignment: u64,
}

impl ProgramHeader {
    /// The bytes of the record: its fields in order, each in little-endian.
    pub open spec fn encoding(self) -> Seq<u8> {
        le_seq(self.segment_type as u64, 4) + le_seq(self.flags as u64, 4) + le_seq(self.offset, 8)
            + le_seq(self.virtual_addr, 8) + le_seq(self.physical_addr, 8) + le_seq(
            self.file_size,
            8,
        ) + le_seq(self.mem_size, 8) + le_seq(self.alignment, 8)
    }

    /// The record as bytes.
    pub fn encode(&self) -> (r: Vec<u8>)
        ensures
            r@ == self.encoding(),
            r@.len() == PROGRAM_HEADER_SIZE,
    {
        let mut r: Vec<u8> = Vec::new();
        push_le(&mut r, self.segment_type as u64, 4);
        push_le(&mut r, self.flags as u64, 4);
        push_le(&mut r, self.offset, 8);
        push_le(&mut r, self.virtual_addr, 8);
        push_le(&mut r, self.physical_addr, 8);
        push_le(&mut r, self.file_size, 8);
        push_le(&mut r, self.mem_size, 8);
        push_le(&mut r, self.alignment, 8);
        assert(r@ =~= self.encoding());
        r
    }
}

/// One section header.
#[derive(Clone, Copy, Debug, PartialEq, Eq, Structural)]
pub struct SectionHeader {
    pub name: u32,
    pub ty: u32,
    pub flags: u64,
    pub address: u64,
    pub offset: u64,
    pub size: u64,
    pub link: u32,
    pub info: u32,
    pub alignment: u64,
    pub entsize: u64,
}

impl SectionHeader {
    /// The bytes of the record: its fields in order, each in little-endian.
    pub open spec fn encoding(self) -> Seq<u8> {
        le_seq(self.name as u64, 4) + le_seq(self.ty as u64, 4) + le_seq(self.flags, 8) + le_seq(
            self.address,
            8,
        ) + le_seq(self.offset, 8) + le_seq(self.size, 8) + le_seq(self.link as u64, 4) + le_seq(
            self.info as u64,
            4,
        ) + le_seq(self.alignment, 8) + le_seq(self.entsize, 8)
    }

    /// The record as bytes.
    pub fn encode(&self) -> (r: Vec<u8>)
        ensures
            r@ == self.encoding(),
            r@.len() == SECTION_HEADER_SIZE,
    {
        let mut r: Vec<u8> = Vec::new();
        push_le(&mut r, self.name as u64, 4);
        push_le(&mut r, self.ty as u64, 4);
        push_le(&mut r, self.flags, 8);
        push_le(&mut r, self.address, 8);
        push_le(&mut r, self.offset, 8);
        push_le(&mut r, self.size, 8);
        push_le(&mut r, self.link as u64, 4);
        push_le(&mut r, self.info as u64, 4);
        push_le(&mut r, self.alignment, 8);
        push_le(&mut r, self.entsize, 8);
        assert(r@ =~= self.encoding());
        r
    }
}

/// The ELF file header. The identification bytes other than the ones held
/// here are fixed: magic, 64-bit class, little-endian data, version 1.
#[derive(Clone, Copy, Debug, PartialEq, Eq, Structural)]
pub struct FileHeader {
    pub class: u8,
    pub data: u8,
    pub ei_version: u8,
    pub os_abi: u8,
    pub abi_version: u8,
    pub ty: u16,
    pub machine: u16,
    pub e_version: u32,
    pub entry_point: u64,
    pub program_header_offset: u64,
    pub section_header_offset: u64,
    pub flags: u32,
    pub ehsize: u16,
    pub program_header_entry_size: u16,
    pub program_header_num: u16,
    pub section_header_entry_size: u16,
    pub section_header_num: u16,
    pub section_names_index: u16,
}

/// The four magic bytes that start every ELF file.
pub open spec fn elf_magic() -> Seq<u8> {
    seq![0x7fu8, 0x45, 0x4c, 0x46]
}

impl FileHeader {
    /// The bytes of the record: its fields in order, each in little-endian.
    pub open spec fn encoding(self) -> Seq<u8> {
        elf_magic() + le_seq(self.class as u64, 1) + le_seq(self.data as u64, 1) + le_seq(
            self.ei_version as u64,
            1,
        ) + le_seq(self.os_abi as u64, 1) + le_seq(self.abi_version as u64, 1) + le_seq(0, 7)
            + le_seq(self.ty as u64, 2) + le_seq(self.machine as u64, 2) + le_seq(
            self.e_version as u64,
            4,
        ) + le_seq(self.entry_point, 8) + le_seq(self.program_header_offset, 8) + le_seq(
            self.section_header_offset,
            8,
        ) + le_seq(self.flags as u64, 4) + le_seq(self.ehsize as u64, 2) + le_seq(
            self.program_header_entry_size as u64,
            2,
        ) + le_seq(self.program_header_num as u64, 2) + le_seq(
            self.section_header_entry_size as u64,
            2,
        ) + le_seq(self.section_header_num as u64, 2) + le_seq(self.section_names_index as u64, 2)
    }

    /// The record as bytes.
    pub fn encode(&self) -> (r: Vec<u8>)
        ensures
            r@ == self.encoding(),
            r@.len() == FILE_HEADER_SIZE,
    {
        let mut r: Vec<u8> = vec![0x7fu8, 0x45, 0x4c, 0x46];
        assert(r@ =~= elf_magic());
        push_le(&mut r, self.class as u64, 1);
        push_le(&mut r, self.data as u64, 1);
        push_le(&mut r, self.ei_version as u64, 1);
        push_le(&mut r, self.os_abi as u64, 1);
        push_le(&mut r, self.abi_version as u64, 1);
        push_le(&mut r, 0, 7);
        push_le(&mut r, self.ty as u64, 2);
        push_le(&mut r, self.machine as u64, 2);
        push_le(&mut r, self.e_version as u64, 4);
        push_le(&mut r, self.entry_point, 8);
        push_le(&mut r, self.program_header_offset, 8);
        push_le(&mut r, self.section_header_offset, 8);
        push_le(&mut r, self.flags as u64, 4);
        push_le(&mut r, self.ehsize as u64, 2);
        push_le(&mut r, self.program_header_entry_size as u64, 2);
        push_le(&mut r, self.program_header_num as u64, 2);
        push_le(&mut r, self.section_header_entry_size as u64, 2);
        push_le(&mut r, self.section_header_num as u64, 2);
        push_le(&mut r, self.section_names_index as u64, 2);
        assert(r@ =~= self.encoding());
        r
    }
}

/// The header of `.eh_frame_hdr`, ahead of its search table.
#[derive(Clone, Copy, Debug, PartialEq, Eq, Structural)]
pub struct EhFrameHdr {
    pub version: u8,
    pub frame_pointer_encoding: u8,
    pub count_encoding: u8,
    pub table_encoding: u8,
    pub frame_pointer: i32,
    pub entry_count: u32,
}

impl EhFrameHdr {
    /// The bytes of the record: its fields in order, each in little-endian.
    pub open spec fn encoding(self) -> Seq<u8> {
        le_seq(self.version as u64, 1) + le_seq(self.frame_pointer_encoding as u64, 1) + le_seq(
            self.count_encoding as u64,
            1,
        ) + le_seq(self.table_encoding as u64, 1) + le_seq(twos32(self.frame_pointer), 4) + le_seq(
            self.entry_count as u64,
            4,
        )
    }

    /// The record as bytes.
    pub fn encode(&self) -> (r: Vec<u8>)
        ensures
            r@ == self.encoding(),
            r@.len() == EH_FRAME_HDR_SIZE,
    {
        let mut r: Vec<u8> = Vec::new();
        push_le(&mut r, self.version as u64, 1);
        push_le(&mut r, self.frame_pointer_encoding as u64, 1);
        push_le(&mut r, self.count_encoding as u64, 1);
        push_le(&mut r, self.table_encoding as u64, 1);
        push_le(&mut r, i32_bits(self.frame_pointer), 4);
        push_le(&mut r, self.entry_count as u64, 4);
        assert(r@ =~= self.encoding());
        r
    }
}

/// One row of the `.eh_frame_hdr` search table.
#[derive(Clone, Copy, Debug, PartialEq, Eq, Structural)]
pub struct EhFrameHdrEntry {
    /// Address of the function, relative to the start of `.eh_frame_hdr`.
    pub frame_ptr: i32,
    /// Address of the FDE that describes it.
    pub frame_info_ptr: i32,
}

impl EhFrameHdrEntry {
    /// The bytes of the record: its fields in order, each in little-endian.
    pub open spec fn encoding(self) -> Seq<u8> {
        le_seq(twos32(self.frame_ptr), 4) + le_seq(twos32(self.frame_info_ptr), 4)
    }

    /// The record as bytes.
    pub fn encode(&self) -> (r: Vec<u8>)
        ensures
            r@ == self.encoding(),
            r@.len() == EH_FRAME_HDR_ENTRY_SIZE,
    {
        let mut r: Vec<u8> = Vec::new();
        push_le(&mut r, i32_bits(self.frame_ptr), 4);
        push_le(&mut r, i32_bits(self.frame_info_ptr), 4);
        assert(r@ =~= self.encoding());
        r
    }
}

} // verus!
