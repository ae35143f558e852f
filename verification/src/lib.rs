//! Output emission for a static x86-64 ELF linker: from a resolved layout to
//! the bytes of every section of the executable.
//!
//! The output file is treated as a flat arena that is partitioned into
//! disjoint spans before anything is written. Each contributor fills its own
//! windows; the contracts say exactly which bytes end up in each of them.

pub mod bytes;
pub mod cie_map;
pub mod error;
pub mod eh_frame;
pub mod eh_frame_hdr;
pub mod elf;
pub mod headers;
pub mod internal_file;
pub mod layout;
pub mod object_file;
pub mod object_writer;
pub mod partition;
pub mod plt_got;
pub mod relocation;
pub mod symtab;
pub mod window;
