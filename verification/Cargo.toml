[package]
name = "elf_emit"
version = "0.1.0"
edition = "2021"
publish = false

[dependencies]
ahash = "0.8"
anyhow = "1"
memmap2 = "*"
object = "*"
rayon = "*"
