//! A model of the x86-64 instruction set and an encoder that is driven by it.
//!
//! The model is read from a JSON description (`instruction_parser`, with the
//! document model of `json`), completed by the expansion of the AVX-512
//! rounding forms and filtered for 64-bit mode (`loader`). The `encoder`
//! turns a form and concrete operands (`operand`) into the bytes of one
//! instruction, the `assembler` picks the shortest form of a mnemonic, and
//! `codegen` writes the source of a typed assembler library, whose
//! operations spell out their form (`template_text`) and hand it to the
//! encoder.

pub mod assembler;
pub mod code_writer;
pub mod codegen;
pub mod encoder;
pub mod group_parser;
pub mod instruction_parser;
pub mod json;
pub mod loader;
pub mod operand;
pub mod template_text;
pub mod text;
pub mod types;
