//! A lock word that can be taken and given back.
pub mod riscv32;
pub mod x86_64;
