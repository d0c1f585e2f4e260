//! Core of an emulator for the first monochrome handheld console with
//! exchangeable cartridges:
//! processor, memory bus with cartridge mappers, pixel unit and sound unit,
//! each stated as a transition function and proved against it.
pub mod alu;
pub mod apu;
pub mod bits;
pub mod cpu;
pub mod input;
pub mod machine;
pub mod mmu;
pub mod ppu;
pub mod text;
