//! Core of a Game Boy (DMG) emulator: CPU interpreter, memory bus with banked
//! cartridges, LCD controller, timer and joypad, all with verified contracts.

pub mod utils;
pub mod registers;
pub mod timer;
pub mod joypad;
pub mod cartridge;
pub mod mbc0;
pub mod mbc1;
pub mod mbc3;
pub mod lcd;
pub mod mmu;
pub mod cpu;
