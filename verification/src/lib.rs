//! The libraries of blasterball, a paddle-and-ball game that runs on bare
//! x86-64 hardware: the keyboard decoder, the physics and the rules of the
//! game, drawing and text, the memory map and its allocator, the heap's
//! free list and the collections on it, the event hooker, the descriptor
//! tables, the interrupt controllers, the real-time clock, the ACPI tables
//! that power the machine off, the WAV reader and the HDA sound driver's
//! registers, codec commands and streams. Every function here is verified
//! against its contract; what touches the hardware takes and gives plain
//! values.
pub mod bits;
pub mod num;
pub mod keyboard;
pub mod physics;
pub mod hda_regs;
pub mod hda_codec;
pub mod hda_stream;
pub mod hda_output;
pub mod hda_widgets;
pub mod memory;
pub mod collections;
pub mod event_hook;
pub mod sync;
pub mod artist;
pub mod printer;
pub mod text_writer;
pub mod wav;
pub mod acpi;
pub mod gdt;
pub mod tss;
pub mod interrupts;
pub mod efi_keyboard;
pub mod port;
pub mod pic8259;
pub mod cmos;
pub mod registers;
pub mod power;
pub mod uefi;
pub mod fb_printer;
pub mod panic_writer;
pub mod game;
