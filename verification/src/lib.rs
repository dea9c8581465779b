//! Hardware-interface core of a minimal x86_64 kernel: typed CPU I/O ports,
//! physical-address arithmetic, interrupt-descriptor-table gates, and a PS/2
//! keyboard driver built on top of the port layer.

pub mod idt;
pub mod keyboard;
pub mod paddr;
pub mod port;
