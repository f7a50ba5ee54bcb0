//! Verified core of a small x86-64 hypervisor: CPU feature detection,
//! the VMX enabling protocol, the boot frame allocator, the serial port
//! transmitter and the kernel's global registries.

pub mod cpu;
pub mod vmx;
pub mod memory;
pub mod uart;
pub mod mapper;
pub mod status;
