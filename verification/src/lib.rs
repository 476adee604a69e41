//! Verified core of the rustshyper userspace virtual machine monitor: the guest's boot data, its
//! serial port, and what to do about each of its exits.
pub mod acpi;
pub mod api;
pub mod boot;
pub mod boot_params;
pub mod bytes;
pub mod config;
pub mod diagnostics;
pub mod error;
pub mod guest;
pub mod ioctl;
pub mod laws;
pub mod layout;
pub mod linux;
pub mod paging;
pub mod segments;
pub mod setup_header;
pub mod terminal;
pub mod text;
pub mod uart;
pub mod vmm;

pub use api::GuestMemory;
pub use config::VmmConfig;
pub use error::VmmError;
pub use ioctl::RunState;
pub use ioctl::UserMemoryRegion;
pub use ioctl::VcpuRegs;
pub use ioctl::VcpuSregs;
pub use uart::Uart16550;
pub use vmm::Vmm;
