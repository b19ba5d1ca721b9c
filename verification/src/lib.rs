//! Long-mode virtual-memory core for Intel 64-bit processors: canonical
//! virtual addresses, range-checked physical addresses, the bit-exact
//! page-table-entry layout, four-level page tables, and a mapping protocol
//! (map / unmap / translate / update-flags) with an explicit TLB-flush token.
//!
//! Raw control-register, model-specific-register and TLB instructions are not
//! part of this crate's verified surface; the surrounding program performs
//! them and hands the results to this library as plain values.

pub mod addr;
pub mod arch;
pub mod chip_flags;
pub mod descriptor;
pub mod interrupt;
pub mod memory;
pub mod mapper;
pub mod msr;
pub mod page_flags;
pub mod page_table;
pub mod paging;

pub use addr::{align_down, align_up, NoCanonicalAddr, NoInvalidPhysAddr, PhysAddr, VirtAddr};
