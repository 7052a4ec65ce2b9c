//! Bare-metal kernel skeleton whose core is the virtual memory management
//! layer: phantom-typed physical/virtual addresses, translation-granule
//! constants, a deduplicating mapping ledger, a kernel MMIO virtual-address
//! allocator, a translation-table abstraction with an enable-once MMU state
//! machine, and the facade that sequences them.

use vstd::prelude::*;

pub mod address;
pub mod granule;
pub mod mapping_record;
pub mod page_alloc;
pub mod translation_table;
pub mod mmu;
pub mod driver;
pub mod kernel;
pub mod process;
