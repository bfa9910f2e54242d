//! A processor core for the M68000 family.
//!
//! A host supplies a bus ([`memory::AddressBus`]) and drives
//! [`cpu::CpuCore`]: one instruction at a time (`step`), against a clock budget
//! (`execute`, `run_for_cycles` and its variants with hooks), or in
//! instruction batches (`run_batch`). Contracts speak of a
//! [`machine::Machine`], a processor together with the behaviour of its bus.

use vstd::prelude::*;

pub use crate::cpu::CpuCore;
pub use crate::types::CpuType;

pub mod access;
pub mod alu;
pub mod batch;
pub mod bits;
pub mod cpu;
pub mod decode;
pub mod decode_arith;
pub mod decode_misc;
pub mod ea;
pub mod exceptions;
pub mod execute;
pub mod hle;
pub mod instructions;
pub mod laws_arith;
pub mod laws_batch;
pub mod laws_control;
pub mod laws_dispatch;
pub mod laws_exception;
pub mod laws_fast;
pub mod laws_frame;
pub mod laws_interrupt;
pub mod laws_list;
pub mod laws_loan;
pub mod laws_memory;
pub mod laws_movem;
pub mod laws_mul;
pub mod laws_operands;
pub mod laws_parts;
pub mod laws_profile;
pub mod laws_queue;
pub mod laws_register;
pub mod laws_run;
pub mod laws_shift;
pub mod laws_slice;
pub mod laws_status;
pub mod laws_watch;
pub mod laws_window;
pub mod machine;
pub mod mem_ops;
pub mod memory;
pub mod mmu_ops;
pub mod op_cache;
pub mod prefetch;
pub mod runner_profile;
pub mod timing;
pub mod types;

verus! {

} // verus!
