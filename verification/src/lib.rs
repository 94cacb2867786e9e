//! Typed invocations on the objects of a capability-based microkernel.
//!
//! User-level code operates on kernel objects by issuing synchronous system
//! calls: a request is marshaled into a shared message buffer, a trap
//! transfers control to the kernel, and the raw status that comes back is
//! decoded into a typed outcome.  This crate is that marshaling and decoding
//! layer for the Arm configuration with hypervisor extensions,
//! secure-monitor calls and multicore interrupt routing compiled in:
//!
//! * addressing primitives: capability references tagged at the type level
//!   with the object kind they are asserted to hold, and capability-space
//!   paths naming destination slots;
//! * an invocation context: the message buffer together with a trap
//!   primitive, passed explicitly to every invocation;
//! * one typed invocation function per (object kind, operation) pair, each
//!   proved to lay out the request words exactly as the kernel expects, to
//!   issue exactly one trap for it — never to retry, batch or reorder — and
//!   to decode the reply status into the closed error taxonomy;
//! * static object metadata: sizes and alignments of the creatable kernel
//!   object kinds.
//!
//! The trap itself is outside this crate: callers supply an implementation
//! of [`InvocationContext`], be it glue around the real trap instruction or
//! one of the verified stand-ins here, [`EchoContext`] and
//! [`ScriptedContext`].

use vstd::prelude::*;

pub mod cap_type;

mod context;
mod cptr;
mod error;
mod invocations;
mod ipc;
mod object;
mod regs;
mod rights;

pub use cap_type::CapType;
pub use cap_type::CapTypeForFrameObject;
pub use context::lemma_echo_round_trip;
pub use context::overlay;
pub use context::EchoContext;
pub use context::ScriptedContext;
pub use context::ScriptedReply;
pub use context::SCRIPT_EXHAUSTED_STATUS;
pub use cptr::AbsoluteCPtr;
pub use cptr::AsidControl;
pub use cptr::AsidPool;
pub use cptr::CNode;
pub use cptr::CPtr;
pub use cptr::CPtrWithDepth;
pub use cptr::Cap;
pub use cptr::Granule;
pub use cptr::HugePage;
pub use cptr::IrqControl;
pub use cptr::LargePage;
pub use cptr::SmallPage;
pub use cptr::Smc;
pub use cptr::Tcb;
pub use cptr::UnspecifiedIntermediateTranslationTable;
pub use cptr::Untyped;
pub use cptr::VCpu;
pub use cptr::VSpace;
pub use cptr::PT;
pub use error::lemma_status_decode_then_encode;
pub use error::lemma_status_decode_total;
pub use error::lemma_status_encode_then_decode;
pub use error::Error;
pub use invocations::lemma_asid_control_make_pool_round_trip;
pub use invocations::lemma_asid_pool_assign_round_trip;
pub use invocations::lemma_bool_word_round_trip;
pub use invocations::lemma_frame_get_address_round_trip;
pub use invocations::lemma_frame_map_round_trip;
pub use invocations::lemma_irq_get_trigger_core_round_trip;
pub use invocations::lemma_irq_get_trigger_round_trip;
pub use invocations::lemma_pt_map_round_trip;
pub use invocations::lemma_smc_round_trip;
pub use invocations::lemma_vcpu_ack_vppi_round_trip;
pub use invocations::lemma_vcpu_inject_irq_round_trip;
pub use invocations::lemma_vcpu_read_regs_round_trip;
pub use invocations::lemma_vcpu_reg_code_injective;
pub use invocations::lemma_vcpu_set_tcb_round_trip;
pub use invocations::lemma_vcpu_write_regs_round_trip;
pub use invocations::asid_control_make_pool_caps;
pub use invocations::asid_control_make_pool_info;
pub use invocations::asid_control_make_pool_msg;
pub use invocations::asid_pool_assign_caps;
pub use invocations::asid_pool_assign_info;
pub use invocations::bool_word;
pub use invocations::frame_get_address_info;
pub use invocations::frame_get_address_outcome_spec;
pub use invocations::frame_map_caps;
pub use invocations::frame_map_info;
pub use invocations::frame_map_msg;
pub use invocations::frame_unmap_info;
pub use invocations::irq_dst_caps;
pub use invocations::irq_get_trigger_core_info;
pub use invocations::irq_get_trigger_core_msg;
pub use invocations::irq_get_trigger_info;
pub use invocations::irq_get_trigger_msg;
pub use invocations::pt_map_caps;
pub use invocations::pt_map_info;
pub use invocations::pt_map_msg;
pub use invocations::smc_call_info;
pub use invocations::smc_call_msg;
pub use invocations::smc_outcome_spec;
pub use invocations::vcpu_ack_vppi_info;
pub use invocations::vcpu_ack_vppi_msg;
pub use invocations::vcpu_inject_irq_info;
pub use invocations::vcpu_inject_irq_msg;
pub use invocations::vcpu_read_regs_info;
pub use invocations::vcpu_read_regs_msg;
pub use invocations::vcpu_set_tcb_info;
pub use invocations::vcpu_write_regs_info;
pub use invocations::vcpu_write_regs_msg;
pub use invocations::vgic_word;
pub use invocations::LABEL_ASID_CONTROL_MAKE_POOL;
pub use invocations::LABEL_ASID_POOL_ASSIGN;
pub use invocations::LABEL_IRQ_GET_TRIGGER;
pub use invocations::LABEL_IRQ_GET_TRIGGER_CORE;
pub use invocations::LABEL_PAGE_GET_ADDRESS;
pub use invocations::LABEL_PAGE_MAP;
pub use invocations::LABEL_PAGE_TABLE_MAP;
pub use invocations::LABEL_PAGE_UNMAP;
pub use invocations::LABEL_SMC_CALL;
pub use invocations::LABEL_VCPU_ACK_VPPI;
pub use invocations::LABEL_VCPU_INJECT_IRQ;
pub use invocations::LABEL_VCPU_READ_REGS;
pub use invocations::LABEL_VCPU_SET_TCB;
pub use invocations::LABEL_VCPU_WRITE_REGS;
pub use ipc::InvocationContext;
pub use ipc::IpcBuffer;
pub use ipc::MessageInfo;
pub use ipc::Reply;
pub use object::FrameObjectType;
pub use object::ObjectBlueprintArm;
pub use object::TranslationTableObjectType;
pub use regs::SmcContext;
pub use regs::VCpuReg;
pub use rights::CapRights;
pub use rights::VmAttributes;

verus! {

/// A machine word as the kernel sees it.
pub type Word = u64;

/// The number of message registers passed in architectural registers rather
/// than through the buffer.
pub const NUM_FAST_MESSAGE_REGISTERS: usize = 4;

/// The number of message-register words an invocation request or reply may
/// carry.
pub const MSG_MAX_WORDS: usize = 120;

/// The number of capability-transfer slots an invocation request may carry.
pub const CAP_TRANSFER_SLOTS: usize = 3;

/// The number of significant bits in a capability-space address; a path's
/// depth never exceeds it.
pub const WORD_BITS: usize = 64;

} // verus!
