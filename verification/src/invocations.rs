//! The typed invocation functions: one per (object kind, operation) pair.
//!
//! Each function serializes its typed arguments into the exact message-word
//! and capability-slot layout the kernel expects for that operation, issues
//! exactly one trap through the invocation context, and decodes the raw
//! status that comes back into a typed outcome.  The `ensures` of each
//! function pins the outcome to the context's answer to precisely that
//! encoded request, the buffer afterwards to that answer, and the context
//! afterwards to exactly one step of its own trap model on that one request
//! — no retry, no second trap, no reordering.  Nothing is promised of the
//! kernel; everything is promised of the marshaling and decoding around it.

use vstd::prelude::*;

use crate::cap_type;
use crate::cptr::AbsoluteCPtr;
use crate::cptr::AsidControl;
use crate::cptr::AsidPool;
use crate::cptr::Cap;
use crate::cptr::IrqControl;
use crate::cptr::Smc;
use crate::cptr::Tcb;
use crate::cptr::UnspecifiedIntermediateTranslationTable;
use crate::cptr::VCpu;
use crate::cptr::PT;
use crate::cptr::Untyped;
use crate::cptr::VSpace;
use crate::error::Error;
use crate::ipc::InvocationContext;
use crate::ipc::IpcBuffer;
use crate::ipc::MessageInfo;
use crate::ipc::Reply;
use crate::object::TranslationTableObjectType;
use crate::regs::SmcContext;
use crate::regs::VCpuReg;
use crate::rights::CapRights;
use crate::rights::VmAttributes;
use crate::Word;
use crate::CAP_TRANSFER_SLOTS;
use crate::MSG_MAX_WORDS;

verus! {

/// Opcode: bind a thread control block to a virtual CPU.
pub const LABEL_VCPU_SET_TCB: Word = 1;

/// Opcode: read a virtual CPU register field.
pub const LABEL_VCPU_READ_REGS: Word = 2;

/// Opcode: write a virtual CPU register field.
pub const LABEL_VCPU_WRITE_REGS: Word = 3;

/// Opcode: acknowledge a virtual private peripheral interrupt.
pub const LABEL_VCPU_ACK_VPPI: Word = 4;

/// Opcode: inject a virtual interrupt into a virtual CPU.
pub const LABEL_VCPU_INJECT_IRQ: Word = 5;

/// Opcode: perform a secure-monitor call.
pub const LABEL_SMC_CALL: Word = 6;

/// Opcode: map a frame into an address space.
pub const LABEL_PAGE_MAP: Word = 7;

/// Opcode: unmap a frame.
pub const LABEL_PAGE_UNMAP: Word = 8;

/// Opcode: query the physical address backing a frame.
pub const LABEL_PAGE_GET_ADDRESS: Word = 9;

/// Opcode: map an intermediate page table into an address space.
pub const LABEL_PAGE_TABLE_MAP: Word = 10;

/// Opcode: create an address-space-identifier pool from untyped memory.
pub const LABEL_ASID_CONTROL_MAKE_POOL: Word = 11;

/// Opcode: assign an identifier from a pool to an address-space root.
pub const LABEL_ASID_POOL_ASSIGN: Word = 12;

/// Opcode: hand out an interrupt-handling capability with a trigger mode.
pub const LABEL_IRQ_GET_TRIGGER: Word = 13;

/// Opcode: as [`LABEL_IRQ_GET_TRIGGER`], also binding the interrupt to one
/// core.
pub const LABEL_IRQ_GET_TRIGGER_CORE: Word = 14;

/// The 0/1 word a boolean argument becomes on the wire.
pub open spec fn bool_word(b: bool) -> Word {
    if b {
        1
    } else {
        0
    }
}

/// Request header of the set-TCB operation.
pub open spec fn vcpu_set_tcb_info() -> MessageInfo {
    MessageInfo { label: LABEL_VCPU_SET_TCB, length: 0, extra_caps: 1 }
}

/// Request header of the register-read operation.
pub open spec fn vcpu_read_regs_info() -> MessageInfo {
    MessageInfo { label: LABEL_VCPU_READ_REGS, length: 1, extra_caps: 0 }
}

/// Request words of the register-read operation.
pub open spec fn vcpu_read_regs_msg(base: Seq<Word>, field: VCpuReg) -> Seq<Word> {
    base.update(0, field.code_spec())
}

/// Request header of the register-write operation.
pub open spec fn vcpu_write_regs_info() -> MessageInfo {
    MessageInfo { label: LABEL_VCPU_WRITE_REGS, length: 2, extra_caps: 0 }
}

/// Request words of the register-write operation.
pub open spec fn vcpu_write_regs_msg(base: Seq<Word>, field: VCpuReg, value: Word) -> Seq<Word> {
    base.update(0, field.code_spec()).update(1, value)
}

/// Request header of the interrupt-acknowledge operation.
pub open spec fn vcpu_ack_vppi_info() -> MessageInfo {
    MessageInfo { label: LABEL_VCPU_ACK_VPPI, length: 1, extra_caps: 0 }
}

/// Request words of the interrupt-acknowledge operation.
pub open spec fn vcpu_ack_vppi_msg(base: Seq<Word>, irq: Word) -> Seq<Word> {
    base.update(0, irq)
}

/// The one word the four interrupt-injection arguments pack into.
pub open spec fn vgic_word(virq: u16, priority: u8, group: u8, index: u8) -> Word {
    (virq as u64) | ((priority as u64) << 16) | ((group as u64) << 24) | ((index as u64) << 32)
}

/// Request header of the interrupt-injection operation.
pub open spec fn vcpu_inject_irq_info() -> MessageInfo {
    MessageInfo { label: LABEL_VCPU_INJECT_IRQ, length: 1, extra_caps: 0 }
}

/// Request words of the interrupt-injection operation.
pub open spec fn vcpu_inject_irq_msg(
    base: Seq<Word>,
    virq: u16,
    priority: u8,
    group: u8,
    index: u8,
) -> Seq<Word> {
    base.update(0, vgic_word(virq, priority, group, index))
}

/// Request header of the secure-monitor call.
pub open spec fn smc_call_info() -> MessageInfo {
    MessageInfo { label: LABEL_SMC_CALL, length: 8, extra_caps: 0 }
}

/// Request words of the secure-monitor call: the eight context registers in
/// order.
pub open spec fn smc_call_msg(base: Seq<Word>, args: SmcContext) -> Seq<Word> {
    base.update(0, args.x0).update(1, args.x1).update(2, args.x2).update(3, args.x3).update(
        4,
        args.x4,
    ).update(5, args.x5).update(6, args.x6).update(7, args.x7)
}

/// The typed outcome of a secure-monitor call decoded from a reply: the
/// reply's first eight words as a context exactly on status zero.
pub open spec fn smc_outcome_spec(rep: Reply) -> Result<SmcContext, Error> {
    match Error::decode_spec(rep.label) {
        Some(e) => Err(e),
        None => Ok(
            SmcContext {
                x0: rep.msg[0],
                x1: rep.msg[1],
                x2: rep.msg[2],
                x3: rep.msg[3],
                x4: rep.msg[4],
                x5: rep.msg[5],
                x6: rep.msg[6],
                x7: rep.msg[7],
            },
        ),
    }
}

/// Request header of the frame-map operation.
pub open spec fn frame_map_info() -> MessageInfo {
    MessageInfo { label: LABEL_PAGE_MAP, length: 3, extra_caps: 1 }
}

/// Request words of the frame-map operation.
pub open spec fn frame_map_msg(
    base: Seq<Word>,
    vaddr: usize,
    rights: CapRights,
    attrs: VmAttributes,
) -> Seq<Word> {
    base.update(0, vaddr as u64).update(1, rights.word).update(2, attrs.word)
}

/// Capability slots of the frame-map operation.
pub open spec fn frame_map_caps(base: Seq<Word>, vspace: VSpace) -> Seq<Word> {
    base.update(0, vspace.cptr.bits)
}

/// Request header of the frame-unmap operation.
pub open spec fn frame_unmap_info() -> MessageInfo {
    MessageInfo { label: LABEL_PAGE_UNMAP, length: 0, extra_caps: 0 }
}

/// Request header of the address query.
pub open spec fn frame_get_address_info() -> MessageInfo {
    MessageInfo { label: LABEL_PAGE_GET_ADDRESS, length: 0, extra_caps: 0 }
}

/// The typed outcome of the address query decoded from a reply: on status
/// zero the reply's first word, as an address if it fits and as a range
/// error if it does not; otherwise the status's own error.
pub open spec fn frame_get_address_outcome_spec(rep: Reply) -> Result<usize, Error> {
    match Error::decode_spec(rep.label) {
        Some(e) => Err(e),
        None => if rep.msg[0] <= usize::MAX as u64 {
            Ok(rep.msg[0] as usize)
        } else {
            Err(Error::RangeError)
        },
    }
}

/// Request header of the page-table-map operation.
pub open spec fn pt_map_info() -> MessageInfo {
    MessageInfo { label: LABEL_PAGE_TABLE_MAP, length: 2, extra_caps: 1 }
}

/// Request words of the page-table-map operation.
pub open spec fn pt_map_msg(base: Seq<Word>, vaddr: usize, attr: VmAttributes) -> Seq<Word> {
    base.update(0, vaddr as u64).update(1, attr.word)
}

/// Capability slots of the page-table-map operation.
pub open spec fn pt_map_caps(base: Seq<Word>, vspace: VSpace) -> Seq<Word> {
    base.update(0, vspace.cptr.bits)
}

/// Request header of the interrupt-trigger operation.
pub open spec fn irq_get_trigger_info() -> MessageInfo {
    MessageInfo { label: LABEL_IRQ_GET_TRIGGER, length: 4, extra_caps: 1 }
}

/// Request words of the interrupt-trigger operation.
pub open spec fn irq_get_trigger_msg(
    base: Seq<Word>,
    irq: Word,
    edge_triggered: bool,
    dst: AbsoluteCPtr,
) -> Seq<Word> {
    base.update(0, irq).update(1, bool_word(edge_triggered)).update(2, dst.path.bits).update(
        3,
        dst.path.depth as Word,
    )
}

/// Capability slots of the interrupt-trigger operations: the destination
/// root.
pub open spec fn irq_dst_caps(base: Seq<Word>, dst: AbsoluteCPtr) -> Seq<Word> {
    base.update(0, dst.root.cptr.bits)
}

/// Request header of the core-bound interrupt-trigger operation.
pub open spec fn irq_get_trigger_core_info() -> MessageInfo {
    MessageInfo { label: LABEL_IRQ_GET_TRIGGER_CORE, length: 5, extra_caps: 1 }
}

/// Request words of the core-bound interrupt-trigger operation.
pub open spec fn irq_get_trigger_core_msg(
    base: Seq<Word>,
    irq: Word,
    edge_triggered: bool,
    target: Word,
    dst: AbsoluteCPtr,
) -> Seq<Word> {
    irq_get_trigger_msg(base, irq, edge_triggered, dst).update(4, target)
}

/// Request header of the pool-creation operation.
pub open spec fn asid_control_make_pool_info() -> MessageInfo {
    MessageInfo { label: LABEL_ASID_CONTROL_MAKE_POOL, length: 2, extra_caps: 2 }
}

/// Request words of the pool-creation operation: the destination path.
pub open spec fn asid_control_make_pool_msg(base: Seq<Word>, dst: AbsoluteCPtr) -> Seq<Word> {
    base.update(0, dst.path.bits).update(1, dst.path.depth as Word)
}

/// Capability slots of the pool-creation operation: the untyped region and
/// the destination root.
pub open spec fn asid_control_make_pool_caps(
    base: Seq<Word>,
    untyped: Untyped,
    dst: AbsoluteCPtr,
) -> Seq<Word> {
    base.update(0, untyped.cptr.bits).update(1, dst.root.cptr.bits)
}

/// Request header of the pool-assignment operation.
pub open spec fn asid_pool_assign_info() -> MessageInfo {
    MessageInfo { label: LABEL_ASID_POOL_ASSIGN, length: 0, extra_caps: 1 }
}

/// Capability slots of the pool-assignment operation.
pub open spec fn asid_pool_assign_caps(base: Seq<Word>, vspace: VSpace) -> Seq<Word> {
    base.update(0, vspace.cptr.bits)
}

impl VCpu {
    /// Bind a thread control block to this virtual CPU: one trap, a
    /// pure command.
    pub fn vcpu_set_tcb<C: InvocationContext>(
        self,
        ctx: &mut C,
        ipc: &mut IpcBuffer,
        tcb: Tcb,
    ) -> (r: Result<(), Error>)
        requires
            old(ipc).well_formed(),
        ensures
            final(ipc).well_formed(),
            ({
                let req_msg = old(ipc).msg@;
                let req_caps = old(ipc).caps@.update(0, tcb.cptr.bits);
                let rep = old(ctx).reply_spec(self.cptr.bits, vcpu_set_tcb_info(), req_msg, req_caps);
                r == Error::unit_outcome_spec(rep.label)
                    && final(ipc).msg@ == rep.msg
                    && final(ipc).caps@ == req_caps
                    && *final(ctx) == old(ctx).step_spec(self.cptr.bits, vcpu_set_tcb_info(), req_msg, req_caps)
            }),
    {
        ipc.set_cap(0, tcb.bits());
        let info = MessageInfo { label: LABEL_VCPU_SET_TCB, length: 0, extra_caps: 1 };
        let reply = ctx.invoke(self.bits(), info, ipc);
        Error::wrap(reply.label)
    }

    /// Read one register field of this virtual CPU: one trap, a query whose
    /// reply carries the value in its first word.
    pub fn vcpu_read_regs<C: InvocationContext>(
        self,
        ctx: &mut C,
        ipc: &mut IpcBuffer,
        field: VCpuReg,
    ) -> (r: Result<Word, Error>)
        requires
            old(ipc).well_formed(),
        ensures
            final(ipc).well_formed(),
            ({
                let req_msg = vcpu_read_regs_msg(old(ipc).msg@, field);
                let req_caps = old(ipc).caps@;
                let rep = old(ctx).reply_spec(self.cptr.bits, vcpu_read_regs_info(), req_msg, req_caps);
                r == Error::word_outcome_spec(rep.label, rep.msg[0])
                    && final(ipc).msg@ == rep.msg
                    && final(ipc).caps@ == req_caps
                    && *final(ctx) == old(ctx).step_spec(self.cptr.bits, vcpu_read_regs_info(), req_msg, req_caps)
            }),
    {
        ipc.set_mr(0, field.into_sys());
        let info = MessageInfo { label: LABEL_VCPU_READ_REGS, length: 1, extra_caps: 0 };
        let reply = ctx.invoke(self.bits(), info, ipc);
        let value = ipc.get_mr(0);
        Error::or(reply.label, value)
    }

    /// Write one register field of this virtual CPU: one trap, a pure
    /// command.
    pub fn vcpu_write_regs<C: InvocationContext>(
        self,
        ctx: &mut C,
        ipc: &mut IpcBuffer,
        field: VCpuReg,
        value: Word,
    ) -> (r: Result<(), Error>)
        requires
            old(ipc).well_formed(),
        ensures
            final(ipc).well_formed(),
            ({
                let req_msg = vcpu_write_regs_msg(old(ipc).msg@, field, value);
                let req_caps = old(ipc).caps@;
                let rep = old(ctx).reply_spec(self.cptr.bits, vcpu_write_regs_info(), req_msg, req_caps);
                r == Error::unit_outcome_spec(rep.label)
                    && final(ipc).msg@ == rep.msg
                    && final(ipc).caps@ == req_caps
                    && *final(ctx) == old(ctx).step_spec(self.cptr.bits, vcpu_write_regs_info(), req_msg, req_caps)
            }),
    {
        ipc.set_mr(0, field.into_sys());
        ipc.set_mr(1, value);
        let info = MessageInfo { label: LABEL_VCPU_WRITE_REGS, length: 2, extra_caps: 0 };
        let reply = ctx.invoke(self.bits(), info, ipc);
        Error::wrap(reply.label)
    }

    /// Acknowledge a virtual private peripheral interrupt on this virtual
    /// CPU: one trap, a pure command.
    pub fn vcpu_ack_vppi<C: InvocationContext>(
        self,
        ctx: &mut C,
        ipc: &mut IpcBuffer,
        irq: Word,
    ) -> (r: Result<(), Error>)
        requires
            old(ipc).well_formed(),
        ensures
            final(ipc).well_formed(),
            ({
                let req_msg = vcpu_ack_vppi_msg(old(ipc).msg@, irq);
                let req_caps = old(ipc).caps@;
                let rep = old(ctx).reply_spec(self.cptr.bits, vcpu_ack_vppi_info(), req_msg, req_caps);
                r == Error::unit_outcome_spec(rep.label)
                    && final(ipc).msg@ == rep.msg
                    && final(ipc).caps@ == req_caps
                    && *final(ctx) == old(ctx).step_spec(self.cptr.bits, vcpu_ack_vppi_info(), req_msg, req_caps)
            }),
    {
        ipc.set_mr(0, irq);
        let info = MessageInfo { label: LABEL_VCPU_ACK_VPPI, length: 1, extra_caps: 0 };
        let reply = ctx.invoke(self.bits(), info, ipc);
        Error::wrap(reply.label)
    }

    /// Inject a virtual interrupt into this virtual CPU: the four arguments
    /// pack into one word, one trap, a pure command.
    pub fn vcpu_inject_irq<C: InvocationContext>(
        self,
        ctx: &mut C,
        ipc: &mut IpcBuffer,
        virq: u16,
        priority: u8,
        group: u8,
        index: u8,
    ) -> (r: Result<(), Error>)
        requires
            old(ipc).well_formed(),
        ensures
            final(ipc).well_formed(),
            ({
                let req_msg = vcpu_inject_irq_msg(old(ipc).msg@, virq, priority, group, index);
                let req_caps = old(ipc).caps@;
                let rep = old(ctx).reply_spec(self.cptr.bits, vcpu_inject_irq_info(), req_msg, req_caps);
                r == Error::unit_outcome_spec(rep.label)
                    && final(ipc).msg@ == rep.msg
                    && final(ipc).caps@ == req_caps
                    && *final(ctx) == old(ctx).step_spec(self.cptr.bits, vcpu_inject_irq_info(), req_msg, req_caps)
            }),
    {
        let packed: u64 = (virq as u64) | ((priority as u64) << 16) | ((group as u64) << 24) | (
        (index as u64) << 32);
        ipc.set_mr(0, packed);
        let info = MessageInfo { label: LABEL_VCPU_INJECT_IRQ, length: 1, extra_caps: 0 };
        let reply = ctx.invoke(self.bits(), info, ipc);
        Error::wrap(reply.label)
    }
}

impl Smc {
    /// Perform a secure-monitor call: the eight-register context goes out,
    /// one trap, and on success the eight-register result comes back.
    pub fn smc_call<C: InvocationContext>(
        self,
        ctx: &mut C,
        ipc: &mut IpcBuffer,
        args: &SmcContext,
    ) -> (r: Result<SmcContext, Error>)
        requires
            old(ipc).well_formed(),
        ensures
            final(ipc).well_formed(),
            ({
                let req_msg = smc_call_msg(old(ipc).msg@, *args);
                let req_caps = old(ipc).caps@;
                let rep = old(ctx).reply_spec(self.cptr.bits, smc_call_info(), req_msg, req_caps);
                r == smc_outcome_spec(rep)
                    && final(ipc).msg@ == rep.msg
                    && final(ipc).caps@ == req_caps
                    && *final(ctx) == old(ctx).step_spec(self.cptr.bits, smc_call_info(), req_msg, req_caps)
            }),
    {
        ipc.set_mr(0, args.x0);
        ipc.set_mr(1, args.x1);
        ipc.set_mr(2, args.x2);
        ipc.set_mr(3, args.x3);
        ipc.set_mr(4, args.x4);
        ipc.set_mr(5, args.x5);
        ipc.set_mr(6, args.x6);
        ipc.set_mr(7, args.x7);
        let info = MessageInfo { label: LABEL_SMC_CALL, length: 8, extra_caps: 0 };
        let reply = ctx.invoke(self.bits(), info, ipc);
        match Error::from_sys(reply.label) {
            Some(e) => Err(e),
            None => Ok(
                SmcContext {
                    x0: ipc.get_mr(0),
                    x1: ipc.get_mr(1),
                    x2: ipc.get_mr(2),
                    x3: ipc.get_mr(3),
                    x4: ipc.get_mr(4),
                    x5: ipc.get_mr(5),
                    x6: ipc.get_mr(6),
                    x7: ipc.get_mr(7),
                },
            ),
        }
    }
}

impl<T: cap_type::CapTypeForFrameObject> Cap<T> {
    /// Map this frame into an address space at a virtual address with the
    /// given rights and attributes: one trap, a pure command.
    pub fn frame_map<C: InvocationContext>(
        self,
        ctx: &mut C,
        ipc: &mut IpcBuffer,
        vspace: VSpace,
        vaddr: usize,
        rights: CapRights,
        attrs: VmAttributes,
    ) -> (r: Result<(), Error>)
        requires
            old(ipc).well_formed(),
        ensures
            final(ipc).well_formed(),
            ({
                let req_msg = frame_map_msg(old(ipc).msg@, vaddr, rights, attrs);
                let req_caps = frame_map_caps(old(ipc).caps@, vspace);
                let rep = old(ctx).reply_spec(self.cptr.bits, frame_map_info(), req_msg, req_caps);
                r == Error::unit_outcome_spec(rep.label)
                    && final(ipc).msg@ == rep.msg
                    && final(ipc).caps@ == req_caps
                    && *final(ctx) == old(ctx).step_spec(self.cptr.bits, frame_map_info(), req_msg, req_caps)
            }),
    {
        ipc.set_mr(0, vaddr as u64);
        ipc.set_mr(1, rights.into_inner());
        ipc.set_mr(2, attrs.into_inner());
        ipc.set_cap(0, vspace.bits());
        let info = MessageInfo { label: LABEL_PAGE_MAP, length: 3, extra_caps: 1 };
        let reply = ctx.invoke(self.bits(), info, ipc);
        Error::wrap(reply.label)
    }

    /// Unmap this frame from wherever it is mapped: one trap, a pure
    /// command.
    pub fn frame_unmap<C: InvocationContext>(self, ctx: &mut C, ipc: &mut IpcBuffer) -> (r: Result<
        (),
        Error,
    >)
        requires
            old(ipc).well_formed(),
        ensures
            final(ipc).well_formed(),
            ({
                let req_msg = old(ipc).msg@;
                let req_caps = old(ipc).caps@;
                let rep = old(ctx).reply_spec(self.cptr.bits, frame_unmap_info(), req_msg, req_caps);
                r == Error::unit_outcome_spec(rep.label)
                    && final(ipc).msg@ == rep.msg
                    && final(ipc).caps@ == req_caps
                    && *final(ctx) == old(ctx).step_spec(self.cptr.bits, frame_unmap_info(), req_msg, req_caps)
            }),
    {
        let info = MessageInfo { label: LABEL_PAGE_UNMAP, length: 0, extra_caps: 0 };
        let reply = ctx.invoke(self.bits(), info, ipc);
        Error::wrap(reply.label)
    }

    /// Query the physical address backing this frame: one trap; on success
    /// the reply's first word is the address, reported as a range error if
    /// it does not fit an address of this platform.
    pub fn frame_get_address<C: InvocationContext>(self, ctx: &mut C, ipc: &mut IpcBuffer) -> (r:
        Result<usize, Error>)
        requires
            old(ipc).well_formed(),
        ensures
            final(ipc).well_formed(),
            ({
                let req_msg = old(ipc).msg@;
                let req_caps = old(ipc).caps@;
                let rep = old(ctx).reply_spec(self.cptr.bits, frame_get_address_info(), req_msg, req_caps);
                r == frame_get_address_outcome_spec(rep)
                    && final(ipc).msg@ == rep.msg
                    && final(ipc).caps@ == req_caps
                    && *final(ctx) == old(ctx).step_spec(self.cptr.bits, frame_get_address_info(), req_msg, req_caps)
            }),
    {
        let info = MessageInfo { label: LABEL_PAGE_GET_ADDRESS, length: 0, extra_caps: 0 };
        let reply = ctx.invoke(self.bits(), info, ipc);
        match Error::from_sys(reply.label) {
            Some(e) => Err(e),
            None => {
                let paddr = ipc.get_mr(0);
                if paddr <= usize::MAX as u64 {
                    Ok(paddr as usize)
                } else {
                    Err(Error::RangeError)
                }
            },
        }
    }
}

impl PT {
    /// Map this page table into an address space at a virtual address: one
    /// trap, a pure command.
    pub fn pt_map<C: InvocationContext>(
        self,
        ctx: &mut C,
        ipc: &mut IpcBuffer,
        vspace: VSpace,
        vaddr: usize,
        attr: VmAttributes,
    ) -> (r: Result<(), Error>)
        requires
            old(ipc).well_formed(),
        ensures
            final(ipc).well_formed(),
            ({
                let req_msg = pt_map_msg(old(ipc).msg@, vaddr, attr);
                let req_caps = pt_map_caps(old(ipc).caps@, vspace);
                let rep = old(ctx).reply_spec(self.cptr.bits, pt_map_info(), req_msg, req_caps);
                r == Error::unit_outcome_spec(rep.label)
                    && final(ipc).msg@ == rep.msg
                    && final(ipc).caps@ == req_caps
                    && *final(ctx) == old(ctx).step_spec(self.cptr.bits, pt_map_info(), req_msg, req_caps)
            }),
    {
        ipc.set_mr(0, vaddr as u64);
        ipc.set_mr(1, attr.into_inner());
        ipc.set_cap(0, vspace.bits());
        let info = MessageInfo { label: LABEL_PAGE_TABLE_MAP, length: 2, extra_caps: 1 };
        let reply = ctx.invoke(self.bits(), info, ipc);
        Error::wrap(reply.label)
    }
}

impl UnspecifiedIntermediateTranslationTable {
    /// Map an intermediate translation table whose concrete kind is chosen
    /// at run time: a kind this configuration supports delegates to its own
    /// map operation; any other kind is refused with a typed error before
    /// any trap is issued.
    pub fn generic_intermediate_translation_table_map<C: InvocationContext>(
        self,
        ctx: &mut C,
        ipc: &mut IpcBuffer,
        ty: TranslationTableObjectType,
        vspace: VSpace,
        vaddr: usize,
        attr: VmAttributes,
    ) -> (r: Result<(), Error>)
        requires
            old(ipc).well_formed(),
        ensures
            final(ipc).well_formed(),
            ty == TranslationTableObjectType::PT ==> ({
                let req_msg = pt_map_msg(old(ipc).msg@, vaddr, attr);
                let req_caps = pt_map_caps(old(ipc).caps@, vspace);
                let rep = old(ctx).reply_spec(self.cptr.bits, pt_map_info(), req_msg, req_caps);
                r == Error::unit_outcome_spec(rep.label)
                    && final(ipc).msg@ == rep.msg
                    && final(ipc).caps@ == req_caps
                    && *final(ctx) == old(ctx).step_spec(self.cptr.bits, pt_map_info(), req_msg, req_caps)
            }),
            ty != TranslationTableObjectType::PT ==> r == Err::<(), Error>(
                Error::UnsupportedObjectKind,
            ) && *final(ctx) == *old(ctx) && *final(ipc) == *old(ipc),
    {
        match ty {
            TranslationTableObjectType::PT => self.cast::<cap_type::PT>().pt_map(
                ctx,
                ipc,
                vspace,
                vaddr,
                attr,
            ),
            TranslationTableObjectType::VSpace => Err(Error::UnsupportedObjectKind),
        }
    }
}

impl IrqControl {
    /// Create a capability authorizing handling of an interrupt with the
    /// given trigger mode and install it at the destination path: one trap,
    /// a pure command.
    pub fn irq_control_get_trigger<C: InvocationContext>(
        self,
        ctx: &mut C,
        ipc: &mut IpcBuffer,
        irq: Word,
        edge_triggered: bool,
        dst: &AbsoluteCPtr,
    ) -> (r: Result<(), Error>)
        requires
            old(ipc).well_formed(),
        ensures
            final(ipc).well_formed(),
            ({
                let req_msg = irq_get_trigger_msg(old(ipc).msg@, irq, edge_triggered, *dst);
                let req_caps = irq_dst_caps(old(ipc).caps@, *dst);
                let rep = old(ctx).reply_spec(self.cptr.bits, irq_get_trigger_info(), req_msg, req_caps);
                r == Error::unit_outcome_spec(rep.label)
                    && final(ipc).msg@ == rep.msg
                    && final(ipc).caps@ == req_caps
                    && *final(ctx) == old(ctx).step_spec(self.cptr.bits, irq_get_trigger_info(), req_msg, req_caps)
            }),
    {
        ipc.set_mr(0, irq);
        ipc.set_mr(1, if edge_triggered { 1 } else { 0 });
        ipc.set_mr(2, dst.path().bits());
        ipc.set_mr(3, dst.path().depth_for_kernel());
        ipc.set_cap(0, dst.root().bits());
        let info = MessageInfo { label: LABEL_IRQ_GET_TRIGGER, length: 4, extra_caps: 1 };
        let reply = ctx.invoke(self.bits(), info, ipc);
        Error::wrap(reply.label)
    }

    /// As [`Self::irq_control_get_trigger`], additionally binding the
    /// interrupt to the given core.
    pub fn irq_control_get_trigger_core<C: InvocationContext>(
        self,
        ctx: &mut C,
        ipc: &mut IpcBuffer,
        irq: Word,
        edge_triggered: bool,
        target: Word,
        dst: &AbsoluteCPtr,
    ) -> (r: Result<(), Error>)
        requires
            old(ipc).well_formed(),
        ensures
            final(ipc).well_formed(),
            ({
                let req_msg = irq_get_trigger_core_msg(old(ipc).msg@, irq, edge_triggered, target, *dst);
                let req_caps = irq_dst_caps(old(ipc).caps@, *dst);
                let rep = old(ctx).reply_spec(self.cptr.bits, irq_get_trigger_core_info(), req_msg, req_caps);
                r == Error::unit_outcome_spec(rep.label)
                    && final(ipc).msg@ == rep.msg
                    && final(ipc).caps@ == req_caps
                    && *final(ctx) == old(ctx).step_spec(self.cptr.bits, irq_get_trigger_core_info(), req_msg, req_caps)
            }),
    {
        ipc.set_mr(0, irq);
        ipc.set_mr(1, if edge_triggered { 1 } else { 0 });
        ipc.set_mr(2, dst.path().bits());
        ipc.set_mr(3, dst.path().depth_for_kernel());
        ipc.set_mr(4, target);
        ipc.set_cap(0, dst.root().bits());
        let info = MessageInfo { label: LABEL_IRQ_GET_TRIGGER_CORE, length: 5, extra_caps: 1 };
        let reply = ctx.invoke(self.bits(), info, ipc);
        Error::wrap(reply.label)
    }
}

impl AsidControl {
    /// Create an address-space-identifier pool from an untyped region and
    /// install it at the destination path: one trap, a pure command.
    pub fn asid_control_make_pool<C: InvocationContext>(
        self,
        ctx: &mut C,
        ipc: &mut IpcBuffer,
        untyped: Untyped,
        dst: &AbsoluteCPtr,
    ) -> (r: Result<(), Error>)
        requires
            old(ipc).well_formed(),
        ensures
            final(ipc).well_formed(),
            ({
                let req_msg = asid_control_make_pool_msg(old(ipc).msg@, *dst);
                let req_caps = asid_control_make_pool_caps(old(ipc).caps@, untyped, *dst);
                let rep = old(ctx).reply_spec(self.cptr.bits, asid_control_make_pool_info(), req_msg, req_caps);
                r == Error::unit_outcome_spec(rep.label)
                    && final(ipc).msg@ == rep.msg
                    && final(ipc).caps@ == req_caps
                    && *final(ctx) == old(ctx).step_spec(self.cptr.bits, asid_control_make_pool_info(), req_msg, req_caps)
            }),
    {
        ipc.set_mr(0, dst.path().bits());
        ipc.set_mr(1, dst.path().depth_for_kernel());
        ipc.set_cap(0, untyped.bits());
        ipc.set_cap(1, dst.root().bits());
        let info = MessageInfo { label: LABEL_ASID_CONTROL_MAKE_POOL, length: 2, extra_caps: 2 };
        let reply = ctx.invoke(self.bits(), info, ipc);
        Error::wrap(reply.label)
    }
}

impl AsidPool {
    /// Assign an identifier from this pool to an address-space root: one
    /// trap, a pure command.
    pub fn asid_pool_assign<C: InvocationContext>(
        self,
        ctx: &mut C,
        ipc: &mut IpcBuffer,
        vspace: VSpace,
    ) -> (r: Result<(), Error>)
        requires
            old(ipc).well_formed(),
        ensures
            final(ipc).well_formed(),
            ({
                let req_msg = old(ipc).msg@;
                let req_caps = asid_pool_assign_caps(old(ipc).caps@, vspace);
                let rep = old(ctx).reply_spec(self.cptr.bits, asid_pool_assign_info(), req_msg, req_caps);
                r == Error::unit_outcome_spec(rep.label)
                    && final(ipc).msg@ == rep.msg
                    && final(ipc).caps@ == req_caps
                    && *final(ctx) == old(ctx).step_spec(self.cptr.bits, asid_pool_assign_info(), req_msg, req_caps)
            }),
    {
        ipc.set_cap(0, vspace.bits());
        let info = MessageInfo { label: LABEL_ASID_POOL_ASSIGN, length: 0, extra_caps: 1 };
        let reply = ctx.invoke(self.bits(), info, ipc);
        Error::wrap(reply.label)
    }
}

/// Law: a boolean argument encodes to a 0/1 word that decodes back to it.
pub proof fn lemma_bool_word_round_trip(b: bool)
    ensures
        (bool_word(b) == 1) == b,
        (bool_word(b) == 0) == !b,
{
}

/// Law: distinct register fields have distinct wire identifiers, so the
/// encoded field decodes back to the one field it came from.
pub proof fn lemma_vcpu_reg_code_injective(a: VCpuReg, b: VCpuReg)
    ensures
        a.code_spec() == b.code_spec() ==> a == b,
{
}

/// Law: the set-TCB encoding round-trips — the slot read back from the
/// request is the encoded thread control block.
pub proof fn lemma_vcpu_set_tcb_round_trip(caps: Seq<Word>, tcb: Tcb)
    requires
        caps.len() == CAP_TRANSFER_SLOTS,
    ensures
        caps.update(0, tcb.cptr.bits)[0] == tcb.cptr.bits,
{
}

/// Law: the register-read encoding round-trips — the field identifier read
/// back from the request is the encoded field's.
pub proof fn lemma_vcpu_read_regs_round_trip(base: Seq<Word>, field: VCpuReg)
    requires
        base.len() == MSG_MAX_WORDS,
    ensures
        vcpu_read_regs_msg(base, field)[0] == field.code_spec(),
{
}

/// Law: the register-write encoding round-trips — the field identifier and
/// the value read back from the request are the encoded ones.
pub proof fn lemma_vcpu_write_regs_round_trip(base: Seq<Word>, field: VCpuReg, value: Word)
    requires
        base.len() == MSG_MAX_WORDS,
    ensures
        vcpu_write_regs_msg(base, field, value)[0] == field.code_spec(),
        vcpu_write_regs_msg(base, field, value)[1] == value,
{
}

/// Law: the interrupt-acknowledge encoding round-trips — the interrupt
/// number read back from the request is the encoded one.
pub proof fn lemma_vcpu_ack_vppi_round_trip(base: Seq<Word>, irq: Word)
    requires
        base.len() == MSG_MAX_WORDS,
    ensures
        vcpu_ack_vppi_msg(base, irq)[0] == irq,
{
}

/// Law: the interrupt-injection packing round-trips — each of the four
/// arguments read back from its field of the packed word is the original.
pub proof fn lemma_vcpu_inject_irq_round_trip(virq: u16, priority: u8, group: u8, index: u8)
    ensures
        vgic_word(virq, priority, group, index) & 0xffff == virq as u64,
        (vgic_word(virq, priority, group, index) >> 16) & 0xff == priority as u64,
        (vgic_word(virq, priority, group, index) >> 24) & 0xff == group as u64,
        (vgic_word(virq, priority, group, index) >> 32) & 0xff == index as u64,
{
    let v = virq as u64;
    let p = priority as u64;
    let g = group as u64;
    let ix = index as u64;
    assert((v < 0x10000 && p < 0x100 && g < 0x100 && ix < 0x100) ==> (((v | (p << 16) | (g << 24)
        | (ix << 32)) & 0xffff) == v && (((v | (p << 16) | (g << 24) | (ix << 32)) >> 16) & 0xff)
        == p && (((v | (p << 16) | (g << 24) | (ix << 32)) >> 24) & 0xff) == g && (((v | (p << 16)
        | (g << 24) | (ix << 32)) >> 32) & 0xff) == ix)) by (bit_vector);
}

/// Law: the secure-monitor-call marshaling round-trips — decoding a success
/// reply that carries exactly the encoded request words reproduces the
/// original context.
pub proof fn lemma_smc_round_trip(base: Seq<Word>, args: SmcContext)
    requires
        base.len() == MSG_MAX_WORDS,
    ensures
        smc_outcome_spec(Reply { label: 0, msg: smc_call_msg(base, args) }) == Ok::<
            SmcContext,
            Error,
        >(args),
{
}

/// Law: the frame-map encoding round-trips — the address, rights,
/// attributes and address-space root read back from the request are the
/// encoded ones, the address exactly.
pub proof fn lemma_frame_map_round_trip(
    base: Seq<Word>,
    caps: Seq<Word>,
    vaddr: usize,
    rights: CapRights,
    attrs: VmAttributes,
    vspace: VSpace,
)
    requires
        base.len() == MSG_MAX_WORDS,
        caps.len() == CAP_TRANSFER_SLOTS,
    ensures
        frame_map_msg(base, vaddr, rights, attrs)[0] == vaddr as u64,
        frame_map_msg(base, vaddr, rights, attrs)[0] as usize == vaddr,
        frame_map_msg(base, vaddr, rights, attrs)[1] == rights.word,
        frame_map_msg(base, vaddr, rights, attrs)[2] == attrs.word,
        frame_map_caps(caps, vspace)[0] == vspace.cptr.bits,
{
}

/// Law: the address-query decoding round-trips — a success reply carrying a
/// representable address decodes to exactly that address.
pub proof fn lemma_frame_get_address_round_trip(base: Seq<Word>, paddr: u64)
    requires
        base.len() == MSG_MAX_WORDS,
        paddr <= usize::MAX as u64,
    ensures
        frame_get_address_outcome_spec(Reply { label: 0, msg: base.update(0, paddr) }) == Ok::<
            usize,
            Error,
        >(paddr as usize),
{
}

/// Law: the page-table-map encoding round-trips.
pub proof fn lemma_pt_map_round_trip(
    base: Seq<Word>,
    caps: Seq<Word>,
    vaddr: usize,
    attr: VmAttributes,
    vspace: VSpace,
)
    requires
        base.len() == MSG_MAX_WORDS,
        caps.len() == CAP_TRANSFER_SLOTS,
    ensures
        pt_map_msg(base, vaddr, attr)[0] == vaddr as u64,
        pt_map_msg(base, vaddr, attr)[0] as usize == vaddr,
        pt_map_msg(base, vaddr, attr)[1] == attr.word,
        pt_map_caps(caps, vspace)[0] == vspace.cptr.bits,
{
}

/// Law: the interrupt-trigger encoding round-trips — interrupt number,
/// trigger mode, destination path, depth and root read back from the
/// request are the encoded ones.
pub proof fn lemma_irq_get_trigger_round_trip(
    base: Seq<Word>,
    caps: Seq<Word>,
    irq: Word,
    edge_triggered: bool,
    dst: AbsoluteCPtr,
)
    requires
        base.len() == MSG_MAX_WORDS,
        caps.len() == CAP_TRANSFER_SLOTS,
    ensures
        irq_get_trigger_msg(base, irq, edge_triggered, dst)[0] == irq,
        irq_get_trigger_msg(base, irq, edge_triggered, dst)[1] == bool_word(edge_triggered),
        irq_get_trigger_msg(base, irq, edge_triggered, dst)[2] == dst.path.bits,
        irq_get_trigger_msg(base, irq, edge_triggered, dst)[3] == dst.path.depth as Word,
        irq_dst_caps(caps, dst)[0] == dst.root.cptr.bits,
{
}

/// Law: the core-bound interrupt-trigger encoding round-trips; its first
/// four words are the plain trigger encoding's, and the fifth is the core.
pub proof fn lemma_irq_get_trigger_core_round_trip(
    base: Seq<Word>,
    irq: Word,
    edge_triggered: bool,
    target: Word,
    dst: AbsoluteCPtr,
)
    requires
        base.len() == MSG_MAX_WORDS,
    ensures
        irq_get_trigger_core_msg(base, irq, edge_triggered, target, dst)[0] == irq,
        irq_get_trigger_core_msg(base, irq, edge_triggered, target, dst)[1] == bool_word(
            edge_triggered,
        ),
        irq_get_trigger_core_msg(base, irq, edge_triggered, target, dst)[2] == dst.path.bits,
        irq_get_trigger_core_msg(base, irq, edge_triggered, target, dst)[3] == dst.path.depth
            as Word,
        irq_get_trigger_core_msg(base, irq, edge_triggered, target, dst)[4] == target,
{
}

/// Law: the pool-creation encoding round-trips — the destination path and
/// depth, the untyped region and the destination root read back from the
/// request are the encoded ones.
pub proof fn lemma_asid_control_make_pool_round_trip(
    base: Seq<Word>,
    caps: Seq<Word>,
    untyped: Untyped,
    dst: AbsoluteCPtr,
)
    requires
        base.len() == MSG_MAX_WORDS,
        caps.len() == CAP_TRANSFER_SLOTS,
    ensures
        asid_control_make_pool_msg(base, dst)[0] == dst.path.bits,
        asid_control_make_pool_msg(base, dst)[1] == dst.path.depth as Word,
        asid_control_make_pool_caps(caps, untyped, dst)[0] == untyped.cptr.bits,
        asid_control_make_pool_caps(caps, untyped, dst)[1] == dst.root.cptr.bits,
{
}

/// Law: the pool-assignment encoding round-trips — the slot read back from
/// the request is the encoded address-space root.
pub proof fn lemma_asid_pool_assign_round_trip(caps: Seq<Word>, vspace: VSpace)
    requires
        caps.len() == CAP_TRANSFER_SLOTS,
    ensures
        asid_pool_assign_caps(caps, vspace)[0] == vspace.cptr.bits,
{
}

} // verus!
