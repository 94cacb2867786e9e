//! Compile-time tags naming kernel object kinds.
//!
//! A capability reference carries one of these tags as a phantom type
//! parameter.  The tag is trusted, not verified: whatever constructed the
//! reference asserts that the slot holds an object of that kind, and this
//! layer only uses the tag to restrict, statically, which operations can be
//! asked of the reference.

use vstd::prelude::*;

verus! {

/// A marker implemented by every object-kind tag.
pub trait CapType {
}

/// A marker for the object kinds that are frame-like: mappable into an
/// address space page by page.
pub trait CapTypeForFrameObject: CapType {
}

/// Tag: a virtual CPU of the hypervisor extensions.
#[derive(Clone, Copy)]
pub struct VCpu;

/// Tag: a page of the smallest supported size.
#[derive(Clone, Copy)]
pub struct SmallPage;

/// Tag: a page of the intermediate supported size.
#[derive(Clone, Copy)]
pub struct LargePage;

/// Tag: a page of the largest supported size.
#[derive(Clone, Copy)]
pub struct HugePage;

/// Tag: a virtual-address-space root object.
#[derive(Clone, Copy)]
pub struct VSpace;

/// Tag: an intermediate page table.
#[derive(Clone, Copy)]
pub struct PT;

/// Tag: the authority to perform secure-monitor calls.
#[derive(Clone, Copy)]
pub struct Smc;

/// Tag: the authority to hand out interrupt-handling capabilities.
#[derive(Clone, Copy)]
pub struct IrqControl;

/// Tag: the authority to create address-space-identifier pools.
#[derive(Clone, Copy)]
pub struct AsidControl;

/// Tag: a pool of address-space identifiers.
#[derive(Clone, Copy)]
pub struct AsidPool;

/// Tag: a thread control block.
#[derive(Clone, Copy)]
pub struct Tcb;

/// Tag: a region of untyped kernel memory.
#[derive(Clone, Copy)]
pub struct Untyped;

/// Tag: a capability-space node, the root of a lookup path.
#[derive(Clone, Copy)]
pub struct CNode;

/// Tag: an intermediate translation table whose concrete kind is chosen at
/// run time by a [`crate::TranslationTableObjectType`] value.
#[derive(Clone, Copy)]
pub struct UnspecifiedIntermediateTranslationTable;

/// Alias for the page size an address space is granulated in.
pub type Granule = SmallPage;

impl CapType for VCpu {
}

impl CapType for SmallPage {
}

impl CapType for LargePage {
}

impl CapType for HugePage {
}

impl CapType for VSpace {
}

impl CapType for PT {
}

impl CapType for Smc {
}

impl CapType for IrqControl {
}

impl CapType for AsidControl {
}

impl CapType for AsidPool {
}

impl CapType for Tcb {
}

impl CapType for Untyped {
}

impl CapType for CNode {
}

impl CapType for UnspecifiedIntermediateTranslationTable {
}

impl CapTypeForFrameObject for SmallPage {
}

impl CapTypeForFrameObject for LargePage {
}

impl CapTypeForFrameObject for HugePage {
}

} // verus!
