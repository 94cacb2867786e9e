//! Addressing primitives: capability references and capability-space paths.
//!
//! Construction performs no validation — a reference is a trusted cast of
//! slot bits to an asserted object kind, and a path's depth is checked only
//! by the kernel at invocation time.

use vstd::prelude::*;

use crate::cap_type;
use crate::Word;

verus! {

/// The bits of a capability-space slot, with no assertion about what the
/// slot holds.
#[derive(Clone, Copy, Debug, PartialEq, Eq, Structural)]
pub struct CPtr {
    /// The slot bits as the kernel's lookup algorithm reads them.
    pub bits: Word,
}

impl CPtr {
    /// The slot bits, for marshaling.
    pub fn bits(self) -> (r: Word)
        ensures
            r == self.bits,
    {
        self.bits
    }

    /// A slot address from raw bits; a trusted cast, no validation.
    pub fn from_bits(bits: Word) -> (r: CPtr)
        ensures
            r.bits == bits,
    {
        CPtr { bits }
    }
}

/// A capability reference: a slot plus a phantom tag naming the kernel
/// object kind the slot is asserted to hold.  The tag is trusted, not
/// verified; it only restricts, statically, which operations the reference
/// offers.
#[verifier::reject_recursive_types(T)]
pub struct Cap<T> {
    /// The slot the reference names.
    pub cptr: CPtr,
    /// The asserted object kind; no runtime representation.
    pub tag: core::marker::PhantomData<T>,
}

impl<T> Clone for Cap<T> {
    fn clone(&self) -> (r: Self)
        ensures
            r.cptr == self.cptr,
    {
        Cap { cptr: self.cptr, tag: core::marker::PhantomData }
    }
}

impl<T> Copy for Cap<T> {

}

impl<T: cap_type::CapType> Cap<T> {
    /// A reference from a slot address; a trusted cast, no validation.
    pub fn from_cptr(cptr: CPtr) -> (r: Cap<T>)
        ensures
            r.cptr == cptr,
    {
        Cap { cptr, tag: core::marker::PhantomData }
    }

    /// A reference from raw slot bits; a trusted cast, no validation.
    pub fn from_bits(bits: Word) -> (r: Cap<T>)
        ensures
            r.cptr.bits == bits,
    {
        Cap { cptr: CPtr { bits }, tag: core::marker::PhantomData }
    }

    /// The slot the reference names.
    pub fn cptr(self) -> (r: CPtr)
        ensures
            r == self.cptr,
    {
        self.cptr
    }

    /// The slot bits, for marshaling.
    pub fn bits(self) -> (r: Word)
        ensures
            r == self.cptr.bits,
    {
        self.cptr.bits
    }

    /// Re-assert the same slot as holding another object kind; a trusted
    /// cast, as every construction of a reference is.
    pub fn cast<T2: cap_type::CapType>(self) -> (r: Cap<T2>)
        ensures
            r.cptr == self.cptr,
    {
        Cap { cptr: self.cptr, tag: core::marker::PhantomData }
    }
}

/// A capability-space location relative to some root: address bits plus the
/// number of those bits that are significant.  The kernel, not this layer,
/// rejects a depth beyond the address width.
#[derive(Clone, Copy, Debug, PartialEq, Eq, Structural)]
pub struct CPtrWithDepth {
    /// The relative address bits.
    pub bits: Word,
    /// How many of the address bits are significant.
    pub depth: usize,
}

impl CPtrWithDepth {
    /// A relative location from bits and depth; validated only by the kernel.
    pub fn from_bits_with_depth(bits: Word, depth: usize) -> (r: CPtrWithDepth)
        ensures
            r.bits == bits,
            r.depth == depth,
    {
        CPtrWithDepth { bits, depth }
    }

    /// The relative address bits, for marshaling.
    pub fn bits(self) -> (r: Word)
        ensures
            r == self.bits,
    {
        self.bits
    }

    /// The number of significant bits.
    pub fn depth(self) -> (r: usize)
        ensures
            r == self.depth,
    {
        self.depth
    }

    /// The depth as the word the wire format carries.
    pub fn depth_for_kernel(self) -> (r: Word)
        ensures
            r == self.depth as Word,
    {
        self.depth as Word
    }
}

/// A capability-space location in absolute terms: a root node plus a
/// relative path below it.  Invocations that install a new capability name
/// their destination this way.
#[derive(Clone, Copy)]
pub struct AbsoluteCPtr {
    /// The node the path starts from.
    pub root: CNode,
    /// The location below the root.
    pub path: CPtrWithDepth,
}

impl AbsoluteCPtr {
    /// An absolute location from its root and relative path.
    pub fn new(root: CNode, path: CPtrWithDepth) -> (r: AbsoluteCPtr)
        ensures
            r.root == root,
            r.path == path,
    {
        AbsoluteCPtr { root, path }
    }

    /// The node the path starts from.
    pub fn root(&self) -> (r: CNode)
        ensures
            r == self.root,
    {
        self.root
    }

    /// The location below the root.
    pub fn path(&self) -> (r: CPtrWithDepth)
        ensures
            r == self.path,
    {
        self.path
    }
}

/// A reference asserted to hold a virtual CPU.
pub type VCpu = Cap<cap_type::VCpu>;

/// A reference asserted to hold a page of the smallest supported size.
pub type SmallPage = Cap<cap_type::SmallPage>;

/// A reference asserted to hold a page of the intermediate supported size.
pub type LargePage = Cap<cap_type::LargePage>;

/// A reference asserted to hold a page of the largest supported size.
pub type HugePage = Cap<cap_type::HugePage>;

/// A reference asserted to hold a virtual-address-space root.
pub type VSpace = Cap<cap_type::VSpace>;

/// A reference asserted to hold an intermediate page table.
pub type PT = Cap<cap_type::PT>;

/// A reference asserted to hold the secure-monitor-call authority.
pub type Smc = Cap<cap_type::Smc>;

/// A reference asserted to hold the interrupt-control authority.
pub type IrqControl = Cap<cap_type::IrqControl>;

/// A reference asserted to hold the pool-creation authority.
pub type AsidControl = Cap<cap_type::AsidControl>;

/// A reference asserted to hold an address-space-identifier pool.
pub type AsidPool = Cap<cap_type::AsidPool>;

/// A reference asserted to hold a thread control block.
pub type Tcb = Cap<cap_type::Tcb>;

/// A reference asserted to hold a region of untyped kernel memory.
pub type Untyped = Cap<cap_type::Untyped>;

/// A reference asserted to hold a capability-space node.
pub type CNode = Cap<cap_type::CNode>;

/// A reference asserted to hold some intermediate translation table whose
/// concrete kind a dispatch value selects at run time.
pub type UnspecifiedIntermediateTranslationTable = Cap<
    cap_type::UnspecifiedIntermediateTranslationTable,
>;

/// Alias for the page size an address space is granulated in.
pub type Granule = Cap<cap_type::Granule>;

} // verus!
