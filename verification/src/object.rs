//! Static metadata of the creatable kernel object kinds: sizes, alignments,
//! and the architecture-neutral names shared code selects by.

use vstd::prelude::*;

verus! {

/// A blueprint of a creatable kernel object: which kind, and thereby its
/// size and alignment.  Allocation collaborators read these; no invocation
/// behaviour lives here.
#[derive(Clone, Copy, Debug, PartialEq, Eq, Structural)]
pub enum ObjectBlueprintArm {
    /// A page of the smallest supported size.
    SmallPage,
    /// A page of the intermediate supported size.
    LargePage,
    /// A page of the largest supported size.
    HugePage,
    /// An intermediate page table.
    PT,
    /// A virtual-address-space root.
    VSpace,
    /// A virtual CPU of the hypervisor extensions.
    VCpu,
}

impl ObjectBlueprintArm {
    /// The object's size as a power-of-two exponent in bits.
    pub open spec fn physical_size_bits_spec(self) -> usize {
        match self {
            ObjectBlueprintArm::SmallPage => 12,
            ObjectBlueprintArm::LargePage => 21,
            ObjectBlueprintArm::HugePage => 30,
            ObjectBlueprintArm::PT => 12,
            ObjectBlueprintArm::VSpace => 13,
            ObjectBlueprintArm::VCpu => 12,
        }
    }

    /// The object's size as a power-of-two exponent in bits.
    pub fn physical_size_bits(self) -> (r: usize)
        ensures
            r == self.physical_size_bits_spec(),
    {
        match self {
            ObjectBlueprintArm::SmallPage => 12,
            ObjectBlueprintArm::LargePage => 21,
            ObjectBlueprintArm::HugePage => 30,
            ObjectBlueprintArm::PT => 12,
            ObjectBlueprintArm::VSpace => 13,
            ObjectBlueprintArm::VCpu => 12,
        }
    }

    /// The object's required alignment as a power-of-two exponent in bits;
    /// every kind here is aligned to its own size.
    pub fn alignment_bits(self) -> (r: usize)
        ensures
            r == self.physical_size_bits_spec(),
    {
        self.physical_size_bits()
    }
}

/// The frame-like object kinds: what can be mapped into an address space as
/// a page.
#[derive(Clone, Copy, Debug, PartialEq, Eq, Structural)]
pub enum FrameObjectType {
    /// A page of the smallest supported size.
    SmallPage,
    /// A page of the intermediate supported size.
    LargePage,
    /// A page of the largest supported size.
    HugePage,
}

impl FrameObjectType {
    /// The frame's size as a power-of-two exponent in bits.
    pub open spec fn bits_spec(self) -> usize {
        match self {
            FrameObjectType::SmallPage => 12,
            FrameObjectType::LargePage => 21,
            FrameObjectType::HugePage => 30,
        }
    }

    /// The frame's size as a power-of-two exponent in bits.
    pub fn bits(self) -> (r: usize)
        ensures
            r == self.bits_spec(),
    {
        match self {
            FrameObjectType::SmallPage => 12,
            FrameObjectType::LargePage => 21,
            FrameObjectType::HugePage => 30,
        }
    }

    /// The blueprint that creates a frame of this kind.
    pub fn blueprint(self) -> (r: ObjectBlueprintArm)
        ensures
            r.physical_size_bits_spec() == self.bits_spec(),
    {
        match self {
            FrameObjectType::SmallPage => ObjectBlueprintArm::SmallPage,
            FrameObjectType::LargePage => ObjectBlueprintArm::LargePage,
            FrameObjectType::HugePage => ObjectBlueprintArm::HugePage,
        }
    }
}

/// The structural roles an intermediate translation table can fill.  Shared
/// code selects among same-purpose objects by one of these without naming
/// the concrete architecture kind.
#[derive(Clone, Copy, Debug, PartialEq, Eq, Structural)]
pub enum TranslationTableObjectType {
    /// The address-space root; it anchors translation and is never itself
    /// mapped below another table.
    VSpace,
    /// An intermediate page table, mappable below the root.
    PT,
}

impl TranslationTableObjectType {
    /// The blueprint that creates a table of this kind.
    pub fn blueprint(self) -> (r: ObjectBlueprintArm)
        ensures
            self == TranslationTableObjectType::VSpace ==> r == ObjectBlueprintArm::VSpace,
            self == TranslationTableObjectType::PT ==> r == ObjectBlueprintArm::PT,
    {
        match self {
            TranslationTableObjectType::VSpace => ObjectBlueprintArm::VSpace,
            TranslationTableObjectType::PT => ObjectBlueprintArm::PT,
        }
    }
}

} // verus!
