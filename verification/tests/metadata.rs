use sel4_invoke::FrameObjectType;
use sel4_invoke::ObjectBlueprintArm;
use sel4_invoke::SmcContext;
use sel4_invoke::TranslationTableObjectType;
use sel4_invoke::VCpuReg;
use sel4_invoke::VmAttributes;

#[test]
fn blueprint_sizes_are_the_kernel_object_sizes() {
    assert_eq!(ObjectBlueprintArm::SmallPage.physical_size_bits(), 12);
    assert_eq!(ObjectBlueprintArm::LargePage.physical_size_bits(), 21);
    assert_eq!(ObjectBlueprintArm::HugePage.physical_size_bits(), 30);
    assert_eq!(ObjectBlueprintArm::PT.physical_size_bits(), 12);
    assert_eq!(ObjectBlueprintArm::VSpace.physical_size_bits(), 13);
    assert_eq!(ObjectBlueprintArm::VCpu.physical_size_bits(), 12);
}

#[test]
fn blueprints_align_to_their_own_size() {
    assert_eq!(ObjectBlueprintArm::SmallPage.alignment_bits(), 12);
    assert_eq!(ObjectBlueprintArm::LargePage.alignment_bits(), 21);
    assert_eq!(ObjectBlueprintArm::HugePage.alignment_bits(), 30);
    assert_eq!(ObjectBlueprintArm::PT.alignment_bits(), 12);
    assert_eq!(ObjectBlueprintArm::VSpace.alignment_bits(), 13);
    assert_eq!(ObjectBlueprintArm::VCpu.alignment_bits(), 12);
}

#[test]
fn frame_kinds_name_their_sizes_and_blueprints() {
    assert_eq!(FrameObjectType::SmallPage.bits(), 12);
    assert_eq!(FrameObjectType::LargePage.bits(), 21);
    assert_eq!(FrameObjectType::HugePage.bits(), 30);
    assert_eq!(
        FrameObjectType::SmallPage.blueprint(),
        ObjectBlueprintArm::SmallPage
    );
    assert_eq!(
        FrameObjectType::LargePage.blueprint(),
        ObjectBlueprintArm::LargePage
    );
    assert_eq!(
        FrameObjectType::HugePage.blueprint(),
        ObjectBlueprintArm::HugePage
    );
}

#[test]
fn translation_table_kinds_name_their_blueprints() {
    assert_eq!(
        TranslationTableObjectType::VSpace.blueprint(),
        ObjectBlueprintArm::VSpace
    );
    assert_eq!(
        TranslationTableObjectType::PT.blueprint(),
        ObjectBlueprintArm::PT
    );
}

#[test]
fn vcpu_register_fields_have_distinct_identifiers() {
    let fields = vec![
        VCpuReg::Sctlr,
        VCpuReg::Ttbr0,
        VCpuReg::Ttbr1,
        VCpuReg::Tcr,
        VCpuReg::Mair,
        VCpuReg::Amair,
        VCpuReg::Vbar,
        VCpuReg::Spsr,
        VCpuReg::Elr,
        VCpuReg::Sp,
        VCpuReg::Tpidr,
    ];
    for (i, a) in fields.iter().enumerate() {
        assert_eq!(a.into_sys(), i as u64);
        for b in fields.iter().skip(i + 1) {
            assert_ne!(a.into_sys(), b.into_sys());
        }
    }
}

#[test]
fn default_attributes_and_context_are_clear() {
    assert_eq!(VmAttributes::default().into_inner(), 0);
    let ctx = SmcContext::default();
    assert_eq!(
        ctx,
        SmcContext { x0: 0, x1: 0, x2: 0, x3: 0, x4: 0, x5: 0, x6: 0, x7: 0 }
    );
}
