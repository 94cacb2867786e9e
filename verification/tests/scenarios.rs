use std::collections::HashMap;
use std::collections::HashSet;

use sel4_invoke::AbsoluteCPtr;
use sel4_invoke::CNode;
use sel4_invoke::CPtrWithDepth;
use sel4_invoke::CapRights;
use sel4_invoke::Error;
use sel4_invoke::InvocationContext;
use sel4_invoke::IpcBuffer;
use sel4_invoke::MessageInfo;
use sel4_invoke::Reply;
use sel4_invoke::ScriptedContext;
use sel4_invoke::ScriptedReply;
use sel4_invoke::SmallPage;
use sel4_invoke::TranslationTableObjectType;
use sel4_invoke::UnspecifiedIntermediateTranslationTable;
use sel4_invoke::VSpace;
use sel4_invoke::VmAttributes;
use sel4_invoke::LABEL_PAGE_GET_ADDRESS;
use sel4_invoke::LABEL_PAGE_MAP;
use sel4_invoke::LABEL_PAGE_UNMAP;

/// A stand-in kernel that tracks which frames are mapped and answers the
/// address query only for mapped frames.
struct FakeVm {
    phys: HashMap<u64, u64>,
    mapped: HashSet<u64>,
}

impl FakeVm {
    fn with_backing(frame_bits: u64, paddr: u64) -> FakeVm {
        let mut phys = HashMap::new();
        phys.insert(frame_bits, paddr);
        FakeVm { phys, mapped: HashSet::new() }
    }
}

impl InvocationContext for FakeVm {
    // The proof-level model of this context; it has no runtime behaviour and
    // is never called.
    fn reply_spec(
        &self,
        _service: u64,
        _info: MessageInfo,
        _msg: vstd::seq::Seq<u64>,
        _caps: vstd::seq::Seq<u64>,
    ) -> Reply {
        panic!("the reply model is proof-level only");
    }

    // Likewise proof-level only.
    fn step_spec(
        &self,
        _service: u64,
        _info: MessageInfo,
        _msg: vstd::seq::Seq<u64>,
        _caps: vstd::seq::Seq<u64>,
    ) -> FakeVm {
        panic!("the step model is proof-level only");
    }

    fn invoke(&mut self, service: u64, info: MessageInfo, ipc: &mut IpcBuffer) -> MessageInfo {
        if info.label == LABEL_PAGE_MAP {
            self.mapped.insert(service);
            MessageInfo { label: 0, length: 0, extra_caps: 0 }
        } else if info.label == LABEL_PAGE_UNMAP {
            self.mapped.remove(&service);
            MessageInfo { label: 0, length: 0, extra_caps: 0 }
        } else if info.label == LABEL_PAGE_GET_ADDRESS {
            if self.mapped.contains(&service) {
                let paddr = *self.phys.get(&service).expect("a backing address is preset");
                ipc.set_mr(0, paddr);
                MessageInfo { label: 0, length: 1, extra_caps: 0 }
            } else {
                MessageInfo { label: Error::FailedLookup.into_sys(), length: 0, extra_caps: 0 }
            }
        } else {
            MessageInfo { label: Error::IllegalOperation.into_sys(), length: 0, extra_caps: 0 }
        }
    }
}

#[test]
fn mapping_a_small_frame_then_querying_returns_its_backing_address() {
    let mut kernel = FakeVm::with_backing(21, 0x8060_0000);
    let mut ipc = IpcBuffer::new();
    let frame = SmallPage::from_bits(21);
    let vspace = VSpace::from_bits(9);
    let mapped = frame.frame_map(
        &mut kernel,
        &mut ipc,
        vspace,
        0x1000,
        CapRights::from_word(0b11),
        VmAttributes::default(),
    );
    assert_eq!(mapped, Ok(()));
    let addr = frame.frame_get_address(&mut kernel, &mut ipc);
    assert_eq!(addr, Ok(0x8060_0000));
}

#[test]
fn an_unmapped_frame_is_not_reachable_by_the_address_query() {
    let mut kernel = FakeVm::with_backing(21, 0x8060_0000);
    let mut ipc = IpcBuffer::new();
    let frame = SmallPage::from_bits(21);
    let vspace = VSpace::from_bits(9);
    assert_eq!(
        frame.frame_map(
            &mut kernel,
            &mut ipc,
            vspace,
            0x1000,
            CapRights::from_word(0b11),
            VmAttributes::default(),
        ),
        Ok(())
    );
    assert_eq!(frame.frame_get_address(&mut kernel, &mut ipc), Ok(0x8060_0000));
    assert_eq!(frame.frame_unmap(&mut kernel, &mut ipc), Ok(()));
    assert_eq!(
        frame.frame_get_address(&mut kernel, &mut ipc),
        Err(Error::FailedLookup)
    );
    // Only a fresh map makes the frame reachable again.
    assert_eq!(
        frame.frame_map(
            &mut kernel,
            &mut ipc,
            vspace,
            0x2000,
            CapRights::from_word(0b11),
            VmAttributes::default(),
        ),
        Ok(())
    );
    assert_eq!(frame.frame_get_address(&mut kernel, &mut ipc), Ok(0x8060_0000));
}

#[test]
fn requesting_a_claimed_irq_reports_address_in_use() {
    let script = vec![
        ScriptedReply { label: 0, words: vec![] },
        ScriptedReply { label: Error::AddressInUse.into_sys(), words: vec![] },
    ];
    let mut kernel = ScriptedContext::new(script);
    let mut ipc = IpcBuffer::new();
    let irq_control = sel4_invoke::IrqControl::from_bits(50);
    let dst = AbsoluteCPtr::new(
        CNode::from_bits(2),
        CPtrWithDepth::from_bits_with_depth(0x10, 8),
    );
    let first = irq_control.irq_control_get_trigger(&mut kernel, &mut ipc, 33, true, &dst);
    assert_eq!(first, Ok(()));
    let second = irq_control.irq_control_get_trigger(&mut kernel, &mut ipc, 33, true, &dst);
    assert_eq!(second, Err(Error::AddressInUse));
    assert_eq!(kernel.consumed(), 2);
}

#[test]
fn generic_table_map_delegates_for_a_supported_kind() {
    let mut kernel = ScriptedContext::new(vec![ScriptedReply { label: 0, words: vec![] }]);
    let mut ipc = IpcBuffer::new();
    let table = UnspecifiedIntermediateTranslationTable::from_bits(13);
    let vspace = VSpace::from_bits(9);
    let r = table.generic_intermediate_translation_table_map(
        &mut kernel,
        &mut ipc,
        TranslationTableObjectType::PT,
        vspace,
        0x20_0000,
        VmAttributes::default(),
    );
    assert_eq!(r, Ok(()));
    assert_eq!(kernel.consumed(), 1);
    assert_eq!(ipc.get_mr(0), 0x20_0000);
    assert_eq!(ipc.get_cap(0), 9);
}

#[test]
fn generic_table_map_refuses_an_unsupported_kind_without_trapping() {
    let mut kernel = ScriptedContext::new(vec![]);
    let mut ipc = IpcBuffer::new();
    let table = UnspecifiedIntermediateTranslationTable::from_bits(13);
    let vspace = VSpace::from_bits(9);
    let r = table.generic_intermediate_translation_table_map(
        &mut kernel,
        &mut ipc,
        TranslationTableObjectType::VSpace,
        vspace,
        0x20_0000,
        VmAttributes::default(),
    );
    assert_eq!(r, Err(Error::UnsupportedObjectKind));
    assert_eq!(kernel.consumed(), 0);
}

#[test]
fn a_scripted_reply_word_reaches_the_caller() {
    let mut kernel = ScriptedContext::new(vec![ScriptedReply {
        label: 0,
        words: vec![0xabc0_0000],
    }]);
    let mut ipc = IpcBuffer::new();
    let frame = SmallPage::from_bits(21);
    assert_eq!(
        frame.frame_get_address(&mut kernel, &mut ipc),
        Ok(0xabc0_0000)
    );
}

#[test]
fn an_exhausted_script_answers_a_typed_error() {
    let mut kernel = ScriptedContext::new(vec![]);
    let mut ipc = IpcBuffer::new();
    let frame = SmallPage::from_bits(21);
    assert_eq!(
        frame.frame_unmap(&mut kernel, &mut ipc),
        Err(Error::IllegalOperation)
    );
    assert_eq!(kernel.consumed(), 0);
}
