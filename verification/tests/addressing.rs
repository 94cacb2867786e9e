use sel4_invoke::AbsoluteCPtr;
use sel4_invoke::CNode;
use sel4_invoke::CPtr;
use sel4_invoke::CPtrWithDepth;
use sel4_invoke::IpcBuffer;
use sel4_invoke::ScriptedContext;
use sel4_invoke::ScriptedReply;
use sel4_invoke::SmallPage;
use sel4_invoke::Tcb;
use sel4_invoke::CAP_TRANSFER_SLOTS;
use sel4_invoke::MSG_MAX_WORDS;

#[test]
fn a_slot_address_keeps_its_bits() {
    let c = CPtr::from_bits(0x42);
    assert_eq!(c.bits(), 0x42);
}

#[test]
fn a_reference_keeps_its_slot_through_construction_and_cast() {
    let frame = SmallPage::from_bits(0x7);
    assert_eq!(frame.bits(), 0x7);
    assert_eq!(frame.cptr().bits(), 0x7);
    let retagged: Tcb = frame.cast();
    assert_eq!(retagged.bits(), 0x7);
    let again = Tcb::from_cptr(CPtr::from_bits(0x9));
    assert_eq!(again.bits(), 0x9);
}

#[test]
fn a_path_keeps_bits_and_depth() {
    let path = CPtrWithDepth::from_bits_with_depth(0x10, 8);
    assert_eq!(path.bits(), 0x10);
    assert_eq!(path.depth(), 8);
    assert_eq!(path.depth_for_kernel(), 8);
    let dst = AbsoluteCPtr::new(CNode::from_bits(2), path);
    assert_eq!(dst.root().bits(), 2);
    assert_eq!(dst.path(), path);
}

#[test]
fn a_fresh_buffer_is_clear_and_writable() {
    let mut ipc = IpcBuffer::new();
    for i in 0..MSG_MAX_WORDS {
        assert_eq!(ipc.get_mr(i), 0);
    }
    for i in 0..CAP_TRANSFER_SLOTS {
        assert_eq!(ipc.get_cap(i), 0);
    }
    ipc.set_mr(5, 55);
    ipc.set_cap(1, 11);
    assert_eq!(ipc.get_mr(5), 55);
    assert_eq!(ipc.get_cap(1), 11);
    assert_eq!(ipc.get_mr(4), 0);
    assert_eq!(ipc.get_cap(0), 0);
}

#[test]
fn an_overlong_scripted_reply_is_truncated_to_the_buffer() {
    let mut words = vec![0u64; MSG_MAX_WORDS + 1];
    words[0] = 0x5000;
    let mut kernel = ScriptedContext::new(vec![ScriptedReply { label: 0, words }]);
    let mut ipc = IpcBuffer::new();
    let frame = SmallPage::from_bits(21);
    assert_eq!(frame.frame_get_address(&mut kernel, &mut ipc), Ok(0x5000));
    assert_eq!(kernel.consumed(), 1);
}
