//! The invocation context: the message buffer an invocation marshals its
//! request into, and the trap primitive that hands the request to the kernel.
//!
//! The buffer is scoped to one execution thread and used exclusively for the
//! duration of one request/response pair; every invocation takes it as an
//! explicit `&mut` borrow that cannot outlive the call.

use vstd::prelude::*;

use crate::Word;
use crate::CAP_TRANSFER_SLOTS;
use crate::MSG_MAX_WORDS;

verus! {

/// The header of a request or reply: which operation (or, in a reply, which
/// status), how many message words follow, and how many capabilities are
/// transferred alongside.
#[derive(Clone, Copy, Debug, PartialEq, Eq, Structural)]
pub struct MessageInfo {
    /// The operation's opcode in a request; the raw status in a reply.
    pub label: Word,
    /// How many message-register words carry meaning.
    pub length: Word,
    /// How many capability-transfer slots carry meaning.
    pub extra_caps: Word,
}

impl MessageInfo {
    /// The counts fit the buffer they describe.
    pub open spec fn well_formed(self) -> bool {
        self.length <= MSG_MAX_WORDS as Word && self.extra_caps <= CAP_TRANSFER_SLOTS as Word
    }
}

/// The thread's message buffer: the message-register words and
/// capability-transfer slots of one invocation.  Meaningful only for the
/// duration of one request/response pair and reused across invocations.
pub struct IpcBuffer {
    /// The message-register words; always [`MSG_MAX_WORDS`] of them.
    pub msg: Vec<Word>,
    /// The capability-transfer slots; always [`CAP_TRANSFER_SLOTS`] of them.
    pub caps: Vec<Word>,
}

impl IpcBuffer {
    /// The buffer has its fixed shape.
    pub open spec fn well_formed(self) -> bool {
        self.msg@.len() == MSG_MAX_WORDS && self.caps@.len() == CAP_TRANSFER_SLOTS
    }

    /// A fresh buffer, every word clear.
    pub fn new() -> (r: IpcBuffer)
        ensures
            r.well_formed(),
            forall|i: int| 0 <= i < MSG_MAX_WORDS ==> r.msg@[i] == 0,
            forall|i: int| 0 <= i < CAP_TRANSFER_SLOTS ==> r.caps@[i] == 0,
    {
        let mut msg: Vec<Word> = Vec::new();
        while msg.len() < MSG_MAX_WORDS
            invariant
                msg@.len() <= MSG_MAX_WORDS,
                forall|i: int| 0 <= i < msg@.len() ==> msg@[i] == 0,
            decreases MSG_MAX_WORDS - msg@.len(),
        {
            msg.push(0);
        }
        let mut caps: Vec<Word> = Vec::new();
        while caps.len() < CAP_TRANSFER_SLOTS
            invariant
                caps@.len() <= CAP_TRANSFER_SLOTS,
                forall|i: int| 0 <= i < caps@.len() ==> caps@[i] == 0,
            decreases CAP_TRANSFER_SLOTS - caps@.len(),
        {
            caps.push(0);
        }
        IpcBuffer { msg, caps }
    }

    /// Write one message-register word of the request.
    pub fn set_mr(&mut self, i: usize, w: Word)
        requires
            old(self).well_formed(),
            i < MSG_MAX_WORDS,
        ensures
            final(self).well_formed(),
            final(self).msg@ == old(self).msg@.update(i as int, w),
            final(self).caps@ == old(self).caps@,
    {
        self.msg[i] = w;
    }

    /// Read one message-register word of the reply.
    pub fn get_mr(&self, i: usize) -> (r: Word)
        requires
            self.well_formed(),
            i < MSG_MAX_WORDS,
        ensures
            r == self.msg@[i as int],
    {
        self.msg[i]
    }

    /// Fill one capability-transfer slot of the request.
    pub fn set_cap(&mut self, i: usize, bits: Word)
        requires
            old(self).well_formed(),
            i < CAP_TRANSFER_SLOTS,
        ensures
            final(self).well_formed(),
            final(self).caps@ == old(self).caps@.update(i as int, bits),
            final(self).msg@ == old(self).msg@,
    {
        self.caps[i] = bits;
    }

    /// Read one capability-transfer slot.
    pub fn get_cap(&self, i: usize) -> (r: Word)
        requires
            self.well_formed(),
            i < CAP_TRANSFER_SLOTS,
        ensures
            r == self.caps@[i as int],
    {
        self.caps[i]
    }
}

/// The model of what one trap answers: the raw status and the message words
/// the buffer holds afterwards.
pub struct Reply {
    /// The raw status word of the reply.
    pub label: Word,
    /// The message-register words after the trap.
    pub msg: Seq<Word>,
}

/// The capability every invocation depends on: exclusive use of the message
/// buffer for the duration of one call, and a primitive performing exactly
/// one synchronous trap.
///
/// Implementations live outside this crate (glue around the real trap
/// instruction) or in [`crate::ScriptedContext`] and [`crate::EchoContext`]
/// for testing; each answers according to its own [`Self::reply_spec`].
/// A trap always returns; nothing here retries, blocks beyond the trap, or
/// cancels.
pub trait InvocationContext: Sized {
    /// What this context answers to a given request: a function of the
    /// context's state, the invoked slot, the request header, and the buffer
    /// contents at the moment of the trap.
    spec fn reply_spec(&self, service: Word, info: MessageInfo, msg: Seq<Word>, caps: Seq<Word>) -> Reply;

    /// The context's state after exactly one trap on the given request.
    spec fn step_spec(&self, service: Word, info: MessageInfo, msg: Seq<Word>, caps: Seq<Word>) -> Self;

    /// Perform exactly one trap: hand the request in `ipc` to the kernel and
    /// leave the reply there.  The context afterwards is its state advanced
    /// by one step on this one request — no retry, no second trap, no
    /// reordering can meet this contract — and the capability-transfer slots
    /// keep the request's values.
    fn invoke(&mut self, service: Word, info: MessageInfo, ipc: &mut IpcBuffer) -> (reply: MessageInfo)
        requires
            old(ipc).well_formed(),
            info.well_formed(),
        ensures
            final(ipc).well_formed(),
            reply.well_formed(),
            reply.label == old(self).reply_spec(service, info, old(ipc).msg@, old(ipc).caps@).label,
            final(ipc).msg@ == old(self).reply_spec(service, info, old(ipc).msg@, old(ipc).caps@).msg,
            final(ipc).caps@ == old(ipc).caps@,
            *final(self) == old(self).step_spec(service, info, old(ipc).msg@, old(ipc).caps@),
    ;
}

} // verus!
