//! Invocation contexts that answer without a kernel.
//!
//! Both are chiefly for exercising the marshaling layer: [`EchoContext`]
//! reports success and leaves the request in the buffer to be read back, and
//! [`ScriptedContext`] answers each trap from a prepared script of replies.
//! Each is verified against the [`InvocationContext`] contract, so the typed
//! invocation functions' guarantees hold of runs under them.

use vstd::prelude::*;

use crate::ipc::InvocationContext;
use crate::ipc::IpcBuffer;
use crate::ipc::MessageInfo;
use crate::ipc::Reply;
use crate::Word;
use crate::MSG_MAX_WORDS;

verus! {

/// The status a scripted context answers once its script has run out: the
/// illegal-operation code, so that an over-long test run surfaces as a typed
/// error rather than as success.
pub const SCRIPT_EXHAUSTED_STATUS: u64 = 3;

/// The message words after a scripted trap: the scripted words, then the
/// request's own words where the script says nothing.
pub open spec fn overlay(base: Seq<Word>, words: Seq<Word>) -> Seq<Word> {
    Seq::new(
        base.len(),
        |i: int|
            if i < words.len() {
                words[i]
            } else {
                base[i]
            },
    )
}

/// A context that answers success and leaves the buffer exactly as the
/// request filled it, so a caller can read the marshaled words back.
pub struct EchoContext;

impl InvocationContext for EchoContext {
    /// Echoing answers status zero and the request's own words.
    open spec fn reply_spec(
        &self,
        service: Word,
        info: MessageInfo,
        msg: Seq<Word>,
        caps: Seq<Word>,
    ) -> Reply {
        Reply { label: 0, msg }
    }

    /// Echoing keeps no state: a trap leaves the context as it was.
    open spec fn step_spec(
        &self,
        service: Word,
        info: MessageInfo,
        msg: Seq<Word>,
        caps: Seq<Word>,
    ) -> EchoContext {
        *self
    }

    fn invoke(&mut self, service: Word, info: MessageInfo, ipc: &mut IpcBuffer) -> (reply:
        MessageInfo) {
        MessageInfo { label: 0, length: info.length, extra_caps: 0 }
    }
}

/// Law: an echoing context round-trips the marshaling step through a whole
/// invocation — its answer to any request is success carrying exactly the
/// request's own words, so what an invocation encoded can be read back
/// unchanged.
pub proof fn lemma_echo_round_trip(
    ctx: EchoContext,
    service: Word,
    info: MessageInfo,
    msg: Seq<Word>,
    caps: Seq<Word>,
)
    ensures
        ctx.reply_spec(service, info, msg, caps).label == 0,
        ctx.reply_spec(service, info, msg, caps).msg == msg,
{
}

/// One prepared answer of a [`ScriptedContext`]: the status to report and
/// the leading message words to leave in the buffer.
pub struct ScriptedReply {
    /// The raw status word of the reply.
    pub label: Word,
    /// The reply's leading message words; words beyond these keep the
    /// request's values, and words beyond the buffer are ignored.
    pub words: Vec<Word>,
}

/// A context that answers each trap from a script, in order, regardless of
/// the request; once the script runs out it answers
/// [`SCRIPT_EXHAUSTED_STATUS`] and leaves the buffer alone.
pub struct ScriptedContext {
    /// The prepared replies, consumed front to back.
    pub replies: Vec<ScriptedReply>,
    /// How many replies have been consumed.
    pub next: usize,
}

impl ScriptedContext {
    /// A context that will answer with `replies`, in order.
    pub fn new(replies: Vec<ScriptedReply>) -> (r: ScriptedContext)
        ensures
            r.replies@ == replies@,
            r.next == 0,
    {
        ScriptedContext { replies, next: 0 }
    }

    /// How many traps this context has answered.
    pub fn consumed(&self) -> (r: usize)
        ensures
            r == self.next,
    {
        self.next
    }
}

impl InvocationContext for ScriptedContext {
    /// The next scripted reply, or the exhausted status over an untouched
    /// buffer once the script has run out.
    open spec fn reply_spec(
        &self,
        service: Word,
        info: MessageInfo,
        msg: Seq<Word>,
        caps: Seq<Word>,
    ) -> Reply {
        if self.next < self.replies@.len() {
            Reply {
                label: self.replies@[self.next as int].label,
                msg: overlay(msg, self.replies@[self.next as int].words@),
            }
        } else {
            Reply { label: SCRIPT_EXHAUSTED_STATUS, msg }
        }
    }

    /// A trap consumes the next scripted reply, if one is left.
    open spec fn step_spec(
        &self,
        service: Word,
        info: MessageInfo,
        msg: Seq<Word>,
        caps: Seq<Word>,
    ) -> ScriptedContext {
        if self.next < self.replies@.len() {
            ScriptedContext { replies: self.replies, next: (self.next + 1) as usize }
        } else {
            *self
        }
    }

    fn invoke(&mut self, service: Word, info: MessageInfo, ipc: &mut IpcBuffer) -> (reply:
        MessageInfo) {
        if self.next < self.replies.len() {
            let ghost base = ipc.msg@;
            let sr = &self.replies[self.next];
            let count: usize = if sr.words.len() < MSG_MAX_WORDS {
                sr.words.len()
            } else {
                MSG_MAX_WORDS
            };
            let mut i: usize = 0;
            while i < count
                invariant
                    ipc.well_formed(),
                    i <= count,
                    count <= sr.words@.len(),
                    count <= MSG_MAX_WORDS,
                    count == if sr.words@.len() < MSG_MAX_WORDS {
                        sr.words@.len() as int
                    } else {
                        MSG_MAX_WORDS as int
                    },
                    base.len() == MSG_MAX_WORDS,
                    ipc.caps@ == old(ipc).caps@,
                    forall|j: int| 0 <= j < i ==> ipc.msg@[j] == sr.words@[j],
                    forall|j: int| i <= j < MSG_MAX_WORDS ==> ipc.msg@[j] == base[j],
                decreases count - i,
            {
                let w = sr.words[i];
                ipc.set_mr(i, w);
                i += 1;
            }
            proof {
                assert(ipc.msg@ =~= overlay(base, sr.words@));
            }
            let label = sr.label;
            let length: Word = count as Word;
            self.next = self.next + 1;
            MessageInfo { label, length, extra_caps: 0 }
        } else {
            MessageInfo { label: SCRIPT_EXHAUSTED_STATUS, length: 0, extra_caps: 0 }
        }
    }
}

} // verus!
