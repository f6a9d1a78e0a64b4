//! The serial-port command broker.
//!
//! One UART is shared by many concurrent tasks. A task enters the priority
//! queue under a fresh identifier, waits until it stands at the front,
//! claims the dispatch, and only then may drive the UART; the broker hands
//! it a [`CommandSession`] that walks through flush, write and polling
//! read, and the UART lock is held from the start of the session until the
//! broker completes it.
//!
//! The queue orders tasks by priority, and first-come-first-served among
//! equal priorities, so high-priority work (answering or ending a call,
//! switching the HAT off) overtakes *waiting* normal work. A task that has
//! already claimed the dispatch keeps it until it dequeues, whatever
//! enqueues behind it: its multi-step command flows run unbroken, and no
//! later arrival can steal the UART mid-flow.
//!
//! The byte I/O itself is not here: a driver loop asks the session for the
//! next [`UartAction`], performs it on the device, and reports what
//! happened; every decision in between is made and checked in this module.

use vstd::prelude::*;

use crate::error::Error;
use crate::resolver::{resolution, run_resolver, ResolvedValue, ResolverKind};
use vstd::utf8::{decode_utf8, valid_utf8};

verus! {

/// The two scheduling classes of a task. `NORMAL` ranks below `HIGH`.
#[allow(non_camel_case_types)]
#[derive(Clone, Copy, Debug, PartialEq, Eq, Structural)]
pub enum TaskPriority {
    NORMAL,
    HIGH,
}

/// The numeric rank of a priority: `NORMAL` below `HIGH`.
pub open spec fn rank(p: TaskPriority) -> int {
    match p {
        TaskPriority::NORMAL => 0,
        TaskPriority::HIGH => 1,
    }
}

/// The identifier of one spawned task.
#[derive(Clone, Copy, Debug, PartialEq, Eq, Structural)]
pub struct TaskId {
    pub value: u128,
}

/// One waiting task: its identifier and its priority.
#[derive(Clone, Copy, Debug, PartialEq, Eq, Structural)]
pub struct QueueEntry {
    pub id: TaskId,
    pub pri: TaskPriority,
}

/// `id` is among the entries of `s`.
pub open spec fn queue_contains(s: Seq<QueueEntry>, id: TaskId) -> bool {
    exists|i: int| 0 <= i < s.len() && s[i].id == id
}

/// No identifier appears twice in `s`.
pub open spec fn queue_wf(s: Seq<QueueEntry>) -> bool {
    forall|i: int, j: int|
        0 <= i < j < s.len() ==> (#[trigger] s[i].id) != (#[trigger] s[j].id)
}

/// Index `i` holds the entry the queue serves next: no entry outranks it,
/// and every earlier entry ranks strictly below it — so among the
/// top-ranked entries it is the one pushed first.
pub open spec fn is_front(s: Seq<QueueEntry>, i: int) -> bool {
    &&& 0 <= i < s.len()
    &&& forall|j: int| 0 <= j < s.len() ==> rank(#[trigger] s[j].pri) <= rank(s[i].pri)
    &&& forall|j: int| 0 <= j < i ==> rank(#[trigger] s[j].pri) < rank(s[i].pri)
}

/// `s` with the first entry carrying `id` removed.
pub open spec fn queue_remove(s: Seq<QueueEntry>, id: TaskId) -> Seq<QueueEntry>
    decreases s.len(),
{
    if s.len() == 0 {
        s
    } else if s[0].id == id {
        s.drop_first()
    } else {
        seq![s[0]] + queue_remove(s.drop_first(), id)
    }
}

/// Every non-empty queue has a front entry.
pub proof fn lemma_front_exists(s: Seq<QueueEntry>)
    requires
        s.len() > 0,
    ensures
        exists|i: int| is_front(s, i),
    decreases s.len(),
{
    if s.len() == 1 {
        assert(is_front(s, 0));
    } else {
        let sub = s.drop_last();
        lemma_front_exists(sub);
        let i = choose|i: int| is_front(sub, i);
        assert(forall|j: int| 0 <= j < sub.len() ==> sub[j] == s[j]);
        if rank(s[s.len() - 1].pri) > rank(s[i].pri) {
            assert(is_front(s, s.len() - 1));
        } else {
            assert(is_front(s, i));
        }
    }
}

/// The front index of a queue is unique.
pub proof fn lemma_front_unique(s: Seq<QueueEntry>, i: int, j: int)
    requires
        is_front(s, i),
        is_front(s, j),
    ensures
        i == j,
{
    if i < j {
        assert(rank(s[i].pri) < rank(s[j].pri));
        assert(rank(s[j].pri) <= rank(s[i].pri));
    }
    if j < i {
        assert(rank(s[j].pri) < rank(s[i].pri));
        assert(rank(s[i].pri) <= rank(s[j].pri));
    }
}

/// Fairness of the front (the queue's ordering contract): the entry served
/// next always carries the greatest rank present, and every earlier-pushed
/// entry of that rank would have been served first.
pub proof fn lemma_front_fair(s: Seq<QueueEntry>, i: int, j: int)
    requires
        is_front(s, i),
        0 <= j < s.len(),
    ensures
        rank(s[j].pri) <= rank(s[i].pri),
        j < i ==> rank(s[j].pri) < rank(s[i].pri),
        j < i && rank(s[j].pri) == rank(s[i].pri) ==> false,
{
}

/// While any high-priority entry waits, the front is the earliest-pushed
/// high-priority entry, and every entry before it is normal-priority.
pub proof fn lemma_front_prefers_high(s: Seq<QueueEntry>, h: int, i: int)
    requires
        0 <= h < s.len(),
        s[h].pri == TaskPriority::HIGH,
        is_front(s, i),
    ensures
        s[i].pri == TaskPriority::HIGH,
        forall|j: int| 0 <= j < i ==> s[j].pri == TaskPriority::NORMAL,
        forall|j: int| 0 <= j < i ==> s[j].pri != TaskPriority::HIGH,
{
    assert(rank(s[h].pri) <= rank(s[i].pri));
    assert forall|j: int| 0 <= j < i implies s[j].pri == TaskPriority::NORMAL by {
        assert(rank(s[j].pri) < rank(s[i].pri));
    }
}

/// Removing the first occurrence of `id`, described by its index: when `i`
/// is the earliest index carrying `id`, the removal deletes exactly `s[i]`.
pub proof fn lemma_queue_remove_at(s: Seq<QueueEntry>, id: TaskId, i: int)
    requires
        0 <= i < s.len(),
        s[i].id == id,
        forall|j: int| 0 <= j < i ==> s[j].id != id,
    ensures
        queue_remove(s, id) == s.subrange(0, i) + s.subrange(i + 1, s.len() as int),
    decreases s.len(),
{
    if i == 0 {
        assert(queue_remove(s, id) =~= s.subrange(0, 0) + s.subrange(
            1,
            s.len() as int,
        ));
    } else {
        let sub = s.drop_first();
        assert(forall|j: int| 0 <= j < sub.len() ==> sub[j] == s[j + 1]);
        lemma_queue_remove_at(sub, id, i - 1);
        assert(queue_remove(s, id) =~= s.subrange(0, i) + s.subrange(
            i + 1,
            s.len() as int,
        )) by {
            assert(queue_remove(s, id) == seq![s[0]] + (sub.subrange(0, i - 1)
                + sub.subrange(i, sub.len() as int)));
        }
    }
}

/// Removing an identifier that is not in the queue changes nothing.
pub proof fn lemma_queue_remove_absent(s: Seq<QueueEntry>, id: TaskId)
    requires
        !queue_contains(s, id),
    ensures
        queue_remove(s, id) == s,
    decreases s.len(),
{
    if s.len() > 0 {
        assert(s[0].id != id);
        let sub = s.drop_first();
        assert forall|j: int| 0 <= j < sub.len() implies sub[j].id != id by {
            assert(sub[j] == s[j + 1]);
        }
        lemma_queue_remove_absent(sub, id);
        assert(queue_remove(s, id) =~= s);
    }
}

/// Enqueueing a fresh task and then removing it leaves the queue exactly as
/// it was: same length, same membership, same order.
pub proof fn lemma_push_then_remove(s: Seq<QueueEntry>, e: QueueEntry)
    requires
        !queue_contains(s, e.id),
    ensures
        queue_remove(s.push(e), e.id) == s,
{
    let t = s.push(e);
    assert forall|j: int| 0 <= j < s.len() implies t[j].id != e.id by {
        assert(t[j] == s[j]);
    }
    lemma_queue_remove_at(t, e.id, s.len() as int);
    assert(t.subrange(0, s.len() as int) =~= s);
    assert(t.subrange(s.len() as int + 1, t.len() as int) =~= Seq::<
        QueueEntry,
    >::empty());
    assert(queue_remove(t, e.id) =~= s);
}

/// Removal keeps well-formedness and removes the identifier.
pub proof fn lemma_queue_remove_wf(s: Seq<QueueEntry>, id: TaskId, i: int)
    requires
        queue_wf(s),
        0 <= i < s.len(),
        s[i].id == id,
        forall|j: int| 0 <= j < i ==> s[j].id != id,
    ensures
        queue_wf(queue_remove(s, id)),
        !queue_contains(queue_remove(s, id), id),
        queue_remove(s, id).len() == s.len() - 1,
{
    lemma_queue_remove_at(s, id, i);
    let r = queue_remove(s, id);
    assert(r.len() == s.len() - 1);
    assert forall|a: int, b: int| 0 <= a < b < r.len() implies (#[trigger] r[a].id)
        != (#[trigger] r[b].id) by {
        let a0 = if a < i {
            a
        } else {
            a + 1
        };
        let b0 = if b < i {
            b
        } else {
            b + 1
        };
        assert(r[a] == s[a0]);
        assert(r[b] == s[b0]);
    }
    assert forall|a: int| 0 <= a < r.len() implies (#[trigger] r[a].id) != id by {
        let a0 = if a < i {
            a
        } else {
            a + 1
        };
        assert(r[a] == s[a0]);
        if a0 != i {
            assert(s[a0].id != s[i].id || a0 == i) by {
                if a0 < i {
                } else {
                }
            }
        }
    }
}

/// The waiting queue: entries in arrival order, each identifier at most
/// once. The front is computed from priority ranks with first-come
/// tie-breaking, as [`is_front`] states.
pub struct TaskQueue {
    entries: Vec<QueueEntry>,
}

impl View for TaskQueue {
    type V = Seq<QueueEntry>;

    closed spec fn view(&self) -> Seq<QueueEntry> {
        self.entries@
    }
}

impl TaskQueue {
    /// An empty queue.
    pub fn new() -> (r: TaskQueue)
        ensures
            r@ == Seq::<QueueEntry>::empty(),
    {
        TaskQueue { entries: Vec::new() }
    }

    /// How many tasks are waiting.
    pub fn len(&self) -> (r: usize)
        ensures
            r == self@.len(),
    {
        self.entries.len()
    }

    /// Whether `id` is waiting in the queue.
    pub fn contains(&self, id: TaskId) -> (r: bool)
        ensures
            r == queue_contains(self@, id),
    {
        let n = self.entries.len();
        let mut i: usize = 0;
        while i < n
            invariant
                0 <= i <= n,
                n == self@.len(),
                forall|j: int| 0 <= j < i ==> self@[j].id != id,
            decreases n - i,
        {
            if self.entries[i].id.value == id.value {
                return true;
            }
            i = i + 1;
        }
        false
    }

    /// Appends a task that is not yet in the queue.
    pub fn push(&mut self, id: TaskId, pri: TaskPriority)
        requires
            !queue_contains(old(self)@, id),
        ensures
            final(self)@ == old(self)@.push(QueueEntry { id, pri }),
    {
        self.entries.push(QueueEntry { id, pri });
    }

    /// The entry the queue serves next: the earliest-pushed entry of the
    /// greatest priority present.
    pub fn peek(&self) -> (r: Option<QueueEntry>)
        ensures
            match r {
                Some(e) => exists|i: int| is_front(self@, i) && self@[i] == e,
                None => self@.len() == 0,
            },
    {
        let n = self.entries.len();
        if n == 0 {
            return None;
        }
        let mut best: usize = 0;
        let mut i: usize = 1;
        while i < n
            invariant
                0 <= best < i <= n,
                n == self@.len(),
                forall|j: int|
                    0 <= j < i ==> rank(#[trigger] self@[j].pri) <= rank(
                        self@[best as int].pri,
                    ),
                forall|j: int|
                    0 <= j < best ==> rank(#[trigger] self@[j].pri) < rank(
                        self@[best as int].pri,
                    ),
            decreases n - i,
        {
            let higher = match (self.entries[i].pri, self.entries[best].pri) {
                (TaskPriority::HIGH, TaskPriority::NORMAL) => true,
                _ => false,
            };
            if higher {
                best = i;
            }
            i = i + 1;
        }
        proof {
            assert(is_front(self@, best as int));
        }
        Some(self.entries[best])
    }

    /// Removes the task `id` from the queue, if it is there.
    pub fn remove(&mut self, id: TaskId)
        ensures
            final(self)@ == queue_remove(old(self)@, id),
    {
        let n = self.entries.len();
        let mut i: usize = 0;
        while i < n
            invariant
                0 <= i <= n,
                n == self@.len(),
                self@ == old(self)@,
                forall|j: int| 0 <= j < i ==> self@[j].id != id,
            decreases n - i,
        {
            if self.entries[i].id.value == id.value {
                proof {
                    lemma_queue_remove_at(self@, id, i as int);
                }
                self.entries.remove(i);
                proof {
                    assert(self@ =~= old(self)@.subrange(0, i as int) + old(
                        self,
                    )@.subrange(i + 1, old(self)@.len() as int));
                }
                return ;
            }
            i = i + 1;
        }
        proof {
            assert(!queue_contains(self@, id));
            lemma_queue_remove_absent(self@, id);
        }
    }
}

// ---------------------------------------------------------------------------
// The polling read session
// ---------------------------------------------------------------------------
/// The default per-command timeout.
pub const DEFAULT_TIMEOUT_MS: u64 = 1000;

/// The text a byte buffer reads as: its UTF-8 decoding, or — when the
/// bytes are not valid UTF-8 — the empty text, which no resolver can
/// mistake for an answer.
pub open spec fn text_of(bytes: Seq<u8>) -> Seq<char> {
    if valid_utf8(bytes) {
        decode_utf8(bytes)
    } else {
        Seq::empty()
    }
}

/// Relies on `String::from_utf8`: it accepts exactly the byte strings that
/// are valid UTF-8 and decodes them; invalid bytes are absorbed as the
/// empty text here.
#[verifier::external_body]
fn utf8_or_empty(bytes: &Vec<u8>) -> (r: String)
    ensures
        r@ == text_of(bytes@),
{
    match String::from_utf8(bytes.clone()) {
        Ok(s) => s,
        Err(_) => String::new(),
    }
}

/// Relies on `uuid::Uuid::new_v4` for a freshly drawn 128-bit identifier;
/// nothing is assumed about the value drawn.
#[verifier::external_body]
fn mint_id_value() -> (r: u128) {
    uuid::Uuid::new_v4().as_u128()
}

/// Which of the three UART operations a session performs: the full
/// flush-write-poll command path, a fire-and-forget write, or a bare
/// polling read.
#[derive(Clone, Copy, Debug, PartialEq, Eq, Structural)]
pub enum UartOp {
    Process,
    WriteOnly,
    ReadOnly,
}

/// Where a session stands.
#[derive(Clone, Copy, Debug, PartialEq, Eq, Structural)]
pub enum SessionPhase {
    Flushing,
    Writing,
    Polling,
    Finished,
}

/// The next piece of device work a session asks for.
#[derive(Clone, Copy, Debug, PartialEq, Eq, Structural)]
pub enum UartAction {
    /// Discard buffered bytes in both directions.
    FlushBoth,
    /// Discard buffered input bytes.
    FlushInput,
    /// Write the session's command bytes.
    SendCommand,
    /// Read whatever bytes are available within the short poll window.
    ReadChunk,
    /// Nothing left: take the outcome.
    Finish,
}

/// One UART operation in progress: the state machine behind `process`,
/// `write` and `read`. A driver loop performs the [`UartAction`] the
/// session asks for and reports back; every decision — when to write,
/// what the resolver sees, when the timeout ends the call — is made here.
///
/// The response buffer starts empty after the flush, so no bytes of an
/// earlier command can reach this session's resolver, and the resolver
/// always sees the whole accumulated response text.
pub struct CommandSession {
    /// The task this session belongs to.
    pub task: TaskId,
    /// Which operation this session performs.
    pub op: UartOp,
    /// The command line to write.
    pub cmd: String,
    /// The resolver for the response text.
    pub resolver: ResolverKind,
    /// The per-call timeout.
    pub timeout_ms: u64,
    /// The accumulated response bytes of this session.
    pub buffer: Vec<u8>,
    /// Where the session stands.
    pub phase: SessionPhase,
    /// The final outcome, present exactly when the session is finished.
    pub outcome: Option<Result<ResolvedValue, Error>>,
}

impl CommandSession {
    /// The session's structural invariant: an outcome exists exactly when
    /// it is finished, and nothing is buffered before polling begins.
    pub open spec fn wf(self) -> bool {
        &&& (self.phase is Finished) == (self.outcome is Some)
        &&& (self.phase is Flushing || self.phase is Writing) ==> self.buffer@.len()
            == 0
        &&& (self.phase is Flushing) ==> !(self.op is ReadOnly)
        &&& (self.phase is Writing) ==> !(self.op is ReadOnly)
    }

    /// What the driver loop should do next.
    pub fn next_action(&self) -> (a: UartAction)
        ensures
            a == match self.phase {
                SessionPhase::Flushing => if self.op is WriteOnly {
                    UartAction::FlushInput
                } else {
                    UartAction::FlushBoth
                },
                SessionPhase::Writing => UartAction::SendCommand,
                SessionPhase::Polling => UartAction::ReadChunk,
                SessionPhase::Finished => UartAction::Finish,
            },
    {
        match self.phase {
            SessionPhase::Flushing => match self.op {
                UartOp::WriteOnly => UartAction::FlushInput,
                _ => UartAction::FlushBoth,
            },
            SessionPhase::Writing => UartAction::SendCommand,
            SessionPhase::Polling => UartAction::ReadChunk,
            SessionPhase::Finished => UartAction::Finish,
        }
    }

    /// The flush went through: the command may be written. The buffer is
    /// still empty, so the resolver will see post-flush bytes only.
    pub fn on_flush_done(&mut self)
        requires
            old(self).phase is Flushing,
            old(self).wf(),
        ensures
            final(self).wf(),
            final(self).phase is Writing,
            final(self).buffer@.len() == 0,
            final(self).task == old(self).task,
            final(self).op == old(self).op,
            final(self).cmd == old(self).cmd,
            final(self).resolver == old(self).resolver,
            final(self).timeout_ms == old(self).timeout_ms,
            final(self).outcome is None,
    {
        self.phase = SessionPhase::Writing;
    }

    /// The command bytes went out. A fire-and-forget write is now done; a
    /// full command turns to polling with an empty response buffer.
    pub fn on_write_done(&mut self)
        requires
            old(self).phase is Writing,
            old(self).wf(),
        ensures
            final(self).wf(),
            final(self).task == old(self).task,
            final(self).op == old(self).op,
            final(self).resolver == old(self).resolver,
            final(self).timeout_ms == old(self).timeout_ms,
            old(self).op is WriteOnly ==> final(self).phase is Finished && final(self).outcome == Some(Ok::<ResolvedValue, Error>(ResolvedValue::Unit)),
            !(old(self).op is WriteOnly) ==> final(self).phase is Polling && final(self).outcome is None && final(self).buffer@.len() == 0,
    {
        match self.op {
            UartOp::WriteOnly => {
                self.outcome = Some(Ok(ResolvedValue::Unit));
                self.phase = SessionPhase::Finished;
            },
            _ => {
                self.phase = SessionPhase::Polling;
            },
        }
    }

    /// The device reported a transport fault: the session ends with that
    /// error at once.
    pub fn on_uart_failure(&mut self, e: Error)
        requires
            !(old(self).phase is Finished),
            old(self).wf(),
        ensures
            final(self).wf(),
            final(self).phase is Finished,
            final(self).outcome == Some(Err::<ResolvedValue, Error>(e)),
            final(self).task == old(self).task,
    {
        self.outcome = Some(Err(e));
        self.phase = SessionPhase::Finished;
    }

    /// One poll window passed: `chunk` holds the bytes it yielded (possibly
    /// none) and `elapsed_ms` the wall-clock time since polling began. The
    /// chunk joins the response buffer, the resolver reads the whole
    /// accumulated text, and the session finishes on a terminal outcome —
    /// or on the timeout, with `NotResolved`, once `elapsed_ms` passes
    /// `timeout_ms`.
    pub fn on_chunk(&mut self, chunk: Vec<u8>, elapsed_ms: u64)
        requires
            old(self).phase is Polling,
            old(self).wf(),
        ensures
            final(self).wf(),
            final(self).buffer@ == old(self).buffer@ + chunk@,
            final(self).task == old(self).task,
            final(self).op == old(self).op,
            final(self).resolver == old(self).resolver,
            final(self).timeout_ms == old(self).timeout_ms,
            ({
                let res = resolution(
                    old(self).resolver,
                    text_of(old(self).buffer@ + chunk@),
                );
                match res {
                    Ok(v) => final(self).phase is Finished && match final(self).outcome {
                        Some(Ok(w)) => w@ == v,
                        _ => false,
                    },
                    Err(e) => if e == Error::NotResolved {
                        if elapsed_ms > old(self).timeout_ms {
                            final(self).phase is Finished && final(self).outcome
                                == Some(
                                Err::<ResolvedValue, Error>(Error::NotResolved),
                            )
                        } else {
                            final(self).phase is Polling && final(self).outcome
                                is None
                        }
                    } else {
                        final(self).phase is Finished && final(self).outcome
                            == Some(Err::<ResolvedValue, Error>(e))
                    },
                }
            }),
    {
        let mut incoming = chunk;
        self.buffer.append(&mut incoming);
        let decoded = utf8_or_empty(&self.buffer);
        match run_resolver(self.resolver, decoded.as_str()) {
            Ok(v) => {
                self.outcome = Some(Ok(v));
                self.phase = SessionPhase::Finished;
            },
            Err(e) => {
                let is_not_resolved = match e {
                    Error::NotResolved => true,
                    _ => false,
                };
                if is_not_resolved {
                    if elapsed_ms > self.timeout_ms {
                        self.outcome = Some(Err(Error::NotResolved));
                        self.phase = SessionPhase::Finished;
                    }
                } else {
                    self.outcome = Some(Err(e));
                    self.phase = SessionPhase::Finished;
                }
            },
        }
    }
}

// ---------------------------------------------------------------------------
// Command requests and sequences
// ---------------------------------------------------------------------------
/// One planned UART operation: which path to take, the exact command
/// line, the resolver for its answer, the per-call timeout (the broker's
/// default when `None`) and the task priority it should run under.
#[derive(Clone, Debug)]
pub struct CommandRequest {
    pub op: UartOp,
    pub cmd: String,
    pub resolver: ResolverKind,
    pub timeout_ms: Option<u64>,
    pub priority: TaskPriority,
}

/// The mathematical image of a [`CommandRequest`].
pub struct CommandRequestView {
    pub op: UartOp,
    pub cmd: Seq<char>,
    pub resolver: ResolverKind,
    pub timeout_ms: Option<u64>,
    pub priority: TaskPriority,
}

impl View for CommandRequest {
    type V = CommandRequestView;

    open spec fn view(&self) -> CommandRequestView {
        CommandRequestView {
            op: self.op,
            cmd: self.cmd@,
            resolver: self.resolver,
            timeout_ms: self.timeout_ms,
            priority: self.priority,
        }
    }
}

impl DeepView for CommandRequest {
    type V = CommandRequestView;

    open spec fn deep_view(&self) -> CommandRequestView {
        self.view()
    }
}

/// A normal-priority full command path with the given text, resolver and
/// timeout.
pub open spec fn process_view(
    cmd: Seq<char>,
    resolver: ResolverKind,
    timeout_ms: Option<u64>,
) -> CommandRequestView {
    CommandRequestView {
        op: UartOp::Process,
        cmd,
        resolver,
        timeout_ms,
        priority: TaskPriority::NORMAL,
    }
}

/// Builds a normal-priority full command path.
pub fn process_request(cmd: &str, resolver: ResolverKind, timeout_ms: Option<u64>) -> (r:
    CommandRequest)
    ensures
        r@ == process_view(cmd@, resolver, timeout_ms),
{
    CommandRequest {
        op: UartOp::Process,
        cmd: String::from_str(cmd),
        resolver,
        timeout_ms,
        priority: TaskPriority::NORMAL,
    }
}

/// A multi-step command flow run under one task: the steps go out in
/// order, the first failing step's error ends the flow and becomes its
/// outcome, and a flow that runs through returns the last step's value.
/// Because the enclosing task keeps its head-of-queue turn throughout, no
/// other task's bytes can interleave between the steps.
pub struct CommandSequence {
    /// The planned steps, in order.
    pub steps: Vec<CommandRequest>,
    /// The step to run next.
    pub next: usize,
    /// The flow's outcome, present once it is decided.
    pub outcome: Option<Result<ResolvedValue, Error>>,
}

impl CommandSequence {
    /// The sequence's structural invariant.
    pub open spec fn wf(self) -> bool {
        &&& self.steps@.len() > 0
        &&& self.outcome is None ==> self.next < self.steps@.len()
    }

    /// A fresh flow over the given steps.
    pub fn new(steps: Vec<CommandRequest>) -> (r: CommandSequence)
        requires
            steps@.len() > 0,
        ensures
            r.wf(),
            r.steps == steps,
            r.next == 0,
            r.outcome is None,
    {
        CommandSequence { steps, next: 0, outcome: None }
    }

    /// Whether the flow has reached its outcome.
    pub fn is_done(&self) -> (b: bool)
        ensures
            b == (self.outcome is Some),
    {
        self.outcome.is_some()
    }

    /// Feeds the outcome of the step just run: an error ends the flow with
    /// that error; the last step's success value becomes the flow's value;
    /// otherwise the flow moves to the next step.
    pub fn on_result(&mut self, res: Result<ResolvedValue, Error>)
        requires
            old(self).wf(),
            old(self).outcome is None,
        ensures
            final(self).wf(),
            final(self).steps == old(self).steps,
            match res {
                Err(e) => final(self).outcome == Some(
                    Err::<ResolvedValue, Error>(e),
                ) && final(self).next == old(self).next,
                Ok(v) => if old(self).next + 1 == old(self).steps@.len() {
                    final(self).outcome == Some(Ok::<ResolvedValue, Error>(v))
                        && final(self).next == old(self).next
                } else {
                    final(self).outcome is None && final(self).next == old(
                        self,
                    ).next + 1
                },
            },
    {
        match res {
            Err(e) => {
                self.outcome = Some(Err(e));
            },
            Ok(v) => {
                let total = self.steps.len();
                if self.next + 1 == total {
                    self.outcome = Some(Ok(v));
                } else {
                    self.next = self.next + 1;
                }
            },
        }
    }
}

// ---------------------------------------------------------------------------
// The broker
// ---------------------------------------------------------------------------
/// The serial-port broker: the one path to the UART. It owns the waiting
/// queue, the dispatch grant and the UART lock. A waiting task is granted
/// the UART when it stands at the front of the queue and no other task is
/// dispatched; from that moment later arrivals — however high their
/// priority — cannot take the turn away, so a multi-step flow runs
/// unbroken until its task dequeues. The UART lock itself is taken per
/// session and released when the session is completed — on success, error
/// and timeout alike.
pub struct SerialPort {
    queue: TaskQueue,
    granted: Option<TaskId>,
    uart_holder: Option<TaskId>,
}

impl SerialPort {
    /// The waiting queue, in arrival order.
    pub closed spec fn queue_view(&self) -> Seq<QueueEntry> {
        self.queue@
    }

    /// The dispatched task: the one whose turn it is until it dequeues.
    pub closed spec fn grantee(&self) -> Option<TaskId> {
        self.granted
    }

    /// Who holds the UART lock, if anyone.
    pub closed spec fn holder(&self) -> Option<TaskId> {
        self.uart_holder
    }

    /// The broker's invariant: no task is queued twice, and a dispatched
    /// task is still waiting in the queue.
    pub open spec fn wf(&self) -> bool {
        &&& queue_wf(self.queue_view())
        &&& match self.grantee() {
            Some(g) => queue_contains(self.queue_view(), g),
            None => true,
        }
    }

    /// It is `id`'s turn: either `id` is the dispatched task, or no task
    /// is dispatched and `id` stands at the front of the queue.
    pub open spec fn turn_of(&self, id: TaskId) -> bool {
        match self.grantee() {
            Some(g) => g == id,
            None => exists|i: int|
                is_front(self.queue_view(), i) && self.queue_view()[i].id == id,
        }
    }

    /// A fresh broker: empty queue, no task dispatched, UART free.
    pub fn new() -> (r: SerialPort)
        ensures
            r.queue_view() == Seq::<QueueEntry>::empty(),
            r.grantee() is None,
            r.holder() is None,
            r.wf(),
    {
        SerialPort { queue: TaskQueue::new(), granted: None, uart_holder: None }
    }

    /// Mints a fresh task identifier and enqueues it with `pri`. An
    /// identifier is always returned when the queue is empty; only a
    /// collision of the drawn identifier with one already waiting —
    /// vanishingly unlikely — leaves the queue unchanged and returns
    /// nothing, and the caller draws again.
    pub fn enqueue_task(&mut self, pri: TaskPriority) -> (r: Option<TaskId>)
        requires
            old(self).wf(),
        ensures
            final(self).wf(),
            final(self).holder() == old(self).holder(),
            final(self).grantee() == old(self).grantee(),
            r is None ==> old(self).queue_view().len() > 0,
            match r {
                Some(id) => !queue_contains(old(self).queue_view(), id) && final(self).queue_view() == old(self).queue_view().push(
                    QueueEntry { id, pri },
                ),
                None => final(self).queue_view() == old(self).queue_view(),
            },
    {
        let id = TaskId { value: mint_id_value() };
        if self.queue.contains(id) {
            return None;
        }
        proof {
            let s = self.queue_view();
            let e = QueueEntry { id, pri };
            assert forall|i: int, j: int|
                0 <= i < j < s.push(e).len() implies (#[trigger] s.push(e)[i].id)
                != (#[trigger] s.push(e)[j].id) by {
                if j < s.len() {
                } else {
                    assert(s.push(e)[j] == e);
                    assert(s.push(e)[i] == s[i]);
                }
            }
            match self.grantee() {
                Some(g) => lemma_contains_after_push(s, e, g),
                None => {},
            }
        }
        self.queue.push(id, pri);
        Some(id)
    }

    /// Whether `id` is waiting in the queue.
    pub fn contains_task(&self, id: TaskId) -> (r: bool)
        ensures
            r == queue_contains(self.queue_view(), id),
    {
        self.queue.contains(id)
    }

    /// How many tasks are waiting.
    pub fn queue_len(&self) -> (r: usize)
        ensures
            r == self.queue_view().len(),
    {
        self.queue.len()
    }

    /// Whether the UART lock is free.
    pub fn uart_free(&self) -> (r: bool)
        ensures
            r == (self.holder() is None),
    {
        self.uart_holder.is_none()
    }

    /// Whether `id` holds the UART lock.
    pub fn holds_uart(&self, id: TaskId) -> (r: bool)
        ensures
            r == (self.holder() == Some(id)),
    {
        match &self.uart_holder {
            Some(h) => h.value == id.value,
            None => false,
        }
    }

    /// Whether it is `id`'s turn: the test a waiting task repeats until
    /// it may claim the dispatch. A dispatched task answers for itself
    /// alone; with no dispatch active, the front of the queue answers.
    pub fn is_turn(&self, id: TaskId) -> (r: bool)
        ensures
            r == self.turn_of(id),
    {
        if let Some(g) = &self.granted {
            return g.value == id.value;
        }
        match self.queue.peek() {
            Some(e) => {
                proof {
                    if e.id != id && self.turn_of(id) {
                        let i = choose|i: int|
                            is_front(self.queue_view(), i) && self.queue_view()[i].id == id;
                        let j = choose|j: int|
                            is_front(self.queue_view(), j) && self.queue_view()[j] == e;
                        lemma_front_unique(self.queue_view(), i, j);
                    }
                }
                e.id.value == id.value
            },
            None => {
                proof {
                    if self.turn_of(id) {
                        let i = choose|i: int| is_front(self.queue_view(), i);
                    }
                }
                false
            },
        }
    }

    /// Claims the dispatch for `id`: succeeds exactly when it is `id`'s
    /// turn, and from then on `id` keeps the turn — whatever enqueues
    /// behind it — until it dequeues. The task runner calls this once
    /// when its head-of-queue wait ends, before the first UART step.
    pub fn claim_turn(&mut self, id: TaskId) -> (r: bool)
        requires
            old(self).wf(),
        ensures
            final(self).wf(),
            r == old(self).turn_of(id),
            final(self).queue_view() == old(self).queue_view(),
            final(self).holder() == old(self).holder(),
            r ==> final(self).grantee() == Some(id),
            !r ==> final(self).grantee() == old(self).grantee(),
    {
        if self.is_turn(id) {
            proof {
                lemma_turn_implies_waiting(*self, id);
            }
            self.granted = Some(id);
            true
        } else {
            false
        }
    }

    /// Opens the full command path for `id`: flush both directions, write
    /// `cmd`, then poll under `timeout_ms` (the default when none is
    /// given). Only the task whose turn it is may open it, and only while
    /// the UART is free; the call confirms the dispatch grant for `id`,
    /// so the caller keeps its turn for further steps of a multi-step
    /// flow no matter what enqueues meanwhile.
    pub fn process(
        &mut self,
        id: TaskId,
        cmd: String,
        resolver: ResolverKind,
        timeout_ms: Option<u64>,
    ) -> (r: CommandSession)
        requires
            old(self).wf(),
            old(self).turn_of(id),
            old(self).holder() is None,
        ensures
            final(self).wf(),
            final(self).queue_view() == old(self).queue_view(),
            final(self).grantee() == Some(id),
            final(self).holder() == Some(id),
            r.wf(),
            r.task == id,
            r.op is Process,
            r.cmd == cmd,
            r.resolver == resolver,
            r.timeout_ms == match timeout_ms {
                Some(t) => t,
                None => DEFAULT_TIMEOUT_MS as u64,
            },
            r.phase is Flushing,
            r.buffer@.len() == 0,
            r.outcome is None,
    {
        proof {
            lemma_turn_implies_waiting(*self, id);
        }
        self.granted = Some(id);
        self.uart_holder = Some(id);
        CommandSession {
            task: id,
            op: UartOp::Process,
            cmd,
            resolver,
            timeout_ms: match timeout_ms {
                Some(t) => t,
                None => DEFAULT_TIMEOUT_MS,
            },
            buffer: Vec::new(),
            phase: SessionPhase::Flushing,
            outcome: None,
        }
    }

    /// Opens the fire-and-forget write path for `id`: flush the input
    /// queue, then write `cmd` and finish without reading.
    pub fn write(&mut self, id: TaskId, cmd: String) -> (r: CommandSession)
        requires
            old(self).wf(),
            old(self).turn_of(id),
            old(self).holder() is None,
        ensures
            final(self).wf(),
            final(self).queue_view() == old(self).queue_view(),
            final(self).grantee() == Some(id),
            final(self).holder() == Some(id),
            r.wf(),
            r.task == id,
            r.op is WriteOnly,
            r.cmd == cmd,
            r.phase is Flushing,
            r.buffer@.len() == 0,
            r.outcome is None,
    {
        proof {
            lemma_turn_implies_waiting(*self, id);
        }
        self.granted = Some(id);
        self.uart_holder = Some(id);
        CommandSession {
            task: id,
            op: UartOp::WriteOnly,
            cmd,
            resolver: ResolverKind::HttpOk,
            timeout_ms: DEFAULT_TIMEOUT_MS,
            buffer: Vec::new(),
            phase: SessionPhase::Flushing,
            outcome: None,
        }
    }

    /// Opens the bare read path for `id`: no flush, no write, just polling
    /// the given resolver under the timeout.
    pub fn read(
        &mut self,
        id: TaskId,
        resolver: ResolverKind,
        timeout_ms: Option<u64>,
    ) -> (r: CommandSession)
        requires
            old(self).wf(),
            old(self).turn_of(id),
            old(self).holder() is None,
        ensures
            final(self).wf(),
            final(self).queue_view() == old(self).queue_view(),
            final(self).grantee() == Some(id),
            final(self).holder() == Some(id),
            r.wf(),
            r.task == id,
            r.op is ReadOnly,
            r.resolver == resolver,
            r.timeout_ms == match timeout_ms {
                Some(t) => t,
                None => DEFAULT_TIMEOUT_MS as u64,
            },
            r.phase is Polling,
            r.buffer@.len() == 0,
            r.outcome is None,
    {
        proof {
            lemma_turn_implies_waiting(*self, id);
        }
        self.granted = Some(id);
        self.uart_holder = Some(id);
        CommandSession {
            task: id,
            op: UartOp::ReadOnly,
            cmd: String::new(),
            resolver,
            timeout_ms: match timeout_ms {
                Some(t) => t,
                None => DEFAULT_TIMEOUT_MS,
            },
            buffer: Vec::new(),
            phase: SessionPhase::Polling,
            outcome: None,
        }
    }

    /// Closes a finished session and releases the UART lock — on success,
    /// error and timeout alike — handing back the session's outcome. The
    /// queue and the dispatch grant are untouched: the task keeps its
    /// turn until it dequeues.
    pub fn complete(&mut self, session: CommandSession) -> (r: Result<
        ResolvedValue,
        Error,
    >)
        requires
            old(self).wf(),
            old(self).holder() == Some(session.task),
            session.phase is Finished,
            session.wf(),
        ensures
            final(self).wf(),
            final(self).queue_view() == old(self).queue_view(),
            final(self).grantee() == old(self).grantee(),
            final(self).holder() is None,
            session.outcome == Some(r),
    {
        self.uart_holder = None;
        match session.outcome {
            Some(r) => r,
            None => {
                proof {
                    assert(false);
                }
                Err(Error::NotResolved)
            },
        }
    }

    /// Takes `id` out of the waiting queue once its work is done, giving
    /// up its dispatch grant with it; only then can another task's turn
    /// begin.
    pub fn dequeue_task(&mut self, id: TaskId)
        requires
            old(self).wf(),
        ensures
            final(self).wf(),
            final(self).holder() == old(self).holder(),
            final(self).grantee() == (if old(self).grantee() == Some(id) {
                None::<TaskId>
            } else {
                old(self).grantee()
            }),
            final(self).queue_view() == queue_remove(old(self).queue_view(), id),
    {
        let own_grant = match &self.granted {
            Some(g) => g.value == id.value,
            None => false,
        };
        if own_grant {
            self.granted = None;
        }
        proof {
            let s = self.queue_view();
            if queue_contains(s, id) {
                let w = choose|i: int| 0 <= i < s.len() && s[i].id == id;
                lemma_first_id_index(s, id, w);
            } else {
                lemma_queue_remove_absent(s, id);
            }
            match self.grantee() {
                Some(g) => lemma_queue_remove_keeps_other(s, id, g),
                None => {},
            }
        }
        self.queue.remove(id);
    }
}

/// The turn implies a place in the queue: a dispatched task is waiting by
/// the broker's invariant, and a front entry is one of the queue's own.
proof fn lemma_turn_implies_waiting(sp: SerialPort, id: TaskId)
    requires
        sp.wf(),
        sp.turn_of(id),
    ensures
        queue_contains(sp.queue_view(), id),
{
    match sp.grantee() {
        Some(g) => {
        },
        None => {
            let i = choose|i: int|
                is_front(sp.queue_view(), i) && sp.queue_view()[i].id == id;
            assert(0 <= i < sp.queue_view().len() && sp.queue_view()[i].id == id);
        },
    }
}

/// Membership survives an append.
proof fn lemma_contains_after_push(s: Seq<QueueEntry>, e: QueueEntry, g: TaskId)
    requires
        queue_contains(s, g),
    ensures
        queue_contains(s.push(e), g),
{
    let i = choose|i: int| 0 <= i < s.len() && s[i].id == g;
    assert(s.push(e)[i] == s[i]);
}

/// Removing one identifier keeps every other identifier in the queue.
proof fn lemma_queue_remove_keeps_other(s: Seq<QueueEntry>, id: TaskId, g: TaskId)
    requires
        queue_contains(s, g),
        g != id,
    ensures
        queue_contains(queue_remove(s, id), g),
    decreases s.len(),
{
    let w = choose|i: int| 0 <= i < s.len() && s[i].id == g;
    if s[0].id == id {
        assert(w != 0);
        assert(s.drop_first()[w - 1] == s[w]);
        assert(queue_contains(queue_remove(s, id), g));
    } else if w == 0 {
        assert(queue_remove(s, id)[0] == s[0]);
        assert(queue_contains(queue_remove(s, id), g));
    } else {
        let sub = s.drop_first();
        assert(sub[w - 1] == s[w]);
        assert(queue_contains(sub, g));
        lemma_queue_remove_keeps_other(sub, id, g);
        let r = queue_remove(sub, id);
        let k = choose|k: int| 0 <= k < r.len() && r[k].id == g;
        assert((seq![s[0]] + r)[k + 1] == r[k]);
        assert(queue_contains(queue_remove(s, id), g));
    }
}

/// Among the indices carrying `id`, there is a first; removal at it keeps
/// the queue well-formed.
proof fn lemma_first_id_index(s: Seq<QueueEntry>, id: TaskId, w: int)
    requires
        queue_wf(s),
        0 <= w < s.len(),
        s[w].id == id,
    ensures
        queue_wf(queue_remove(s, id)),
        !queue_contains(queue_remove(s, id), id),
{
    assert forall|j: int| 0 <= j < w implies s[j].id != id by {}
    lemma_queue_remove_wf(s, id, w);
}

// ---------------------------------------------------------------------------
// Laws of the broker
// ---------------------------------------------------------------------------
/// At every instant at most one task holds the UART lock: any two holders
/// are the same task.
pub proof fn lemma_uart_single_holder(sp: SerialPort, a: TaskId, b: TaskId)
    requires
        sp.holder() == Some(a),
        sp.holder() == Some(b),
    ensures
        a == b,
{
}

/// While a task is dispatched, no other task's turn can begin: the grant
/// is exclusive, so no second session can open and no other task's bytes
/// can interleave with a multi-step flow.
pub proof fn lemma_grant_excludes_others(sp: SerialPort, id: TaskId, other: TaskId)
    requires
        sp.grantee() == Some(id),
        other != id,
    ensures
        sp.turn_of(id),
        !sp.turn_of(other),
{
}

/// Fair dispatch: when no task is dispatched, the task whose turn it is
/// stands at an index that carries the greatest priority rank waiting,
/// and everything enqueued before it ranks strictly below — so among the
/// top-priority tasks the earliest-enqueued one goes first.
pub proof fn lemma_turn_is_fair(sp: SerialPort, id: TaskId)
    requires
        sp.grantee() is None,
        sp.turn_of(id),
    ensures
        exists|i: int|
            {
                &&& is_front(sp.queue_view(), i)
                &&& sp.queue_view()[i].id == id
                &&& forall|j: int|
                    0 <= j < sp.queue_view().len() ==> rank(
                        #[trigger] sp.queue_view()[j].pri,
                    ) <= rank(sp.queue_view()[i].pri)
                &&& forall|j: int|
                    0 <= j < i ==> rank(#[trigger] sp.queue_view()[j].pri) < rank(
                        sp.queue_view()[i].pri,
                    )
            },
{
    let i = choose|i: int|
        is_front(sp.queue_view(), i) && sp.queue_view()[i].id == id;
    assert(is_front(sp.queue_view(), i));
}

} // verus!
