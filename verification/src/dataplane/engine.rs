//! The engine: a ring of events, a chain of plugins, and the rule that an
//! event is accepted unless a plugin rejects it.

use vstd::prelude::*;
use crate::dataplane::EngineError;
use crate::dataplane::event::{EventHeader, ZenithEvent};
use crate::dataplane::wasm_host::{WasmHost, WasmPlugin};
use crate::runtime_cpu::buffer::{is_next_pow2, RingBuffer, SpscRingBuffer};

verus! {

/// Whether a chain of answers allows the event: no plugin has rejected
/// it. A plugin that failed does not reject.
pub open spec fn chain_allows(answers: Seq<Result<bool, EngineError>>) -> bool {
    forall|i: int| 0 <= i < answers.len() ==> (#[trigger] answers[i]) != Ok::<bool, EngineError>(false)
}

/// Whether a chain of answers allows the event.
pub fn chain_verdict(answers: &Vec<Result<bool, EngineError>>) -> (allowed: bool)
    ensures
        allowed == chain_allows(answers@),
{
    let mut allowed: bool = true;
    let mut i: usize = 0;
    while i < answers.len()
        invariant
            i <= answers.len(),
            allowed == chain_allows(answers@.take(i as int)),
        decreases answers.len() - i,
    {
        let rejects = match &answers[i] {
            Ok(allow) => !*allow,
            Err(_) => false,
        };
        proof {
            let before = answers@.take(i as int);
            let after = answers@.take(i + 1);
            assert(after[i as int] == answers@[i as int]);
            assert forall|j: int| 0 <= j < before.len() implies before[j] == after[j] by {}
            if chain_allows(after) {
                assert forall|j: int| 0 <= j < before.len() implies (#[trigger] before[j]) != Ok::<
                    bool,
                    EngineError,
                >(false) by {
                    assert(after[j] != Ok::<bool, EngineError>(false));
                }
            }
        }
        if rejects {
            allowed = false;
        }
        i = i + 1;
    }
    assert(answers@.take(answers.len() as int) =~= answers@);
    allowed
}

/// One plugin that rejects is enough to drop the event, and where every
/// plugin allows, the event is accepted.
pub proof fn any_reject_drops(answers: Seq<Result<bool, EngineError>>)
    ensures
        (exists|i: int| 0 <= i < answers.len() && answers[i] == Ok::<bool, EngineError>(false))
            ==> !chain_allows(answers),
        (forall|i: int| 0 <= i < answers.len() ==> answers[i] == Ok::<bool, EngineError>(true))
            ==> chain_allows(answers),
{
}

/// What the consumer is to do next.
#[derive(Debug, Clone, Copy, PartialEq, Eq, Structural)]
pub enum Poll {
    /// The engine was shut down: leave the loop.
    Stopped,
    /// The ring is empty: wait a moment, about ten microseconds, and poll
    /// again.
    Idle,
    /// One event went through the chain and was accepted.
    Accepted,
    /// One event went through the chain and was dropped.
    Dropped,
}

/// The engine of the data plane.
pub struct ZenithEngine<P> {
    buffer: SpscRingBuffer<ZenithEvent<P>>,
    wasm_host: WasmHost,
    plugins: Vec<WasmPlugin>,
    running: bool,
    accepted: u64,
    dropped: u64,
}

/// `n + 1`, stopping at the largest value.
pub open spec fn bump(n: u64) -> u64 {
    if n < u64::MAX {
        (n + 1) as u64
    } else {
        n
    }
}

impl<P> ZenithEngine<P> {
    /// The events that wait in the ring, oldest first.
    pub closed spec fn pending(&self) -> Seq<ZenithEvent<P>> {
        self.buffer.view_items()
    }

    /// The number of events that the ring can hold.
    pub closed spec fn ring_capacity(&self) -> nat {
        self.buffer.slots()
    }

    /// The number of plugins in the chain.
    pub closed spec fn chain_len(&self) -> nat {
        self.plugins@.len()
    }

    /// Whether the plugin at place `i` of the chain implements the hook.
    pub closed spec fn plugin_has_hook(&self, i: int) -> bool {
        0 <= i < self.plugins@.len() && self.plugins@[i].has_hook()
    }

    /// Whether `other` has the same chain: as many plugins, and at each
    /// place one that implements the hook or one that does not, as here.
    pub open spec fn same_chain(&self, other: &Self) -> bool {
        &&& other.chain_len() == self.chain_len()
        &&& forall|i: int| 0 <= i < self.chain_len() ==> other.plugin_has_hook(i) == self.plugin_has_hook(i)
    }

    /// Whether no plugin of the chain implements the hook.
    pub open spec fn no_plugin_decides(&self) -> bool {
        forall|i: int| 0 <= i < self.chain_len() ==> !self.plugin_has_hook(i)
    }

    /// Whether the chain can give these answers: there is one for each
    /// plugin, a plugin that does not implement the hook allows, and an
    /// error is `RuntimeError`.
    pub open spec fn can_answer(&self, answers: Seq<Result<bool, EngineError>>) -> bool {
        &&& answers.len() == self.chain_len()
        &&& forall|i: int|
            0 <= i < answers.len() ==> {
                &&& !self.plugin_has_hook(i) ==> #[trigger] answers[i] == Ok::<bool, EngineError>(true)
                &&& answers[i] is Err ==> answers[i]->Err_0 is RuntimeError
            }
    }

    /// Whether `after` is this engine once a verdict was counted: one
    /// more event accepted or one more dropped, and nothing else changed.
    pub open spec fn counted(&self, allowed: bool, after: &Self) -> bool {
        &&& after.pending() == self.pending()
        &&& after.ring_capacity() == self.ring_capacity()
        &&& after.spec_running() == self.spec_running()
        &&& self.same_chain(after)
        &&& after.spec_accepted() == if allowed {
            bump(self.spec_accepted())
        } else {
            self.spec_accepted()
        }
        &&& after.spec_dropped() == if allowed {
            self.spec_dropped()
        } else {
            bump(self.spec_dropped())
        }
    }

    /// Whether the engine has not been shut down.
    pub closed spec fn spec_running(&self) -> bool {
        self.running
    }

    /// The number of events accepted so far.
    pub closed spec fn spec_accepted(&self) -> u64 {
        self.accepted
    }

    /// The number of events dropped so far.
    pub closed spec fn spec_dropped(&self) -> u64 {
        self.dropped
    }

    /// The ring is well formed.
    pub closed spec fn wf(&self) -> bool {
        self.buffer.wf() && self.buffer.view_items().len() <= self.buffer.slots()
    }

    /// An engine with an empty ring of at least `buffer_size` slots and
    /// no plugins, marked running. It fails where the plugin runtime
    /// cannot be set up.
    pub fn new(buffer_size: usize) -> (r: Result<Self, EngineError>)
        requires
            0 < buffer_size <= usize::MAX / 2 + 1,
        ensures
            match r {
                Ok(e) => {
                    &&& e.wf()
                    &&& e.pending().len() == 0
                    &&& is_next_pow2(buffer_size as u64, e.ring_capacity() as u64)
                    &&& e.chain_len() == 0
                    &&& e.spec_running()
                    &&& e.spec_accepted() == 0
                    &&& e.spec_dropped() == 0
                },
                Err(e) => e is InitFailed,
            },
    {
        let wasm_host = match WasmHost::new() {
            Ok(host) => host,
            Err(e) => {
                return Err(e);
            },
        };
        Ok(
            ZenithEngine {
                buffer: SpscRingBuffer::new(buffer_size),
                wasm_host,
                plugins: Vec::new(),
                running: true,
                accepted: 0,
                dropped: 0,
            },
        )
    }

    /// Loads a plugin and puts it at the end of the chain. A plugin that
    /// cannot be loaded leaves the chain as it is.
    pub fn load_plugin(&mut self, wasm_bytes: &[u8]) -> (r: Result<(), EngineError>)
        requires
            old(self).wf(),
        ensures
            final(self).wf(),
            final(self).pending() == old(self).pending(),
            final(self).ring_capacity() == old(self).ring_capacity(),
            final(self).spec_running() == old(self).spec_running(),
            final(self).spec_accepted() == old(self).spec_accepted(),
            final(self).spec_dropped() == old(self).spec_dropped(),
            forall|i: int|
                0 <= i < old(self).chain_len() ==> final(self).plugin_has_hook(i) == old(self).plugin_has_hook(i),
            match r {
                Ok(_) => final(self).chain_len() == old(self).chain_len() + 1,
                Err(e) => final(self).chain_len() == old(self).chain_len() && e is LoadFailed,
            },
    {
        match self.wasm_host.load_plugin(wasm_bytes) {
            Ok(plugin) => {
                self.plugins.push(plugin);
                assert forall|i: int| 0 <= i < old(self).chain_len() implies self.plugin_has_hook(i) == old(
                    self,
                ).plugin_has_hook(i) by {
                    assert(self.plugins@[i] == old(self).plugins@[i]);
                }
                Ok(())
            },
            Err(e) => Err(e),
        }
    }

    /// Puts an event into the ring; a full ring hands the event back.
    pub fn publish(&mut self, event: ZenithEvent<P>) -> (r: Result<(), ZenithEvent<P>>)
        requires
            old(self).wf(),
        ensures
            final(self).wf(),
            final(self).ring_capacity() == old(self).ring_capacity(),
            old(self).same_chain(final(self)),
            final(self).spec_running() == old(self).spec_running(),
            final(self).spec_accepted() == old(self).spec_accepted(),
            final(self).spec_dropped() == old(self).spec_dropped(),
            r is Ok <==> old(self).pending().len() < old(self).ring_capacity(),
            match r {
                Ok(_) => final(self).pending() == old(self).pending().push(event),
                Err(back) => back == event && final(self).pending() == old(self).pending(),
            },
    {
        self.buffer.try_push(event)
    }

    /// The number of events that wait in the ring.
    pub fn pending_count(&self) -> (n: usize)
        requires
            self.wf(),
        ensures
            n == self.pending().len(),
    {
        self.buffer.len()
    }

    /// The number of plugins in the chain.
    pub fn plugin_count(&self) -> (n: usize)
        ensures
            n == self.chain_len(),
    {
        self.plugins.len()
    }

    /// Whether the engine has not been shut down.
    pub fn is_running(&self) -> (r: bool)
        ensures
            r == self.spec_running(),
    {
        self.running
    }

    /// Whether the plugin at place `i` of the chain implements the hook;
    /// false where the chain has no such place.
    pub fn plugin_implements_hook(&self, i: usize) -> (r: bool)
        ensures
            r == self.plugin_has_hook(i as int),
    {
        if i < self.plugins.len() {
            self.plugins[i].implements_hook()
        } else {
            false
        }
    }

    /// A chain in which no plugin implements the hook allows every event,
    /// whatever it answers.
    pub proof fn silent_chain_allows(&self, answers: Seq<Result<bool, EngineError>>)
        requires
            self.no_plugin_decides(),
            self.can_answer(answers),
        ensures
            chain_allows(answers),
    {
        assert forall|i: int| 0 <= i < answers.len() implies (#[trigger] answers[i]) != Ok::<bool, EngineError>(
            false,
        ) by {
            assert(!self.plugin_has_hook(i));
        }
    }

    /// The number of events accepted so far.
    pub fn accepted_count(&self) -> (n: u64)
        ensures
            n == self.spec_accepted(),
    {
        self.accepted
    }

    /// The number of events dropped so far.
    pub fn dropped_count(&self) -> (n: u64)
        ensures
            n == self.spec_dropped(),
    {
        self.dropped
    }

    /// Marks the engine as shut down; the consumer leaves its loop at the
    /// next poll.
    pub fn shutdown(&mut self)
        ensures
            !final(self).spec_running(),
            final(self).pending() == old(self).pending(),
            final(self).ring_capacity() == old(self).ring_capacity(),
            old(self).same_chain(final(self)),
            final(self).spec_accepted() == old(self).spec_accepted(),
            final(self).spec_dropped() == old(self).spec_dropped(),
            old(self).wf() ==> final(self).wf(),
    {
        self.running = false;
    }

    /// Puts an event before every plugin of the chain, in the order in
    /// which the plugins were loaded, and returns their answers in that
    /// order. A plugin that does not implement the hook is not run and
    /// allows; a plugin that fails answers with `RuntimeError`.
    pub fn dispatch(&mut self, header: &EventHeader) -> (answers: Vec<Result<bool, EngineError>>)
        ensures
            old(self).can_answer(answers@),
            old(self).same_chain(final(self)),
            final(self).pending() == old(self).pending(),
            final(self).ring_capacity() == old(self).ring_capacity(),
            final(self).spec_running() == old(self).spec_running(),
            final(self).spec_accepted() == old(self).spec_accepted(),
            final(self).spec_dropped() == old(self).spec_dropped(),
            old(self).wf() ==> final(self).wf(),
    {
        let mut answers: Vec<Result<bool, EngineError>> = Vec::new();
        let n: usize = self.plugins.len();
        let mut i: usize = 0;
        while i < n
            invariant
                i <= n,
                n == self.plugins@.len(),
                n == old(self).plugins@.len(),
                answers@.len() == i,
                forall|j: int| 0 <= j < n ==> (#[trigger] self.plugins@[j]).has_hook() == old(self).plugins@[j].has_hook(),
                forall|j: int|
                    0 <= j < i ==> {
                        &&& !old(self).plugins@[j].has_hook() ==> #[trigger] answers@[j] == Ok::<bool, EngineError>(
                            true,
                        )
                        &&& answers@[j] is Err ==> answers@[j]->Err_0 is RuntimeError
                    },
                self.buffer == old(self).buffer,
                self.running == old(self).running,
                self.accepted == old(self).accepted,
                self.dropped == old(self).dropped,
            decreases n - i,
        {
            let ghost before = self.plugins@;
            let answer = self.plugins[i].on_event(header.source_id, header.seq_no);
            proof {
                assert forall|j: int| 0 <= j < n implies (#[trigger] self.plugins@[j]).has_hook() == old(
                    self,
                ).plugins@[j].has_hook() by {
                    if j != i {
                        assert(self.plugins@[j] == before[j]);
                    }
                }
            }
            answers.push(answer);
            i = i + 1;
        }
        answers
    }

    /// Counts the verdict on an event from the answers of the chain: the
    /// event is accepted unless a plugin rejected it. Returns whether it
    /// was accepted.
    pub fn settle(&mut self, answers: &Vec<Result<bool, EngineError>>) -> (allowed: bool)
        ensures
            allowed == chain_allows(answers@),
            old(self).counted(allowed, final(self)),
            old(self).wf() ==> final(self).wf(),
    {
        let allowed = chain_verdict(answers);
        if allowed {
            if self.accepted < u64::MAX {
                self.accepted = self.accepted + 1;
            }
        } else {
            if self.dropped < u64::MAX {
                self.dropped = self.dropped + 1;
            }
        }
        allowed
    }

    /// Takes the oldest event from the ring and puts it before the chain.
    /// `None` for an empty ring. Else the event is accepted unless a
    /// plugin rejected it, and is counted as accepted or dropped. Where
    /// no plugin implements the hook, the event is accepted.
    pub fn process_next(&mut self) -> (r: Option<bool>)
        requires
            old(self).wf(),
        ensures
            final(self).wf(),
            final(self).ring_capacity() == old(self).ring_capacity(),
            old(self).same_chain(final(self)),
            final(self).spec_running() == old(self).spec_running(),
            r is Some <==> old(self).pending().len() > 0,
            old(self).pending().len() > 0 && old(self).no_plugin_decides() ==> r == Some(true),
            match r {
                Some(allowed) => {
                    &&& final(self).pending() == old(self).pending().drop_first()
                    &&& exists|answers: Seq<Result<bool, EngineError>>|
                        old(self).can_answer(answers) && allowed == #[trigger] chain_allows(answers)
                    &&& final(self).spec_accepted() == if allowed {
                        bump(old(self).spec_accepted())
                    } else {
                        old(self).spec_accepted()
                    }
                    &&& final(self).spec_dropped() == if allowed {
                        old(self).spec_dropped()
                    } else {
                        bump(old(self).spec_dropped())
                    }
                },
                None => {
                    &&& final(self).pending() == old(self).pending()
                    &&& final(self).spec_accepted() == old(self).spec_accepted()
                    &&& final(self).spec_dropped() == old(self).spec_dropped()
                },
            },
    {
        let event = match self.buffer.try_pop() {
            Some(event) => event,
            None => {
                return None;
            },
        };
        let ghost popped = *self;
        assert(old(self).same_chain(&popped));
        let answers = self.dispatch(&event.header);
        let ghost asked = *self;
        let allowed = self.settle(&answers);
        proof {
            assert forall|i: int| 0 <= i < answers@.len() implies {
                &&& !old(self).plugin_has_hook(i) ==> #[trigger] answers@[i] == Ok::<bool, EngineError>(true)
                &&& answers@[i] is Err ==> answers@[i]->Err_0 is RuntimeError
            } by {
                assert(popped.plugin_has_hook(i) == old(self).plugin_has_hook(i));
            }
            assert(old(self).can_answer(answers@));
            assert(allowed == chain_allows(answers@));
            assert forall|i: int| 0 <= i < old(self).chain_len() implies self.plugin_has_hook(i) == old(
                self,
            ).plugin_has_hook(i) by {
                assert(popped.plugin_has_hook(i) == old(self).plugin_has_hook(i));
                assert(asked.plugin_has_hook(i) == popped.plugin_has_hook(i));
            }
            if old(self).no_plugin_decides() {
                assert forall|i: int| 0 <= i < answers@.len() implies (#[trigger] answers@[i]) != Ok::<
                    bool,
                    EngineError,
                >(false) by {
                    assert(!old(self).plugin_has_hook(i));
                }
            }
        }
        Some(allowed)
    }

    /// One turn of the consumer: stop where the engine was shut down,
    /// wait where the ring is empty, else put the oldest event before the
    /// chain. Where no plugin implements the hook, the event is accepted.
    pub fn poll(&mut self) -> (r: Poll)
        requires
            old(self).wf(),
        ensures
            final(self).wf(),
            final(self).ring_capacity() == old(self).ring_capacity(),
            old(self).same_chain(final(self)),
            final(self).spec_running() == old(self).spec_running(),
            r == Poll::Stopped <==> !old(self).spec_running(),
            r == Poll::Idle <==> old(self).spec_running() && old(self).pending().len() == 0,
            r == Poll::Stopped || r == Poll::Idle ==> {
                &&& final(self).pending() == old(self).pending()
                &&& final(self).spec_accepted() == old(self).spec_accepted()
                &&& final(self).spec_dropped() == old(self).spec_dropped()
            },
            r == Poll::Accepted ==> {
                &&& final(self).pending() == old(self).pending().drop_first()
                &&& final(self).spec_accepted() == bump(old(self).spec_accepted())
                &&& final(self).spec_dropped() == old(self).spec_dropped()
            },
            r == Poll::Dropped ==> {
                &&& final(self).pending() == old(self).pending().drop_first()
                &&& final(self).spec_accepted() == old(self).spec_accepted()
                &&& final(self).spec_dropped() == bump(old(self).spec_dropped())
            },
            r == Poll::Accepted || r == Poll::Dropped ==> exists|answers: Seq<Result<bool, EngineError>>|
                old(self).can_answer(answers) && (r == Poll::Accepted) == #[trigger] chain_allows(answers),
            old(self).no_plugin_decides() ==> r != Poll::Dropped,
    {
        if !self.running {
            return Poll::Stopped;
        }
        match self.process_next() {
            None => Poll::Idle,
            Some(true) => Poll::Accepted,
            Some(false) => Poll::Dropped,
        }
    }
}

} // verus!
