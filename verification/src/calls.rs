//! The desktop window's side of its calls to the daemon: which call ids
//! are waiting for a reply, how many may wait at once, and what a reply
//! message answers. The host keeps each waiting call's reply channel under
//! the id this table registered.

use vstd::prelude::*;
use crate::protocol::{DaemonMessage, DaemonMessageKind, MAX_MESSAGE_BYTES};
use crate::text::string_of;

verus! {

/// How many calls may wait for a reply at once.
pub const MAX_PENDING_CALLS: usize = 64;

/// The calls waiting for a reply, and the id the next call gets.
pub struct PendingCalls {
    pub next_id: u64,
    pub waiting: Vec<u64>,
}

impl PendingCalls {
    /// No id waits twice, and no more than [`MAX_PENDING_CALLS`] wait.
    pub open spec fn wf(&self) -> bool {
        &&& self.waiting@.no_duplicates()
        &&& self.waiting@.len() <= MAX_PENDING_CALLS
    }

    /// The waiting ids.
    pub open spec fn waiting_set(&self) -> Set<u64> {
        self.waiting@.to_set()
    }

    /// No call waits yet; the first call gets id 1.
    pub fn new() -> (r: PendingCalls)
        ensures
            r.wf(),
            r.waiting_set() == Set::<u64>::empty(),
            r.next_id == 1,
    {
        let r = PendingCalls { next_id: 1, waiting: Vec::new() };
        assert(r.waiting@.to_set() =~= Set::<u64>::empty());
        r
    }

    /// Hands out the id of the next call; ids count up and wrap around.
    pub fn take_id(&mut self) -> (id: u64)
        ensures
            id == old(self).next_id,
            final(self).next_id == (if id == u64::MAX { 0 } else { (id + 1) as u64 }),
            final(self).waiting == old(self).waiting,
    {
        let id = self.next_id;
        self.next_id = self.next_id.wrapping_add(1);
        id
    }

    /// The position of `id` among the waiting ids, if it waits.
    fn position(&self, id: u64) -> (r: Option<usize>)
        ensures
            match r {
                Some(i) => i < self.waiting@.len() && self.waiting@[i as int] == id,
                None => !self.waiting@.contains(id),
            },
    {
        let n = self.waiting.len();
        let mut i: usize = 0;
        while i < n
            invariant
                n == self.waiting@.len(),
                i <= n,
                forall|j: int| 0 <= j < i ==> self.waiting@[j] != id,
            decreases n - i,
        {
            if self.waiting[i] == id {
                return Some(i);
            }
            i = i + 1;
        }
        None
    }

    /// Lets call `id`, whose encoded line is `line_len` bytes long, wait for
    /// its reply: refused while [`MAX_PENDING_CALLS`] calls wait or when the
    /// line is longer than the daemon takes. Says whether it was registered.
    pub fn register(&mut self, id: u64, line_len: usize) -> (registered: bool)
        requires
            old(self).wf(),
        ensures
            final(self).wf(),
            final(self).next_id == old(self).next_id,
            registered == (old(self).waiting@.len() < MAX_PENDING_CALLS && line_len <= MAX_MESSAGE_BYTES),
            registered ==> final(self).waiting_set() == old(self).waiting_set().insert(id),
            !registered ==> final(self).waiting == old(self).waiting,
    {
        if self.waiting.len() >= MAX_PENDING_CALLS || line_len > MAX_MESSAGE_BYTES {
            return false;
        }
        match self.position(id) {
            Some(_) => {
                assert(self.waiting@.to_set().insert(id) =~= self.waiting@.to_set());
            },
            None => {
                let ghost before = self.waiting@;
                self.waiting.push(id);
                assert forall|x: u64| #[trigger] self.waiting@.to_set().contains(x) == before.to_set().insert(
                    id,
                ).contains(x) by {
                    if before.contains(x) {
                        let k = choose|k: int| 0 <= k < before.len() && before[k] == x;
                        assert(self.waiting@[k] == x);
                    }
                    if x == id {
                        assert(self.waiting@[before.len() as int] == id);
                    }
                    if self.waiting@.contains(x) {
                        let k = choose|k: int| 0 <= k < self.waiting@.len() && self.waiting@[k] == x;
                        if k < before.len() {
                            assert(before[k] == x);
                        }
                    }
                }
                assert(self.waiting@.to_set() =~= before.to_set().insert(id));
                assert forall|i: int, j: int| 0 <= i < j < self.waiting@.len() implies self.waiting@[i]
                    != self.waiting@[j] by {
                    if j == before.len() {
                        assert(before[i] == self.waiting@[i]);
                    } else {
                        assert(before[i] == self.waiting@[i] && before[j] == self.waiting@[j]);
                    }
                }
            },
        }
        true
    }

    /// Stops waiting for call `id` (its reply arrived, it timed out, or its
    /// line could not be sent). Says whether it was waiting.
    pub fn finish(&mut self, id: u64) -> (was_waiting: bool)
        requires
            old(self).wf(),
        ensures
            final(self).wf(),
            final(self).next_id == old(self).next_id,
            was_waiting == old(self).waiting_set().contains(id),
            final(self).waiting_set() == old(self).waiting_set().remove(id),
            final(self).waiting@.len() == old(self).waiting@.len() - (if was_waiting { 1int } else { 0int }),
    {
        match self.position(id) {
            Some(i) => {
                let ghost before = self.waiting@;
                self.waiting.remove(i);
                assert(self.waiting@ =~= before.remove(i as int));
                assert forall|x: u64| #[trigger] self.waiting@.to_set().contains(x) == before.to_set().remove(id).contains(x) by {
                    if x == id {
                        if self.waiting@.contains(x) {
                            let k = choose|k: int| 0 <= k < self.waiting@.len() && self.waiting@[k] == x;
                            if k < i {
                                assert(before[k] == x);
                            } else {
                                assert(before[k + 1] == x);
                            }
                        }
                    } else {
                        if before.contains(x) {
                            let k = choose|k: int| 0 <= k < before.len() && before[k] == x;
                            if k < i {
                                assert(self.waiting@[k] == x);
                            } else {
                                assert(self.waiting@[k - 1] == x);
                            }
                        }
                        if self.waiting@.contains(x) {
                            let k = choose|k: int| 0 <= k < self.waiting@.len() && self.waiting@[k] == x;
                            if k < i {
                                assert(before[k] == x);
                            } else {
                                assert(before[k + 1] == x);
                            }
                        }
                    }
                }
                assert(self.waiting@.to_set() =~= before.to_set().remove(id));
                assert forall|a: int, b: int| 0 <= a < b < self.waiting@.len() implies self.waiting@[a]
                    != self.waiting@[b] by {
                    let (a2, b2) = (if a < i { a } else { a + 1 }, if b < i { b } else { b + 1 });
                    assert(self.waiting@[a] == before[a2] && self.waiting@[b] == before[b2]);
                }
                assert(before.to_set().contains(id));
                true
            },
            None => {
                assert(self.waiting@.to_set().remove(id) =~= self.waiting@.to_set());
                false
            },
        }
    }

    /// The connection ended: no call waits any more.
    pub fn clear(&mut self)
        ensures
            final(self).wf(),
            final(self).next_id == old(self).next_id,
            final(self).waiting_set() == Set::<u64>::empty(),
    {
        self.waiting = Vec::new();
        assert(self.waiting@.to_set() =~= Set::<u64>::empty());
    }
}

/// A reply reaches its call once: finishing a call that already had its
/// reply finds nothing waiting.
pub proof fn lemma_reply_reaches_its_call_once(before: Set<u64>, id: u64)
    ensures
        !before.remove(id).contains(id),
{
}

/// What a reply message answers: the call it names and its result, the
/// error when it has one and otherwise its data (`null` when it has none).
/// Other messages answer no call.
pub fn reply_outcome(message: DaemonMessage) -> (r: Option<(u64, Result<String, String>)>)
    ensures
        match (message.kind, message.id) {
            (DaemonMessageKind::Reply, Some(id)) => r matches Some((rid, res)) && rid == id && match message.error {
                Some(e) => res == Err::<String, String>(e),
                None => match message.data {
                    Some(d) => res == Ok::<String, String>(d),
                    None => res matches Ok(t) && t@ == "null"@,
                },
            },
            _ => r is None,
        },
{
    let DaemonMessage { kind, id, accepted: _, payload: _, data, error } = message;
    match (kind, id) {
        (DaemonMessageKind::Reply, Some(id)) => {
            let result = match error {
                Some(e) => Err(e),
                None => match data {
                    Some(d) => Ok(d),
                    None => Ok(string_of("null")),
                },
            };
            Some((id, result))
        },
        _ => None,
    }
}

} // verus!
