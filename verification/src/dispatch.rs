use vstd::prelude::*;

use crate::json::JsonValue;
use crate::message::Envelope;

verus! {

/// One outstanding non-blocking request, held from the moment it is handed
/// over until its handler has run and its response has been written.
#[derive(Debug)]
pub struct PendingTask {
    pub id: u64,
    pub method: String,
    pub params: JsonValue,
}

/// The work-dispatch mechanism for non-blocking requests: work is queued
/// here, and the drain barrier runs and answers all of it before any
/// blocking request may start.
#[derive(Debug)]
pub struct Dispatcher {
    pub pending: Vec<PendingTask>,
}

impl Dispatcher {
    pub fn new() -> (r: Dispatcher)
        ensures
            r.pending@ == Seq::<PendingTask>::empty(),
    {
        Dispatcher { pending: Vec::new() }
    }

    /// Enqueues one non-blocking request and returns at once.
    pub fn dispatch(&mut self, t: PendingTask)
        ensures
            final(self).pending@ == old(self).pending@.push(t),
    {
        self.pending.push(t);
    }
}

/// How a drain's written responses relate to the tasks that were pending:
/// in task order, each task either yields one success response carrying its
/// id, or nothing at all where its handler failed.
pub open spec fn drain_rel(pending: Seq<PendingTask>, written: Seq<Envelope>) -> bool
    decreases pending.len(),
{
    if pending.len() == 0 {
        written.len() == 0
    } else {
        ||| drain_rel(pending.drop_first(), written)
        ||| {
            &&& written.len() > 0
            &&& (written[0] matches Envelope::Success { id: wid, result: _ } && wid
                == pending[0].id)
            &&& drain_rel(pending.drop_first(), written.drop_first())
        }
    }
}

/// Extending the pending tasks by one task extends any matching response
/// sequence by that task's response, or by nothing.
pub proof fn lemma_drain_rel_push(
    pending: Seq<PendingTask>,
    written: Seq<Envelope>,
    t: PendingTask,
    e: Option<Envelope>,
)
    requires
        drain_rel(pending, written),
        e matches Some(env) ==> (env matches Envelope::Success { id: wid, result: _ } && wid
            == t.id),
    ensures
        drain_rel(
            pending.push(t),
            match e {
                Some(env) => written.push(env),
                None => written,
            },
        ),
    decreases pending.len(),
{
    let w2 = match e {
        Some(env) => written.push(env),
        None => written,
    };
    if pending.len() == 0 {
        assert(pending.push(t).drop_first() =~= Seq::<PendingTask>::empty());
        assert(pending.push(t)[0] == t);
        match e {
            Some(env) => {
                assert(w2[0] == env);
                assert(w2.drop_first() =~= Seq::<Envelope>::empty());
                assert(drain_rel(pending.push(t).drop_first(), w2.drop_first()));
            },
            None => {
                assert(drain_rel(pending.push(t).drop_first(), w2));
            },
        }
        assert(drain_rel(pending.push(t), w2));
    } else {
        if drain_rel(pending.drop_first(), written) {
            lemma_drain_rel_push(pending.drop_first(), written, t, e);
            assert(pending.push(t).drop_first() =~= pending.drop_first().push(t));
        } else {
            lemma_drain_rel_push(pending.drop_first(), written.drop_first(), t, e);
            assert(pending.push(t).drop_first() =~= pending.drop_first().push(t));
            assert(pending.push(t)[0] == pending[0]);
            match e {
                Some(env) => {
                    assert(w2[0] == written[0]);
                    assert(w2.drop_first() =~= written.drop_first().push(env));
                },
                None => {},
            }
        }
    }
}

/// The id a success envelope echoes, if it is one.
pub open spec fn envelope_id(e: Envelope) -> Option<u64> {
    match e {
        Envelope::Success { id: wid, result: _ } => Some(wid),
        _ => None,
    }
}

/// Whether some pending task carries the id this envelope echoes.
pub open spec fn response_for_pending(pending: Seq<PendingTask>, e: Envelope) -> bool {
    exists|j: int| 0 <= j < pending.len() && Some(#[trigger] pending[j].id) == envelope_id(e)
}

/// A drain writes only success responses, at most one for each task that
/// was pending, and each one echoes the id of a task that was pending.
pub proof fn lemma_drain_rel_sound(pending: Seq<PendingTask>, written: Seq<Envelope>)
    requires
        drain_rel(pending, written),
    ensures
        written.len() <= pending.len(),
        forall|i: int| 0 <= i < written.len() ==> written[i] is Success,
        forall|i: int|
            0 <= i < written.len() ==> #[trigger] response_for_pending(pending, written[i]),
    decreases pending.len(),
{
    if pending.len() == 0 {
    } else if drain_rel(pending.drop_first(), written) {
        lemma_drain_rel_sound(pending.drop_first(), written);
        assert forall|i: int| 0 <= i < written.len() implies #[trigger] response_for_pending(
            pending,
            written[i],
        ) by {
            lemma_response_lifts(pending, written[i]);
        }
    } else {
        lemma_drain_rel_sound(pending.drop_first(), written.drop_first());
        assert forall|i: int| 0 <= i < written.len() implies written[i] is Success by {
            if i > 0 {
                assert(written.drop_first()[i - 1] == written[i]);
            }
        }
        assert forall|i: int| 0 <= i < written.len() implies #[trigger] response_for_pending(
            pending,
            written[i],
        ) by {
            if i == 0 {
                assert(pending[0].id == pending[0].id);
            } else {
                assert(written.drop_first()[i - 1] == written[i]);
                assert(response_for_pending(pending.drop_first(), written[i]));
                lemma_response_lifts(pending, written[i]);
            }
        }
    }
}

/// A response for a task pending behind the first task is a response for a
/// pending task.
proof fn lemma_response_lifts(pending: Seq<PendingTask>, e: Envelope)
    requires
        pending.len() > 0,
        response_for_pending(pending.drop_first(), e),
    ensures
        response_for_pending(pending, e),
{
    let j = choose|j: int|
        0 <= j < pending.drop_first().len() && Some(
            #[trigger] pending.drop_first()[j].id,
        ) == envelope_id(e);
    assert(pending.drop_first()[j] == pending[j + 1]);
    assert(Some(pending[j + 1].id) == envelope_id(e));
}

} // verus!
