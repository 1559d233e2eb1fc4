use vstd::prelude::*;

use crate::json;
use crate::json::JsonValue;
use crate::json::json_get;
use crate::json::json_parse;

use crate::message;
use crate::message::Envelope;
use crate::message::ProtocolError;
use crate::message::RawId;
use crate::message::RawMessage;
use crate::message::numeric_id_of;
use crate::message::parse_spec;

use crate::actions::InitializeRequest;
use crate::actions::InitializedState;
use crate::actions::CancelNotification;
use crate::actions::ExitNotification;
use crate::actions::ServerState;
use crate::actions::Response;
use crate::actions::ShutdownRequest;
use crate::actions::init_shape_ok;
use crate::actions::init_validate;
use crate::actions::is_init_response;
use crate::actions::is_str_field;
use crate::actions::spec_options_field;
use crate::actions::spec_root_path_field;

use crate::dispatch::Dispatcher;
use crate::dispatch::PendingTask;
use crate::dispatch::drain_rel;
use crate::dispatch::lemma_drain_rel_push;

verus! {

/// Yields one framed message text at a time; `None` means the transport is
/// exhausted or unreadable.
pub trait MessageReader {
    fn read_message(&mut self) -> Option<String>;
}

/// The raw output sink: writes one JSON-RPC response envelope.
pub trait Output {
    fn success(&mut self, id: u64, result: &JsonValue);

    fn failure(&mut self, id: &RawId, error: &ProtocolError);
}

/// The out-of-scope business handlers: the concrete per-request and
/// per-notification logic the core routes into.
pub trait ActionHandlers {
    /// Handles a routed notification other than exit. A failure is logged
    /// and swallowed; a notification never produces a wire-visible error.
    fn handle_notification(
        &mut self,
        method: &String,
        params: JsonValue,
        ctx: &ServerState,
    ) -> Result<(), ()>;

    /// Handles one non-blocking request and yields its response value, or
    /// fails; a failure is contained to this one request.
    fn handle_request(
        &mut self,
        id: u64,
        method: &String,
        params: JsonValue,
        ctx: &InitializedState,
    ) -> Result<JsonValue, ()>;
}

/// The output sink together with the record of every envelope written
/// through it, which the service's contracts speak of.
pub struct OutputPort<O: Output> {
    pub sink: O,
    pub sent: Ghost<Seq<Envelope>>,
}

impl<O: Output> OutputPort<O> {
    pub fn new(sink: O) -> (r: OutputPort<O>)
        ensures
            r.sent@ == Seq::<Envelope>::empty(),
            r.sink == sink,
    {
        OutputPort { sink, sent: Ghost(Seq::empty()) }
    }

    /// Writes one success envelope.
    pub fn success(&mut self, id: u64, result: JsonValue)
        ensures
            final(self).sent@ == old(self).sent@.push(Envelope::Success { id, result }),
    {
        self.sink.success(id, &result);
        self.sent = Ghost(self.sent@.push(Envelope::Success { id, result }));
    }

    /// Writes one failure envelope.
    pub fn failure(&mut self, id: RawId, error: ProtocolError)
        ensures
            final(self).sent@ == old(self).sent@.push(Envelope::Failure { id, error }),
    {
        self.sink.failure(&id, &error);
        self.sent = Ghost(self.sent@.push(Envelope::Failure { id, error }));
    }
}

/// How the fixed routing table classifies a method name.
#[derive(Debug, Clone, Copy, PartialEq, Eq, Structural)]
pub enum Route {
    Notification,
    BlockingRequest,
    Request,
    NotFound,
}

/// The routing table: every method the server serves, by kind.
pub open spec fn route_of(m: Seq<char>) -> Route {
    if m == "exit"@ || m == "initialized"@ || m == "textDocument/didOpen"@ || m
        == "textDocument/didChange"@ || m == "textDocument/didSave"@ || m
        == "workspace/didChangeConfiguration"@ || m == "workspace/didChangeWatchedFiles"@ || m
        == "$/cancelRequest"@ {
        Route::Notification
    } else if m == "shutdown"@ || m == "initialize"@ {
        Route::BlockingRequest
    } else if m == "workspace/executeCommand"@ || m == "textDocument/formatting"@ || m
        == "textDocument/rangeFormatting"@ || m == "completionItem/resolve"@ || m
        == "textDocument/rename"@ || m == "textDocument/codeAction"@ || m
        == "textDocument/documentHighlight"@ || m == "rustDocument/implementations"@ || m
        == "textDocument/documentSymbol"@ || m == "textDocument/hover"@ || m
        == "workspace/symbol"@ || m == "textDocument/definition"@ || m
        == "textDocument/references"@ || m == "textDocument/completion"@ {
        Route::Request
    } else {
        Route::NotFound
    }
}

/// Routes a method name against the fixed table.
pub fn route(m: &str) -> (r: Route)
    ensures
        r == route_of(m@),
{
    if json::str_eq(m, "exit") || json::str_eq(m, "initialized") || json::str_eq(
        m,
        "textDocument/didOpen",
    ) || json::str_eq(m, "textDocument/didChange") || json::str_eq(m, "textDocument/didSave")
        || json::str_eq(m, "workspace/didChangeConfiguration") || json::str_eq(
        m,
        "workspace/didChangeWatchedFiles",
    ) || json::str_eq(m, "$/cancelRequest") {
        Route::Notification
    } else if json::str_eq(m, "shutdown") || json::str_eq(m, "initialize") {
        Route::BlockingRequest
    } else if json::str_eq(m, "workspace/executeCommand") || json::str_eq(
        m,
        "textDocument/formatting",
    ) || json::str_eq(m, "textDocument/rangeFormatting") || json::str_eq(
        m,
        "completionItem/resolve",
    ) || json::str_eq(m, "textDocument/rename") || json::str_eq(m, "textDocument/codeAction")
        || json::str_eq(m, "textDocument/documentHighlight") || json::str_eq(
        m,
        "rustDocument/implementations",
    ) || json::str_eq(m, "textDocument/documentSymbol") || json::str_eq(m, "textDocument/hover")
        || json::str_eq(m, "workspace/symbol") || json::str_eq(m, "textDocument/definition")
        || json::str_eq(m, "textDocument/references") || json::str_eq(
        m,
        "textDocument/completion",
    ) {
        Route::Request
    } else {
        Route::NotFound
    }
}

/// How should the server proceed?
#[derive(Eq, PartialEq, Debug, Clone, Copy, Structural)]
pub enum ServerStateChange {
    /// Continue serving responses to requests and sending notifications to
    /// the client.
    Continue,
    /// Stop the server.
    Break,
}

/// A service implementing a language server.
pub struct LsService<R: MessageReader, O: Output, H: ActionHandlers> {
    pub msg_reader: R,
    pub output: OutputPort<O>,
    pub ctx: ServerState,
    pub dispatcher: Dispatcher,
    pub handlers: H,
    /// Set once the exit notification has been handled; the process ends
    /// with this code.
    pub exit_code: Option<i32>,
}

/// The id a failure envelope echoes: the wire id where there was one.
pub open spec fn or_null(id: Option<RawId>) -> RawId {
    match id {
        Some(i) => i,
        None => RawId::Null,
    }
}

/// Nothing the protocol can observe changed: the lifecycle state, the
/// pending work, the handlers and the record of written envelopes all stand
/// as they were.
pub open spec fn unchanged_core<R: MessageReader, O: Output, H: ActionHandlers>(
    pre: LsService<R, O, H>,
    post: LsService<R, O, H>,
) -> bool {
    &&& post.ctx == pre.ctx
    &&& post.dispatcher == pre.dispatcher
    &&& post.handlers == pre.handlers
    &&& post.exit_code == pre.exit_code
    &&& post.output == pre.output
}

/// The service wrote exactly one failure envelope and changed nothing else.
pub open spec fn failed_with<R: MessageReader, O: Output, H: ActionHandlers>(
    pre: LsService<R, O, H>,
    post: LsService<R, O, H>,
    id: RawId,
    e: ProtocolError,
) -> bool {
    &&& post.ctx == pre.ctx
    &&& post.dispatcher == pre.dispatcher
    &&& post.handlers == pre.handlers
    &&& post.exit_code == pre.exit_code
    &&& post.output.sent@ == pre.output.sent@.push(Envelope::Failure { id, error: e })
}

/// The drain ran over exactly the tasks that were pending and then one
/// success envelope for `id` was written; `pinned` fixes its result value
/// where the handler is the server's own.
pub open spec fn answered(
    pre_sent: Seq<Envelope>,
    post_sent: Seq<Envelope>,
    pending: Seq<PendingTask>,
    id: u64,
    pinned: Option<JsonValue>,
) -> bool {
    &&& post_sent.len() > pre_sent.len()
    &&& post_sent.take(pre_sent.len() as int) == pre_sent
    &&& match post_sent.last() {
        Envelope::Success { id: wid, result: res } => wid == id && match pinned {
            Some(p) => res == p,
            None => true,
        },
        _ => false,
    }
    &&& drain_rel(pending, post_sent.subrange(pre_sent.len() as int, post_sent.len() - 1))
}

/// The drain ran and nothing more was written: the blocking handler itself
/// failed, and its response is omitted.
pub open spec fn unanswered(
    pre_sent: Seq<Envelope>,
    post_sent: Seq<Envelope>,
    pending: Seq<PendingTask>,
) -> bool {
    &&& post_sent.len() >= pre_sent.len()
    &&& post_sent.take(pre_sent.len() as int) == pre_sent
    &&& drain_rel(pending, post_sent.skip(pre_sent.len() as int))
}

/// The ordering contract of a blocking request: its own response is the
/// last envelope written, strictly after the response of every non-blocking
/// request that was dispatched before it, and everything written in between
/// is a drain response for that earlier work, in dispatch order.
pub proof fn lemma_blocking_ordering(
    pre_sent: Seq<Envelope>,
    post_sent: Seq<Envelope>,
    pending: Seq<PendingTask>,
    id: u64,
    pinned: Option<JsonValue>,
)
    requires
        answered(pre_sent, post_sent, pending, id, pinned),
    ensures
        pre_sent.len() <= post_sent.len() - 1,
        post_sent.len() - 1 - pre_sent.len() <= pending.len(),
        forall|k: int|
            pre_sent.len() <= k < post_sent.len() - 1 ==> #[trigger] post_sent[k] is Success,
        forall|k: int|
            pre_sent.len() <= k < post_sent.len() - 1
                ==> #[trigger] crate::dispatch::response_for_pending(pending, post_sent[k]),
{
    let drained = post_sent.subrange(pre_sent.len() as int, post_sent.len() - 1);
    crate::dispatch::lemma_drain_rel_sound(pending, drained);
    assert forall|k: int|
        pre_sent.len() <= k < post_sent.len() - 1 implies #[trigger] post_sent[k] is Success
        && crate::dispatch::response_for_pending(pending, post_sent[k]) by {
        assert(drained[k - pre_sent.len()] == post_sent[k]);
        assert(crate::dispatch::response_for_pending(pending, drained[k - pre_sent.len()]));
    }
}

/// Everything one routed message may do to the service, case by case over
/// the routing table.
pub open spec fn dispatch_rel<R: MessageReader, O: Output, H: ActionHandlers>(
    pre: LsService<R, O, H>,
    m: RawMessage,
    post: LsService<R, O, H>,
    r: Result<(), ProtocolError>,
) -> bool {
    let rt = route_of(m.method@);
    let uid = numeric_id_of(m.id);
    &&& (r matches Err(e) ==> unchanged_core(pre, post) && e
        == ProtocolError::InvalidRequest)
    &&& (rt == Route::NotFound ==> r is Ok && unchanged_core(pre, post))
    &&& (rt == Route::Notification && m.method@ == "exit"@ && !(m.params is Null) ==> r == Err::<
        (),
        ProtocolError,
    >(ProtocolError::InvalidRequest))
    &&& (rt == Route::Notification && m.method@ == "exit"@ && m.params is Null ==> {
        &&& r is Ok
        &&& post.ctx == pre.ctx
        &&& post.output == pre.output
        &&& post.dispatcher == pre.dispatcher
        &&& post.handlers == pre.handlers
        &&& post.exit_code == Some(
            if pre.ctx.spec_shut_down() {
                0i32
            } else {
                1i32
            },
        )
    })
    &&& (rt == Route::Notification && m.method@ != "exit"@ ==> r is Ok && post.ctx == pre.ctx
        && post.output == pre.output && post.dispatcher == pre.dispatcher && post.exit_code
        == pre.exit_code)
    &&& (rt == Route::Notification && m.method@ == "$/cancelRequest"@ ==> r is Ok
        && unchanged_core(pre, post))
    &&& (rt == Route::BlockingRequest && m.method@ == "shutdown"@ ==> match uid {
        None => r == Err::<(), ProtocolError>(ProtocolError::InvalidRequest),
        Some(n) => if !(m.params is Null) {
            r == Err::<(), ProtocolError>(ProtocolError::InvalidRequest)
        } else {
            &&& r is Ok
            &&& (pre.ctx is Uninitialized ==> unchanged_core(pre, post))
            &&& (pre.ctx is Initialized ==> {
                &&& post.ctx == ServerState::Initialized(
                    (InitializedState { shut_down: true, ..pre.ctx->Initialized_0 }),
                )
                &&& post.dispatcher.pending@.len() == 0
                &&& post.exit_code == pre.exit_code
                &&& answered(
                    pre.output.sent@,
                    post.output.sent@,
                    pre.dispatcher.pending@,
                    n,
                    Some(JsonValue::Null),
                )
            })
        },
    })
    &&& (rt == Route::BlockingRequest && m.method@ == "initialize"@ ==> match uid {
        None => r == Err::<(), ProtocolError>(ProtocolError::InvalidRequest),
        Some(n) => {
            &&& (!init_shape_ok(m.params) ==> r == Err::<(), ProtocolError>(
                ProtocolError::InvalidRequest,
            ))
            &&& (pre.ctx is Uninitialized && init_shape_ok(m.params) && !is_str_field(
                json_get(m.params, "rootUri"@),
            ) ==> r is Ok)
            &&& (r is Ok ==> {
                &&& init_shape_ok(m.params)
                &&& post.dispatcher.pending@.len() == 0
                &&& post.exit_code == pre.exit_code
                &&& (pre.ctx is Initialized ==> post.ctx == pre.ctx && unanswered(
                    pre.output.sent@,
                    post.output.sent@,
                    pre.dispatcher.pending@,
                ))
                &&& (pre.ctx is Uninitialized ==> {
                    ||| (post.ctx == pre.ctx && unanswered(
                        pre.output.sent@,
                        post.output.sent@,
                        pre.dispatcher.pending@,
                    ))
                    ||| {
                        &&& answered(
                            pre.output.sent@,
                            post.output.sent@,
                            pre.dispatcher.pending@,
                            n,
                            None,
                        )
                        &&& match post.output.sent@.last() {
                            Envelope::Success { id: w2, result: res2 } => is_init_response(res2),
                            _ => false,
                        }
                        &&& match post.ctx {
                            ServerState::Initialized(st) => {
                                &&& st.shut_down == false
                                &&& st.init_options == spec_options_field(m.params)
                                &&& Some(st.capabilities) == json_get(m.params, "capabilities"@)
                                &&& (!is_str_field(json_get(m.params, "rootUri"@)) ==> Some(
                                    st.root_path,
                                ) == spec_root_path_field(m.params))
                            },
                            ServerState::Uninitialized => false,
                        }
                    }
                })
                &&& (pre.ctx is Uninitialized && init_shape_ok(m.params) && !is_str_field(
                    json_get(m.params, "rootUri"@),
                ) && spec_root_path_field(m.params) is Some ==> post.ctx is Initialized)
            })
        },
    })
    &&& (rt == Route::Request ==> match uid {
        None => r == Err::<(), ProtocolError>(ProtocolError::InvalidRequest),
        Some(n) => match pre.ctx {
            ServerState::Uninitialized => r == Err::<(), ProtocolError>(
                ProtocolError::InvalidRequest,
            ),
            ServerState::Initialized(st0) => {
                &&& r is Ok
                &&& post.ctx == pre.ctx
                &&& post.output == pre.output
                &&& post.exit_code == pre.exit_code
                &&& post.handlers == pre.handlers
                &&& post.dispatcher.pending@ == pre.dispatcher.pending@.push(
                    (PendingTask { id: n, method: m.method, params: m.params }),
                )
            },
        },
    })
}

/// Everything one inbound message text may do to the service: parse
/// faults answer and stop, reply-shaped messages are skipped, traffic after
/// shutdown is dropped, and a routed message acts as `dispatch_rel` says,
/// with a dispatch fault answered under the message's own id.
pub open spec fn step_rel<R: MessageReader, O: Output, H: ActionHandlers>(
    pre: LsService<R, O, H>,
    pm: Result<Option<RawMessage>, ProtocolError>,
    post: LsService<R, O, H>,
    r: ServerStateChange,
) -> bool {
    match pm {
        Err(_) => r == ServerStateChange::Break && failed_with(
            pre,
            post,
            RawId::Null,
            ProtocolError::ParseError,
        ),
        Ok(None) => r == ServerStateChange::Continue && unchanged_core(pre, post),
        Ok(Some(m)) => {
            if pre.ctx.spec_shut_down() && m.method@ != "exit"@ {
                unchanged_core(pre, post) && r == ServerStateChange::Continue
            } else {
                ||| (dispatch_rel(pre, m, post, Ok(())) && r == (
                if post.exit_code is Some {
                    ServerStateChange::Break
                } else {
                    ServerStateChange::Continue
                }))
                ||| (r == ServerStateChange::Break && dispatch_rel(
                    pre,
                    m,
                    pre,
                    Err(ProtocolError::InvalidRequest),
                ) && failed_with(pre, post, or_null(m.id), ProtocolError::InvalidRequest))
            }
        },
    }
}

/// The step relation does not look at the reader: two starting states that
/// differ only in it step alike.
pub proof fn lemma_step_rel_reader<R: MessageReader, O: Output, H: ActionHandlers>(
    pre1: LsService<R, O, H>,
    pre2: LsService<R, O, H>,
    pm: Result<Option<RawMessage>, ProtocolError>,
    post: LsService<R, O, H>,
    r: ServerStateChange,
)
    requires
        step_rel(pre1, pm, post, r),
        pre2.ctx == pre1.ctx,
        pre2.dispatcher == pre1.dispatcher,
        pre2.handlers == pre1.handlers,
        pre2.exit_code == pre1.exit_code,
        pre2.output == pre1.output,
    ensures
        step_rel(pre2, pm, post, r),
{
}

/// One observed step of the service: either the transport yielded no
/// message and the parse fault was answered under a null id, or some text
/// was read and acted on exactly as `step_rel` says of that text.
pub open spec fn stepped<R: MessageReader, O: Output, H: ActionHandlers>(
    pre: LsService<R, O, H>,
    post: LsService<R, O, H>,
    r: ServerStateChange,
) -> bool {
    ||| (r == ServerStateChange::Break && failed_with(
        pre,
        post,
        RawId::Null,
        ProtocolError::ParseError,
    ))
    ||| (exists|m: Seq<char>| step_rel(pre, parse_spec(json_parse(m)), post, r))
}

/// Each consecutive pair of states in a run is one observed step with the
/// matching outcome.
pub open spec fn linked<R: MessageReader, O: Output, H: ActionHandlers>(
    states: Seq<LsService<R, O, H>>,
    results: Seq<ServerStateChange>,
) -> bool {
    forall|i: int|
        0 <= i < results.len() ==> #[trigger] stepped(states[i], states[i + 1], results[i])
}

/// What a whole run is: a chain of observed steps from the starting state
/// to the final one, one message handled per step, every step but the last
/// continuing, and the last one breaking — unless the loop's fuel ran dry
/// first, which no session approaches.
pub open spec fn run_trace<R: MessageReader, O: Output, H: ActionHandlers>(
    pre: LsService<R, O, H>,
    states: Seq<LsService<R, O, H>>,
    results: Seq<ServerStateChange>,
    post: LsService<R, O, H>,
) -> bool {
    &&& states.len() == results.len() + 1
    &&& results.len() >= 1
    &&& states.first() == pre
    &&& states.last() == post
    &&& linked(states, results)
    &&& forall|i: int| 0 <= i < results.len() - 1 ==> results[i] == ServerStateChange::Continue
    &&& (results.len() < u64::MAX as int ==> results.last() == ServerStateChange::Break)
}

impl<R: MessageReader, O: Output, H: ActionHandlers> LsService<R, O, H> {
    /// The service invariant: before initialization no non-blocking work
    /// can have been dispatched.
    pub open spec fn wf(self) -> bool {
        self.ctx is Uninitialized ==> self.dispatcher.pending@.len() == 0
    }

    /// Construct a new language server service.
    pub fn new(reader: R, output: O, handlers: H) -> (s: LsService<R, O, H>)
        ensures
            s.ctx is Uninitialized,
            s.dispatcher.pending@ == Seq::<PendingTask>::empty(),
            s.exit_code is None,
            s.output.sent@ == Seq::<Envelope>::empty(),
            s.output.sink == output,
            s.msg_reader == reader,
            s.handlers == handlers,
            s.wf(),
    {
        LsService {
            msg_reader: reader,
            output: OutputPort::new(output),
            ctx: ServerState::Uninitialized,
            dispatcher: Dispatcher::new(),
            handlers,
            exit_code: None,
        }
    }

    /// The drain barrier: runs every pending non-blocking request to
    /// completion, writing each successful handler's response in dispatch
    /// order, and returns only when none is outstanding.
    fn await_all_dispatched(&mut self)
        requires
            old(self).wf(),
        ensures
            final(self).wf(),
            final(self).dispatcher.pending@.len() == 0,
            final(self).ctx == old(self).ctx,
            final(self).exit_code == old(self).exit_code,
            final(self).msg_reader == old(self).msg_reader,
            old(self).output.sent@.is_prefix_of(final(self).output.sent@),
            drain_rel(
                old(self).dispatcher.pending@,
                final(self).output.sent@.skip(old(self).output.sent@.len() as int),
            ),
    {
        let ghost pre_self = *self;
        let ghost l0 = pre_self.output.sent@.len() as int;
        let ghost mut k: int = 0;
        proof {
            assert(pre_self.dispatcher.pending@.skip(0) =~= pre_self.dispatcher.pending@);
            assert(pre_self.output.sent@.skip(l0) =~= Seq::<Envelope>::empty());
            assert(pre_self.output.sent@.take(l0) =~= pre_self.output.sent@);
            assert(pre_self.dispatcher.pending@.take(0) =~= Seq::<PendingTask>::empty());
        }
        while self.dispatcher.pending.len() > 0
            invariant
                0 <= k <= pre_self.dispatcher.pending@.len(),
                self.dispatcher.pending@ == pre_self.dispatcher.pending@.skip(k),
                self.ctx == pre_self.ctx,
                self.exit_code == pre_self.exit_code,
                self.msg_reader == pre_self.msg_reader,
                l0 == pre_self.output.sent@.len() as int,
                self.output.sent@.len() >= l0,
                self.output.sent@.take(l0) == pre_self.output.sent@,
                drain_rel(pre_self.dispatcher.pending@.take(k), self.output.sent@.skip(l0)),
                self.wf(),
            decreases self.dispatcher.pending@.len(),
        {
            match &self.ctx {
                ServerState::Initialized(st) => {
                    let t = self.dispatcher.pending.remove(0);
                    let ghost gt = t;
                    proof {
                        assert(pre_self.dispatcher.pending@.skip(k)[0]
                            == pre_self.dispatcher.pending@[k]);
                        assert(pre_self.dispatcher.pending@.skip(k).remove(0)
                            =~= pre_self.dispatcher.pending@.skip(k + 1));
                        assert(pre_self.dispatcher.pending@.take(k + 1)
                            =~= pre_self.dispatcher.pending@.take(k).push(gt));
                    }
                    let ghost wpre = self.output.sent@;
                    match self.handlers.handle_request(t.id, &t.method, t.params, st) {
                        Ok(v) => {
                            let ghost gv = v;
                            self.output.success(t.id, v);
                            proof {
                                lemma_drain_rel_push(
                                    pre_self.dispatcher.pending@.take(k),
                                    wpre.skip(l0),
                                    gt,
                                    Some(Envelope::Success { id: gt.id, result: gv }),
                                );
                                assert(self.output.sent@.skip(l0) =~= wpre.skip(l0).push(
                                    Envelope::Success { id: gt.id, result: gv },
                                ));
                                assert(self.output.sent@.take(l0) =~= wpre.take(l0));
                            }
                        },
                        Err(()) => {
                            proof {
                                lemma_drain_rel_push(
                                    pre_self.dispatcher.pending@.take(k),
                                    wpre.skip(l0),
                                    gt,
                                    None,
                                );
                            }
                        },
                    }
                    proof {
                        k = k + 1;
                    }
                },
                ServerState::Uninitialized => {
                    proof {
                        assert(false);
                    }
                },
            }
        }
        proof {
            assert(pre_self.dispatcher.pending@.take(k) =~= pre_self.dispatcher.pending@);
        }
    }

    /// Routes one parsed message and carries it out, as `dispatch_rel`
    /// says; a fault is returned, not written, and changes nothing.
    pub fn dispatch_message(&mut self, msg: RawMessage) -> (r: Result<(), ProtocolError>)
        requires
            old(self).wf(),
        ensures
            final(self).wf(),
            old(self).ctx.spec_shut_down() ==> final(self).ctx.spec_shut_down(),
            final(self).msg_reader == old(self).msg_reader,
            old(self).output.sent@.is_prefix_of(final(self).output.sent@),
            dispatch_rel(*old(self), msg, *final(self), r),
    {
        let rt = route(msg.method.as_str());
        match rt {
            Route::NotFound => Ok(()),
            Route::Notification => {
                proof {
                    reveal_strlit("exit");
                    reveal_strlit("$/cancelRequest");
                    assert("exit"@.len() == 4);
                    assert("$/cancelRequest"@.len() == 15);
                }
                if json::str_eq(msg.method.as_str(), "exit") {
                    match &msg.params {
                        JsonValue::Null => {},
                        _ => {
                            return Err(ProtocolError::InvalidRequest);
                        },
                    }
                    let code = ExitNotification::handle(&self.ctx);
                    self.exit_code = Some(code);
                    Ok(())
                } else if json::str_eq(msg.method.as_str(), "$/cancelRequest") {
                    let note = msg.parse_as_notification();
                    let _ = note;
                    let _ = CancelNotification::handle(&mut self.ctx);
                    Ok(())
                } else {
                    let method = msg.method.clone();
                    let note = msg.parse_as_notification();
                    let _ = self.handlers.handle_notification(&method, note.params, &self.ctx);
                    Ok(())
                }
            },
            Route::BlockingRequest => {
                proof {
                    reveal_strlit("shutdown");
                    reveal_strlit("initialize");
                    assert("shutdown"@.len() == 8);
                    assert("initialize"@.len() == 10);
                }
                let is_shutdown = json::str_eq(msg.method.as_str(), "shutdown");
                let req = match msg.parse_as_request() {
                    Ok(rq) => rq,
                    Err(e) => {
                        return Err(e);
                    },
                };
                let ghost pre1 = *self;
                if is_shutdown {
                    match &req.params {
                        JsonValue::Null => {},
                        _ => {
                            return Err(ProtocolError::InvalidRequest);
                        },
                    }
                    if self.dispatcher.pending.len() > 0 {
                        self.await_all_dispatched();
                    } else {
                        proof {
                            assert(self.output.sent@.take(pre1.output.sent@.len() as int)
                                =~= pre1.output.sent@);
                            assert(self.output.sent@.skip(pre1.output.sent@.len() as int)
                                =~= Seq::<Envelope>::empty());
                        }
                    }
                    let res = ShutdownRequest::handle(&mut self.ctx);
                    let ghost mid = *self;
                    match res {
                        Ok(ack) => {
                            let payload = match ack.payload() {
                                Some(v) => v,
                                None => JsonValue::Null,
                            };
                            self.output.success(req.id, payload);
                            proof {
                                assert(self.output.sent@.take(pre1.output.sent@.len() as int)
                                    =~= mid.output.sent@.take(pre1.output.sent@.len() as int));
                                assert(self.output.sent@.subrange(
                                    pre1.output.sent@.len() as int,
                                    self.output.sent@.len() - 1,
                                ) =~= mid.output.sent@.skip(pre1.output.sent@.len() as int));
                            }
                        },
                        Err(()) => {},
                    }
                    Ok(())
                } else {
                    let fields = match init_validate(req.params) {
                        Ok(f) => f,
                        Err(e) => {
                            return Err(e);
                        },
                    };
                    if self.dispatcher.pending.len() > 0 {
                        self.await_all_dispatched();
                    } else {
                        proof {
                            assert(self.output.sent@.take(pre1.output.sent@.len() as int)
                                =~= pre1.output.sent@);
                            assert(self.output.sent@.skip(pre1.output.sent@.len() as int)
                                =~= Seq::<Envelope>::empty());
                        }
                    }
                    let ghost mid = *self;
                    match InitializeRequest::handle(req.id, fields, &mut self.ctx) {
                        Ok(resp) => {
                            let ghost gresp = resp;
                            let payload = match resp.payload() {
                                Some(v) => v,
                                None => JsonValue::Null,
                            };
                            self.output.success(req.id, payload);
                            proof {
                                assert(self.output.sent@.take(pre1.output.sent@.len() as int)
                                    =~= mid.output.sent@.take(pre1.output.sent@.len() as int));
                                assert(self.output.sent@.subrange(
                                    pre1.output.sent@.len() as int,
                                    self.output.sent@.len() - 1,
                                ) =~= mid.output.sent@.skip(pre1.output.sent@.len() as int));
                            }
                        },
                        Err(()) => {},
                    }
                    Ok(())
                }
            },
            Route::Request => {
                let method = msg.method.clone();
                let req = match msg.parse_as_request() {
                    Ok(rq) => rq,
                    Err(e) => {
                        return Err(e);
                    },
                };
                match &self.ctx {
                    ServerState::Initialized(_) => {
                        self.dispatcher.dispatch(
                            PendingTask { id: req.id, method, params: req.params },
                        );
                        Ok(())
                    },
                    ServerState::Uninitialized => Err(ProtocolError::InvalidRequest),
                }
            },
        }
    }

    /// Parses one message text: the envelope of §4.1 — id, method and
    /// normalized parameters — or `None` for a reply-shaped message the
    /// server is not expecting, or the fault that stops the loop.
    pub fn parse_message(&self, msg: &str) -> (r: Result<Option<RawMessage>, ProtocolError>)
        ensures
            r == parse_spec(json_parse(msg@)),
    {
        match json::parse_json_text(msg) {
            Some(v) => message::parse_raw_message(json::to_model(&v)),
            None => Err(ProtocolError::ParseError),
        }
    }

    /// Handles one message text: parses it, enforces the lifecycle, routes
    /// it, and answers a fault under the message's own id.
    pub fn process_message(&mut self, msg: &str) -> (r: ServerStateChange)
        requires
            old(self).wf(),
        ensures
            final(self).wf(),
            old(self).ctx.spec_shut_down() ==> final(self).ctx.spec_shut_down(),
            final(self).msg_reader == old(self).msg_reader,
            old(self).output.sent@.is_prefix_of(final(self).output.sent@),
            step_rel(*old(self), parse_spec(json_parse(msg@)), *final(self), r),
    {
        let rm_opt = match self.parse_message(msg) {
            Ok(x) => x,
            Err(_e) => {
                self.output.failure(RawId::Null, ProtocolError::ParseError);
                return ServerStateChange::Break;
            },
        };
        let rm = match rm_opt {
            Some(rm) => rm,
            None => {
                return ServerStateChange::Continue;
            },
        };
        if self.ctx.shut_down() && !json::str_eq(rm.method.as_str(), "exit") {
            return ServerStateChange::Continue;
        }
        let fid = message::dup_id(&rm.id);
        match self.dispatch_message(rm) {
            Ok(()) => {
                match self.exit_code {
                    Some(_) => ServerStateChange::Break,
                    None => ServerStateChange::Continue,
                }
            },
            Err(e) => {
                let id = match fid {
                    Some(i) => i,
                    None => RawId::Null,
                };
                self.output.failure(id, e);
                ServerStateChange::Break
            },
        }
    }

    /// Reads one message from the reader and handles it; `None` from the
    /// reader answers a parse fault and stops, as unreadable input does.
    pub fn handle_message(&mut self) -> (r: ServerStateChange)
        requires
            old(self).wf(),
        ensures
            final(self).wf(),
            old(self).ctx.spec_shut_down() ==> final(self).ctx.spec_shut_down(),
            old(self).output.sent@.is_prefix_of(final(self).output.sent@),
            stepped(*old(self), *final(self), r),
    {
        let msg_string = match self.msg_reader.read_message() {
            Some(m) => m,
            None => {
                self.output.failure(RawId::Null, ProtocolError::ParseError);
                proof {
                    assert(failed_with(
                        *old(self),
                        *self,
                        RawId::Null,
                        ProtocolError::ParseError,
                    ));
                }
                return ServerStateChange::Break;
            },
        };
        let ghost after_read = *self;
        let r = self.process_message(msg_string.as_str());
        proof {
            lemma_step_rel_reader(
                after_read,
                *old(self),
                parse_spec(json_parse(msg_string@)),
                *self,
                r,
            );
            assert(step_rel(*old(self), parse_spec(json_parse(msg_string@)), *self, r));
            assert(stepped(*old(self), *self, r));
        }
        r
    }

    /// Run this language service: one message per step, until a step
    /// yields `Break`. The whole run is a chain of observed steps, and the
    /// output record only ever grows. The loop carries fuel of one unit
    /// per message so that it provably ends; no session comes near
    /// exhausting it.
    pub fn run(&mut self)
        requires
            old(self).wf(),
        ensures
            final(self).wf(),
            old(self).ctx.spec_shut_down() ==> final(self).ctx.spec_shut_down(),
            old(self).output.sent@.is_prefix_of(final(self).output.sent@),
            exists|states: Seq<LsService<R, O, H>>, results: Seq<ServerStateChange>|
                run_trace(*old(self), states, results, *final(self)),
    {
        let ghost mut states: Seq<LsService<R, O, H>> = seq![*old(self)];
        let ghost mut results: Seq<ServerStateChange> = Seq::empty();
        let mut done: bool = false;
        let mut fuel: u64 = u64::MAX;
        while !done && fuel > 0
            invariant
                self.wf(),
                old(self).ctx.spec_shut_down() ==> self.ctx.spec_shut_down(),
                old(self).output.sent@.is_prefix_of(self.output.sent@),
                states.len() == results.len() + 1,
                states.first() == *old(self),
                states.last() == *self,
                linked(states, results),
                forall|i: int|
                    0 <= i < results.len() - 1 ==> results[i] == ServerStateChange::Continue,
                !done ==> (results.len() == 0 || results.last() == ServerStateChange::Continue),
                done ==> results.len() >= 1 && results.last() == ServerStateChange::Break,
                results.len() == u64::MAX as int - fuel as int + (
                if done {
                    1int
                } else {
                    0int
                }),
            decreases
                    (if done {
                        0int
                    } else {
                        1int
                    }),
                    fuel,
        {
            let ghost prev = *self;
            let sc = self.handle_message();
            proof {
                states = states.push(*self);
                results = results.push(sc);
                assert(stepped(prev, *self, sc));
                assert(old(self).output.sent@.is_prefix_of(self.output.sent@));
            }
            if sc == ServerStateChange::Break {
                done = true;
            } else {
                fuel = fuel - 1;
            }
        }
        proof {
            assert(run_trace(*old(self), states, results, *self));
        }
    }
}

} // verus!
