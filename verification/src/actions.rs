use vstd::prelude::*;

use crate::json;
use crate::json::JsonNum;
use crate::json::JsonValue;
use crate::json::json_get;

use crate::message::ProtocolError;

verus! {

/// The server context after a successful initialize request.
#[derive(Debug)]
pub struct InitializedState {
    /// The workspace root the client named.
    pub root_path: String,
    /// The raw initialization options the client sent, if any.
    pub init_options: Option<JsonValue>,
    /// The raw client capabilities object.
    pub capabilities: JsonValue,
    /// Set by the shutdown request; never cleared again.
    pub shut_down: bool,
}

/// The lifecycle state of the server.
#[derive(Debug)]
pub enum ServerState {
    Uninitialized,
    Initialized(InitializedState),
}

impl ServerState {
    /// Whether the server has been told to shut down.
    pub open spec fn spec_shut_down(self) -> bool {
        match self {
            ServerState::Initialized(st) => st.shut_down,
            ServerState::Uninitialized => false,
        }
    }

    pub fn shut_down(&self) -> (r: bool)
        ensures
            r == self.spec_shut_down(),
    {
        match self {
            ServerState::Initialized(st) => st.shut_down,
            ServerState::Uninitialized => false,
        }
    }
}

/// A response to some request.
pub trait Response {
    /// The JSON value this response stands for, or `None` for no response.
    spec fn spec_payload(self) -> Option<JsonValue>;

    /// The JSON value to write as the result, or `None` to write nothing.
    fn payload(self) -> (r: Option<JsonValue>)
        ensures
            r == self.spec_payload(),
    ;
}

/// A response that just acknowledges receipt of its request.
#[derive(Debug, PartialEq)]
pub struct Ack;

/// The lack of a response to a request.
#[derive(Debug, PartialEq)]
pub struct NoResponse;

impl Response for Ack {
    /// An acknowledgement is written as a JSON null result.
    open spec fn spec_payload(self) -> Option<JsonValue> {
        Some(JsonValue::Null)
    }

    fn payload(self) -> (r: Option<JsonValue>) {
        Some(JsonValue::Null)
    }
}

impl Response for NoResponse {
    open spec fn spec_payload(self) -> Option<JsonValue> {
        None
    }

    fn payload(self) -> (r: Option<JsonValue>) {
        None
    }
}

impl Response for JsonValue {
    open spec fn spec_payload(self) -> Option<JsonValue> {
        Some(self)
    }

    fn payload(self) -> (r: Option<JsonValue>) {
        Some(self)
    }
}

/// An action taken in response to a notification from the client; runs
/// inline on the thread draining the transport.
pub trait BlockingNotificationAction {
    fn handle(params: JsonValue, ctx: &mut ServerState) -> Result<(), ()>;
}

/// A request handled inline on the reading thread; the dispatch loop runs
/// the drain barrier first, so such a handler never races non-blocking work.
pub trait BlockingRequestAction {
    type Response: Response;

    fn handle(id: u64, params: JsonValue, ctx: &mut ServerState) -> Result<Self::Response, ()>;
}

#[verifier::external_type_specification]
#[verifier::external_body]
pub struct ExUrl(url::Url);

/// Relies on `url::Url::parse`: parses an absolute URL from a string.
#[verifier::external_body]
pub fn parse_url(s: &str) -> (r: Option<url::Url>) {
    url::Url::parse(s).ok()
}

/// Relies on `url::Url::scheme`: the scheme of the URL, in lower case.
#[verifier::external_body]
pub fn url_scheme(u: &url::Url) -> (r: String) {
    u.scheme().to_owned()
}

/// Relies on `url::Url::to_file_path`: the local path a file URL names,
/// where there is one; a path that is not UTF-8 also comes out as `None`.
#[verifier::external_body]
pub fn url_to_file_path(u: &url::Url) -> (r: Option<String>) {
    match u.to_file_path() {
        Ok(p) => match p.to_str() {
            Some(t) => Some(t.to_owned()),
            None => None,
        },
        Err(_) => None,
    }
}

/// The fields of an initialize request the core reads, already validated.
#[derive(Debug)]
pub struct InitFields {
    pub root_uri: Option<url::Url>,
    pub root_path: Option<String>,
    pub options: Option<JsonValue>,
    pub capabilities: JsonValue,
}

/// The shape an initialize request's parameters must have: an object whose
/// `rootUri` and `rootPath`, where present, are strings or null, and whose
/// `capabilities` is an object.
pub open spec fn init_shape_ok(p: JsonValue) -> bool {
    &&& p is Object
    &&& match json_get(p, "rootUri"@) {
        None => true,
        Some(JsonValue::Null) => true,
        Some(JsonValue::Str(s)) => true,
        _ => false,
    }
    &&& match json_get(p, "rootPath"@) {
        None => true,
        Some(JsonValue::Null) => true,
        Some(JsonValue::Str(s)) => true,
        _ => false,
    }
    &&& match json_get(p, "capabilities"@) {
        Some(JsonValue::Object(fs)) => true,
        _ => false,
    }
}

/// Whether an optional field holds a string.
pub open spec fn is_str_field(f: Option<JsonValue>) -> bool {
    match f {
        Some(JsonValue::Str(s)) => true,
        _ => false,
    }
}

/// The `rootPath` string of validated parameters, absent where the field
/// is missing or null.
pub open spec fn spec_root_path_field(p: JsonValue) -> Option<String> {
    match json_get(p, "rootPath"@) {
        Some(JsonValue::Str(s)) => Some(s),
        _ => None,
    }
}

/// The `initializationOptions` value, with an explicit null reading as
/// absent, as an optional field does on the wire.
pub open spec fn spec_options_field(p: JsonValue) -> Option<JsonValue> {
    match json_get(p, "initializationOptions"@) {
        Some(JsonValue::Null) => None,
        x => x,
    }
}

/// Validates initialize parameters, as deserializing them does: shape
/// faults and an unparseable `rootUri` string are refused as invalid
/// requests before any handler runs.
pub fn init_validate(params: JsonValue) -> (r: Result<InitFields, ProtocolError>)
    ensures
        !init_shape_ok(params) ==> r == Err::<InitFields, ProtocolError>(
            ProtocolError::InvalidRequest,
        ),
        r matches Err(e) ==> e == ProtocolError::InvalidRequest,
        r matches Ok(f) ==> {
            &&& init_shape_ok(params)
            &&& f.root_path == spec_root_path_field(params)
            &&& f.options == spec_options_field(params)
            &&& Some(f.capabilities) == json_get(params, "capabilities"@)
            &&& (f.root_uri is Some <==> (json_get(params, "rootUri"@) matches Some(
                JsonValue::Str(s),
            )))
        },
        init_shape_ok(params) && !(json_get(params, "rootUri"@) matches Some(JsonValue::Str(s)))
            ==> r is Ok,
{
    proof {
        reveal_strlit("rootUri");
        reveal_strlit("rootPath");
        reveal_strlit("initializationOptions");
        reveal_strlit("capabilities");
        assert("rootUri"@.len() == 7);
        assert("rootPath"@.len() == 8);
        assert("initializationOptions"@.len() == 21);
        assert("capabilities"@.len() == 12);
    }
    let mut fields: Vec<(String, JsonValue)> = match params {
        JsonValue::Object(fs) => fs,
        _ => {
            return Err(ProtocolError::InvalidRequest);
        },
    };
    assert(params == JsonValue::Object(fields));
    let ghost p0 = fields@;
    let uri_f = crate::message::take_from(&mut fields, "rootUri");
    assert(uri_f == json_get(params, "rootUri"@));
    let ghost p1 = fields@;
    let path_f = crate::message::take_from(&mut fields, "rootPath");
    assert(crate::json::obj_lookup_seq(p1, "rootPath"@) == crate::json::obj_lookup_seq(
        p0,
        "rootPath"@,
    ));
    assert(path_f == json_get(params, "rootPath"@));
    let ghost p2 = fields@;
    let opt_f = crate::message::take_from(&mut fields, "initializationOptions");
    assert(crate::json::obj_lookup_seq(p2, "initializationOptions"@) == crate::json::obj_lookup_seq(
        p0,
        "initializationOptions"@,
    ));
    assert(opt_f == json_get(params, "initializationOptions"@));
    let ghost p3 = fields@;
    let caps_f = crate::message::take_from(&mut fields, "capabilities");
    assert(crate::json::obj_lookup_seq(p3, "capabilities"@) == crate::json::obj_lookup_seq(
        p0,
        "capabilities"@,
    ));
    assert(caps_f == json_get(params, "capabilities"@));
    let root_uri: Option<url::Url> = match uri_f {
        None => None,
        Some(JsonValue::Null) => None,
        Some(JsonValue::Str(s)) => match parse_url(s.as_str()) {
            Some(u) => Some(u),
            None => {
                return Err(ProtocolError::InvalidRequest);
            },
        },
        Some(_) => {
            return Err(ProtocolError::InvalidRequest);
        },
    };
    let root_path: Option<String> = match path_f {
        None => None,
        Some(JsonValue::Null) => None,
        Some(JsonValue::Str(s)) => Some(s),
        Some(_) => {
            return Err(ProtocolError::InvalidRequest);
        },
    };
    let capabilities: JsonValue = match caps_f {
        Some(JsonValue::Object(fs2)) => JsonValue::Object(fs2),
        _ => {
            return Err(ProtocolError::InvalidRequest);
        },
    };
    let options: Option<JsonValue> = match opt_f {
        Some(JsonValue::Null) => None,
        x => x,
    };
    Ok(InitFields { root_uri, root_path, options, capabilities })
}

/// What the URI branch decides once the outside crate has spoken: the
/// converted path counts only under the file scheme.
pub fn pick_file_root(scheme_is_file: bool, conv: Option<String>) -> (r: Option<String>)
    ensures
        r == if scheme_is_file {
            conv
        } else {
            None::<String>
        },
{
    if scheme_is_file {
        conv
    } else {
        None
    }
}

/// The workspace root the request names: the file path of `rootUri` where
/// a root URI was sent and carries the file scheme, else the plain
/// `rootPath`.
pub fn get_root_path(f: &InitFields) -> (r: Option<String>)
    ensures
        f.root_uri is None ==> r == f.root_path,
{
    match &f.root_uri {
        Some(u) => {
            let sch = url_scheme(u);
            let is_file = json::str_eq(sch.as_str(), "file");
            let conv = url_to_file_path(u);
            pick_file_root(is_file, conv)
        },
        None => match &f.root_path {
            Some(p) => Some(p.clone()),
            None => None,
        },
    }
}

/// The shutdown request: marks the context as shut down and acknowledges.
pub struct ShutdownRequest;

/// The initialize request: moves the server into its initialized state and
/// answers with the server's capabilities.
pub struct InitializeRequest;

/// The exit notification: ends the process with the protocol's exit code.
pub struct ExitNotification;

impl ShutdownRequest {
    /// Sets the shut-down flag. Before initialization there is no context
    /// to mark, and the handler fails instead.
    pub fn handle(ctx: &mut ServerState) -> (r: Result<Ack, ()>)
        ensures
            *old(ctx) is Uninitialized ==> r is Err && *final(ctx) == *old(ctx),
            *old(ctx) is Initialized ==> r == Ok::<Ack, ()>(Ack) && *final(ctx)
                == ServerState::Initialized(
                (InitializedState { shut_down: true, ..(*old(ctx))->Initialized_0 }),
            ),
    {
        match ctx {
            ServerState::Initialized(st) => {
                st.shut_down = true;
                Ok(Ack)
            },
            ServerState::Uninitialized => Err(()),
        }
    }
}

impl BlockingRequestAction for ShutdownRequest {
    type Response = Ack;

    fn handle(_id: u64, _params: JsonValue, ctx: &mut ServerState) -> Result<Ack, ()> {
        ShutdownRequest::handle(ctx)
    }
}

impl ExitNotification {
    /// The exit code the protocol assigns: zero after a shutdown request,
    /// one where the client skipped it.
    pub fn handle(ctx: &ServerState) -> (r: i32)
        ensures
            r == if ctx.spec_shut_down() {
                0int
            } else {
                1int
            },
    {
        if ctx.shut_down() {
            0
        } else {
            1
        }
    }
}

/// The cancel notification: accepted, and deliberately a no-op — nothing
/// outstanding is interrupted, and nothing must ever crash on receipt.
pub struct CancelNotification;

impl CancelNotification {
    pub fn handle(ctx: &mut ServerState) -> (r: Result<(), ()>)
        ensures
            *final(ctx) == *old(ctx),
            r is Ok,
    {
        Ok(())
    }
}

impl BlockingNotificationAction for CancelNotification {
    fn handle(_params: JsonValue, ctx: &mut ServerState) -> Result<(), ()> {
        CancelNotification::handle(ctx)
    }
}

/// What the initialize response looks like: one `capabilities` object
/// announcing exactly the capabilities this server has.
pub open spec fn is_init_response(v: JsonValue) -> bool {
    &&& v matches JsonValue::Object(top)
    &&& v->Object_0@.len() == 1
    &&& v->Object_0@[0].0@ == "capabilities"@
    &&& is_server_capabilities(v->Object_0@[0].1)
}

/// The capabilities object itself, entry by entry.
pub open spec fn is_server_capabilities(v: JsonValue) -> bool {
    &&& v is Object
    &&& {
        let c = v->Object_0@;
        &&& c.len() == 13
        &&& c[0].0@ == "textDocumentSync"@ && c[0].1 == JsonValue::Num(JsonNum::Uint(2))
        &&& c[1].0@ == "hoverProvider"@ && c[1].1 == JsonValue::Bool(true)
        &&& c[2].0@ == "completionProvider"@ && is_completion_options(c[2].1)
        &&& c[3].0@ == "definitionProvider"@ && c[3].1 == JsonValue::Bool(true)
        &&& c[4].0@ == "referencesProvider"@ && c[4].1 == JsonValue::Bool(true)
        &&& c[5].0@ == "documentHighlightProvider"@ && c[5].1 == JsonValue::Bool(true)
        &&& c[6].0@ == "documentSymbolProvider"@ && c[6].1 == JsonValue::Bool(true)
        &&& c[7].0@ == "workspaceSymbolProvider"@ && c[7].1 == JsonValue::Bool(true)
        &&& c[8].0@ == "codeActionProvider"@ && c[8].1 == JsonValue::Bool(true)
        &&& c[9].0@ == "documentFormattingProvider"@ && c[9].1 == JsonValue::Bool(true)
        &&& c[10].0@ == "documentRangeFormattingProvider"@ && c[10].1 == JsonValue::Bool(false)
        &&& c[11].0@ == "renameProvider"@ && c[11].1 == JsonValue::Bool(true)
        &&& c[12].0@ == "executeCommandProvider"@ && is_execute_command_options(c[12].1)
    }
}

/// Completion is offered with resolve support for the member and path
/// trigger characters.
pub open spec fn is_completion_options(v: JsonValue) -> bool {
    &&& v is Object
    &&& {
        let c = v->Object_0@;
        &&& c.len() == 2
        &&& c[0].0@ == "resolveProvider"@ && c[0].1 == JsonValue::Bool(true)
        &&& c[1].0@ == "triggerCharacters"@
        &&& c[1].1 matches JsonValue::Array(items)
        &&& c[1].1->Array_0@.len() == 2
        &&& c[1].1->Array_0@[0] matches JsonValue::Str(a) && a@ == "."@
        &&& c[1].1->Array_0@[1] matches JsonValue::Str(b) && b@ == ":"@
    }
}

/// The two commands the server executes for the client.
pub open spec fn is_execute_command_options(v: JsonValue) -> bool {
    &&& v is Object
    &&& {
        let c = v->Object_0@;
        &&& c.len() == 1
        &&& c[0].0@ == "commands"@
        &&& c[0].1 matches JsonValue::Array(items)
        &&& c[0].1->Array_0@.len() == 2
        &&& c[0].1->Array_0@[0] matches JsonValue::Str(a) && a@ == "rls.applySuggestion"@
        &&& c[0].1->Array_0@[1] matches JsonValue::Str(b) && b@ == "rls.deglobImports"@
    }
}

/// Builds the initialize response.
pub fn init_response() -> (r: JsonValue)
    ensures
        is_init_response(r),
{
    let mut completion: Vec<(String, JsonValue)> = Vec::new();
    completion.push(("resolveProvider".to_owned(), JsonValue::Bool(true)));
    let mut triggers: Vec<JsonValue> = Vec::new();
    triggers.push(JsonValue::Str(".".to_owned()));
    triggers.push(JsonValue::Str(":".to_owned()));
    completion.push(("triggerCharacters".to_owned(), JsonValue::Array(triggers)));
    let mut commands: Vec<JsonValue> = Vec::new();
    commands.push(JsonValue::Str("rls.applySuggestion".to_owned()));
    commands.push(JsonValue::Str("rls.deglobImports".to_owned()));
    let mut exec_cmd: Vec<(String, JsonValue)> = Vec::new();
    exec_cmd.push(("commands".to_owned(), JsonValue::Array(commands)));
    let mut caps: Vec<(String, JsonValue)> = Vec::new();
    caps.push(("textDocumentSync".to_owned(), JsonValue::Num(JsonNum::Uint(2))));
    caps.push(("hoverProvider".to_owned(), JsonValue::Bool(true)));
    caps.push(("completionProvider".to_owned(), JsonValue::Object(completion)));
    caps.push(("definitionProvider".to_owned(), JsonValue::Bool(true)));
    caps.push(("referencesProvider".to_owned(), JsonValue::Bool(true)));
    caps.push(("documentHighlightProvider".to_owned(), JsonValue::Bool(true)));
    caps.push(("documentSymbolProvider".to_owned(), JsonValue::Bool(true)));
    caps.push(("workspaceSymbolProvider".to_owned(), JsonValue::Bool(true)));
    caps.push(("codeActionProvider".to_owned(), JsonValue::Bool(true)));
    caps.push(("documentFormattingProvider".to_owned(), JsonValue::Bool(true)));
    caps.push(("documentRangeFormattingProvider".to_owned(), JsonValue::Bool(false)));
    caps.push(("renameProvider".to_owned(), JsonValue::Bool(true)));
    caps.push(("executeCommandProvider".to_owned(), JsonValue::Object(exec_cmd)));
    let mut top: Vec<(String, JsonValue)> = Vec::new();
    top.push(("capabilities".to_owned(), JsonValue::Object(caps)));
    JsonValue::Object(top)
}

impl BlockingRequestAction for InitializeRequest {
    type Response = JsonValue;

    fn handle(id: u64, params: JsonValue, ctx: &mut ServerState) -> Result<JsonValue, ()> {
        match init_validate(params) {
            Ok(f) => InitializeRequest::handle(id, f, ctx),
            Err(_) => Err(()),
        }
    }
}

impl InitializeRequest {
    /// Moves an uninitialized server into its initialized state, rooted at
    /// the workspace the request names, and answers with the capabilities.
    /// Re-initialization fails, as does a request that names no usable root.
    pub fn handle(id: u64, f: InitFields, ctx: &mut ServerState) -> (r: Result<JsonValue, ()>)
        ensures
            *old(ctx) is Initialized ==> r is Err,
            r is Err ==> *final(ctx) == *old(ctx),
            *old(ctx) is Uninitialized && f.root_uri is None && f.root_path is None ==> r is Err,
            *old(ctx) is Uninitialized && f.root_uri is None && f.root_path is Some ==> r is Ok,
            r matches Ok(resp) ==> {
                &&& is_init_response(resp)
                &&& *final(ctx) matches ServerState::Initialized(st)
                &&& st.shut_down == false
                &&& st.init_options == f.options
                &&& st.capabilities == f.capabilities
                &&& (f.root_uri is None ==> Some(st.root_path) == f.root_path)
            },
    {
        match ctx {
            ServerState::Initialized(_) => Err(()),
            ServerState::Uninitialized => {
                let root = match get_root_path(&f) {
                    Some(p) => p,
                    None => {
                        return Err(());
                    },
                };
                let resp = init_response();
                *ctx = ServerState::Initialized(
                    InitializedState {
                        root_path: root,
                        init_options: f.options,
                        capabilities: f.capabilities,
                        shut_down: false,
                    },
                );
                Ok(resp)
            },
        }
    }
}

} // verus!
