//! The dispatch and envelope layers, and the command catalog.
//!
//! `notify` and `request` are the two generic wire primitives. Every
//! per-view editor command shares one nested "edit" envelope, built by
//! `compose_edit_params`, so the command functions cannot drift in envelope
//! shape, and a conversion failure is caught before any network effect.
//! The transport's resolution of a pending request is translated back by
//! `request_outcome` and its relatives.

use crate::errors::ClientError;
use crate::errors::ClientErrorV;
use crate::errors::EncodeError;
use crate::protocol::notification_v;
use crate::protocol::request_v;
use crate::protocol::Message;
use crate::protocol::Outbound;
use crate::protocol::OutboundV;
use crate::protocol::RequestOutcome;
use crate::protocol::RequestOutcomeV;
use crate::protocol::TransportError;
use crate::structs::ModifySelection;
use crate::structs::ViewId;
use crate::value::obj_entry;
use crate::value::string_of_char;
use crate::value::JVal;
use crate::value::Json;
use crate::value::ToWire;
use vstd::prelude::*;

verus! {

/// The result type of every call at this layer.
pub type ClientResult<T> = Result<T, ClientError>;

/// The model of a call result: each side replaced by its model.
pub open spec fn result_v<T: View, E: View>(r: Result<T, E>) -> Result<T::V, E::V> {
    match r {
        Ok(t) => Ok(t@),
        Err(e) => Err(e@),
    }
}

/// The three-way mapping at the heart of the dispatch layer: a remote reply
/// is success, a remote-reported error surfaces as `ErrorReturned` with its
/// payload preserved, and a transport-level failure surfaces as
/// `RequestFailed` — so a caller can always tell a structured rejection from
/// a call that never reached or returned from the remote side.
pub open spec fn interpret_request_v(o: RequestOutcomeV) -> Result<JVal, ClientErrorV> {
    match o {
        RequestOutcomeV::Reply(v) => Ok(v),
        RequestOutcomeV::ErrorReply(v) => Err(ClientErrorV::ErrorReturned(v)),
        RequestOutcomeV::Failed => Err(ClientErrorV::RequestFailed),
    }
}

/// Translate what the transport resolved a pending request to into the
/// caller's typed result. The translation is a function of this outcome
/// alone: the layer holds no state across calls, so concurrently issued
/// requests are interpreted independently, in whatever order they resolve.
pub fn request_outcome(o: RequestOutcome) -> (r: ClientResult<Json>)
    ensures
        result_v(r) == interpret_request_v(o@),
{
    match o {
        RequestOutcome::Reply(v) => Ok(v),
        RequestOutcome::ErrorReply(v) => Err(ClientError::ErrorReturned(v)),
        RequestOutcome::Failed(_) => Err(ClientError::RequestFailed),
    }
}

/// Translate the transport's hand-off result for a notification: a refused
/// hand-off (for example, the connection is down) surfaces as
/// `NotifyFailed`. A successful hand-off does not imply the remote side
/// processed the message.
pub fn notify_outcome(handoff: Result<(), TransportError>) -> (r: ClientResult<()>)
    ensures
        r is Ok <==> handoff is Ok,
        r matches Err(e) ==> e is NotifyFailed,
{
    match handoff {
        Ok(_) => Ok(()),
        Err(_) => Err(ClientError::NotifyFailed),
    }
}

/// Read a view identifier out of a `new_view` reply payload: the reply must
/// be a wire string.
pub fn view_id_from_wire(v: Json) -> (r: ClientResult<ViewId>)
    ensures
        r is Ok <==> v@ is Str,
        r matches Ok(id) ==> v@ == JVal::Str(id@),
        r matches Err(e) ==> e is SerializeFailed,
{
    match v {
        Json::Str(s) => Ok(ViewId(s)),
        _ => Err(
            ClientError::SerializeFailed(
                EncodeError {
                    reason: "a new_view reply must be a view identifier string".to_owned(),
                },
            ),
        ),
    }
}

/// Translate the transport's resolution of a `new_view` request: the
/// three-way request mapping, followed by reading the view identifier out of
/// a successful reply.
pub fn new_view_outcome(o: RequestOutcome) -> (r: ClientResult<ViewId>)
    ensures
        r is Ok <==> (o@ matches RequestOutcomeV::Reply(v) && v is Str),
        r matches Ok(id) ==> o@ == RequestOutcomeV::Reply(JVal::Str(id@)),
        (o@ matches RequestOutcomeV::Reply(v) && !(v is Str)) ==> (r matches Err(e) && e is
            SerializeFailed),
        o@ matches RequestOutcomeV::ErrorReply(v) ==> (r matches Err(e) && e@
            == ClientErrorV::ErrorReturned(v)),
        o@ is Failed ==> (r matches Err(e) && e is RequestFailed),
{
    match request_outcome(o) {
        Ok(v) => view_id_from_wire(v),
        Err(e) => Err(e),
    }
}

/// The fixed nested envelope of every per-view "edit" call: the inner method
/// name, the view identifier, and the carried parameters.
pub open spec fn edit_envelope(inner: Seq<char>, view: Seq<char>, params: JVal) -> JVal {
    JVal::Obj(
        seq![
            ("method"@, JVal::Str(inner)),
            ("view_id"@, JVal::Str(view)),
            ("params"@, params),
        ],
    )
}

/// Whether optional typed parameters convert to the wire model.
pub open spec fn params_ok<T: ToWire>(params: Option<T>) -> bool {
    match params {
        Some(p) => p.encodes(),
        None => true,
    }
}

/// The wire value carried for optional typed parameters: the conversion of a
/// present value, or the fixed empty sequence when absent — never null,
/// never omitted; the remote side depends on this fixed format.
pub open spec fn params_value<T: ToWire>(params: Option<T>) -> JVal {
    match params {
        Some(p) => p.encoding(),
        None => JVal::Arr(Seq::<JVal>::empty()),
    }
}

/// The parameters carried by a per-view command that takes none.
pub open spec fn no_params() -> JVal {
    JVal::Arr(Seq::<JVal>::empty())
}

/// The model of an edit-scoped notification.
pub open spec fn edit_notification_v(inner: Seq<char>, view: Seq<char>, params: JVal) -> OutboundV {
    notification_v("edit"@, edit_envelope(inner, view, params))
}

/// The model of an edit-scoped request.
pub open spec fn edit_request_v(inner: Seq<char>, view: Seq<char>, params: JVal) -> OutboundV {
    request_v("edit"@, edit_envelope(inner, view, params))
}

/// The parameters of a "find": the search text and its three flags.
pub open spec fn find_params(term: Seq<char>, case_sensitive: bool, regex: bool, whole_words: bool) -> JVal {
    JVal::Obj(
        seq![
            ("chars"@, JVal::Str(term)),
            ("case_sensitive"@, JVal::Bool(case_sensitive)),
            ("regex"@, JVal::Bool(regex)),
            ("whole_words"@, JVal::Bool(whole_words)),
        ],
    )
}

/// The parameters shared by the find-navigation commands.
pub open spec fn find_nav_params(wrap_around: bool, allow_same: bool, modify_selection: ModifySelection) -> JVal {
    JVal::Obj(
        seq![
            ("wrap_around"@, JVal::Bool(wrap_around)),
            ("allow_same"@, JVal::Bool(allow_same)),
            ("modify_selection"@, JVal::Str(modify_selection.wire())),
        ],
    )
}

/// The parameters of a "gesture": a position and the gesture kind.
pub open spec fn gesture_params(line: u64, col: u64, ty: Seq<char>) -> JVal {
    JVal::Obj(seq![("line"@, JVal::UInt(line)), ("col"@, JVal::UInt(col)), ("ty"@, JVal::Str(ty))])
}

/// The parameters of a "new_view": the optional file path to open.
pub open spec fn new_view_params(file_path: Option<String>) -> JVal {
    match file_path {
        Some(p) => JVal::Obj(seq![("file_path"@, JVal::Str(p@))]),
        None => JVal::Obj(Seq::<(Seq<char>, JVal)>::empty()),
    }
}

/// The entries of a "client_started": whichever of the two optional
/// directories are present, in that order.
pub open spec fn client_started_entries(config_dir: Option<&str>, client_extra_dir: Option<&str>) -> Seq<
    (Seq<char>, JVal),
> {
    let with_config = match config_dir {
        Some(p) => seq![("config_dir"@, JVal::Str(p@))],
        None => Seq::<(Seq<char>, JVal)>::empty(),
    };
    match client_extra_dir {
        Some(p) => with_config.push(("client_extra_dir"@, JVal::Str(p@))),
        None => with_config,
    }
}

/// The parameters of a "client_started".
pub open spec fn client_started_params(config_dir: Option<&str>, client_extra_dir: Option<&str>) -> JVal {
    JVal::Obj(client_started_entries(config_dir, client_extra_dir))
}

/// The parameters of a "plugin_rpc": the view, the receiving plugin, and the
/// forwarded notification.
pub open spec fn plugin_rpc_params(view: Seq<char>, receiver: Seq<char>, method: Seq<char>, params: JVal) -> JVal {
    JVal::Obj(
        seq![
            ("view_id"@, JVal::Str(view)),
            ("receiver"@, JVal::Str(receiver)),
            (
                "notification"@,
                JVal::Obj(seq![("method"@, JVal::Str(method)), ("params"@, params)]),
            ),
        ],
    )
}

/// Build the nested envelope of one per-view call: convert the optional
/// typed parameters (an absent value becomes the fixed empty sequence) and
/// wrap them with the inner method name and the view identifier. A value
/// that does not convert is reported as a serialization failure, before any
/// message exists.
pub fn compose_edit_params<T: ToWire>(view_id: ViewId, method: &str, params: Option<T>) -> (r:
    ClientResult<Json>)
    ensures
        r is Ok <==> params_ok(params),
        r matches Ok(v) ==> v@ == edit_envelope(method@, view_id@, params_value(params)),
        r matches Err(e) ==> e is SerializeFailed,
{
    let encoded = match params {
        Some(p) => match p.encode() {
            Ok(v) => v,
            Err(e) => {
                return Err(ClientError::SerializeFailed(e));
            },
        },
        None => Json::arr0(),
    };
    Ok(
        Json::obj3(
            "method",
            Json::str_of(method),
            "view_id",
            Json::Str(view_id.0),
            "params",
            encoded,
        ),
    )
}

/// Round-trip of the edit envelope: reading the composed value back yields
/// exactly the inner method name, the view identifier, and the carried
/// parameters — three entries and nothing else, with the parameter entry
/// always present.
pub proof fn lemma_edit_envelope_round_trip(inner: Seq<char>, view: Seq<char>, params: JVal)
    ensures
        edit_envelope(inner, view, params) matches JVal::Obj(entries) && entries.len() == 3,
        obj_entry(edit_envelope(inner, view, params)->Obj_0, "method"@) == Some(JVal::Str(inner)),
        obj_entry(edit_envelope(inner, view, params)->Obj_0, "view_id"@) == Some(JVal::Str(view)),
        obj_entry(edit_envelope(inner, view, params)->Obj_0, "params"@) == Some(params),
{
    reveal_strlit("method");
    reveal_strlit("view_id");
    reveal_strlit("params");
    let es = edit_envelope(inner, view, params)->Obj_0;
    let tail1 = seq![("view_id"@, JVal::Str(view)), ("params"@, params)];
    let tail2 = seq![("params"@, params)];
    let nil = Seq::<(Seq<char>, JVal)>::empty();
    assert(es.skip(1) =~= tail1);
    assert(tail1.skip(1) =~= tail2);
    assert(tail2.skip(1) =~= nil);
    assert("method"@.len() == 6 && "view_id"@.len() == 7 && "params"@.len() == 6);
    assert("method"@[0] == 'm' && "params"@[0] == 'p');
    assert(obj_entry(nil, "view_id"@) is None);
    assert(obj_entry(tail2, "view_id"@) is None);
    assert(obj_entry(tail2, "params"@) == Some(params));
    assert(obj_entry(tail1, "view_id"@) == Some(JVal::Str(view)));
    assert(obj_entry(tail1, "params"@) == Some(params));
}

/// Every edit-scoped call rides in the fixed outer "edit" method, and a
/// notification and a request for the same inner call carry the very same
/// message: the command functions cannot drift in envelope shape.
pub proof fn lemma_edit_calls_share_one_envelope(inner: Seq<char>, view: Seq<char>, params: JVal)
    ensures
        edit_notification_v(inner, view, params) matches OutboundV::Notification(m) && m.method
            == "edit"@,
        edit_request_v(inner, view, params) matches OutboundV::Request(m) && m.method == "edit"@,
        edit_notification_v(inner, view, params)->Notification_0 == edit_request_v(
            inner,
            view,
            params,
        )->Request_0,
{
}

/// The conversion carried for absent parameters is the fixed empty sequence,
/// never null and never omitted; a present value rides along as its own
/// conversion.
pub proof fn lemma_params_value_total<T: ToWire>(params: Option<T>)
    ensures
        params matches Some(p) ==> params_value(params) == p.encoding(),
        params is None ==> params_value(params) == JVal::Arr(Seq::<JVal>::empty()),
        params is None ==> params_value(params) != JVal::Null,
{
}

/// A client composing notifications and requests for the editing core.
///
/// The layer is stateless: each call is an independent value transformation,
/// so the client holds nothing and its methods borrow it immutably. The
/// pending state of issued requests is owned by the transport.
#[derive(Clone, Copy, Debug)]
pub struct Client {}

impl Client {
    /// A client ready to compose calls.
    pub fn new() -> Client {
        Client {}
    }

    /// Compose a fire-and-forget notification with the given method name and
    /// parameters. Most notifications understood by the core have a command
    /// function of their own, so this is rarely needed directly.
    pub fn notify(&self, method: &str, params: Json) -> (r: Outbound)
        ensures
            r@ == notification_v(method@, params@),
    {
        Outbound::Notification(Message { method: method.to_owned(), params })
    }

    /// Compose a request with the given method name and parameters; the
    /// transport is expected to resolve its reply. Most requests understood
    /// by the core have a command function of their own, so this is rarely
    /// needed directly.
    pub fn request(&self, method: &str, params: Json) -> (r: Outbound)
        ensures
            r@ == request_v(method@, params@),
    {
        Outbound::Request(Message { method: method.to_owned(), params })
    }

    /// Compose an edit-scoped notification: the inner method, the view
    /// identifier and the converted parameters ride inside the fixed outer
    /// "edit" call. When the conversion fails, the failure is the result —
    /// no message exists and nothing reaches the transport.
    pub fn edit_notify<T: ToWire>(&self, view_id: ViewId, method: &str, params: Option<T>) -> (r:
        ClientResult<Outbound>)
        ensures
            r is Ok <==> params_ok(params),
            r matches Ok(ob) ==> ob@ == edit_notification_v(method@, view_id@, params_value(params)),
            r matches Err(e) ==> e is SerializeFailed,
    {
        match compose_edit_params(view_id, method, params) {
            Ok(value) => Ok(self.notify("edit", value)),
            Err(e) => Err(e),
        }
    }

    /// Compose an edit-scoped request, with the same envelope and the same
    /// conversion-failure behaviour as `edit_notify`.
    pub fn edit_request<T: ToWire>(&self, view_id: ViewId, method: &str, params: Option<T>) -> (r:
        ClientResult<Outbound>)
        ensures
            r is Ok <==> params_ok(params),
            r matches Ok(ob) ==> ob@ == edit_request_v(method@, view_id@, params_value(params)),
            r matches Err(e) ==> e is SerializeFailed,
    {
        match compose_edit_params(view_id, method, params) {
            Ok(value) => Ok(self.request("edit", value)),
            Err(e) => Err(e),
        }
    }

    /// Tell the view which lines are visible: the first and one-past-last
    /// visible line numbers, as a two-element sequence.
    pub fn scroll(&self, view_id: ViewId, first_line: u64, last_line: u64) -> (r: ClientResult<
        Outbound,
    >)
        ensures
            r is Ok,
            r matches Ok(ob) ==> ob@ == edit_notification_v(
                "scroll"@,
                view_id@,
                JVal::Arr(seq![JVal::UInt(first_line), JVal::UInt(last_line)]),
            ),
    {
        let params = Json::arr2(Json::UInt(first_line), Json::UInt(last_line));
        self.edit_notify(view_id, "scroll", Some(params))
    }

    /// Move the cursor to the given line.
    pub fn goto_line(&self, view_id: ViewId, line: u64) -> (r: ClientResult<Outbound>)
        ensures
            r is Ok,
            r matches Ok(ob) ==> ob@ == edit_notification_v(
                "goto_line"@,
                view_id@,
                JVal::Obj(seq![("line"@, JVal::UInt(line))]),
            ),
    {
        let params = Json::obj1("line", Json::UInt(line));
        self.edit_notify(view_id, "goto_line", Some(params))
    }

    /// Request the selected text.
    pub fn copy(&self, view_id: ViewId) -> (r: ClientResult<Outbound>)
        ensures
            r is Ok,
            r matches Ok(ob) ==> ob@ == edit_request_v("copy"@, view_id@, no_params()),
    {
        self.edit_request::<Json>(view_id, "copy", None)
    }

    /// Insert the given text at the cursor.
    pub fn paste(&self, view_id: ViewId, buffer: &str) -> (r: ClientResult<Outbound>)
        ensures
            r is Ok,
            r matches Ok(ob) ==> ob@ == edit_notification_v(
                "paste"@,
                view_id@,
                JVal::Obj(seq![("chars"@, JVal::Str(buffer@))]),
            ),
    {
        let params = Json::obj1("chars", Json::str_of(buffer));
        self.edit_notify(view_id, "paste", Some(params))
    }

    /// Request the selected text, removing it from the view.
    pub fn cut(&self, view_id: ViewId) -> (r: ClientResult<Outbound>)
        ensures
            r is Ok,
            r matches Ok(ob) ==> ob@ == edit_request_v("cut"@, view_id@, no_params()),
    {
        self.edit_request::<Json>(view_id, "cut", None)
    }

    /// Undo the latest edit.
    pub fn undo(&self, view_id: ViewId) -> (r: ClientResult<Outbound>)
        ensures
            r is Ok,
            r matches Ok(ob) ==> ob@ == edit_notification_v("undo"@, view_id@, no_params()),
    {
        self.edit_notify::<Json>(view_id, "undo", None)
    }

    /// Redo the latest undone edit.
    pub fn redo(&self, view_id: ViewId) -> (r: ClientResult<Outbound>)
        ensures
            r is Ok,
            r matches Ok(ob) ==> ob@ == edit_notification_v("redo"@, view_id@, no_params()),
    {
        self.edit_notify::<Json>(view_id, "redo", None)
    }

    /// Start a search for the given text with the given flags.
    pub fn find(
        &self,
        view_id: ViewId,
        search_term: &str,
        case_sensitive: bool,
        regex: bool,
        whole_words: bool,
    ) -> (r: ClientResult<Outbound>)
        ensures
            r is Ok,
            r matches Ok(ob) ==> ob@ == edit_notification_v(
                "find"@,
                view_id@,
                find_params(search_term@, case_sensitive, regex, whole_words),
            ),
    {
        let params = Json::obj4(
            "chars",
            Json::str_of(search_term),
            "case_sensitive",
            Json::Bool(case_sensitive),
            "regex",
            Json::Bool(regex),
            "whole_words",
            Json::Bool(whole_words),
        );
        self.edit_notify(view_id, "find", Some(params))
    }

    /// The shared shape of the find-navigation notifications.
    fn find_other(
        &self,
        view_id: ViewId,
        command: &str,
        wrap_around: bool,
        allow_same: bool,
        modify_selection: ModifySelection,
    ) -> (r: ClientResult<Outbound>)
        ensures
            r is Ok,
            r matches Ok(ob) ==> ob@ == edit_notification_v(
                command@,
                view_id@,
                find_nav_params(wrap_around, allow_same, modify_selection),
            ),
    {
        let params = Json::obj3(
            "wrap_around",
            Json::Bool(wrap_around),
            "allow_same",
            Json::Bool(allow_same),
            "modify_selection",
            Json::str_of(modify_selection.wire_str()),
        );
        self.edit_notify(view_id, command, Some(params))
    }

    /// Move to the next match of the current search.
    pub fn find_next(
        &self,
        view_id: ViewId,
        wrap_around: bool,
        allow_same: bool,
        modify_selection: ModifySelection,
    ) -> (r: ClientResult<Outbound>)
        ensures
            r is Ok,
            r matches Ok(ob) ==> ob@ == edit_notification_v(
                "find_next"@,
                view_id@,
                find_nav_params(wrap_around, allow_same, modify_selection),
            ),
    {
        self.find_other(view_id, "find_next", wrap_around, allow_same, modify_selection)
    }

    /// Move to the previous match of the current search.
    pub fn find_prev(
        &self,
        view_id: ViewId,
        wrap_around: bool,
        allow_same: bool,
        modify_selection: ModifySelection,
    ) -> (r: ClientResult<Outbound>)
        ensures
            r is Ok,
            r matches Ok(ob) ==> ob@ == edit_notification_v(
                "find_previous"@,
                view_id@,
                find_nav_params(wrap_around, allow_same, modify_selection),
            ),
    {
        self.find_other(view_id, "find_previous", wrap_around, allow_same, modify_selection)
    }

    /// Select all matches of the current search.
    pub fn find_all(&self, view_id: ViewId) -> (r: ClientResult<Outbound>)
        ensures
            r is Ok,
            r matches Ok(ob) ==> ob@ == edit_notification_v("find_all"@, view_id@, no_params()),
    {
        self.edit_notify::<Json>(view_id, "find_all", None)
    }

    /// Show or hide the highlighting of search matches.
    pub fn highlight_find(&self, view_id: ViewId, visible: bool) -> (r: ClientResult<Outbound>)
        ensures
            r is Ok,
            r matches Ok(ob) ==> ob@ == edit_notification_v(
                "highlight_find"@,
                view_id@,
                JVal::Obj(seq![("visible"@, JVal::Bool(visible))]),
            ),
    {
        let params = Json::obj1("visible", Json::Bool(visible));
        self.edit_notify(view_id, "highlight_find", Some(params))
    }

    /// Move the cursor one column left.
    pub fn left(&self, view_id: ViewId) -> (r: ClientResult<Outbound>)
        ensures
            r is Ok,
            r matches Ok(ob) ==> ob@ == edit_notification_v("move_left"@, view_id@, no_params()),
    {
        self.edit_notify::<Json>(view_id, "move_left", None)
    }

    /// Extend the selection one column left.
    pub fn left_sel(&self, view_id: ViewId) -> (r: ClientResult<Outbound>)
        ensures
            r is Ok,
            r matches Ok(ob) ==> ob@ == edit_notification_v(
                "move_left_and_modify_selection"@,
                view_id@,
                no_params(),
            ),
    {
        self.edit_notify::<Json>(view_id, "move_left_and_modify_selection", None)
    }

    /// Move the cursor one column right.
    pub fn right(&self, view_id: ViewId) -> (r: ClientResult<Outbound>)
        ensures
            r is Ok,
            r matches Ok(ob) ==> ob@ == edit_notification_v("move_right"@, view_id@, no_params()),
    {
        self.edit_notify::<Json>(view_id, "move_right", None)
    }

    /// Extend the selection one column right.
    pub fn right_sel(&self, view_id: ViewId) -> (r: ClientResult<Outbound>)
        ensures
            r is Ok,
            r matches Ok(ob) ==> ob@ == edit_notification_v(
                "move_right_and_modify_selection"@,
                view_id@,
                no_params(),
            ),
    {
        self.edit_notify::<Json>(view_id, "move_right_and_modify_selection", None)
    }

    /// Move the cursor one line up.
    pub fn up(&self, view_id: ViewId) -> (r: ClientResult<Outbound>)
        ensures
            r is Ok,
            r matches Ok(ob) ==> ob@ == edit_notification_v("move_up"@, view_id@, no_params()),
    {
        self.edit_notify::<Json>(view_id, "move_up", None)
    }

    /// Extend the selection one line up.
    pub fn up_sel(&self, view_id: ViewId) -> (r: ClientResult<Outbound>)
        ensures
            r is Ok,
            r matches Ok(ob) ==> ob@ == edit_notification_v(
                "move_up_and_modify_selection"@,
                view_id@,
                no_params(),
            ),
    {
        self.edit_notify::<Json>(view_id, "move_up_and_modify_selection", None)
    }

    /// Move the cursor one line down.
    pub fn down(&self, view_id: ViewId) -> (r: ClientResult<Outbound>)
        ensures
            r is Ok,
            r matches Ok(ob) ==> ob@ == edit_notification_v("move_down"@, view_id@, no_params()),
    {
        self.edit_notify::<Json>(view_id, "move_down", None)
    }

    /// Extend the selection one line down.
    pub fn down_sel(&self, view_id: ViewId) -> (r: ClientResult<Outbound>)
        ensures
            r is Ok,
            r matches Ok(ob) ==> ob@ == edit_notification_v(
                "move_down_and_modify_selection"@,
                view_id@,
                no_params(),
            ),
    {
        self.edit_notify::<Json>(view_id, "move_down_and_modify_selection", None)
    }

    /// Delete backward, as the backspace key does.
    pub fn backspace(&self, view_id: ViewId) -> (r: ClientResult<Outbound>)
        ensures
            r is Ok,
            r matches Ok(ob) ==> ob@ == edit_notification_v(
                "delete_backward"@,
                view_id@,
                no_params(),
            ),
    {
        self.del(view_id)
    }

    /// Delete the character after the cursor.
    pub fn delete(&self, view_id: ViewId) -> (r: ClientResult<Outbound>)
        ensures
            r is Ok,
            r matches Ok(ob) ==> ob@ == edit_notification_v(
                "delete_forward"@,
                view_id@,
                no_params(),
            ),
    {
        self.edit_notify::<Json>(view_id, "delete_forward", None)
    }

    /// Delete the character before the cursor.
    pub fn del(&self, view_id: ViewId) -> (r: ClientResult<Outbound>)
        ensures
            r is Ok,
            r matches Ok(ob) ==> ob@ == edit_notification_v(
                "delete_backward"@,
                view_id@,
                no_params(),
            ),
    {
        self.edit_notify::<Json>(view_id, "delete_backward", None)
    }

    /// Scroll one page up.
    pub fn page_up(&self, view_id: ViewId) -> (r: ClientResult<Outbound>)
        ensures
            r is Ok,
            r matches Ok(ob) ==> ob@ == edit_notification_v(
                "scroll_page_up"@,
                view_id@,
                no_params(),
            ),
    {
        self.edit_notify::<Json>(view_id, "scroll_page_up", None)
    }

    /// Extend the selection one page up.
    pub fn page_up_sel(&self, view_id: ViewId) -> (r: ClientResult<Outbound>)
        ensures
            r is Ok,
            r matches Ok(ob) ==> ob@ == edit_notification_v(
                "page_up_and_modify_selection"@,
                view_id@,
                no_params(),
            ),
    {
        self.edit_notify::<Json>(view_id, "page_up_and_modify_selection", None)
    }

    /// Scroll one page down.
    pub fn page_down(&self, view_id: ViewId) -> (r: ClientResult<Outbound>)
        ensures
            r is Ok,
            r matches Ok(ob) ==> ob@ == edit_notification_v(
                "scroll_page_down"@,
                view_id@,
                no_params(),
            ),
    {
        self.edit_notify::<Json>(view_id, "scroll_page_down", None)
    }

    /// Extend the selection one page down.
    pub fn page_down_sel(&self, view_id: ViewId) -> (r: ClientResult<Outbound>)
        ensures
            r is Ok,
            r matches Ok(ob) ==> ob@ == edit_notification_v(
                "page_down_and_modify_selection"@,
                view_id@,
                no_params(),
            ),
    {
        self.edit_notify::<Json>(view_id, "page_down_and_modify_selection", None)
    }

    /// Move the cursor to the start of the line.
    pub fn line_start(&self, view_id: ViewId) -> (r: ClientResult<Outbound>)
        ensures
            r is Ok,
            r matches Ok(ob) ==> ob@ == edit_notification_v(
                "move_to_left_end_of_line"@,
                view_id@,
                no_params(),
            ),
    {
        self.edit_notify::<Json>(view_id, "move_to_left_end_of_line", None)
    }

    /// Extend the selection to the start of the line.
    pub fn line_start_sel(&self, view_id: ViewId) -> (r: ClientResult<Outbound>)
        ensures
            r is Ok,
            r matches Ok(ob) ==> ob@ == edit_notification_v(
                "move_to_left_end_of_line_and_modify_selection"@,
                view_id@,
                no_params(),
            ),
    {
        self.edit_notify::<Json>(view_id, "move_to_left_end_of_line_and_modify_selection", None)
    }

    /// Move the cursor to the end of the line.
    pub fn line_end(&self, view_id: ViewId) -> (r: ClientResult<Outbound>)
        ensures
            r is Ok,
            r matches Ok(ob) ==> ob@ == edit_notification_v(
                "move_to_right_end_of_line"@,
                view_id@,
                no_params(),
            ),
    {
        self.edit_notify::<Json>(view_id, "move_to_right_end_of_line", None)
    }

    /// Extend the selection to the end of the line.
    pub fn line_end_sel(&self, view_id: ViewId) -> (r: ClientResult<Outbound>)
        ensures
            r is Ok,
            r matches Ok(ob) ==> ob@ == edit_notification_v(
                "move_to_right_end_of_line_and_modify_selection"@,
                view_id@,
                no_params(),
            ),
    {
        self.edit_notify::<Json>(view_id, "move_to_right_end_of_line_and_modify_selection", None)
    }

    /// Select the whole buffer.
    pub fn select_all(&self, view_id: ViewId) -> (r: ClientResult<Outbound>)
        ensures
            r is Ok,
            r matches Ok(ob) ==> ob@ == edit_notification_v("select_all"@, view_id@, no_params()),
    {
        self.edit_notify::<Json>(view_id, "select_all", None)
    }

    /// Collapse every selection to a caret.
    pub fn collapse_selections(&self, view_id: ViewId) -> (r: ClientResult<Outbound>)
        ensures
            r is Ok,
            r matches Ok(ob) ==> ob@ == edit_notification_v(
                "collapse_selections"@,
                view_id@,
                no_params(),
            ),
    {
        self.edit_notify::<Json>(view_id, "collapse_selections", None)
    }

    /// Insert a newline at the cursor.
    pub fn insert_newline(&self, view_id: ViewId) -> (r: ClientResult<Outbound>)
        ensures
            r is Ok,
            r matches Ok(ob) ==> ob@ == edit_notification_v(
                "insert_newline"@,
                view_id@,
                no_params(),
            ),
    {
        self.edit_notify::<Json>(view_id, "insert_newline", None)
    }

    /// Insert a tab at the cursor.
    pub fn insert_tab(&self, view_id: ViewId) -> (r: ClientResult<Outbound>)
        ensures
            r is Ok,
            r matches Ok(ob) ==> ob@ == edit_notification_v("insert_tab"@, view_id@, no_params()),
    {
        self.edit_notify::<Json>(view_id, "insert_tab", None)
    }

    /// Ask the core to rewrap the view (a debugging command).
    pub fn f1(&self, view_id: ViewId) -> (r: ClientResult<Outbound>)
        ensures
            r is Ok,
            r matches Ok(ob) ==> ob@ == edit_notification_v(
                "debug_rewrap"@,
                view_id@,
                no_params(),
            ),
    {
        self.edit_notify::<Json>(view_id, "debug_rewrap", None)
    }

    /// Ask the core to test foreground spans (a debugging command).
    pub fn f2(&self, view_id: ViewId) -> (r: ClientResult<Outbound>)
        ensures
            r is Ok,
            r matches Ok(ob) ==> ob@ == edit_notification_v(
                "debug_test_fg_spans"@,
                view_id@,
                no_params(),
            ),
    {
        self.edit_notify::<Json>(view_id, "debug_test_fg_spans", None)
    }

    /// Insert one character at the cursor.
    pub fn char(&self, view_id: ViewId, ch: char) -> (r: ClientResult<Outbound>)
        ensures
            r is Ok,
            r matches Ok(ob) ==> ob@ == edit_notification_v(
                "insert"@,
                view_id@,
                JVal::Obj(seq![("chars"@, JVal::Str(seq![ch]))]),
            ),
    {
        let params = Json::obj1("chars", Json::Str(string_of_char(ch)));
        self.edit_notify(view_id, "insert", Some(params))
    }

    /// A plain click at the given position. The two trailing literals stand
    /// for the not-yet-handled modifier flags and click count, and are part
    /// of the wire contract.
    pub fn click(&self, view_id: ViewId, line: u64, column: u64) -> (r: ClientResult<Outbound>)
        ensures
            r is Ok,
            r matches Ok(ob) ==> ob@ == edit_notification_v(
                "click"@,
                view_id@,
                JVal::Arr(
                    seq![JVal::UInt(line), JVal::UInt(column), JVal::UInt(0), JVal::UInt(1)],
                ),
            ),
    {
        let params = Json::arr4(
            Json::UInt(line),
            Json::UInt(column),
            Json::UInt(0),
            Json::UInt(1),
        );
        self.edit_notify(view_id, "click", Some(params))
    }

    /// The shared shape of the gesture notifications.
    fn gesture(&self, view_id: ViewId, line: u64, column: u64, ty: &str) -> (r: ClientResult<
        Outbound,
    >)
        ensures
            r is Ok,
            r matches Ok(ob) ==> ob@ == edit_notification_v(
                "gesture"@,
                view_id@,
                gesture_params(line, column, ty@),
            ),
    {
        let params = Json::obj3(
            "line",
            Json::UInt(line),
            "col",
            Json::UInt(column),
            "ty",
            Json::str_of(ty),
        );
        self.edit_notify(view_id, "gesture", Some(params))
    }

    /// A point-select gesture at the given position.
    pub fn click_point_select(&self, view_id: ViewId, line: u64, column: u64) -> (r: ClientResult<
        Outbound,
    >)
        ensures
            r is Ok,
            r matches Ok(ob) ==> ob@ == edit_notification_v(
                "gesture"@,
                view_id@,
                gesture_params(line, column, "point_select"@),
            ),
    {
        self.gesture(view_id, line, column, "point_select")
    }

    /// A toggle-selection gesture at the given position.
    pub fn click_toggle_sel(&self, view_id: ViewId, line: u64, column: u64) -> (r: ClientResult<
        Outbound,
    >)
        ensures
            r is Ok,
            r matches Ok(ob) ==> ob@ == edit_notification_v(
                "gesture"@,
                view_id@,
                gesture_params(line, column, "toggle_sel"@),
            ),
    {
        self.gesture(view_id, line, column, "toggle_sel")
    }

    /// A range-select gesture at the given position.
    pub fn click_range_select(&self, view_id: ViewId, line: u64, column: u64) -> (r: ClientResult<
        Outbound,
    >)
        ensures
            r is Ok,
            r matches Ok(ob) ==> ob@ == edit_notification_v(
                "gesture"@,
                view_id@,
                gesture_params(line, column, "range_select"@),
            ),
    {
        self.gesture(view_id, line, column, "range_select")
    }

    /// A line-select click; it rides on the same range-select gesture kind.
    pub fn click_line_select(&self, view_id: ViewId, line: u64, column: u64) -> (r: ClientResult<
        Outbound,
    >)
        ensures
            r is Ok,
            r matches Ok(ob) ==> ob@ == edit_notification_v(
                "gesture"@,
                view_id@,
                gesture_params(line, column, "range_select"@),
            ),
    {
        self.gesture(view_id, line, column, "range_select")
    }

    /// A word-select gesture at the given position.
    pub fn click_word_select(&self, view_id: ViewId, line: u64, column: u64) -> (r: ClientResult<
        Outbound,
    >)
        ensures
            r is Ok,
            r matches Ok(ob) ==> ob@ == edit_notification_v(
                "gesture"@,
                view_id@,
                gesture_params(line, column, "word_select"@),
            ),
    {
        self.gesture(view_id, line, column, "word_select")
    }

    /// A multi-line-select gesture at the given position.
    pub fn click_multi_line_select(&self, view_id: ViewId, line: u64, column: u64) -> (r:
        ClientResult<Outbound>)
        ensures
            r is Ok,
            r matches Ok(ob) ==> ob@ == edit_notification_v(
                "gesture"@,
                view_id@,
                gesture_params(line, column, "multi_line_select"@),
            ),
    {
        self.gesture(view_id, line, column, "multi_line_select")
    }

    /// A multi-word-select gesture at the given position.
    pub fn click_multi_word_select(&self, view_id: ViewId, line: u64, column: u64) -> (r:
        ClientResult<Outbound>)
        ensures
            r is Ok,
            r matches Ok(ob) ==> ob@ == edit_notification_v(
                "gesture"@,
                view_id@,
                gesture_params(line, column, "multi_word_select"@),
            ),
    {
        self.gesture(view_id, line, column, "multi_word_select")
    }

    /// A drag to the given position. The trailing literal stands for the
    /// not-yet-handled modifier flags and is part of the wire contract.
    pub fn drag(&self, view_id: ViewId, line: u64, column: u64) -> (r: ClientResult<Outbound>)
        ensures
            r is Ok,
            r matches Ok(ob) ==> ob@ == edit_notification_v(
                "drag"@,
                view_id@,
                JVal::Arr(seq![JVal::UInt(line), JVal::UInt(column), JVal::UInt(0)]),
            ),
    {
        let params = Json::arr3(Json::UInt(line), Json::UInt(column), Json::UInt(0));
        self.edit_notify(view_id, "drag", Some(params))
    }

    /// Ask the core to open a view, on the given file if any; the reply
    /// carries the new view identifier (see `new_view_outcome`).
    pub fn new_view(&self, file_path: Option<String>) -> (r: ClientResult<Outbound>)
        ensures
            r is Ok,
            r matches Ok(ob) ==> ob@ == request_v("new_view"@, new_view_params(file_path)),
    {
        let params = match file_path {
            Some(p) => Json::obj1("file_path", Json::Str(p)),
            None => Json::obj0(),
        };
        Ok(self.request("new_view", params))
    }

    /// Tell the core a view is closed; its identifier is invalid thereafter.
    pub fn close_view(&self, view_id: ViewId) -> (r: ClientResult<Outbound>)
        ensures
            r is Ok,
            r matches Ok(ob) ==> ob@ == notification_v(
                "close_view"@,
                JVal::Obj(seq![("view_id"@, JVal::Str(view_id@))]),
            ),
    {
        let params = Json::obj1("view_id", Json::Str(view_id.0));
        Ok(self.notify("close_view", params))
    }

    /// Save the view's buffer to the given path.
    pub fn save(&self, view_id: ViewId, file_path: &str) -> (r: ClientResult<Outbound>)
        ensures
            r is Ok,
            r matches Ok(ob) ==> ob@ == notification_v(
                "save"@,
                JVal::Obj(
                    seq![("view_id"@, JVal::Str(view_id@)), ("file_path"@, JVal::Str(file_path@))],
                ),
            ),
    {
        let params = Json::obj2("view_id", Json::Str(view_id.0), "file_path", Json::str_of(file_path));
        Ok(self.notify("save", params))
    }

    /// Ask the core to switch to the given theme.
    pub fn set_theme(&self, theme: &str) -> (r: ClientResult<Outbound>)
        ensures
            r is Ok,
            r matches Ok(ob) ==> ob@ == notification_v(
                "set_theme"@,
                JVal::Obj(seq![("theme_name"@, JVal::Str(theme@))]),
            ),
    {
        let params = Json::obj1("theme_name", Json::str_of(theme));
        Ok(self.notify("set_theme", params))
    }

    /// Tell the core the client is up, with the optional configuration and
    /// extra-plugin directories; an absent directory is omitted entirely.
    pub fn client_started(&self, config_dir: Option<&str>, client_extra_dir: Option<&str>) -> (r:
        ClientResult<Outbound>)
        ensures
            r is Ok,
            r matches Ok(ob) ==> ob@ == notification_v(
                "client_started"@,
                client_started_params(config_dir, client_extra_dir),
            ),
    {
        let mut entries: Vec<(String, Json)> = Vec::new();
        if let Some(path) = config_dir {
            entries.push(("config_dir".to_owned(), Json::str_of(path)));
        }
        if let Some(path) = client_extra_dir {
            entries.push(("client_extra_dir".to_owned(), Json::str_of(path)));
        }
        let params = Json::Obj(entries);
        proof {
            assert(params@->Obj_0 =~~= client_started_entries(config_dir, client_extra_dir));
            assert(params@ == JVal::Obj(params@->Obj_0));
        }
        Ok(self.notify("client_started", params))
    }

    /// Ask the core to start the named plugin for the view.
    pub fn start_plugin(&self, view_id: ViewId, name: &str) -> (r: ClientResult<Outbound>)
        ensures
            r is Ok,
            r matches Ok(ob) ==> ob@ == notification_v(
                "start"@,
                JVal::Obj(
                    seq![("view_id"@, JVal::Str(view_id@)), ("plugin_name"@, JVal::Str(name@))],
                ),
            ),
    {
        let params = Json::obj2("view_id", Json::Str(view_id.0), "plugin_name", Json::str_of(name));
        Ok(self.notify("start", params))
    }

    /// Ask the core to stop the named plugin for the view.
    pub fn stop_plugin(&self, view_id: ViewId, name: &str) -> (r: ClientResult<Outbound>)
        ensures
            r is Ok,
            r matches Ok(ob) ==> ob@ == notification_v(
                "stop"@,
                JVal::Obj(
                    seq![("view_id"@, JVal::Str(view_id@)), ("plugin_name"@, JVal::Str(name@))],
                ),
            ),
    {
        let params = Json::obj2("view_id", Json::Str(view_id.0), "plugin_name", Json::str_of(name));
        Ok(self.notify("stop", params))
    }

    /// Forward a notification to the named plugin on the view.
    pub fn notify_plugin(&self, view_id: ViewId, plugin: &str, method: &str, params: &Json) -> (r:
        ClientResult<Outbound>)
        ensures
            r is Ok,
            r matches Ok(ob) ==> ob@ == notification_v(
                "plugin_rpc"@,
                plugin_rpc_params(view_id@, plugin@, method@, params@),
            ),
    {
        let forwarded = Json::obj2("method", Json::str_of(method), "params", params.deep_clone());
        let outer = Json::obj3(
            "view_id",
            Json::Str(view_id.0),
            "receiver",
            Json::str_of(plugin),
            "notification",
            forwarded,
        );
        Ok(self.notify("plugin_rpc", outer))
    }
}

} // verus!
