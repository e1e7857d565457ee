//! The envelope of every message on the local channel.

use crate::ids::random_id;
use crate::ids::is_identifier;
use crate::json::invalid;
use crate::json::invalid_member;
use crate::json::missing;
use crate::json::missing_member;
use crate::json::Json;
use crate::json::JsonModel;
use crate::json::ObjectBuilder;
use crate::text::same_text;
use vstd::prelude::*;

verus! {

/// The kind of a message.
#[derive(Debug, Clone, Copy, PartialEq, Eq, Structural)]
pub enum MessageType {
    Request,
    Response,
    Event,
}

/// The error of a failed response.
#[derive(Debug, Clone, PartialEq, Eq)]
pub struct IpcError {
    /// One of the codes of `error_codes`.
    pub code: i32,
    /// What went wrong, for a human reader.
    pub message: String,
    /// Further data about the error.
    pub data: Option<Json>,
}

/// What an `IpcError` is, as a mathematical value.
pub ghost struct IpcErrorModel {
    pub code: int,
    pub message: Seq<char>,
    pub data: Option<JsonModel>,
}

/// The model of an optional document.
pub open spec fn optional_model(doc: Option<Json>) -> Option<JsonModel> {
    match doc {
        Some(d) => Some(d@),
        None => None,
    }
}

/// The characters of an optional text.
pub open spec fn optional_text(text: Option<String>) -> Option<Seq<char>> {
    match text {
        Some(t) => Some(t@),
        None => None,
    }
}

impl View for IpcError {
    type V = IpcErrorModel;

    open spec fn view(&self) -> IpcErrorModel {
        IpcErrorModel {
            code: self.code as int,
            message: self.message@,
            data: optional_model(self.data),
        }
    }
}

impl IpcError {
    /// The error with the code `code` and the message `message`, without data.
    pub fn new(code: i32, message: &str) -> (r: Self)
        ensures
            r@ == (IpcErrorModel { code: code as int, message: message@, data: None }),
    {
        IpcError { code, message: String::from_str(message), data: None }
    }

    /// The same error with `data` as its data.
    pub fn with_data(self, data: Json) -> (r: Self)
        ensures
            r@ == (IpcErrorModel { data: Some(data@), ..self@ }),
    {
        IpcError { code: self.code, message: self.message, data: Some(data) }
    }
}

/// A message on the local channel: a request, the response to one, or an
/// event.
#[derive(Debug, Clone, PartialEq, Eq)]
pub struct IpcMessage {
    /// The identifier by which a response is matched to its request.
    pub id: String,
    /// The kind of the message.
    pub message_type: MessageType,
    /// The name of the method, in a request or an event.
    pub method: Option<String>,
    /// The parameters, in a request or an event.
    pub params: Option<Json>,
    /// The result, in a response that succeeded.
    pub result: Option<Json>,
    /// The error, in a response that failed.
    pub error: Option<IpcError>,
}

/// What an `IpcMessage` is, as a mathematical value.
pub ghost struct MessageModel {
    pub id: Seq<char>,
    pub message_type: MessageType,
    pub method: Option<Seq<char>>,
    pub params: Option<JsonModel>,
    pub result: Option<JsonModel>,
    pub error: Option<IpcErrorModel>,
}

/// The model of an optional error.
pub open spec fn optional_error(error: Option<IpcError>) -> Option<IpcErrorModel> {
    match error {
        Some(e) => Some(e@),
        None => None,
    }
}

impl View for IpcMessage {
    type V = MessageModel;

    open spec fn view(&self) -> MessageModel {
        MessageModel {
            id: self.id@,
            message_type: self.message_type,
            method: optional_text(self.method),
            params: optional_model(self.params),
            result: optional_model(self.result),
            error: optional_error(self.error),
        }
    }
}

impl MessageModel {
    /// The request `id` for the method `method`.
    pub open spec fn request(id: Seq<char>, method: Seq<char>, params: Option<JsonModel>) -> Self {
        MessageModel {
            id,
            message_type: MessageType::Request,
            method: Some(method),
            params,
            result: None,
            error: None,
        }
    }

    /// The response to the request `id` that carries `result`.
    pub open spec fn response_ok(id: Seq<char>, result: JsonModel) -> Self {
        MessageModel {
            id,
            message_type: MessageType::Response,
            method: None,
            params: None,
            result: Some(result),
            error: None,
        }
    }

    /// The response to the request `id` that carries `error`.
    pub open spec fn response_err(id: Seq<char>, error: IpcErrorModel) -> Self {
        MessageModel {
            id,
            message_type: MessageType::Response,
            method: None,
            params: None,
            result: None,
            error: Some(error),
        }
    }

    /// The response to the request `id` that fails with `code` and `message`.
    pub open spec fn failure(id: Seq<char>, code: int, message: Seq<char>) -> Self {
        Self::response_err(id, IpcErrorModel { code, message, data: None })
    }

    /// The event `id` named `method`.
    pub open spec fn event(id: Seq<char>, method: Seq<char>, params: JsonModel) -> Self {
        MessageModel {
            id,
            message_type: MessageType::Event,
            method: Some(method),
            params: Some(params),
            result: None,
            error: None,
        }
    }

    /// A response carries a result or an error, never both and never neither.
    pub open spec fn is_response(self) -> bool {
        &&& self.message_type == MessageType::Response
        &&& (self.result is Some) != (self.error is Some)
    }

    /// Whether this is the response to the request `id`.
    pub open spec fn answers(self, id: Seq<char>) -> bool {
        self.is_response() && self.id == id
    }
}

impl IpcMessage {
    /// The request `id` for the method `method`.
    pub fn request_with_id(id: String, method: &str, params: Option<Json>) -> (r: Self)
        ensures
            r@ == MessageModel::request(id@, method@, optional_model(params)),
    {
        IpcMessage {
            id,
            message_type: MessageType::Request,
            method: Some(String::from_str(method)),
            params,
            result: None,
            error: None,
        }
    }

    /// A request for the method `method` under a new random identifier.
    pub fn request(method: &str, params: Option<Json>) -> (r: Self)
        ensures
            r@ == MessageModel::request(r.id@, method@, optional_model(params)),
            is_identifier(r.id@),
    {
        Self::request_with_id(random_id(), method, params)
    }

    /// The response to the request `id` that carries `result`.
    pub fn response_ok(id: &str, result: Json) -> (r: Self)
        ensures
            r@ == MessageModel::response_ok(id@, result@),
    {
        IpcMessage {
            id: String::from_str(id),
            message_type: MessageType::Response,
            method: None,
            params: None,
            result: Some(result),
            error: None,
        }
    }

    /// The response to the request `id` that carries `error`.
    pub fn response_err(id: &str, error: IpcError) -> (r: Self)
        ensures
            r@ == MessageModel::response_err(id@, error@),
    {
        IpcMessage {
            id: String::from_str(id),
            message_type: MessageType::Response,
            method: None,
            params: None,
            result: None,
            error: Some(error),
        }
    }

    /// The event `id` named `method`.
    pub fn event_with_id(id: String, method: &str, params: Json) -> (r: Self)
        ensures
            r@ == MessageModel::event(id@, method@, params@),
    {
        IpcMessage {
            id,
            message_type: MessageType::Event,
            method: Some(String::from_str(method)),
            params: Some(params),
            result: None,
            error: None,
        }
    }

    /// An event named `method` under a new random identifier.
    pub fn event(method: &str, params: Json) -> (r: Self)
        ensures
            r@ == MessageModel::event(r.id@, method@, params@),
            is_identifier(r.id@),
    {
        Self::event_with_id(random_id(), method, params)
    }
}

/// Every response that the constructors make answers the request whose
/// identifier it was given, with a result or an error and never both.
pub proof fn lemma_responses_answer(id: Seq<char>, result: JsonModel, error: IpcErrorModel)
    ensures
        MessageModel::response_ok(id, result).answers(id),
        MessageModel::response_err(id, error).answers(id),
        MessageModel::response_ok(id, result).error is None,
        MessageModel::response_err(id, error).result is None,
{
}

/// The document of an optional document: itself, or `null`.
pub open spec fn document_or_null(doc: Option<JsonModel>) -> JsonModel {
    match doc {
        Some(d) => d,
        None => JsonModel::Null,
    }
}

/// The document of an optional text: the text, or `null`.
pub open spec fn text_document(text: Option<Seq<char>>) -> JsonModel {
    match text {
        Some(t) => JsonModel::Text(t),
        None => JsonModel::Null,
    }
}

impl MessageType {
    /// The name of the kind in a message.
    pub open spec fn wire_name(self) -> Seq<char> {
        match self {
            MessageType::Request => "request"@,
            MessageType::Response => "response"@,
            MessageType::Event => "event"@,
        }
    }

    /// The kind that the name `name` stands for in a message.
    pub open spec fn named(name: Seq<char>) -> Option<MessageType> {
        if name == "request"@ {
            Some(MessageType::Request)
        } else if name == "response"@ {
            Some(MessageType::Response)
        } else if name == "event"@ {
            Some(MessageType::Event)
        } else {
            None
        }
    }

    /// The name of the kind in a message.
    pub fn name(&self) -> (r: &'static str)
        ensures
            r@ == self.wire_name(),
    {
        match self {
            MessageType::Request => "request",
            MessageType::Response => "response",
            MessageType::Event => "event",
        }
    }

    /// The kind that the name `name` stands for in a message.
    pub fn from_name(name: &str) -> (r: Option<MessageType>)
        ensures
            r == MessageType::named(name@),
    {
        if same_text(name, "request") {
            Some(MessageType::Request)
        } else if same_text(name, "response") {
            Some(MessageType::Response)
        } else if same_text(name, "event") {
            Some(MessageType::Event)
        } else {
            None
        }
    }
}

impl IpcErrorModel {
    /// The document that is sent for the error.
    pub open spec fn to_json(self) -> JsonModel {
        JsonModel::Object(
            seq![
                ("code"@, JsonModel::Integer(self.code)),
                ("message"@, JsonModel::Text(self.message)),
                ("data"@, document_or_null(self.data)),
            ],
        )
    }

    /// The error that the document `doc` describes, or why it describes
    /// none.
    pub open spec fn of_json(doc: JsonModel) -> Result<IpcErrorModel, Seq<char>> {
        match doc.required_integer_member("code"@, i32::MIN as int, i32::MAX as int) {
            Err(e) => Err(e),
            Ok(code) => match doc.required_text_member("message"@) {
                Err(e) => Err(e),
                Ok(message) => Ok(IpcErrorModel { code, message, data: doc.present("data"@) }),
            },
        }
    }
}

impl IpcError {
    /// The document that is sent for the error.
    pub fn to_json(&self) -> (r: Json)
        ensures
            r@ == self@.to_json(),
    {
        let out = ObjectBuilder::new().member("code", Json::Integer(self.code as i128)).member(
            "message",
            Json::text(self.message.as_str()),
        ).member("data", Json::optional(&self.data)).build();
        assert(out@->Object_0 =~= self@.to_json()->Object_0);
        out
    }

    /// The error that the document `doc` describes, or why it describes
    /// none.
    pub fn from_json(doc: &Json) -> (r: Result<IpcError, String>)
        ensures
            match r {
                Ok(e) => IpcErrorModel::of_json(doc@) == Ok::<IpcErrorModel, Seq<char>>(e@),
                Err(e) => IpcErrorModel::of_json(doc@) == Err::<IpcErrorModel, Seq<char>>(e@),
            },
    {
        let code = match doc.required_i32_member("code") {
            Ok(v) => v,
            Err(e) => {
                return Err(e);
            },
        };
        let message = match doc.required_text_member("message") {
            Ok(v) => v,
            Err(e) => {
                return Err(e);
            },
        };
        Ok(IpcError { code, message, data: doc.present("data") })
    }
}

/// The kind that the member `type` of `doc` names.
pub open spec fn type_member(doc: JsonModel) -> Result<MessageType, Seq<char>> {
    match doc.field("type"@) {
        None => Err(missing("type"@)),
        Some(JsonModel::Text(name)) => match MessageType::named(name) {
            Some(t) => Ok(t),
            None => Err(invalid("type"@)),
        },
        Some(_) => Err(invalid("type"@)),
    }
}

/// The error that the member `error` of `doc` describes, if there is one.
pub open spec fn error_member(doc: JsonModel) -> Result<Option<IpcErrorModel>, Seq<char>> {
    match doc.present("error"@) {
        None => Ok(None),
        Some(e) => match IpcErrorModel::of_json(e) {
            Ok(error) => Ok(Some(error)),
            Err(reason) => Err(reason),
        },
    }
}

impl MessageModel {
    /// The document that is sent for the message. A response has the
    /// members `id`, `type`, `result` and `error`; a request and an event
    /// have `id`, `type`, `method` and `params`. What is absent is `null`.
    pub open spec fn to_json(self) -> JsonModel {
        match self.message_type {
            MessageType::Response => JsonModel::Object(
                seq![
                    ("id"@, JsonModel::Text(self.id)),
                    ("type"@, JsonModel::Text(self.message_type.wire_name())),
                    ("result"@, document_or_null(self.result)),
                    (
                        "error"@,
                        match self.error {
                            Some(e) => e.to_json(),
                            None => JsonModel::Null,
                        },
                    ),
                ],
            ),
            _ => JsonModel::Object(
                seq![
                    ("id"@, JsonModel::Text(self.id)),
                    ("type"@, JsonModel::Text(self.message_type.wire_name())),
                    ("method"@, text_document(self.method)),
                    ("params"@, document_or_null(self.params)),
                ],
            ),
        }
    }

    /// The message that the document `doc` describes, or why it describes
    /// none: `id` and `type` must be there, and each other member may be
    /// absent or `null`. The members are read in the order `id`, `type`,
    /// `method`, `error`, and the first that fails gives the reason.
    pub open spec fn of_json(doc: JsonModel) -> Result<MessageModel, Seq<char>> {
        match doc.required_text_member("id"@) {
            Err(e) => Err(e),
            Ok(id) => match type_member(doc) {
                Err(e) => Err(e),
                Ok(message_type) => match doc.optional_text_member("method"@) {
                    Err(e) => Err(e),
                    Ok(method) => match error_member(doc) {
                        Err(e) => Err(e),
                        Ok(error) => Ok(
                            MessageModel {
                                id,
                                message_type,
                                method,
                                params: doc.present("params"@),
                                result: doc.present("result"@),
                                error,
                            },
                        ),
                    },
                },
            },
        }
    }
}

impl IpcMessage {
    /// The kind that the member `type` of `doc` names.
    fn type_member(doc: &Json) -> (r: Result<MessageType, String>)
        ensures
            match r {
                Ok(t) => type_member(doc@) == Ok::<MessageType, Seq<char>>(t),
                Err(e) => type_member(doc@) == Err::<MessageType, Seq<char>>(e@),
            },
    {
        match doc.get("type") {
            None => Err(missing_member("type")),
            Some(Json::Text(name)) => match MessageType::from_name(name.as_str()) {
                Some(t) => Ok(t),
                None => Err(invalid_member("type")),
            },
            Some(_) => Err(invalid_member("type")),
        }
    }

    /// The error that the member `error` of `doc` describes, if there is
    /// one.
    fn error_member(doc: &Json) -> (r: Result<Option<IpcError>, String>)
        ensures
            match r {
                Ok(e) => error_member(doc@) == Ok::<Option<IpcErrorModel>, Seq<char>>(
                    optional_error(e),
                ),
                Err(e) => error_member(doc@) == Err::<Option<IpcErrorModel>, Seq<char>>(e@),
            },
    {
        match doc.get("error") {
            None => Ok(None),
            Some(Json::Null) => Ok(None),
            Some(e) => match IpcError::from_json(e) {
                Ok(error) => Ok(Some(error)),
                Err(reason) => Err(reason),
            },
        }
    }

    /// The message that the document `doc` describes, or why it describes
    /// none.
    pub fn from_json(doc: &Json) -> (r: Result<IpcMessage, String>)
        ensures
            match r {
                Ok(m) => MessageModel::of_json(doc@) == Ok::<MessageModel, Seq<char>>(m@),
                Err(e) => MessageModel::of_json(doc@) == Err::<MessageModel, Seq<char>>(e@),
            },
    {
        let id = match doc.required_text_member("id") {
            Ok(v) => v,
            Err(e) => {
                return Err(e);
            },
        };
        let message_type = match Self::type_member(doc) {
            Ok(v) => v,
            Err(e) => {
                return Err(e);
            },
        };
        let method = match doc.optional_text_member("method") {
            Ok(v) => v,
            Err(e) => {
                return Err(e);
            },
        };
        let error = match Self::error_member(doc) {
            Ok(v) => v,
            Err(e) => {
                return Err(e);
            },
        };
        Ok(
            IpcMessage {
                id,
                message_type,
                method,
                params: doc.present("params"),
                result: doc.present("result"),
                error,
            },
        )
    }

    /// The document that is sent for the message.
    pub fn to_json(&self) -> (r: Json)
        ensures
            r@ == self@.to_json(),
    {
        match self.message_type {
            MessageType::Response => {
                let error = match &self.error {
                    Some(e) => e.to_json(),
                    None => Json::Null,
                };
                let out = ObjectBuilder::new().member("id", Json::text(self.id.as_str())).member(
                    "type",
                    Json::text(self.message_type.name()),
                ).member("result", Json::optional(&self.result)).member("error", error).build();
                assert(out@->Object_0 =~= self@.to_json()->Object_0);
                out
            },
            _ => {
                let out = ObjectBuilder::new().member("id", Json::text(self.id.as_str())).member(
                    "type",
                    Json::text(self.message_type.name()),
                ).member("method", Json::optional_text(&self.method)).member(
                    "params",
                    Json::optional(&self.params),
                ).build();
                assert(out@->Object_0 =~= self@.to_json()->Object_0);
                out
            },
        }
    }
}

/// Searching from `from` on finds the member at position `at`, where no
/// member before it has its key.
proof fn lemma_member_from(members: Seq<(Seq<char>, JsonModel)>, at: int, from: int)
    requires
        0 <= from <= at < members.len(),
        forall|k: int| 0 <= k < at ==> (#[trigger] members[k]).0 != members[at].0,
    ensures
        crate::json::find_member(members, members[at].0, from) == Some(members[at].1),
    decreases at - from,
{
    if from < at {
        assert(members[from].0 != members[at].0);
        lemma_member_from(members, at, from + 1);
    }
}

/// The member at position `at` of an object is the one that is found under
/// its key, where no member before it has that key.
pub proof fn lemma_member_at(members: Seq<(Seq<char>, JsonModel)>, at: int)
    requires
        0 <= at < members.len(),
        forall|k: int| 0 <= k < at ==> (#[trigger] members[k]).0 != members[at].0,
    ensures
        JsonModel::Object(members).field(members[at].0) == Some(members[at].1),
{
    lemma_member_from(members, at, 0);
}

/// The names of the members of a message differ from each other.
proof fn lemma_member_names()
    ensures
        "id"@ != "type"@,
        "id"@ != "result"@,
        "id"@ != "error"@,
        "id"@ != "method"@,
        "id"@ != "params"@,
        "type"@ != "result"@,
        "type"@ != "error"@,
        "type"@ != "method"@,
        "type"@ != "params"@,
        "result"@ != "error"@,
        "method"@ != "params"@,
        "method"@ != "error"@,
        "params"@ != "error"@,
        "params"@ != "result"@,
        "method"@ != "result"@,
        "code"@ != "message"@,
        "code"@ != "data"@,
        "message"@ != "data"@,
{
    reveal_strlit("id");
    reveal_strlit("type");
    reveal_strlit("result");
    reveal_strlit("error");
    reveal_strlit("method");
    reveal_strlit("params");
    reveal_strlit("code");
    reveal_strlit("message");
    reveal_strlit("data");
    assert("id"@.len() == 2 && "type"@.len() == 4 && "result"@.len() == 6 && "error"@.len() == 5);
    assert("method"@.len() == 6 && "params"@.len() == 6);
    assert("code"@.len() == 4 && "message"@.len() == 7 && "data"@.len() == 4);
    assert("method"@[0] == 'm' && "params"@[0] == 'p' && "result"@[0] == 'r');
    assert("code"@[0] == 'c' && "data"@[0] == 'd');
}

/// The names of the kinds of message stand for their kinds.
proof fn lemma_type_names()
    ensures
        forall|t: MessageType| #[trigger] MessageType::named(t.wire_name()) == Some(t),
{
    reveal_strlit("request");
    reveal_strlit("response");
    reveal_strlit("event");
    assert("request"@.len() == 7 && "response"@.len() == 8 && "event"@.len() == 5);
}

/// An error is read back from the document that is sent for it, unless its
/// data are `null`, which reads as no data.
pub proof fn lemma_error_round_trip(error: IpcErrorModel)
    requires
        i32::MIN <= error.code <= i32::MAX,
        error.data != Some(JsonModel::Null),
    ensures
        IpcErrorModel::of_json(error.to_json()) == Ok::<IpcErrorModel, Seq<char>>(error),
{
    lemma_member_names();
    let members = error.to_json()->Object_0;
    lemma_member_at(members, 0);
    lemma_member_at(members, 1);
    lemma_member_at(members, 2);
}

/// A response is read back from the document that is sent for it: whoever
/// reads what the backend writes gets the same identifier, and the same
/// result or error. A result, and the data of an error, that are `null`
/// read as absent.
pub proof fn lemma_response_round_trip(msg: MessageModel)
    requires
        msg.message_type == MessageType::Response,
        msg.method is None,
        msg.params is None,
        msg.result != Some(JsonModel::Null),
        msg.error matches Some(e) ==> i32::MIN <= e.code <= i32::MAX && e.data != Some(
            JsonModel::Null,
        ),
    ensures
        MessageModel::of_json(msg.to_json()) == Ok::<MessageModel, Seq<char>>(msg),
{
    lemma_member_names();
    lemma_type_names();
    let doc = msg.to_json();
    let members = doc->Object_0;
    lemma_member_at(members, 0);
    lemma_member_at(members, 1);
    lemma_member_at(members, 2);
    lemma_member_at(members, 3);
    assert(doc.field("method"@) is None && doc.field("params"@) is None) by {
        reveal_with_fuel(crate::json::find_member, 5);
    }
    match msg.error {
        Some(e) => {
            lemma_error_round_trip(e);
            reveal_strlit("code");
            assert(e.to_json() != JsonModel::Null);
        },
        None => {},
    }
}

/// A request and an event are read back from the document that is sent for
/// them. Parameters that are `null` read as absent.
pub proof fn lemma_request_round_trip(msg: MessageModel)
    requires
        msg.message_type != MessageType::Response,
        msg.result is None,
        msg.error is None,
        msg.params != Some(JsonModel::Null),
    ensures
        MessageModel::of_json(msg.to_json()) == Ok::<MessageModel, Seq<char>>(msg),
{
    lemma_member_names();
    lemma_type_names();
    let doc = msg.to_json();
    let members = doc->Object_0;
    lemma_member_at(members, 0);
    lemma_member_at(members, 1);
    lemma_member_at(members, 2);
    lemma_member_at(members, 3);
    assert(doc.field("result"@) is None && doc.field("error"@) is None) by {
        reveal_with_fuel(crate::json::find_member, 5);
    }
}

} // verus!
