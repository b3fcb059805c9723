//! What can go wrong, and how a failure is told apart and described.
//!
//! Every failure is fatal to the task that meets it. None is retried: it is
//! handed up to the coordinator, which ends the process with it.

use vstd::prelude::*;
use vstd::string::*;
use crate::text::{append_decimal, decimal, lemma_decimal_is_injective};

verus! {

/// What is said of a failed call of `SayHello`.
pub const SAY_HELLO_CONTEXT: &'static str = "say_hello client call failed";

/// What is said of a failed call of `GetCount`, before the call's index.
pub const GET_COUNT_CONTEXT: &'static str = "get_count, i == ";

/// What an answered call is reported under; a count call adds
/// [`RESPONSE_INDEX_MARK`] and its index.
pub const RESPONSE_LABEL: &'static str = "response";

/// What stands before the index of a count call in the label of its answer.
pub const RESPONSE_INDEX_MARK: &'static str = " #";

/// What is said of a failure of the server.
pub const SERVER_CONTEXT: &'static str = "Server error";

/// What stands between a context and the reason that follows it.
pub const CONTEXT_SEPARATOR: &'static str = ": ";

/// One call of the client's sequence: the greeting, or one of the count
/// calls, told apart by its index, which starts at zero.
#[derive(Clone, Copy, Debug, PartialEq, Eq, Structural)]
pub enum CallId {
    SayHello,
    GetCount { index: u32 },
}

/// The context that names a call when it has failed.
pub open spec fn call_context(call: CallId) -> Seq<char> {
    match call {
        CallId::SayHello => SAY_HELLO_CONTEXT@,
        CallId::GetCount { index } => GET_COUNT_CONTEXT@ + decimal(index as nat),
    }
}

/// The label under which the answer to a call is reported.
pub open spec fn response_label(call: CallId) -> Seq<char> {
    match call {
        CallId::SayHello => RESPONSE_LABEL@,
        CallId::GetCount { index } => RESPONSE_LABEL@ + RESPONSE_INDEX_MARK@ + decimal(
            index as nat,
        ),
    }
}

impl CallId {
    /// The label under which the answer to this call is reported.
    pub fn response_label(&self) -> (text: String)
        ensures
            text@ == response_label(*self),
    {
        let mut text = String::from_str(RESPONSE_LABEL);
        match self {
            CallId::SayHello => {},
            CallId::GetCount { index } => {
                text.append(RESPONSE_INDEX_MARK);
                append_decimal(&mut text, *index);
            },
        }
        text
    }

    /// The context that names this call when it has failed.
    pub fn context(&self) -> (text: String)
        ensures
            text@ == call_context(*self),
    {
        match self {
            CallId::SayHello => String::from_str(SAY_HELLO_CONTEXT),
            CallId::GetCount { index } => {
                let mut text = String::from_str(GET_COUNT_CONTEXT);
                append_decimal(&mut text, *index);
                text
            },
        }
    }
}

/// A failure of the client. Either ends the client's sequence at once.
#[derive(Clone, Debug, PartialEq, Eq)]
pub enum ClientError {
    /// No connection to the server could be made.
    ConnectFailure { reason: String },
    /// A call failed, in transport or in the handler.
    CallFailure { call: CallId, reason: String },
}

/// A failure of the client as a mathematical value.
pub enum ClientErrorView {
    ConnectFailure { reason: Seq<char> },
    CallFailure { call: CallId, reason: Seq<char> },
}

impl View for ClientError {
    type V = ClientErrorView;

    open spec fn view(&self) -> ClientErrorView {
        match self {
            ClientError::ConnectFailure { reason } => ClientErrorView::ConnectFailure {
                reason: reason@,
            },
            ClientError::CallFailure { call, reason } => ClientErrorView::CallFailure {
                call: *call,
                reason: reason@,
            },
        }
    }
}

/// The description of a failure of the client: for a failed connection the
/// reason alone, for a failed call its context, then the reason.
pub open spec fn client_error_text(error: ClientErrorView) -> Seq<char> {
    match error {
        ClientErrorView::ConnectFailure { reason } => reason,
        ClientErrorView::CallFailure { call, reason } => call_context(call) + CONTEXT_SEPARATOR@
            + reason,
    }
}

impl ClientError {
    /// Describes the failure for the user.
    pub fn describe(&self) -> (text: String)
        ensures
            text@ == client_error_text(self@),
    {
        match self {
            ClientError::ConnectFailure { reason } => reason.clone(),
            ClientError::CallFailure { call, reason } => {
                let mut text = call.context();
                text.append(CONTEXT_SEPARATOR);
                text.append(reason.as_str());
                text
            },
        }
    }
}

/// A failure of the server.
#[derive(Clone, Debug, PartialEq, Eq)]
pub enum ServerError {
    /// The server could not get its address.
    BindFailure { reason: String },
    /// The transport failed while the server was serving.
    TransportFailure { reason: String },
}

/// A failure of the server as a mathematical value.
pub enum ServerErrorView {
    BindFailure { reason: Seq<char> },
    TransportFailure { reason: Seq<char> },
}

impl View for ServerError {
    type V = ServerErrorView;

    open spec fn view(&self) -> ServerErrorView {
        match self {
            ServerError::BindFailure { reason } => ServerErrorView::BindFailure {
                reason: reason@,
            },
            ServerError::TransportFailure { reason } => ServerErrorView::TransportFailure {
                reason: reason@,
            },
        }
    }
}

/// The reason that a failure of the server carries.
pub open spec fn server_error_reason(error: ServerErrorView) -> Seq<char> {
    match error {
        ServerErrorView::BindFailure { reason } => reason,
        ServerErrorView::TransportFailure { reason } => reason,
    }
}

/// The description of a failure of the server: its context, then the reason.
pub open spec fn server_error_text(error: ServerErrorView) -> Seq<char> {
    SERVER_CONTEXT@ + CONTEXT_SEPARATOR@ + server_error_reason(error)
}

impl ServerError {
    /// Describes the failure for the user.
    pub fn describe(&self) -> (text: String)
        ensures
            text@ == server_error_text(self@),
    {
        let mut text = String::from_str(SERVER_CONTEXT);
        text.append(CONTEXT_SEPARATOR);
        match self {
            ServerError::BindFailure { reason } => text.append(reason.as_str()),
            ServerError::TransportFailure { reason } => text.append(reason.as_str()),
        }
        text
    }
}

/// The failure that ends the process: that of the server or that of the
/// client.
#[derive(Clone, Debug, PartialEq, Eq)]
pub enum ProcessError {
    Server(ServerError),
    Client(ClientError),
}

/// The failure that ends the process as a mathematical value.
pub enum ProcessErrorView {
    Server(ServerErrorView),
    Client(ClientErrorView),
}

impl View for ProcessError {
    type V = ProcessErrorView;

    open spec fn view(&self) -> ProcessErrorView {
        match self {
            ProcessError::Server(error) => ProcessErrorView::Server(error@),
            ProcessError::Client(error) => ProcessErrorView::Client(error@),
        }
    }
}

/// The description of the failure that ends the process.
pub open spec fn process_error_text(error: ProcessErrorView) -> Seq<char> {
    match error {
        ProcessErrorView::Server(error) => server_error_text(error),
        ProcessErrorView::Client(error) => client_error_text(error),
    }
}

impl ProcessError {
    /// Describes the failure for the user.
    pub fn describe(&self) -> (text: String)
        ensures
            text@ == process_error_text(self@),
    {
        match self {
            ProcessError::Server(error) => error.describe(),
            ProcessError::Client(error) => error.describe(),
        }
    }
}

/// The context of a failed call tells which call it was: two calls with the
/// same context are the same call, index included.
pub proof fn lemma_context_identifies_call(a: CallId, b: CallId)
    requires
        call_context(a) == call_context(b),
    ensures
        a == b,
{
    reveal_strlit("say_hello client call failed");
    reveal_strlit("get_count, i == ");
    match (a, b) {
        (CallId::GetCount { index: i }, CallId::GetCount { index: j }) => {
            let prefix = GET_COUNT_CONTEXT@;
            let left = prefix + decimal(i as nat);
            let right = prefix + decimal(j as nat);
            assert(left.subrange(prefix.len() as int, left.len() as int) =~= decimal(i as nat));
            assert(right.subrange(prefix.len() as int, right.len() as int) =~= decimal(
                j as nat,
            ));
            lemma_decimal_is_injective(i as nat, j as nat);
        },
        (CallId::SayHello, CallId::GetCount { index }) => {
            assert(call_context(a)[0] == 's');
        },
        (CallId::GetCount { index }, CallId::SayHello) => {
            assert(call_context(b)[0] == 's');
        },
        (CallId::SayHello, CallId::SayHello) => {},
    }
}

} // verus!
