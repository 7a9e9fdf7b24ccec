//! The message envelope: a message is an array whose first item tells its
//! kind, and each kind has a typed form of its own.
//!
//! | kind         | items                              |
//! |--------------|------------------------------------|
//! | request      | kind, identifier, method, arguments |
//! | response     | kind, identifier, error, result     |
//! | notification | kind, notice, arguments             |

use vstd::prelude::*;
use crate::error::{RpcError, RpcErrorView};
use crate::rpc::CodeConvert;
use crate::text::{decimal, decimal_string, join2};
use crate::value::{lemma_array_view, view_all, Value, ValueView};

verus! {

/// The kinds of message.
#[derive(Debug, PartialEq, Eq, Clone, Copy, Structural)]
pub enum MessageType {
    /// A call that expects a response.
    Request,
    /// The answer to a request.
    Response,
    /// A call that expects no answer.
    Notification,
}

impl CodeConvert for MessageType {
    open spec fn code(&self) -> u64 {
        match self {
            MessageType::Request => 0,
            MessageType::Response => 1,
            MessageType::Notification => 2,
        }
    }

    open spec fn decode(n: u64) -> Option<Self> {
        if n == 0 {
            Some(MessageType::Request)
        } else if n == 1 {
            Some(MessageType::Response)
        } else if n == 2 {
            Some(MessageType::Notification)
        } else {
            None
        }
    }

    proof fn lemma_code_decode(c: Self) {
    }

    proof fn lemma_decode_code(n: u64) {
    }

    fn from_u64(n: u64) -> (r: Result<Self, RpcError>) {
        if n == 0 {
            Ok(MessageType::Request)
        } else if n == 1 {
            Ok(MessageType::Response)
        } else if n == 2 {
            Ok(MessageType::Notification)
        } else {
            Err(RpcError::InvalidCode)
        }
    }

    fn to_u64(&self) -> (n: u64) {
        match self {
            MessageType::Request => 0,
            MessageType::Response => 1,
            MessageType::Notification => 2,
        }
    }

    fn max_number() -> (n: u64) {
        2
    }
}

/// The kind that the items of a message announce, if they announce one.
pub open spec fn kind_of(items: Seq<ValueView>) -> Option<MessageType> {
    if items.len() == 0 {
        None
    } else {
        match items[0].as_u64() {
            Some(c) => MessageType::decode(c),
            None => None,
        }
    }
}

/// Whether a sequence of items is a message: three or four items, the
/// first of which is the code of a kind.
pub open spec fn message_ok(items: Seq<ValueView>) -> bool {
    3 <= items.len() <= 4 && kind_of(items) is Some
}

/// The text of the error for a message of `got` items where `expected` says
/// how many there should be.
pub open spec fn length_text(expected: Seq<char>, got: nat) -> Seq<char> {
    "expected array length of "@ + expected + ", got "@ + decimal(got)
}

/// What reading a value as a message gives.
pub open spec fn parse_message(v: ValueView) -> Result<Seq<ValueView>, RpcErrorView> {
    match v {
        ValueView::Array(items) => if !(3 <= items.len() <= 4) {
            Err(RpcErrorView::InvalidArrayLength(length_text("either 3 or 4"@, items.len())))
        } else if kind_of(items) is None {
            Err(RpcErrorView::InvalidMessageType)
        } else {
            Ok(items)
        },
        _ => Err(RpcErrorView::TypeError),
    }
}

fn length_error(expected: &str, got: usize) -> (e: RpcError)
    ensures
        e@ == RpcErrorView::InvalidArrayLength(length_text(expected@, got as nat)),
{
    let s = join2("expected array length of ", expected);
    let s = s.concat(", got ");
    let n = decimal_string(got as u64);
    RpcError::InvalidArrayLength(s.concat(n.as_str()))
}

/// A message of any kind: its items, of which the first tells the kind.
#[derive(Debug, PartialEq)]
pub struct Message {
    items: Vec<Value>,
}

impl View for Message {
    type V = Seq<ValueView>;

    closed spec fn view(&self) -> Seq<ValueView> {
        view_all(self.items@)
    }
}

impl Message {
    #[verifier::type_invariant]
    closed spec fn wf(&self) -> bool {
        message_ok(view_all(self.items@))
    }

    /// Reads a value as a message.
    pub fn from(val: Value) -> (r: Result<Message, RpcError>)
        ensures
            match r {
                Ok(m) => parse_message(val@) == Ok::<Seq<ValueView>, RpcErrorView>(m@),
                Err(e) => parse_message(val@) == Err::<Seq<ValueView>, RpcErrorView>(e@),
            },
    {
        match val {
            Value::Array(items) => {
                proof {
                    lemma_array_view(val);
                }
                let n = items.len();
                if n < 3 || n > 4 {
                    return Err(length_error("either 3 or 4", n));
                }
                let known = match items[0].as_u64() {
                    Some(c) => MessageType::from_u64(c).is_ok(),
                    None => false,
                };
                if !known {
                    return Err(RpcError::InvalidMessageType);
                }
                Ok(Message { items })
            },
            _ => Err(RpcError::TypeError),
        }
    }

    /// The items of the message.
    pub fn as_vec(&self) -> (items: &Vec<Value>)
        ensures
            view_all(items@) == self@,
            message_ok(self@),
    {
        proof {
            use_type_invariant(self);
        }
        &self.items
    }

    /// The kind of the message.
    pub fn message_type(&self) -> (t: MessageType)
        ensures
            kind_of(self@) == Some(t),
    {
        proof {
            use_type_invariant(self);
        }
        let code = self.items[0].as_u64().unwrap();
        if code == 0 {
            MessageType::Request
        } else if code == 1 {
            MessageType::Response
        } else {
            MessageType::Notification
        }
    }

    /// The message as one array value.
    pub fn into_value(self) -> (v: Value)
        ensures
            v@ == ValueView::Array(self@),
    {
        Value::from_vec(self.items)
    }
}

/// The code that a value holds, if it holds the number of one.
pub open spec fn code_of<C: CodeConvert>(v: ValueView) -> Option<C> {
    match v.as_u64() {
        Some(c) => C::decode(c),
        None => None,
    }
}

/// The message identifier that a value holds, if it holds one.
pub open spec fn id_of(v: ValueView) -> Option<u32> {
    match v.as_u64() {
        Some(n) => if n <= u32::MAX {
            Some(n as u32)
        } else {
            None
        },
        None => None,
    }
}

fn read_code<C: CodeConvert>(v: &Value) -> (r: Result<C, RpcError>)
    ensures
        match r {
            Ok(c) => code_of::<C>(v@) == Some(c),
            Err(e) => code_of::<C>(v@) is None && e@ == RpcErrorView::InvalidCode,
        },
{
    match v.as_u64() {
        Some(n) => C::from_u64(n),
        None => Err(RpcError::InvalidCode),
    }
}

fn read_id(v: &Value) -> (r: Result<u32, RpcError>)
    ensures
        match r {
            Ok(id) => id_of(v@) == Some(id),
            Err(e) => id_of(v@) is None && e@ == RpcErrorView::InvalidId,
        },
{
    match v.as_u64() {
        Some(n) => if n <= 0xffff_ffff {
            Ok(n as u32)
        } else {
            Err(RpcError::InvalidId)
        },
        None => Err(RpcError::InvalidId),
    }
}

fn take_args(v: Value) -> (r: Result<Vec<Value>, RpcError>)
    ensures
        match r {
            Ok(args) => v@.as_array() == Some(view_all(args@)),
            Err(e) => v@.as_array() is None && e@ == RpcErrorView::TypeError,
        },
{
    match v {
        Value::Array(args) => {
            proof {
                lemma_array_view(v);
            }
            Ok(args)
        },
        _ => Err(RpcError::TypeError),
    }
}

/// The mathematical model of a request.
pub struct RequestView<M> {
    pub id: u32,
    pub method: M,
    pub args: Seq<ValueView>,
}

/// The items of the message that carries a request.
pub open spec fn request_items<M: CodeConvert>(r: RequestView<M>) -> Seq<ValueView> {
    seq![
        ValueView::Integer(MessageType::Request.code() as int),
        ValueView::Integer(r.id as int),
        ValueView::Integer(r.method.code() as int),
        ValueView::Array(r.args),
    ]
}

/// What reading a message as a request with methods of `M` gives.
pub open spec fn parse_request<M: CodeConvert>(items: Seq<ValueView>) -> Result<
    RequestView<M>,
    RpcErrorView,
> {
    if items.len() != 4 {
        Err(RpcErrorView::InvalidArrayLength(length_text("4"@, items.len())))
    } else if kind_of(items) != Some(MessageType::Request) {
        Err(RpcErrorView::InvalidMessageType)
    } else if id_of(items[1]) is None {
        Err(RpcErrorView::InvalidId)
    } else if code_of::<M>(items[2]) is None {
        Err(RpcErrorView::InvalidCode)
    } else if items[3].as_array() is None {
        Err(RpcErrorView::TypeError)
    } else {
        Ok(
            RequestView {
                id: id_of(items[1]).unwrap(),
                method: code_of::<M>(items[2]).unwrap(),
                args: items[3].as_array().unwrap(),
            },
        )
    }
}

/// A request: an identifier, a method and the method's arguments.
#[derive(Debug, PartialEq)]
pub struct RequestMessage<M> {
    id: u32,
    method: M,
    args: Vec<Value>,
}

impl<M: CodeConvert> View for RequestMessage<M> {
    type V = RequestView<M>;

    closed spec fn view(&self) -> RequestView<M> {
        RequestView { id: self.id, method: self.method, args: view_all(self.args@) }
    }
}

impl<M: CodeConvert> RequestMessage<M> {
    /// The request with the given identifier, method and arguments.
    pub fn new(id: u32, method: M, args: Vec<Value>) -> (r: Self)
        ensures
            r@ == (RequestView { id, method, args: view_all(args@) }),
    {
        RequestMessage { id, method, args }
    }

    /// Reads a message as a request.
    pub fn from(msg: Message) -> (r: Result<Self, RpcError>)
        ensures
            match r {
                Ok(q) => parse_request::<M>(msg@) == Ok::<RequestView<M>, RpcErrorView>(q@),
                Err(e) => parse_request::<M>(msg@) == Err::<RequestView<M>, RpcErrorView>(e@),
            },
    {
        proof {
            use_type_invariant(&msg);
        }
        let mut items = msg.items;
        let n = items.len();
        if n != 4 {
            return Err(length_error("4", n));
        }
        match read_code::<MessageType>(&items[0]) {
            Ok(MessageType::Request) => {},
            _ => {
                return Err(RpcError::InvalidMessageType);
            },
        }
        let id = read_id(&items[1])?;
        let method = read_code::<M>(&items[2])?;
        let last = items.pop().unwrap();
        let args = take_args(last)?;
        Ok(RequestMessage { id, method, args })
    }

    /// The message that carries the request.
    pub fn into_message(self) -> (m: Message)
        ensures
            m@ == request_items(self@),
    {
        let kind = MessageType::Request.to_u64();
        let code = self.method.to_u64();
        let args = Value::from_vec(self.args);
        let mut items: Vec<Value> = Vec::new();
        items.push(Value::UInt(kind));
        items.push(Value::UInt(self.id as u64));
        items.push(Value::UInt(code));
        items.push(args);
        proof {
            assert(view_all(items@) =~= request_items(self@));
        }
        Message { items }
    }

    /// The identifier of the request, which its response repeats.
    pub fn message_id(&self) -> (id: u32)
        ensures
            id == self@.id,
    {
        self.id
    }

    /// The method that the request calls.
    pub fn message_method(&self) -> (m: &M)
        ensures
            *m == self@.method,
    {
        &self.method
    }

    /// The arguments of the request.
    pub fn message_args(&self) -> (args: &Vec<Value>)
        ensures
            view_all(args@) == self@.args,
    {
        &self.args
    }
}

/// The mathematical model of a response.
pub struct ResponseView<E> {
    pub id: u32,
    pub error: E,
    pub result: ValueView,
}

/// The items of the message that carries a response.
pub open spec fn response_items<E: CodeConvert>(r: ResponseView<E>) -> Seq<ValueView> {
    seq![
        ValueView::Integer(MessageType::Response.code() as int),
        ValueView::Integer(r.id as int),
        ValueView::Integer(r.error.code() as int),
        r.result,
    ]
}

/// What reading a message as a response with error codes of `E` gives.
pub open spec fn parse_response<E: CodeConvert>(items: Seq<ValueView>) -> Result<
    ResponseView<E>,
    RpcErrorView,
> {
    if items.len() != 4 {
        Err(RpcErrorView::InvalidArrayLength(length_text("4"@, items.len())))
    } else if kind_of(items) != Some(MessageType::Response) {
        Err(RpcErrorView::InvalidMessageType)
    } else if id_of(items[1]) is None {
        Err(RpcErrorView::InvalidId)
    } else if code_of::<E>(items[2]) is None {
        Err(RpcErrorView::InvalidCode)
    } else {
        Ok(
            ResponseView {
                id: id_of(items[1]).unwrap(),
                error: code_of::<E>(items[2]).unwrap(),
                result: items[3],
            },
        )
    }
}

/// A response: the identifier of the request that it answers, an error
/// code and a result.
#[derive(Debug, PartialEq)]
pub struct ResponseMessage<E> {
    id: u32,
    error: E,
    result: Value,
}

impl<E: CodeConvert> View for ResponseMessage<E> {
    type V = ResponseView<E>;

    closed spec fn view(&self) -> ResponseView<E> {
        ResponseView { id: self.id, error: self.error, result: self.result@ }
    }
}

impl<E: CodeConvert> ResponseMessage<E> {
    /// The response to the request `id`, with the given error code and
    /// result.
    pub fn new(id: u32, error: E, result: Value) -> (r: Self)
        ensures
            r@ == (ResponseView { id, error, result: result@ }),
    {
        ResponseMessage { id, error, result }
    }

    /// Reads a message as a response.
    pub fn from(msg: Message) -> (r: Result<Self, RpcError>)
        ensures
            match r {
                Ok(q) => parse_response::<E>(msg@) == Ok::<ResponseView<E>, RpcErrorView>(q@),
                Err(e) => parse_response::<E>(msg@) == Err::<ResponseView<E>, RpcErrorView>(e@),
            },
    {
        proof {
            use_type_invariant(&msg);
        }
        let mut items = msg.items;
        let n = items.len();
        if n != 4 {
            return Err(length_error("4", n));
        }
        match read_code::<MessageType>(&items[0]) {
            Ok(MessageType::Response) => {},
            _ => {
                return Err(RpcError::InvalidMessageType);
            },
        }
        let id = read_id(&items[1])?;
        let error = read_code::<E>(&items[2])?;
        let result = items.pop().unwrap();
        Ok(ResponseMessage { id, error, result })
    }

    /// The message that carries the response.
    pub fn into_message(self) -> (m: Message)
        ensures
            m@ == response_items(self@),
    {
        let kind = MessageType::Response.to_u64();
        let code = self.error.to_u64();
        let mut items: Vec<Value> = Vec::new();
        items.push(Value::UInt(kind));
        items.push(Value::UInt(self.id as u64));
        items.push(Value::UInt(code));
        items.push(self.result);
        proof {
            assert(view_all(items@) =~= response_items(self@));
        }
        Message { items }
    }

    /// The identifier of the request that the response answers.
    pub fn message_id(&self) -> (id: u32)
        ensures
            id == self@.id,
    {
        self.id
    }

    /// The error code of the response.
    pub fn error_code(&self) -> (e: &E)
        ensures
            *e == self@.error,
    {
        &self.error
    }

    /// The result of the response.
    pub fn result(&self) -> (v: &Value)
        ensures
            v@ == self@.result,
    {
        &self.result
    }
}

/// The mathematical model of a notification.
pub struct NotificationView<N> {
    pub code: N,
    pub args: Seq<ValueView>,
}

/// The items of the message that carries a notification.
pub open spec fn notification_items<N: CodeConvert>(r: NotificationView<N>) -> Seq<ValueView> {
    seq![
        ValueView::Integer(MessageType::Notification.code() as int),
        ValueView::Integer(r.code.code() as int),
        ValueView::Array(r.args),
    ]
}

/// What reading a message as a notification with notices of `N` gives.
pub open spec fn parse_notification<N: CodeConvert>(items: Seq<ValueView>) -> Result<
    NotificationView<N>,
    RpcErrorView,
> {
    if items.len() != 3 {
        Err(RpcErrorView::InvalidArrayLength(length_text("3"@, items.len())))
    } else if kind_of(items) != Some(MessageType::Notification) {
        Err(RpcErrorView::InvalidMessageType)
    } else if code_of::<N>(items[1]) is None {
        Err(RpcErrorView::InvalidCode)
    } else if items[2].as_array() is None {
        Err(RpcErrorView::TypeError)
    } else {
        Ok(
            NotificationView {
                code: code_of::<N>(items[1]).unwrap(),
                args: items[2].as_array().unwrap(),
            },
        )
    }
}

/// A notification: a notice and its arguments.
#[derive(Debug, PartialEq)]
pub struct NotificationMessage<N> {
    code: N,
    args: Vec<Value>,
}

impl<N: CodeConvert> View for NotificationMessage<N> {
    type V = NotificationView<N>;

    closed spec fn view(&self) -> NotificationView<N> {
        NotificationView { code: self.code, args: view_all(self.args@) }
    }
}

impl<N: CodeConvert> NotificationMessage<N> {
    /// The notification with the given notice and arguments.
    pub fn new(code: N, args: Vec<Value>) -> (r: Self)
        ensures
            r@ == (NotificationView { code, args: view_all(args@) }),
    {
        NotificationMessage { code, args }
    }

    /// Reads a message as a notification.
    pub fn from(msg: Message) -> (r: Result<Self, RpcError>)
        ensures
            match r {
                Ok(q) => parse_notification::<N>(msg@) == Ok::<NotificationView<N>, RpcErrorView>(
                    q@,
                ),
                Err(e) => parse_notification::<N>(msg@) == Err::<
                    NotificationView<N>,
                    RpcErrorView,
                >(e@),
            },
    {
        proof {
            use_type_invariant(&msg);
        }
        let mut items = msg.items;
        let n = items.len();
        if n != 3 {
            return Err(length_error("3", n));
        }
        match read_code::<MessageType>(&items[0]) {
            Ok(MessageType::Notification) => {},
            _ => {
                return Err(RpcError::InvalidMessageType);
            },
        }
        let code = read_code::<N>(&items[1])?;
        let last = items.pop().unwrap();
        let args = take_args(last)?;
        Ok(NotificationMessage { code, args })
    }

    /// The message that carries the notification.
    pub fn into_message(self) -> (m: Message)
        ensures
            m@ == notification_items(self@),
    {
        let kind = MessageType::Notification.to_u64();
        let code = self.code.to_u64();
        let args = Value::from_vec(self.args);
        let mut items: Vec<Value> = Vec::new();
        items.push(Value::UInt(kind));
        items.push(Value::UInt(code));
        items.push(args);
        proof {
            assert(view_all(items@) =~= notification_items(self@));
        }
        Message { items }
    }

    /// The notice.
    pub fn message_code(&self) -> (c: &N)
        ensures
            *c == self@.code,
    {
        &self.code
    }

    /// The arguments of the notification.
    pub fn message_args(&self) -> (args: &Vec<Value>)
        ensures
            view_all(args@) == self@.args,
    {
        &self.args
    }
}

/// A request that is written as a message and read back is the same
/// request.
pub proof fn lemma_request_roundtrip<M: CodeConvert>(r: RequestView<M>)
    ensures
        message_ok(request_items(r)),
        parse_request::<M>(request_items(r)) == Ok::<RequestView<M>, RpcErrorView>(r),
{
    M::lemma_code_decode(r.method);
}

/// A response that is written as a message and read back is the same
/// response.
pub proof fn lemma_response_roundtrip<E: CodeConvert>(r: ResponseView<E>)
    ensures
        message_ok(response_items(r)),
        parse_response::<E>(response_items(r)) == Ok::<ResponseView<E>, RpcErrorView>(r),
{
    E::lemma_code_decode(r.error);
}

/// A notification that is written as a message and read back is the same
/// notification.
pub proof fn lemma_notification_roundtrip<N: CodeConvert>(r: NotificationView<N>)
    ensures
        message_ok(notification_items(r)),
        parse_notification::<N>(notification_items(r)) == Ok::<
            NotificationView<N>,
            RpcErrorView,
        >(r),
{
    N::lemma_code_decode(r.code);
}

} // verus!
