//! The service handler: the two procedures of the greeter service, and the
//! dispatch of an incoming call to the procedure it names.

use vstd::prelude::*;
use vstd::string::*;
use crate::counter::{Counter, COUNTER_LIMIT};
use crate::hello_world::{CountReply, CountRequest, HelloReply, HelloRequest};

verus! {

/// What every greeting starts with.
pub const GREETING_PREFIX: &'static str = "You said: ";

/// The name of the service, under which the server offers it.
pub const SERVICE_NAME: &'static str = "helloworld.Greeter";

/// The path under which `SayHello` is called.
pub const SAY_HELLO_PATH: &'static str = "/helloworld.Greeter/SayHello";

/// The path under which `GetCount` is called.
pub const GET_COUNT_PATH: &'static str = "/helloworld.Greeter/GetCount";

/// The message that answers `name`: the prefix, then the name as it came.
pub open spec fn greeting(name: Seq<char>) -> Seq<char> {
    GREETING_PREFIX@ + name
}

/// The handler of the greeter service. It owns the counter; nothing else can
/// reach it.
pub struct GrpcTest {
    count: Counter,
}

impl View for GrpcTest {
    type V = int;

    /// The value that the counter holds.
    closed spec fn view(&self) -> int {
        self.count@
    }
}

impl Default for GrpcTest {
    /// A handler whose counter holds zero.
    fn default() -> (handler: GrpcTest)
        ensures
            handler@ == 0,
    {
        GrpcTest { count: Counter::new() }
    }
}

impl GrpcTest {
    /// `SayHello`: answers with the greeting for the request's name. It reads
    /// nothing of the handler and cannot fail.
    pub fn say_hello(&self, request: HelloRequest) -> (reply: HelloReply)
        ensures
            reply@ == greeting(request@),
    {
        let mut message = String::from_str(GREETING_PREFIX);
        message.append(request.name.as_str());
        HelloReply { message }
    }

    /// Whether the counter has reached [`COUNTER_LIMIT`], so that `GetCount`
    /// can no longer be served.
    pub fn is_exhausted(&self) -> (exhausted: bool)
        ensures
            exhausted == (self@ >= COUNTER_LIMIT),
    {
        self.count.is_exhausted()
    }

    /// `GetCount`: increments the counter and answers with its new value.
    pub fn get_count(&mut self, request: CountRequest) -> (reply: CountReply)
        requires
            old(self)@ < COUNTER_LIMIT,
        ensures
            final(self)@ == old(self)@ + 1,
            reply@ == final(self)@,
            reply@ >= 1,
    {
        let count = self.count.increment_and_read();
        CountReply { count }
    }
}

/// The procedures that the service offers.
#[derive(Clone, Copy, Debug, PartialEq, Eq, Structural)]
pub enum Procedure {
    SayHello,
    GetCount,
}

/// The procedure that a call path names, if it names one.
pub open spec fn procedure_at(path: Seq<char>) -> Option<Procedure> {
    if path == SAY_HELLO_PATH@ {
        Some(Procedure::SayHello)
    } else if path == GET_COUNT_PATH@ {
        Some(Procedure::GetCount)
    } else {
        None
    }
}

/// Finds the procedure that an incoming call's path names. A path that names
/// none gives `None`: the call is then answered as unimplemented.
pub fn route(path: &str) -> (procedure: Option<Procedure>)
    ensures
        procedure == procedure_at(path@),
{
    let path = path.to_owned();
    if path == String::from_str(SAY_HELLO_PATH) {
        Some(Procedure::SayHello)
    } else if path == String::from_str(GET_COUNT_PATH) {
        Some(Procedure::GetCount)
    } else {
        None
    }
}

/// The path of a procedure is a slash, the service's name, a slash and the
/// procedure's name; the two procedures have different paths.
pub proof fn lemma_paths_name_the_service()
    ensures
        SAY_HELLO_PATH@ == "/"@ + SERVICE_NAME@ + "/SayHello"@,
        GET_COUNT_PATH@ == "/"@ + SERVICE_NAME@ + "/GetCount"@,
        SAY_HELLO_PATH@ != GET_COUNT_PATH@,
        procedure_at(SAY_HELLO_PATH@) == Some(Procedure::SayHello),
        procedure_at(GET_COUNT_PATH@) == Some(Procedure::GetCount),
{
    reveal_strlit("/");
    reveal_strlit("helloworld.Greeter");
    reveal_strlit("/SayHello");
    reveal_strlit("/GetCount");
    reveal_strlit("/helloworld.Greeter/SayHello");
    reveal_strlit("/helloworld.Greeter/GetCount");
    assert(SAY_HELLO_PATH@ =~= "/"@ + SERVICE_NAME@ + "/SayHello"@);
    assert(GET_COUNT_PATH@ =~= "/"@ + SERVICE_NAME@ + "/GetCount"@);
    assert(SAY_HELLO_PATH@[20] != GET_COUNT_PATH@[20]);
}

/// An incoming call: the procedure, with its request.
#[derive(Clone, Debug, PartialEq, Eq)]
pub enum Request {
    SayHello(HelloRequest),
    GetCount(CountRequest),
}

/// An incoming call as a mathematical value.
pub enum RequestView {
    SayHello { name: Seq<char> },
    GetCount,
}

impl View for Request {
    type V = RequestView;

    open spec fn view(&self) -> RequestView {
        match self {
            Request::SayHello(request) => RequestView::SayHello { name: request@ },
            Request::GetCount(_) => RequestView::GetCount,
        }
    }
}

/// The answer to a call.
#[derive(Clone, Debug, PartialEq, Eq)]
pub enum Reply {
    Hello(HelloReply),
    Count(CountReply),
}

/// The answer to a call as a mathematical value.
pub enum ReplyView {
    Hello { message: Seq<char> },
    Count { count: int },
}

impl View for Reply {
    type V = ReplyView;

    open spec fn view(&self) -> ReplyView {
        match self {
            Reply::Hello(reply) => ReplyView::Hello { message: reply@ },
            Reply::Count(reply) => ReplyView::Count { count: reply@ },
        }
    }
}

/// What serving one call does to a counter that holds `count`: the value it
/// holds afterwards, and the reply.
pub open spec fn serve(count: int, request: RequestView) -> (int, ReplyView) {
    match request {
        RequestView::SayHello { name } => (count, ReplyView::Hello { message: greeting(name) }),
        RequestView::GetCount => (count + 1, ReplyView::Count { count: count + 1 }),
    }
}

/// What serving a sequence of calls one after another does to a counter that
/// holds `count`: the value it holds at the end, and the replies in the order
/// of the calls.
pub open spec fn serve_all(count: int, requests: Seq<RequestView>) -> (int, Seq<ReplyView>)
    decreases requests.len(),
{
    if requests.len() == 0 {
        (count, Seq::empty())
    } else {
        let (before, replies) = serve_all(count, requests.drop_last());
        let (after, reply) = serve(before, requests.last());
        (after, replies.push(reply))
    }
}

impl GrpcTest {
    /// Serves one incoming call with the procedure it names.
    pub fn dispatch(&mut self, request: Request) -> (reply: Reply)
        requires
            request is GetCount ==> old(self)@ < COUNTER_LIMIT,
        ensures
            (final(self)@, reply@) == serve(old(self)@, request@),
    {
        match request {
            Request::SayHello(request) => Reply::Hello(self.say_hello(request)),
            Request::GetCount(request) => Reply::Count(self.get_count(request)),
        }
    }
}

/// `n` calls of `GetCount` and no other call.
pub open spec fn count_calls(n: nat) -> Seq<RequestView> {
    Seq::new(n, |k: int| RequestView::GetCount)
}

/// `n` calls of `SayHello`, each with the same name.
pub open spec fn hello_calls(name: Seq<char>, n: nat) -> Seq<RequestView> {
    Seq::new(n, |k: int| RequestView::SayHello { name })
}

/// How many of the calls are calls of `GetCount`.
pub open spec fn count_calls_among(requests: Seq<RequestView>) -> nat
    decreases requests.len(),
{
    if requests.len() == 0 {
        0
    } else if requests.last() is GetCount {
        count_calls_among(requests.drop_last()) + 1
    } else {
        count_calls_among(requests.drop_last())
    }
}

/// An order of entry for concurrent invocations: `order[k]` is the invocation
/// that gets hold of the counter `k`-th. With `order.len()` invocations,
/// numbered from zero, each of them occurs exactly once.
pub open spec fn is_entry_order(order: Seq<int>) -> bool {
    &&& order.no_duplicates()
    &&& forall|k: int| 0 <= k < order.len() ==> 0 <= #[trigger] order[k] < order.len()
}

/// What each of `order.len()` concurrent invocations of `GetCount` gets back
/// from a counter that starts at zero, when they get hold of the counter in
/// the given order: the entry at `i` is the count returned to invocation `i`.
pub open spec fn returned_counts(order: Seq<int>) -> Seq<int> {
    let replies = serve_all(0, count_calls(order.len())).1;
    Seq::new(order.len(), |invocation: int| replies[order.index_of(invocation)]->count)
}

/// The numbers `1, 2, ..., n`.
pub open spec fn one_to(n: nat) -> Seq<int> {
    Seq::new(n, |k: int| k + 1)
}

/// Serving `n` calls of `GetCount` one after another moves the counter up by
/// `n`, and the `k`-th reply (from zero) is the starting value plus `k + 1`.
pub proof fn lemma_counts_are_consecutive(start: int, n: nat)
    ensures
        serve_all(start, count_calls(n)).0 == start + n,
        serve_all(start, count_calls(n)).1 == Seq::new(
            n,
            |k: int| ReplyView::Count { count: start + k + 1 },
        ),
    decreases n,
{
    if n > 0 {
        let shorter = (n - 1) as nat;
        lemma_counts_are_consecutive(start, shorter);
        assert(count_calls(n).drop_last() =~= count_calls(shorter));
    }
}

/// In an order of entry every invocation has its place: `order.index_of(i)`
/// is the one position at which invocation `i` stands.
pub proof fn lemma_entry_order_places(order: Seq<int>)
    requires
        is_entry_order(order),
    ensures
        forall|i: int|
            0 <= i < order.len() ==> 0 <= #[trigger] order.index_of(i) < order.len()
                && order[order.index_of(i)] == i,
        forall|k: int| 0 <= k < order.len() ==> order.index_of(#[trigger] order[k]) == k,
{
    let n = order.len() as int;
    let range = vstd::set_lib::set_int_range(0, n);
    vstd::set_lib::lemma_int_range(0, n);
    order.unique_seq_to_set();
    vstd::set_lib::lemma_len_subset(order.to_set(), range);
    vstd::set_lib::lemma_subset_equality(order.to_set(), range);
    assert forall|i: int| 0 <= i < order.len() implies 0 <= #[trigger] order.index_of(i)
        < order.len() && order[order.index_of(i)] == i by {
        assert(range.contains(i));
        assert(order.contains(i));
    }
}

/// However `n` concurrent invocations of `GetCount` interleave on a fresh
/// counter, the values they get back are the numbers from 1 to `n`: as a
/// multiset exactly those, no value twice, none left out.
pub proof fn lemma_concurrent_counts(order: Seq<int>)
    requires
        is_entry_order(order),
    ensures
        returned_counts(order).to_multiset() == one_to(order.len()).to_multiset(),
        returned_counts(order).no_duplicates(),
        forall|v: int| 1 <= v <= order.len() ==> returned_counts(order).contains(v),
        forall|i: int|
            0 <= i < order.len() ==> 1 <= #[trigger] returned_counts(order)[i] <= order.len(),
{
    let n = order.len();
    let returned = returned_counts(order);
    let expected = one_to(n);
    lemma_counts_are_consecutive(0, n);
    lemma_entry_order_places(order);
    // The invocation that enters `k`-th gets `k + 1`.
    assert forall|i: int| 0 <= i < n implies #[trigger] returned[i] == order.index_of(i) + 1 by {}
    assert forall|v: int| 1 <= v <= n implies returned.contains(v) by {
        assert(returned[order[v - 1]] == v);
    }
    assert forall|v: int| returned.contains(v) implies expected.contains(v) by {
        assert(expected[v - 1] == v);
    }
    // Both sequences hold each number from 1 to `n` once and nothing else.
    returned.lemma_multiset_has_no_duplicates();
    expected.lemma_multiset_has_no_duplicates();
    returned.to_multiset_ensures();
    expected.to_multiset_ensures();
    assert(returned.to_multiset() =~= expected.to_multiset());
}

/// `SayHello` is pure: whatever the counter holds, the reply is the greeting
/// for the name and nothing else, and the counter holds afterwards what it
/// held before. So the same name gets the same message from any handler,
/// however often it is asked.
pub proof fn lemma_say_hello_is_pure(count: int, other: int, name: Seq<char>, n: nat)
    ensures
        serve(count, RequestView::SayHello { name }) == (
            count,
            ReplyView::Hello { message: greeting(name) },
        ),
        serve(count, RequestView::SayHello { name }).1 == serve(
            other,
            RequestView::SayHello { name },
        ).1,
        serve_all(count, hello_calls(name, n)).0 == count,
        serve_all(count, hello_calls(name, n)).1 == Seq::new(
            n,
            |k: int| ReplyView::Hello { message: greeting(name) },
        ),
    decreases n,
{
    if n > 0 {
        let shorter = (n - 1) as nat;
        lemma_say_hello_is_pure(count, other, name, shorter);
        assert(hello_calls(name, n).drop_last() =~= hello_calls(name, shorter));
    }
}

/// The counter moves up by exactly one for each call of `GetCount` that is
/// served, and by nothing else: it never goes down and is never reset,
/// whatever calls of `SayHello` come in between.
pub proof fn lemma_counter_moves_by_count_calls(count: int, requests: Seq<RequestView>)
    ensures
        serve_all(count, requests).0 == count + count_calls_among(requests),
        serve_all(count, requests).1.len() == requests.len(),
    decreases requests.len(),
{
    if requests.len() > 0 {
        lemma_counter_moves_by_count_calls(count, requests.drop_last());
    }
}

} // verus!
