use grpc_test::counter::Counter;
use grpc_test::hello_world::{CountReply, CountRequest, HelloReply, HelloRequest};
use grpc_test::service::{
    route, GrpcTest, Procedure, Reply, Request, GET_COUNT_PATH, SAY_HELLO_PATH, SERVICE_NAME,
};
use std::sync::{Arc, Mutex};

fn hello(name: &str) -> HelloRequest {
    HelloRequest { name: String::from(name) }
}

#[test]
fn say_hello_echoes_alice() {
    let handler = GrpcTest::default();
    let reply = handler.say_hello(hello("Alice"));
    assert_eq!(reply.message, "You said: Alice");
}

#[test]
fn say_hello_accepts_the_empty_name() {
    let handler = GrpcTest::default();
    let reply = handler.say_hello(hello(""));
    assert_eq!(reply.message, "You said: ");
}

#[test]
fn say_hello_keeps_the_name_as_it_came() {
    let handler = GrpcTest::default();
    assert_eq!(handler.say_hello(hello(" a b ")).message, "You said:  a b ");
    assert_eq!(handler.say_hello(hello("Zoë, 42!")).message, "You said: Zoë, 42!");
    assert_eq!(handler.say_hello(hello("You said: ")).message, "You said: You said: ");
}

#[test]
fn say_hello_gives_the_same_message_every_time() {
    let mut handler = GrpcTest::default();
    let first = handler.say_hello(hello("Alice"));
    let second = handler.say_hello(hello("Alice"));
    assert_eq!(first, second);
    handler.get_count(CountRequest {});
    let third = handler.say_hello(hello("Alice"));
    assert_eq!(first, third);
}

#[test]
fn say_hello_leaves_the_counter_alone() {
    let mut handler = GrpcTest::default();
    for _ in 0..5 {
        handler.say_hello(hello("Alice"));
    }
    assert_eq!(handler.get_count(CountRequest {}).count, 1);
    handler.say_hello(hello("Bob"));
    assert_eq!(handler.get_count(CountRequest {}).count, 2);
}

#[test]
fn get_count_starts_at_one() {
    let mut handler = GrpcTest::default();
    assert_eq!(handler.get_count(CountRequest {}).count, 1);
}

#[test]
fn get_count_counts_up_by_one() {
    let mut handler = GrpcTest::default();
    let counts: Vec<i32> = (0..10).map(|_| handler.get_count(CountRequest {}).count).collect();
    assert_eq!(counts, vec![1, 2, 3, 4, 5, 6, 7, 8, 9, 10]);
}

#[test]
fn a_fresh_handler_is_not_exhausted() {
    let mut handler = GrpcTest::default();
    assert!(!handler.is_exhausted());
    handler.get_count(CountRequest {});
    assert!(!handler.is_exhausted());
}

#[test]
fn counter_increments_and_reads() {
    let mut counter = Counter::new();
    assert!(!counter.is_exhausted());
    assert_eq!(counter.increment_and_read(), 1);
    assert_eq!(counter.increment_and_read(), 2);
    assert_eq!(counter.increment_and_read(), 3);
    assert!(!counter.is_exhausted());
}

#[test]
fn concurrent_counts_are_one_to_n() {
    let callers: usize = 8;
    let calls_each: usize = 25;
    let handler = Arc::new(Mutex::new(GrpcTest::default()));
    let mut runtime = tokio::runtime::Builder::new()
        .threaded_scheduler()
        .core_threads(4)
        .build()
        .unwrap();
    let returned = runtime.block_on(async {
        let mut workers = Vec::new();
        for _ in 0..callers {
            let handler = Arc::clone(&handler);
            workers.push(tokio::spawn(async move {
                let mut seen = Vec::new();
                for _ in 0..calls_each {
                    let reply = handler.lock().unwrap().get_count(CountRequest {});
                    seen.push(reply.count);
                    tokio::task::yield_now().await;
                }
                seen
            }));
        }
        let mut returned = Vec::new();
        for worker in workers {
            let seen = worker.await.unwrap();
            assert!(seen.windows(2).all(|pair| pair[0] < pair[1]));
            returned.extend(seen);
        }
        returned
    });
    let mut sorted = returned;
    sorted.sort();
    let expected: Vec<i32> = (1..=(callers * calls_each) as i32).collect();
    assert_eq!(sorted, expected);
}

#[test]
fn interleaved_callers_share_one_to_n() {
    let order = [2usize, 0, 3, 1, 4];
    let mut handler = GrpcTest::default();
    let mut returned = [0i32; 5];
    for caller in order {
        returned[caller] = handler.get_count(CountRequest {}).count;
    }
    assert_eq!(returned, [2, 4, 1, 3, 5]);
    let mut sorted = returned.to_vec();
    sorted.sort();
    assert_eq!(sorted, vec![1, 2, 3, 4, 5]);
}

#[test]
fn route_finds_both_procedures() {
    assert_eq!(route("/helloworld.Greeter/SayHello"), Some(Procedure::SayHello));
    assert_eq!(route("/helloworld.Greeter/GetCount"), Some(Procedure::GetCount));
}

#[test]
fn paths_are_made_of_service_and_procedure() {
    assert_eq!(SERVICE_NAME, "helloworld.Greeter");
    assert_eq!(SAY_HELLO_PATH, format!("/{}/SayHello", SERVICE_NAME));
    assert_eq!(GET_COUNT_PATH, format!("/{}/GetCount", SERVICE_NAME));
    assert_eq!(route(SAY_HELLO_PATH), Some(Procedure::SayHello));
    assert_eq!(route(GET_COUNT_PATH), Some(Procedure::GetCount));
}

#[test]
fn route_knows_no_other_path() {
    assert_eq!(route(""), None);
    assert_eq!(route("/"), None);
    assert_eq!(route("/helloworld.Greeter/"), None);
    assert_eq!(route("/helloworld.Greeter/SayHello/"), None);
    assert_eq!(route("/helloworld.Greeter/sayhello"), None);
    assert_eq!(route("helloworld.Greeter/GetCount"), None);
    assert_eq!(route("/helloworld.Greeter/GetCounts"), None);
    assert_eq!(route("/other.Greeter/GetCount"), None);
}

#[test]
fn dispatch_serves_the_named_procedure() {
    let mut handler = GrpcTest::default();
    assert_eq!(
        handler.dispatch(Request::GetCount(CountRequest {})),
        Reply::Count(CountReply { count: 1 })
    );
    assert_eq!(
        handler.dispatch(Request::SayHello(hello("Alice"))),
        Reply::Hello(HelloReply { message: String::from("You said: Alice") })
    );
    assert_eq!(
        handler.dispatch(Request::GetCount(CountRequest {})),
        Reply::Count(CountReply { count: 2 })
    );
}
