use std::cell::RefCell;
use std::future::Future;
use std::pin::Pin;
use std::rc::Rc;
use std::task::{Context, Poll};

use julia_jokes::fetch::{
    body_read, fan_out, join_bodies, joined, joke_request, Pending, Progress, ACCEPT, JOKE_URL,
    TEXT_PLAIN,
};

#[derive(Debug, PartialEq)]
enum Failure {
    Connect(u8),
    Decode(u8),
}

#[derive(Debug, PartialEq)]
struct Response {
    id: u8,
    body: Result<String, Failure>,
}

fn response(id: u8, body: &str) -> Result<Response, Failure> {
    Ok(Response { id, body: Ok(body.to_string()) })
}

fn undecodable(id: u8) -> Result<Response, Failure> {
    Ok(Response { id, body: Err(Failure::Decode(id)) })
}

fn complete(
    first: Result<Response, Failure>,
    second: Result<Response, Failure>,
    read: &mut Vec<u8>,
) -> Result<String, Failure> {
    let mut next = joined(first, second);
    loop {
        match next {
            Progress::Done(result) => return result,
            Progress::Read { response, then } => {
                read.push(response.id);
                next = body_read(then, response.body);
            }
        }
    }
}

struct Mocked {
    name: &'static str,
    polls_left: u32,
    result: Option<Result<Response, Failure>>,
    finished: Rc<RefCell<Vec<&'static str>>>,
}

impl Future for Mocked {
    type Output = Result<Response, Failure>;

    fn poll(mut self: Pin<&mut Self>, cx: &mut Context<'_>) -> Poll<Self::Output> {
        if self.polls_left == 0 {
            self.finished.borrow_mut().push(self.name);
            Poll::Ready(self.result.take().unwrap())
        } else {
            self.polls_left -= 1;
            cx.waker().wake_by_ref();
            Poll::Pending
        }
    }
}

fn mocked(
    name: &'static str,
    polls_left: u32,
    result: Result<Response, Failure>,
    finished: &Rc<RefCell<Vec<&'static str>>>,
) -> Mocked {
    Mocked { name, polls_left, result: Some(result), finished: Rc::clone(finished) }
}

#[test]
fn the_request_asks_the_joke_endpoint_for_plain_text() {
    let request = joke_request();
    assert_eq!(request.url, "https://icanhazdadjoke.com/");
    assert_eq!(request.header_name, "Accept");
    assert_eq!(request.header_value, "text/plain");
    assert_eq!(JOKE_URL, "https://icanhazdadjoke.com/");
    assert_eq!(ACCEPT, "Accept");
    assert_eq!(TEXT_PLAIN, "text/plain");
}

#[test]
fn fan_out_is_the_same_request_twice() {
    let (first, second) = fan_out();
    let single = joke_request();
    for request in [first, second] {
        assert_eq!(request.url, single.url);
        assert_eq!(request.header_name, single.header_name);
        assert_eq!(request.header_value, single.header_value);
    }
}

#[test]
fn join_bodies_puts_one_line_feed_between() {
    assert_eq!(join_bodies("first".to_string(), "second"), "first\nsecond");
    assert_eq!(join_bodies("a".to_string(), "b"), "a\nb");
}

#[test]
fn join_bodies_keeps_empty_bodies() {
    assert_eq!(join_bodies(String::new(), ""), "\n");
    assert_eq!(join_bodies("x".to_string(), ""), "x\n");
    assert_eq!(join_bodies(String::new(), "y"), "\ny");
}

#[test]
fn join_bodies_keeps_line_feeds_inside_the_bodies() {
    assert_eq!(join_bodies("a\n".to_string(), "\nb\n"), "a\n\n\nb\n");
    assert_eq!(join_bodies("caf\u{e9}".to_string(), "\u{1f600}"), "caf\u{e9}\n\u{1f600}");
}

#[test]
fn joined_reads_the_first_response_first() {
    match joined(response(1, "one"), response(2, "two")) {
        Progress::Read { response, then } => {
            assert_eq!(response.id, 1);
            match then {
                Pending::Second(Ok(second)) => assert_eq!(second.id, 2),
                _ => panic!("the second response is kept for later"),
            }
        }
        Progress::Done(_) => panic!("nothing was read yet"),
    }
}

#[test]
fn joined_ends_on_the_first_request_s_failure() {
    let next = joined(Err(Failure::Connect(1)), response(2, "two"));
    assert!(matches!(next, Progress::Done(Err(Failure::Connect(1)))));
}

#[test]
fn joined_keeps_the_second_request_s_failure_for_later() {
    match joined(response(1, "one"), Err(Failure::Connect(2))) {
        Progress::Read { response, then } => {
            assert_eq!(response.id, 1);
            assert!(matches!(then, Pending::Second(Err(Failure::Connect(2)))));
        }
        Progress::Done(_) => panic!("the first body is read before the second request counts"),
    }
}

#[test]
fn body_read_after_the_first_body_reads_the_second_response() {
    let pending: Pending<Response, Failure> = Pending::Second(response(2, "two"));
    match body_read(pending, Ok("one".to_string())) {
        Progress::Read { response, then } => {
            assert_eq!(response.id, 2);
            match then {
                Pending::Last(first) => assert_eq!(first, "one"),
                _ => panic!("the first body is kept"),
            }
        }
        Progress::Done(_) => panic!("the second body is still to be read"),
    }
}

#[test]
fn body_read_after_the_second_body_joins_the_two() {
    let pending: Pending<Response, Failure> = Pending::Last("one".to_string());
    match body_read(pending, Ok("two".to_string())) {
        Progress::Done(Ok(text)) => assert_eq!(text, "one\ntwo"),
        _ => panic!("both bodies were read"),
    }
}

#[test]
fn body_read_ends_on_a_body_s_failure() {
    let after_first: Pending<Response, Failure> = Pending::Second(response(2, "two"));
    assert!(matches!(
        body_read(after_first, Err(Failure::Decode(1))),
        Progress::Done(Err(Failure::Decode(1)))
    ));
    let after_second: Pending<Response, Failure> = Pending::Last("one".to_string());
    assert!(matches!(
        body_read(after_second, Err(Failure::Decode(2))),
        Progress::Done(Err(Failure::Decode(2)))
    ));
}

#[test]
fn body_read_ends_on_the_second_request_s_failure() {
    let pending: Pending<Response, Failure> = Pending::Second(Err(Failure::Connect(2)));
    assert!(matches!(
        body_read(pending, Ok("one".to_string())),
        Progress::Done(Err(Failure::Connect(2)))
    ));
}

#[test]
fn two_successes_give_both_bodies_in_request_order() {
    let mut read = Vec::new();
    let text = complete(response(1, "first joke"), response(2, "second joke"), &mut read);
    assert_eq!(text, Ok("first joke\nsecond joke".to_string()));
    assert_eq!(read, vec![1, 2]);
}

#[test]
fn each_failure_alone_is_the_result() {
    let mut read = Vec::new();
    assert_eq!(
        complete(Err(Failure::Connect(1)), response(2, "two"), &mut read),
        Err(Failure::Connect(1))
    );
    assert_eq!(read, Vec::<u8>::new());
    assert_eq!(complete(undecodable(1), response(2, "two"), &mut read), Err(Failure::Decode(1)));
    assert_eq!(read, vec![1]);
    read.clear();
    assert_eq!(
        complete(response(1, "one"), Err(Failure::Connect(2)), &mut read),
        Err(Failure::Connect(2))
    );
    assert_eq!(read, vec![1]);
    read.clear();
    assert_eq!(complete(response(1, "one"), undecodable(2), &mut read), Err(Failure::Decode(2)));
    assert_eq!(read, vec![1, 2]);
}

#[test]
fn of_two_failures_the_earlier_step_wins() {
    let mut read = Vec::new();
    assert_eq!(
        complete(Err(Failure::Connect(1)), Err(Failure::Connect(2)), &mut read),
        Err(Failure::Connect(1))
    );
    assert_eq!(
        complete(undecodable(1), Err(Failure::Connect(2)), &mut read),
        Err(Failure::Decode(1))
    );
    assert_eq!(complete(undecodable(1), undecodable(2), &mut read), Err(Failure::Decode(1)));
    assert_eq!(
        complete(Err(Failure::Connect(1)), undecodable(2), &mut read),
        Err(Failure::Connect(1))
    );
}

#[test]
fn the_second_response_is_not_read_after_a_failure() {
    let mut read = Vec::new();
    let result = complete(undecodable(1), response(2, "two"), &mut read);
    assert_eq!(result, Err(Failure::Decode(1)));
    assert_eq!(read, vec![1]);
}

#[test]
fn reverse_completion_keeps_request_order() {
    let finished = Rc::new(RefCell::new(Vec::new()));
    let first = mocked("first", 3, response(1, "first joke"), &finished);
    let second = mocked("second", 0, response(2, "second joke"), &finished);
    let (first, second) = futures::executor::block_on(futures::future::join(first, second));
    assert_eq!(*finished.borrow(), vec!["second", "first"]);
    let mut read = Vec::new();
    let text = complete(first, second, &mut read);
    assert_eq!(text, Ok("first joke\nsecond joke".to_string()));
    assert_eq!(read, vec![1, 2]);
}

#[test]
fn forward_completion_gives_the_same_text() {
    let finished = Rc::new(RefCell::new(Vec::new()));
    let first = mocked("first", 0, response(1, "first joke"), &finished);
    let second = mocked("second", 3, response(2, "second joke"), &finished);
    let (first, second) = futures::executor::block_on(futures::future::join(first, second));
    assert_eq!(*finished.borrow(), vec!["first", "second"]);
    let mut read = Vec::new();
    assert_eq!(complete(first, second, &mut read), Ok("first joke\nsecond joke".to_string()));
}

#[test]
fn a_mocked_transport_failure_yields_that_failure_and_no_text() {
    let finished = Rc::new(RefCell::new(Vec::new()));
    let first = mocked("first", 2, response(1, "first joke"), &finished);
    let second = mocked("second", 0, Err(Failure::Connect(2)), &finished);
    let (first, second) = futures::executor::block_on(futures::future::join(first, second));
    let mut read = Vec::new();
    assert_eq!(complete(first, second, &mut read), Err(Failure::Connect(2)));

    let first = mocked("first", 0, Err(Failure::Connect(1)), &finished);
    let second = mocked("second", 2, response(2, "second joke"), &finished);
    let (first, second) = futures::executor::block_on(futures::future::join(first, second));
    let mut read = Vec::new();
    assert_eq!(complete(first, second, &mut read), Err(Failure::Connect(1)));
    assert_eq!(read, Vec::<u8>::new());
}
