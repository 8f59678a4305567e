//! The dual fetcher: two identical requests are sent together, and their
//! bodies are read and joined in the order the requests were made.
//!
//! Sending and reading are the caller's work. This module says what to send,
//! what to read next, and what the whole operation yields.

use vstd::prelude::*;

verus! {

/// The endpoint both requests go to.
pub const JOKE_URL: &'static str = "https://icanhazdadjoke.com/";

/// The name of the one header each request carries.
pub const ACCEPT: &'static str = "Accept";

/// The value of that header: the body is wanted as plain text.
pub const TEXT_PLAIN: &'static str = "text/plain";

/// A GET request, described by what the caller needs to send it.
#[derive(Clone, Copy, Debug)]
pub struct Request {
    pub url: &'static str,
    pub header_name: &'static str,
    pub header_value: &'static str,
}

/// What remains to be done once the body that is being read has arrived.
pub enum Pending<R, E> {
    /// The first body is being read; the second request ended like this.
    Second(Result<R, E>),
    /// The second body is being read; this is the first.
    Last(String),
}

/// What the caller does next.
pub enum Progress<R, E> {
    /// Read the body of `response`, then report it with `then`.
    Read { response: R, then: Pending<R, E> },
    /// The operation is over, with this result.
    Done(Result<String, E>),
}

/// `Pending` with its text as a sequence of characters.
pub enum PendingView<R, E> {
    Second(Result<R, E>),
    Last(Seq<char>),
}

/// `Progress` with its text as a sequence of characters.
pub enum ProgressView<R, E> {
    Read { response: R, then: PendingView<R, E> },
    Done(Result<Seq<char>, E>),
}

impl<R, E> View for Pending<R, E> {
    type V = PendingView<R, E>;

    open spec fn view(&self) -> PendingView<R, E> {
        match *self {
            Pending::Second(second) => PendingView::Second(second),
            Pending::Last(first) => PendingView::Last(first@),
        }
    }
}

impl<R, E> View for Progress<R, E> {
    type V = ProgressView<R, E>;

    open spec fn view(&self) -> ProgressView<R, E> {
        match *self {
            Progress::Read { response, then } => ProgressView::Read { response, then: then@ },
            Progress::Done(Ok(text)) => ProgressView::Done(Ok(text@)),
            Progress::Done(Err(e)) => ProgressView::Done(Err(e)),
        }
    }
}

/// A body as it was read, with its text as a sequence of characters.
pub open spec fn body_view<E>(body: Result<String, E>) -> Result<Seq<char>, E> {
    match body {
        Ok(text) => Ok(text@),
        Err(e) => Err(e),
    }
}

/// The two bodies with a single line feed between them.
pub open spec fn joined_text(first: Seq<char>, second: Seq<char>) -> Seq<char> {
    first + seq!['\n'] + second
}

/// What follows the join of the two requests: the first failure ends the
/// operation, and otherwise the first response is read.
pub open spec fn after_join<R, E>(first: Result<R, E>, second: Result<R, E>) -> ProgressView<R, E> {
    match first {
        Err(e) => ProgressView::Done(Err(e)),
        Ok(response) => ProgressView::Read { response, then: PendingView::Second(second) },
    }
}

/// What follows a body: a body that failed ends the operation; after the
/// first body the second request's failure ends it, or else its response is
/// read; after the second body the two are joined.
pub open spec fn after_body<R, E>(
    pending: PendingView<R, E>,
    body: Result<Seq<char>, E>,
) -> ProgressView<R, E> {
    match body {
        Err(e) => ProgressView::Done(Err(e)),
        Ok(text) => match pending {
            PendingView::Second(Err(e)) => ProgressView::Done(Err(e)),
            PendingView::Second(Ok(response)) => ProgressView::Read {
                response,
                then: PendingView::Last(text),
            },
            PendingView::Last(first) => ProgressView::Done(Ok(joined_text(first, text))),
        },
    }
}

/// What the whole operation yields when the two requests ended as `first`
/// and `second`, and reading the bodies, where it comes to that, ends as
/// `first_body` and `second_body`.
pub open spec fn run<R, E>(
    first: Result<R, E>,
    second: Result<R, E>,
    first_body: Result<Seq<char>, E>,
    second_body: Result<Seq<char>, E>,
) -> Result<Seq<char>, E> {
    match after_join(first, second) {
        ProgressView::Done(result) => result,
        ProgressView::Read { then, .. } => match after_body(then, first_body) {
            ProgressView::Done(result) => result,
            ProgressView::Read { then, .. } => match after_body(then, second_body) {
                ProgressView::Done(result) => result,
                ProgressView::Read { .. } => arbitrary(),
            },
        },
    }
}

/// The request that asks the joke endpoint for plain text.
pub fn joke_request() -> (request: Request)
    ensures
        request.url@ == JOKE_URL@,
        request.header_name@ == ACCEPT@,
        request.header_value@ == TEXT_PLAIN@,
{
    Request { url: JOKE_URL, header_name: ACCEPT, header_value: TEXT_PLAIN }
}

/// The two requests to send together: the same request twice. The result of
/// the first one sent is the first argument of `joined`.
pub fn fan_out() -> (requests: (Request, Request))
    ensures
        requests.0.url@ == JOKE_URL@,
        requests.0.header_name@ == ACCEPT@,
        requests.0.header_value@ == TEXT_PLAIN@,
        requests.1 == requests.0,
{
    let request = joke_request();
    (request, request)
}

/// Joins two bodies with a single line feed between them.
pub fn join_bodies(first: String, second: &str) -> (text: String)
    ensures
        text@ == joined_text(first@, second@),
{
    proof {
        reveal_strlit("\n");
    }
    let mut text = first;
    text.append("\n");
    text.append(second);
    assert("\n"@ =~= seq!['\n']);
    text
}

/// Takes the results of the two requests once both have ended, in the order
/// the requests were made, and says what to do next.
pub fn joined<R, E>(first: Result<R, E>, second: Result<R, E>) -> (next: Progress<R, E>)
    ensures
        next@ == after_join(first, second),
{
    match first {
        Err(e) => Progress::Done(Err(e)),
        Ok(response) => Progress::Read { response, then: Pending::Second(second) },
    }
}

/// Takes the body that was just read, or the failure to read it, and says
/// what to do next.
pub fn body_read<R, E>(pending: Pending<R, E>, body: Result<String, E>) -> (next: Progress<R, E>)
    ensures
        next@ == after_body(pending@, body_view(body)),
{
    match body {
        Err(e) => Progress::Done(Err(e)),
        Ok(text) => match pending {
            Pending::Second(Err(e)) => Progress::Done(Err(e)),
            Pending::Second(Ok(response)) => Progress::Read { response, then: Pending::Last(text) },
            Pending::Last(first) => Progress::Done(Ok(join_bodies(first, text.as_str()))),
        },
    }
}

/// Slot order: when both requests and both bodies succeed, the response of
/// the first request is read first, that of the second request second, and
/// the result is the first body, a line feed, and the second body.
pub proof fn lemma_slot_order<R, E>(
    first: R,
    second: R,
    first_body: Seq<char>,
    second_body: Seq<char>,
)
    ensures
        ({
            let at_join = after_join::<R, E>(Ok(first), Ok(second));
            let at_first = after_body(at_join->then, Ok(first_body));
            let at_second = after_body(at_first->then, Ok(second_body));
            &&& at_join is Read
            &&& at_join->response == first
            &&& at_first is Read
            &&& at_first->response == second
            &&& at_second == ProgressView::<R, E>::Done(Ok(joined_text(first_body, second_body)))
        }),
        run::<R, E>(Ok(first), Ok(second), Ok(first_body), Ok(second_body)) == Ok::<Seq<char>, E>(
            joined_text(first_body, second_body),
        ),
{
}

/// The result the operation owes: the failure that comes first in the order
/// first request, first body, second request, second body, or else the
/// joined text.
pub open spec fn outcome<R, E>(
    first: Result<R, E>,
    second: Result<R, E>,
    first_body: Result<Seq<char>, E>,
    second_body: Result<Seq<char>, E>,
) -> Result<Seq<char>, E> {
    match (first, first_body, second, second_body) {
        (Err(e), _, _, _) => Err(e),
        (Ok(_), Err(e), _, _) => Err(e),
        (Ok(_), Ok(_), Err(e), _) => Err(e),
        (Ok(_), Ok(_), Ok(_), Err(e)) => Err(e),
        (Ok(_), Ok(a), Ok(_), Ok(b)) => Ok(joined_text(a, b)),
    }
}

/// Failure propagation: the operation yields `outcome`. So it succeeds only
/// when both requests and both bodies do, a failure of either request or
/// body is the result whenever nothing before it failed, and no text is
/// returned beside a failure.
pub proof fn lemma_failure_propagates<R, E>(
    first: Result<R, E>,
    second: Result<R, E>,
    first_body: Result<Seq<char>, E>,
    second_body: Result<Seq<char>, E>,
)
    ensures
        run(first, second, first_body, second_body) == outcome(
            first,
            second,
            first_body,
            second_body,
        ),
        run(first, second, first_body, second_body) is Ok <==> first is Ok && first_body is Ok
            && second is Ok && second_body is Ok,
{
}

/// The joined text begins with the whole first body and ends with the whole
/// second one, whatever the two hold.
pub proof fn lemma_joined_text_parts(first: Seq<char>, second: Seq<char>)
    ensures
        joined_text(first, second).len() == first.len() + 1 + second.len(),
        joined_text(first, second).subrange(0, first.len() as int) == first,
        joined_text(first, second)[first.len() as int] == '\n',
        joined_text(first, second).subrange(
            first.len() as int + 1,
            joined_text(first, second).len() as int,
        ) == second,
{
    let text = joined_text(first, second);
    assert(text.subrange(0, first.len() as int) =~= first);
    assert(text.subrange(first.len() as int + 1, text.len() as int) =~= second);
}

} // verus!
