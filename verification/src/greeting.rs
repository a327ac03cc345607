//! The greeting service: what a visitor is told.

use crate::counter::VisitorCounter;
use crate::decimal::{decimal_digits, push_decimal};
use crate::error::{CounterError, StoreError};
use crate::model::{after_visit, valid_name, visits_of, MAX_COUNT};
use crate::response::{internal_server_error, ok, ContentType, Response, Status};
use vstd::prelude::*;
use vstd::string::StringExecFns;

verus! {

/// The greeting for a visitor who had visited `previous` times and has now
/// visited `current` times.
pub open spec fn greeting_text(name: Seq<char>, previous: int, current: int) -> Seq<char> {
    "Hello, "@ + name + ". Previous visits were "@ + decimal_digits(previous) + ", now it's "@
        + decimal_digits(current) + " times!"@
}

/// The message for a visit that failed for the reason that `detail` gives.
pub open spec fn failure_text(detail: Seq<char>) -> Seq<char> {
    "Error occurred "@ + detail
}

/// The answer to a visit: the greeting with status 200 for a visit that was
/// counted, the failure message with status 500, in the words of the cause,
/// for one that was not.
pub open spec fn answers(
    response: Response,
    name: Seq<char>,
    visit: Result<(u64, u64), CounterError>,
) -> bool {
    &&& response.content_type == ContentType::Plain
    &&& match visit {
        Ok((previous, current)) => {
            &&& response.status == Status::Success
            &&& response.body@ == greeting_text(name, previous as int, current as int)
        },
        Err(e) => {
            &&& response.status == Status::InternalServerError
            &&& response.body@ == failure_text(e.cause.words())
        },
    }
}

/// The fixed greeting of the service's root.
pub fn index() -> (text: &'static str)
    ensures
        text@ == "Hello, world!"@,
{
    "Hello, world!"
}

/// Writes the greeting for `name`.
pub fn greeting(name: &str, previous: u64, current: u64) -> (text: String)
    ensures
        text@ == greeting_text(name@, previous as int, current as int),
{
    let mut text = String::from_str("Hello, ");
    text.append(name);
    text.append(". Previous visits were ");
    push_decimal(&mut text, previous);
    text.append(", now it's ");
    push_decimal(&mut text, current);
    text.append(" times!");
    text
}

/// Writes the message for a failed visit.
pub fn failure_message(detail: &str) -> (text: String)
    ensures
        text@ == failure_text(detail@),
{
    let mut text = String::from_str("Error occurred ");
    text.append(detail);
    text
}

/// Answers a visit of `name` whose outcome is `visit`: the greeting with
/// the counts of a visit that was recorded, or the message of the failure.
pub fn respond(name: &str, visit: Result<(u64, u64), CounterError>) -> (response: Response)
    ensures
        answers(response, name@, visit),
{
    match visit {
        Ok((previous, current)) => ok(greeting(name, previous, current)),
        Err(e) => {
            let detail = e.message();
            internal_server_error(failure_message(detail.as_str()))
        },
    }
}

/// Serves one visit of `name`: records it and answers with the greeting, or,
/// if the visit fails, answers with the failure in the words of its cause
/// and leaves the counts as they were. A failure is never answered as a
/// greeting.
pub fn hello(counter: &mut VisitorCounter, name: &str) -> (response: Response)
    requires
        old(counter).wf(),
    ensures
        final(counter).wf(),
        final(counter).ready() == old(counter).ready(),
        response.content_type == ContentType::Plain,
        match response.status {
            Status::Success => {
                &&& valid_name(name@)
                &&& old(counter).ready()
                &&& visits_of(old(counter).counts(), name@) < MAX_COUNT
                &&& final(counter).counts() == after_visit(old(counter).counts(), name@)
                &&& final(counter).cached() == old(counter).cached().insert(
                    name@,
                    visits_of(old(counter).counts(), name@) + 1,
                )
                &&& response.body@ == greeting_text(
                    name@,
                    visits_of(old(counter).counts(), name@),
                    visits_of(old(counter).counts(), name@) + 1,
                )
            },
            Status::InternalServerError => {
                &&& final(counter).counts() == old(counter).counts()
                &&& final(counter).cached() == old(counter).cached()
                &&& exists|cause: StoreError|
                    old(counter).may_fail_with(name@, cause) && response.body@ == failure_text(
                        #[trigger] cause.words(),
                    )
            },
        },
{
    respond(name, counter.record_visit(name))
}

} // verus!
