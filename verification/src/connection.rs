//! Serving one connection: the lines of the request are read one at a time
//! until an empty line or the end of the stream, and then answered. Reading
//! and writing are the caller's; what to do after each read is decided here.

use crate::error::RequestError;
use crate::request::check_request;
use crate::request::checked_text;
use vstd::prelude::*;

verus! {

/// What the last read from the connection brought.
#[derive(Debug, PartialEq, Eq)]
pub enum Received {
    /// A line, without its terminator.
    Line(String),
    /// The peer has closed its side: no more lines will come.
    EndOfStream,
    /// Bytes that are no valid text.
    Undecodable,
    /// The read itself failed.
    Failed,
}

/// What to do after a read.
#[derive(Debug, PartialEq, Eq)]
pub enum NextStep {
    /// Read another line; these are the lines held so far.
    ReadOn(Vec<String>),
    /// Write this response, then flush and close.
    Respond(String),
    /// Close without writing anything.
    Abort,
}

/// A read, with texts in place of strings.
pub enum Arrival {
    Line(Seq<char>),
    EndOfStream,
    Undecodable,
    Failed,
}

/// A step, with texts in place of strings.
pub enum Outcome {
    ReadOn(Seq<Seq<char>>),
    Respond(Seq<char>),
    Abort,
}

impl View for Received {
    type V = Arrival;

    open spec fn view(&self) -> Arrival {
        match self {
            Received::Line(text) => Arrival::Line(text@),
            Received::EndOfStream => Arrival::EndOfStream,
            Received::Undecodable => Arrival::Undecodable,
            Received::Failed => Arrival::Failed,
        }
    }
}

impl View for NextStep {
    type V = Outcome;

    open spec fn view(&self) -> Outcome {
        match self {
            NextStep::ReadOn(lines) => Outcome::ReadOn(lines.deep_view()),
            NextStep::Respond(response) => Outcome::Respond(response@),
            NextStep::Abort => Outcome::Abort,
        }
    }
}

/// The step that follows a read, given the lines held before it. A line that
/// is not empty is kept and reading goes on. An empty line or the end of the
/// stream ends the request, which is then answered from the lines held.
/// Bytes that are no text are answered as a malformed request, whatever came
/// before. After a failed read nothing is written.
pub open spec fn step_after(lines: Seq<Seq<char>>, arrival: Arrival) -> Outcome {
    match arrival {
        Arrival::Line(text) => if text.len() == 0 {
            Outcome::Respond(checked_text(lines))
        } else {
            Outcome::ReadOn(lines.push(text))
        },
        Arrival::EndOfStream => Outcome::Respond(checked_text(lines)),
        Arrival::Undecodable => Outcome::Respond(RequestError::MalformedRequest.response_text()),
        Arrival::Failed => Outcome::Abort,
    }
}

/// Decides what follows a read, given the lines held so far.
pub fn receive(lines: Vec<String>, received: Received) -> (step: NextStep)
    ensures
        step@ == step_after(lines.deep_view(), received@),
{
    match received {
        Received::Line(text) => {
            if text.as_str().is_empty() {
                NextStep::Respond(check_request(lines))
            } else {
                let mut lines = lines;
                let ghost before = lines.deep_view();
                lines.push(text);
                assert(lines.deep_view() =~= before.push(text@));
                NextStep::ReadOn(lines)
            }
        },
        Received::EndOfStream => NextStep::Respond(check_request(lines)),
        Received::Undecodable => NextStep::Respond(RequestError::MalformedRequest.response()),
        Received::Failed => NextStep::Abort,
    }
}

/// The lines of `stream` that stand before its first empty line.
pub open spec fn head_of(stream: Seq<Seq<char>>) -> Seq<Seq<char>>
    decreases stream.len(),
{
    if stream.len() == 0 || stream[0].len() == 0 {
        Seq::empty()
    } else {
        seq![stream[0]] + head_of(stream.drop_first())
    }
}

/// Where serving stands after `arrivals`, starting with `lines` held: each
/// arrival is put to `step_after`, and the first step that does not read on
/// is the end.
pub open spec fn served(lines: Seq<Seq<char>>, arrivals: Seq<Arrival>) -> Outcome
    decreases arrivals.len(),
{
    if arrivals.len() == 0 {
        Outcome::ReadOn(lines)
    } else {
        match step_after(lines, arrivals[0]) {
            Outcome::ReadOn(more) => served(more, arrivals.drop_first()),
            done => done,
        }
    }
}

/// The lines of `stream` as arrivals, followed by the end of the stream.
pub open spec fn arrivals_of(stream: Seq<Seq<char>>) -> Seq<Arrival> {
    Seq::new(stream.len() + 1, |i: int| if i < stream.len() {
        Arrival::Line(stream[i])
    } else {
        Arrival::EndOfStream
    })
}

/// A connection that delivers the lines of `stream` and then ends is answered
/// as the lines before the first empty line are: later lines change nothing.
pub proof fn lemma_served_answers_head(held: Seq<Seq<char>>, stream: Seq<Seq<char>>)
    ensures
        served(held, arrivals_of(stream)) == Outcome::Respond(checked_text(held + head_of(stream))),
    decreases stream.len(),
{
    let arrivals = arrivals_of(stream);
    if stream.len() == 0 {
        assert(held + head_of(stream) =~= held);
    } else if stream[0].len() == 0 {
        assert(held + head_of(stream) =~= held);
    } else {
        let rest = stream.drop_first();
        assert(arrivals.drop_first() =~= arrivals_of(rest));
        lemma_served_answers_head(held.push(stream[0]), rest);
        assert(held.push(stream[0]) + head_of(rest) =~= held + head_of(stream));
    }
}

} // verus!
