//! What the listener does with a request.
//!
//! The listener is the peer of the applications that are switched by a
//! message: it sits on the application's socket and hands every request
//! that is JSON on to the application, on one line.

use vstd::prelude::*;

use crate::json::{json_parse, json_text, parse, to_text};
use crate::plan::wrap;
use crate::text::{trim, trimmed};

verus! {

/// What the listener does with one request.
#[derive(Debug, Clone, PartialEq, Eq)]
pub enum Reply {
    /// Write the line to the standard output.
    Forward(String),
    /// Write the line to the standard error.
    Complain(String),
    /// Nothing.
    Ignore,
}

/// The model of a [`Reply`].
pub enum ReplyView {
    Forward(Seq<char>),
    Complain(Seq<char>),
    Ignore,
}

impl View for Reply {
    type V = ReplyView;

    open spec fn view(&self) -> ReplyView {
        match self {
            Reply::Forward(line) => ReplyView::Forward(line@),
            Reply::Complain(line) => ReplyView::Complain(line@),
            Reply::Ignore => ReplyView::Ignore,
        }
    }
}

/// The model of an optional [`Reply`].
pub open spec fn reply_view(reply: Option<Reply>) -> Option<ReplyView> {
    match reply {
        Some(reply) => Some(reply@),
        None => None,
    }
}

/// What is done with a request.  A request that is JSON, white space
/// around it aside, is forwarded as it prints on one line.  Any other is
/// passed over, with a complaint where the listener is verbose.  `None`
/// where the request is JSON but cannot be printed.
pub open spec fn answer(request: Seq<char>, verbose: bool) -> Option<ReplyView> {
    match json_parse(trimmed(request)) {
        Some(value) => match json_text(value) {
            Some(line) => Some(ReplyView::Forward(line)),
            None => None,
        },
        None => if verbose {
            Some(ReplyView::Complain("Received non-JSON input: '"@ + request + "'"@))
        } else {
            Some(ReplyView::Ignore)
        },
    }
}

/// Decides what to do with a request.
pub fn respond(request: &str, verbose: bool) -> (reply: Option<Reply>)
    ensures
        reply_view(reply) == answer(request@, verbose),
{
    match parse(trim(request)) {
        Ok(json_input) => match to_text(&json_input) {
            Ok(line) => Some(Reply::Forward(line)),
            Err(_) => None,
        },
        Err(_) => {
            if verbose {
                Some(Reply::Complain(wrap("Received non-JSON input: '", request, "'")))
            } else {
                Some(Reply::Ignore)
            }
        },
    }
}

} // verus!
