use vstd::prelude::*;

use crate::handler::spec_classify;
use crate::handler::spec_filename;
use crate::handler::spec_response_text;
use crate::handler::spec_status;
use crate::handler::ConnectionHandler;
use crate::handler::RequestKind;

verus! {

/// The server seen as a whole: a listener feeding one job per accepted
/// connection into a worker pool. Binding the socket, accepting
/// connections, and the per-connection I/O are the embedding program's
/// work; the decisions taken per connection are the verified
/// `ConnectionHandler` ones, re-exposed here under the server's name.
pub struct WebServer;

impl WebServer {
    /// Decide what the received bytes ask for; the delay of the sleep
    /// route is owed by the caller.
    pub fn classify(data: &[u8]) -> (k: RequestKind)
        ensures
            k == spec_classify(data@),
    {
        ConnectionHandler::classify(data)
    }

    /// The status line and file name that answer the received bytes.
    pub fn get_response(data: &[u8]) -> (r: (&'static str, &'static str))
        ensures
            r.0@ == spec_status(spec_classify(data@)),
            r.1@ == spec_filename(spec_classify(data@)),
    {
        ConnectionHandler::get_response(data)
    }

    /// Build the response text written back on the connection.
    pub fn format_response(status: &str, contents: &str) -> (r: String)
        ensures
            r@ == spec_response_text(status@, contents@),
    {
        ConnectionHandler::format_response(status, contents)
    }
}

} // verus!
