//! One exchange on one stream: the request that opens it, the response that
//! ends it, and the rule that a stream carries nothing more.

use vstd::prelude::*;

verus! {

/// The operations that the bridge carries.
#[derive(Clone, Copy, Debug, PartialEq, Eq, Structural)]
pub enum Method {
    Get,
    Post,
}

/// One header line.
#[derive(Debug)]
pub struct Header {
    pub name: String,
    pub value: String,
}

impl Header {
    pub open spec fn is(self, name: Seq<char>, value: Seq<char>) -> bool {
        self.name@ == name && self.value@ == value
    }
}

/// A request, as it is handed to the wire encoder.
#[derive(Debug)]
pub struct Request {
    pub method: Method,
    pub path: String,
    pub headers: Vec<Header>,
    pub body: Vec<u8>,
}

/// The headers of every request: the stream is not to be reused, and the
/// body is JSON.
pub open spec fn request_headers(headers: Seq<Header>) -> bool {
    &&& headers.len() == 2
    &&& headers[0].is("Connection"@, "close"@)
    &&& headers[1].is("content-type"@, "application/json"@)
}

/// The request for `method` on `path` with `body`.
pub fn request(method: Method, path: &str, body: Vec<u8>) -> (r: Request)
    ensures
        r.method == method,
        r.path@ == path@,
        r.body@ == body@,
        request_headers(r.headers@),
{
    let mut headers: Vec<Header> = Vec::new();
    headers.push(Header { name: "Connection".to_owned(), value: "close".to_owned() });
    headers.push(Header { name: "content-type".to_owned(), value: "application/json".to_owned() });
    Request { method, path: path.to_owned(), headers, body }
}

/// Whether a status code reports success.
pub open spec fn is_success(status: u16) -> bool {
    200 <= status < 300
}

/// See `is_success`.
pub fn status_is_success(status: u16) -> (r: bool)
    ensures
        r == is_success(status),
{
    200 <= status && status < 300
}

/// How far an exchange has come.
#[derive(Clone, Copy, Debug, PartialEq, Eq, Structural)]
pub enum ExchangePhase {
    /// The request has not been read yet.
    AwaitingRequest,
    /// The request has been read, the response not yet written.
    AwaitingResponse,
    /// The response has been written: the stream is used up.
    Complete,
    /// The exchange broke the protocol, or its channel broke.
    Failed,
}

/// In which way a peer broke the rule of one exchange per stream.
#[derive(Clone, Copy, Debug, PartialEq, Eq, Structural)]
pub enum ProtocolError {
    /// A second request arrived on the stream.
    Pipelined,
    /// A response was offered where no request is waiting for one.
    Unsolicited,
    /// The exchange had failed before.
    Broken,
}

/// What an exchange is, seen from outside.
pub ghost struct ExchangeView {
    pub phase: ExchangePhase,
    /// The requests taken from the stream.
    pub requests: nat,
    /// The responses given to the stream.
    pub responses: nat,
}

impl ExchangeView {
    /// A stream carries one request at most, and a response only to the
    /// request that came before it.
    pub open spec fn wf(self) -> bool {
        &&& self.requests <= 1
        &&& self.responses <= self.requests
        &&& self.phase is AwaitingRequest ==> self.requests == 0
        &&& self.phase is AwaitingResponse ==> self.requests == 1 && self.responses == 0
        &&& self.phase is Complete ==> self.requests == 1 && self.responses == 1
    }

    pub open spec fn failed(self) -> ExchangeView {
        ExchangeView { phase: ExchangePhase::Failed, ..self }
    }
}

/// The single exchange of one stream.
#[derive(Debug)]
pub struct Exchange {
    phase: ExchangePhase,
    requests: u8,
    responses: u8,
}

impl View for Exchange {
    type V = ExchangeView;

    closed spec fn view(&self) -> ExchangeView {
        ExchangeView {
            phase: self.phase,
            requests: self.requests as nat,
            responses: self.responses as nat,
        }
    }
}

impl Exchange {
    #[verifier::type_invariant]
    closed spec fn inv(self) -> bool {
        self@.wf()
    }

    /// The exchange of a fresh stream.
    pub fn new() -> (r: Exchange)
        ensures
            r@ == (ExchangeView { phase: ExchangePhase::AwaitingRequest, requests: 0, responses: 0 }),
    {
        Exchange { phase: ExchangePhase::AwaitingRequest, requests: 0, responses: 0 }
    }

    /// A request has been read from the stream. The first one is taken; one
    /// that follows it is pipelining and breaks the exchange.
    pub fn request_read(&mut self) -> (r: Result<(), ProtocolError>)
        ensures
            final(self)@.wf(),
            match old(self)@.phase {
                ExchangePhase::AwaitingRequest => r is Ok && final(self)@ == (ExchangeView {
                    phase: ExchangePhase::AwaitingResponse,
                    requests: 1,
                    responses: 0,
                }),
                ExchangePhase::Failed => r == Err::<(), ProtocolError>(ProtocolError::Broken)
                    && final(self)@ == old(self)@,
                _ => r == Err::<(), ProtocolError>(ProtocolError::Pipelined) && final(self)@
                    == old(self)@.failed(),
            },
    {
        proof {
            use_type_invariant(&*self);
        }
        match self.phase {
            ExchangePhase::AwaitingRequest => {
                *self = Exchange { phase: ExchangePhase::AwaitingResponse, requests: 1, responses: 0 };
                Ok(())
            },
            ExchangePhase::Failed => Err(ProtocolError::Broken),
            _ => {
                self.phase = ExchangePhase::Failed;
                Err(ProtocolError::Pipelined)
            },
        }
    }

    /// The response has been written to the stream. It is taken where a
    /// request waits for it; anywhere else it breaks the exchange.
    pub fn response_written(&mut self) -> (r: Result<(), ProtocolError>)
        ensures
            final(self)@.wf(),
            match old(self)@.phase {
                ExchangePhase::AwaitingResponse => r is Ok && final(self)@ == (ExchangeView {
                    phase: ExchangePhase::Complete,
                    requests: 1,
                    responses: 1,
                }),
                ExchangePhase::Failed => r == Err::<(), ProtocolError>(ProtocolError::Broken)
                    && final(self)@ == old(self)@,
                _ => r == Err::<(), ProtocolError>(ProtocolError::Unsolicited) && final(self)@
                    == old(self)@.failed(),
            },
    {
        proof {
            use_type_invariant(&*self);
        }
        match self.phase {
            ExchangePhase::AwaitingResponse => {
                *self = Exchange { phase: ExchangePhase::Complete, requests: 1, responses: 1 };
                Ok(())
            },
            ExchangePhase::Failed => Err(ProtocolError::Broken),
            _ => {
                self.phase = ExchangePhase::Failed;
                Err(ProtocolError::Unsolicited)
            },
        }
    }

    /// The channel under the exchange broke.
    pub fn channel_failed(&mut self)
        ensures
            final(self)@.wf(),
            final(self)@ == old(self)@.failed(),
    {
        proof {
            use_type_invariant(&*self);
        }
        self.phase = ExchangePhase::Failed;
    }

    pub fn phase(&self) -> (r: ExchangePhase)
        ensures
            self@.wf(),
            r == self@.phase,
    {
        proof {
            use_type_invariant(self);
        }
        self.phase
    }

    /// Whether the stream is used up: the response is out, or the exchange
    /// has failed.
    pub fn is_over(&self) -> (r: bool)
        ensures
            r == (self@.phase is Complete || self@.phase is Failed),
    {
        self.phase == ExchangePhase::Complete || self.phase == ExchangePhase::Failed
    }
}

} // verus!
