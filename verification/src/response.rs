//! A completed response, and the ways of reading its body.
use crate::buffer::{bytes_as_slice, bytes_from_vec, bytes_view, string_from_utf8};
use crate::error::Error;
use crate::request::{BodyModel, RequestModel};
use bytes::Bytes;
use http::{HeaderMap, HeaderValue, StatusCode};
use std::collections::VecDeque;
use vstd::prelude::*;
use vstd::utf8::{decode_utf8, valid_utf8};

verus! {

/// `http::StatusCode`. A status is carried from the transport to the test
/// as it is; nothing here looks inside.
#[verifier::external_type_specification]
#[verifier::external_body]
pub struct ExStatusCode(StatusCode);

/// `http::header::HeaderValue`, the values of a response's header map.
#[verifier::external_type_specification]
#[verifier::external_body]
pub struct ExHeaderValue(HeaderValue);

/// `http::HeaderMap`. The headers of a response are carried from the
/// transport to the test as they are; nothing here looks inside.
#[verifier::external_type_specification]
#[verifier::external_body]
#[verifier::reject_recursive_types(T)]
pub struct ExHeaderMap<T>(HeaderMap<T>);

/// How far the transport has come with the body of a response.
#[derive(Clone, Copy, Debug, PartialEq, Eq, Structural)]
pub enum Delivery {
    /// More of the body may still arrive.
    Open,
    /// The body has arrived to its end.
    Complete,
    /// The connection broke before the body was complete.
    Broken,
}

/// What a response is to its reader.
pub struct ResponseModel {
    /// The status the server answered with.
    pub status: StatusCode,
    /// The headers it sent.
    pub headers: HeaderMap<HeaderValue>,
    /// The chunks of the body that have arrived and that no one has read
    /// yet, oldest first.
    pub pending: Seq<Seq<u8>>,
    /// How far the transport has come with the body.
    pub delivery: Delivery,
}

impl ResponseModel {
    /// A response whose status and headers have arrived, and nothing of
    /// its body yet.
    pub open spec fn fresh(status: StatusCode, headers: HeaderMap<HeaderValue>) -> ResponseModel {
        ResponseModel { status, headers, pending: Seq::empty(), delivery: Delivery::Open }
    }

    /// The response after one more chunk has arrived. Nothing arrives
    /// after the end of a body.
    pub open spec fn received(self, chunk: Seq<u8>) -> ResponseModel {
        if self.delivery is Open {
            ResponseModel { pending: self.pending.push(chunk), ..self }
        } else {
            self
        }
    }

    /// The response after its body has ended in the given way. A body ends
    /// once.
    pub open spec fn ended(self, broken: bool) -> ResponseModel {
        if self.delivery is Open {
            ResponseModel {
                delivery: if broken {
                    Delivery::Broken
                } else {
                    Delivery::Complete
                },
                ..self
            }
        } else {
            self
        }
    }

    /// Whether a read of a chunk has to wait for the transport: nothing is
    /// pending, and more may arrive.
    pub open spec fn starved(self) -> bool {
        self.delivery is Open && self.pending.len() == 0
    }

    /// What a read finds where the pending chunks end: nothing more at the
    /// end of a complete body, a transport failure where the connection
    /// broke, and an unfinished body where more may arrive.
    pub open spec fn at_end(self) -> Result<(), Error> {
        match self.delivery {
            Delivery::Complete => Ok(()),
            Delivery::Broken => Err(Error::Transport),
            Delivery::Open => Err(Error::Incomplete),
        }
    }

    /// What the next read of a chunk yields: the oldest pending chunk, or
    /// what is found where they end.
    pub open spec fn next_chunk(self) -> Result<Option<Seq<u8>>, Error> {
        if self.pending.len() > 0 {
            Ok(Some(self.pending[0]))
        } else {
            match self.at_end() {
                Ok(()) => Ok(None),
                Err(e) => Err(e),
            }
        }
    }

    /// The response after a read of a chunk: without its oldest pending chunk.
    pub open spec fn after_chunk(self) -> ResponseModel {
        if self.pending.len() > 0 {
            ResponseModel { pending: self.pending.drop_first(), ..self }
        } else {
            self
        }
    }

    /// The whole of the unread body: the pending chunks end to end, if the
    /// body has arrived to its end.
    pub open spec fn body(self) -> Result<Seq<u8>, Error> {
        match self.at_end() {
            Ok(()) => Ok(self.pending.flatten()),
            Err(e) => Err(e),
        }
    }

    /// The unread body as text: a decode failure where it is not UTF-8.
    pub open spec fn body_text(self) -> Result<Seq<char>, Error> {
        match self.body() {
            Ok(bytes) => if valid_utf8(bytes) {
                Ok(decode_utf8(bytes))
            } else {
                Err(Error::Decode)
            },
            Err(e) => Err(e),
        }
    }

    /// What the next read of a chunk as text yields. A chunk that is not
    /// UTF-8 reads as no text, just as the end of the body does.
    pub open spec fn next_chunk_text(self) -> Result<Option<Seq<char>>, Error> {
        match self.next_chunk() {
            Ok(Some(chunk)) => if valid_utf8(chunk) {
                Ok(Some(decode_utf8(chunk)))
            } else {
                Ok(None)
            },
            Ok(None) => Ok(None),
            Err(e) => Err(e),
        }
    }

    /// The bytes that reading chunk after chunk collects until a read
    /// yields no chunk.
    pub open spec fn chunks_joined(self) -> Seq<u8>
        decreases self.pending.len(),
    {
        match self.next_chunk() {
            Ok(Some(chunk)) => chunk + self.after_chunk().chunks_joined(),
            _ => Seq::empty(),
        }
    }

    /// What the first read yields that yields no chunk, when chunk after
    /// chunk is read.
    pub open spec fn chunks_end(self) -> Result<Option<Seq<u8>>, Error>
        decreases self.pending.len(),
    {
        match self.next_chunk() {
            Ok(Some(_)) => self.after_chunk().chunks_end(),
            end => end,
        }
    }
}

/// The contents of each buffer of a queue, in the order of the queue.
pub open spec fn contents(chunks: Seq<Bytes>) -> Seq<Seq<u8>> {
    Seq::new(chunks.len(), |i: int| bytes_view(chunks[i]))
}

/// What a read of a chunk handed out, as plain bytes.
pub open spec fn chunk_read(r: Result<Option<Bytes>, Error>) -> Result<Option<Seq<u8>>, Error> {
    match r {
        Ok(Some(chunk)) => Ok(Some(bytes_view(chunk))),
        Ok(None) => Ok(None),
        Err(e) => Err(e),
    }
}

/// What a read of text handed out, as plain characters.
pub open spec fn text_read(r: Result<Option<String>, Error>) -> Result<Option<Seq<char>>, Error> {
    match r {
        Ok(Some(text)) => Ok(Some(text@)),
        Ok(None) => Ok(None),
        Err(e) => Err(e),
    }
}

/// An HTTP response: status, headers, and what has arrived of the body,
/// chunk by chunk. The transport delivers with `receive` and ends the body
/// with `finish` or `fail`; the test reads.
#[derive(Debug)]
pub struct TestResponse {
    status: StatusCode,
    headers: HeaderMap<HeaderValue>,
    chunks: VecDeque<Bytes>,
    delivery: Delivery,
}

impl View for TestResponse {
    type V = ResponseModel;

    closed spec fn view(&self) -> ResponseModel {
        ResponseModel {
            status: self.status,
            headers: self.headers,
            pending: contents(self.chunks@),
            delivery: self.delivery,
        }
    }
}

impl TestResponse {
    /// Wraps a response whose status and headers have arrived. Its body is
    /// still to be delivered.
    pub fn new(status: StatusCode, headers: HeaderMap<HeaderValue>) -> (r: TestResponse)
        ensures
            r@ == ResponseModel::fresh(status, headers),
    {
        let r = TestResponse {
            status,
            headers,
            chunks: VecDeque::new(),
            delivery: Delivery::Open,
        };
        assert(r@.pending =~= Seq::empty());
        r
    }

    /// Takes the next chunk of the body from the transport. A chunk that
    /// comes after the end of the body is dropped.
    pub fn receive(&mut self, chunk: Bytes)
        ensures
            final(self)@ == old(self)@.received(bytes_view(chunk)),
    {
        match self.delivery {
            Delivery::Open => {
                self.chunks.push_back(chunk);
                assert(self@.pending =~= old(self)@.pending.push(bytes_view(chunk)));
            },
            _ => {},
        }
    }

    /// Notes that the body has arrived to its end.
    pub fn finish(&mut self)
        ensures
            final(self)@ == old(self)@.ended(false),
    {
        match self.delivery {
            Delivery::Open => {
                self.delivery = Delivery::Complete;
            },
            _ => {},
        }
    }

    /// Notes that the connection broke before the body was complete.
    pub fn fail(&mut self)
        ensures
            final(self)@ == old(self)@.ended(true),
    {
        match self.delivery {
            Delivery::Open => {
                self.delivery = Delivery::Broken;
            },
            _ => {},
        }
    }

    /// Whether more of the body may still arrive. Reading the body whole
    /// has to wait until none may.
    pub fn is_open(&self) -> (r: bool)
        ensures
            r == (self@.delivery is Open),
    {
        match self.delivery {
            Delivery::Open => true,
            _ => false,
        }
    }

    /// Whether a read of a chunk has to wait for the transport.
    pub fn is_starved(&self) -> (r: bool)
        ensures
            r == self@.starved(),
    {
        self.is_open() && self.chunks.len() == 0
    }

    /// The status the server answered with.
    pub fn status(&self) -> (r: StatusCode)
        ensures
            r == self@.status,
    {
        self.status
    }

    /// The headers the server sent.
    pub fn headers(&self) -> (r: &HeaderMap<HeaderValue>)
        ensures
            *r == self@.headers,
    {
        &self.headers
    }

    /// Reads the whole of the unread body. It fails as incomplete while
    /// more may arrive, and as a transport failure where the connection
    /// broke.
    pub fn bytes(self) -> (r: Result<Bytes, Error>)
        ensures
            match self@.body() {
                Ok(body) => r is Ok && bytes_view(r->Ok_0) == body,
                Err(e) => r == Err::<Bytes, Error>(e),
            },
    {
        match self.collect() {
            Ok(body) => Ok(bytes_from_vec(body)),
            Err(e) => Err(e),
        }
    }

    /// Reads the whole of the unread body as UTF-8 text.
    pub fn text(self) -> (r: Result<String, Error>)
        ensures
            match self@.body_text() {
                Ok(text) => r is Ok && r->Ok_0@ == text,
                Err(e) => r == Err::<String, Error>(e),
            },
    {
        match self.collect() {
            Ok(body) => match string_from_utf8(body) {
                Some(text) => Ok(text),
                None => Err(Error::Decode),
            },
            Err(e) => Err(e),
        }
    }

    /// Reads the whole of the unread body and decodes it with `decode`,
    /// which yields `None` for a body that is not of the wanted shape. A
    /// body that has not arrived to its end fails before anything is
    /// decoded.
    pub fn json<T, F: FnOnce(Vec<u8>) -> Option<T>>(self, decode: F) -> (r: Result<T, Error>)
        requires
            self@.body() matches Ok(body) ==> forall|bytes: Vec<u8>|
                bytes@ == body ==> decode.requires((bytes,)),
        ensures
            match self@.body() {
                Ok(body) => exists|bytes: Vec<u8>, decoded: Option<T>|
                    bytes@ == body && decode.ensures((bytes,), decoded) && r == match decoded {
                        Some(value) => Ok::<T, Error>(value),
                        None => Err(Error::Decode),
                    },
                Err(e) => r == Err::<T, Error>(e),
            },
    {
        match self.collect() {
            Ok(body) => match decode(body) {
                Some(value) => Ok(value),
                None => Err(Error::Decode),
            },
            Err(e) => Err(e),
        }
    }

    /// Reads the next chunk of the body. Once a complete body is exhausted
    /// every read yields `None`; once a broken one is, every read fails;
    /// and while more may arrive, a read that finds nothing pending fails
    /// as incomplete.
    pub fn chunk(&mut self) -> (r: Result<Option<Bytes>, Error>)
        ensures
            chunk_read(r) == old(self)@.next_chunk(),
            final(self)@ == old(self)@.after_chunk(),
    {
        match self.chunks.pop_front() {
            Some(chunk) => {
                assert(self@.pending =~= old(self)@.pending.drop_first());
                Ok(Some(chunk))
            },
            None => match self.delivery {
                Delivery::Complete => Ok(None),
                Delivery::Broken => Err(Error::Transport),
                Delivery::Open => Err(Error::Incomplete),
            },
        }
    }

    /// Reads the next chunk of the body as UTF-8 text. A chunk that is not
    /// UTF-8 is consumed and reads as `None`, just as the end of the body
    /// does.
    pub fn chunk_text(&mut self) -> (r: Result<Option<String>, Error>)
        ensures
            text_read(r) == old(self)@.next_chunk_text(),
            final(self)@ == old(self)@.after_chunk(),
    {
        match self.chunk() {
            Ok(Some(chunk)) => {
                let bytes = vstd::slice::slice_to_vec(bytes_as_slice(&chunk));
                match string_from_utf8(bytes) {
                    Some(text) => Ok(Some(text)),
                    None => Ok(None),
                }
            },
            Ok(None) => Ok(None),
            Err(e) => Err(e),
        }
    }

    /// Joins the unread chunks of a body that has arrived to its end.
    fn collect(self) -> (r: Result<Vec<u8>, Error>)
        ensures
            match self@.body() {
                Ok(body) => r is Ok && r->Ok_0@ == body,
                Err(e) => r == Err::<Vec<u8>, Error>(e),
            },
    {
        match self.delivery {
            Delivery::Complete => {},
            Delivery::Broken => {
                return Err(Error::Transport);
            },
            Delivery::Open => {
                return Err(Error::Incomplete);
            },
        }
        let ghost all = contents(self.chunks@);
        let mut rest = self.chunks;
        let mut body: Vec<u8> = Vec::new();
        loop
            invariant
                body@ + contents(rest@).flatten() == all.flatten(),
            ensures
                body@ == all.flatten(),
            decreases rest.len(),
        {
            let ghost before = contents(rest@);
            match rest.pop_front() {
                Some(chunk) => {
                    let part = bytes_as_slice(&chunk);
                    body.extend_from_slice(part);
                    assert(contents(rest@) =~= before.drop_first());
                },
                None => {
                    break ;
                },
            }
        }
        Ok(body)
    }
}

/// Reading a response chunk by chunk ends by exhaustion exactly when
/// reading it whole succeeds, and the chunks collected on the way, joined,
/// are then the whole body. Otherwise both ways of reading end in the same
/// failure.
pub proof fn lemma_chunks_join_to_body(response: ResponseModel)
    ensures
        response.chunks_end() == Ok::<Option<Seq<u8>>, Error>(None) <==> response.body() is Ok,
        response.body() is Ok ==> response.body() == Ok::<Seq<u8>, Error>(
            response.chunks_joined(),
        ),
        response.body() matches Err(e) ==> response.chunks_end() == Err::<Option<Seq<u8>>, Error>(
            e,
        ),
    decreases response.pending.len(),
{
    if response.pending.len() > 0 {
        lemma_chunks_join_to_body(response.after_chunk());
    }
}

/// A JSON body that comes back unchanged as the complete body of a
/// response, in whatever chunks, reads whole as the very bytes that were
/// set on the request.
pub proof fn lemma_echoed_json_body_reads_as_sent(
    request: RequestModel,
    encoded: Seq<u8>,
    response: ResponseModel,
)
    requires
        response.delivery is Complete,
        request.with_json(encoded).body == BodyModel::Bytes(response.pending.flatten()),
    ensures
        response.body() == Ok::<Seq<u8>, Error>(encoded),
{
}

/// Reading does not depend on when the rest arrives: where a chunk is
/// pending, a read yields the same and leaves the same behind, whether
/// another chunk or the end of the body arrives before the read or after it.
pub proof fn lemma_reading_commutes_with_delivery(
    response: ResponseModel,
    chunk: Seq<u8>,
    broken: bool,
)
    requires
        response.pending.len() > 0,
    ensures
        response.received(chunk).next_chunk() == response.next_chunk(),
        response.received(chunk).after_chunk() == response.after_chunk().received(chunk),
        response.ended(broken).next_chunk() == response.next_chunk(),
        response.ended(broken).after_chunk() == response.after_chunk().ended(broken),
{
    assert(response.pending.push(chunk).drop_first() =~= response.pending.drop_first().push(
        chunk,
    ));
}

} // verus!
