//! A request in the making, and the request that is handed to the transport.
use crate::error::Error;
use crate::header::{
    accepts_header_value, is_header_name, is_header_value, lemma_normal_name_is_name,
    normal_name, parse_header_name,
};
use reqwest::multipart::Form;
use vstd::prelude::*;
use vstd::slice::slice_to_vec;
use vstd::string::*;

verus! {

/// `reqwest::multipart::Form`. A form is carried from the test to the
/// transport as it is; nothing here looks inside.
#[verifier::external_type_specification]
#[verifier::external_body]
pub struct ExForm(Form);

/// The verbs a harness speaks.
#[derive(Clone, Copy, Debug, PartialEq, Eq, Structural)]
pub enum Method {
    Get,
    Head,
    Post,
    Put,
    Patch,
    Delete,
}

/// One header line: the name in lower case, and the value.
#[derive(Debug)]
pub struct Header {
    pub name: Vec<u8>,
    pub value: Vec<u8>,
}

/// What a request carries.
#[derive(Debug)]
pub enum Body {
    /// Nothing.
    Empty,
    /// These bytes, as they are.
    Bytes(Vec<u8>),
    /// A multipart form. The transport encodes it, and adds the content
    /// type with the form's boundary and, where known, the content length.
    Form(Form),
}

/// A request that is ready to go on the wire.
#[derive(Debug)]
pub struct Request {
    pub method: Method,
    pub url: String,
    /// The headers in the order they were set.
    pub headers: Vec<Header>,
    pub body: Body,
}

/// What a body is to a contract.
pub enum BodyModel {
    Empty,
    Bytes(Seq<u8>),
    Form(Form),
}

/// What a request is to a contract.
pub struct RequestModel {
    pub method: Method,
    pub url: Seq<char>,
    /// Names and values, in the order they were set.
    pub headers: Seq<(Seq<u8>, Seq<u8>)>,
    pub body: BodyModel,
}

/// The name of the header that tells the type of the body.
pub open spec fn content_type() -> Seq<u8> {
    "content-type".spec_bytes()
}

/// The content type of a JSON body.
pub open spec fn application_json() -> Seq<u8> {
    "application/json".spec_bytes()
}

impl RequestModel {
    /// A request with a verb and a URL, and nothing else yet.
    pub open spec fn fresh(method: Method, url: Seq<char>) -> RequestModel {
        RequestModel { method, url, headers: Seq::empty(), body: BodyModel::Empty }
    }

    /// Whether a header of this name, given in lower case, is set.
    pub open spec fn has_header(self, name: Seq<u8>) -> bool {
        exists|i: int| 0 <= i < self.headers.len() && (#[trigger] self.headers[i]).0 == name
    }

    /// The request with one more header, after those already set; or the
    /// failure to make a header of the key and the value. A bad key is
    /// reported before a bad value.
    pub open spec fn with_header(self, key: Seq<u8>, value: Seq<u8>) -> Result<
        RequestModel,
        Error,
    > {
        if !is_header_name(key) {
            Err(Error::InvalidHeaderName)
        } else if !is_header_value(value) {
            Err(Error::InvalidHeaderValue)
        } else {
            Ok(RequestModel { headers: self.headers.push((normal_name(key), value)), ..self })
        }
    }

    /// The request with these bytes as its body.
    pub open spec fn with_body(self, body: Seq<u8>) -> RequestModel {
        RequestModel { body: BodyModel::Bytes(body), ..self }
    }

    /// The request with an encoded JSON value as its body. It is declared
    /// as JSON unless a content type is set already.
    pub open spec fn with_json(self, encoded: Seq<u8>) -> RequestModel {
        RequestModel {
            headers: if self.has_header(content_type()) {
                self.headers
            } else {
                self.headers.push((content_type(), application_json()))
            },
            body: BodyModel::Bytes(encoded),
            ..self
        }
    }

    /// The request with a multipart form as its body.
    pub open spec fn with_form(self, form: Form) -> RequestModel {
        RequestModel { body: BodyModel::Form(form), ..self }
    }

    /// Every header has a valid name, kept in lower case, and a valid value.
    pub open spec fn well_formed(self) -> bool {
        forall|i: int|
            0 <= i < self.headers.len() ==> {
                let header = #[trigger] self.headers[i];
                &&& is_header_name(header.0)
                &&& normal_name(header.0) == header.0
                &&& is_header_value(header.1)
            }
    }
}

impl View for Body {
    type V = BodyModel;

    open spec fn view(&self) -> BodyModel {
        match *self {
            Body::Empty => BodyModel::Empty,
            Body::Bytes(bytes) => BodyModel::Bytes(bytes@),
            Body::Form(form) => BodyModel::Form(form),
        }
    }
}

/// Names and values of a list of headers, as plain bytes.
pub open spec fn header_lines(headers: Seq<Header>) -> Seq<(Seq<u8>, Seq<u8>)> {
    Seq::new(headers.len(), |i: int| (headers[i].name@, headers[i].value@))
}

impl View for Request {
    type V = RequestModel;

    open spec fn view(&self) -> RequestModel {
        RequestModel {
            method: self.method,
            url: self.url@,
            headers: header_lines(self.headers@),
            body: self.body@,
        }
    }
}

/// The header that declares a JSON body is a valid one.
proof fn lemma_json_header_is_valid()
    ensures
        is_header_name(content_type()),
        normal_name(content_type()) == content_type(),
        is_header_value(application_json()),
{
    broadcast use vstd::string::is_ascii_spec_bytes;

    reveal_strlit("content-type");
    reveal_strlit("application/json");
    assert(is_ascii("content-type"));
    assert(is_ascii("application/json"));
}

/// Whether two runs of bytes are the same.
fn same_bytes(a: &[u8], b: &[u8]) -> (r: bool)
    ensures
        r == (a@ == b@),
{
    if a.len() != b.len() {
        return false;
    }
    let mut i: usize = 0;
    while i < a.len()
        invariant
            a.len() == b.len(),
            i <= a.len(),
            forall|j: int| 0 <= j < i ==> a@[j] == b@[j],
        decreases a.len() - i,
    {
        if a[i] != b[i] {
            return false;
        }
        i += 1;
    }
    assert(a@ =~= b@);
    true
}

/// Whether a header of this name, given in lower case, is among `headers`.
fn has_header(headers: &Vec<Header>, name: &[u8]) -> (r: bool)
    ensures
        r == exists|i: int|
            0 <= i < headers.len() && (#[trigger] header_lines(headers@)[i]).0 == name@,
{
    let mut i: usize = 0;
    while i < headers.len()
        invariant
            i <= headers.len(),
            forall|j: int| 0 <= j < i ==> (#[trigger] header_lines(headers@)[j]).0 != name@,
        decreases headers.len() - i,
    {
        if same_bytes(headers[i].name.as_slice(), name) {
            assert(header_lines(headers@)[i as int].0 == name@);
            return true;
        }
        i += 1;
    }
    false
}

/// A request in the making. Each setter takes the builder and gives it
/// back; `send` takes it for good. The first failure to convert a header or
/// a JSON value sticks: later calls change nothing, and `send` reports it.
#[derive(Debug)]
pub struct RequestBuilder {
    state: Result<Request, Error>,
}

impl View for RequestBuilder {
    type V = Result<RequestModel, Error>;

    closed spec fn view(&self) -> Result<RequestModel, Error> {
        match self.state {
            Ok(request) => Ok(request@),
            Err(e) => Err(e),
        }
    }
}

impl RequestBuilder {
    #[verifier::type_invariant]
    spec fn inv(self) -> bool {
        self.state matches Ok(request) ==> request@.well_formed()
    }

    /// A builder for `method` on `url`, with no header and no body.
    pub fn new(method: Method, url: String) -> (r: RequestBuilder)
        ensures
            r@ == Ok::<RequestModel, Error>(RequestModel::fresh(method, url@)),
    {
        let request = Request { method, url, headers: Vec::new(), body: Body::Empty };
        assert(request@.headers =~= Seq::empty());
        RequestBuilder { state: Ok(request) }
    }

    /// Finishes the builder: the request to put on the wire, or the failure
    /// that stuck while it was built. A request that comes out has valid
    /// headers only.
    pub fn send(self) -> (r: Result<Request, Error>)
        ensures
            match self@ {
                Ok(request) => r is Ok && r->Ok_0@ == request && request.well_formed(),
                Err(e) => r == Err::<Request, Error>(e),
            },
    {
        proof {
            use_type_invariant(&self);
        }
        self.state
    }

    /// Sets the body to `body`, in place of any body set before.
    pub fn body(self, body: Vec<u8>) -> (r: RequestBuilder)
        ensures
            r@ == match self@ {
                Ok(request) => Ok(request.with_body(body@)),
                Err(e) => Err(e),
            },
    {
        proof {
            use_type_invariant(&self);
        }
        match self.state {
            Ok(request) => {
                let request = Request {
                    method: request.method,
                    url: request.url,
                    headers: request.headers,
                    body: Body::Bytes(body),
                };
                RequestBuilder { state: Ok(request) }
            },
            Err(e) => RequestBuilder { state: Err(e) },
        }
    }

    /// Sets the body to a value encoded as JSON, and declares it as JSON
    /// unless a content type is set already. `encoded` is the value as
    /// serialized by the caller, `None` where that failed.
    pub fn json(self, encoded: Option<Vec<u8>>) -> (r: RequestBuilder)
        ensures
            r@ == match (self@, encoded) {
                (Ok(request), Some(bytes)) => Ok(request.with_json(bytes@)),
                (Ok(_), None) => Err(Error::Serialize),
                (Err(e), _) => Err(e),
            },
    {
        proof {
            use_type_invariant(&self);
        }
        match self.state {
            Ok(request) => match encoded {
                Some(bytes) => {
                    let ghost before = request@;
                    let mut headers = request.headers;
                    if !has_header(&headers, "content-type".as_bytes()) {
                        headers.push(
                            Header {
                                name: slice_to_vec("content-type".as_bytes()),
                                value: slice_to_vec("application/json".as_bytes()),
                            },
                        );
                        proof {
                            lemma_json_header_is_valid();
                            assert(header_lines(headers@) =~= before.headers.push(
                                (content_type(), application_json()),
                            ));
                        }
                    }
                    let request = Request {
                        method: request.method,
                        url: request.url,
                        headers,
                        body: Body::Bytes(bytes),
                    };
                    RequestBuilder { state: Ok(request) }
                },
                None => RequestBuilder { state: Err(Error::Serialize) },
            },
            Err(e) => RequestBuilder { state: Err(e) },
        }
    }

    /// Adds a header after those already set. The name is kept in lower
    /// case. A key or a value that makes no header fails the builder.
    pub fn header(self, key: &[u8], value: &[u8]) -> (r: RequestBuilder)
        ensures
            r@ == match self@ {
                Ok(request) => request.with_header(key@, value@),
                Err(e) => Err(e),
            },
    {
        proof {
            use_type_invariant(&self);
        }
        match self.state {
            Ok(request) => match parse_header_name(key) {
                Some(name) => {
                    if accepts_header_value(value) {
                        let ghost before = request@;
                        let mut headers = request.headers;
                        headers.push(Header { name, value: slice_to_vec(value) });
                        proof {
                            lemma_normal_name_is_name(key@);
                            assert(header_lines(headers@) =~= before.headers.push(
                                (normal_name(key@), value@),
                            ));
                        }
                        let request = Request {
                            method: request.method,
                            url: request.url,
                            headers,
                            body: request.body,
                        };
                        RequestBuilder { state: Ok(request) }
                    } else {
                        RequestBuilder { state: Err(Error::InvalidHeaderValue) }
                    }
                },
                None => RequestBuilder { state: Err(Error::InvalidHeaderName) },
            },
            Err(e) => RequestBuilder { state: Err(e) },
        }
    }

    /// Sets the body to a multipart form, in place of any body set before.
    pub fn multipart(self, form: Form) -> (r: RequestBuilder)
        ensures
            r@ == match self@ {
                Ok(request) => Ok(request.with_form(form)),
                Err(e) => Err(e),
            },
    {
        proof {
            use_type_invariant(&self);
        }
        match self.state {
            Ok(request) => {
                let request = Request {
                    method: request.method,
                    url: request.url,
                    headers: request.headers,
                    body: Body::Form(form),
                };
                RequestBuilder { state: Ok(request) }
            },
            Err(e) => RequestBuilder { state: Err(e) },
        }
    }
}

} // verus!
