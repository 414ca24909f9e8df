//! HTTP requests and replies as plain values, and the rules on status codes
//! and headers.
use vstd::prelude::*;

verus! {

/// A name with a text: a header of a request, or an entry of a form or of a
/// flat JSON object.
#[derive(Debug)]
pub struct Field {
    pub name: String,
    pub value: String,
}

impl View for Field {
    type V = (Seq<char>, Seq<char>);

    open spec fn view(&self) -> (Seq<char>, Seq<char>) {
        (self.name@, self.value@)
    }
}

/// The fields of a list, in order.
pub open spec fn fields(list: Seq<Field>) -> Seq<(Seq<char>, Seq<char>)> {
    list.map_values(|field: Field| field@)
}

#[derive(Clone, Copy, Debug, PartialEq, Eq, Structural)]
pub enum Method {
    Get,
    Post,
}

/// The body of a request.
#[derive(Debug)]
pub enum Payload {
    Empty,
    /// A JSON object whose members are strings.
    Json(Vec<Field>),
    /// A URL-encoded form.
    Form(Vec<Field>),
    /// Bytes as they are.
    Raw(Vec<u8>),
}

pub enum PayloadView {
    Empty,
    Json(Seq<(Seq<char>, Seq<char>)>),
    Form(Seq<(Seq<char>, Seq<char>)>),
    Raw(Seq<u8>),
}

impl View for Payload {
    type V = PayloadView;

    open spec fn view(&self) -> PayloadView {
        match self {
            Payload::Empty => PayloadView::Empty,
            Payload::Json(list) => PayloadView::Json(fields(list@)),
            Payload::Form(list) => PayloadView::Form(fields(list@)),
            Payload::Raw(bytes) => PayloadView::Raw(bytes@),
        }
    }
}

/// A request to be sent. `bearer` is the token of the `Authorization` header.
#[derive(Debug)]
pub struct HttpRequest {
    pub method: Method,
    pub url: String,
    pub bearer: Option<String>,
    pub headers: Vec<Field>,
    pub payload: Payload,
}

pub struct HttpRequestView {
    pub method: Method,
    pub url: Seq<char>,
    pub bearer: Option<Seq<char>>,
    pub headers: Seq<(Seq<char>, Seq<char>)>,
    pub payload: PayloadView,
}

impl View for HttpRequest {
    type V = HttpRequestView;

    open spec fn view(&self) -> HttpRequestView {
        HttpRequestView {
            method: self.method,
            url: self.url@,
            bearer: crate::config::opt_text(self.bearer),
            headers: fields(self.headers@),
            payload: self.payload@,
        }
    }
}

/// A header of a reply. Names are in lower case.
#[derive(Debug)]
pub struct Header {
    pub name: String,
    pub value: Vec<u8>,
}

/// The status codes of success.
pub open spec fn success(status: u16) -> bool {
    200 <= status < 300
}

/// The status codes that put the fault on the server.
pub open spec fn server_error(status: u16) -> bool {
    500 <= status < 600
}

pub fn is_success(status: u16) -> (yes: bool)
    ensures
        yes == success(status),
{
    200 <= status && status < 300
}

pub fn is_server_error(status: u16) -> (yes: bool)
    ensures
        yes == server_error(status),
{
    500 <= status && status < 600
}

/// A header that describes the transfer from the backend and is wrong of the
/// reply that the relay writes.
pub open spec fn stale(name: Seq<char>) -> bool {
    ||| name == "transfer-encoding"@
    ||| name == "content-encoding"@
    ||| name == "content-length"@
}

fn is_stale(name: &String) -> (yes: bool)
    ensures
        yes == stale(name@),
{
    *name == "transfer-encoding".to_owned() || *name == "content-encoding".to_owned() || *name
        == "content-length".to_owned()
}

/// The headers of a backend reply that the relay passes on, in their order.
pub fn passthrough_headers(headers: Vec<Header>) -> (kept: Vec<Header>)
    ensures
        kept@ == headers@.filter(|header: Header| !stale(header.name@)),
{
    let ghost keep = |header: Header| !stale(header.name@);
    let mut kept: Vec<Header> = Vec::new();
    proof {
        reveal(Seq::filter);
    }
    for header in it: headers
        invariant
            it.seq() == headers@,
            keep == (|header: Header| !stale(header.name@)),
            kept@ == it.seq().take(it.index() as int).filter(keep),
    {
        proof {
            reveal(Seq::filter);
            let at = it.index() as int;
            assert(it.seq().take(at + 1).drop_last() =~= it.seq().take(at));
        }
        if !is_stale(&header.name) {
            kept.push(header);
        }
    }
    assert(headers@.take(headers@.len() as int) =~= headers@);
    kept
}

/// A field with the given name and value.
pub(crate) fn field(name: &str, value: &str) -> (made: Field)
    ensures
        made@ == (name@, value@),
{
    Field { name: name.to_owned(), value: value.to_owned() }
}

/// No header that describes the transfer from the backend is passed on, and
/// every other one is.
pub proof fn stale_headers_are_dropped(headers: Seq<Header>, header: Header)
    ensures
        headers.filter(|h: Header| !stale(h.name@)).contains(header) <==> headers.contains(header)
            && !stale(header.name@),
    decreases headers.len(),
{
    reveal(Seq::filter);
    let keep = |h: Header| !stale(h.name@);
    let kept = headers.filter(keep);
    if headers.len() > 0 {
        let init = headers.drop_last();
        let last = headers.last();
        stale_headers_are_dropped(init, header);
        assert(headers =~= init.push(last));
        assert(init.push(last).contains(header) <==> init.contains(header) || last == header) by {
            broadcast use vstd::seq_lib::group_seq_properties;

        }
        if keep(last) {
            assert(kept == init.filter(keep).push(last));
            assert(kept.contains(header) <==> init.filter(keep).contains(header) || last == header)
                by {
                broadcast use vstd::seq_lib::group_seq_properties;

            }
        }
    }
}

} // verus!
