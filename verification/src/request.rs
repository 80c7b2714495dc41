//! Requests as plain values: the verb, the URL and what the body is made of.
//! The caller sends them; nothing here touches the network.

use vstd::prelude::*;
use vstd::string::*;

verus! {

/// The verbs that the client uses.
#[derive(Debug, Clone, Copy, PartialEq, Eq, Structural)]
pub enum Method {
    Get,
    Post,
    Put,
}

/// One text field of a form, or one pair of a query.
#[derive(Debug, Clone, PartialEq, Eq)]
pub struct FormField {
    pub name: String,
    pub value: String,
}

impl View for FormField {
    type V = (Seq<char>, Seq<char>);

    open spec fn view(&self) -> (Seq<char>, Seq<char>) {
        (self.name@, self.value@)
    }
}

/// The names and values of a list of fields, in order.
pub open spec fn field_pairs(fields: Seq<FormField>) -> Seq<(Seq<char>, Seq<char>)> {
    fields.map_values(|field: FormField| field@)
}

/// What a request carries.
#[derive(Debug, Clone, PartialEq, Eq)]
pub enum Payload {
    /// No body.
    Empty,
    /// A multipart form of text fields.
    Form(Vec<FormField>),
    /// A multipart form with one part of this name, streamed from the file.
    FilePart(String),
    /// The bytes of the file, streamed as they are.
    FileStream,
}

/// A payload with its texts as sequences of characters.
pub enum PayloadView {
    Empty,
    Form(Seq<(Seq<char>, Seq<char>)>),
    FilePart(Seq<char>),
    FileStream,
}

impl View for Payload {
    type V = PayloadView;

    open spec fn view(&self) -> PayloadView {
        match self {
            Payload::Empty => PayloadView::Empty,
            Payload::Form(fields) => PayloadView::Form(field_pairs(fields@)),
            Payload::FilePart(name) => PayloadView::FilePart(name@),
            Payload::FileStream => PayloadView::FileStream,
        }
    }
}

/// A request that is ready to be sent.
#[derive(Debug, Clone, PartialEq, Eq)]
pub struct Request {
    pub method: Method,
    pub url: String,
    pub payload: Payload,
}

/// A request with its texts as sequences of characters.
pub struct RequestView {
    pub method: Method,
    pub url: Seq<char>,
    pub payload: PayloadView,
}

impl View for Request {
    type V = RequestView;

    open spec fn view(&self) -> RequestView {
        RequestView { method: self.method, url: self.url@, payload: self.payload@ }
    }
}

/// Where a download is written.
#[derive(Debug, Clone, PartialEq, Eq)]
pub enum Destination {
    /// The path that the caller gave.
    Path(String),
    /// A file of this name in the client's download directory.
    DownloadDir(String),
}

/// A destination with its texts as sequences of characters.
pub enum DestinationView {
    Path(Seq<char>),
    DownloadDir(Seq<char>),
}

impl View for Destination {
    type V = DestinationView;

    open spec fn view(&self) -> DestinationView {
        match self {
            Destination::Path(path) => DestinationView::Path(path@),
            Destination::DownloadDir(name) => DestinationView::DownloadDir(name@),
        }
    }
}

/// A request whose answer is written to a file.
#[derive(Debug, Clone, PartialEq, Eq)]
pub struct Download {
    pub request: Request,
    pub output: Destination,
}

/// Makes a form field from two texts.
pub fn form_field(name: &str, value: &str) -> (r: FormField)
    ensures
        r@ == (name@, value@),
{
    FormField { name: name.to_owned(), value: value.to_owned() }
}

} // verus!
