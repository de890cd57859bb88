//! The taxonomy of failures of a remote call, its single-line wire form, and the contract
//! that an application's own error type meets to travel the same way.

pub use crate::url_error::ServerFnUrlError;

use crate::text::{debug_quote, debug_quoted, is_first_at, lemma_first_unique, split_once,
    split_once_spec, text_eq};
use vstd::prelude::*;

verus! {

/// Name of the header that marks a response as carrying an error; its value is the path of
/// the call that failed.
pub const SERVER_FN_ERROR_HEADER: &'static str = "serverfnerror";

/// The phase of a remote call in which a failure arose.
#[derive(Debug, Clone, Copy, PartialEq, Eq, PartialOrd, Ord, Hash, Structural)]
pub enum ErrorKind {
    /// The call could not be registered.
    Registration,
    /// The remote side could not be reached.
    Request,
    /// The remote side failed to construct a response.
    Response,
    /// The call ran and raised an application-level failure.
    ServerError,
    /// The caller failed to decode the remote side's result.
    Deserialization,
    /// The caller failed to encode the arguments before sending.
    Serialization,
    /// The remote side failed to decode one or more received arguments.
    Args,
    /// The remote side required an argument that was absent.
    MissingArg,
}

impl ErrorKind {
    /// The literal tag that opens the wire form of an error of this kind.
    pub open spec fn tag_text(self) -> Seq<char> {
        match self {
            ErrorKind::Registration => "Registration"@,
            ErrorKind::Request => "Request"@,
            ErrorKind::Response => "Response"@,
            ErrorKind::ServerError => "ServerError"@,
            ErrorKind::Deserialization => "Deserialization"@,
            ErrorKind::Serialization => "Serialization"@,
            ErrorKind::Args => "Args"@,
            ErrorKind::MissingArg => "MissingArg"@,
        }
    }

    /// The kind whose tag is `tag`, where there is one.
    pub open spec fn of_tag(tag: Seq<char>) -> Option<ErrorKind> {
        if tag == "Registration"@ {
            Some(ErrorKind::Registration)
        } else if tag == "Request"@ {
            Some(ErrorKind::Request)
        } else if tag == "Response"@ {
            Some(ErrorKind::Response)
        } else if tag == "ServerError"@ {
            Some(ErrorKind::ServerError)
        } else if tag == "Deserialization"@ {
            Some(ErrorKind::Deserialization)
        } else if tag == "Serialization"@ {
            Some(ErrorKind::Serialization)
        } else if tag == "Args"@ {
            Some(ErrorKind::Args)
        } else if tag == "MissingArg"@ {
            Some(ErrorKind::MissingArg)
        } else {
            None
        }
    }

    /// What a human reads before the payload of an error of this kind.
    pub open spec fn preamble(self) -> Seq<char> {
        match self {
            ErrorKind::Registration => "error while trying to register the server function: "@,
            ErrorKind::Request => "error reaching server to call server function: "@,
            ErrorKind::Response => "error creating response "@,
            ErrorKind::ServerError => "error running server function: "@,
            ErrorKind::Deserialization => "error deserializing server function results: "@,
            ErrorKind::Serialization => "error serializing server function arguments: "@,
            ErrorKind::Args => "error deserializing server function arguments: "@,
            ErrorKind::MissingArg => "missing argument "@,
        }
    }

    /// The literal tag that opens the wire form of an error of this kind.
    pub fn tag(self) -> (tag: &'static str)
        ensures
            tag@ == self.tag_text(),
    {
        match self {
            ErrorKind::Registration => "Registration",
            ErrorKind::Request => "Request",
            ErrorKind::Response => "Response",
            ErrorKind::ServerError => "ServerError",
            ErrorKind::Deserialization => "Deserialization",
            ErrorKind::Serialization => "Serialization",
            ErrorKind::Args => "Args",
            ErrorKind::MissingArg => "MissingArg",
        }
    }

    /// The kind whose tag is `tag`; `None` for any other text.
    pub fn from_tag(tag: &str) -> (kind: Option<ErrorKind>)
        ensures
            kind == ErrorKind::of_tag(tag@),
    {
        if text_eq(tag, "Registration") {
            Some(ErrorKind::Registration)
        } else if text_eq(tag, "Request") {
            Some(ErrorKind::Request)
        } else if text_eq(tag, "Response") {
            Some(ErrorKind::Response)
        } else if text_eq(tag, "ServerError") {
            Some(ErrorKind::ServerError)
        } else if text_eq(tag, "Deserialization") {
            Some(ErrorKind::Deserialization)
        } else if text_eq(tag, "Serialization") {
            Some(ErrorKind::Serialization)
        } else if text_eq(tag, "Args") {
            Some(ErrorKind::Args)
        } else if text_eq(tag, "MissingArg") {
            Some(ErrorKind::MissingArg)
        } else {
            None
        }
    }

    fn preamble_str(self) -> (text: &'static str)
        ensures
            text@ == self.preamble(),
    {
        match self {
            ErrorKind::Registration => "error while trying to register the server function: ",
            ErrorKind::Request => "error reaching server to call server function: ",
            ErrorKind::Response => "error creating response ",
            ErrorKind::ServerError => "error running server function: ",
            ErrorKind::Deserialization => "error deserializing server function results: ",
            ErrorKind::Serialization => "error serializing server function arguments: ",
            ErrorKind::Args => "error deserializing server function arguments: ",
            ErrorKind::MissingArg => "missing argument ",
        }
    }
}

/// An error as the contracts see it: its kind and the characters of its payload.
pub struct ErrorView {
    pub kind: ErrorKind,
    pub payload: Seq<char>,
}

/// The wire form of an error: tag, a bar, payload.
pub open spec fn wire_text(err: ErrorView) -> Seq<char> {
    err.kind.tag_text() + seq!['|'] + err.payload
}

/// What a human reads for an error: the preamble of its kind, then the payload.
pub open spec fn display_text(err: ErrorView) -> Seq<char> {
    err.kind.preamble() + err.payload
}

/// The error that reports a text as no wire form, given the text in quotes.
pub open spec fn reported_undecodable(quoted: Seq<char>) -> ErrorView {
    ErrorView { kind: ErrorKind::Deserialization, payload: "Could not deserialize error "@ + quoted }
}

/// What a text that is no wire form decodes to: the error that reports it, in quotes.
pub open spec fn undecodable(text: Seq<char>) -> ErrorView {
    reported_undecodable(debug_quoted(text))
}

/// What a text decodes to. The first bar parts tag from payload, so the payload may hold bars
/// of its own; a text without a bar, or with an unknown tag before it, is reported as a
/// failure to deserialize.
pub open spec fn decode_text(text: Seq<char>) -> ErrorView {
    match split_once_spec(text, '|') {
        Some((tag, payload)) => match ErrorKind::of_tag(tag) {
            Some(kind) => ErrorView { kind, payload },
            None => undecodable(text),
        },
        None => undecodable(text),
    }
}

/// Everything that can go wrong with a remote call, each with a human-readable payload.
#[derive(Debug, Eq, PartialOrd, Ord, Hash)]
pub enum ServerFnErrorErr {
    /// The call could not be registered.
    Registration(String),
    /// The remote side could not be reached.
    Request(String),
    /// The remote side failed to construct a response.
    Response(String),
    /// The call ran and raised an application-level failure.
    ServerError(String),
    /// The caller failed to decode the remote side's result.
    Deserialization(String),
    /// The caller failed to encode the arguments before sending.
    Serialization(String),
    /// The remote side failed to decode one or more received arguments.
    Args(String),
    /// The remote side required an argument that was absent.
    MissingArg(String),
}

impl View for ServerFnErrorErr {
    type V = ErrorView;

    open spec fn view(&self) -> ErrorView {
        match self {
            ServerFnErrorErr::Registration(s) => ErrorView { kind: ErrorKind::Registration, payload: s@ },
            ServerFnErrorErr::Request(s) => ErrorView { kind: ErrorKind::Request, payload: s@ },
            ServerFnErrorErr::Response(s) => ErrorView { kind: ErrorKind::Response, payload: s@ },
            ServerFnErrorErr::ServerError(s) => ErrorView { kind: ErrorKind::ServerError, payload: s@ },
            ServerFnErrorErr::Deserialization(s) => ErrorView {
                kind: ErrorKind::Deserialization,
                payload: s@,
            },
            ServerFnErrorErr::Serialization(s) => ErrorView { kind: ErrorKind::Serialization, payload: s@ },
            ServerFnErrorErr::Args(s) => ErrorView { kind: ErrorKind::Args, payload: s@ },
            ServerFnErrorErr::MissingArg(s) => ErrorView { kind: ErrorKind::MissingArg, payload: s@ },
        }
    }
}

impl PartialEq for ServerFnErrorErr {
    fn eq(&self, other: &Self) -> (same: bool) {
        self.kind() == other.kind() && text_eq(self.payload(), other.payload())
    }
}

impl vstd::std_specs::cmp::PartialEqSpecImpl for ServerFnErrorErr {
    open spec fn obeys_eq_spec() -> bool {
        true
    }

    /// Two errors are equal where they are of one kind and carry the same text.
    open spec fn eq_spec(&self, other: &Self) -> bool {
        self@ == other@
    }
}

impl Clone for ServerFnErrorErr {
    fn clone(&self) -> (copy: Self)
        ensures
            copy == *self,
    {
        match self {
            ServerFnErrorErr::Registration(s) => ServerFnErrorErr::Registration(s.clone()),
            ServerFnErrorErr::Request(s) => ServerFnErrorErr::Request(s.clone()),
            ServerFnErrorErr::Response(s) => ServerFnErrorErr::Response(s.clone()),
            ServerFnErrorErr::ServerError(s) => ServerFnErrorErr::ServerError(s.clone()),
            ServerFnErrorErr::Deserialization(s) => ServerFnErrorErr::Deserialization(s.clone()),
            ServerFnErrorErr::Serialization(s) => ServerFnErrorErr::Serialization(s.clone()),
            ServerFnErrorErr::Args(s) => ServerFnErrorErr::Args(s.clone()),
            ServerFnErrorErr::MissingArg(s) => ServerFnErrorErr::MissingArg(s.clone()),
        }
    }
}

impl ServerFnErrorErr {
    /// The error of the given kind with the given payload.
    pub fn new(kind: ErrorKind, payload: String) -> (err: Self)
        ensures
            err@ == (ErrorView { kind, payload: payload@ }),
    {
        match kind {
            ErrorKind::Registration => ServerFnErrorErr::Registration(payload),
            ErrorKind::Request => ServerFnErrorErr::Request(payload),
            ErrorKind::Response => ServerFnErrorErr::Response(payload),
            ErrorKind::ServerError => ServerFnErrorErr::ServerError(payload),
            ErrorKind::Deserialization => ServerFnErrorErr::Deserialization(payload),
            ErrorKind::Serialization => ServerFnErrorErr::Serialization(payload),
            ErrorKind::Args => ServerFnErrorErr::Args(payload),
            ErrorKind::MissingArg => ServerFnErrorErr::MissingArg(payload),
        }
    }

    /// The phase in which the failure arose.
    pub fn kind(&self) -> (kind: ErrorKind)
        ensures
            kind == self@.kind,
    {
        match self {
            ServerFnErrorErr::Registration(_) => ErrorKind::Registration,
            ServerFnErrorErr::Request(_) => ErrorKind::Request,
            ServerFnErrorErr::Response(_) => ErrorKind::Response,
            ServerFnErrorErr::ServerError(_) => ErrorKind::ServerError,
            ServerFnErrorErr::Deserialization(_) => ErrorKind::Deserialization,
            ServerFnErrorErr::Serialization(_) => ErrorKind::Serialization,
            ServerFnErrorErr::Args(_) => ErrorKind::Args,
            ServerFnErrorErr::MissingArg(_) => ErrorKind::MissingArg,
        }
    }

    /// The text that the error carries.
    pub fn payload(&self) -> (payload: &str)
        ensures
            payload@ == self@.payload,
    {
        match self {
            ServerFnErrorErr::Registration(s) => s.as_str(),
            ServerFnErrorErr::Request(s) => s.as_str(),
            ServerFnErrorErr::Response(s) => s.as_str(),
            ServerFnErrorErr::ServerError(s) => s.as_str(),
            ServerFnErrorErr::Deserialization(s) => s.as_str(),
            ServerFnErrorErr::Serialization(s) => s.as_str(),
            ServerFnErrorErr::Args(s) => s.as_str(),
            ServerFnErrorErr::MissingArg(s) => s.as_str(),
        }
    }

    /// The wire form of the error. Encoding is string building and cannot fail.
    pub fn encode(&self) -> (line: String)
        ensures
            line@ == wire_text(self@),
    {
        let mut line = String::from_str(self.kind().tag());
        proof {
            reveal_strlit("|");
        }
        line.append("|");
        line.append(self.payload());
        assert(line@ =~= wire_text(self@));
        line
    }

    /// The error that a text stands for. Decoding is total: what is no wire form comes back
    /// as a `Deserialization` error that quotes the text.
    pub fn decode(data: &str) -> (err: Self)
        ensures
            err@ == decode_text(data@),
    {
        match split_once(data, '|') {
            Some((tag, payload)) => match ErrorKind::from_tag(tag) {
                Some(kind) => ServerFnErrorErr::new(kind, String::from_str(payload)),
                None => ServerFnErrorErr::could_not_deserialize(debug_quote(data).as_str()),
            },
            None => ServerFnErrorErr::could_not_deserialize(debug_quote(data).as_str()),
        }
    }

    /// The error that reports a text as no wire form. It takes the text as it is to be
    /// shown, in quotes: a `Deserialization` error that says `Could not deserialize error`
    /// and then the quoted text.
    pub fn could_not_deserialize(quoted: &str) -> (err: Self)
        ensures
            err@ == reported_undecodable(quoted@),
    {
        let mut message = String::from_str("Could not deserialize error ");
        message.append(quoted);
        ServerFnErrorErr::Deserialization(message)
    }

    /// The message for a human: what went wrong, then the payload.
    pub fn to_text(&self) -> (message: String)
        ensures
            message@ == display_text(self@),
    {
        let mut message = String::from_str(self.kind().preamble_str());
        message.append(self.payload());
        message
    }
}

/// `std::fmt::Error`, which an encoder returns when it cannot write.
#[verifier::external_type_specification]
#[verifier::external_body]
pub struct ExFmtError(std::fmt::Error);

/// A wire codec for an error type: one line of text out, one line of text in.
///
/// The contract of an implementation is what `wire` and `decoded_from` say, and it binds the
/// implementation where `obeys_serde_spec` holds. An implementation that was not verified
/// leaves the three as they are, and nothing is then claimed of it.
pub trait ServerFnErrorSerde: Sized {
    /// Whether `ser` and `de` keep to `wire` and `decoded_from`.
    open spec fn obeys_serde_spec() -> bool {
        false
    }

    /// The wire form of the value, where it has one.
    open spec fn wire(&self) -> Option<Seq<char>> {
        arbitrary()
    }

    /// Whether the value is what `data` decodes to.
    open spec fn decoded_from(&self, data: Seq<char>) -> bool {
        true
    }

    /// Converts the error to its wire form.
    fn ser(&self) -> (line: Result<String, std::fmt::Error>)
        ensures
            Self::obeys_serde_spec() ==> match self.wire() {
                Some(w) => line matches Ok(s) && s@ == w,
                None => line is Err,
            },
    ;

    /// Reads an error back from a wire form. Never fails: a text that is no wire form comes
    /// back as a value that says so.
    fn de(data: &str) -> (value: Self)
        ensures
            Self::obeys_serde_spec() ==> value.decoded_from(data@),
    ;
}

impl ServerFnErrorSerde for ServerFnErrorErr {
    open spec fn obeys_serde_spec() -> bool {
        true
    }

    open spec fn wire(&self) -> Option<Seq<char>> {
        Some(wire_text(self@))
    }

    open spec fn decoded_from(&self, data: Seq<char>) -> bool {
        self@ == decode_text(data)
    }

    fn ser(&self) -> (line: Result<String, std::fmt::Error>) {
        Ok(self.encode())
    }

    fn de(data: &str) -> (value: Self) {
        ServerFnErrorErr::decode(data)
    }
}

/// What an application's own error type provides to cross the boundary: it is built from any
/// error of the taxonomy, it renders to text, and it has a wire codec.
///
/// The contract of an implementation is what `converted_from` and `text` say, and it binds
/// the implementation where `obeys_error_spec` holds. An implementation that was not verified
/// leaves the three as they are, and nothing is then claimed of it.
pub trait CustomServerFnError: ServerFnErrorSerde {
    /// Whether `from_server_fn_error` and `to_text` keep to `converted_from` and `text`.
    open spec fn obeys_error_spec() -> bool {
        false
    }

    /// Whether the value is what the taxonomy error `err` converts to.
    open spec fn converted_from(&self, err: ErrorView) -> bool {
        true
    }

    /// The text that the value renders to.
    open spec fn text(&self) -> Seq<char> {
        arbitrary()
    }

    /// The value of this type that stands for an error of the taxonomy.
    fn from_server_fn_error(err: ServerFnErrorErr) -> (value: Self)
        ensures
            Self::obeys_error_spec() ==> value.converted_from(err@),
    ;

    /// The value rendered for a human.
    fn to_text(&self) -> (message: String)
        ensures
            Self::obeys_error_spec() ==> message@ == self.text(),
    ;
}

impl CustomServerFnError for ServerFnErrorErr {
    open spec fn obeys_error_spec() -> bool {
        true
    }

    open spec fn converted_from(&self, err: ErrorView) -> bool {
        self@ == err
    }

    open spec fn text(&self) -> Seq<char> {
        display_text(self@)
    }

    fn from_server_fn_error(err: ServerFnErrorErr) -> (value: Self) {
        err
    }

    fn to_text(&self) -> (message: String) {
        ServerFnErrorErr::to_text(self)
    }
}

/// Whether an error type keeps to its contract, in its codec and in its rendering.
pub open spec fn keeps_contract<E: CustomServerFnError>() -> bool {
    E::obeys_serde_spec() && E::obeys_error_spec()
}

/// The text that stands for a value where a single line is asked for: its wire form, or,
/// where encoding fails, its rendering.
pub open spec fn line_of<E: CustomServerFnError>(err: &E) -> Seq<char> {
    match err.wire() {
        Some(w) => w,
        None => err.text(),
    }
}

/// Wire form of `err`, or its rendering where encoding fails.
pub fn wire_or_text<E: CustomServerFnError>(err: &E) -> (line: String)
    ensures
        keeps_contract::<E>() ==> line@ == line_of(err),
{
    match err.ser() {
        Ok(line) => line,
        Err(_) => err.to_text(),
    }
}

/// An outcome of the library in terms of an application's error type: a success passes as
/// it is, a failure becomes the application's error that stands for it.
pub fn into_custom<T, E: CustomServerFnError>(outcome: Result<T, ServerFnErrorErr>) -> (out: Result<
    T,
    E,
>)
    ensures
        match outcome {
            Ok(content) => out == Ok::<T, E>(content),
            Err(err) => out matches Err(value) && (E::obeys_error_spec() ==> value.converted_from(
                err@,
            )),
        },
{
    match outcome {
        Ok(content) => Ok(content),
        Err(err) => Err(E::from_server_fn_error(err)),
    }
}

/// A value on its way to becoming an error of the taxonomy.
#[derive(Debug)]
pub struct WrapError<T>(pub T);

/// Conversion of a wrapped value into an error of the taxonomy. A wrapped taxonomy error is
/// taken as it is; wrapped text becomes the payload of a `ServerError`. No other type of
/// value converts.
pub trait ViaError {
    /// The error that the value converts to.
    spec fn server_error(&self) -> ErrorView;

    /// Converts something into an error.
    fn to_server_error(&self) -> (err: ServerFnErrorErr)
        ensures
            err@ == self.server_error(),
    ;
}

impl ViaError for WrapError<ServerFnErrorErr> {
    open spec fn server_error(&self) -> ErrorView {
        self.0@
    }

    fn to_server_error(&self) -> (err: ServerFnErrorErr) {
        self.0.clone()
    }
}

impl ViaError for WrapError<String> {
    open spec fn server_error(&self) -> ErrorView {
        ErrorView { kind: ErrorKind::ServerError, payload: self.0@ }
    }

    fn to_server_error(&self) -> (err: ServerFnErrorErr) {
        ServerFnErrorErr::ServerError(self.0.clone())
    }
}

impl<'a> ViaError for WrapError<&'a str> {
    open spec fn server_error(&self) -> ErrorView {
        ErrorView { kind: ErrorKind::ServerError, payload: self.0@ }
    }

    fn to_server_error(&self) -> (err: ServerFnErrorErr) {
        ServerFnErrorErr::ServerError(String::from_str(self.0))
    }
}

/// A tag holds no bar, and no two kinds share a tag.
pub proof fn lemma_tags(kind: ErrorKind)
    ensures
        !kind.tag_text().contains('|'),
        ErrorKind::of_tag(kind.tag_text()) == Some(kind),
{
    reveal_strlit("Registration");
    reveal_strlit("Request");
    reveal_strlit("Response");
    reveal_strlit("ServerError");
    reveal_strlit("Deserialization");
    reveal_strlit("Serialization");
    reveal_strlit("Args");
    reveal_strlit("MissingArg");
    assert("Registration"@.len() == 12);
    assert("Request"@.len() == 7);
    assert("Response"@.len() == 8);
    assert("ServerError"@.len() == 11);
    assert("Deserialization"@.len() == 15);
    assert("Serialization"@.len() == 13);
    assert("Args"@.len() == 4);
    assert("MissingArg"@.len() == 10);
}

/// Round trip: the wire form of an error decodes to that error, whatever its kind and payload.
pub proof fn lemma_decode_encode(err: ErrorView)
    ensures
        decode_text(wire_text(err)) == err,
{
    let tag = err.kind.tag_text();
    let line = wire_text(err);
    let at = tag.len() as int;
    lemma_tags(err.kind);
    assert forall|j: int| 0 <= j < at implies line[j] != '|' by {
        assert(line[j] == tag[j]);
    }
    assert(is_first_at(line, '|', at));
    lemma_first_unique(line, '|', at, choose|i: int| is_first_at(line, '|', i));
    assert(line.take(at) =~= tag);
    assert(line.skip(at + 1) =~= err.payload);
}

/// Total decode: whatever the text, decoding gives an error. A text without a bar, the empty
/// text among them, and a text with anything but a known tag before its first bar decode to
/// a `Deserialization` error whose payload quotes the text.
pub proof fn lemma_decode_malformed(text: Seq<char>)
    ensures
        !text.contains('|') ==> decode_text(text) == undecodable(text),
        split_once_spec(text, '|') matches Some((tag, _)) && ErrorKind::of_tag(tag).is_none()
            ==> decode_text(text) == undecodable(text),
        decode_text(Seq::empty()) == undecodable(Seq::empty()),
        undecodable(text).kind == ErrorKind::Deserialization,
{
    assert(!Seq::<char>::empty().contains('|'));
    assert(split_once_spec(Seq::<char>::empty(), '|').is_none());
}

} // verus!
