//! The server core on top of the `ws` transport: the handler callbacks of a
//! connection, phrased over the transport's own handshake, message and error
//! values.
//!
//! The transport's values are opaque here. Each function takes out of them
//! what the core decides on, lets the core decide, and puts the answer back
//! into the form the transport expects. What the transport computes from a
//! value has a name, so that every answer is stated over the core's own
//! decisions and those names; nothing is known of a name but that the
//! transport gives the same result for the same values.

use vstd::prelude::*;
use crate::callback::Invocation;
use crate::error::ForgeError;
use crate::gate::{offers_protocol, FORGE_PROTOCOL, MAX_CONNECTIONS};
use crate::session::{
    close_kind, message_outcome, ClientMessage, CloseKind, ConnectionSession, ForgeHandler,
};

verus! {

/// `ws::Request`: the handshake request of a peer. Opaque.
#[verifier::external_type_specification]
#[verifier::external_body]
pub struct ExRequest(ws::Request);

/// `ws::Response`: the handshake response sent to a peer. Opaque.
#[verifier::external_type_specification]
#[verifier::external_body]
pub struct ExResponse(ws::Response);

/// `ws::Error`: the failure value of the transport. Opaque.
#[verifier::external_type_specification]
#[verifier::external_body]
pub struct ExTransportError(ws::Error);

/// `ws::Message`: a text or binary message of the transport. Opaque.
#[verifier::external_type_specification]
#[verifier::external_body]
pub struct ExTransportMessage(ws::Message);

/// `ws::CloseCode`: the status code of a closing frame. Opaque.
#[verifier::external_type_specification]
#[verifier::external_body]
pub struct ExCloseCode(ws::CloseCode);

/// `ws::Settings`: the settings a transport is built with. Opaque.
#[verifier::external_type_specification]
#[verifier::external_body]
pub struct ExSettings(ws::Settings);

/// What `ws::Request::protocols` returns for a request: the subprotocols
/// listed in its `Sec-WebSocket-Protocol` header, or the transport's error.
pub uninterp spec fn request_offer(req: ws::Request) -> Result<Seq<Seq<char>>, ws::Error>;

/// What `ws::Response::from_request` returns for a request: the response
/// that accepts its handshake, or the transport's error.
pub uninterp spec fn built_response(req: ws::Request) -> Result<ws::Response, ws::Error>;

/// What `ws::Response::set_protocol` makes of a response: the response with
/// `protocol` as its selected subprotocol.
pub uninterp spec fn with_protocol(response: ws::Response, protocol: Seq<char>) -> ws::Response;

/// What `ws::Error::new` returns for the kind `Protocol` and the text
/// `details`.
pub uninterp spec fn protocol_failure(details: Seq<char>) -> ws::Error;

/// What the two variants of `ws::Message` hold: the text of a text message,
/// the bytes of a binary one.
pub uninterp spec fn message_content(msg: ws::Message) -> ClientMessage;

/// What `Into<u16>` of `ws::CloseCode` returns: the number of a close code.
pub uninterp spec fn close_number(code: ws::CloseCode) -> u16;

/// What `ws::Settings::default` returns once its `max_connections` is set
/// to the given number.
pub uninterp spec fn settings_for(max_connections: usize) -> ws::Settings;

/// A list of offered subprotocols, or the error in its place, with every
/// subprotocol taken as its sequence of characters.
pub open spec fn offer_view(r: Result<Vec<String>, ws::Error>) -> Result<
    Seq<Seq<char>>,
    ws::Error,
> {
    match r {
        Ok(offered) => Ok(offered.deep_view()),
        Err(e) => Err(e),
    }
}

/// `ws::Request::protocols`: the subprotocols listed in the request's
/// `Sec-WebSocket-Protocol` header, or the transport's error if the header is
/// not valid UTF-8. The contract gives the result its name and claims
/// nothing else of it.
#[verifier::external_body]
fn offered_protocols(req: &ws::Request) -> (r: Result<Vec<String>, ws::Error>)
    ensures
        offer_view(r) == request_offer(*req),
{
    let offered = req.protocols()?;
    Ok(offered.into_iter().map(String::from).collect())
}

/// `ws::Response::from_request`: the response that accepts the handshake of
/// `req`, or the transport's error if the request carries no key. The
/// contract gives the result its name and claims nothing else of it.
#[verifier::external_body]
fn accepting_response(req: &ws::Request) -> (r: Result<ws::Response, ws::Error>)
    ensures
        r == built_response(*req),
{
    ws::Response::from_request(req)
}

/// `ws::Response::set_protocol`: names `protocol` as the selected subprotocol
/// in the response. The contract gives the response afterwards its name and
/// claims nothing else of it.
#[verifier::external_body]
fn select_protocol(response: &mut ws::Response, protocol: &str)
    ensures
        *final(response) == with_protocol(*old(response), protocol@),
{
    response.set_protocol(protocol)
}

/// `ws::Error::new` with the kind `Protocol`: the transport's protocol error
/// with `details` as its text. The contract gives the error its name and
/// claims nothing else of it.
#[verifier::external_body]
fn protocol_error(details: &str) -> (e: ws::Error)
    ensures
        e == protocol_failure(details@),
{
    ws::Error::new(ws::ErrorKind::Protocol, details.to_string())
}

/// Tells the two variants of `ws::Message` apart and moves the content over
/// unchanged. The contract gives the result its name and claims nothing else
/// of it.
#[verifier::external_body]
fn received(msg: ws::Message) -> (m: ClientMessage)
    ensures
        m == message_content(msg),
{
    match msg {
        ws::Message::Text(text) => ClientMessage::Text(text),
        ws::Message::Binary(packet) => ClientMessage::Binary(packet),
    }
}

/// `Into<u16>` of `ws::CloseCode`: the number of the close code. The contract
/// gives the number its name and claims nothing else of it.
#[verifier::external_body]
fn close_code_number(code: ws::CloseCode) -> (n: u16)
    ensures
        n == close_number(code),
{
    code.into()
}

/// `ws::Settings::default` with `max_connections` replaced. The contract
/// gives the settings their name and claims nothing else of them.
#[verifier::external_body]
fn settings_with_ceiling(max_connections: usize) -> (s: ws::Settings)
    ensures
        s == settings_for(max_connections),
{
    let mut settings = ws::Settings::default();
    settings.max_connections = max_connections;
    settings
}

/// The answer to a handshake, given what the peer offered and what the
/// transport built as the accepting response. With the token among the
/// offered subprotocols it is the response that was built, the token
/// selected in it, or else the error that stood in the way of building it.
/// Without the token it is the protocol error that says so.
pub open spec fn handshake_answer(
    offered: Seq<Seq<char>>,
    built: Result<ws::Response, ws::Error>,
) -> Result<ws::Response, ws::Error> {
    if offers_protocol(offered) {
        match built {
            Ok(fresh) => Ok(with_protocol(fresh, FORGE_PROTOCOL@)),
            Err(e) => Err(e),
        }
    } else {
        Err(protocol_failure(ForgeError::ProtocolNotFound.message()))
    }
}

/// The answer to a handshake request: that of [`handshake_answer`] for what
/// the request offers, or the transport's error where the offer cannot be
/// read.
pub open spec fn request_answer(req: ws::Request) -> Result<ws::Response, ws::Error> {
    match request_offer(req) {
        Ok(offered) => handshake_answer(offered, built_response(req)),
        Err(e) => Err(e),
    }
}

/// The settings the transport is built with: its defaults, but with the
/// connection ceiling of this server.
pub fn server_settings() -> (s: ws::Settings)
    ensures
        s == settings_for(MAX_CONNECTIONS),
{
    settings_with_ceiling(MAX_CONNECTIONS)
}

/// The transport's error for a failure of the core: a protocol error that
/// carries the failure's text.
pub fn failure(error: ForgeError) -> (e: ws::Error)
    ensures
        e == protocol_failure(error.message()),
{
    protocol_error(error.details())
}

/// Answers a handshake request: reads the offered subprotocols out of it,
/// has the transport build the accepting response, and goes on as
/// [`answer_handshake`] does. The handshake succeeds exactly if the offer
/// can be read, the token is in it, and the response was built; the session
/// then dispatches to the handler's descriptor and comes with that response,
/// the token selected in it. A handshake that fails leaves no session, and
/// its error is the one [`request_answer`] tells.
pub fn on_request(handler: &ForgeHandler, req: &ws::Request) -> (r: Result<
    (ConnectionSession, ws::Response),
    ws::Error,
>)
    ensures
        r is Ok <==> (request_offer(*req) matches Ok(offered) && offers_protocol(offered))
            && built_response(*req) is Ok,
        r matches Ok(accepted) ==> accepted.0.callback() == handler.callback() && request_answer(
            *req,
        ) == Ok::<ws::Response, ws::Error>(accepted.1),
        r matches Err(e) ==> request_answer(*req) == Err::<ws::Response, ws::Error>(e),
{
    match offered_protocols(req) {
        Ok(offered) => answer_handshake(handler, &offered, accepting_response(req)),
        Err(e) => Err(e),
    }
}

/// Answers the handshake of a peer that offered `offered`, given what the
/// transport built as the accepting response. The handshake succeeds exactly
/// if the token is among the offered subprotocols and the response was
/// built; the session then dispatches to the handler's descriptor and comes
/// with that response, the token selected in it. If only the response is
/// missing, the transport's own error is handed on as it is. Without the
/// token the answer is the transport's protocol error, whatever response was
/// built.
pub fn answer_handshake(
    handler: &ForgeHandler,
    offered: &Vec<String>,
    built: Result<ws::Response, ws::Error>,
) -> (r: Result<(ConnectionSession, ws::Response), ws::Error>)
    ensures
        r is Ok <==> offers_protocol(offered.deep_view()) && built is Ok,
        r matches Ok(accepted) ==> accepted.0.callback() == handler.callback() && handshake_answer(
            offered.deep_view(),
            built,
        ) == Ok::<ws::Response, ws::Error>(accepted.1),
        r matches Err(e) ==> handshake_answer(offered.deep_view(), built) == Err::<
            ws::Response,
            ws::Error,
        >(e),
{
    match handler.on_request(offered) {
        Ok(session) => {
            match built {
                Ok(mut response) => {
                    select_protocol(&mut response, session.protocol());
                    Ok((session, response))
                },
                Err(e) => Err(e),
            }
        },
        Err(e) => Err(failure(e)),
    }
}

/// Handles one message of the transport. A binary message is delivered to
/// the session's callback: the call that is due comes back, or none where
/// the descriptor has no dispatch function. A text message fails with the
/// transport's protocol error that carries the failure's text.
pub fn on_message(session: &ConnectionSession, msg: ws::Message) -> (r: Result<
    Option<Invocation>,
    ws::Error,
>)
    ensures
        message_outcome(message_content(msg)) matches Ok(packet) ==> r matches Ok(call)
            && session.callback().delivers(packet, call),
        message_outcome(message_content(msg)) matches Err(e) ==> r matches Err(f) && f
            == protocol_failure(e.message()),
{
    match session.on_message(received(msg)) {
        Ok(call) => Ok(call),
        Err(e) => Err(failure(e)),
    }
}

/// Ends a session whose connection was closed with `code`, and tells what
/// kind of close the number of that code stands for.
pub fn on_close(session: ConnectionSession, code: ws::CloseCode) -> (kind: CloseKind)
    ensures
        kind == close_kind(close_number(code)),
{
    session.on_close(close_code_number(code))
}

/// A handshake goes by the token alone. Whenever the offer of a request can
/// be read and the transport builds the response, the answer is that
/// response with the token selected if the token was offered, and the
/// protocol error if it was not; a request whose offer cannot be read fails
/// with the transport's error.
pub proof fn lemma_handshake_goes_by_the_token(req: ws::Request)
    ensures
        request_offer(req) matches Ok(offered) ==> (built_response(req) matches Ok(fresh) ==> (
        offers_protocol(offered) ==> request_answer(req) == Ok::<ws::Response, ws::Error>(
            with_protocol(fresh, FORGE_PROTOCOL@),
        ))),
        request_offer(req) matches Ok(offered) ==> (!offers_protocol(offered) ==> request_answer(
            req,
        ) == Err::<ws::Response, ws::Error>(
            protocol_failure(ForgeError::ProtocolNotFound.message()),
        )),
        request_offer(req) matches Err(e) ==> request_answer(req) == Err::<
            ws::Response,
            ws::Error,
        >(e),
        request_answer(req) is Ok <==> (request_offer(req) matches Ok(offered) && offers_protocol(
            offered,
        )) && built_response(req) is Ok,
{
}

} // verus!
