//! The client that prepares the dispatch of an email and judges how it went.

use crate::domain::subscriber_email::SubscriberEmail;
use secrecy::{ExposeSecret, Secret};
use vstd::prelude::*;

verus! {

/// An authorization secret: a string held in a `secrecy::Secret`, which keeps
/// it out of debug output and wipes it from memory when it is dropped.
///
/// Nothing is known of what is inside but through [`secret_text`].
#[verifier::external_body]
#[derive(Debug)]
pub struct SecretToken {
    secret: Secret<String>,
}

/// The string that `token` guards: the one it was made from.
pub uninterp spec fn secret_text(token: SecretToken) -> Seq<char>;

/// Calls `Secret::new`.
///
/// Trusted: the secret guards the string it was given. `Secret::new` moves
/// its argument into the one field of the secret.
#[verifier::external_body]
fn guard_secret(raw: String) -> (token: SecretToken)
    ensures
        secret_text(token) == raw@,
{
    SecretToken { secret: Secret::new(raw) }
}

/// Calls `ExposeSecret::expose_secret`, the one way to read a secret.
///
/// Trusted: what comes out is the guarded string. The method hands out a
/// reference to the field that `Secret::new` filled.
#[verifier::external_body]
fn expose_secret(token: &SecretToken) -> (raw: &String)
    ensures
        raw@ == secret_text(*token),
{
    token.secret.expose_secret()
}

impl View for SecretToken {
    type V = Seq<char>;

    open spec fn view(&self) -> Seq<char> {
        secret_text(*self)
    }
}

impl SecretToken {
    /// Takes ownership of `raw` and guards it from here on.
    pub fn new(raw: String) -> (token: SecretToken)
        ensures
            token@ == raw@,
    {
        guard_secret(raw)
    }
}

/// How long the transport waits for a response, in seconds.
pub const REQUEST_TIMEOUT_SECS: u64 = 10;

/// The payload of one message.
pub struct SendEmailRequest {
    pub from: String,
    pub to: String,
    pub subject: String,
    pub html_body: String,
    pub text_body: String,
}

/// What a [`SendEmailRequest`] holds.
pub struct SendEmailRequestView {
    pub from: Seq<char>,
    pub to: Seq<char>,
    pub subject: Seq<char>,
    pub html_body: Seq<char>,
    pub text_body: Seq<char>,
}

impl View for SendEmailRequest {
    type V = SendEmailRequestView;

    open spec fn view(&self) -> SendEmailRequestView {
        SendEmailRequestView {
            from: self.from@,
            to: self.to@,
            subject: self.subject@,
            html_body: self.html_body@,
            text_body: self.text_body@,
        }
    }
}

/// The members of the JSON object that the provider expects, in the order in
/// which they are written: each name, as the provider spells it, with its
/// value.
pub open spec fn wire_form(payload: SendEmailRequestView) -> Seq<(Seq<char>, Seq<char>)> {
    seq![
        ("From"@, payload.from),
        ("To"@, payload.to),
        ("Subject"@, payload.subject),
        ("HtmlBody"@, payload.html_body),
        ("TextBody"@, payload.text_body),
    ]
}

impl SendEmailRequest {
    /// The payload as the members of a JSON object: [`wire_form`].
    pub fn wire_fields(&self) -> (members: Vec<(&'static str, &str)>)
        ensures
            members.deep_view() == wire_form(self@),
    {
        let mut members: Vec<(&'static str, &str)> = Vec::new();
        members.push(("From", self.from.as_str()));
        members.push(("To", self.to.as_str()));
        members.push(("Subject", self.subject.as_str()));
        members.push(("HtmlBody", self.html_body.as_str()));
        members.push(("TextBody", self.text_body.as_str()));
        assert(members.deep_view() =~= wire_form(self@));
        members
    }
}

/// One HTTP request for the transport to issue: all that goes on the wire,
/// and how long to wait for the answer.
///
/// It has no `Debug`: its headers hold the authorization secret in the clear.
pub struct HttpRequest {
    pub method: String,
    pub url: String,
    pub headers: Vec<(String, String)>,
    pub body: SendEmailRequest,
    pub timeout_secs: u64,
}

/// What an [`HttpRequest`] holds.
pub struct HttpRequestView {
    pub method: Seq<char>,
    pub url: Seq<char>,
    pub headers: Seq<(Seq<char>, Seq<char>)>,
    pub body: SendEmailRequestView,
    pub timeout_secs: u64,
}

impl View for HttpRequest {
    type V = HttpRequestView;

    open spec fn view(&self) -> HttpRequestView {
        HttpRequestView {
            method: self.method@,
            url: self.url@,
            headers: self.headers.deep_view(),
            body: self.body@,
            timeout_secs: self.timeout_secs,
        }
    }
}

/// What an [`EmailClient`] holds.
pub struct EmailClientView {
    pub base_url: Seq<char>,
    pub sender: Seq<char>,
    pub authorization_token: Seq<char>,
}

/// The request that delivers one message from `client.sender` to `recipient`:
/// a POST to the provider's `/email` endpoint, as JSON, under the client's
/// secret.
pub open spec fn dispatch_request(
    client: EmailClientView,
    recipient: Seq<char>,
    subject: Seq<char>,
    html_content: Seq<char>,
    text_content: Seq<char>,
) -> HttpRequestView {
    HttpRequestView {
        method: "POST"@,
        url: client.base_url + "/email"@,
        headers: seq![
            ("Content-Type"@, "application/json"@),
            ("X-Postmark-Server-Token"@, client.authorization_token),
        ],
        body: SendEmailRequestView {
            from: client.sender,
            to: recipient,
            subject,
            html_body: html_content,
            text_body: text_content,
        },
        timeout_secs: REQUEST_TIMEOUT_SECS,
    }
}

/// Every request of one client goes to the same place under the same headers,
/// and its payload holds the arguments of its own call: two calls have the
/// same payload only where they were given the same arguments.
pub proof fn lemma_payload_is_of_its_own_call(
    client: EmailClientView,
    first: (Seq<char>, Seq<char>, Seq<char>, Seq<char>),
    second: (Seq<char>, Seq<char>, Seq<char>, Seq<char>),
)
    ensures
        ({
            let one = dispatch_request(client, first.0, first.1, first.2, first.3);
            let other = dispatch_request(client, second.0, second.1, second.2, second.3);
            &&& one.body.from == client.sender
            &&& one.body.to == first.0
            &&& one.body.subject == first.1
            &&& one.body.html_body == first.2
            &&& one.body.text_body == first.3
            &&& (one.body == other.body <==> first == second)
            &&& one.method == other.method
            &&& one.url == other.url
            &&& one.headers == other.headers
            &&& one.timeout_secs == other.timeout_secs
        }),
{
}

/// Sends email through the provider's HTTP API, one request for each message.
///
/// The client is made once and never changes: it can be shared by any number
/// of callers.
pub struct EmailClient {
    base_url: String,
    sender: SubscriberEmail,
    authorization_token: SecretToken,
}

impl View for EmailClient {
    type V = EmailClientView;

    closed spec fn view(&self) -> EmailClientView {
        EmailClientView {
            base_url: self.base_url@,
            sender: self.sender@,
            authorization_token: self.authorization_token@,
        }
    }
}

impl EmailClient {
    /// Keeps the three values as they are. `base_url` is not looked at: a
    /// malformed one shows when the transport is asked to issue a request.
    pub fn new(
        base_url: String,
        sender: SubscriberEmail,
        authorization_token: SecretToken,
    ) -> (client: EmailClient)
        ensures
            client@ == (EmailClientView {
                base_url: base_url@,
                sender: sender@,
                authorization_token: authorization_token@,
            }),
    {
        EmailClient { base_url, sender, authorization_token }
    }

    /// Prepares the dispatch of one message to `recipient`: the single request
    /// that the transport is to issue, once.
    ///
    /// The secret is read here, where the header is made, and nowhere else.
    pub fn send_email(
        &self,
        recipient: SubscriberEmail,
        subject: &str,
        html_content: &str,
        text_content: &str,
    ) -> (request: HttpRequest)
        ensures
            request@ == dispatch_request(
                self@,
                recipient@,
                subject@,
                html_content@,
                text_content@,
            ),
    {
        let mut url = self.base_url.clone();
        url.append("/email");
        let body = SendEmailRequest {
            from: self.sender.to_string(),
            to: recipient.to_string(),
            subject: subject.to_owned(),
            html_body: html_content.to_owned(),
            text_body: text_content.to_owned(),
        };
        let mut headers: Vec<(String, String)> = Vec::new();
        headers.push(("Content-Type".to_owned(), "application/json".to_owned()));
        headers.push(
            ("X-Postmark-Server-Token".to_owned(), expose_secret(&self.authorization_token).clone()),
        );
        let request = HttpRequest {
            method: "POST".to_owned(),
            url,
            headers,
            body,
            timeout_secs: REQUEST_TIMEOUT_SECS,
        };
        assert(request@.headers =~= dispatch_request(
            self@,
            recipient@,
            subject@,
            html_content@,
            text_content@,
        ).headers);
        request
    }
}

/// What the transport saw of its one attempt to issue a request.
#[derive(Debug, Clone, Copy, PartialEq, Eq)]
pub enum TransportOutcome {
    /// A response arrived in time, with this status code.
    Responded { status: u16 },
    /// No response arrived within the timeout.
    TimedOut,
    /// The request could not be built or carried: a bad URL, DNS, connection,
    /// TLS.
    Failed,
}

/// Why a message was not delivered.
#[derive(Debug, Clone, Copy, PartialEq, Eq)]
pub enum SendError {
    /// The request never got a response, for a reason other than time.
    Transport,
    /// The wait for a response ran out.
    Timeout,
    /// The provider answered with a status outside the 2xx range.
    HttpStatus { code: u16 },
}

/// A status code of the 2xx range.
pub open spec fn is_success(status: u16) -> bool {
    200 <= status <= 299
}

/// Judges one attempt: a 2xx response is a delivery, anything else a failure
/// that says what happened. The body of the response is never looked at, and
/// nothing is tried again.
pub fn delivery_result(outcome: TransportOutcome) -> (result: Result<(), SendError>)
    ensures
        result is Ok <==> (outcome matches TransportOutcome::Responded { status } && is_success(
            status,
        )),
        result == Err::<(), SendError>(SendError::Timeout) <==> outcome is TimedOut,
        result == Err::<(), SendError>(SendError::Transport) <==> outcome is Failed,
        forall|code: u16|
            result == Err::<(), SendError>(SendError::HttpStatus { code }) <==> (outcome
                == TransportOutcome::Responded { status: code } && !is_success(code)),
{
    match outcome {
        TransportOutcome::Responded { status } => {
            if 200 <= status && status <= 299 {
                Ok(())
            } else {
                Err(SendError::HttpStatus { code: status })
            }
        },
        TransportOutcome::TimedOut => Err(SendError::Timeout),
        TransportOutcome::Failed => Err(SendError::Transport),
    }
}

} // verus!
