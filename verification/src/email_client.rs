use vstd::prelude::*;
use reqwest::Client;
use secrecy::{ExposeSecret, Secret};
use std::time::Duration;

verus! {

/// An email with a required address.
#[derive(Debug)]
pub struct Email<'a> {
    pub email: &'a str,
}

/// The body of an email with the content type and the message.
#[derive(Debug)]
pub struct Content<'a> {
    pub content_type: &'a str,
    pub value: &'a str,
}

impl<'a> Clone for Email<'a> {
    /// A copy of the same address.
    fn clone(&self) -> (copy: Self)
        ensures
            copy == *self,
    {
        Email { email: self.email }
    }
}

impl<'a> Clone for Content<'a> {
    /// A copy with the same type and value.
    fn clone(&self) -> (copy: Self)
        ensures
            copy == *self,
    {
        Content { content_type: self.content_type, value: self.value }
    }
}

impl<'a> Default for Content<'a> {
    /// Content with an empty type and an empty value.
    fn default() -> (content: Self)
        ensures
            content.content_type@ == Seq::<char>::empty(),
            content.value@ == Seq::<char>::empty(),
    {
        proof {
            reveal_strlit("");
        }
        Content { content_type: "", value: "" }
    }
}

/// A personalization block for a V3 message. It has to at least contain one email as a to
/// address. All other fields are optional.
#[derive(Debug)]
pub struct Personalization<'a> {
    pub to: Vec<Email<'a>>,
    pub cc: Option<Vec<Email<'a>>>,
    pub bcc: Option<Vec<Email<'a>>>,
    pub subject: Option<String>,
}

/// The main structure for a V3 API mail send call. This is composed of many other smaller
/// structures used to add lots of customization to your message.
#[derive(Debug)]
pub struct Message<'a> {
    pub from: Email<'a>,
    pub subject: &'a str,
    pub personalizations: Vec<Personalization<'a>>,
    pub content: Option<Vec<Content<'a>>>,
}

/// The content type under which the plain-text body travels.
pub const TEXT_PLAIN: &'static str = "text/plain";

/// The content type under which the HTML body travels.
pub const TEXT_HTML: &'static str = "text/html";

/// `m` is the message that `sender` sends to the single address `recipient`: one
/// personalization with no copies and no subject of its own, and the text body
/// followed by the HTML body.
pub open spec fn is_message_for(
    m: Message,
    sender: Seq<char>,
    recipient: Seq<char>,
    subject: Seq<char>,
    html_content: Seq<char>,
    text_content: Seq<char>,
) -> bool {
    &&& m.from.email@ == sender
    &&& m.subject@ == subject
    &&& m.personalizations@.len() == 1
    &&& m.personalizations@[0].to@.len() == 1
    &&& m.personalizations@[0].to@[0].email@ == recipient
    &&& m.personalizations@[0].cc is None
    &&& m.personalizations@[0].bcc is None
    &&& m.personalizations@[0].subject is None
    &&& m.content matches Some(c) && {
        &&& c@.len() == 2
        &&& c@[0].content_type@ == TEXT_PLAIN@
        &&& c@[0].value@ == text_content
        &&& c@[1].content_type@ == TEXT_HTML@
        &&& c@[1].value@ == html_content
    }
}

/// Puts together the mail-send body for one recipient.
pub fn build_message<'a>(
    sender: &'a str,
    recipient: &'a str,
    subject: &'a str,
    html_content: &'a str,
    text_content: &'a str,
) -> (m: Message<'a>)
    ensures
        is_message_for(m, sender@, recipient@, subject@, html_content@, text_content@),
        m.from.email@ == sender@,
        m.subject@ == subject@,
        m.personalizations@.len() == 1,
        m.personalizations@[0].to@.len() == 1,
        m.personalizations@[0].to@[0].email@ == recipient@,
        m.personalizations@[0].cc is None,
        m.personalizations@[0].bcc is None,
        m.personalizations@[0].subject is None,
        m.content is Some,
        m.content.unwrap()@.len() == 2,
        m.content.unwrap()@[0].content_type@ == "text/plain"@,
        m.content.unwrap()@[0].value@ == text_content@,
        m.content.unwrap()@[1].content_type@ == "text/html"@,
        m.content.unwrap()@[1].value@ == html_content@,
{
    let personalization = Personalization {
        to: vec![Email { email: recipient }],
        cc: None,
        bcc: None,
        subject: None,
    };
    Message {
        from: Email { email: sender },
        subject,
        personalizations: vec![personalization],
        content: Some(vec![
            Content { content_type: TEXT_PLAIN, value: text_content },
            Content { content_type: TEXT_HTML, value: html_content },
        ]),
    }
}


/// reqwest's HTTP client, carried as it is: nothing inside it is read here.
#[verifier::external_type_specification]
#[verifier::external_body]
pub struct ExClient(reqwest::Client);

/// The total timeout that a reqwest client applies to each of its requests: the one
/// given to `ClientBuilder::timeout` when the client was built.
pub uninterp spec fn client_timeout(client: Client) -> Duration;

/// `<reqwest::Client as Clone>::clone`: the copy shares the original's inner client (an
/// `Arc`), so it applies the same request timeout. Nothing else is claimed of it.
pub assume_specification[ <reqwest::Client as Clone>::clone ](client: &reqwest::Client) -> (copy: reqwest::Client)
    ensures
        client_timeout(copy) == client_timeout(*client),
;

/// reqwest's error type, handed back to callers untouched.
#[verifier::external_type_specification]
#[verifier::external_body]
pub struct ExReqwestError(reqwest::Error);

/// The API token, kept in a `secrecy::Secret` so that it is wiped from memory when
/// dropped and never shown by `Debug`.
#[verifier::external_body]
pub struct ApiToken {
    secret: Secret<String>,
}

/// The text that an `ApiToken` holds.
pub uninterp spec fn token_text(token: ApiToken) -> Seq<char>;

impl Clone for ApiToken {
    /// Calls `Clone::clone` of `secrecy::Secret<String>`, which clones the held string;
    /// claimed: the copy holds the same text.
    #[verifier::external_body]
    fn clone(&self) -> (copy: Self)
        ensures
            token_text(copy) == token_text(*self),
    {
        ApiToken { secret: self.secret.clone() }
    }
}

impl ApiToken {
    /// Calls `secrecy::Secret::new`, which takes ownership of `text` and keeps it as the
    /// secret's value; claimed: the token then holds exactly `text`.
    #[verifier::external_body]
    fn wrap(text: String) -> (token: ApiToken)
        ensures
            token_text(token) == text@,
    {
        ApiToken { secret: Secret::new(text) }
    }

    /// Puts `text` away as a token: from here on it is wiped from memory when the token is
    /// dropped.
    pub fn new(text: String) -> (token: ApiToken)
        ensures
            token_text(token) == text@,
    {
        Self::wrap(text)
    }

    /// Calls `secrecy::ExposeSecret::expose_secret`, which hands back a reference to the
    /// value that the secret was made with; claimed: that value is the token's text.
    #[verifier::external_body]
    fn expose(&self) -> (text: &String)
        ensures
            text@ == token_text(*self),
    {
        self.secret.expose_secret()
    }
}

/// Calls `reqwest::Client::builder()`, then `ClientBuilder::timeout(timeout)` and
/// `ClientBuilder::build()`. Claimed: a client that is built applies `timeout` to every
/// request (`timeout` stores it in the builder's config, `build` copies it into the
/// client, and each request is given it). Whether `build` fails depends on the machine
/// (its proxy settings and TLS backend), so nothing is claimed of when it fails.
#[verifier::external_body]
fn client_with_timeout(timeout: Duration) -> (built: Result<Client, reqwest::Error>)
    ensures
        built matches Ok(c) ==> client_timeout(c) == timeout,
{
    Client::builder().timeout(timeout).build()
}

/// The path, under the provider's base URL, that mails are posted to.
pub const SEND_PATH: &'static str = "/send";

/// The content type of the request body.
pub const JSON_CONTENT_TYPE: &'static str = "application/json";

/// The HTTP method of a mail-send call.
pub const SEND_METHOD: &'static str = "POST";

/// A mail-send call, ready to be sent: the HTTP method, the URL, the `Content-Type`
/// header, the token for the `Authorization: Bearer` header, and the body to be sent as
/// JSON.
pub struct SendRequest<'a> {
    pub method: &'static str,
    pub url: String,
    pub content_type: &'static str,
    pub bearer_token: &'a str,
    pub body: Message<'a>,
}

/// `request` is the call that sends the mail (`recipient`, `subject`, `html_content`,
/// `text_content`) through a client with base URL `base_url`, sender `sender` and token
/// `token`: a `POST` of JSON to the base URL followed by `/send`, authorized by the token,
/// with the message for that mail as its body.
pub open spec fn is_request_for(
    request: SendRequest,
    base_url: Seq<char>,
    sender: Seq<char>,
    token: Seq<char>,
    recipient: Seq<char>,
    subject: Seq<char>,
    html_content: Seq<char>,
    text_content: Seq<char>,
) -> bool {
    &&& request.method@ == SEND_METHOD@
    &&& request.url@ == base_url + SEND_PATH@
    &&& request.content_type@ == JSON_CONTENT_TYPE@
    &&& request.bearer_token@ == token
    &&& is_message_for(request.body, sender, recipient, subject, html_content, text_content)
}

/// The addresses of a list of emails.
pub open spec fn email_addresses(emails: Seq<Email>) -> Seq<Seq<char>> {
    emails.map_values(|e: Email| e.email@)
}

/// The addresses of an optional list of emails.
pub open spec fn optional_addresses(emails: Option<Vec<Email>>) -> Option<Seq<Seq<char>>> {
    match emails {
        Some(v) => Some(email_addresses(v@)),
        None => None,
    }
}

/// The text of an optional string.
pub open spec fn optional_text(text: Option<String>) -> Option<Seq<char>> {
    match text {
        Some(t) => Some(t@),
        None => None,
    }
}

/// The (type, value) pairs of an optional list of contents.
pub open spec fn optional_contents(contents: Option<Vec<Content>>) -> Option<Seq<(Seq<char>, Seq<char>)>> {
    match contents {
        Some(v) => Some(v@.map_values(|c: Content| (c.content_type@, c.value@))),
        None => None,
    }
}

/// Two personalizations hold the same addresses and subject.
pub open spec fn same_personalization(a: Personalization, b: Personalization) -> bool {
    &&& email_addresses(a.to@) == email_addresses(b.to@)
    &&& optional_addresses(a.cc) == optional_addresses(b.cc)
    &&& optional_addresses(a.bcc) == optional_addresses(b.bcc)
    &&& optional_text(a.subject) == optional_text(b.subject)
}

/// Two messages hold the same text in every field, so they are sent as the same JSON.
pub open spec fn same_message(a: Message, b: Message) -> bool {
    &&& a.from.email@ == b.from.email@
    &&& a.subject@ == b.subject@
    &&& a.personalizations@.len() == b.personalizations@.len()
    &&& forall|i: int|
        0 <= i < a.personalizations@.len() ==> #[trigger] same_personalization(
            a.personalizations@[i],
            b.personalizations@[i],
        )
    &&& optional_contents(a.content) == optional_contents(b.content)
}

/// The token travels only as the bearer token: two calls that send the same mail
/// through clients with the same base URL and sender have the same method, URL, content
/// type and body, whatever their tokens, and each carries its own client's token.
pub proof fn lemma_token_only_in_authorization(
    first: SendRequest,
    second: SendRequest,
    base_url: Seq<char>,
    sender: Seq<char>,
    first_token: Seq<char>,
    second_token: Seq<char>,
    recipient: Seq<char>,
    subject: Seq<char>,
    html_content: Seq<char>,
    text_content: Seq<char>,
)
    requires
        is_request_for(first, base_url, sender, first_token, recipient, subject, html_content, text_content),
        is_request_for(second, base_url, sender, second_token, recipient, subject, html_content, text_content),
    ensures
        first.method@ == second.method@,
        first.url@ == second.url@,
        first.content_type@ == second.content_type@,
        same_message(first.body, second.body),
        first.bearer_token@ == first_token,
        second.bearer_token@ == second_token,
{
    let a = first.body;
    let b = second.body;
    assert(same_personalization(a.personalizations@[0], b.personalizations@[0])) by {
        let pa = a.personalizations@[0];
        let pb = b.personalizations@[0];
        assert(email_addresses(pa.to@) =~= email_addresses(pb.to@));
    }
    let ca = a.content.unwrap();
    let cb = b.content.unwrap();
    assert(ca@.map_values(|c: Content| (c.content_type@, c.value@)) =~= cb@.map_values(
        |c: Content| (c.content_type@, c.value@),
    ));
}

/// Exactly the statuses from 400 to 599 (client and server errors) are error statuses.
pub proof fn lemma_error_statuses_are_4xx_and_5xx(status: int)
    ensures
        is_error_status(status) <==> (400 <= status && status < 600),
        400 <= status < 500 ==> is_error_status(status),
        500 <= status < 600 ==> is_error_status(status),
        100 <= status < 400 ==> !is_error_status(status),
{
}

/// A message built for a mail carries that mail exactly: it comes from the sender,
/// has the given subject, goes to the recipient alone, and holds the text body and then
/// the HTML body.
pub proof fn lemma_message_carries_the_mail(
    m: Message,
    sender: Seq<char>,
    recipient: Seq<char>,
    subject: Seq<char>,
    html_content: Seq<char>,
    text_content: Seq<char>,
)
    requires
        is_message_for(m, sender, recipient, subject, html_content, text_content),
    ensures
        m.from.email@ == sender,
        m.subject@ == subject,
        m.personalizations@.len() == 1,
        m.personalizations@[0].to@.len() == 1,
        m.personalizations@[0].to@[0].email@ == recipient,
        m.content is Some,
        m.content.unwrap()@.len() == 2,
        m.content.unwrap()@[0].content_type@ == "text/plain"@,
        m.content.unwrap()@[0].value@ == text_content,
        m.content.unwrap()@[1].content_type@ == "text/html"@,
        m.content.unwrap()@[1].value@ == html_content,
{
}

/// A call built for a mail is a `POST` of JSON to the base URL followed by `/send`,
/// authorized by the token, whose body comes from the sender, has the subject and goes
/// to the recipient alone.
pub proof fn lemma_request_carries_the_mail(
    request: SendRequest,
    base_url: Seq<char>,
    sender: Seq<char>,
    token: Seq<char>,
    recipient: Seq<char>,
    subject: Seq<char>,
    html_content: Seq<char>,
    text_content: Seq<char>,
)
    requires
        is_request_for(request, base_url, sender, token, recipient, subject, html_content, text_content),
    ensures
        request.method@ == "POST"@,
        request.url@ == base_url + "/send"@,
        request.url@.len() == base_url.len() + 5,
        request.url@.subrange(0, base_url.len() as int) == base_url,
        request.content_type@ == "application/json"@,
        request.bearer_token@ == token,
        request.body.from.email@ == sender,
        request.body.subject@ == subject,
        request.body.personalizations@.len() == 1,
        request.body.personalizations@[0].to@.len() == 1,
        request.body.personalizations@[0].to@[0].email@ == recipient,
{
    lemma_message_carries_the_mail(request.body, sender, recipient, subject, html_content, text_content);
    reveal_strlit("/send");
    assert(request.url@.subrange(0, base_url.len() as int) =~= base_url);
}

/// What came back from posting a mail-send call.
#[derive(Debug)]
pub enum Delivery {
    /// The provider answered with this HTTP status code.
    Answered(u16),
    /// No answer came: the connection failed or the request timed out.
    NoAnswer,
}

/// Why sending a mail failed.
#[derive(Debug, PartialEq, Eq, Structural)]
pub enum SendError {
    /// The request could not be completed.
    Transport,
    /// The provider answered with a client error (4xx) or a server error (5xx).
    Status(u16),
}

/// The status is a client error (400 to 499) or a server error (500 to 599).
pub open spec fn is_error_status(status: int) -> bool {
    400 <= status < 600
}

/// Whether an answer with this status code means that the mail was refused.
pub fn status_is_error(status: u16) -> (refused: bool)
    ensures
        refused == is_error_status(status as int),
        refused <==> (400 <= status && status < 600),
{
    400 <= status && status < 600
}

/// Decides how a mail-send call ended: it succeeded only when the provider answered
/// with a status that is neither a client nor a server error.
pub fn send_outcome(delivery: Delivery) -> (outcome: Result<(), SendError>)
    ensures
        match delivery {
            Delivery::NoAnswer => outcome == Err::<(), SendError>(SendError::Transport),
            Delivery::Answered(status) => if is_error_status(status as int) {
                outcome == Err::<(), SendError>(SendError::Status(status))
            } else {
                outcome == Ok::<(), SendError>(())
            },
        },
        delivery matches Delivery::Answered(status) ==> (400 <= status && status < 600
            ==> outcome == Err::<(), SendError>(SendError::Status(status))),
        delivery matches Delivery::Answered(status) ==> ((status < 400 || 600 <= status)
            ==> outcome == Ok::<(), SendError>(())),
        delivery is NoAnswer ==> outcome == Err::<(), SendError>(SendError::Transport),
{
    match delivery {
        Delivery::NoAnswer => Err(SendError::Transport),
        Delivery::Answered(status) => if status_is_error(status) {
            Err(SendError::Status(status))
        } else {
            Ok(())
        },
    }
}

/// A client for the mail provider's V3 API.
pub struct EmailClient {
    http_client: Client,
    base_url: String,
    sender: String,
    authorization_token: ApiToken,
}

impl Clone for EmailClient {
    /// A copy with the same base URL, sender, token and request timeout.
    fn clone(&self) -> (copy: Self)
        ensures
            copy.base_url_view() == self.base_url_view(),
            copy.sender_view() == self.sender_view(),
            copy.token_view() == self.token_view(),
            client_timeout(copy.client_view()) == client_timeout(self.client_view()),
    {
        EmailClient {
            http_client: self.http_client.clone(),
            base_url: self.base_url.clone(),
            sender: self.sender.clone(),
            authorization_token: self.authorization_token.clone(),
        }
    }
}

impl EmailClient {
    /// The provider's base URL.
    pub closed spec fn base_url_view(&self) -> Seq<char> {
        self.base_url@
    }

    /// The address that mails are sent from.
    pub closed spec fn sender_view(&self) -> Seq<char> {
        self.sender@
    }

    /// The API token that authorizes the requests.
    pub closed spec fn token_view(&self) -> Seq<char> {
        token_text(self.authorization_token)
    }

    /// The HTTP client that sends the requests.
    pub closed spec fn client_view(&self) -> Client {
        self.http_client
    }

    /// Makes a client whose requests time out after `timeout`. The token is kept in a
    /// `secrecy::Secret` from here on. The HTTP client is built by reqwest; whether that
    /// succeeds depends on the machine, not on the arguments, and its error, if any, is
    /// handed back (see `with_http_client` for what is made of each outcome).
    pub fn new(
        base_url: String,
        sender: String,
        authorization_token: ApiToken,
        timeout: Duration,
    ) -> (made: Result<Self, reqwest::Error>)
        ensures
            made matches Ok(c) ==> {
                &&& c.base_url_view() == base_url@
                &&& c.sender_view() == sender@
                &&& c.token_view() == token_text(authorization_token)
                &&& client_timeout(c.client_view()) == timeout
            },
    {
        Self::with_http_client(client_with_timeout(timeout), base_url, sender, authorization_token)
    }

    /// Makes a client from the outcome of building its HTTP client: with a built client,
    /// a client that holds it and the given settings; with a build error, that error.
    pub fn with_http_client(
        built: Result<Client, reqwest::Error>,
        base_url: String,
        sender: String,
        authorization_token: ApiToken,
    ) -> (made: Result<Self, reqwest::Error>)
        ensures
            match built {
                Ok(http_client) => made matches Ok(c) && {
                    &&& c.client_view() == http_client
                    &&& c.base_url_view() == base_url@
                    &&& c.sender_view() == sender@
                    &&& c.token_view() == token_text(authorization_token)
                },
                Err(e) => made matches Err(made_e) && made_e == e,
            },
    {
        match built {
            Ok(http_client) => Ok(
                EmailClient {
                    http_client,
                    base_url,
                    sender,
                    authorization_token,
                },
            ),
            Err(e) => Err(e),
        }
    }

    /// The URL that mails are posted to: the base URL followed by `/send`.
    pub fn send_url(&self) -> (url: String)
        ensures
            url@ == self.base_url_view() + SEND_PATH@,
            url@ == self.base_url_view() + "/send"@,
    {
        self.base_url.clone().concat(SEND_PATH)
    }

    /// Everything that goes into the request that sends one mail: where it goes, how
    /// it is authorized and what its JSON body holds.
    pub fn send_request<'a>(
        &'a self,
        recipient: &'a str,
        subject: &'a str,
        html_content: &'a str,
        text_content: &'a str,
    ) -> (request: SendRequest<'a>)
        ensures
            is_request_for(
                request,
                self.base_url_view(),
                self.sender_view(),
                self.token_view(),
                recipient@,
                subject@,
                html_content@,
                text_content@,
            ),
            request.method@ == "POST"@,
            request.url@ == self.base_url_view() + "/send"@,
            request.content_type@ == "application/json"@,
            request.bearer_token@ == self.token_view(),
            request.body.from.email@ == self.sender_view(),
            request.body.subject@ == subject@,
            request.body.personalizations@.len() == 1,
            request.body.personalizations@[0].to@.len() == 1,
            request.body.personalizations@[0].to@[0].email@ == recipient@,
            request.body.content is Some,
            request.body.content.unwrap()@.len() == 2,
            request.body.content.unwrap()@[0].value@ == text_content@,
            request.body.content.unwrap()@[1].value@ == html_content@,
    {
        let url = self.send_url();
        let bearer_token = self.authorization_token.expose().as_str();
        let body = build_message(self.sender.as_str(), recipient, subject, html_content, text_content);
        SendRequest { method: SEND_METHOD, url, content_type: JSON_CONTENT_TYPE, bearer_token, body }
    }

    /// The HTTP client that the requests go through.
    pub fn http_client(&self) -> (c: &Client)
        ensures
            *c == self.client_view(),
    {
        &self.http_client
    }
}

} // verus!
