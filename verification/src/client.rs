//! The dispatch core: what is sent for an operation, and what a reply means.

use crate::address::is_valid_url;
use crate::address::is_valid_url_spec;
use crate::config::Config;
use crate::config::ConfigView;
use crate::config::DEFAULT_BASE_URL;
use crate::error::Error;
use crate::error::ErrorResponse;
use crate::error::ErrorResponseView;
use crate::error::ErrorView;
use std::marker::PhantomData;
use vstd::arithmetic::div_mod::lemma_fundamental_div_mod;
use vstd::arithmetic::div_mod::lemma_fundamental_div_mod_converse;
use vstd::prelude::*;
use vstd::string::StringExecFns;

verus! {

/// The HTTP methods that the service's operations use.
#[derive(Debug, Clone, Copy, PartialEq, Eq, Structural)]
pub enum Method {
    Get,
    Post,
    Put,
    Delete,
}

/// What a request carries besides its headers.
#[derive(Debug)]
pub enum Payload<B> {
    /// Nothing.
    Empty,
    /// A record, to be written out as JSON.
    Json(B),
    /// A multipart form with one part, named `field`, that holds the file at `path`.
    File { field: String, path: String },
}

/// One request, ready to be sent: `B` is the record it carries, `R` the record
/// that a successful reply to it holds.
#[derive(Debug)]
pub struct Dispatch<B, R> {
    pub method: Method,
    pub url: String,
    /// The value of the `Authorization` header; `None` means that the header is left out.
    pub authorization: Option<String>,
    pub payload: Payload<B>,
    pub reply: PhantomData<R>,
}

/// Plans requests to the service under one configuration.
#[derive(Debug, Clone)]
pub struct Client {
    config: Config,
}

impl Client {
    /// The configuration that this client was made with.
    pub closed spec fn configuration(&self) -> Config {
        self.config
    }

    /// Whether `plan` is the request that this client sends for `method`,
    /// `path` and `payload`: the URL is the base URL with `path` appended as it
    /// is, and the API key, if there is one, goes out as the authorization.
    pub open spec fn plans<B, R>(
        &self,
        method: Method,
        path: Seq<char>,
        payload: Payload<B>,
        plan: Dispatch<B, R>,
    ) -> bool {
        &&& plan.method == method
        &&& plan.url@ == self.configuration().base_url@ + path
        &&& plan.authorization == self.configuration().api_key
        &&& plan.payload == payload
    }

    /// Makes a client with the given configuration.
    pub fn new(config: Config) -> (r: Result<Client, Error>)
        ensures
            r is Ok,
            r->Ok_0.configuration() == config,
    {
        Ok(Client { config })
    }

    /// Makes a client with the default configuration.
    pub fn with_default_config() -> (r: Result<Client, Error>)
        ensures
            r is Ok,
            r->Ok_0.configuration()@ == ConfigView::bare(DEFAULT_BASE_URL@),
    {
        Client::new(Config::default())
    }

    /// The configuration that this client was made with.
    pub fn config(&self) -> (c: &Config)
        ensures
            *c == self.configuration(),
    {
        &self.config
    }

    /// Tells whether `url_str` parses as a URL whose scheme is `http` or `https`.
    pub fn is_valid_url(&self, url_str: &str) -> (r: bool)
        ensures
            r == is_valid_url_spec(url_str@),
    {
        is_valid_url(url_str)
    }

    /// The URL of the endpoint at `path`: the base URL and `path`, one after the other.
    pub fn build_api_url(&self, path: &str) -> (url: String)
        ensures
            url@ == self.configuration().base_url@ + path@,
    {
        self.config.base_url.clone().concat(path)
    }

    /// The value of the `Authorization` header: the API key as it is, or
    /// `None` where no key is configured.
    pub fn authorization(&self) -> (r: Option<String>)
        ensures
            r == self.configuration().api_key,
    {
        match &self.config.api_key {
            Some(key) => Some(key.clone()),
            None => None,
        }
    }

    /// Plans a request that carries `request` as JSON.
    pub fn prepare_request<B, R>(&self, method: Method, path: &str, request: B) -> (plan: Dispatch<B, R>)
        ensures
            self.plans(method, path@, Payload::Json(request), plan),
    {
        Dispatch {
            method,
            url: self.build_api_url(path),
            authorization: self.authorization(),
            payload: Payload::Json(request),
            reply: PhantomData,
        }
    }

    /// Plans a request that carries nothing.
    pub fn prepare_request_no_body<R>(&self, method: Method, path: &str) -> (plan: Dispatch<(), R>)
        ensures
            self.plans(method, path@, Payload::Empty, plan),
    {
        Dispatch {
            method,
            url: self.build_api_url(path),
            authorization: self.authorization(),
            payload: Payload::Empty,
            reply: PhantomData,
        }
    }

    /// Plans a request that carries the file at `file_path` as the one part,
    /// named `field`, of a multipart form.
    pub fn prepare_multipart_request<R>(
        &self,
        method: Method,
        path: &str,
        field: &str,
        file_path: &str,
    ) -> (plan: Dispatch<(), R>)
        ensures
            plan.method == method,
            plan.url@ == self.configuration().base_url@ + path@,
            plan.authorization == self.configuration().api_key,
            plan.payload matches Payload::File { field: f, path: p } && f@ == field@ && p@
                == file_path@,
    {
        Dispatch {
            method,
            url: self.build_api_url(path),
            authorization: self.authorization(),
            payload: Payload::File {
                field: String::from_str(field),
                path: String::from_str(file_path),
            },
            reply: PhantomData,
        }
    }

    /// Reads the reply to a request. The status decides, in this order: 200
    /// and 201 give what `decode` makes of the body, a body that does not
    /// decode being a `JsonError`; 404 gives `NotFound` and 429 `RateLimited`,
    /// whatever the body holds; every other status gives a `ServerError`, taken
    /// from the envelope that `decode_envelope` finds in the body, or made of
    /// the status and the body where it finds none. At most one of the two
    /// decoders is called, once, on the body as it came.
    pub fn handle_response<T, D, E>(
        &self,
        status: u16,
        body: String,
        decode: D,
        decode_envelope: E,
    ) -> (r: Result<T, Error>) where
        D: FnOnce(&String) -> Result<T, String>,
        E: FnOnce(&String) -> Option<ErrorResponse>,

        requires
            is_success_status(status) ==> call_requires(decode, (&body,)),
            !is_success_status(status) && status != 404 && status != 429 ==> call_requires(
                decode_envelope,
                (&body,),
            ),
        ensures
            is_success_status(status) ==> exists|decoded: Result<T, String>|
                #[trigger] call_ensures(decode, (&body,), decoded) && payload_outcome(decoded, r),
            !is_success_status(status) ==> r is Err,
            status == 404 ==> r->Err_0@ == ErrorView::NotFound,
            status == 429 ==> r->Err_0@ == ErrorView::RateLimited,
            status == 404 || status == 429 ==> r->Err_0@ == failure_view(status, body@, None),
            !is_success_status(status) && status != 404 && status != 429 ==> exists|
                envelope: Option<ErrorResponse>,
            |
                #[trigger] call_ensures(decode_envelope, (&body,), envelope) && r->Err_0@
                    == failure_view(status, body@, envelope_view(envelope)),
    {
        if status == 200 || status == 201 {
            decoded_payload(decode(&body))
        } else if status == 404 {
            Err(Error::NotFound)
        } else if status == 429 {
            Err(Error::RateLimited)
        } else {
            let envelope = decode_envelope(&body);
            Err(server_error(status, body, envelope))
        }
    }
}

/// Whether a reply with this status carries the record that was asked for.
pub open spec fn is_success_status(status: u16) -> bool {
    status == 200 || status == 201
}

/// The status that a server error reports for the code of an envelope. A
/// code from 0 to 65535 is the status itself. Any other code is brought into
/// that range by whole multiples of 65536: -1 gives 65535, 65536 gives 0.
pub open spec fn envelope_status(code: i64) -> u16 {
    if 0 <= code <= 65535 {
        code as u16
    } else {
        (code as int % 65536) as u16
    }
}

/// The failure that a reply with a status other than 200, 201, 404 and 429
/// stands for: what the envelope says, where the body holds one, else the
/// status and the body as they came.
pub open spec fn server_error_view(
    status: u16,
    body: Seq<char>,
    envelope: Option<ErrorResponseView>,
) -> ErrorView {
    match envelope {
        Some(e) => ErrorView::ServerError { status: envelope_status(e.code), message: e.message },
        None => ErrorView::ServerError { status, message: body },
    }
}

/// What a body holds when read as an envelope, as contracts see it.
pub open spec fn envelope_view(envelope: Option<ErrorResponse>) -> Option<ErrorResponseView> {
    match envelope {
        Some(e) => Some(e@),
        None => None,
    }
}

/// The failure that a reply with a status other than 200 and 201 stands for.
/// `envelope` is what the body holds, read as an envelope; it counts only where
/// the status is neither 404 nor 429.
pub open spec fn failure_view(
    status: u16,
    body: Seq<char>,
    envelope: Option<ErrorResponseView>,
) -> ErrorView {
    if status == 404 {
        ErrorView::NotFound
    } else if status == 429 {
        ErrorView::RateLimited
    } else {
        server_error_view(status, body, envelope)
    }
}

/// Whether `r` is what a successful reply gives once its body was decoded to
/// `decoded`: the record, or a `JsonError` with the decoder's account.
pub open spec fn payload_outcome<T>(decoded: Result<T, String>, r: Result<T, Error>) -> bool {
    match decoded {
        Ok(value) => r == Ok::<T, Error>(value),
        Err(text) => r is Err && r->Err_0@ == ErrorView::JsonError(text@),
    }
}

/// What a successful reply gives once its body was decoded: the record itself,
/// or, where the body did not decode, a `JsonError`.
pub fn decoded_payload<T>(decoded: Result<T, String>) -> (r: Result<T, Error>)
    ensures
        payload_outcome(decoded, r),
{
    match decoded {
        Ok(value) => Ok(value),
        Err(text) => Err(Error::JsonError(text)),
    }
}

/// The status that a server error reports for the code of an envelope: the
/// code itself where it is a status, else the code brought into the range of
/// a status by whole multiples of 65536.
pub fn status_of_code(code: i64) -> (status: u16)
    ensures
        status == envelope_status(code),
        0 <= code <= 65535 ==> status == code,
{
    if 0 <= code && code <= 65535 {
        code as u16
    } else if code >= 0 {
        (code % 65536) as u16
    } else {
        let past: i64 = -(code + 1);
        let low: i64 = past % 65536;
        let lifted: i64 = 65535 - low;
        proof {
            let whole = past as int / 65536;
            lemma_fundamental_div_mod(past as int, 65536);
            assert(code as int == (-whole - 1) * 65536 + lifted) by (nonlinear_arith)
                requires
                    past == 65536 * whole + low,
                    past == -(code + 1),
                    lifted == 65535 - low,
            ;
            lemma_fundamental_div_mod_converse(code as int, 65536, -whole - 1, lifted as int);
        }
        lifted as u16
    }
}

/// The failure that a reply with a status other than 200, 201, 404 and 429
/// stands for, given what its body holds when read as an envelope.
pub fn server_error(status: u16, body: String, envelope: Option<ErrorResponse>) -> (e: Error)
    ensures
        e@ == server_error_view(status, body@, envelope_view(envelope)),
{
    match envelope {
        Some(found) => Error::ServerError {
            status: status_of_code(found.code),
            message: found.message,
        },
        None => Error::ServerError { status, message: body },
    }
}

/// The failure that a reply with a status other than 200 and 201 stands for
/// is `NotFound` or a `ServerError`, unless the service asks the caller to
/// slow down (429); it is `NotFound` exactly for 404. Nothing but the reply
/// decides: an operation repeated on what is already gone, and answered so,
/// cannot come back as done.
pub proof fn lemma_failed_reply_is_not_found_or_server_error(
    status: u16,
    body: Seq<char>,
    envelope: Option<ErrorResponseView>,
)
    requires
        !is_success_status(status),
        status != 429,
    ensures
        failure_view(status, body, envelope) is NotFound || failure_view(
            status,
            body,
            envelope,
        ) is ServerError,
        status == 404 <==> failure_view(status, body, envelope) is NotFound,
{
}

} // verus!
