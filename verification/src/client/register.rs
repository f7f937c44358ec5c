//! Registering at the coordinator, and asking whether a registration still stands.

use crate::client::error::AnyError;
use crate::client::model::{HttpMethod, HttpRequest, JudgerRegisterMessage};
use crate::text::{copy_option, copy_strings};
use vstd::prelude::*;

verus! {

/// What a client knows of itself.
#[derive(Debug)]
pub struct ClientConfig {
    pub access_token: Option<String>,
    pub register_token: Option<String>,
    pub alternate_name: Option<String>,
    pub tags: Option<Vec<String>>,
    pub max_concurrent_tasks: usize,
}

/// Whether a client should register: it can, and either lacks an access token or
/// is to get a new one.
pub open spec fn should_register(cfg: ClientConfig, refresh: bool) -> bool {
    cfg.register_token is Some && (refresh || cfg.access_token is None)
}

/// Whether `msg` is what a client with this configuration registers with.
pub open spec fn registers(cfg: ClientConfig, msg: JudgerRegisterMessage) -> bool {
    &&& cfg.register_token == Some(msg.token)
    &&& msg.alternate_name == cfg.alternate_name
    &&& match (cfg.tags, msg.tags) {
        (Some(own), Some(sent)) => sent@ == own@,
        (None, None) => true,
        _ => false,
    }
}

/// The request that a client registers with.
pub open spec fn register_request(endpoint: String) -> HttpRequest {
    HttpRequest { method: HttpMethod::Post, endpoint, authorization: None }
}

/// The configuration of a client that has been given an access token.
pub open spec fn with_token(cfg: ClientConfig, token: String) -> ClientConfig {
    ClientConfig { access_token: Some(token), ..cfg }
}

/// The request that asks whether a client's registration is active, where it can ask.
pub open spec fn verify_request(cfg: ClientConfig, endpoint: String) -> Option<HttpRequest> {
    if cfg.access_token is Some {
        Some(
            HttpRequest {
                method: HttpMethod::Get,
                endpoint,
                authorization: cfg.access_token,
            },
        )
    } else {
        None
    }
}

/// Whether a status code stands for success.
pub open spec fn is_success(code: u16) -> bool {
    200 <= code < 300
}

/// Try to register at the coordinator if no access token was specified.
///
/// Returns what to send, or `None` if registering is not needed or not applicable.
pub fn try_register(cfg: &ClientConfig, refresh: bool, endpoint: String) -> (r: Option<
    (HttpRequest, JudgerRegisterMessage),
>)
    ensures
        r is Some <==> should_register(*cfg, refresh),
        r is Some <==> cfg.register_token is Some && (refresh || cfg.access_token is None),
        r matches Some((request, msg)) ==> {
            &&& request == (HttpRequest {
                method: HttpMethod::Post,
                endpoint,
                authorization: None,
            })
            &&& request == register_request(endpoint)
            &&& registers(*cfg, msg)
            &&& cfg.register_token == Some(msg.token)
            &&& msg.alternate_name == cfg.alternate_name
            &&& msg.tags is Some <==> cfg.tags is Some
            &&& cfg.tags is Some ==> (msg.tags->0)@ == (cfg.tags->0)@
        },
{
    if !refresh && cfg.access_token.is_some() {
        return None;
    }
    match &cfg.register_token {
        None => None,
        Some(token) => {
            let tags = match &cfg.tags {
                Some(own) => Some(copy_strings(own)),
                None => None,
            };
            let msg = JudgerRegisterMessage {
                token: token.clone(),
                alternate_name: copy_option(&cfg.alternate_name),
                tags,
            };
            Some((HttpRequest { method: HttpMethod::Post, endpoint, authorization: None }, msg))
        },
    }
}

/// Takes in what the coordinator answered: the text of a successful answer is the
/// new access token.
pub fn finish_register(cfg: &mut ClientConfig, answer: Result<String, AnyError>) -> (r: Result<
    bool,
    AnyError,
>)
    ensures
        match answer {
            Ok(token) => {
                &&& r == Ok::<bool, AnyError>(true)
                &&& *final(cfg) == (ClientConfig { access_token: Some(token), ..*old(cfg) })
                &&& *final(cfg) == with_token(*old(cfg), token)
            },
            Err(e) => {
                &&& r == Err::<bool, AnyError>(e)
                &&& *final(cfg) == *old(cfg)
            },
        },
{
    match answer {
        Ok(token) => {
            cfg.access_token = Some(token);
            Ok(true)
        },
        Err(e) => Err(e),
    }
}

/// The request that asks whether the current registration is active, or `None` if
/// there is no access token to ask about, so that it is not.
pub fn verify_self(cfg: &ClientConfig, endpoint: String) -> (r: Option<HttpRequest>)
    ensures
        r == verify_request(*cfg, endpoint),
        r is Some <==> cfg.access_token is Some,
        r matches Some(request) ==> request == (HttpRequest {
            method: HttpMethod::Get,
            endpoint,
            authorization: cfg.access_token,
        }),
{
    match &cfg.access_token {
        None => None,
        Some(token) => Some(
            HttpRequest {
                method: HttpMethod::Get,
                endpoint,
                authorization: Some(token.clone()),
            },
        ),
    }
}

/// Takes in the status code with which the coordinator answered: the registration
/// is active where it stands for success.
pub fn finish_verify(answer: Result<u16, AnyError>) -> (r: Result<bool, AnyError>)
    ensures
        r == match answer {
            Ok(code) => Ok(200 <= code < 300),
            Err(e) => Err(e),
        },
        answer matches Ok(code) ==> r == Ok::<bool, AnyError>(is_success(code)),
{
    match answer {
        Ok(code) => Ok(200 <= code && code < 300),
        Err(e) => Err(e),
    }
}

/// A client that has registered does not register again unless it is told to, and
/// then registers with what it registered with before.
pub proof fn law_registered_once(cfg: ClientConfig, token: String, msg: JudgerRegisterMessage)
    ensures
        ({
            let registered = ClientConfig { access_token: Some(token), ..cfg };
            &&& !should_register(registered, false)
            &&& should_register(registered, true) <==> cfg.register_token is Some
            &&& registers(registered, msg) <==> registers(cfg, msg)
        }),
{
}

/// Whatever its name, its tags and its limits: a client without a register token never
/// registers; one with a register token and without an access token registers in any
/// case; one with both registers exactly where it is told to.
pub proof fn law_registers_where_needed(cfg: ClientConfig, refresh: bool)
    ensures
        cfg.register_token is None ==> !should_register(cfg, refresh),
        cfg.register_token is Some && cfg.access_token is None ==> should_register(cfg, refresh),
        cfg.register_token is Some && cfg.access_token is Some ==> (should_register(cfg, refresh)
            <==> refresh),
{
}

/// Whether a client registers depends only on which tokens it has.
pub proof fn law_only_tokens_matter(a: ClientConfig, b: ClientConfig, refresh: bool)
    requires
        a.register_token is Some <==> b.register_token is Some,
        a.access_token is Some <==> b.access_token is Some,
    ensures
        should_register(a, refresh) == should_register(b, refresh),
{
}

/// A client registers with its own register token, name and tags, and with nothing
/// else: a message is right exactly where it tells these three.
pub proof fn law_registers_with_its_own(cfg: ClientConfig, msg: JudgerRegisterMessage)
    ensures
        registers(cfg, msg) ==> cfg.register_token == Some(msg.token),
        registers(cfg, msg) ==> msg.alternate_name == cfg.alternate_name,
        registers(cfg, msg) ==> (msg.tags is Some <==> cfg.tags is Some),
        registers(cfg, msg) && cfg.tags is Some ==> (msg.tags->0)@ == (cfg.tags->0)@,
        cfg.register_token == Some(msg.token) && msg.alternate_name == cfg.alternate_name
            && msg.tags == cfg.tags ==> registers(cfg, msg),
{
}

/// A client posts its registration to the endpoint, without a token, since it has none
/// that counts.
pub proof fn law_register_request(endpoint: String)
    ensures
        register_request(endpoint).method == HttpMethod::Post,
        register_request(endpoint).endpoint == endpoint,
        register_request(endpoint).authorization is None,
{
}

/// Registering gives a client the token that it was answered, whatever it had before,
/// and changes nothing else; of two registrations the later one counts.
pub proof fn law_with_token(cfg: ClientConfig, token: String, later: String)
    ensures
        with_token(cfg, token).access_token == Some(token),
        with_token(cfg, token).register_token == cfg.register_token,
        with_token(cfg, token).alternate_name == cfg.alternate_name,
        with_token(cfg, token).tags == cfg.tags,
        with_token(cfg, token).max_concurrent_tasks == cfg.max_concurrent_tasks,
        with_token(with_token(cfg, token), later) == with_token(cfg, later),
{
}

/// A client with an access token asks about that very token, whatever else it has; one
/// without does not ask.
pub proof fn law_verify_request(cfg: ClientConfig, endpoint: String)
    ensures
        verify_request(cfg, endpoint) is Some <==> cfg.access_token is Some,
        verify_request(cfg, endpoint) matches Some(request) ==> {
            &&& request.method == HttpMethod::Get
            &&& request.endpoint == endpoint
            &&& request.authorization == cfg.access_token
        },
{
}

/// The codes that stand for success are the hundred codes from 200 on, and no other.
pub proof fn law_success_codes(code: u16)
    ensures
        is_success(code) <==> code / 100 == 2,
{
}

} // verus!
