//! The client of one task: bound to one proxy endpoint, with basic
//! authentication and a fixed request timeout.
//!
//! The client is built by `reqwest` and opaque to the verifier. Building it
//! sends nothing over the network.

use vstd::prelude::*;
use vstd::string::StringExecFns;
use std::time::Duration;
use crate::errors::{TaskError, ERROR_OPENING};
use crate::records::ProxyEndpoint;

verus! {

/// `reqwest::Client`: the network session of one task.
#[verifier::external_type_specification]
#[verifier::external_body]
pub struct ExClient(reqwest::Client);

/// `reqwest::ClientBuilder`: a client in the making.
#[verifier::external_type_specification]
#[verifier::external_body]
pub struct ExClientBuilder(reqwest::ClientBuilder);

/// `reqwest::Proxy`: the rule that sends traffic through a proxy.
#[verifier::external_type_specification]
#[verifier::external_body]
pub struct ExProxy(reqwest::Proxy);

/// `reqwest::Error`: why no proxy rule or no client could be made.
#[verifier::external_type_specification]
#[verifier::external_body]
pub struct ExClientError(reqwest::Error);

/// Seconds after which a request through the client is given up.
pub const REQUEST_TIMEOUT_SECS: u64 = 30;

/// The rule that `reqwest::Proxy::https` makes of `address`; `None` where
/// it refuses the address.
pub uninterp spec fn rule_read(address: Seq<char>) -> Option<reqwest::Proxy>;

/// `rule` with `username` and `password` as its credentials, as
/// `reqwest::Proxy::basic_auth` sets them.
pub uninterp spec fn rule_with_credentials(
    rule: reqwest::Proxy,
    username: Seq<char>,
    password: Seq<char>,
) -> reqwest::Proxy;

/// The proxy rules that were added to `builder`, in the order in which
/// they came.
pub uninterp spec fn builder_rules(builder: reqwest::ClientBuilder) -> Seq<reqwest::Proxy>;

/// The request timeout that `builder` was given, in seconds; `None` while
/// it has none.
pub uninterp spec fn builder_timeout(builder: reqwest::ClientBuilder) -> Option<u64>;

/// The proxy rules by which `client` sends.
pub uninterp spec fn client_rules(client: reqwest::Client) -> Seq<reqwest::Proxy>;

/// The seconds after which `client` gives a request up; `None` where it
/// waits without end.
pub uninterp spec fn client_timeout(client: reqwest::Client) -> Option<u64>;

/// The rule that sends all HTTPS traffic through the proxy at `address`.
///
/// Calls `reqwest::Proxy::https`, which parses the address as a URL and
/// refuses what is none, or has another scheme than `http` or `https`. The
/// contract claims only that the result is a function of the address: the
/// rule, or the fact that there is none, is what `rule_read` names.
#[verifier::external_body]
pub(crate) fn proxy_rule(address: &str) -> (rule: Result<reqwest::Proxy, reqwest::Error>)
    ensures
        match rule {
            Ok(made) => rule_read(address@) == Some(made),
            Err(_) => rule_read(address@) is None,
        },
{
    reqwest::Proxy::https(address)
}

/// `reqwest::Proxy::basic_auth` sets the credentials of the rule and
/// returns it: claimed here is that the result is the function of the
/// rule, the user name and the password that `rule_with_credentials`
/// names.
pub assume_specification[ reqwest::Proxy::basic_auth ](
    rule: reqwest::Proxy,
    username: &str,
    password: &str,
) -> (with: reqwest::Proxy)
    ensures
        with == rule_with_credentials(rule, username@, password@),
;

/// `reqwest::Client::builder` returns a builder with the default
/// settings: no proxy rule has been added and no request timeout is set.
pub assume_specification[ reqwest::Client::builder ]() -> (builder: reqwest::ClientBuilder)
    ensures
        builder_rules(builder) == Seq::<reqwest::Proxy>::empty(),
        builder_timeout(builder) is None,
;

/// `reqwest::ClientBuilder::proxy` adds the rule after those that the
/// builder has, and leaves the timeout as it is.
pub assume_specification[ reqwest::ClientBuilder::proxy ](
    builder: reqwest::ClientBuilder,
    rule: reqwest::Proxy,
) -> (added: reqwest::ClientBuilder)
    ensures
        builder_rules(added) == builder_rules(builder).push(rule),
        builder_timeout(added) == builder_timeout(builder),
;

/// The builder with a request timeout of `secs` seconds.
///
/// Calls `reqwest::ClientBuilder::timeout` with the duration of that many
/// whole seconds, which sets the timeout and leaves the rules as they
/// are.
#[verifier::external_body]
pub(crate) fn with_timeout(builder: reqwest::ClientBuilder, secs: u64) -> (set:
    reqwest::ClientBuilder)
    ensures
        builder_rules(set) == builder_rules(builder),
        builder_timeout(set) == Some(secs),
{
    builder.timeout(Duration::from_secs(secs))
}

/// `reqwest::ClientBuilder::build` returns the client, or an error where
/// the transport cannot be set up on this machine; nothing is claimed of
/// which. A client that it returns has the timeout of the builder, and,
/// where a rule was added to the builder, the rules of the builder and no
/// other. (To a builder without a rule it adds the rule of the system, of
/// which nothing is claimed.)
pub assume_specification[ reqwest::ClientBuilder::build ](
    builder: reqwest::ClientBuilder,
) -> (built: Result<reqwest::Client, reqwest::Error>)
    ensures
        built matches Ok(client) ==> client_timeout(client) == builder_timeout(builder) && (
        builder_rules(builder).len() > 0 ==> client_rules(client) == builder_rules(builder)),
;

/// What `error` says of itself.
///
/// Calls `to_string` on a `reqwest::Error`, which writes the kind of the
/// error, the URL it concerns and the error beneath it. Nothing is claimed
/// of the text.
#[verifier::external_body]
pub(crate) fn error_text(error: &reqwest::Error) -> String {
    error.to_string()
}

/// The address of the proxy at `ip` and `port`: `http://ip:port`.
pub open spec fn proxy_address(ip: Seq<char>, port: Seq<char>) -> Seq<char> {
    "http://"@ + ip + ":"@ + port
}

/// The address of the proxy at `ip` and `port`.
pub fn proxy_address_of(ip: &str, port: &str) -> (address: String)
    ensures
        address@ == proxy_address(ip@, port@),
{
    let mut address = String::from_str("http://");
    address.append(ip);
    address.append(":");
    address.append(port);
    address
}

/// What becomes of an attempt to make a proxy rule or a client: the
/// value that was made, or `ClientBuild` in place of the error.
pub fn built_or_error<V>(attempt: Result<V, reqwest::Error>) -> (built: Result<V, TaskError>)
    ensures
        match attempt {
            Ok(value) => built == Ok::<V, TaskError>(value),
            Err(_) => built == Err::<V, TaskError>(TaskError::ClientBuild),
        },
{
    match attempt {
        Ok(value) => Ok(value),
        Err(_) => Err(TaskError::ClientBuild),
    }
}

/// The line that is shown for an error that says `detail` of itself: the
/// opening words of every error, then the detail.
pub fn failure_line(detail: &str) -> (text: String)
    ensures
        text@ == ERROR_OPENING@ + detail@,
{
    let mut text = String::from_str(ERROR_OPENING);
    text.append(detail);
    text
}

/// The line that is shown for `error`: the opening words of every error,
/// then what the error says of itself, in whatever words the outside
/// library finds on this machine.
pub fn describe_failure(error: &reqwest::Error) -> (text: String)
    ensures
        exists|detail: Seq<char>| text@ == ERROR_OPENING@ + detail,
        ERROR_OPENING@.is_prefix_of(text@),
{
    let detail = error_text(error);
    let text = failure_line(detail.as_str());
    assert(text@.subrange(0, ERROR_OPENING@.len() as int) =~= ERROR_OPENING@);
    text
}

/// Whether `client` is the client for the proxy at `ip` and `port` with
/// the credentials `login` and `pass`: it sends by one rule, the rule for
/// `http://ip:port` with these credentials, and gives a request up after
/// `REQUEST_TIMEOUT_SECS` seconds.
pub open spec fn is_client_for(
    client: reqwest::Client,
    ip: Seq<char>,
    port: Seq<char>,
    login: Seq<char>,
    pass: Seq<char>,
) -> bool {
    &&& client_timeout(client) == Some(REQUEST_TIMEOUT_SECS)
    &&& rule_read(proxy_address(ip, port)) is Some
    &&& client_rules(client) == seq![
        rule_with_credentials(rule_read(proxy_address(ip, port))->0, login, pass),
    ]
}

/// Whether `reqwest` accepts `http://ip:port` as the address of a proxy.
pub open spec fn proxy_address_accepted(ip: Seq<char>, port: Seq<char>) -> bool {
    rule_read(proxy_address(ip, port)) is Some
}

/// Makes the client for the proxy at `ip` and `port`, or says in the words
/// of the outside library why there is none. An address that is not
/// accepted gives an error; on an accepted address the transport of this
/// machine decides. A client that is made is the client for this proxy
/// and these credentials.
pub fn try_build_client(ip: &str, port: &str, login: &str, pass: &str) -> (built: Result<
    reqwest::Client,
    reqwest::Error,
>)
    ensures
        !proxy_address_accepted(ip@, port@) ==> built is Err,
        built matches Ok(client) ==> is_client_for(client, ip@, port@, login@, pass@),
{
    let address = proxy_address_of(ip, port);
    let rule = match proxy_rule(address.as_str()) {
        Ok(rule) => rule.basic_auth(login, pass),
        Err(error) => {
            return Err(error);
        },
    };
    let builder = with_timeout(reqwest::Client::builder().proxy(rule), REQUEST_TIMEOUT_SECS);
    assert(builder_rules(builder) =~= seq![rule]);
    builder.build()
}

/// Builds the client for the proxy at `ip` and `port`: all HTTPS traffic
/// goes through `http://ip:port` with `login` and `pass` as credentials,
/// and each request is given up after `REQUEST_TIMEOUT_SECS` seconds.
///
/// The only error is `ClientBuild`. It is owed where the address is not
/// accepted; on an accepted address the transport of this machine
/// decides.
pub fn build_client(ip: &str, port: &str, login: &str, pass: &str) -> (built: Result<
    reqwest::Client,
    TaskError,
>)
    ensures
        built matches Err(error) ==> error == TaskError::ClientBuild,
        !proxy_address_accepted(ip@, port@) ==> built is Err,
        built matches Ok(client) ==> is_client_for(client, ip@, port@, login@, pass@),
{
    built_or_error(try_build_client(ip, port, login, pass))
}

/// Makes the client for `endpoint`, or says why there is none. Each
/// endpoint gets a client of its own.
pub fn try_client_for(endpoint: &ProxyEndpoint) -> (built: Result<reqwest::Client, reqwest::Error>)
    ensures
        !proxy_address_accepted(endpoint.host@, endpoint.port@) ==> built is Err,
        built matches Ok(client) ==> is_client_for(
            client,
            endpoint.host@,
            endpoint.port@,
            endpoint.username@,
            endpoint.password@,
        ),
{
    try_build_client(
        endpoint.host.as_str(),
        endpoint.port.as_str(),
        endpoint.username.as_str(),
        endpoint.password.as_str(),
    )
}

/// Builds the client for `endpoint`. Each endpoint gets a client of its
/// own.
pub fn client_for(endpoint: &ProxyEndpoint) -> (built: Result<reqwest::Client, TaskError>)
    ensures
        built matches Err(error) ==> error == TaskError::ClientBuild,
        !proxy_address_accepted(endpoint.host@, endpoint.port@) ==> built is Err,
        built matches Ok(client) ==> is_client_for(
            client,
            endpoint.host@,
            endpoint.port@,
            endpoint.username@,
            endpoint.password@,
        ),
{
    built_or_error(try_client_for(endpoint))
}

} // verus!
