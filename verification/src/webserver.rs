//! Addresses and paths of the web server.

use vstd::prelude::*;
use crate::text::{
    concat, decimal, decimal_text, decimal_value, is_digit, lemma_decimal_injective,
    lemma_decimal_is_digits, lemma_decimal_reads_back,
};

verus! {

/// Where the Swagger page is served.
pub const SWAGGER_UI_ROUTE: &'static str = "/swagger-ui";

/// Where the `OpenAPI` document is served.
pub const OPENAPI_JSON_ROUTE: &'static str = "/openapi.json";

/// The path that all vehicle routes start with.
#[derive(Debug)]
pub struct BaseUriPath {
    path: String,
}

impl View for BaseUriPath {
    type V = Seq<char>;

    closed spec fn view(&self) -> Seq<char> {
        self.path@
    }
}

impl BaseUriPath {
    pub fn new(path: String) -> (r: Self)
        ensures
            r@ == path@,
    {
        BaseUriPath { path }
    }

    pub fn as_str(&self) -> (r: &str)
        ensures
            r@ == self@,
    {
        self.path.as_str()
    }

    /// The path of a route below the base path.
    pub fn join(&self, route: &str) -> (r: String)
        ensures
            r@ == self@ + route@,
    {
        concat(self.path.as_str(), route)
    }
}

impl Clone for BaseUriPath {
    fn clone(&self) -> (r: Self)
        ensures
            r@ == self@,
    {
        BaseUriPath { path: self.path.clone() }
    }
}

/// The base path that the web server is launched with.
pub fn launch_base_uri_path() -> (r: BaseUriPath)
    ensures
        r@ == "/vehicle/v15"@,
{
    BaseUriPath::new("/vehicle/v15".to_owned())
}

/// Where the web server listens.
#[derive(Debug)]
pub struct WebServerConfig {
    pub host: String,
    pub port: u16,
}

impl Clone for WebServerConfig {
    fn clone(&self) -> (r: Self)
        ensures
            r == *self,
    {
        WebServerConfig { host: self.host.clone(), port: self.port }
    }
}

/// Why the web server could not be set up.
#[derive(Debug)]
pub enum DoipGatewaySetupError {
    ServerError(String),
}

impl WebServerConfig {
    /// Host and port, as in `localhost:8080`.
    pub open spec fn authority(self) -> Seq<char> {
        self.host@ + ":"@ + decimal(self.port as nat)
    }

    /// The address to bind to: the host, a colon, and the port in digits.
    pub fn listen_address(&self) -> (r: String)
        ensures
            r@ == self.authority(),
            r@ == self.host@ + seq![':'] + decimal(self.port as nat),
            self.host@.is_prefix_of(r@),
            r@.len() > self.host@.len() + 1,
            r@[self.host@.len() as int] == ':',
            forall|i: int| self.host@.len() < i < r@.len() ==> '0' <= #[trigger] r@[i] <= '9',
            decimal_value(r@.skip(self.host@.len() as int + 1)) == self.port,
    {
        let port: String = decimal_text(self.port as u64);
        let mut r: String = concat(self.host.as_str(), ":");
        r.append(port.as_str());
        proof {
            reveal_strlit(":");
            assert(":"@ =~= seq![':']);
            assert(r@ =~= self.host@ + seq![':'] + port@);
            assert(r@.skip(self.host@.len() as int + 1) =~= port@);
            assert forall|i: int| self.host@.len() < i < r@.len() implies '0' <= #[trigger] r@[i]
                <= '9' by {
                assert(r@[i] == port@[i - self.host@.len() - 1]);
            }
        }
        r
    }

    /// The server URL that the `OpenAPI` document names.
    pub fn server_url(&self) -> (r: String)
        ensures
            r@ == "http://"@ + self.authority(),
            r@ == "http://"@ + self.host@ + seq![':'] + decimal(self.port as nat),
    {
        proof {
            reveal_strlit(":");
            assert(":"@ =~= seq![':']);
            assert("http://"@ + self.authority() =~= "http://"@ + self.host@ + seq![':']
                + decimal(self.port as nat));
        }
        concat("http://", self.listen_address().as_str())
    }

    /// What the launch makes of the attempt to bind to the listen address: the
    /// listener, or an error that names the address and the cause.
    pub fn bound<L>(&self, attempt: Result<L, String>) -> (r: Result<L, DoipGatewaySetupError>)
        ensures
            match attempt {
                Ok(listener) => r == Ok::<L, DoipGatewaySetupError>(listener),
                Err(cause) => r matches Err(DoipGatewaySetupError::ServerError(text)) && text@
                    == "Failed to bind to "@ + self.authority() + ": "@ + cause@,
            },
            attempt matches Err(cause) ==> (r matches Err(DoipGatewaySetupError::ServerError(text))
                && text@ == "Failed to bind to "@ + self.host@ + seq![':'] + decimal(
                self.port as nat,
            ) + ": "@ + cause@),
    {
        proof {
            reveal_strlit(":");
            assert(":"@ =~= seq![':']);
            assert("Failed to bind to "@ + self.authority() =~= "Failed to bind to "@ + self.host@
                + seq![':'] + decimal(self.port as nat));
        }
        match attempt {
            Ok(listener) => Ok(listener),
            Err(cause) => {
                let mut text: String = concat(
                    "Failed to bind to ",
                    self.listen_address().as_str(),
                );
                text.append(": ");
                text.append(cause.as_str());
                Err(DoipGatewaySetupError::ServerError(text))
            },
        }
    }
}

/// Different ports or hosts have different addresses: two configurations with the same
/// address have the same port, and the same host.
pub proof fn lemma_addresses_differ(a: WebServerConfig, b: WebServerConfig)
    requires
        a.authority() == b.authority(),
    ensures
        a.host@ == b.host@,
        a.port == b.port,
{
    reveal_strlit(":");
    assert(":"@ =~= seq![':']);
    let da = decimal(a.port as nat);
    let db = decimal(b.port as nat);
    lemma_decimal_is_digits(a.port as nat);
    lemma_decimal_is_digits(b.port as nat);
    let whole = a.authority();
    assert(whole[a.host@.len() as int] == ':');
    assert(whole[b.host@.len() as int] == ':');
    assert forall|i: int| a.host@.len() < i < whole.len() implies whole[i] != ':' by {
        assert(whole[i] == da[i - a.host@.len() - 1]);
        assert(is_digit(da[i - a.host@.len() - 1]));
    }
    assert forall|i: int| b.host@.len() < i < whole.len() implies whole[i] != ':' by {
        assert(whole[i] == db[i - b.host@.len() - 1]);
        assert(is_digit(db[i - b.host@.len() - 1]));
    }
    assert(a.host@.len() == b.host@.len());
    assert(a.host@ =~= whole.take(a.host@.len() as int));
    assert(b.host@ =~= whole.take(b.host@.len() as int));
    assert(da =~= whole.skip(a.host@.len() as int + 1));
    assert(db =~= whole.skip(b.host@.len() as int + 1));
    lemma_decimal_injective(a.port as nat, b.port as nat);
}

/// An address is the host, a colon, and digits that read as the port.
pub proof fn lemma_authority_names_host_and_port(config: WebServerConfig)
    ensures
        config.host@.is_prefix_of(config.authority()),
        config.authority().len() > config.host@.len() + 1,
        config.authority()[config.host@.len() as int] == ':',
        decimal_value(config.authority().skip(config.host@.len() as int + 1)) == config.port,
{
    reveal_strlit(":");
    assert(":"@ =~= seq![':']);
    lemma_decimal_reads_back(config.port as nat);
    assert(config.host@ =~= config.authority().subrange(0, config.host@.len() as int));
    assert(config.authority().skip(config.host@.len() as int + 1) =~= decimal(config.port as nat));
}

} // verus!
