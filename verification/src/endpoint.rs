//! The endpoint: what is prepared before the listener is bound, and where
//! each request goes.
//!
//! Preparation is synchronous: the process-wide cryptographic provider is
//! installed, a TLS identity is minted, and the listener's address is fixed.
//! Binding, the TLS handshake and serving are the embedding application's
//! part; it hands each request's method and path to [`Endpoint::dispatch`]
//! and does what the answer says.

use vstd::prelude::*;
use crate::bundle::{
    get_method, page_path, script_path, style_path, Reply, ReplyView, StaticBundle,
};
use crate::cert::{certificate_label, is_pem, mint, private_key_label, TlsIdentity};
use crate::config::ServerConfig;
use crate::error::StartupError;
use crate::text::same_text;

verus! {

/// `rustls::crypto::CryptoProvider`: the set of cryptographic primitives the
/// TLS stack uses. Carried through, never looked into.
#[verifier::external_type_specification]
#[verifier::external_body]
pub struct ExCryptoProvider(rustls::crypto::CryptoProvider);

/// `rustls::crypto::ring::default_provider` builds the provider backed by
/// ring. Nothing is claimed of the value.
pub assume_specification[ rustls::crypto::ring::default_provider ]() -> (provider:
    rustls::crypto::CryptoProvider);

/// `CryptoProvider::install_default` makes the provider the default of the
/// process if none is installed yet, and hands it back otherwise. Which of
/// the two happens depends on what the process did before, so nothing is
/// claimed of the result.
pub assume_specification[ rustls::crypto::CryptoProvider::install_default ](
    provider: rustls::crypto::CryptoProvider,
) -> (installed: Result<(), std::sync::Arc<rustls::crypto::CryptoProvider>>);

/// Path of the WebSocket upgrade.
pub open spec fn upgrade_path() -> Seq<char> {
    "/ws"@
}

/// Where a request goes, as mathematical values.
pub enum RouteView {
    /// To the WebSocket handshake and, if it succeeds, to a relay session.
    Upgrade,
    /// Answered at once.
    Answer(ReplyView),
}

/// Where a request goes.
pub enum Route<'a> {
    /// To the WebSocket handshake and, if it succeeds, to a relay session.
    Upgrade,
    /// Answered at once.
    Answer(Reply<'a>),
}

impl<'a> View for Route<'a> {
    type V = RouteView;

    open spec fn view(&self) -> RouteView {
        match self {
            Route::Upgrade => RouteView::Upgrade,
            Route::Answer(reply) => RouteView::Answer(reply@),
        }
    }
}

/// Where a request with the given method and path goes: `GET /ws` to the
/// upgrade, `/ws` under another method to `405`, everything else to the
/// bundle.
pub open spec fn routed(bundle: &StaticBundle, method: Seq<char>, path: Seq<char>) -> RouteView {
    if path == upgrade_path() {
        if method == get_method() {
            RouteView::Upgrade
        } else {
            RouteView::Answer(ReplyView::MethodNotAllowed)
        }
    } else {
        RouteView::Answer(bundle.answer(method, path))
    }
}

/// Installs the ring-backed provider as the default of the process, unless a
/// default is installed already. Says whether this call installed it.
fn install_crypto_provider() -> (installed: bool)
{
    newly_installed(rustls::crypto::ring::default_provider().install_default())
}

/// What an attempt to install a provider amounts to: the attempt installed
/// it if it succeeded, and installed nothing if the provider came back,
/// which is what happens when the process has a default already.
pub fn newly_installed(
    attempt: Result<(), std::sync::Arc<rustls::crypto::CryptoProvider>>,
) -> (installed: bool)
    ensures
        installed == attempt is Ok,
{
    attempt.is_ok()
}

/// Everything the listener needs before it is bound.
pub struct Endpoint {
    config: ServerConfig,
    identity: TlsIdentity,
    bundle: StaticBundle,
}

impl Endpoint {
    /// The listener's address and port.
    pub closed spec fn config_spec(&self) -> ServerConfig {
        self.config
    }

    /// The identity presented to peers.
    pub closed spec fn identity_spec(&self) -> TlsIdentity {
        self.identity
    }

    /// The assets served.
    pub closed spec fn bundle_spec(&self) -> &StaticBundle {
        &self.bundle
    }

    /// An endpoint on all interfaces and the given port, with the given
    /// identity and assets.
    pub fn with_identity(bundle: StaticBundle, port: u16, identity: TlsIdentity) -> (endpoint:
        Endpoint)
        ensures
            endpoint.config_spec().bind_addr@ == seq![0u8, 0u8, 0u8, 0u8],
            endpoint.config_spec().port == port,
            endpoint.identity_spec() == identity,
            *endpoint.bundle_spec() == bundle,
    {
        Endpoint { config: ServerConfig::on_port(port), identity, bundle }
    }

    /// Prepares an endpoint for the given port: installs the cryptographic
    /// provider if the process has none, mints an identity, and fixes the
    /// address to all interfaces. The only failure is that of the mint.
    pub fn prepare(bundle: StaticBundle, port: u16) -> (prepared: Result<Endpoint, StartupError>)
        ensures
            prepared matches Ok(endpoint) ==> {
                &&& endpoint.config_spec().bind_addr@ == seq![0u8, 0u8, 0u8, 0u8]
                &&& endpoint.config_spec().port == port
                &&& *endpoint.bundle_spec() == bundle
                &&& is_pem(endpoint.identity_spec().cert_text(), certificate_label())
                &&& is_pem(endpoint.identity_spec().key_text(), private_key_label())
            },
            prepared matches Err(e) ==> e == StartupError::CertGenerationFailed,
    {
        let _ = install_crypto_provider();
        match mint() {
            Ok(identity) => Ok(Endpoint::with_identity(bundle, port, identity)),
            Err(e) => Err(e),
        }
    }

    /// The listener's address and port.
    pub fn config(&self) -> (config: ServerConfig)
        ensures
            config == self.config_spec(),
    {
        self.config
    }

    /// The identity presented to peers.
    pub fn identity(&self) -> (identity: &TlsIdentity)
        ensures
            *identity == self.identity_spec(),
    {
        &self.identity
    }

    /// The assets served.
    pub fn bundle(&self) -> (bundle: &StaticBundle)
        ensures
            bundle == self.bundle_spec(),
    {
        &self.bundle
    }

    /// Says where a request goes.
    pub fn dispatch(&self, method: &str, path: &str) -> (route: Route<'_>)
        ensures
            route@ == routed(self.bundle_spec(), method@, path@),
    {
        if same_text(path, "/ws") {
            if same_text(method, "GET") {
                Route::Upgrade
            } else {
                Route::Answer(Reply::MethodNotAllowed)
            }
        } else {
            Route::Answer(self.bundle.respond(method, path))
        }
    }
}

/// `GET /ws` is the one request that reaches the upgrade; every request for
/// another path is answered by the bundle; and the upgrade path hides no
/// asset, for the bundle serves nothing under it.
pub proof fn law_routes(bundle: &StaticBundle, method: Seq<char>, path: Seq<char>)
    ensures
        routed(bundle, method, path) is Upgrade <==> path == upgrade_path() && method
            == get_method(),
        path != upgrade_path() ==> routed(bundle, method, path) == RouteView::Answer(
            bundle.answer(method, path),
        ),
        bundle.entry(upgrade_path()) is None,
{
    reveal_strlit("/ws");
    reveal_strlit("/");
    reveal_strlit("/style.css");
    reveal_strlit("/app.js");
    // The upgrade path differs in length from each asset path.
    assert(upgrade_path().len() == 3);
    assert(page_path().len() == 1);
    assert(style_path().len() == 10);
    assert(script_path().len() == 7);
}

} // verus!
