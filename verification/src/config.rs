//! The values that a capture is set up with, and the redirect address that
//! follows from them.

use crate::route::CALLBACK_PREFIX;
use crate::text::{decimal, lemma_decimal_reads_back, push_decimal, same_text};
use vstd::prelude::*;
use vstd::string::*;

verus! {

/// The well-known local port of the redirect listener.
pub const OAUTH_CALLBACK_PORT: u16 = 9274;

/// The externally hosted page that receives the redirect where no local
/// listener can run.
pub const MOBILE_REDIRECT_URI: &'static str = "https://jkalasas.github.io/skeen/oauth-callback.html";

/// How a loopback redirect address begins.
pub const HTTP_SCHEME: &'static str = "http://";

/// How an external redirect address begins.
pub const HTTPS_SCHEME: &'static str = "https://";

/// The loopback interface and the separator before the port.
pub const LOOPBACK_HOST_PREFIX: &'static str = "127.0.0.1:";

/// The name of the first of the two target systems on which no local
/// listener can run.
pub const ANDROID: &'static str = "android";

/// The name of the second.
pub const IOS: &'static str = "ios";

/// Whether the embedding application can run a local listener.
#[derive(Clone, Copy, Debug, PartialEq, Eq, Structural)]
pub enum Platform {
    /// A local listener captures the redirect.
    Desktop,
    /// No local listener: the redirect goes to an external page, and its data
    /// reach the application as a deep link.
    Mobile,
}

/// The platform of a target system: mobile for `android` and `ios`, desktop
/// for every other name.
pub open spec fn platform_of(target_os: Seq<char>) -> Platform {
    if target_os == ANDROID@ || target_os == IOS@ {
        Platform::Mobile
    } else {
        Platform::Desktop
    }
}

impl Platform {
    /// The platform of the target system with the given name.
    pub fn from_target_os(target_os: &str) -> (platform: Platform)
        ensures
            platform == platform_of(target_os@),
    {
        if same_text(target_os, ANDROID) || same_text(target_os, IOS) {
            Platform::Mobile
        } else {
            Platform::Desktop
        }
    }
}

/// What a capture is set up with.
#[derive(Clone, Debug, PartialEq, Eq)]
pub struct CaptureConfig {
    /// The local port that the listener binds.
    pub port: u16,
    /// The redirect address on a platform without a local listener.
    pub external_redirect_uri: String,
}

/// A [`CaptureConfig`] as a plain value.
pub struct CaptureConfigView {
    pub port: u16,
    pub external_redirect_uri: Seq<char>,
}

impl View for CaptureConfig {
    type V = CaptureConfigView;

    open spec fn view(&self) -> CaptureConfigView {
        CaptureConfigView {
            port: self.port,
            external_redirect_uri: self.external_redirect_uri@,
        }
    }
}

/// The configuration with the well-known port and the fixed external page.
pub open spec fn default_config() -> CaptureConfigView {
    CaptureConfigView { port: OAUTH_CALLBACK_PORT, external_redirect_uri: MOBILE_REDIRECT_URI@ }
}

impl Default for CaptureConfig {
    fn default() -> (config: Self)
        ensures
            config@ == default_config(),
    {
        CaptureConfig {
            port: OAUTH_CALLBACK_PORT,
            external_redirect_uri: String::from_str(MOBILE_REDIRECT_URI),
        }
    }
}

/// The address that a listener on `port` binds: the loopback interface, a
/// colon, and the port as a decimal numeral.
pub open spec fn listen_address(port: u16) -> Seq<char> {
    LOOPBACK_HOST_PREFIX@ + decimal(port as nat)
}

/// The redirect address of a listener on `port`: the callback path on the
/// address that the listener binds.
pub open spec fn loopback_redirect_uri(port: u16) -> Seq<char> {
    HTTP_SCHEME@ + listen_address(port) + CALLBACK_PREFIX@
}

/// The redirect address that the authorization provider has to be told.
pub open spec fn redirect_uri(platform: Platform, config: CaptureConfigView) -> Seq<char> {
    match platform {
        Platform::Desktop => loopback_redirect_uri(config.port),
        Platform::Mobile => config.external_redirect_uri,
    }
}

/// Whether the platform is a mobile one.
pub fn is_mobile_platform(platform: Platform) -> (mobile: bool)
    ensures
        mobile == (platform is Mobile),
{
    match platform {
        Platform::Mobile => true,
        Platform::Desktop => false,
    }
}

/// The address that the listener for `port` has to bind.
pub fn get_listen_address(port: u16) -> (address: String)
    ensures
        address@ == listen_address(port),
{
    let mut address = String::new();
    push_listen_address(&mut address, port);
    address
}

/// The redirect address to register with the authorization provider: the
/// loopback form with the configured port on a desktop platform, the
/// configured external address on a mobile one.
pub fn get_oauth_redirect_uri(platform: Platform, config: &CaptureConfig) -> (uri: String)
    ensures
        uri@ == redirect_uri(platform, config@),
{
    match platform {
        Platform::Desktop => {
            let mut uri = String::from_str(HTTP_SCHEME);
            push_listen_address(&mut uri, config.port);
            uri.append(CALLBACK_PREFIX);
            uri
        },
        Platform::Mobile => config.external_redirect_uri.clone(),
    }
}

/// Appends the address that a listener on `port` binds.
fn push_listen_address(out: &mut String, port: u16)
    ensures
        final(out)@ == old(out)@ + listen_address(port),
{
    out.append(LOOPBACK_HOST_PREFIX);
    push_decimal(out, port);
}

/// An external redirect address, which begins with `https://`, is the
/// loopback form for no port.
pub proof fn lemma_external_is_never_loopback(external: Seq<char>, port: u16)
    requires
        HTTPS_SCHEME@.is_prefix_of(external),
    ensures
        external != loopback_redirect_uri(port),
{
    reveal_strlit("https://");
    reveal_strlit("http://");
    assert(external.subrange(0, 8)[4] == 's');
}

/// On a mobile platform the default configuration gives the fixed external
/// page, which is the loopback form for no port.
pub proof fn lemma_mobile_default_is_external(port: u16)
    ensures
        redirect_uri(Platform::Mobile, default_config()) == MOBILE_REDIRECT_URI@,
        redirect_uri(Platform::Mobile, default_config()) != loopback_redirect_uri(port),
{
    reveal_strlit("https://jkalasas.github.io/skeen/oauth-callback.html");
    reveal_strlit("https://");
    lemma_external_is_never_loopback(MOBILE_REDIRECT_URI@, port);
}

/// Listeners on different ports have different redirect addresses.
pub proof fn lemma_loopback_uri_names_its_port(first: u16, second: u16)
    requires
        loopback_redirect_uri(first) == loopback_redirect_uri(second),
    ensures
        first == second,
{
    reveal_strlit("http://");
    reveal_strlit("127.0.0.1:");
    reveal_strlit("/callback");
    let a = decimal(first as nat);
    let b = decimal(second as nat);
    let left = loopback_redirect_uri(first);
    let right = loopback_redirect_uri(second);
    assert(left.len() == 17 + a.len() + 9);
    assert(right.len() == 17 + b.len() + 9);
    assert(a =~= left.subrange(17, 17 + a.len() as int));
    assert(b =~= right.subrange(17, 17 + b.len() as int));
    lemma_decimal_reads_back(first as nat);
    lemma_decimal_reads_back(second as nat);
}

} // verus!
