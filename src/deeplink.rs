//! Deep links: the URLs that the operating system hands back to the
//! application, and which of them start the end of a login.

use crate::text::same_text;
use vstd::prelude::*;

verus! {

/// The host part of a deep link, which says what the link is for.
#[derive(Debug, Clone, Copy, PartialEq, Eq, Structural)]
pub enum DeepLinkHost {
    /// The return of the OAuth flow: `capturist://oauth?...`.
    Oauth,
}

impl DeepLinkHost {
    /// The host's text in a link.
    pub open spec fn spec_name(self) -> Seq<char> {
        match self {
            DeepLinkHost::Oauth => "oauth"@,
        }
    }

    /// Returns the host's text in a link.
    pub fn name(&self) -> (r: &'static str)
        ensures
            r@ == self.spec_name(),
    {
        match self {
            DeepLinkHost::Oauth => "oauth",
        }
    }

    /// The host named by `value`, if any.
    pub fn from_name(value: &str) -> (r: Option<DeepLinkHost>)
        ensures
            r matches Some(h) ==> h.spec_name() == value@,
            r is None ==> forall|h: DeepLinkHost| h.spec_name() != value@,
    {
        if same_text(value, DeepLinkHost::Oauth.name()) {
            Some(DeepLinkHost::Oauth)
        } else {
            None
        }
    }
}

/// What the flow reads of a deep link: its host and its query string.
#[derive(Debug, Clone)]
pub struct CallbackUrl {
    pub host: Option<String>,
    pub query: Option<String>,
}

/// What becomes of a deep-link event.
#[derive(Debug, Clone, Copy, PartialEq, Eq, Structural)]
pub enum DeepLinkRoute {
    /// The first URL is an OAuth callback: finish the login with it.
    Authenticate,
    /// The event carried no URL.
    MissingUrl,
    /// The first URL has no host, or one that is not known; it is ignored.
    UnknownHost,
}

/// The route of the first of `urls`.
pub open spec fn route_of(urls: Seq<CallbackUrl>) -> DeepLinkRoute {
    if urls.len() == 0 {
        DeepLinkRoute::MissingUrl
    } else {
        match urls[0].host {
            Some(h) if h@ == DeepLinkHost::Oauth.spec_name() => DeepLinkRoute::Authenticate,
            _ => DeepLinkRoute::UnknownHost,
        }
    }
}

/// Decides what to do with a deep-link event from its first URL.
pub fn route_deep_link(urls: &Vec<CallbackUrl>) -> (r: DeepLinkRoute)
    ensures
        r == route_of(urls@),
{
    if urls.len() == 0 {
        return DeepLinkRoute::MissingUrl;
    }
    match &urls[0].host {
        Some(h) => match DeepLinkHost::from_name(h.as_str()) {
            Some(DeepLinkHost::Oauth) => DeepLinkRoute::Authenticate,
            None => DeepLinkRoute::UnknownHost,
        },
        None => DeepLinkRoute::UnknownHost,
    }
}

/// Whether the application registers its deep-link scheme itself: not
/// inside a Snap or Flatpak sandbox, whose packaging registers it.
pub fn should_register_deep_links(is_snap: bool, is_flatpak: bool) -> (r: bool)
    ensures
        r == (!is_snap && !is_flatpak),
{
    !is_snap && !is_flatpak
}

} // verus!
