//! Surface reconciliation: which window shows for which authentication
//! state, as a two-state machine driven by authentication events.

use crate::cli::MINIMIZE_ARG;
use crate::deeplink::DeepLinkHost;
use crate::events::AuthEvent;
use crate::metadata::APP_ID;
use crate::text::{has_prefix, same_text, texts_view};
use vstd::prelude::*;
use vstd::string::StringExecFns;

verus! {

/// The application's windows.
#[derive(Debug, Clone, Copy, PartialEq, Eq, Hash, Structural)]
pub enum WindowLabel {
    /// The quick-capture window for adding tasks.
    QuickAdd,
    /// The login window.
    Authentication,
}

impl WindowLabel {
    /// The window's label.
    pub open spec fn spec_name(self) -> Seq<char> {
        match self {
            WindowLabel::QuickAdd => "quick-add"@,
            WindowLabel::Authentication => "authentication"@,
        }
    }

    /// Returns the window's label.
    pub fn name(&self) -> (r: &'static str)
        ensures
            r@ == self.spec_name(),
    {
        match self {
            WindowLabel::QuickAdd => "quick-add",
            WindowLabel::Authentication => "authentication",
        }
    }

    /// The window labelled `value`, if any.
    pub fn from_name(value: &str) -> (r: Option<WindowLabel>)
        ensures
            r matches Some(w) ==> w.spec_name() == value@,
            r is None ==> forall|w: WindowLabel| w.spec_name() != value@,
    {
        if same_text(value, WindowLabel::QuickAdd.name()) {
            Some(WindowLabel::QuickAdd)
        } else if same_text(value, WindowLabel::Authentication.name()) {
            Some(WindowLabel::Authentication)
        } else {
            None
        }
    }
}

/// The two states of the surfaces.
#[derive(Debug, Clone, Copy, PartialEq, Eq, Structural)]
pub enum SurfaceState {
    /// The login window is the one shown.
    Unauthenticated,
    /// The quick-capture window is the one shown.
    Authenticated,
}

/// The state that matches an authentication flag.
pub open spec fn state_for(authenticated: bool) -> SurfaceState {
    if authenticated {
        SurfaceState::Authenticated
    } else {
        SurfaceState::Unauthenticated
    }
}

/// The window that a state shows.
pub open spec fn window_for(s: SurfaceState) -> WindowLabel {
    match s {
        SurfaceState::Authenticated => WindowLabel::QuickAdd,
        SurfaceState::Unauthenticated => WindowLabel::Authentication,
    }
}

impl SurfaceState {
    /// The state at startup: authenticated exactly when a token was found.
    pub fn initial(token_found: bool) -> (r: SurfaceState)
        ensures
            r == state_for(token_found),
    {
        if token_found {
            SurfaceState::Authenticated
        } else {
            SurfaceState::Unauthenticated
        }
    }

    /// The window that this state shows.
    pub fn window(&self) -> (r: WindowLabel)
        ensures
            r == window_for(*self),
    {
        match self {
            SurfaceState::Authenticated => WindowLabel::QuickAdd,
            SurfaceState::Unauthenticated => WindowLabel::Authentication,
        }
    }

    /// Reacts to an authentication event: the next state, and the window to
    /// show while every other window is retired. An event that repeats the
    /// current state leaves it as it is and shows the same window again.
    pub fn on_auth_event(self, event: AuthEvent) -> (r: (SurfaceState, WindowLabel))
        ensures
            r.0 == state_for(event.authenticated),
            r.1 == window_for(r.0),
            self == state_for(event.authenticated) ==> r.0 == self,
    {
        let next = SurfaceState::initial(event.authenticated);
        (next, next.window())
    }
}

/// The labels of `open` other than `keep`'s, in order.
pub open spec fn others(open: Seq<Seq<char>>, keep: Seq<char>) -> Seq<Seq<char>>
    decreases open.len(),
{
    if open.len() == 0 {
        Seq::empty()
    } else {
        let rest = others(open.drop_last(), keep);
        if open.last() != keep {
            rest.push(open.last())
        } else {
            rest
        }
    }
}

/// The open windows to destroy when switching to `keep`: all the others.
pub fn windows_to_retire(open: &Vec<String>, keep: WindowLabel) -> (r: Vec<String>)
    ensures
        texts_view(r@) == others(texts_view(open@), keep.spec_name()),
{
    let mut retire: Vec<String> = Vec::new();
    let mut i: usize = 0;
    while i < open.len()
        invariant
            i <= open@.len(),
            texts_view(retire@) == others(
                texts_view(open@).subrange(0, i as int),
                keep.spec_name(),
            ),
        decreases open@.len() - i,
    {
        assert(texts_view(open@).subrange(0, i + 1).drop_last() =~= texts_view(open@).subrange(
            0,
            i as int,
        ));
        if !same_text(open[i].as_str(), keep.name()) {
            retire.push(open[i].clone());
            assert(texts_view(retire@) =~= texts_view(retire@.drop_last()).push(open@[i as int]@));
        }
        i = i + 1;
    }
    assert(texts_view(open@).subrange(0, i as int) =~= texts_view(open@));
    retire
}

/// The start of every OAuth deep link: `capturist://oauth`.
pub open spec fn oauth_link_prefix() -> Seq<char> {
    APP_ID@ + "://"@ + DeepLinkHost::Oauth.spec_name()
}

/// Whether a second launch, with arguments `argv`, brings the running
/// instance's window to the front: not for a deep link that returns from a
/// login, and not when asked to start minimized.
pub open spec fn shows_on_relaunch(argv: Seq<Seq<char>>) -> bool {
    &&& forall|i: int|
        0 <= i < argv.len() ==> !(oauth_link_prefix().len() <= #[trigger] argv[i].len()
            && argv[i].subrange(0, oauth_link_prefix().len() as int) == oauth_link_prefix())
    &&& forall|i: int| 0 <= i < argv.len() ==> #[trigger] argv[i] != MINIMIZE_ARG@
}

/// Decides whether a second launch of the application brings the window
/// of the running one to the front.
pub fn should_show_on_relaunch(argv: &Vec<String>) -> (r: bool)
    ensures
        r == shows_on_relaunch(texts_view(argv@)),
{
    let prefix = APP_ID.to_owned().concat("://").concat(DeepLinkHost::Oauth.name());
    let mut i: usize = 0;
    while i < argv.len()
        invariant
            i <= argv@.len(),
            prefix@ == oauth_link_prefix(),
            forall|j: int|
                0 <= j < i ==> !(oauth_link_prefix().len() <= #[trigger] argv@[j]@.len()
                    && argv@[j]@.subrange(0, oauth_link_prefix().len() as int)
                    == oauth_link_prefix()),
            forall|j: int| 0 <= j < i ==> #[trigger] argv@[j]@ != MINIMIZE_ARG@,
        decreases argv@.len() - i,
    {
        if has_prefix(argv[i].as_str(), prefix.as_str()) || same_text(argv[i].as_str(), MINIMIZE_ARG) {
            assert(texts_view(argv@)[i as int] == argv@[i as int]@);
            return false;
        }
        i = i + 1;
    }
    assert forall|j: int| 0 <= j < argv@.len() implies #[trigger] texts_view(argv@)[j] == argv@[j]@ by {}
    true
}

} // verus!
