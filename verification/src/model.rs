//! The data the resolver works on: the profile document and its parts,
//! the error taxonomy, and the outcome of the collaborator lookups.
//!
//! Each executable type has a ghost view over `Seq<char>` so that the
//! resolver's contracts can be stated purely mathematically.

use vstd::prelude::*;

verus! {

/// Coarse geographic information derived from the edge network's
/// viewer-country header. Created and discarded within one request.
#[derive(Debug, Clone, PartialEq)]
pub struct GeoInfo {
    pub country: String,
}

#[verifier::ext_equal]
pub ghost struct GeoView {
    pub country: Seq<char>,
}

impl View for GeoInfo {
    type V = GeoView;

    open spec fn view(&self) -> GeoView {
        GeoView { country: self.country@ }
    }
}

impl DeepView for GeoInfo {
    type V = GeoView;

    open spec fn deep_view(&self) -> GeoView {
        self@
    }
}

/// A registered user, as the user store reports it. The resolver only
/// reads a fetched copy; it never mutates or persists one.
#[derive(Debug, Clone, PartialEq)]
pub struct UserRecord {
    /// The user's stable unique identifier.
    pub user_id: String,
    pub email: String,
    pub avatar_url: Option<String>,
    pub is_subscriber: bool,
    /// Subscription tier; a user may have none stored.
    pub subscription_type: Option<String>,
}

#[verifier::ext_equal]
pub ghost struct UserView {
    pub user_id: Seq<char>,
    pub email: Seq<char>,
    pub avatar_url: Option<Seq<char>>,
    pub is_subscriber: bool,
    pub subscription_type: Option<Seq<char>>,
}

impl View for UserRecord {
    type V = UserView;

    open spec fn view(&self) -> UserView {
        UserView {
            user_id: self.user_id@,
            email: self.email@,
            avatar_url: self.avatar_url.deep_view(),
            is_subscriber: self.is_subscriber,
            subscription_type: self.subscription_type.deep_view(),
        }
    }
}

/// A user's stored preferences. The resolver carries the record into the
/// response unchanged; it never reads individual preferences.
#[derive(Debug, Clone, PartialEq)]
pub struct SettingsValue {
    pub locale_override: Option<String>,
    pub no_ads: Option<bool>,
}

#[verifier::ext_equal]
pub ghost struct SettingsView {
    pub locale_override: Option<Seq<char>>,
    pub no_ads: Option<bool>,
}

impl View for SettingsValue {
    type V = SettingsView;

    open spec fn view(&self) -> SettingsView {
        SettingsView {
            locale_override: self.locale_override.deep_view(),
            no_ads: self.no_ads,
        }
    }
}

impl DeepView for SettingsValue {
    type V = SettingsView;

    open spec fn deep_view(&self) -> SettingsView {
        self@
    }
}

/// How a request fails. A missing token is not an error (the anonymous
/// branch succeeds); these cover the two failing paths.
#[derive(Debug, Clone, Copy, PartialEq, Eq)]
pub enum ApiError {
    /// A session token was presented but could not be resolved to a user:
    /// an authentication failure attributable to the caller.
    InvalidSession,
    /// The settings store itself failed: a service fault, propagated
    /// whole, never a partial document.
    StoreFailure,
}

/// What the user store reported when asked for a user's settings.
#[derive(Debug, Clone, PartialEq)]
pub enum SettingsLookup {
    /// The user has no stored preferences yet; not an error.
    NoRow,
    /// The user's stored preferences.
    Row(SettingsValue),
    /// The store itself failed.
    StoreError,
}

#[verifier::ext_equal]
pub ghost enum SettingsLookupView {
    NoRow,
    Row(SettingsView),
    StoreError,
}

impl View for SettingsLookup {
    type V = SettingsLookupView;

    open spec fn view(&self) -> SettingsLookupView {
        match self {
            SettingsLookup::NoRow => SettingsLookupView::NoRow,
            SettingsLookup::Row(s) => SettingsLookupView::Row(s@),
            SettingsLookup::StoreError => SettingsLookupView::StoreError,
        }
    }
}

/// What the session provider and user store reported for one request:
/// no token at all, a token that did not resolve, or a resolved user
/// together with the outcome of the settings fetch.
#[derive(Debug, Clone, PartialEq)]
pub enum IdentityLookup {
    /// The session provider yielded no token: the anonymous branch.
    NoToken,
    /// A token was present but the user fetch failed (no matching user,
    /// or the store errored).
    UserNotFound,
    /// The token resolved; the settings fetch reported the second field.
    Resolved(UserRecord, SettingsLookup),
}

#[verifier::ext_equal]
pub ghost enum LookupView {
    NoToken,
    UserNotFound,
    Resolved { user: UserView, settings: SettingsLookupView },
}

impl View for IdentityLookup {
    type V = LookupView;

    open spec fn view(&self) -> LookupView {
        match self {
            IdentityLookup::NoToken => LookupView::NoToken,
            IdentityLookup::UserNotFound => LookupView::UserNotFound,
            IdentityLookup::Resolved(user, settings) => LookupView::Resolved {
                user: user@,
                settings: settings@,
            },
        }
    }
}

/// The response document. Every field is independently optional and is
/// omitted, not null-valued, when absent.
#[derive(Debug, Clone, PartialEq)]
pub struct WhoamiResponse {
    pub geo: Option<GeoInfo>,
    pub username: Option<String>,
    pub is_authenticated: Option<bool>,
    pub email: Option<String>,
    pub avatar_url: Option<String>,
    pub is_subscriber: Option<bool>,
    pub subscription_type: Option<String>,
    pub settings: Option<SettingsValue>,
}

#[verifier::ext_equal]
pub ghost struct ResponseView {
    pub geo: Option<GeoView>,
    pub username: Option<Seq<char>>,
    pub is_authenticated: Option<bool>,
    pub email: Option<Seq<char>>,
    pub avatar_url: Option<Seq<char>>,
    pub is_subscriber: Option<bool>,
    pub subscription_type: Option<Seq<char>>,
    pub settings: Option<SettingsView>,
}

impl View for WhoamiResponse {
    type V = ResponseView;

    open spec fn view(&self) -> ResponseView {
        ResponseView {
            geo: self.geo.deep_view(),
            username: self.username.deep_view(),
            is_authenticated: self.is_authenticated,
            email: self.email.deep_view(),
            avatar_url: self.avatar_url.deep_view(),
            is_subscriber: self.is_subscriber,
            subscription_type: self.subscription_type.deep_view(),
            settings: self.settings.deep_view(),
        }
    }
}

impl ResponseView {
    /// The document's all-or-nothing invariant: an authenticated response
    /// carries the whole identity bundle (settings alone may be absent,
    /// when the user has no stored row); a response whose authenticated
    /// flag is absent or false carries nothing but geo.
    pub open spec fn wf(self) -> bool {
        if self.is_authenticated == Some(true) {
            &&& self.username is Some
            &&& self.email is Some
            &&& self.is_subscriber is Some
            &&& self.subscription_type is Some
        } else {
            &&& self.username is None
            &&& self.email is None
            &&& self.avatar_url is None
            &&& self.is_subscriber is None
            &&& self.subscription_type is None
            &&& self.settings is None
        }
    }
}

} // verus!
