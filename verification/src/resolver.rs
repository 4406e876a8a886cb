//! The profile resolver: composes the geolocation signal and the
//! collaborator lookup outcome into one response document.
//!
//! The branching policy is deliberately asymmetric: a request with no
//! session token at all succeeds anonymously, while a present token that
//! fails to resolve to a user is an authentication error — the two cases
//! must never collapse into one another.

use vstd::prelude::*;

use crate::geo::country_from_header;
use crate::geo::country_of_header;
use crate::model::ApiError;
use crate::model::GeoInfo;
use crate::model::GeoView;
use crate::model::IdentityLookup;
use crate::model::LookupView;
use crate::model::ResponseView;
use crate::model::SettingsLookup;
use crate::model::SettingsLookupView;
use crate::model::SettingsValue;
use crate::model::SettingsView;
use crate::model::UserRecord;
use crate::model::UserView;
use crate::model::WhoamiResponse;

verus! {

/// The document of the anonymous branch: nothing but geo.
pub open spec fn anonymous_spec(geo: Option<GeoView>) -> ResponseView {
    ResponseView {
        geo,
        username: None,
        is_authenticated: None,
        email: None,
        avatar_url: None,
        is_subscriber: None,
        subscription_type: None,
        settings: None,
    }
}

/// The subscription type reported for a user: the stored value, or the
/// empty string when none is stored (the field is still present).
pub open spec fn subscription_type_or_default(t: Option<Seq<char>>) -> Seq<char> {
    match t {
        Some(s) => s,
        None => Seq::empty(),
    }
}

/// The document of the authenticated branch: the whole identity bundle,
/// set together.
pub open spec fn authenticated_spec(
    geo: Option<GeoView>,
    user: UserView,
    settings: Option<SettingsView>,
) -> ResponseView {
    ResponseView {
        geo,
        username: Some(user.user_id),
        is_authenticated: Some(true),
        email: Some(user.email),
        avatar_url: user.avatar_url,
        is_subscriber: Some(user.is_subscriber),
        subscription_type: Some(subscription_type_or_default(user.subscription_type)),
        settings,
    }
}

/// The geo field owed for a request whose raw geolocation header was
/// `header`.
pub open spec fn geo_spec(header: Option<Seq<u8>>) -> Option<GeoView> {
    match header {
        None => None,
        Some(bytes) => Some(GeoView { country: country_of_header(bytes) }),
    }
}

/// The outcome owed for one request, as a function of the raw
/// geolocation header and what the collaborators reported.
pub open spec fn resolve_spec(header: Option<Seq<u8>>, lookup: LookupView) -> Result<
    ResponseView,
    ApiError,
> {
    let geo = geo_spec(header);
    match lookup {
        LookupView::NoToken => Ok(anonymous_spec(geo)),
        LookupView::UserNotFound => Err(ApiError::InvalidSession),
        LookupView::Resolved { user, settings } => match settings {
            SettingsLookupView::StoreError => Err(ApiError::StoreFailure),
            SettingsLookupView::NoRow => Ok(authenticated_spec(geo, user, None)),
            SettingsLookupView::Row(s) => Ok(authenticated_spec(geo, user, Some(s))),
        },
    }
}

/// The view of an outcome: the document's view on success, the error
/// unchanged on failure.
pub open spec fn outcome_view(r: Result<WhoamiResponse, ApiError>) -> Result<
    ResponseView,
    ApiError,
> {
    match r {
        Ok(resp) => Ok(resp@),
        Err(e) => Err(e),
    }
}

/// Build the anonymous response: every field absent but geo.
pub fn anonymous_response(geo: Option<GeoInfo>) -> (r: WhoamiResponse)
    ensures
        r@ == anonymous_spec(geo.deep_view()),
{
    let r = WhoamiResponse {
        geo,
        username: None,
        is_authenticated: None,
        email: None,
        avatar_url: None,
        is_subscriber: None,
        subscription_type: None,
        settings: None,
    };
    proof {
        assert(r@ =~= anonymous_spec(geo.deep_view()));
    }
    r
}

/// Build the authenticated response for a resolved user: the identity
/// bundle is set as a whole, a missing stored subscription type is
/// reported as the empty string, and the settings row is carried over
/// exactly as the store reported it.
pub fn authenticated_response(
    geo: Option<GeoInfo>,
    user: UserRecord,
    settings: Option<SettingsValue>,
) -> (r: WhoamiResponse)
    ensures
        r@ == authenticated_spec(geo.deep_view(), user@, settings.deep_view()),
{
    let subscription_type = match user.subscription_type {
        Some(t) => t,
        None => String::new(),
    };
    let r = WhoamiResponse {
        geo,
        username: Some(user.user_id),
        is_authenticated: Some(true),
        email: Some(user.email),
        avatar_url: user.avatar_url,
        is_subscriber: Some(user.is_subscriber),
        subscription_type: Some(subscription_type),
        settings,
    };
    proof {
        assert(r@ =~= authenticated_spec(geo.deep_view(), user@, settings.deep_view()));
    }
    r
}

/// Resolve one request: extract geolocation from the raw header bytes,
/// then branch on what the session provider and user store reported.
///
/// A missing token is anonymous success; a present but unresolvable
/// token is `InvalidSession`; a store-level failure on the settings
/// fetch fails the whole request; a resolved user yields the full
/// authenticated document, with `settings` absent exactly when the user
/// has no stored row.
pub fn resolve(header: Option<Vec<u8>>, lookup: IdentityLookup) -> (r: Result<
    WhoamiResponse,
    ApiError,
>)
    ensures
        outcome_view(r) == resolve_spec(header.deep_view(), lookup@),
{
    let geo = country_from_header(&header);
    proof {
        if header is Some {
            let bytes = header->0;
            assert(bytes.deep_view() =~= bytes@);
            assert((geo->0)@.country == country_of_header(bytes@));
        }
        assert(geo.deep_view() =~= geo_spec(header.deep_view()));
    }
    match lookup {
        IdentityLookup::NoToken => Ok(anonymous_response(geo)),
        IdentityLookup::UserNotFound => Err(ApiError::InvalidSession),
        IdentityLookup::Resolved(user, settings_lookup) => match settings_lookup {
            SettingsLookup::StoreError => Err(ApiError::StoreFailure),
            SettingsLookup::NoRow => Ok(authenticated_response(geo, user, None)),
            SettingsLookup::Row(s) => Ok(authenticated_response(geo, user, Some(s))),
        },
    }
}

/// An anonymous request never carries identity-derived fields: the
/// resolution succeeds, every field but geo is absent, geo is present
/// exactly when the header was, verbatim when the header decodes as
/// text and `"Unknown"` otherwise.
pub proof fn lemma_anonymous_resolution(header: Option<Seq<u8>>)
    ensures
        resolve_spec(header, LookupView::NoToken) matches Ok(v) && {
            &&& v.is_authenticated is None
            &&& v.username is None
            &&& v.email is None
            &&& v.avatar_url is None
            &&& v.is_subscriber is None
            &&& v.subscription_type is None
            &&& v.settings is None
            &&& (v.geo is Some <==> header is Some)
            &&& (header matches Some(bytes) ==> v.geo == Some(
                GeoView { country: country_of_header(bytes) },
            ))
        },
{
}

/// A token that resolves to a user yields the full authenticated
/// document: `is_authenticated` is true, every identity field equals the
/// resolved record's value, a missing stored subscription type is
/// reported as the empty string, and `settings` is present exactly when
/// the store holds a row — its absence is not an error.
pub proof fn lemma_authenticated_resolution(
    header: Option<Seq<u8>>,
    user: UserView,
    settings: SettingsLookupView,
)
    requires
        settings !is StoreError,
    ensures
        resolve_spec(header, LookupView::Resolved { user, settings }) matches Ok(v) && {
            &&& v.is_authenticated == Some(true)
            &&& v.username == Some(user.user_id)
            &&& v.email == Some(user.email)
            &&& v.avatar_url == user.avatar_url
            &&& v.is_subscriber == Some(user.is_subscriber)
            &&& v.subscription_type == Some(
                subscription_type_or_default(user.subscription_type),
            )
            &&& v.geo == geo_spec(header)
            &&& (settings matches SettingsLookupView::Row(s) ==> v.settings == Some(s))
            &&& (settings is NoRow ==> v.settings is None)
        },
{
}

/// A present token that fails to resolve is an authentication error,
/// never an anonymous-looking success.
pub proof fn lemma_invalid_session(header: Option<Seq<u8>>)
    ensures
        resolve_spec(header, LookupView::UserNotFound) == Err::<ResponseView, ApiError>(
            ApiError::InvalidSession,
        ),
{
}

/// A store-level failure while fetching a resolved user's settings fails
/// the whole request: no partial document is ever emitted.
pub proof fn lemma_settings_store_failure(header: Option<Seq<u8>>, user: UserView)
    ensures
        resolve_spec(
            header,
            LookupView::Resolved { user, settings: SettingsLookupView::StoreError },
        ) == Err::<ResponseView, ApiError>(ApiError::StoreFailure),
{
}

/// Resolution is deterministic: two resolutions of the same header and
/// the same lookup outcome owe byte-identical documents, so repeated
/// calls with no intervening state change return the same response.
pub proof fn lemma_resolution_idempotent(
    header: Option<Seq<u8>>,
    lookup: LookupView,
    r1: Result<ResponseView, ApiError>,
    r2: Result<ResponseView, ApiError>,
)
    requires
        r1 == resolve_spec(header, lookup),
        r2 == resolve_spec(header, lookup),
    ensures
        r1 == r2,
{
}

/// Every document the resolver returns satisfies the all-or-nothing
/// invariant: authentication state is never partial.
pub proof fn lemma_resolution_well_formed(header: Option<Seq<u8>>, lookup: LookupView)
    ensures
        resolve_spec(header, lookup) matches Ok(v) ==> v.wf(),
{
}

} // verus!
