//! Session-introspection profile resolver.
//!
//! Given the signals carried by one inbound request — the raw bytes of an
//! optional geolocation header, and the outcome of the session and
//! user-store lookups — the library composes the response document that
//! tells the caller who they are: anonymous, authenticated with a full
//! profile, or holder of a session token that no longer resolves to a
//! user. Every branch of that policy is stated in contracts and verified.

pub mod geo;
pub mod model;
pub mod resolver;

pub use geo::byte_is_header_text;
pub use geo::country_from_header;
pub use geo::country_of_header;
pub use geo::decode_header_value;
pub use geo::decoded_text;
pub use geo::header_is_text;
pub use model::ApiError;
pub use model::GeoInfo;
pub use model::GeoView;
pub use model::IdentityLookup;
pub use model::LookupView;
pub use model::ResponseView;
pub use model::SettingsLookup;
pub use model::SettingsLookupView;
pub use model::SettingsValue;
pub use model::SettingsView;
pub use model::UserRecord;
pub use model::UserView;
pub use model::WhoamiResponse;
pub use resolver::anonymous_response;
pub use resolver::anonymous_spec;
pub use resolver::authenticated_response;
pub use resolver::authenticated_spec;
pub use resolver::geo_spec;
pub use resolver::outcome_view;
pub use resolver::resolve;
pub use resolver::resolve_spec;
pub use resolver::subscription_type_or_default;
