use whoami_profile::country_from_header;
use whoami_profile::decode_header_value;
use whoami_profile::resolve;
use whoami_profile::ApiError;
use whoami_profile::IdentityLookup;
use whoami_profile::SettingsLookup;
use whoami_profile::SettingsValue;
use whoami_profile::UserRecord;

fn sample_user() -> UserRecord {
    UserRecord {
        user_id: String::from("uid-0042"),
        email: String::from("ada@example.com"),
        avatar_url: Some(String::from("https://example.com/a.png")),
        is_subscriber: true,
        subscription_type: Some(String::from("plus")),
    }
}

fn sample_settings() -> SettingsValue {
    SettingsValue {
        locale_override: Some(String::from("fr")),
        no_ads: Some(true),
    }
}

#[test]
fn anonymous_without_header_is_empty() {
    let r = resolve(None, IdentityLookup::NoToken).unwrap();
    assert!(r.geo.is_none());
    assert!(r.username.is_none());
    assert!(r.is_authenticated.is_none());
    assert!(r.email.is_none());
    assert!(r.avatar_url.is_none());
    assert!(r.is_subscriber.is_none());
    assert!(r.subscription_type.is_none());
    assert!(r.settings.is_none());
}

#[test]
fn anonymous_with_country_header() {
    let header = Some(b"France".to_vec());
    let r = resolve(header, IdentityLookup::NoToken).unwrap();
    assert_eq!(r.geo.unwrap().country, "France");
    assert!(r.username.is_none());
    assert!(r.is_authenticated.is_none());
    assert!(r.email.is_none());
    assert!(r.avatar_url.is_none());
    assert!(r.is_subscriber.is_none());
    assert!(r.subscription_type.is_none());
    assert!(r.settings.is_none());
}

#[test]
fn undecodable_header_becomes_unknown() {
    let header = Some(vec![0xFFu8, 0x10, 0x80]);
    let r = resolve(header, IdentityLookup::NoToken).unwrap();
    assert_eq!(r.geo.unwrap().country, "Unknown");
}

#[test]
fn unresolved_token_is_invalid_session() {
    let header = Some(b"France".to_vec());
    let r = resolve(header, IdentityLookup::UserNotFound);
    assert_eq!(r.unwrap_err(), ApiError::InvalidSession);
}

#[test]
fn resolved_user_gets_full_profile() {
    let lookup = IdentityLookup::Resolved(sample_user(), SettingsLookup::Row(sample_settings()));
    let r = resolve(Some(b"France".to_vec()), lookup).unwrap();
    assert_eq!(r.geo.unwrap().country, "France");
    assert_eq!(r.username.unwrap(), "uid-0042");
    assert_eq!(r.is_authenticated, Some(true));
    assert_eq!(r.email.unwrap(), "ada@example.com");
    assert_eq!(r.avatar_url.unwrap(), "https://example.com/a.png");
    assert_eq!(r.is_subscriber, Some(true));
    assert_eq!(r.subscription_type.unwrap(), "plus");
    let settings = r.settings.unwrap();
    assert_eq!(settings.locale_override.unwrap(), "fr");
    assert_eq!(settings.no_ads, Some(true));
}

#[test]
fn missing_settings_row_omits_settings_only() {
    let lookup = IdentityLookup::Resolved(sample_user(), SettingsLookup::NoRow);
    let r = resolve(None, lookup).unwrap();
    assert!(r.settings.is_none());
    assert_eq!(r.is_authenticated, Some(true));
    assert_eq!(r.username.unwrap(), "uid-0042");
    assert_eq!(r.email.unwrap(), "ada@example.com");
    assert_eq!(r.is_subscriber, Some(true));
    assert_eq!(r.subscription_type.unwrap(), "plus");
}

#[test]
fn settings_store_error_fails_request() {
    let lookup = IdentityLookup::Resolved(sample_user(), SettingsLookup::StoreError);
    let r = resolve(Some(b"France".to_vec()), lookup);
    assert_eq!(r.unwrap_err(), ApiError::StoreFailure);
}

#[test]
fn missing_subscription_type_reported_as_empty() {
    let user = UserRecord {
        avatar_url: None,
        subscription_type: None,
        ..sample_user()
    };
    let lookup = IdentityLookup::Resolved(user, SettingsLookup::NoRow);
    let r = resolve(None, lookup).unwrap();
    assert_eq!(r.subscription_type.unwrap(), "");
    assert!(r.avatar_url.is_none());
    assert_eq!(r.is_authenticated, Some(true));
}

#[test]
fn repeated_resolution_is_identical() {
    let lookup = IdentityLookup::Resolved(sample_user(), SettingsLookup::Row(sample_settings()));
    let first = resolve(Some(b"France".to_vec()), lookup.clone());
    let second = resolve(Some(b"France".to_vec()), lookup);
    assert_eq!(first, second);
    let anon_first = resolve(Some(vec![0xFFu8]), IdentityLookup::NoToken);
    let anon_second = resolve(Some(vec![0xFFu8]), IdentityLookup::NoToken);
    assert_eq!(anon_first, anon_second);
}

#[test]
fn header_text_decodes_verbatim() {
    assert_eq!(
        decode_header_value(&b"New Zealand".to_vec()).unwrap(),
        "New Zealand"
    );
    assert_eq!(decode_header_value(&b"a\tb".to_vec()).unwrap(), "a\tb");
    assert_eq!(decode_header_value(&Vec::new()).unwrap(), "");
}

#[test]
fn header_control_bytes_do_not_decode() {
    assert!(decode_header_value(&vec![0x1Fu8]).is_none());
    assert!(decode_header_value(&vec![0x7Fu8]).is_none());
    assert!(decode_header_value(&vec![0x0Au8]).is_none());
    assert!(decode_header_value(&b"Fra\nnce".to_vec()).is_none());
}

#[test]
fn absent_header_yields_no_geo() {
    assert!(country_from_header(&None).is_none());
    let g = country_from_header(&Some(b"Japan".to_vec())).unwrap();
    assert_eq!(g.country, "Japan");
}
