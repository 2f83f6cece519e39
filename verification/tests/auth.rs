use cgp_patterns::component::{CanUseComponent, HasField};
use cgp_patterns::contexts::{AuthTokensStore, CanUseMockApp, CurrentTime, MockApp};
use cgp_patterns::failure::{Cause, Failure, FailureKind};
use cgp_patterns::store::TokenStore;
use cgp_patterns::traits::{
    AuthTokenValidatorComponent, CalendarTime, CanFetchAuthTokenExpiry, CanRaiseError, CanValidateAuthToken,
    ErrAuthTokenHasExpired, ErrAuthTokenInvalid, ErrorRaiserComponent, HasCurrentTime, Moment,
};
use std::marker::PhantomData;

fn app(now: u64) -> MockApp<u64> {
    let mut store = TokenStore::new();
    store.insert(String::from("early"), 1_000);
    store.insert(String::from("late"), 2_000);
    MockApp { auth_tokens_store: store, current_time: now }
}

fn wired<Context: CanUseMockApp>() {}

fn uses<Context: CanUseComponent<Component, Params>, Component, Params>() {}

#[test]
fn the_registry_of_the_mock_app_is_wired() {
    wired::<MockApp<u64>>();
    wired::<MockApp<CalendarTime>>();
    uses::<MockApp<u64>, AuthTokenValidatorComponent, ()>();
    uses::<MockApp<u64>, ErrorRaiserComponent, ErrAuthTokenHasExpired>();
    uses::<MockApp<u64>, ErrorRaiserComponent, ErrAuthTokenInvalid>();
}

#[test]
fn a_token_whose_expiry_lies_after_now_is_good() {
    assert_eq!(app(999).validate_auth_token(&String::from("early")), Ok(()));
    assert_eq!(app(999).validate_auth_token(&String::from("late")), Ok(()));
    assert_eq!(app(1_999).validate_auth_token(&String::from("late")), Ok(()));
    assert_eq!(app(0).validate_auth_token(&String::from("early")), Ok(()));
}

#[test]
fn a_token_whose_expiry_is_now_has_expired() {
    let failure = app(1_000).validate_auth_token(&String::from("early")).unwrap_err();
    assert_eq!(failure, Failure::raise(Cause::TokenExpired { token: String::from("early") }));
    assert_eq!(failure.kind(), FailureKind::Domain);
    assert_eq!(failure.chain(), vec![String::from("auth token has expired")]);
}

#[test]
fn a_token_whose_expiry_lies_before_now_has_expired() {
    let failure = app(1_001).validate_auth_token(&String::from("early")).unwrap_err();
    assert_eq!(failure.cause(), &Cause::TokenExpired { token: String::from("early") });
    assert_eq!(app(1_001).validate_auth_token(&String::from("late")), Ok(()));
    let failure = app(u64::MAX).validate_auth_token(&String::from("late")).unwrap_err();
    assert_eq!(failure.cause(), &Cause::TokenExpired { token: String::from("late") });
}

#[test]
fn an_unknown_token_is_invalid_and_not_expired() {
    for now in [0, 1_000, u64::MAX] {
        let failure = app(now).validate_auth_token(&String::from("nobody")).unwrap_err();
        assert_eq!(failure, Failure::raise(Cause::TokenInvalid { token: String::from("nobody") }));
        assert_ne!(failure, Failure::raise(Cause::TokenExpired { token: String::from("nobody") }));
        assert_eq!(failure.kind(), FailureKind::Domain);
        assert_eq!(failure.chain(), vec![String::from("invalid auth token")]);
    }
}

#[test]
fn a_token_with_expiry_zero_is_never_good() {
    let mut store = TokenStore::new();
    store.insert(String::from("t"), 0);
    let app = MockApp { auth_tokens_store: store, current_time: 0 };
    let failure = app.validate_auth_token(&String::from("t")).unwrap_err();
    assert_eq!(failure.cause(), &Cause::TokenExpired { token: String::from("t") });
}

#[test]
fn the_app_tells_its_time_and_the_expiry_of_a_token() {
    let app = app(1_234);
    assert_eq!(app.current_time(), Ok(1_234));
    assert_eq!(app.fetch_auth_token_expiry(&String::from("late")), Ok(2_000));
    assert_eq!(
        app.fetch_auth_token_expiry(&String::from("x")),
        Err(Failure::raise(Cause::TokenInvalid { token: String::from("x") }))
    );
}

#[test]
fn the_fields_are_read_by_their_tags() {
    let app = app(77);
    assert_eq!(*app.get_field(PhantomData::<CurrentTime>), 77);
    let store: &TokenStore<u64> = app.get_field(PhantomData::<AuthTokensStore>);
    assert_eq!(store.get(&String::from("early")), Some(1_000));
}

#[test]
fn the_app_raises_its_source_errors() {
    let failure = <MockApp<u64> as CanRaiseError<ErrAuthTokenHasExpired>>::raise_error(
        ErrAuthTokenHasExpired { token: String::from("t") },
    );
    assert_eq!(failure, Failure::raise(Cause::TokenExpired { token: String::from("t") }));
    let failure = <MockApp<u64> as CanRaiseError<ErrAuthTokenInvalid>>::raise_error(
        ErrAuthTokenInvalid { token: String::from("t") },
    );
    assert_eq!(failure, Failure::raise(Cause::TokenInvalid { token: String::from("t") }));
}

#[test]
fn milliseconds_are_ordered_as_numbers() {
    assert!(2u64.is_after(&1));
    assert!(!1u64.is_after(&1));
    assert!(!1u64.is_after(&2));
    assert!(u64::MAX.is_after(&0));
}

fn at(year: u16, month: u8, day: u8, hour: u8, minute: u8, second: u8) -> CalendarTime {
    CalendarTime { year, month, day, hour, minute, second }
}

#[test]
fn calendar_times_are_ordered_field_by_field() {
    assert!(at(2025, 1, 1, 0, 0, 0).is_after(&at(2024, 12, 31, 23, 59, 59)));
    assert!(at(2024, 2, 1, 0, 0, 0).is_after(&at(2024, 1, 31, 23, 59, 59)));
    assert!(at(2024, 1, 2, 0, 0, 0).is_after(&at(2024, 1, 1, 23, 59, 59)));
    assert!(at(2024, 1, 1, 1, 0, 0).is_after(&at(2024, 1, 1, 0, 59, 59)));
    assert!(at(2024, 1, 1, 0, 1, 0).is_after(&at(2024, 1, 1, 0, 0, 59)));
    assert!(at(2024, 1, 1, 0, 0, 1).is_after(&at(2024, 1, 1, 0, 0, 0)));
    assert!(!at(2024, 1, 1, 0, 0, 0).is_after(&at(2024, 1, 1, 0, 0, 0)));
    assert!(!at(2024, 12, 31, 23, 59, 59).is_after(&at(2025, 1, 1, 0, 0, 0)));
    assert!(at(65535, 255, 255, 255, 255, 255).is_after(&at(65535, 255, 255, 255, 255, 254)));
    assert!(at(0, 0, 0, 0, 0, 1).is_after(&at(0, 0, 0, 0, 0, 0)));
}

#[test]
fn a_context_with_calendar_time_validates_the_same_way() {
    let mut store = TokenStore::new();
    store.insert(String::from("t"), at(2024, 6, 1, 12, 0, 0));
    let before = MockApp { auth_tokens_store: store, current_time: at(2024, 6, 1, 11, 59, 59) };
    assert_eq!(before.validate_auth_token(&String::from("t")), Ok(()));

    let mut store = TokenStore::new();
    store.insert(String::from("t"), at(2024, 6, 1, 12, 0, 0));
    let on_time = MockApp { auth_tokens_store: store, current_time: at(2024, 6, 1, 12, 0, 0) };
    let failure = on_time.validate_auth_token(&String::from("t")).unwrap_err();
    assert_eq!(failure.cause(), &Cause::TokenExpired { token: String::from("t") });
    let failure = on_time.validate_auth_token(&String::from("u")).unwrap_err();
    assert_eq!(failure.cause(), &Cause::TokenInvalid { token: String::from("u") });
    assert_eq!(on_time.current_time(), Ok(at(2024, 6, 1, 12, 0, 0)));
}
