use nation::clock::Timestamp;
use nation::credentials::Auth;
use nation::credentials::Credential;
use nation::credentials::CredentialKind;
use nation::credentials::Pin;

const TWO_HOURS: i64 = 7200;

fn at(secs: i64, nanos: u32) -> Timestamp {
    Timestamp { secs, nanos }
}

fn pin_issued(secs: i64) -> Pin {
    Pin { value: 4711, timestamp: at(secs, 0) }
}

fn text(s: &str) -> Option<String> {
    Some(s.to_string())
}

fn chosen(c: Credential) -> (Option<CredentialKind>, String) {
    match c {
        Credential::Pin(value) => (Some(CredentialKind::Pin), value.to_string()),
        Credential::Autologin(token) => (Some(CredentialKind::Autologin), token),
        Credential::Password(password) => (Some(CredentialKind::Password), password),
        Credential::Absent => (None, String::new()),
    }
}

#[test]
fn nanos_since_is_the_exact_difference() {
    assert_eq!(at(10, 5).nanos_since(&at(7, 2)), 3_000_000_003);
    assert_eq!(at(7, 2).nanos_since(&at(10, 5)), -3_000_000_003);
    assert_eq!(at(1, 0).nanos_since(&at(0, 999_999_999)), 1);
    assert_eq!(at(0, 0).nanos_since(&at(0, 0)), 0);
    assert_eq!(
        at(i64::MAX, 0).nanos_since(&at(i64::MIN, 0)),
        (i64::MAX as i128 - i64::MIN as i128) * 1_000_000_000
    );
}

#[test]
fn pin_is_valid_for_less_than_two_hours() {
    let pin = Pin { value: 1, timestamp: at(1_000, 500) };
    assert!(pin.valid_at(&at(1_000, 500)));
    assert!(pin.valid_at(&at(1_000 + TWO_HOURS - 1, 500)));
    assert!(pin.valid_at(&at(1_000 + TWO_HOURS, 499)));
    assert!(!pin.valid_at(&at(1_000 + TWO_HOURS, 500)));
    assert!(!pin.valid_at(&at(1_000 + TWO_HOURS, 501)));
    assert!(!pin.valid_at(&at(1_000 + 3 * TWO_HOURS, 0)));
}

#[test]
fn pin_from_the_future_is_valid() {
    let pin = Pin { value: 1, timestamp: at(5_000, 0) };
    assert!(pin.valid_at(&at(0, 0)));
}

#[test]
fn pin_validity_follows_the_system_clock() {
    assert!(!Pin { value: 1, timestamp: at(0, 0) }.valid());
    assert!(Pin { value: 1, timestamp: at(i64::MAX / 2, 0) }.valid());
}

#[test]
fn credential_kinds() {
    assert_eq!(Credential::Pin(3).kind(), Some(CredentialKind::Pin));
    assert_eq!(Credential::Autologin("t".to_string()).kind(), Some(CredentialKind::Autologin));
    assert_eq!(Credential::Password("p".to_string()).kind(), Some(CredentialKind::Password));
    assert_eq!(Credential::Absent.kind(), None);
}

#[test]
fn default_auth_is_empty() {
    let auth = Auth::default();
    assert!(auth.password.is_none() && auth.autologin.is_none() && auth.pin.is_none());
    assert!(!auth.usable());
}

#[test]
fn auth_with_one_credential_is_usable() {
    assert!(Auth { password: text("pw"), autologin: None, pin: None }.usable());
    assert!(Auth { password: None, autologin: text("tok"), pin: None }.usable());
    assert!(Auth { password: None, autologin: None, pin: Some(pin_issued(0)) }.usable());
}

#[test]
fn fresh_pin_comes_first() {
    let auth = Auth { password: text("pw"), autologin: text("tok"), pin: Some(pin_issued(100)) };
    assert_eq!(chosen(auth.select_at(&at(200, 0))), (Some(CredentialKind::Pin), "4711".to_string()));
}

#[test]
fn expired_pin_is_passed_over() {
    let auth = Auth { password: text("pw"), autologin: text("tok"), pin: Some(pin_issued(100)) };
    assert_eq!(
        chosen(auth.select_at(&at(100 + TWO_HOURS, 0))),
        (Some(CredentialKind::Autologin), "tok".to_string())
    );
    let auth = Auth { password: text("pw"), autologin: None, pin: Some(pin_issued(100)) };
    assert_eq!(
        chosen(auth.select_at(&at(100 + TWO_HOURS, 0))),
        (Some(CredentialKind::Password), "pw".to_string())
    );
    let auth = Auth { password: None, autologin: None, pin: Some(pin_issued(100)) };
    assert_eq!(chosen(auth.select_at(&at(100 + TWO_HOURS, 0))), (None, String::new()));
}

#[test]
fn autologin_comes_before_password() {
    let auth = Auth { password: text("pw"), autologin: text("tok"), pin: None };
    assert_eq!(chosen(auth.select_at(&at(0, 0))), (Some(CredentialKind::Autologin), "tok".to_string()));
}

#[test]
fn password_alone_is_selected_at_any_time() {
    let auth = Auth { password: text("pw"), autologin: None, pin: None };
    for now in [at(i64::MIN, 0), at(0, 0), at(1_700_000_000, 5), at(i64::MAX, 999_999_999)] {
        assert_eq!(chosen(auth.select_at(&now)), (Some(CredentialKind::Password), "pw".to_string()));
    }
}

#[test]
fn empty_auth_selects_nothing() {
    assert_eq!(chosen(Auth::default().select_at(&at(0, 0))), (None, String::new()));
}

#[test]
fn excluded_kind_is_never_selected() {
    let auth = Auth { password: text("pw"), autologin: text("tok"), pin: Some(pin_issued(100)) };
    let now = at(200, 0);
    assert_eq!(
        chosen(auth.select_excluding_at(Some(CredentialKind::Pin), &now)),
        (Some(CredentialKind::Autologin), "tok".to_string())
    );
    assert_eq!(
        chosen(auth.select_excluding_at(Some(CredentialKind::Autologin), &now)),
        (Some(CredentialKind::Pin), "4711".to_string())
    );
    assert_eq!(
        chosen(auth.select_excluding_at(Some(CredentialKind::Password), &now)),
        (Some(CredentialKind::Pin), "4711".to_string())
    );
    assert_eq!(chosen(auth.select_excluding_at(None, &now)), (Some(CredentialKind::Pin), "4711".to_string()));
    let auth = Auth { password: text("pw"), autologin: None, pin: Some(pin_issued(100)) };
    assert_eq!(
        chosen(auth.select_excluding_at(Some(CredentialKind::Pin), &now)),
        (Some(CredentialKind::Password), "pw".to_string())
    );
    let auth = Auth { password: None, autologin: None, pin: Some(pin_issued(100)) };
    assert_eq!(chosen(auth.select_excluding_at(Some(CredentialKind::Pin), &now)), (None, String::new()));
    let auth = Auth { password: text("pw"), autologin: None, pin: None };
    assert_eq!(chosen(auth.select_excluding_at(Some(CredentialKind::Password), &now)), (None, String::new()));
}

#[test]
fn renewing_nothing_keeps_the_set() {
    let mut auth = Auth { password: text("pw"), autologin: text("tok"), pin: Some(pin_issued(3)) };
    auth.renew(None, None);
    assert_eq!(auth.password, text("pw"));
    assert_eq!(auth.autologin, text("tok"));
    assert_eq!(auth.pin, Some(pin_issued(3)));
}

#[test]
fn renewed_autologin_drops_the_password() {
    let mut auth = Auth { password: text("pw"), autologin: None, pin: None };
    auth.renew(text("fresh"), None);
    assert_eq!(auth.password, None);
    assert_eq!(auth.autologin, text("fresh"));
    assert_eq!(auth.pin, None);
    let mut auth = Auth { password: text("pw"), autologin: text("stale"), pin: Some(pin_issued(3)) };
    auth.renew(text("fresh"), None);
    assert_eq!(auth.password, None);
    assert_eq!(auth.autologin, text("fresh"));
    assert_eq!(auth.pin, Some(pin_issued(3)));
}

#[test]
fn renewed_pin_takes_the_place_of_the_old_one() {
    let new_pin = Pin { value: 99, timestamp: at(50, 7) };
    let mut auth = Auth { password: text("pw"), autologin: None, pin: Some(pin_issued(3)) };
    auth.renew(None, Some(new_pin));
    assert_eq!(auth.pin, Some(new_pin));
    assert_eq!(auth.password, text("pw"));
    let mut auth = Auth::default();
    auth.renew(None, Some(new_pin));
    assert_eq!(auth.pin, Some(new_pin));
}

#[test]
fn clearing_the_pin_keeps_the_rest() {
    let mut auth = Auth { password: text("pw"), autologin: text("tok"), pin: Some(pin_issued(3)) };
    auth.clear_pin();
    assert_eq!(auth.pin, None);
    assert_eq!(auth.password, text("pw"));
    assert_eq!(auth.autologin, text("tok"));
}

#[test]
fn debug_string_shows_no_credential() {
    let auth = Auth { password: text("pw"), autologin: text("tok"), pin: Some(pin_issued(3)) };
    assert_eq!(auth.to_debug_string(), "Auth");
    assert_eq!(Auth::default().to_debug_string(), "Auth");
}
