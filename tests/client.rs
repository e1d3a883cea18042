use mdl::api::{bearer, event_query, event_uri, grouped_events_uri, login_uri, user_groups_uri};
use mdl::download::ErrorKind;
use mdl::settings::{LoginResp, Settings};

#[test]
fn endpoint_addresses() {
    assert_eq!(login_uri(), "https://mds.production.momentos.life/login");
    assert_eq!(
        user_groups_uri("u1"),
        "https://mds.production.momentos.life/api/v1/users/u1/groups"
    );
    assert_eq!(
        grouped_events_uri("g1"),
        "https://mds.production.momentos.life/api/v1/groups/g1/events"
    );
    assert_eq!(
        event_uri("g1", "e1"),
        "https://mds.production.momentos.life/api/v1/groups/g1/events/e1"
    );
}

#[test]
fn event_query_pairs() {
    let q = event_query();
    assert_eq!(q.len(), 2);
    assert_eq!(q[0], (String::from("fields"), String::from("title,recording,published,transcript")));
    assert_eq!(q[1], (String::from("presignedURL"), String::from("true")));
}

#[test]
fn bearer_header() {
    assert_eq!(bearer("abc"), "Bearer abc");
}

#[test]
fn missing_credentials_are_auth_errors() {
    let s = Settings::new();
    assert_eq!(s.get_token(), None);
    assert_eq!(s.get_uid(), None);
    assert_eq!(s.require_token(), Err(ErrorKind::Auth));
    assert_eq!(s.require_uid(), Err(ErrorKind::Auth));
}

#[test]
fn credentials_after_login() {
    let mut s = Settings::new();
    s.set_uid("u0");
    s.set_token("t0");
    assert_eq!(s.get_uid(), Some("u0"));
    assert_eq!(s.get_token(), Some("t0"));
    let resp = LoginResp {
        jwt: String::from("jwt1"),
        id: String::from("u1"),
        privileges: String::from("user"),
    };
    s.apply_login(&resp);
    assert_eq!(s.require_token(), Ok(String::from("jwt1")));
    assert_eq!(s.require_uid(), Ok(String::from("u1")));
}
