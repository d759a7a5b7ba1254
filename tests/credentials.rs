use lrapiut::credentials::Credentials;
use reqwest_cookie_store::CookieStore;

#[test]
fn credentials_round_trip() {
    let mut creds = Credentials::new("old".to_string(), "pw".to_string());
    let mut jar = CookieStore::default();
    creds.set_credentials("a".to_string(), "b".to_string(), &mut jar);
    assert_eq!(creds.get_credentials(), ("a".to_string(), "b".to_string()));
    assert_eq!(creds.username(), "a");
    assert_eq!(creds.password(), "b");
}

#[test]
fn set_credentials_empties_the_jar() {
    let mut creds = Credentials::new("u".to_string(), "p".to_string());
    let mut jar = CookieStore::default();
    let url = reqwest::Url::parse("https://notes.example.org/").unwrap();
    assert!(jar.parse("PHPSESSID=abc; Path=/", &url).is_ok());
    assert_eq!(jar.iter_any().count(), 1);
    creds.set_credentials("v".to_string(), "q".to_string(), &mut jar);
    assert_eq!(jar.iter_any().count(), 0);
    assert_eq!(creds.get_credentials(), ("v".to_string(), "q".to_string()));
}

#[test]
fn replacement_is_a_whole_pair() {
    let mut creds = Credentials::new("u1".to_string(), "p1".to_string());
    let mut jar = CookieStore::default();
    creds.set_credentials("u2".to_string(), "p2".to_string(), &mut jar);
    creds.set_credentials("u3".to_string(), "p3".to_string(), &mut jar);
    assert_eq!(creds.get_credentials(), ("u3".to_string(), "p3".to_string()));
}

#[test]
fn clear_session_empties_the_jar() {
    let mut jar = CookieStore::default();
    let url = reqwest::Url::parse("https://auth.example.org/cas/").unwrap();
    assert!(jar.parse("TGC=xyz; Path=/cas", &url).is_ok());
    assert!(jar.parse("lang=fr; Path=/", &url).is_ok());
    assert_eq!(jar.iter_any().count(), 2);
    lrapiut::credentials::clear_session(&mut jar);
    assert_eq!(jar.iter_any().count(), 0);
}
