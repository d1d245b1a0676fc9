use spotify_api::token_retrieval::{authorization_code, authorize_url, client_credentials};

#[test]
fn credentials_are_base64_of_id_and_secret() {
    assert_eq!(client_credentials("id", "secret"), "aWQ6c2VjcmV0");
    assert_eq!(client_credentials("", ""), "Og==");
}

#[test]
fn authorization_page() {
    let url = authorize_url("abc123");
    assert!(url.starts_with("https://accounts.spotify.com/authorize/?client_id=abc123&response_type=code"));
    assert!(url.contains("redirect_uri=http%3A%2F%2Flocalhost:8000%2F"));
    assert!(url.ends_with("user-read-recently-played"));
}

#[test]
fn code_from_the_redirect() {
    assert_eq!(authorization_code("/?code=AQBx"), "AQBx");
    assert_eq!(authorization_code("/?code="), "");
    assert_eq!(authorization_code("/?code=é"), "é");
    assert_eq!(authorization_code("é/?code=x"), "e=x");
}
