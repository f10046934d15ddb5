use teloxide_core::{sound_settings, BaseUrl, Bot, GetUserProfilePhotos, SendMediaGroup, ChatId};

fn bot() -> Bot {
    Bot::with_client("123:abc".to_string(), reqwest::Client::new())
}

#[test]
fn default_base_and_method_url() {
    let b = bot();
    assert_eq!(b.token(), "123:abc");
    assert_eq!(b.api_url().as_str(), "https://api.telegram.org/");
    assert_eq!(b.method_url("GetMe"), "https://api.telegram.org/bot123:abc/GetMe");
}

#[test]
fn set_api_url_leaves_older_copies() {
    let a = bot();
    let copy = a.clone();
    let u = BaseUrl::parse("https://example.com/").unwrap();
    let b = a.set_api_url(u);
    assert_eq!(b.api_url().as_str(), "https://example.com/");
    assert_eq!(b.clone().api_url().as_str(), "https://example.com/");
    assert_ne!(copy.api_url().as_str(), "https://example.com/");
    assert_eq!(b.token(), copy.token());
}

#[test]
fn custom_base_keeps_its_path() {
    let b = bot().set_api_url(BaseUrl::parse("https://localhost/tbas").unwrap());
    assert_eq!(b.method_url("SendMediaGroup"), "https://localhost/tbas/bot123:abc/SendMediaGroup");
}

#[test]
fn unparsable_base_is_refused() {
    assert_eq!(BaseUrl::parse("not a url"), None);
    assert_eq!(BaseUrl::parse("HTTPS://Example.COM").unwrap().as_str(), "https://example.com/");
}

#[test]
fn json_request_for_payload() {
    let q = bot().json_request(&GetUserProfilePhotos::new(1).fields()).unwrap();
    assert_eq!(q.url, "https://api.telegram.org/bot123:abc/GetUserProfilePhotos");
    assert_eq!(q.body, r#"{"user_id":1}"#);
}

#[test]
fn multipart_request_for_payload() {
    let q = bot().multipart_request(&SendMediaGroup::new(ChatId::Id(2), "[]".to_string()).fields());
    assert_eq!(q.url, "https://api.telegram.org/bot123:abc/SendMediaGroup");
    assert_eq!(q.parts.len(), 2);
}

#[test]
fn sound_settings_timeouts() {
    let s = sound_settings();
    assert_eq!(s.connect_timeout_secs, 5);
    assert_eq!(s.timeout_secs, 17);
    assert!(s.tcp_nodelay && s.keep_alive);
}

#[test]
fn set_api_url_keeps_token_and_client() {
    let a = bot();
    let b = a.set_api_url(BaseUrl::parse("http://127.0.0.1:8081").unwrap());
    assert_eq!(b.token(), "123:abc");
    assert_eq!(b.api_url().as_str(), "http://127.0.0.1:8081/");
    assert_eq!(b.method_url("GetMe"), "http://127.0.0.1:8081/bot123:abc/GetMe");
    let _client: &reqwest::Client = b.client();
}
