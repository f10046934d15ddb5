//! The bot's identity: its token, its API base and its HTTP client, and the
//! requests it prepares for each payload.
use std::sync::Arc;
use vstd::prelude::*;
use crate::endpoint::{default_base, method_url_spec, BaseUrl};
use crate::payload::{
    encode_json, file_free, multipart_parts, multipart_spec, object_json, parts_view, present,
    Part, PayloadFields,
};

verus! {

/// reqwest's HTTP client: a handle onto one shared connection pool, carried
/// through as it is.
#[verifier::external_type_specification]
#[verifier::external_body]
pub struct ExClient(reqwest::Client);

/// Relies on reqwest's `Client::clone`: another handle onto the same pool.
pub assume_specification[ <reqwest::Client as Clone>::clone ](c: &reqwest::Client) -> reqwest::Client;

/// Where the bot's requests go: the platform's own base, or one the caller
/// set, shared between the copies of a bot.
#[derive(Debug, Clone)]
pub enum ApiUrl {
    Default,
    Custom(Arc<BaseUrl>),
}

impl ApiUrl {
    /// The base URL that this choice stands for.
    pub open spec fn base(&self) -> Seq<char> {
        match self {
            ApiUrl::Default => default_base(),
            ApiUrl::Custom(u) => (**u)@,
        }
    }

    /// Resolves this choice to a base URL.
    pub fn get(&self) -> (r: BaseUrl)
        ensures
            r@ == self.base(),
    {
        match self {
            ApiUrl::Default => BaseUrl::default_api(),
            ApiUrl::Custom(u) => u.copy(),
        }
    }
}

/// Sends requests to the platform: a token, an API base and an HTTP client.
/// A copy shares the client's connection pool; changing the base makes a new
/// value and leaves every other copy as it was.
#[derive(Debug, Clone)]
pub struct Bot {
    token: String,
    api_url: ApiUrl,
    client: reqwest::Client,
}

/// A JSON request ready to send: where, and what.
#[derive(Debug, Clone, PartialEq, Eq)]
pub struct JsonRequest {
    pub url: String,
    pub body: String,
}

/// A multipart request ready to send: where, and its parts in order.
#[derive(Debug, Clone, PartialEq, Eq)]
pub struct MultipartRequest {
    pub url: String,
    pub parts: Vec<Part>,
}

impl Bot {
    /// The bot's token.
    pub closed spec fn token_view(&self) -> Seq<char> {
        self.token@
    }

    /// The API base that the bot's requests go to.
    pub closed spec fn base_view(&self) -> Seq<char> {
        self.api_url.base()
    }

    /// The bot's HTTP client.
    pub closed spec fn client_view(&self) -> reqwest::Client {
        self.client
    }

    /// A bot with `token`, the platform's own API base, and `client`, used as
    /// it is.
    pub fn with_client(token: String, client: reqwest::Client) -> (r: Bot)
        ensures
            r.token_view() == token@,
            r.base_view() == default_base(),
            r.client_view() == client,
    {
        Bot { token, api_url: ApiUrl::Default, client }
    }

    /// The bot that `set_api_url` makes: only the API base differs.
    pub closed spec fn with_api_url(self, url: BaseUrl) -> Bot {
        Bot { api_url: ApiUrl::Custom(Arc::new(url)), ..self }
    }

    /// The same bot with its requests going to `url`.
    pub fn set_api_url(self, url: BaseUrl) -> (r: Bot)
        ensures
            r == self.with_api_url(url),
            r.token_view() == self.token_view(),
            r.client_view() == self.client_view(),
            r.base_view() == url@,
    {
        Bot { api_url: ApiUrl::Custom(Arc::new(url)), ..self }
    }

    /// The bot's token.
    pub fn token(&self) -> (r: &str)
        ensures
            r@ == self.token_view(),
    {
        self.token.as_str()
    }

    /// The bot's HTTP client.
    pub fn client(&self) -> (r: &reqwest::Client)
        ensures
            *r == self.client_view(),
    {
        &self.client
    }

    /// The API base that the bot's requests go to.
    pub fn api_url(&self) -> (r: BaseUrl)
        ensures
            r@ == self.base_view(),
    {
        self.api_url.get()
    }

    /// The URL of `method` for this bot.
    pub fn method_url(&self, method: &str) -> (r: String)
        ensures
            r@ == method_url_spec(self.base_view(), self.token_view(), method@),
    {
        let base = self.api_url.get();
        base.method_url(self.token.as_str(), method)
    }

    /// The JSON request for a payload; `None` when a field holds a file.
    pub fn json_request(&self, p: &PayloadFields) -> (r: Option<JsonRequest>)
        ensures
            r is None <==> !file_free(*p),
            r matches Some(q) ==> q.url@ == method_url_spec(self.base_view(), self.token_view(), p.method@)
                && q.body@ == object_json(present(*p)),
    {
        match encode_json(p) {
            None => None,
            Some(body) => Some(JsonRequest { url: self.method_url(p.method.as_str()), body }),
        }
    }

    /// The multipart request for a payload.
    pub fn multipart_request(&self, p: &PayloadFields) -> (r: MultipartRequest)
        ensures
            r.url@ == method_url_spec(self.base_view(), self.token_view(), p.method@),
            parts_view(r.parts@) == multipart_spec(*p),
    {
        MultipartRequest { url: self.method_url(p.method.as_str()), parts: multipart_parts(p) }
    }
}

/// Setting a base makes a new bot: it resolves to that base and keeps the
/// token and the client, while the bot it was made from, as any copy of it
/// holds it, still resolves to the base it had.
pub proof fn lemma_set_api_url_leaves_copies(a: Bot, u: BaseUrl)
    requires
        a.base_view() != u@,
    ensures
        ({
            let b = a.with_api_url(u);
            &&& b.base_view() == u@
            &&& b.token_view() == a.token_view()
            &&& b.client_view() == a.client_view()
            &&& a.base_view() != b.base_view()
        }),
{
}

} // verus!
