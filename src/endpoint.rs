//! The API base URL, and the URL of one method under it.
use vstd::prelude::*;
use vstd::string::{StrSliceExecFns, StringExecFns};

verus! {

/// What reqwest's `Url::parse` makes of a text, serialized back by
/// `Url::as_str`; `None` when the text is not an absolute URL.
pub uninterp spec fn url_serialized(s: Seq<char>) -> Option<Seq<char>>;

/// Relies on reqwest::Url::parse (the url crate's parser) and Url::as_str:
/// the serialization of the parsed URL, or `None` when parsing fails.
#[verifier::external_body]
fn parse_url(s: &str) -> (r: Option<String>)
    ensures
        match r {
            Some(t) => url_serialized(s@) == Some(t@),
            None => url_serialized(s@) is None,
        },
{
    match reqwest::Url::parse(s) {
        Ok(u) => Some(u.as_str().to_string()),
        Err(_) => None,
    }
}

/// A parsed base URL of the API, held as its serialization.
#[derive(Debug, Clone, PartialEq, Eq)]
pub struct BaseUrl {
    text: String,
}

impl View for BaseUrl {
    type V = Seq<char>;

    closed spec fn view(&self) -> Seq<char> {
        self.text@
    }
}

/// The serialization of the platform's own API base.
pub open spec fn default_base() -> Seq<char> {
    seq!['h', 't', 't', 'p', 's', ':', '/', '/', 'a', 'p', 'i', '.', 't', 'e', 'l', 'e', 'g', 'r',
        'a', 'm', '.', 'o', 'r', 'g', '/']
}

/// A base without its one trailing slash, if it has one.
pub open spec fn trim_slash(base: Seq<char>) -> Seq<char> {
    if base.len() > 0 && base.last() == '/' {
        base.drop_last()
    } else {
        base
    }
}

/// The URL of a method: the base, then `/bot<token>/<method>`.
pub open spec fn method_url_spec(base: Seq<char>, token: Seq<char>, method: Seq<char>) -> Seq<char> {
    trim_slash(base) + seq!['/', 'b', 'o', 't'] + token + seq!['/'] + method
}

impl BaseUrl {
    /// Parses a base URL; `None` when the text is not an absolute URL.
    pub fn parse(s: &str) -> (r: Option<BaseUrl>)
        ensures
            r is None <==> url_serialized(s@) is None,
            r matches Some(u) ==> url_serialized(s@) == Some(u@),
    {
        match parse_url(s) {
            Some(text) => Some(BaseUrl { text }),
            None => None,
        }
    }

    /// The platform's own API base.
    pub fn default_api() -> (r: BaseUrl)
        ensures
            r@ == default_base(),
    {
        proof { reveal_strlit("https://api.telegram.org/"); }
        let text = <String as StringExecFns>::from_str("https://api.telegram.org/");
        assert(text@ =~= default_base());
        BaseUrl { text }
    }

    /// The serialization of this URL.
    pub fn as_str(&self) -> (r: &str)
        ensures
            r@ == self@,
    {
        self.text.as_str()
    }

    /// A copy of this URL.
    pub fn copy(&self) -> (r: BaseUrl)
        ensures
            r@ == self@,
    {
        BaseUrl { text: self.text.clone() }
    }

    /// The URL of `method` for the bot with `token`.
    pub fn method_url(&self, token: &str, method: &str) -> (r: String)
        ensures
            r@ == method_url_spec(self@, token@, method@),
    {
        let s = self.text.as_str();
        let n = s.unicode_len();
        let mut out = if n > 0 && s.get_char(n - 1) == '/' {
            s.substring_char(0, n - 1).to_owned()
        } else {
            s.to_owned()
        };
        assert(out@ =~= trim_slash(self@));
        proof {
            reveal_strlit("/bot");
            reveal_strlit("/");
        }
        out.append("/bot");
        out.append(token);
        out.append("/");
        out.append(method);
        assert(out@ =~= method_url_spec(self@, token@, method@));
        out
    }
}

} // verus!
