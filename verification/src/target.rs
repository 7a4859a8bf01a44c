//! The target of a forwarded request: an absolute URL and its host.

use vstd::prelude::*;

verus! {

/// A target that parsed as an absolute URL.
#[derive(Clone, Debug)]
pub struct Target {
    /// The URL in its normalized, serialized form.
    pub href: String,
    /// The URL's host, where it has one.
    pub host: Option<String>,
}

/// What a `Target` holds, as character sequences.
pub struct TargetView {
    pub href: Seq<char>,
    pub host: Option<Seq<char>>,
}

/// The characters of an optional string.
pub open spec fn text_of(s: Option<String>) -> Option<Seq<char>> {
    match s {
        Some(s) => Some(s@),
        None => None,
    }
}

impl View for Target {
    type V = TargetView;

    open spec fn view(&self) -> TargetView {
        TargetView { href: self.href@, host: text_of(self.host) }
    }
}

/// The host that the allow-list is asked about: the URL's host, or the empty
/// string for a URL without one.
pub open spec fn host_or_empty(host: Option<Seq<char>>) -> Seq<char> {
    match host {
        Some(h) => h,
        None => Seq::empty(),
    }
}

/// What the URL parser makes of `raw`: the serialized URL and its host, or
/// the parser's message where `raw` is no absolute URL.
pub uninterp spec fn url_parse(raw: Seq<char>) -> Result<TargetView, Seq<char>>;

/// Parses `raw` with `url::Url::parse` and copies out of the parsed URL what
/// `Url::as_str` and `Url::host_str` return; a parse error is handed back as
/// the text that its `Display` writes. Nothing is proved of the parser: the
/// contract only names its answer, which depends on `raw` alone.
#[verifier::external_body]
pub(crate) fn parse_url(raw: &str) -> (parsed: Result<Target, String>)
    ensures
        parsed_view(parsed) == url_parse(raw@),
{
    match url::Url::parse(raw) {
        Ok(url) => Ok(Target {
            href: url.as_str().to_string(),
            host: url.host_str().map(str::to_string),
        }),
        Err(error) => Err(error.to_string()),
    }
}

/// The outcome of parsing, as character sequences.
pub open spec fn parsed_view(parsed: Result<Target, String>) -> Result<TargetView, Seq<char>> {
    match parsed {
        Ok(target) => Ok(target@),
        Err(reason) => Err(reason@),
    }
}

impl Target {
    /// The host to authorize: the URL's host, or the empty string.
    pub fn host_str(&self) -> (host: String)
        ensures
            host@ == host_or_empty(self@.host),
    {
        match &self.host {
            Some(h) => h.clone(),
            None => String::new(),
        }
    }
}

} // verus!
