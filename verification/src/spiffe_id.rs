//! The identity name of a workload: a trust domain and a path, written
//! `spiffe://<trust-domain><path>`.

use vstd::prelude::*;
use vstd::string::*;
use crate::error::Error;
use crate::text::{chars_of, contains_char, str_equal};
use crate::uri::{parse_url, url_parse, ParsedUrl, UrlParts};

verus! {

/// An identity name as a mathematical value.
pub struct SpiffeIdView {
    /// The trust domain.
    pub trust_domain: Seq<char>,
    /// The path, beginning with `/`.
    pub path: Seq<char>,
}

/// The scheme of every identity name.
pub open spec fn scheme() -> Seq<char> {
    "spiffe"@
}

/// What every identity name begins with.
pub open spec fn scheme_prefix() -> Seq<char> {
    "spiffe://"@
}

/// The characters of `scheme_prefix`.
pub proof fn lemma_scheme_prefix()
    ensures
        scheme_prefix() == seq!['s', 'p', 'i', 'f', 'f', 'e', ':', '/', '/'],
        scheme_prefix().len() == 9,
{
    reveal_strlit("spiffe://");
}

/// A trust domain that `new` takes: not empty, and free of `/` and `:`.
pub open spec fn domain_accepted(domain: Seq<char>) -> bool {
    domain.len() > 0 && !domain.contains('/') && !domain.contains(':')
}

/// The path with a `/` put in front where it has none.
pub open spec fn normalized_path(path: Seq<char>) -> Seq<char> {
    if path.len() > 0 && path[0] == '/' {
        path
    } else {
        seq!['/'] + path
    }
}

/// The text form of the name made of `domain` and `path`.
pub open spec fn canonical_text(domain: Seq<char>, path: Seq<char>) -> Seq<char> {
    scheme_prefix() + domain + path
}

/// Whether a segment of `path`, the text between two `/` or between a `/` and
/// an end of the path, is `..`.
pub open spec fn has_dot_dot_segment(path: Seq<char>) -> bool {
    exists|i: int| is_dot_dot_at(path, i)
}

/// Whether the two characters from `i` on are a whole segment `..` of `path`.
pub open spec fn is_dot_dot_at(path: Seq<char>, i: int) -> bool {
    &&& 0 <= i
    &&& i + 2 <= path.len()
    &&& path[i] == '.'
    &&& path[i + 1] == '.'
    &&& (i == 0 || path[i - 1] == '/')
    &&& (i + 2 == path.len() || path[i + 2] == '/')
}

/// A URL that can name a workload: scheme `spiffe`, and a hierarchy after it.
pub open spec fn url_accepted_by_new(u: UrlParts) -> bool {
    u.scheme == scheme() && !u.cannot_be_a_base
}

/// A URL that names a workload: scheme `spiffe`, a host, and a path beyond `/`.
pub open spec fn url_names_workload(u: UrlParts) -> bool {
    &&& u.scheme == scheme()
    &&& u.host matches Some(h) && h.len() > 0
    &&& u.path.len() > 0
    &&& u.path != seq!['/']
}

/// The name that `new` makes of a trust domain and a path, where it makes one.
pub open spec fn spec_new(domain: Seq<char>, path: Seq<char>) -> Option<SpiffeIdView> {
    let p = normalized_path(path);
    if domain_accepted(domain) && path.len() > 0 && (url_parse(canonical_text(domain, p)) matches Some(u)
        && url_accepted_by_new(u)) {
        Some(SpiffeIdView { trust_domain: domain, path: p })
    } else {
        None
    }
}

/// The name that `parse` reads from a text, where it reads one.
pub open spec fn spec_parse(text: Seq<char>) -> Option<SpiffeIdView> {
    match url_parse(text) {
        Some(u) => if url_names_workload(u) {
            Some(SpiffeIdView { trust_domain: u.host->0, path: u.path })
        } else {
            None
        },
        None => None,
    }
}

/// A name that `validate` accepts.
pub open spec fn valid_id(id: SpiffeIdView) -> bool {
    &&& id.trust_domain.len() > 0
    &&& id.path.len() > 0
    &&& id.path != seq!['/']
    &&& !has_dot_dot_segment(id.path)
}

/// The identity name of a workload.
#[derive(Debug, Hash)]
pub struct SpiffeId {
    trust_domain: String,
    path: String,
}

impl View for SpiffeId {
    type V = SpiffeIdView;

    closed spec fn view(&self) -> SpiffeIdView {
        SpiffeIdView { trust_domain: self.trust_domain@, path: self.path@ }
    }
}

impl Clone for SpiffeId {
    fn clone(&self) -> (r: Self)
        ensures
            r@ == self@,
    {
        SpiffeId { trust_domain: self.trust_domain.clone(), path: self.path.clone() }
    }
}

impl PartialEq for SpiffeId {
    fn eq(&self, other: &Self) -> (r: bool) {
        self.trust_domain == other.trust_domain && self.path == other.path
    }
}

impl Eq for SpiffeId {

}

impl vstd::std_specs::cmp::PartialEqSpecImpl for SpiffeId {
    open spec fn obeys_eq_spec() -> bool {
        true
    }

    open spec fn eq_spec(&self, other: &Self) -> bool {
        self@ == other@
    }
}

/// Whether some segment of `path` is `..`.
fn path_has_dot_dot(path: &Vec<char>) -> (r: bool)
    ensures
        r == has_dot_dot_segment(path@),
{
    let n = path.len();
    let mut i: usize = 0;
    while i < n
        invariant
            n == path.len(),
            i <= n,
            forall|k: int| 0 <= k < i ==> !is_dot_dot_at(path@, k),
        decreases n - i,
    {
        if n - i >= 2 && path[i] == '.' && path[i + 1] == '.' && (i == 0 || path[i - 1] == '/') && (
        i + 2 == n || path[i + 2] == '/') {
            assert(is_dot_dot_at(path@, i as int));
            return true;
        }
        i = i + 1;
    }
    false
}

impl SpiffeId {
    /// The checks of `new` on its two arguments: the trust domain must not
    /// be empty nor hold `/` or `:`, and the path must not be empty.
    fn check_parts(trust_domain: &str, path: &str) -> (r: Result<(), Error>)
        ensures
            r is Ok <==> domain_accepted(trust_domain@) && path@.len() > 0,
            r matches Err(e) ==> e is InvalidSpiffeId,
    {
        if trust_domain.is_empty() {
            return Err(Error::invalid_spiffe_id("Trust domain cannot be empty"));
        }
        let domain_chars = chars_of(trust_domain);
        if contains_char(&domain_chars, '/') || contains_char(&domain_chars, ':') {
            return Err(Error::invalid_spiffe_id("Trust domain cannot contain '/' or ':'"));
        }
        if path.is_empty() {
            return Err(Error::invalid_spiffe_id("Path cannot be empty"));
        }
        Ok(())
    }

    /// The path with a `/` put in front where it has none.
    fn normalize_path(path: &str) -> (r: String)
        requires
            path@.len() > 0,
        ensures
            r@ == normalized_path(path@),
    {
        proof {
            reveal_strlit("/");
            assert("/"@ =~= seq!['/']);
        }
        if path.get_char(0) != '/' {
            String::from_str("/").concat(path)
        } else {
            path.to_owned()
        }
    }

    /// Makes a name from a trust domain and a path, given what the URL
    /// parser made of the text form. The trust domain must not be empty nor
    /// hold `/` or `:`, the path must not be empty, and the URL must have
    /// the scheme `spiffe` and a hierarchy. The path gets a `/` in front
    /// where it has none. Host and path of the URL are not looked at.
    pub fn new_with_url(trust_domain: &str, path: &str, url: &ParsedUrl) -> (r: Result<
        SpiffeId,
        Error,
    >)
        ensures
            match r {
                Ok(id) => {
                    &&& domain_accepted(trust_domain@)
                    &&& path@.len() > 0
                    &&& url_accepted_by_new(url@)
                    &&& id@ == (SpiffeIdView {
                        trust_domain: trust_domain@,
                        path: normalized_path(path@),
                    })
                },
                Err(e) => {
                    &&& !(domain_accepted(trust_domain@) && path@.len() > 0 && url_accepted_by_new(
                        url@,
                    ))
                    &&& e is InvalidSpiffeId
                },
            },
    {
        Self::check_parts(trust_domain, path)?;
        if !str_equal(url.scheme.as_str(), "spiffe") {
            return Err(Error::invalid_spiffe_id("Scheme must be 'spiffe'"));
        }
        if url.cannot_be_a_base {
            return Err(Error::invalid_spiffe_id("Invalid SPIFFE ID structure"));
        }
        Ok(SpiffeId { trust_domain: trust_domain.to_owned(), path: Self::normalize_path(path) })
    }

    /// Makes a name from a trust domain and a path. The path gets a `/` in
    /// front where it has none. The trust domain must not be empty nor hold
    /// `/` or `:`, the path must not be empty, and the URL parser must read
    /// the text form as a `spiffe` URL with a hierarchy.
    pub fn new(trust_domain: &str, path: &str) -> (r: Result<SpiffeId, Error>)
        ensures
            match r {
                Ok(id) => spec_new(trust_domain@, path@) == Some(id@),
                Err(e) => {
                    &&& spec_new(trust_domain@, path@) is None
                    &&& e is InvalidSpiffeId || e is UrlError
                    &&& e is UrlError <==> domain_accepted(trust_domain@) && path@.len() > 0
                        && url_parse(
                        canonical_text(trust_domain@, normalized_path(path@)),
                    ) is None
                },
            },
    {
        Self::check_parts(trust_domain, path)?;
        let normalized = Self::normalize_path(path);
        let url_str = String::from_str("spiffe://").concat(trust_domain).concat(
            normalized.as_str(),
        );
        let raw_url = match parse_url(url_str.as_str()) {
            Ok(u) => u,
            Err(e) => {
                return Err(Error::UrlError(e));
            },
        };
        Self::new_with_url(trust_domain, path, &raw_url)
    }

    /// The name that a parsed URL stands for: the scheme must be `spiffe`,
    /// the host is the trust domain and must not be empty, and the path
    /// must be more than `/`.
    pub fn from_url(url: ParsedUrl) -> (r: Result<SpiffeId, Error>)
        ensures
            match r {
                Ok(id) => url_names_workload(url@) && id@ == (SpiffeIdView {
                    trust_domain: url@.host->0,
                    path: url@.path,
                }),
                Err(e) => !url_names_workload(url@) && e is InvalidSpiffeId,
            },
    {
        if !str_equal(url.scheme.as_str(), "spiffe") {
            return Err(Error::invalid_spiffe_id("Invalid scheme, expected 'spiffe'"));
        }
        let trust_domain = match url.host {
            Some(h) => h,
            None => {
                return Err(Error::invalid_spiffe_id("Missing trust domain"));
            },
        };
        if trust_domain.as_str().is_empty() {
            return Err(Error::invalid_spiffe_id("Empty trust domain"));
        }
        proof {
            reveal_strlit("/");
            assert("/"@ =~= seq!['/']);
        }
        if url.path.as_str().is_empty() || str_equal(url.path.as_str(), "/") {
            return Err(Error::invalid_spiffe_id("SPIFFE ID must have a non-empty path"));
        }
        Ok(SpiffeId { trust_domain, path: url.path })
    }

    /// Reads a name from its text form. The URL parser must accept the text,
    /// the scheme must be `spiffe`, the host is the trust domain and must not
    /// be empty, and the path must be more than `/`.
    pub fn parse(s: &str) -> (r: Result<SpiffeId, Error>)
        ensures
            match r {
                Ok(id) => spec_parse(s@) == Some(id@),
                Err(e) => {
                    &&& spec_parse(s@) is None
                    &&& e is InvalidSpiffeId || e is UrlError
                    &&& e is UrlError <==> url_parse(s@) is None
                },
            },
    {
        let url = match parse_url(s) {
            Ok(u) => u,
            Err(e) => {
                return Err(Error::UrlError(e));
            },
        };
        Self::from_url(url)
    }

    /// The trust domain.
    pub fn trust_domain(&self) -> (r: &str)
        ensures
            r@ == self@.trust_domain,
    {
        self.trust_domain.as_str()
    }

    /// The path.
    pub fn path(&self) -> (r: &str)
        ensures
            r@ == self@.path,
    {
        self.path.as_str()
    }

    /// The text form: `spiffe://`, the trust domain, the path.
    pub fn to_string(&self) -> (r: String)
        ensures
            r@ == canonical_text(self@.trust_domain, self@.path),
    {
        String::from_str("spiffe://").concat(self.trust_domain.as_str()).concat(self.path.as_str())
    }

    /// What the URL parser makes of the text form.
    pub fn as_url(&self) -> (r: Result<ParsedUrl, Error>)
        ensures
            match r {
                Ok(u) => url_parse(canonical_text(self@.trust_domain, self@.path)) == Some(u@),
                Err(e) => e is UrlError && url_parse(
                    canonical_text(self@.trust_domain, self@.path),
                ) is None,
            },
    {
        let text = self.to_string();
        match parse_url(text.as_str()) {
            Ok(u) => Ok(u),
            Err(e) => Err(Error::UrlError(e)),
        }
    }

    /// Whether the name belongs to `trust_domain`: the two are the same text.
    pub fn is_member_of(&self, trust_domain: &str) -> (r: bool)
        ensures
            r == (self@.trust_domain == trust_domain@),
    {
        str_equal(self.trust_domain.as_str(), trust_domain)
    }

    /// Checks the name again: the trust domain is not empty, the path is more
    /// than `/`, and no segment of the path is `..`.
    pub fn validate(&self) -> (r: Result<(), Error>)
        ensures
            r is Ok <==> valid_id(self@),
            r matches Err(e) ==> e is InvalidSpiffeId,
    {
        if self.trust_domain.as_str().is_empty() {
            return Err(Error::invalid_spiffe_id("Empty trust domain"));
        }
        proof {
            reveal_strlit("/");
            assert("/"@ =~= seq!['/']);
        }
        if self.path.as_str().is_empty() || str_equal(self.path.as_str(), "/") {
            return Err(Error::invalid_spiffe_id("Invalid path"));
        }
        if path_has_dot_dot(&chars_of(self.path.as_str())) {
            return Err(Error::invalid_spiffe_id("Path cannot contain '..' segments"));
        }
        Ok(())
    }
}

impl core::str::FromStr for SpiffeId {
    type Err = Error;

    /// Reads a name from its text form, as `parse` does.
    fn from_str(s: &str) -> (r: Result<Self, Error>)
        ensures
            match r {
                Ok(id) => spec_parse(s@) == Some(id@),
                Err(e) => {
                    &&& spec_parse(s@) is None
                    &&& e is InvalidSpiffeId || e is UrlError
                    &&& e is UrlError <==> url_parse(s@) is None
                },
            },
    {
        SpiffeId::parse(s)
    }
}

/// A name made by `new` reads back from its text form as the same name,
/// provided that the path is more than `/` and that the URL parser hands the
/// trust domain and the path back as they were written.
pub proof fn new_then_parse_round_trip(domain: Seq<char>, path: Seq<char>)
    requires
        spec_new(domain, path) is Some,
        normalized_path(path) != seq!['/'],
        url_parse(canonical_text(domain, normalized_path(path))) matches Some(u) && u.host == Some(
            domain,
        ) && u.path == normalized_path(path),
    ensures
        spec_parse(canonical_text(domain, normalized_path(path))) == spec_new(domain, path),
        spec_new(domain, path)->0.trust_domain == domain,
        spec_new(domain, path)->0.path == normalized_path(path),
{
}

/// A text whose scheme is not `spiffe`, or that has no trust domain, or no
/// path beyond `/`, is no name.
pub proof fn parse_rejects_foreign_or_incomplete(text: Seq<char>)
    requires
        url_parse(text) matches Some(u) ==> u.scheme != scheme() || u.host is None || u.host->0.len()
            == 0 || u.path.len() == 0 || u.path == seq!['/'],
    ensures
        spec_parse(text) is None,
{
}

} // verus!
