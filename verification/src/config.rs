//! The site records that the generator consumes.
//!
//! A `Config` is a validated list of `Site` records. Each site names a
//! domain and optionally carries header rules, redirect rules and a free
//! trailing text. The records are immutable value objects: they are built
//! once by the configuration-loading collaborator and then only read.

use vstd::prelude::*;

verus! {

/// One header rule: every name/value pair is added, with `always`
/// semantics, for requests matching the location `for_field`.
#[derive(Clone)]
pub struct Header {
    /// The location pattern the headers apply to.
    pub for_field: String,
    /// Header name/value pairs; names are unique within one rule.
    pub values: Vec<(String, String)>,
}

/// One redirect rule: requests matching `from_field` exactly are answered
/// with `status_code` and the target URL `to`.
#[derive(Clone)]
pub struct Redirect {
    /// The exact path to match.
    pub from_field: String,
    /// The target URL of the redirect.
    pub to: String,
    /// The redirect status code of the answer.
    pub status_code: u16,
}

/// One site record, producing exactly one output document.
#[derive(Clone)]
pub struct Site {
    /// The domain served; also the stem of the output file name.
    pub domain: String,
    /// Header rules; absence means none.
    pub headers: Option<Vec<Header>>,
    /// Redirect rules; absence means none.
    pub redirects: Option<Vec<Redirect>>,
    /// Free text appended verbatim at the end of the main server block.
    pub extra: Option<String>,
}

/// The validated list of sites handed to the generator.
#[derive(Clone)]
pub struct Config {
    /// The sites, in input order.
    pub sites: Vec<Site>,
}

/// The status code a redirect rule gets when the input names none.
pub fn default_redirect_status_code() -> (r: u16)
    ensures
        r == 302,
{
    302
}

/// `code` lies in the redirection class of status codes.
pub open spec fn is_redirect_status(code: u16) -> bool {
    300 <= code <= 399
}

/// The header names of one rule are pairwise distinct.
pub open spec fn header_wf(h: Header) -> bool {
    forall|i: int, j: int|
        0 <= i < j < h.values@.len() ==> h.values@[i].0@ != h.values@[j].0@
}

impl Site {
    /// The header rules, with absence normalized to the empty sequence.
    pub open spec fn headers_seq(&self) -> Seq<Header> {
        match self.headers {
            Some(hs) => hs@,
            None => Seq::empty(),
        }
    }

    /// The redirect rules, with absence normalized to the empty sequence.
    pub open spec fn redirects_seq(&self) -> Seq<Redirect> {
        match self.redirects {
            Some(rs) => rs@,
            None => Seq::empty(),
        }
    }

    /// A valid site: non-empty domain, distinct header names within each
    /// rule, and a redirection status code on every redirect rule.
    pub open spec fn wf(&self) -> bool {
        &&& self.domain@.len() > 0
        &&& forall|i: int|
            0 <= i < self.headers_seq().len() ==> header_wf(#[trigger] self.headers_seq()[i])
        &&& forall|i: int|
            0 <= i < self.redirects_seq().len() ==> is_redirect_status(
                #[trigger] self.redirects_seq()[i].status_code,
            )
    }

    /// The name of the output file for this site: `<domain>.conf`.
    pub fn filename(&self) -> (r: String)
        ensures
            r@ == self.domain@ + ".conf"@,
    {
        let mut out = self.domain.clone();
        out.append(".conf");
        out
    }
}

/// True exactly when the header names of `h` are pairwise distinct.
pub fn check_header(h: &Header) -> (r: bool)
    ensures
        r == header_wf(*h),
{
    let n = h.values.len();
    let mut i: usize = 0;
    while i < n
        invariant
            n == h.values@.len(),
            i <= n,
            forall|p: int, q: int| 0 <= p < q < i ==> h.values@[p].0@ != h.values@[q].0@,
        decreases n - i,
    {
        let mut j: usize = 0;
        while j < i
            invariant
                n == h.values@.len(),
                i < n,
                j <= i,
                forall|q: int| 0 <= q < j ==> h.values@[q].0@ != h.values@[i as int].0@,
            decreases i - j,
        {
            if h.values[j].0 == h.values[i].0 {
                return false;
            }
            j = j + 1;
        }
        i = i + 1;
    }
    true
}

/// True exactly when `site` is a valid record.
pub fn check_site(site: &Site) -> (r: bool)
    ensures
        r == site.wf(),
{
    if site.domain.as_str().is_empty() {
        return false;
    }
    match &site.headers {
        Some(hs) => {
            let n = hs.len();
            let mut i: usize = 0;
            while i < n
                invariant
                    n == hs@.len(),
                    i <= n,
                    site.headers_seq() == hs@,
                    forall|p: int| 0 <= p < i ==> header_wf(#[trigger] hs@[p]),
                decreases n - i,
            {
                if !check_header(&hs[i]) {
                    return false;
                }
                i = i + 1;
            }
        },
        None => {},
    }
    match &site.redirects {
        Some(rs) => {
            let n = rs.len();
            let mut i: usize = 0;
            while i < n
                invariant
                    n == rs@.len(),
                    i <= n,
                    site.redirects_seq() == rs@,
                    forall|p: int|
                        0 <= p < i ==> is_redirect_status(#[trigger] rs@[p].status_code),
                decreases n - i,
            {
                let code = rs[i].status_code;
                if !(300 <= code && code <= 399) {
                    return false;
                }
                i = i + 1;
            }
        },
        None => {},
    }
    true
}

impl Config {
    /// Every site in the list is a valid record.
    pub open spec fn wf(&self) -> bool {
        forall|i: int| 0 <= i < self.sites@.len() ==> (#[trigger] self.sites@[i]).wf()
    }
}

/// Describes the one site of the example configuration: `example.com`,
/// one header rule for `/*` with three fixed response headers, and one
/// redirect rule sending `/example` to `http://example.com` with 301.
pub open spec fn example_site_desc(s: Site) -> bool {
    &&& s.domain@ == "example.com"@
    &&& s.headers is Some
    &&& s.headers_seq().len() == 1
    &&& s.headers_seq()[0].for_field@ == "/*"@
    &&& s.headers_seq()[0].values@.len() == 3
    &&& s.headers_seq()[0].values@[0].0@ == "Cache-Control"@
    &&& s.headers_seq()[0].values@[0].1@ == "public"@
    &&& s.headers_seq()[0].values@[1].0@ == "Referrer-Policy"@
    &&& s.headers_seq()[0].values@[1].1@ == "strict-origin-when-cross-origin"@
    &&& s.headers_seq()[0].values@[2].0@ == "Strict-Transport-Security"@
    &&& s.headers_seq()[0].values@[2].1@ == "max-age=31536000; includeSubDomains; preload"@
    &&& s.redirects is Some
    &&& s.redirects_seq().len() == 1
    &&& s.redirects_seq()[0].from_field@ == "/example"@
    &&& s.redirects_seq()[0].to@ == "http://example.com"@
    &&& s.redirects_seq()[0].status_code == 301
    &&& s.extra is None
}

impl Config {
    /// A ready-made example configuration with a single site.
    pub fn example() -> (r: Config)
        ensures
            r.sites@.len() == 1,
            example_site_desc(r.sites@[0]),
            r.wf(),
    {
        let mut values: Vec<(String, String)> = Vec::new();
        values.push((String::from_str("Cache-Control"), String::from_str("public")));
        values.push(
            (
                String::from_str("Referrer-Policy"),
                String::from_str("strict-origin-when-cross-origin"),
            ),
        );
        values.push(
            (
                String::from_str("Strict-Transport-Security"),
                String::from_str("max-age=31536000; includeSubDomains; preload"),
            ),
        );
        proof {
            reveal_strlit("Cache-Control");
            reveal_strlit("Referrer-Policy");
            reveal_strlit("Strict-Transport-Security");
            assert("Cache-Control"@.len() == 13);
            assert("Referrer-Policy"@.len() == 15);
            assert("Strict-Transport-Security"@.len() == 25);
            assert(values@.len() == 3);
            assert(values@[0].0@ == "Cache-Control"@);
            assert(values@[1].0@ == "Referrer-Policy"@);
            assert(values@[2].0@ == "Strict-Transport-Security"@);
        }
        let h = Header { for_field: String::from_str("/*"), values };
        proof {
            assert forall|i: int, j: int|
                0 <= i < j < h.values@.len() implies h.values@[i].0@ != h.values@[j].0@ by {
                assert(h.values@[i].0@.len() != h.values@[j].0@.len());
            }
            assert(header_wf(h));
        }
        let rd = Redirect {
            from_field: String::from_str("/example"),
            to: String::from_str("http://example.com"),
            status_code: 301,
        };
        let mut headers: Vec<Header> = Vec::new();
        headers.push(h);
        let mut redirects: Vec<Redirect> = Vec::new();
        redirects.push(rd);
        let example_site = Site {
            domain: String::from_str("example.com"),
            headers: Some(headers),
            redirects: Some(redirects),
            extra: None,
        };
        proof {
            reveal_strlit("example.com");
            assert(example_site.wf());
        }
        let mut sites: Vec<Site> = Vec::new();
        sites.push(example_site);
        Config { sites }
    }
}

} // verus!
