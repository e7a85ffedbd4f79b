//! Rendering one site record into its nginx virtual-host document.
//!
//! The document holds two server blocks. The first carries the toggled
//! domain name (see `crate::filter`) and answers every request with a 301
//! redirect to the plain domain. The second serves the domain itself,
//! proxies to the fixed upstream storage endpoint under a path named
//! after the domain, and then holds one location block per header rule,
//! one per redirect rule, and the free trailing text when present.
//!
//! `render_site` is a pure function of the site record: its contract pins
//! every character of the document, so equal records always render to
//! byte-identical documents.

use vstd::prelude::*;

use crate::config::{Header, Redirect, Site, is_redirect_status};
use crate::filter::{redirect_domain, toggle_www};

verus! {

/// The character of a single decimal digit.
pub open spec fn digit_char(d: int) -> char {
    if d == 0 {
        '0'
    } else if d == 1 {
        '1'
    } else if d == 2 {
        '2'
    } else if d == 3 {
        '3'
    } else if d == 4 {
        '4'
    } else if d == 5 {
        '5'
    } else if d == 6 {
        '6'
    } else if d == 7 {
        '7'
    } else if d == 8 {
        '8'
    } else {
        '9'
    }
}

/// The three decimal digits of a status code between 100 and 999.
pub open spec fn status_digits(code: u16) -> Seq<char> {
    seq![
        digit_char(code as int / 100),
        digit_char((code as int / 10) % 10),
        digit_char(code as int % 10),
    ]
}

/// The redirect server block: it answers on the toggled domain name and
/// sends every request to `https://<domain>$request_uri` with a 301.
pub open spec fn redirect_server_block(domain: Seq<char>) -> Seq<char> {
    "server {\n    listen 80;\n    listen [::]:80;\n    server_name "@ + toggle_www(domain)
        + ";\n    return 301 https://"@ + domain + "$request_uri;\n}\n\n"@
}

/// The opening of the main server block: it serves the domain itself and
/// proxies to the fixed upstream endpoint, path-prefixed by the domain.
pub open spec fn main_server_open(domain: Seq<char>) -> Seq<char> {
    "server {\n    listen 80;\n    listen [::]:80;\n    server_name "@ + domain
        + ";\n\n    location / {\n        proxy_pass http://127.0.0.1:3900/"@ + domain + "/;\n    }\n"@
}

/// One `add_header` line: the header is added whatever the response status.
pub open spec fn header_value_line(name: Seq<char>, value: Seq<char>) -> Seq<char> {
    "        add_header "@ + name + " \""@ + value + "\" always;\n"@
}

/// The `add_header` lines of one header rule, in input order.
pub open spec fn header_value_lines(vs: Seq<(String, String)>) -> Seq<char>
    decreases vs.len(),
{
    if vs.len() == 0 {
        Seq::empty()
    } else {
        header_value_lines(vs.drop_last()) + header_value_line(vs.last().0@, vs.last().1@)
    }
}

/// The location block of one header rule.
pub open spec fn header_block(h: Header) -> Seq<char> {
    "\n    location "@ + h.for_field@ + " {\n"@ + header_value_lines(h.values@) + "    }\n"@
}

/// The location blocks of all header rules, in input order.
pub open spec fn header_blocks(hs: Seq<Header>) -> Seq<char>
    decreases hs.len(),
{
    if hs.len() == 0 {
        Seq::empty()
    } else {
        header_blocks(hs.drop_last()) + header_block(hs.last())
    }
}

/// The exact-match location block of one redirect rule.
pub open spec fn redirect_rule_block(r: Redirect) -> Seq<char> {
    "\n    location = "@ + r.from_field@ + " {\n        return "@ + status_digits(r.status_code)
        + " "@ + r.to@ + ";\n    }\n"@
}

/// The location blocks of all redirect rules, in input order.
pub open spec fn redirect_rule_blocks(rs: Seq<Redirect>) -> Seq<char>
    decreases rs.len(),
{
    if rs.len() == 0 {
        Seq::empty()
    } else {
        redirect_rule_blocks(rs.drop_last()) + redirect_rule_block(rs.last())
    }
}

/// The free trailing text, inserted verbatim on its own lines when present.
pub open spec fn extra_part(extra: Option<String>) -> Seq<char> {
    match extra {
        Some(x) => "\n"@ + x@ + "\n"@,
        None => Seq::empty(),
    }
}

/// Every character of the document rendered for `site`.
pub open spec fn render_spec(site: Site) -> Seq<char> {
    redirect_server_block(site.domain@) + main_server_open(site.domain@) + header_blocks(
        site.headers_seq(),
    ) + redirect_rule_blocks(site.redirects_seq()) + extra_part(site.extra) + "}\n"@
}

/// Appends the single decimal digit `d`.
fn append_digit(out: &mut String, d: u16)
    requires
        d <= 9,
    ensures
        final(out)@ == old(out)@ + seq![digit_char(d as int)],
{
    if d == 0 {
        out.append("0");
        proof {
            reveal_strlit("0");
            assert("0"@ =~= seq![digit_char(0)]);
        }
    } else if d == 1 {
        out.append("1");
        proof {
            reveal_strlit("1");
            assert("1"@ =~= seq![digit_char(1)]);
        }
    } else if d == 2 {
        out.append("2");
        proof {
            reveal_strlit("2");
            assert("2"@ =~= seq![digit_char(2)]);
        }
    } else if d == 3 {
        out.append("3");
        proof {
            reveal_strlit("3");
            assert("3"@ =~= seq![digit_char(3)]);
        }
    } else if d == 4 {
        out.append("4");
        proof {
            reveal_strlit("4");
            assert("4"@ =~= seq![digit_char(4)]);
        }
    } else if d == 5 {
        out.append("5");
        proof {
            reveal_strlit("5");
            assert("5"@ =~= seq![digit_char(5)]);
        }
    } else if d == 6 {
        out.append("6");
        proof {
            reveal_strlit("6");
            assert("6"@ =~= seq![digit_char(6)]);
        }
    } else if d == 7 {
        out.append("7");
        proof {
            reveal_strlit("7");
            assert("7"@ =~= seq![digit_char(7)]);
        }
    } else if d == 8 {
        out.append("8");
        proof {
            reveal_strlit("8");
            assert("8"@ =~= seq![digit_char(8)]);
        }
    } else {
        out.append("9");
        proof {
            reveal_strlit("9");
            assert("9"@ =~= seq![digit_char(9)]);
        }
    }
}

/// Appends the three decimal digits of `code`.
fn append_status(out: &mut String, code: u16)
    requires
        100 <= code <= 999,
    ensures
        final(out)@ == old(out)@ + status_digits(code),
{
    let ghost start = out@;
    append_digit(out, code / 100);
    append_digit(out, (code / 10) % 10);
    append_digit(out, code % 10);
    proof {
        assert(out@ =~= start + status_digits(code));
    }
}

/// Appends the redirect server block for `domain`.
fn append_redirect_server(out: &mut String, domain: &str)
    ensures
        final(out)@ == old(out)@ + redirect_server_block(domain@),
{
    let ghost start = out@;
    out.append("server {\n    listen 80;\n    listen [::]:80;\n    server_name ");
    let toggled = redirect_domain(domain);
    out.append(toggled.as_str());
    out.append(";\n    return 301 https://");
    out.append(domain);
    out.append("$request_uri;\n}\n\n");
    proof {
        assert(out@ =~= start + redirect_server_block(domain@));
    }
}

/// Appends the opening of the main server block for `domain`.
fn append_main_open(out: &mut String, domain: &str)
    ensures
        final(out)@ == old(out)@ + main_server_open(domain@),
{
    let ghost start = out@;
    out.append("server {\n    listen 80;\n    listen [::]:80;\n    server_name ");
    out.append(domain);
    out.append(";\n\n    location / {\n        proxy_pass http://127.0.0.1:3900/");
    out.append(domain);
    out.append("/;\n    }\n");
    proof {
        assert(out@ =~= start + main_server_open(domain@));
    }
}

/// Appends the location block of one header rule.
fn append_header_block(out: &mut String, h: &Header)
    ensures
        final(out)@ == old(out)@ + header_block(*h),
{
    let ghost start = out@;
    out.append("\n    location ");
    out.append(h.for_field.as_str());
    out.append(" {\n");
    let ghost opened = out@;
    let n = h.values.len();
    let mut j: usize = 0;
    proof {
        assert(h.values@.take(0) =~= Seq::<(String, String)>::empty());
        assert(out@ =~= opened + header_value_lines(h.values@.take(0)));
    }
    while j < n
        invariant
            n == h.values@.len(),
            j <= n,
            out@ == opened + header_value_lines(h.values@.take(j as int)),
        decreases n - j,
    {
        let ghost before = out@;
        let pair = &h.values[j];
        out.append("        add_header ");
        out.append(pair.0.as_str());
        out.append(" \"");
        out.append(pair.1.as_str());
        out.append("\" always;\n");
        proof {
            let taken = h.values@.take(j as int + 1);
            assert(taken.drop_last() =~= h.values@.take(j as int));
            assert(taken.last() == h.values@[j as int]);
            assert(out@ =~= before + header_value_line(pair.0@, pair.1@));
            assert(out@ =~= opened + header_value_lines(taken));
        }
        j = j + 1;
    }
    proof {
        assert(h.values@.take(n as int) =~= h.values@);
    }
    out.append("    }\n");
    proof {
        assert(out@ =~= start + header_block(*h));
    }
}

/// Appends the exact-match location block of one redirect rule.
fn append_redirect_rule(out: &mut String, r: &Redirect)
    requires
        is_redirect_status(r.status_code),
    ensures
        final(out)@ == old(out)@ + redirect_rule_block(*r),
{
    let ghost start = out@;
    out.append("\n    location = ");
    out.append(r.from_field.as_str());
    out.append(" {\n        return ");
    append_status(out, r.status_code);
    out.append(" ");
    out.append(r.to.as_str());
    out.append(";\n    }\n");
    proof {
        assert(out@ =~= start + redirect_rule_block(*r));
    }
}

/// Renders the whole document for one valid site record.
pub fn render_site(site: &Site) -> (r: String)
    requires
        site.wf(),
    ensures
        r@ == render_spec(*site),
{
    let mut out = String::new();
    append_redirect_server(&mut out, site.domain.as_str());
    append_main_open(&mut out, site.domain.as_str());
    proof {
        assert(out@ =~= redirect_server_block(site.domain@) + main_server_open(site.domain@));
    }
    let ghost opening = out@;
    match &site.headers {
        Some(hs) => {
            let n = hs.len();
            let mut i: usize = 0;
            proof {
                assert(hs@.take(0) =~= Seq::<Header>::empty());
                assert(out@ =~= opening + header_blocks(hs@.take(0)));
            }
            while i < n
                invariant
                    n == hs@.len(),
                    i <= n,
                    out@ == opening + header_blocks(hs@.take(i as int)),
                decreases n - i,
            {
                let ghost before = out@;
                append_header_block(&mut out, &hs[i]);
                proof {
                    let taken = hs@.take(i as int + 1);
                    assert(taken.drop_last() =~= hs@.take(i as int));
                    assert(taken.last() == hs@[i as int]);
                    assert(out@ =~= opening + header_blocks(taken));
                }
                i = i + 1;
            }
            proof {
                assert(hs@.take(n as int) =~= hs@);
                assert(site.headers_seq() == hs@);
            }
        },
        None => {
            proof {
                assert(site.headers_seq() =~= Seq::<Header>::empty());
                assert(out@ =~= opening + header_blocks(site.headers_seq()));
            }
        },
    }
    proof {
        assert(out@ == opening + header_blocks(site.headers_seq()));
    }
    let ghost with_headers = out@;
    match &site.redirects {
        Some(rs) => {
            let n = rs.len();
            let mut i: usize = 0;
            proof {
                assert(rs@.take(0) =~= Seq::<Redirect>::empty());
                assert(out@ =~= with_headers + redirect_rule_blocks(rs@.take(0)));
            }
            while i < n
                invariant
                    n == rs@.len(),
                    i <= n,
                    site.redirects_seq() == rs@,
                    site.wf(),
                    out@ == with_headers + redirect_rule_blocks(rs@.take(i as int)),
                decreases n - i,
            {
                let ghost before = out@;
                append_redirect_rule(&mut out, &rs[i]);
                proof {
                    let taken = rs@.take(i as int + 1);
                    assert(taken.drop_last() =~= rs@.take(i as int));
                    assert(taken.last() == rs@[i as int]);
                    assert(out@ =~= with_headers + redirect_rule_blocks(taken));
                }
                i = i + 1;
            }
            proof {
                assert(rs@.take(n as int) =~= rs@);
            }
        },
        None => {
            proof {
                assert(site.redirects_seq() =~= Seq::<Redirect>::empty());
                assert(out@ =~= with_headers + redirect_rule_blocks(site.redirects_seq()));
            }
        },
    }
    proof {
        assert(out@ == with_headers + redirect_rule_blocks(site.redirects_seq()));
    }
    let ghost with_redirects = out@;
    match &site.extra {
        Some(x) => {
            out.append("\n");
            out.append(x.as_str());
            out.append("\n");
            proof {
                assert(out@ =~= with_redirects + extra_part(site.extra));
            }
        },
        None => {
            proof {
                assert(out@ =~= with_redirects + extra_part(site.extra));
            }
        },
    }
    out.append("}\n");
    proof {
        assert(out@ =~= render_spec(*site));
    }
    out
}

} // verus!
