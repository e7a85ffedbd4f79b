//! The "domain-toggle" text transform used inside the rendered template.
//!
//! Given a host name, the transform strips every occurrence of `"www."`
//! when the name starts with that prefix, and prepends the prefix once
//! otherwise. It is a pure function of its input and safe to call from
//! any number of tasks at once.

use vstd::prelude::*;

verus! {

/// The characters of the literal prefix `"www."`.
pub open spec fn www_seq() -> Seq<char> {
    "www."@
}

/// The pattern `"www."` occurs in `s` at position `i`.
pub open spec fn www_at(s: Seq<char>, i: int) -> bool {
    0 <= i && i + 4 <= s.len() && s.subrange(i, i + 4) == www_seq()
}

/// `s` begins with the prefix `"www."`.
pub open spec fn has_www_prefix(s: Seq<char>) -> bool {
    www_at(s, 0)
}

/// `"www."` occurs nowhere in `s`.
pub open spec fn www_free(s: Seq<char>) -> bool {
    forall|i: int| !www_at(s, i)
}

/// A name whose only occurrence of `"www."`, if any, is the leading prefix.
pub open spec fn simple_domain(s: Seq<char>) -> bool {
    forall|i: int| 1 <= i ==> !www_at(s, i)
}

/// `s` with every occurrence of `"www."` removed, scanning left to right
/// and never re-examining replaced text.
pub open spec fn strip_www(s: Seq<char>) -> Seq<char>
    decreases s.len(),
{
    if has_www_prefix(s) {
        strip_www(s.skip(4))
    } else if s.len() == 0 {
        Seq::empty()
    } else {
        seq![s[0]] + strip_www(s.skip(1))
    }
}

/// The domain-toggle transform: strip every `"www."` when the name starts
/// with it, otherwise prepend it once.
pub open spec fn toggle_www(s: Seq<char>) -> Seq<char> {
    if has_www_prefix(s) {
        strip_www(s)
    } else {
        www_seq() + s
    }
}

/// True exactly when the four characters of `s` starting at `i` are `"www."`.
fn www_match_at(s: &str, i: usize, n: usize) -> (r: bool)
    requires
        n == s@.len(),
        i + 4 <= n,
    ensures
        r == www_at(s@, i as int),
{
    let c0 = s.get_char(i);
    let c1 = s.get_char(i + 1);
    let c2 = s.get_char(i + 2);
    let c3 = s.get_char(i + 3);
    let r = c0 == 'w' && c1 == 'w' && c2 == 'w' && c3 == '.';
    proof {
        reveal_strlit("www.");
        let sub = s@.subrange(i as int, i as int + 4);
        assert(sub[0] == c0 && sub[1] == c1 && sub[2] == c2 && sub[3] == c3);
        assert(www_seq()[0] == 'w' && www_seq()[1] == 'w' && www_seq()[2] == 'w'
            && www_seq()[3] == '.');
        if r {
            assert(sub =~= www_seq());
        }
    }
    r
}

/// `s` with every occurrence of `"www."` removed.
fn strip_all_www(s: &str) -> (r: String)
    ensures
        r@ == strip_www(s@),
{
    let n = s.unicode_len();
    let mut out = String::new();
    let mut i: usize = 0;
    proof {
        assert(s@.skip(0) =~= s@);
        assert(out@ + strip_www(s@) =~= strip_www(s@));
    }
    while i < n
        invariant
            n == s@.len(),
            i <= n,
            out@ + strip_www(s@.skip(i as int)) == strip_www(s@),
        decreases n - i,
    {
        if n - i >= 4 && www_match_at(s, i, n) {
            proof {
                let t = s@.skip(i as int);
                assert(t.subrange(0, 4) =~= s@.subrange(i as int, i as int + 4));
                assert(has_www_prefix(t));
                assert(t.skip(4) =~= s@.skip(i as int + 4));
            }
            i = i + 4;
        } else {
            let piece = s.substring_char(i, i + 1);
            out.append(piece);
            proof {
                let t = s@.skip(i as int);
                if n - i >= 4 {
                    assert(t.subrange(0, 4) =~= s@.subrange(i as int, i as int + 4));
                }
                assert(!has_www_prefix(t));
                assert(t.skip(1) =~= s@.skip(i as int + 1));
                assert(piece@ =~= seq![t[0]]);
                assert(out@ + strip_www(s@.skip(i as int + 1)) =~= strip_www(s@));
            }
            i = i + 1;
        }
    }
    proof {
        assert(s@.skip(n as int) =~= Seq::<char>::empty());
        assert(out@ + strip_www(s@.skip(n as int)) =~= out@);
    }
    out
}

/// The domain-toggle transform on a host name: a name carrying the
/// `"www."` prefix loses every occurrence of `"www."`; any other name
/// gains the prefix once.
pub fn redirect_domain(s: &str) -> (r: String)
    ensures
        r@ == toggle_www(s@),
{
    let n = s.unicode_len();
    if n >= 4 && www_match_at(s, 0, n) {
        strip_all_www(s)
    } else {
        let mut out = String::from_str("www.");
        out.append(s);
        out
    }
}

/// Removing every occurrence of `"www."` from a string that holds none
/// gives the string back unchanged.
pub proof fn lemma_strip_www_free(s: Seq<char>)
    requires
        www_free(s),
    ensures
        strip_www(s) == s,
    decreases s.len(),
{
    assert(!www_at(s, 0));
    if s.len() == 0 {
        assert(strip_www(s) =~= s);
    } else {
        assert forall|i: int| !www_at(s.skip(1), i) by {
            if 0 <= i && i + 4 <= s.skip(1).len() {
                assert(s.skip(1).subrange(i, i + 4) =~= s.subrange(i + 1, i + 5));
                assert(!www_at(s, i + 1));
            }
        }
        lemma_strip_www_free(s.skip(1));
        assert(seq![s[0]] + s.skip(1) =~= s);
    }
}

/// Applying the domain toggle twice returns the original name, for any
/// name whose only occurrence of `"www."`, if any, is the leading prefix.
pub proof fn lemma_toggle_involution(s: Seq<char>)
    requires
        simple_domain(s),
    ensures
        toggle_www(toggle_www(s)) == s,
{
    reveal_strlit("www.");
    if has_www_prefix(s) {
        let t = s.skip(4);
        assert forall|i: int| !www_at(t, i) by {
            if 0 <= i && i + 4 <= t.len() {
                assert(t.subrange(i, i + 4) =~= s.subrange(i + 4, i + 8));
                assert(!www_at(s, i + 4));
            }
        }
        lemma_strip_www_free(t);
        assert(toggle_www(s) == t);
        assert(!has_www_prefix(t));
        assert(www_seq() + t =~= s);
    } else {
        let t = www_seq() + s;
        assert(t.subrange(0, 4) =~= www_seq());
        assert(has_www_prefix(t));
        assert(t.skip(4) =~= s);
        assert forall|i: int| !www_at(s, i) by {
            if i == 0 {
                assert(!has_www_prefix(s));
            }
        }
        lemma_strip_www_free(s);
        assert(toggle_www(toggle_www(s)) == strip_www(s));
    }
}

} // verus!
