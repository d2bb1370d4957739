use vstd::prelude::*;

use crate::did::{
    did_text, lemma_did_text_injective, lemma_did_text_no_url_delimiters, parse_did, valid_did,
    DidView, HederaDid,
};
use crate::error::DIDError;
use crate::text::{chars_of, find_char, has_char, substring};

verus! {

/// The abstract content of a DID URL.
pub struct DidUrlView {
    pub did: DidView,
    pub path: Option<Seq<char>>,
    pub query: Option<Seq<char>>,
    pub fragment: Option<Seq<char>>,
}

/// A well-formed DID URL: a well-formed DID; a path, when present, that starts
/// with `/` and holds neither `?` nor `#`; a query, when present, without `#`.
pub open spec fn valid_url(u: DidUrlView) -> bool {
    &&& valid_did(u.did)
    &&& (u.path matches Some(p) ==> p.len() > 0 && p[0] == '/' && !has_char(p, '?') && !has_char(
        p,
        '#',
    ))
    &&& (u.query matches Some(q) ==> !has_char(q, '#'))
}

/// The text of a DID URL: `<did><path>?<query>#<fragment>`, each of the last
/// three parts only when present.
pub open spec fn url_text(u: DidUrlView) -> Seq<char> {
    did_text(u.did) + match u.path {
        Some(p) => p,
        None => Seq::empty(),
    } + match u.query {
        Some(q) => seq!['?'] + q,
        None => Seq::empty(),
    } + match u.fragment {
        Some(f) => seq!['#'] + f,
        None => Seq::empty(),
    }
}

/// A DID URL: a `did:hedera` identifier with an optional path, query and
/// fragment.
#[derive(Debug)]
pub struct HederaDidUrl {
    pub did: HederaDid,
    pub path: Option<String>,
    pub query: Option<String>,
    pub fragment: Option<String>,
}

/// The view of an optional string.
pub open spec fn opt_view(o: Option<String>) -> Option<Seq<char>> {
    match o {
        Some(s) => Some(s@),
        None => None,
    }
}

impl View for HederaDidUrl {
    type V = DidUrlView;

    open spec fn view(&self) -> DidUrlView {
        DidUrlView {
            did: self.did@,
            path: opt_view(self.path),
            query: opt_view(self.query),
            fragment: opt_view(self.fragment),
        }
    }
}

/// The length of the path part of a DID URL's text.
pub open spec fn path_len(u: DidUrlView) -> int {
    match u.path {
        Some(p) => p.len() as int,
        None => 0,
    }
}

/// The length of the `?query` part of a DID URL's text.
pub open spec fn query_part_len(u: DidUrlView) -> int {
    match u.query {
        Some(q) => q.len() + 1int,
        None => 0,
    }
}

/// The length of the `#fragment` part of a DID URL's text.
pub open spec fn fragment_part_len(u: DidUrlView) -> int {
    match u.fragment {
        Some(f) => f.len() + 1int,
        None => 0,
    }
}

/// Where the delimiters of a well-formed DID URL's text stand: the first `#`
/// opens the fragment, the first `?` before it opens the query, and the first
/// `/` before that opens the path.
pub proof fn lemma_url_delimiters(u: DidUrlView)
    requires
        valid_url(u),
    ensures
        ({
            let t = url_text(u);
            let d = did_text(u.did).len() as int;
            let p = path_len(u);
            let q = query_part_len(u);
            &&& t.len() == d + p + q + fragment_part_len(u)
            &&& t.subrange(0, d) == did_text(u.did)
            &&& (forall|i: int| 0 <= i < d + p + q ==> #[trigger] t[i] != '#')
            &&& (u.fragment is Some ==> t[d + p + q] == '#')
            &&& (forall|i: int| 0 <= i < d + p ==> #[trigger] t[i] != '?')
            &&& (u.query is Some ==> t[d + p] == '?')
            &&& (forall|i: int| 0 <= i < d ==> #[trigger] t[i] != '/')
            &&& (u.path is Some ==> t[d] == '/')
            &&& (u.path matches Some(pp) ==> t.subrange(d, d + p) == pp)
            &&& (u.query matches Some(qq) ==> t.subrange(d + p + 1, d + p + q) == qq)
            &&& (u.fragment matches Some(ff) ==> t.subrange(d + p + q + 1, t.len() as int) == ff)
        }),
{
    let t = url_text(u);
    let dt = did_text(u.did);
    let d = dt.len() as int;
    let p = path_len(u);
    let q = query_part_len(u);
    lemma_did_text_no_url_delimiters(u.did);
    let ps = match u.path {
        Some(pp) => pp,
        None => Seq::<char>::empty(),
    };
    let qs = match u.query {
        Some(qq) => seq!['?'] + qq,
        None => Seq::<char>::empty(),
    };
    let fs = match u.fragment {
        Some(ff) => seq!['#'] + ff,
        None => Seq::<char>::empty(),
    };
    assert(t == dt + ps + qs + fs);
    assert(t.subrange(0, d) =~= dt);
    assert forall|i: int| 0 <= i < d + p + q implies #[trigger] t[i] != '#' by {
        if i < d {
            assert(t[i] == dt[i]);
        } else if i < d + p {
            assert(t[i] == ps[i - d]);
            if ps[i - d] == '#' {
                assert(has_char(ps, '#'));
            }
        } else {
            assert(t[i] == qs[i - d - p]);
            if i > d + p {
                let qq = u.query->Some_0;
                assert(qs[i - d - p] == qq[i - d - p - 1]);
                if qq[i - d - p - 1] == '#' {
                    assert(has_char(qq, '#'));
                }
            }
        }
    }
    assert forall|i: int| 0 <= i < d + p implies #[trigger] t[i] != '?' by {
        if i < d {
            assert(t[i] == dt[i]);
        } else {
            assert(t[i] == ps[i - d]);
            if ps[i - d] == '?' {
                assert(has_char(ps, '?'));
            }
        }
    }
    assert forall|i: int| 0 <= i < d implies #[trigger] t[i] != '/' by {
        assert(t[i] == dt[i]);
    }
    if let Some(pp) = u.path {
        assert(t.subrange(d, d + p) =~= pp);
    }
    if let Some(qq) = u.query {
        assert(t.subrange(d + p + 1, d + p + q) =~= qq);
    }
    if let Some(ff) = u.fragment {
        assert(t.subrange(d + p + q + 1, t.len() as int) =~= ff);
    }
}

/// Distinct well-formed DID URLs have distinct texts, so `parse_did_url`
/// gives back what `to_url_string` wrote.
pub proof fn lemma_url_text_injective(u1: DidUrlView, u2: DidUrlView)
    requires
        valid_url(u1),
        valid_url(u2),
        url_text(u1) == url_text(u2),
    ensures
        u1 == u2,
{
    let t = url_text(u1);
    lemma_url_delimiters(u1);
    lemma_url_delimiters(u2);
    let d1 = did_text(u1.did).len() as int;
    let d2 = did_text(u2.did).len() as int;
    let h1 = d1 + path_len(u1) + query_part_len(u1);
    let h2 = d2 + path_len(u2) + query_part_len(u2);
    // the fragment starts at the first '#'
    if u1.fragment is Some && u2.fragment is Some {
        if h1 < h2 {
            assert(t[h1] == '#');
        } else if h2 < h1 {
            assert(t[h2] == '#');
        }
    } else if u1.fragment is Some {
        assert(t[h1] == '#');
    } else if u2.fragment is Some {
        assert(t[h2] == '#');
    }
    assert(h1 == h2);
    assert(u1.fragment == u2.fragment);
    let g1 = d1 + path_len(u1);
    let g2 = d2 + path_len(u2);
    if u1.query is Some && u2.query is Some {
        if g1 < g2 {
            assert(t[g1] == '?');
        } else if g2 < g1 {
            assert(t[g2] == '?');
        }
    } else if u1.query is Some {
        assert(t[g1] == '?');
    } else if u2.query is Some {
        assert(t[g2] == '?');
    }
    assert(g1 == g2);
    assert(u1.query == u2.query);
    if u1.path is Some && u2.path is Some {
        if d1 < d2 {
            assert(t[d1] == '/');
        } else if d2 < d1 {
            assert(t[d2] == '/');
        }
    } else if u1.path is Some {
        assert(t[d1] == '/');
    } else if u2.path is Some {
        assert(t[d2] == '/');
    }
    assert(d1 == d2);
    assert(u1.path == u2.path);
    lemma_did_text_injective(u1.did, u2.did);
}

impl HederaDidUrl {
    /// The text of the DID URL: `<did><path>?<query>#<fragment>`.
    pub fn to_url_string(&self) -> (s: String)
        ensures
            s@ == url_text(self@),
    {
        let mut s = self.did.to_did_string();
        proof {
            reveal_strlit("?");
            reveal_strlit("#");
        }
        if let Some(p) = &self.path {
            s.append(p.as_str());
        }
        if let Some(q) = &self.query {
            s.append("?");
            s.append(q.as_str());
        }
        if let Some(f) = &self.fragment {
            s.append("#");
            s.append(f.as_str());
        }
        assert(s@ =~= url_text(self@));
        s
    }
}

/// Parses a DID URL `<did>[/path][?query][#fragment]`.
#[verifier::rlimit(50)]
pub fn parse_did_url(s: &str) -> (r: Result<HederaDidUrl, DIDError>)
    ensures
        match r {
            Ok(u) => valid_url(u@) && url_text(u@) == s@,
            Err(e) => (forall|u: DidUrlView| valid_url(u) ==> url_text(u) != s@) && e is InvalidDid
                && e.message() == s@,
        },
{
    let v = chars_of(s);
    let n = v.len();
    let hash = find_char(&v, 0, n, '#');
    let q = find_char(&v, 0, hash, '?');
    let p = find_char(&v, 0, q, '/');
    let ghost sv = s@;
    let did_part = s.substring_char(0, p);
    let did = match parse_did(did_part) {
        Ok(d) => d,
        Err(_) => {
            proof {
                assert forall|u: DidUrlView| valid_url(u) implies url_text(u) != sv by {
                    if url_text(u) == sv {
                        lemma_url_delimiters(u);
                        let dl = did_text(u.did).len() as int;
                        let pl = path_len(u);
                        let ql = query_part_len(u);
                        if hash < dl + pl + ql {
                            assert(sv[hash as int] != '#');
                        } else if hash > dl + pl + ql {
                            assert(sv[dl + pl + ql] == '#');
                        }
                        if q < dl + pl {
                            assert(sv[q as int] != '?');
                        } else if q > dl + pl {
                            assert(sv[dl + pl] == '?');
                        }
                        if p < dl {
                            assert(sv[p as int] != '/');
                        } else if p > dl {
                            assert(sv[dl] == '/');
                        }
                        assert(did_part@ =~= did_text(u.did));
                    }
                }
            }
            return Err(DIDError::InvalidDid(s.to_owned()));
        },
    };
    let path = if p < q { Some(substring(s, p, q)) } else { None };
    let query = if q < hash { Some(substring(s, q + 1, hash)) } else { None };
    let fragment = if hash < n { Some(substring(s, hash + 1, n)) } else { None };
    let u = HederaDidUrl { did, path, query, fragment };
    proof {
        assert(did@ == u@.did);
        if p < q {
            let pv = sv.subrange(p as int, q as int);
            assert(pv[0] == '/');
            assert(!has_char(pv, '?')) by {
                if has_char(pv, '?') {
                    let i = choose|i: int| 0 <= i < pv.len() && pv[i] == '?';
                    assert(sv[p + i] == '?');
                }
            }
            assert(!has_char(pv, '#')) by {
                if has_char(pv, '#') {
                    let i = choose|i: int| 0 <= i < pv.len() && pv[i] == '#';
                    assert(sv[p + i] == '#');
                }
            }
        }
        if q < hash {
            let qv = sv.subrange(q + 1, hash as int);
            assert(!has_char(qv, '#')) by {
                if has_char(qv, '#') {
                    let i = choose|i: int| 0 <= i < qv.len() && qv[i] == '#';
                    assert(sv[q + 1 + i] == '#');
                }
            }
        }
        assert(sv =~= url_text(u@));
    }
    Ok(u)
}

} // verus!
