//! The request auth gate: extracts a workspace-id/access-token pair
//! from the credential header and validates it against the store.
//!
//! The header carries the two fields as literal colon-joined plaintext
//! after the fixed scheme prefix; no transport encoding is applied.

use vstd::prelude::*;
use vstd::string::StrSliceExecFns;
use crate::store::{spec_has_credential, Store};

verus! {

/// The single colon that separates the two credential fields: position
/// `j` holds a colon and no other position does.
pub open spec fn spec_is_unique_colon(s: Seq<char>, j: int) -> bool {
    &&& 0 <= j < s.len()
    &&& s[j] == ':'
    &&& forall|k: int| 0 <= k < s.len() && k != j ==> s[k] != ':'
}

/// What extraction yields from a raw header value: the workspace id
/// and the access token, exactly when the value starts with the scheme
/// prefix and the remainder splits into exactly two colon-separated
/// fields. Anything else extracts nothing.
pub open spec fn spec_parse_auth_header(h: Seq<char>) -> Option<(Seq<char>, Seq<char>)> {
    if h.len() >= 6 && h.subrange(0, 6) == "Basic "@ {
        let rest = h.subrange(6, h.len() as int);
        if exists|j: int| spec_is_unique_colon(rest, j) {
            let j = choose|j: int| spec_is_unique_colon(rest, j);
            Some((rest.subrange(0, j), rest.subrange(j + 1, rest.len() as int)))
        } else {
            None
        }
    } else {
        None
    }
}

/// Splits a credential header value into its workspace id and access
/// token, or rejects it: absent prefix, or a remainder with no colon or
/// more than one, all extract nothing.
pub fn parse_auth_header(header: &str) -> (r: Option<(String, String)>)
    ensures
        match r {
            Some(p) => spec_parse_auth_header(header@) == Some((p.0@, p.1@)),
            None => spec_parse_auth_header(header@) is None,
        },
{
    let n = header.unicode_len();
    proof {
        reveal_strlit("Basic ");
    }
    if n < 6 {
        return None;
    }
    if header.get_char(0) != 'B' || header.get_char(1) != 'a' || header.get_char(2) != 's'
        || header.get_char(3) != 'i' || header.get_char(4) != 'c' || header.get_char(5) != ' ' {
        proof {
            if header@.subrange(0, 6) == "Basic "@ {
                assert(header@.subrange(0, 6)[0] == header@[0]);
                assert(header@.subrange(0, 6)[1] == header@[1]);
                assert(header@.subrange(0, 6)[2] == header@[2]);
                assert(header@.subrange(0, 6)[3] == header@[3]);
                assert(header@.subrange(0, 6)[4] == header@[4]);
                assert(header@.subrange(0, 6)[5] == header@[5]);
            }
            assert(header@.subrange(0, 6) != "Basic "@);
        }
        return None;
    }
    proof {
        assert(header@.subrange(0, 6) =~= "Basic "@);
    }
    let ghost rest = header@.subrange(6, header@.len() as int);

    let mut colon: Option<usize> = None;
    let mut j: usize = 6;
    while j < n
        invariant
            n == header@.len(),
            6 <= j <= n,
            rest == header@.subrange(6, header@.len() as int),
            rest.len() == n - 6,
            match colon {
                Some(c) => 6 <= c < j && header@[c as int] == ':' && (forall|k: int|
                    6 <= k < j && k != c ==> header@[k] != ':'),
                None => forall|k: int| 6 <= k < j ==> header@[k] != ':',
            },
        decreases n - j,
    {
        let ch = header.get_char(j);
        if ch == ':' {
            match colon {
                None => {
                    colon = Some(j);
                },
                Some(c) => {
                    proof {
                        assert(rest[c - 6] == ':');
                        assert(rest[j - 6] == ':');
                        assert forall|j2: int| !spec_is_unique_colon(rest, j2) by {
                            if j2 != c - 6 {
                                assert(rest[c - 6] == ':');
                            } else {
                                assert(rest[j - 6] == ':');
                            }
                        }
                    }
                    return None;
                },
            }
        }
        j += 1;
    }

    match colon {
        None => {
            proof {
                assert(forall|j2: int| !spec_is_unique_colon(rest, j2));
            }
            None
        },
        Some(c) => {
            proof {
                assert(spec_is_unique_colon(rest, c - 6));
                let j0 = choose|j2: int| spec_is_unique_colon(rest, j2);
                assert(j0 == c - 6) by {
                    if j0 != c - 6 {
                        assert(rest[c - 6] == ':');
                    }
                }
            }
            let wid: String = header.substring_char(6, c).to_owned();
            let tok: String = header.substring_char(c + 1, n).to_owned();
            proof {
                assert(wid@ =~= rest.subrange(0, c - 6));
                assert(tok@ =~= rest.subrange(c - 6 + 1, rest.len() as int));
            }
            Some((wid, tok))
        },
    }
}

/// A header that joins a workspace id and an access token, neither of
/// which contains a colon, extracts back to exactly that pair.
pub proof fn lemma_header_round_trip(w: Seq<char>, t: Seq<char>)
    requires
        forall|i: int| 0 <= i < w.len() ==> w[i] != ':',
        forall|i: int| 0 <= i < t.len() ==> t[i] != ':',
    ensures
        spec_parse_auth_header("Basic "@ + w + seq![':'] + t) == Some((w, t)),
{
    reveal_strlit("Basic ");
    let h = "Basic "@ + w + seq![':'] + t;
    assert(h.len() == 6 + w.len() + 1 + t.len());
    assert(h.subrange(0, 6) =~= "Basic "@);
    let rest = h.subrange(6, h.len() as int);
    assert(rest =~= w + seq![':'] + t);
    let c = w.len() as int;
    assert(rest[c] == ':');
    assert forall|k: int| 0 <= k < rest.len() && k != c implies rest[k] != ':' by {
        if k < c {
            assert(rest[k] == w[k]);
        } else {
            assert(rest[k] == t[k - c - 1]);
        }
    }
    assert(spec_is_unique_colon(rest, c));
    let j0 = choose|j: int| spec_is_unique_colon(rest, j);
    assert(j0 == c) by {
        if j0 != c {
            assert(rest[c] == ':');
        }
    }
    assert(rest.subrange(0, c) =~= w);
    assert(rest.subrange(c + 1, rest.len() as int) =~= t);
}

/// The auth gate: resolves the workspace a request is authorized for,
/// or rejects it. A request is authorized exactly when its header
/// extracts to a pair that some stored credential row holds character
/// for character; the id and the token must both match the same row.
/// Rejection carries no reason: a missing header, a malformed one and
/// a wrong pair are indistinguishable to the caller.
pub fn auth(store: &Store, header: Option<&str>) -> (r: Option<String>)
    ensures
        match header {
            None => r is None,
            Some(h) => match spec_parse_auth_header(h@) {
                Some(p) => {
                    if spec_has_credential(store@.auth, p.0, p.1) {
                        r matches Some(w) && w@ == p.0
                    } else {
                        r is None
                    }
                },
                None => r is None,
            },
        },
{
    match header {
        None => None,
        Some(h) => match parse_auth_header(h) {
            None => None,
            Some(pair) => {
                let (wid, tok) = pair;
                if store.has_credential(wid.as_str(), tok.as_str()) {
                    Some(wid)
                } else {
                    None
                }
            },
        },
    }
}

} // verus!
