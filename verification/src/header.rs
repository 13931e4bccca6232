use vstd::prelude::*;

use crate::codec::{b64_decode_of, base64_decode, utf8_string};
use crate::error::Error;
use vstd::utf8::{decode_utf8, valid_utf8};

verus! {

/// ASCII whitespace, as header fields are separated.
pub open spec fn is_ws(c: char) -> bool {
    c == ' ' || c == '\t' || c == '\n' || c == '\r'
}

/// The maximal whitespace-free suffix.
pub open spec fn nonws_suffix(s: Seq<char>) -> Seq<char>
    decreases s.len(),
{
    if s.len() == 0 || is_ws(s.last()) {
        Seq::empty()
    } else {
        nonws_suffix(s.drop_last()).push(s.last())
    }
}

/// The last whitespace-delimited field: trailing whitespace is ignored,
/// and the field runs back to the whitespace before it. Text of nothing
/// but whitespace has none.
pub open spec fn last_field(s: Seq<char>) -> Option<Seq<char>>
    decreases s.len(),
{
    if s.len() == 0 {
        None
    } else if is_ws(s.last()) {
        last_field(s.drop_last())
    } else {
        Some(nonws_suffix(s))
    }
}

/// Index of the first ':'.
pub open spec fn first_colon(s: Seq<char>) -> Option<int>
    decreases s.len(),
{
    if s.len() == 0 {
        None
    } else if s[0] == ':' {
        Some(0)
    } else {
        match first_colon(s.drop_first()) {
            Some(i) => Some(i + 1),
            None => None,
        }
    }
}

proof fn lemma_nonws_suffix(t: Seq<char>, i: int)
    requires
        0 <= i <= t.len(),
        forall|k: int| i <= k < t.len() ==> !is_ws(t[k]),
        i == 0 || is_ws(t[i - 1]),
    ensures
        nonws_suffix(t) == t.subrange(i, t.len() as int),
    decreases t.len(),
{
    if t.len() == i {
        assert(nonws_suffix(t) =~= t.subrange(i, t.len() as int));
    } else {
        assert(!is_ws(t.last()));
        lemma_nonws_suffix(t.drop_last(), i);
        assert(t.drop_last().subrange(i, (t.len() - 1) as int).push(t.last()) =~= t.subrange(
            i,
            t.len() as int,
        ));
    }
}

proof fn lemma_first_colon_at(t: Seq<char>, i: int)
    requires
        0 <= i < t.len(),
        t[i] == ':',
        forall|k: int| 0 <= k < i ==> t[k] != ':',
    ensures
        first_colon(t) == Some(i),
    decreases i,
{
    if i == 0 {
    } else {
        assert(t[0] != ':');
        assert(t.drop_first()[i - 1] == ':');
        assert forall|k: int| 0 <= k < i - 1 implies t.drop_first()[k] != ':' by {
            assert(t[k + 1] != ':');
        }
        lemma_first_colon_at(t.drop_first(), i - 1);
    }
}

proof fn lemma_first_colon_none(t: Seq<char>)
    requires
        forall|k: int| 0 <= k < t.len() ==> t[k] != ':',
    ensures
        first_colon(t) is None,
    decreases t.len(),
{
    if t.len() > 0 {
        assert forall|k: int| 0 <= k < t.len() - 1 implies t.drop_first()[k] != ':' by {
            assert(t[k + 1] != ':');
        }
        lemma_first_colon_none(t.drop_first());
    }
}

fn ws_char(c: char) -> (r: bool)
    ensures
        r == is_ws(c),
{
    c == ' ' || c == '\t' || c == '\n' || c == '\r'
}

fn colon_char(c: char) -> (r: bool)
    ensures
        r == (c == ':'),
{
    c == ':'
}

/// The last whitespace-delimited field of the header text, the place both
/// middlewares read their payload from.
pub fn last_field_str<'a>(s: &'a str) -> (r: Option<&'a str>)
    ensures
        r matches Some(f) ==> last_field(s@) == Some(f@),
        r is None ==> last_field(s@) is None,
{
    let n = s.unicode_len();
    proof {
        assert(s@.subrange(0, n as int) =~= s@);
    }
    let mut j: usize = n;
    while j > 0 && ws_char(s.get_char(j - 1))
        invariant
            j <= n,
            n == s@.len(),
            last_field(s@) == last_field(s@.subrange(0, j as int)),
        decreases j,
    {
        proof {
            let t = s@.subrange(0, j as int);
            assert(t.last() == s@[j - 1]);
            assert(t.drop_last() =~= s@.subrange(0, j - 1));
        }
        j -= 1;
    }
    if j == 0 {
        proof {
            assert(s@.subrange(0, 0).len() == 0);
        }
        return None;
    }
    assert(!is_ws(s@[j - 1]));
    let mut i: usize = j;
    while i > 0 && !ws_char(s.get_char(i - 1))
        invariant
            i <= j,
            0 < j <= n,
            n == s@.len(),
            forall|k: int| i <= k < j ==> !is_ws(s@[k]),
        decreases i,
    {
        i -= 1;
    }
    let f = s.substring_char(i, j);
    proof {
        let t = s@.subrange(0, j as int);
        assert(!is_ws(t.last()));
        assert forall|k: int| i <= k < t.len() implies !is_ws(t[k]) by {
            assert(t[k] == s@[k]);
        }
        if i > 0 {
            assert(t[i - 1] == s@[i - 1]);
        }
        lemma_nonws_suffix(t, i as int);
        assert(t.subrange(i as int, t.len() as int) =~= s@.subrange(i as int, j as int));
    }
    Some(f)
}

/// Splits at the first ':', the separator between access and secret.
pub fn split_once_colon(s: &str) -> (r: Option<(String, String)>)
    ensures
        r matches Some(p) ==> (first_colon(s@) matches Some(i) && p.0@ == s@.subrange(0, i)
            && p.1@ == s@.subrange(i + 1, s@.len() as int)),
        r is None ==> first_colon(s@) is None,
{
    let n = s.unicode_len();
    let mut i: usize = 0;
    while i < n && !colon_char(s.get_char(i))
        invariant
            i <= n,
            n == s@.len(),
            forall|k: int| 0 <= k < i ==> s@[k] != ':',
        decreases n - i,
    {
        i += 1;
    }
    if i == n {
        proof {
            lemma_first_colon_none(s@);
        }
        return None;
    }
    proof {
        lemma_first_colon_at(s@, i as int);
    }
    let left = s.substring_char(0, i).to_owned();
    let right = s.substring_char(i + 1, n).to_owned();
    Some((left, right))
}

pub open spec fn opt_str_ref_view(h: Option<&str>) -> Option<Seq<char>> {
    match h {
        Some(s) => Some(s@),
        None => None,
    }
}

/// Everything the credential-exchange middleware decides from the
/// Authorization header: take its last whitespace-delimited field,
/// base64-decode it, read the bytes as UTF-8, and split once on ':' into
/// the access/secret pair. Each failing step rejects the request.
pub open spec fn credentials_of(h: Option<Seq<char>>) -> Result<(Seq<char>, Seq<char>), Error> {
    match h {
        None => Err(Error::Unauthorized),
        Some(hs) => match last_field(hs) {
            None => Err(Error::Unauthorized),
            Some(f) => match b64_decode_of(f) {
                None => Err(Error::Unauthorized),
                Some(bytes) => if !valid_utf8(bytes) {
                    Err(Error::Invalid)
                } else {
                    let d = decode_utf8(bytes);
                    match first_colon(d) {
                        None => Err(Error::Unauthorized),
                        Some(i) => Ok((d.subrange(0, i), d.subrange(i + 1, d.len() as int))),
                    }
                },
            },
        },
    }
}

/// Decodes a Basic-style Authorization header into the access/secret
/// pair, exactly as `credentials_of` lays it down; malformed input of
/// every shape is rejected with its error, and nothing panics.
pub fn parse_authorization(header: Option<&str>) -> (r: Result<(String, String), Error>)
    ensures
        r matches Ok(p) ==> credentials_of(opt_str_ref_view(header)) == Ok::<_, Error>(
            (p.0@, p.1@),
        ),
        r matches Err(e) ==> credentials_of(opt_str_ref_view(header)) == Err::<
            (Seq<char>, Seq<char>),
            _,
        >(e),
{
    let h = match header {
        Some(h) => h,
        None => {
            return Err(Error::Unauthorized);
        },
    };
    let f = match last_field_str(h) {
        Some(f) => f,
        None => {
            return Err(Error::Unauthorized);
        },
    };
    let bytes = match base64_decode(f) {
        Some(b) => b,
        None => {
            return Err(Error::Unauthorized);
        },
    };
    let decoded = match utf8_string(bytes) {
        Some(s) => s,
        None => {
            return Err(Error::Invalid);
        },
    };
    match split_once_colon(decoded.as_str()) {
        Some(p) => Ok(p),
        None => Err(Error::Unauthorized),
    }
}

/// Law: malformed Authorization headers are rejected outright, never
/// reaching a handler — a missing header, one of nothing but whitespace,
/// a payload that does not base64-decode, decoded bytes that are not
/// UTF-8, and a decoded pair without a ':' separator each produce their
/// error.
pub proof fn lemma_malformed_header_rejected(h: Option<Seq<char>>)
    ensures
        h is None ==> credentials_of(h) == Err::<(Seq<char>, Seq<char>), Error>(
            Error::Unauthorized,
        ),
        (h matches Some(hs) && last_field(hs) is None) ==> credentials_of(h) == Err::<
            (Seq<char>, Seq<char>),
            Error,
        >(Error::Unauthorized),
        (h matches Some(hs) && last_field(hs) matches Some(f) && b64_decode_of(f) is None)
            ==> credentials_of(h) == Err::<(Seq<char>, Seq<char>), Error>(Error::Unauthorized),
        (h matches Some(hs) && last_field(hs) matches Some(f) && b64_decode_of(f) matches Some(b)
            && !valid_utf8(b)) ==> credentials_of(h) == Err::<(Seq<char>, Seq<char>), Error>(
            Error::Invalid,
        ),
        (h matches Some(hs) && last_field(hs) matches Some(f) && b64_decode_of(f) matches Some(b)
            && valid_utf8(b) && first_colon(decode_utf8(b)) is None) ==> credentials_of(h) == Err::<
            (Seq<char>, Seq<char>),
            Error,
        >(Error::Unauthorized),
{
}

} // verus!
