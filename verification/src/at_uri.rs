use vstd::prelude::*;

verus! {

pub open spec fn is_alnum(c: char) -> bool {
    ('a' <= c && c <= 'z') || ('A' <= c && c <= 'Z') || ('0' <= c && c <= '9')
}

/// Characters of the authority of an AT URI.
pub open spec fn authority_char(c: char) -> bool {
    is_alnum(c) || c == '.' || c == '_' || c == ':' || c == '%' || c == '-'
}

/// Characters of the collection of an AT URI.
pub open spec fn collection_char(c: char) -> bool {
    is_alnum(c) || c == '-' || c == '.'
}

/// Characters of the record key of an AT URI.
pub open spec fn rkey_char(c: char) -> bool {
    is_alnum(c) || c == '.' || c == '-' || c == '_' || c == ':' || c == '~'
}

/// `s` is the AT URI of a record with authority `a`, collection `c` and
/// record key `r`: `at://` `a` `/` `c` `/` `r`, where the authority and the
/// collection are not empty and the record key has one to 512 characters,
/// each part made of its own characters (ASCII letters and digits and a few
/// signs; never `/`).
pub open spec fn at_uri_parts(s: Seq<char>, a: Seq<char>, c: Seq<char>, r: Seq<char>) -> bool {
    &&& s =~= seq!['a', 't', ':', '/', '/'] + a + seq!['/'] + c + seq!['/'] + r
    &&& a.len() >= 1
    &&& forall|i: int| 0 <= i < a.len() ==> authority_char(#[trigger] a[i])
    &&& c.len() >= 1
    &&& forall|i: int| 0 <= i < c.len() ==> collection_char(#[trigger] c[i])
    &&& 1 <= r.len() <= 512
    &&& forall|i: int| 0 <= i < r.len() ==> rkey_char(#[trigger] r[i])
}

/// The three parts of a record's AT URI.
#[derive(Debug)]
pub struct AtUriParts {
    pub authority: String,
    pub collection: String,
    pub rkey: String,
}

fn is_alnum_exec(c: char) -> (r: bool)
    ensures
        r == is_alnum(c),
{
    ('a' <= c && c <= 'z') || ('A' <= c && c <= 'Z') || ('0' <= c && c <= '9')
}

fn authority_char_exec(c: char) -> (r: bool)
    ensures
        r == authority_char(c),
{
    is_alnum_exec(c) || c == '.' || c == '_' || c == ':' || c == '%' || c == '-'
}

fn collection_char_exec(c: char) -> (r: bool)
    ensures
        r == collection_char(c),
{
    is_alnum_exec(c) || c == '-' || c == '.'
}

fn rkey_char_exec(c: char) -> (r: bool)
    ensures
        r == rkey_char(c),
{
    is_alnum_exec(c) || c == '.' || c == '-' || c == '_' || c == ':' || c == '~'
}

proof fn lemma_parts_layout(s: Seq<char>, a: Seq<char>, c: Seq<char>, r: Seq<char>)
    requires
        at_uri_parts(s, a, c, r),
    ensures
        s.len() == 7 + a.len() + c.len() + r.len(),
        s[0] == 'a' && s[1] == 't' && s[2] == ':' && s[3] == '/' && s[4] == '/',
        forall|k: int| 5 <= k < 5 + (a.len() as int) ==> authority_char(#[trigger] s[k]),
        s[5 + (a.len() as int)] == '/',
        forall|k: int| 6 + (a.len() as int) <= k < 6 + (a.len() as int) + (c.len() as int) ==> collection_char(#[trigger] s[k]),
        s[6 + (a.len() as int) + (c.len() as int)] == '/',
        forall|k: int| 7 + (a.len() as int) + (c.len() as int) <= k < s.len() ==> rkey_char(#[trigger] s[k]),
        s.subrange(5, 5 + (a.len() as int)) == a,
        s.subrange(6 + (a.len() as int), 6 + (a.len() as int) + (c.len() as int)) == c,
        s.subrange(7 + (a.len() as int) + (c.len() as int), s.len() as int) == r,
{
    assert forall|k: int| 5 <= k < 5 + (a.len() as int) implies authority_char(#[trigger] s[k]) by {
        assert(s[k] == a[k - 5]);
    }
    assert forall|k: int| 6 + (a.len() as int) <= k < 6 + (a.len() as int) + (c.len() as int) implies collection_char(#[trigger] s[k]) by {
        assert(s[k] == c[k - 6 - (a.len() as int)]);
    }
    assert forall|k: int| 7 + (a.len() as int) + (c.len() as int) <= k < s.len() implies rkey_char(#[trigger] s[k]) by {
        assert(s[k] == r[k - 7 - (a.len() as int) - (c.len() as int)]);
    }
    assert(s.subrange(5, 5 + (a.len() as int)) =~= a);
    assert(s.subrange(6 + (a.len() as int), 6 + (a.len() as int) + (c.len() as int)) =~= c);
    assert(s.subrange(7 + (a.len() as int) + (c.len() as int), s.len() as int) =~= r);
}

/// Splits a record's AT URI into its parts; none where the text is not one.
pub fn parse_at_uri(s: &str) -> (r: Option<AtUriParts>)
    ensures
        r matches Some(p) ==> at_uri_parts(s@, p.authority@, p.collection@, p.rkey@),
        r is None ==> forall|a: Seq<char>, c: Seq<char>, k: Seq<char>| #![trigger at_uri_parts(s@, a, c, k)]
            !at_uri_parts(s@, a, c, k),
{
    let n = s.unicode_len();
    if n < 5 || s.get_char(0) != 'a' || s.get_char(1) != 't' || s.get_char(2) != ':' || s.get_char(3) != '/'
        || s.get_char(4) != '/' {
        proof {
            assert forall|a: Seq<char>, c: Seq<char>, k: Seq<char>| #![trigger at_uri_parts(s@, a, c, k)]
                !at_uri_parts(s@, a, c, k) by {
                if at_uri_parts(s@, a, c, k) {
                    lemma_parts_layout(s@, a, c, k);
                }
            }
        }
        return None;
    }
    // authority
    let mut i: usize = 5;
    while i < n && authority_char_exec(s.get_char(i))
        invariant
            n == s@.len(),
            5 <= i <= n,
            forall|k: int| 5 <= k < i ==> authority_char(#[trigger] s@[k]),
        decreases n - i,
    {
        i = i + 1;
    }
    if i == 5 || i >= n || s.get_char(i) != '/' {
        proof {
            assert forall|a: Seq<char>, c: Seq<char>, k: Seq<char>| #![trigger at_uri_parts(s@, a, c, k)]
                !at_uri_parts(s@, a, c, k) by {
                if at_uri_parts(s@, a, c, k) {
                    lemma_parts_layout(s@, a, c, k);
                    let e = 5 + a.len() as int;
                    if i < e {
                        assert(authority_char(s@[i as int]));
                    } else if i > e {
                        assert(authority_char(s@[e]));
                    }
                }
            }
        }
        return None;
    }
    let p1 = i;
    i = i + 1;
    while i < n && collection_char_exec(s.get_char(i))
        invariant
            n == s@.len(),
            p1 + 1 <= i <= n,
            forall|k: int| p1 + 1 <= k < i ==> collection_char(#[trigger] s@[k]),
        decreases n - i,
    {
        i = i + 1;
    }
    if i == p1 + 1 || i >= n || s.get_char(i) != '/' {
        proof {
            assert forall|a: Seq<char>, c: Seq<char>, k: Seq<char>| #![trigger at_uri_parts(s@, a, c, k)]
                !at_uri_parts(s@, a, c, k) by {
                if at_uri_parts(s@, a, c, k) {
                    lemma_parts_layout(s@, a, c, k);
                    let e1 = 5 + a.len() as int;
                    if p1 < e1 {
                        assert(s@[p1 as int] == '/');
                        assert(authority_char(s@[p1 as int]));
                    } else if p1 > e1 {
                        assert(authority_char(s@[e1]));
                    }
                    let e2 = 6 + a.len() as int + c.len() as int;
                    if i < e2 {
                        assert(collection_char(s@[i as int]));
                    } else if i > e2 {
                        assert(collection_char(s@[e2]));
                    }
                }
            }
        }
        return None;
    }
    let p2 = i;
    i = i + 1;
    while i < n && rkey_char_exec(s.get_char(i))
        invariant
            n == s@.len(),
            p2 + 1 <= i <= n,
            forall|k: int| p2 + 1 <= k < i ==> rkey_char(#[trigger] s@[k]),
        decreases n - i,
    {
        i = i + 1;
    }
    if i != n || n - (p2 + 1) < 1 || n - (p2 + 1) > 512 {
        proof {
            assert forall|a: Seq<char>, c: Seq<char>, k: Seq<char>| #![trigger at_uri_parts(s@, a, c, k)]
                !at_uri_parts(s@, a, c, k) by {
                if at_uri_parts(s@, a, c, k) {
                    lemma_parts_layout(s@, a, c, k);
                    let e1 = 5 + a.len() as int;
                    if p1 < e1 {
                        assert(s@[p1 as int] == '/');
                        assert(authority_char(s@[p1 as int]));
                    } else if p1 > e1 {
                        assert(authority_char(s@[e1]));
                    }
                    let e2 = 6 + a.len() as int + c.len() as int;
                    if p2 < e2 {
                        assert(s@[p2 as int] == '/');
                        assert(collection_char(s@[p2 as int]));
                    } else if p2 > e2 {
                        assert(collection_char(s@[e2]));
                    }
                    if i < n {
                        assert(rkey_char(s@[i as int]));
                    }
                }
            }
        }
        return None;
    }
    let authority = s.substring_char(5, p1);
    let collection = s.substring_char(p1 + 1, p2);
    let rkey = s.substring_char(p2 + 1, n);
    proof {
        let a = authority@;
        let c = collection@;
        let k = rkey@;
        assert forall|j: int| 0 <= j < a.len() implies authority_char(#[trigger] a[j]) by {
            assert(a[j] == s@[j + 5]);
        }
        assert forall|j: int| 0 <= j < c.len() implies collection_char(#[trigger] c[j]) by {
            assert(c[j] == s@[j + p1 + 1]);
        }
        assert forall|j: int| 0 <= j < k.len() implies rkey_char(#[trigger] k[j]) by {
            assert(k[j] == s@[j + p2 + 1]);
        }
        assert(s@ =~= seq!['a', 't', ':', '/', '/'] + a + seq!['/'] + c + seq!['/'] + k);
    }
    Some(AtUriParts {
        authority: String::from_str(authority),
        collection: String::from_str(collection),
        rkey: String::from_str(rkey),
    })
}

/// A text has at most one reading as a record's AT URI.
pub proof fn lemma_at_uri_parts_unique(
    s: Seq<char>,
    a1: Seq<char>,
    c1: Seq<char>,
    r1: Seq<char>,
    a2: Seq<char>,
    c2: Seq<char>,
    r2: Seq<char>,
)
    requires
        at_uri_parts(s, a1, c1, r1),
        at_uri_parts(s, a2, c2, r2),
    ensures
        a1 == a2,
        c1 == c2,
        r1 == r2,
{
    lemma_parts_layout(s, a1, c1, r1);
    lemma_parts_layout(s, a2, c2, r2);
    let e1 = 5 + a1.len() as int;
    let e2 = 5 + a2.len() as int;
    if e1 < e2 {
        assert(authority_char(s[e1]));
    } else if e2 < e1 {
        assert(authority_char(s[e2]));
    }
    let f1 = 6 + a1.len() as int + c1.len() as int;
    let f2 = 6 + a2.len() as int + c2.len() as int;
    if f1 < f2 {
        assert(collection_char(s[f1]));
    } else if f2 < f1 {
        assert(collection_char(s[f2]));
    }
}

} // verus!
