use vstd::prelude::*;
use vstd::string::StringSliceAdditionalSpecFns;

verus! {

/// `a-z`, `0-9`, `_`, `.` and `-`: the bytes a namespace is made of.
pub open spec fn is_namespace_byte(b: u8) -> bool {
    (97 <= b <= 122) || (48 <= b <= 57) || b == 95 || b == 46 || b == 45
}

/// The namespace bytes and `/`: the bytes a path is made of.
pub open spec fn is_path_byte(b: u8) -> bool {
    is_namespace_byte(b) || b == 47
}

/// Both parts are non-empty and made of their allowed bytes.
pub open spec fn valid_parts(namespace: Seq<u8>, path: Seq<u8>) -> bool {
    &&& namespace.len() > 0
    &&& path.len() > 0
    &&& forall|i: int| 0 <= i < namespace.len() ==> is_namespace_byte(#[trigger] namespace[i])
    &&& forall|i: int| 0 <= i < path.len() ==> is_path_byte(#[trigger] path[i])
}

/// `namespace:path`.
pub open spec fn joined(namespace: Seq<u8>, path: Seq<u8>) -> Seq<u8> {
    namespace + seq![58u8] + path
}

/// `s` is the identifier with these two parts.
pub open spec fn parses_to(s: Seq<u8>, namespace: Seq<u8>, path: Seq<u8>) -> bool {
    s == joined(namespace, path) && valid_parts(namespace, path)
}

pub open spec fn is_identifier(s: Seq<u8>) -> bool {
    exists|namespace: Seq<u8>, path: Seq<u8>| parses_to(s, namespace, path)
}

/// Why a string is not an identifier.
#[derive(Clone, Copy, Debug, PartialEq, Eq, Structural)]
pub enum IdentifierError {
    /// The string does not have the form `namespace:path`.
    Malformed,
}

/// The colon of an identifier is the first colon of its text, so the parts of a
/// text are determined by it.
proof fn lemma_parts_unique(ns1: Seq<u8>, p1: Seq<u8>, ns2: Seq<u8>, p2: Seq<u8>)
    requires
        valid_parts(ns1, p1),
        valid_parts(ns2, p2),
        joined(ns1, p1) == joined(ns2, p2),
    ensures
        ns1 == ns2,
        p1 == p2,
{
    let s = joined(ns1, p1);
    if ns1.len() < ns2.len() {
        assert(s[ns1.len() as int] == 58u8);
        assert(joined(ns2, p2)[ns1.len() as int] == ns2[ns1.len() as int]);
        assert(is_namespace_byte(ns2[ns1.len() as int]));
    } else if ns2.len() < ns1.len() {
        assert(joined(ns2, p2)[ns2.len() as int] == 58u8);
        assert(s[ns2.len() as int] == ns1[ns2.len() as int]);
        assert(is_namespace_byte(ns1[ns2.len() as int]));
    }
    assert(ns1 =~= s.subrange(0, ns1.len() as int));
    assert(ns2 =~= joined(ns2, p2).subrange(0, ns2.len() as int));
    assert(p1 =~= s.subrange(ns1.len() as int + 1, s.len() as int));
    assert(p2 =~= joined(ns2, p2).subrange(ns2.len() as int + 1, s.len() as int));
}

/// Formatting a parsed identifier and parsing the text again gives the same
/// identifier: the text is an identifier, and these are its only parts.
pub proof fn identifier_round_trip(s: Seq<u8>, namespace: Seq<u8>, path: Seq<u8>)
    requires
        parses_to(s, namespace, path),
    ensures
        is_identifier(joined(namespace, path)),
        forall|ns2: Seq<u8>, p2: Seq<u8>|
            parses_to(joined(namespace, path), ns2, p2) ==> ns2 == namespace && p2 == path,
{
    assert(parses_to(joined(namespace, path), namespace, path));
    assert forall|ns2: Seq<u8>, p2: Seq<u8>|
        parses_to(joined(namespace, path), ns2, p2) implies ns2 == namespace && p2 == path by {
        lemma_parts_unique(namespace, path, ns2, p2);
    }
}

/// A namespaced name `namespace:path`.
#[derive(Clone, Debug, PartialEq, Eq)]
pub struct Identifier {
    namespace: Vec<u8>,
    path: Vec<u8>,
}

impl View for Identifier {
    type V = (Seq<u8>, Seq<u8>);

    closed spec fn view(&self) -> (Seq<u8>, Seq<u8>) {
        (self.namespace@, self.path@)
    }
}

/// `data/<namespace>/<kind>/<path>.json`.
pub open spec fn data_path_of(namespace: Seq<u8>, path: Seq<u8>, kind: Seq<u8>) -> Seq<u8> {
    seq![100u8, 97u8, 116u8, 97u8, 47u8] + namespace + seq![47u8] + kind + seq![47u8] + path + seq![
        46u8,
        106u8,
        115u8,
        111u8,
        110u8,
    ]
}

fn push_all(v: &mut Vec<u8>, s: &[u8])
    ensures
        final(v)@ == old(v)@ + s@,
{
    let mut i: usize = 0;
    while i < s.len()
        invariant
            i <= s@.len(),
            v@ == old(v)@ + s@.subrange(0, i as int),
        decreases s@.len() - i,
    {
        v.push(s[i]);
        i = i + 1;
        assert(v@ =~= old(v)@ + s@.subrange(0, i as int));
    }
    assert(s@.subrange(0, i as int) =~= s@);
}

fn copy_range(s: &[u8], from: usize, to: usize) -> (r: Vec<u8>)
    requires
        from <= to <= s@.len(),
    ensures
        r@ == s@.subrange(from as int, to as int),
{
    let mut r: Vec<u8> = Vec::new();
    let mut i = from;
    while i < to
        invariant
            from <= i <= to <= s@.len(),
            r@ == s@.subrange(from as int, i as int),
        decreases to - i,
    {
        r.push(s[i]);
        i = i + 1;
        assert(r@ =~= s@.subrange(from as int, i as int));
    }
    r
}

impl Identifier {
    pub fn parse(s: &str) -> (r: Result<Identifier, IdentifierError>)
        ensures
            r is Ok ==> parses_to(s.spec_bytes(), (r->Ok_0)@.0, (r->Ok_0)@.1),
            r is Err ==> !is_identifier(s.spec_bytes()),
    {
        Self::parse_bytes(s.as_bytes())
    }

    /// Parses the UTF-8 bytes of an identifier.
    pub fn parse_bytes(s: &[u8]) -> (r: Result<Identifier, IdentifierError>)
        ensures
            r is Ok ==> parses_to(s@, (r->Ok_0)@.0, (r->Ok_0)@.1),
            r is Err ==> !is_identifier(s@),
    {
        let n = s.len();
        let mut c: usize = 0;
        while c < n && s[c] != 58u8
            invariant
                c <= n == s@.len(),
                forall|i: int| 0 <= i < c ==> s@[i] != 58u8,
            decreases n - c,
        {
            c = c + 1;
        }
        let mut ok = c > 0 && c < n && c + 1 < n;
        let mut i: usize = 0;
        while i < c
            invariant
                i <= c <= n == s@.len(),
                ok == (c > 0 && c + 1 < n && forall|k: int| 0 <= k < i ==> is_namespace_byte(s@[k])),
            decreases c - i,
        {
            let b = s[i];
            if !((97 <= b && b <= 122) || (48 <= b && b <= 57) || b == 95 || b == 46 || b == 45) {
                ok = false;
            }
            i = i + 1;
            assert(ok == (c > 0 && c + 1 < n && forall|k: int| 0 <= k < i ==> is_namespace_byte(s@[k])));
        }
        let mut j: usize = if c < n {
            c + 1
        } else {
            n
        };
        let start = j;
        while j < n
            invariant
                start <= j <= n == s@.len(),
                c < n ==> start == c + 1,
                ok == (c > 0 && c + 1 < n && (forall|k: int| 0 <= k < c ==> is_namespace_byte(s@[k]))
                    && forall|k: int| start <= k < j ==> is_path_byte(s@[k])),
            decreases n - j,
        {
            let b = s[j];
            if !((97 <= b && b <= 122) || (48 <= b && b <= 57) || b == 95 || b == 46 || b == 45
                || b == 47) {
                ok = false;
            }
            j = j + 1;
            assert(ok == (c > 0 && c + 1 < n && (forall|k: int| 0 <= k < c ==> is_namespace_byte(s@[k]))
                && forall|k: int| start <= k < j ==> is_path_byte(s@[k])));
        }
        if ok {
            let namespace = copy_range(s, 0, c);
            let path = copy_range(s, c + 1, n);
            assert(s@ =~= joined(namespace@, path@));
            assert forall|k: int| 0 <= k < path@.len() implies is_path_byte(#[trigger] path@[k]) by {
                assert(path@[k] == s@[c + 1 + k]);
            }
            assert forall|k: int| 0 <= k < namespace@.len() implies is_namespace_byte(
                #[trigger] namespace@[k],
            ) by {
                assert(namespace@[k] == s@[k]);
            }
            Ok(Identifier { namespace, path })
        } else {
            assert forall|ns: Seq<u8>, p: Seq<u8>| !parses_to(s@, ns, p) by {
                if parses_to(s@, ns, p) {
                    assert(s@[ns.len() as int] == 58u8);
                    if (c as int) < ns.len() {
                        assert(s@[c as int] == ns[c as int]);
                        assert(is_namespace_byte(ns[c as int]));
                    }
                    assert(c == ns.len());
                    assert forall|k: int| 0 <= k < c implies is_namespace_byte(s@[k]) by {
                        assert(s@[k] == ns[k]);
                    }
                    assert forall|k: int| c + 1 <= k < n implies is_path_byte(s@[k]) by {
                        assert(s@[k] == p[k - c - 1]);
                    }
                    assert(false);
                }
            }
            Err(IdentifierError::Malformed)
        }
    }

    /// The text `namespace:path`.
    pub fn to_bytes(&self) -> (r: Vec<u8>)
        ensures
            r@ == joined(self@.0, self@.1),
    {
        let mut r = self.namespace.clone();
        r.push(58u8);
        push_all(&mut r, self.path.as_slice());
        r
    }

    /// Where a registry directory keeps this identifier's document of `kind`:
    /// `data/<namespace>/<kind>/<path>.json`.
    pub fn data_path(&self, kind: &[u8]) -> (r: Vec<u8>)
        ensures
            r@ == data_path_of(self@.0, self@.1, kind@),
    {
        let mut r: Vec<u8> = Vec::new();
        r.push(100u8);
        r.push(97u8);
        r.push(116u8);
        r.push(97u8);
        r.push(47u8);
        push_all(&mut r, self.namespace.as_slice());
        r.push(47u8);
        push_all(&mut r, kind);
        r.push(47u8);
        push_all(&mut r, self.path.as_slice());
        r.push(46u8);
        r.push(106u8);
        r.push(115u8);
        r.push(111u8);
        r.push(110u8);
        assert(r@ =~= data_path_of(self@.0, self@.1, kind@));
        r
    }

    pub fn namespace(&self) -> (r: &Vec<u8>)
        ensures
            r@ == self@.0,
    {
        &self.namespace
    }

    pub fn path(&self) -> (r: &Vec<u8>)
        ensures
            r@ == self@.1,
    {
        &self.path
    }
}

} // verus!
