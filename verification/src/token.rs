//! Authorization of handshake tokens.

use vstd::prelude::*;
use crate::proto::Token;
use crate::text::{concat, split_char, split_on, views};

verus! {

/// Decides whether a handshake token is authorized.
pub trait Authorizer: Clone + Send + Sync {
    /// The tokens this authorizer accepts.
    spec fn authorizes(&self, token: Token) -> bool;

    fn is_authorized(&self, t: &Token) -> (r: bool)
        ensures
            r == self.authorizes(*t),
    ;
}

#[verifier::external_type_specification]
#[verifier::external_body]
pub struct ExDecodeError(base64::DecodeError);

/// What `base64::decode` (standard alphabet, padded) gives for `input`:
/// the decoded bytes, or `None` when it reports an error. A function of the
/// input alone.
pub uninterp spec fn spec_base64_decode(input: Seq<char>) -> Option<Seq<u8>>;

/// Calls `base64::decode` on the bytes of `input`. Claimed: it succeeds
/// exactly when `spec_base64_decode` gives bytes, and then returns them.
#[verifier::external_body]
fn base64_decode(input: &str) -> (r: Result<Vec<u8>, base64::DecodeError>)
    ensures
        r is Ok <==> spec_base64_decode(input@) is Some,
        r matches Ok(v) ==> spec_base64_decode(input@) == Some(v@),
{
    base64::decode(input)
}

/// The comma-separated pieces of a key list.
pub open spec fn key_pieces(keys: Seq<char>) -> Seq<Seq<char>> {
    split_on(keys, ',')
}

/// Every piece of the key list is valid base64.
pub open spec fn all_keys_decode(keys: Seq<char>) -> bool {
    forall|i: int|
        0 <= i < key_pieces(keys).len() ==> (#[trigger] spec_base64_decode(key_pieces(keys)[i])) is Some
}

/// The decoded keys of a key list.
pub open spec fn key_set(keys: Seq<char>) -> Set<Seq<u8>> {
    Set::new(
        |k: Seq<u8>|
            exists|i: int|
                0 <= i < key_pieces(keys).len() && spec_base64_decode(#[trigger] key_pieces(keys)[i])
                    == Some(k),
    )
}

/// The error text for an absent key variable.
pub open spec fn missing_keys_text(env_name: Seq<char>) -> Seq<char> {
    "expected "@ + env_name + " to contain authorized keys. it contains nothing."@
}

/// The error text for a key list with a piece that is not base64.
pub open spec fn undecodable_keys_text() -> Seq<char> {
    "one or more tokens failed to decode"@
}


/// A key list whose every piece decodes has at least one key: there is
/// always a first piece.
pub proof fn lemma_decoded_keys_nonempty(keys: Seq<char>)
    requires
        all_keys_decode(keys),
    ensures
        !key_set(keys).is_empty(),
{
    crate::text::lemma_split_on_nonempty(keys, ',');
    let k = spec_base64_decode(key_pieces(keys)[0])->0;
    assert(key_set(keys).contains(k));
}

/// Authorizes exactly the tokens listed, base64-encoded and comma-separated,
/// in an environment variable.
///
/// The keys are held as a list in which no key occurs twice (the type
/// invariant) and seen as a set. vstd's
/// model of `HashSet` applies only to key types that `obeys_key_model`,
/// which vstd establishes for integers and `bool`, not for byte vectors;
/// holding a `HashSet<Vec<u8>>` would leave `contains` with no contract.
#[derive(Debug)]
pub struct EnvAuthorizer {
    authorized_tokens: Vec<Vec<u8>>,
}

/// The bytes of each of a sequence of byte vectors.
pub open spec fn byte_views(v: Seq<Vec<u8>>) -> Seq<Seq<u8>> {
    v.map_values(|x: Vec<u8>| x@)
}

impl EnvAuthorizer {
    /// No key is held twice.
    #[verifier::type_invariant]
    closed spec fn keys_distinct(self) -> bool {
        byte_views(self.authorized_tokens@).no_duplicates()
    }
}

fn copy_bytes(v: &Vec<u8>) -> (r: Vec<u8>)
    ensures
        r@ == v@,
{
    let mut r: Vec<u8> = Vec::new();
    let mut i: usize = 0;
    while i < v.len()
        invariant
            i <= v@.len(),
            r@ == v@.subrange(0, i as int),
        decreases v@.len() - i,
    {
        r.push(v[i]);
        assert(v@.subrange(0, i + 1) =~= v@.subrange(0, i as int).push(v@[i as int]));
        i = i + 1;
    }
    assert(v@.subrange(0, v@.len() as int) =~= v@);
    r
}

impl Clone for EnvAuthorizer {
    /// An authorizer holding the same keys.
    fn clone(&self) -> (r: Self)
        ensures
            r@ == self@,
    {
        proof {
            use_type_invariant(self);
        }
        let mut tokens: Vec<Vec<u8>> = Vec::new();
        let mut i: usize = 0;
        while i < self.authorized_tokens.len()
            invariant
                i <= self.authorized_tokens@.len(),
                byte_views(tokens@) == byte_views(self.authorized_tokens@).subrange(0, i as int),
            decreases self.authorized_tokens@.len() - i,
        {
            let b = copy_bytes(&self.authorized_tokens[i]);
            let ghost old_t = tokens@;
            tokens.push(b);
            assert(byte_views(tokens@) =~= byte_views(old_t).push(self.authorized_tokens@[i as int]@));
            assert(byte_views(self.authorized_tokens@).subrange(0, i + 1) =~= byte_views(
                self.authorized_tokens@,
            ).subrange(0, i as int).push(self.authorized_tokens@[i as int]@));
            i = i + 1;
        }
        assert(byte_views(self.authorized_tokens@).subrange(0, i as int) =~= byte_views(
            self.authorized_tokens@,
        ));
        EnvAuthorizer { authorized_tokens: tokens }
    }
}

impl View for EnvAuthorizer {
    type V = Set<Seq<u8>>;

    /// The authorized token bytes.
    closed spec fn view(&self) -> Set<Seq<u8>> {
        byte_views(self.authorized_tokens@).to_set()
    }
}

fn bytes_eq(a: &Vec<u8>, b: &Vec<u8>) -> (r: bool)
    ensures
        r == (a@ == b@),
{
    if a.len() != b.len() {
        return false;
    }
    let mut i: usize = 0;
    while i < a.len()
        invariant
            a@.len() == b@.len(),
            i <= a@.len(),
            forall|j: int| 0 <= j < i ==> a@[j] == b@[j],
        decreases a@.len() - i,
    {
        if a[i] != b[i] {
            return false;
        }
        i = i + 1;
    }
    assert(a@ =~= b@);
    true
}

fn contains_bytes(v: &Vec<Vec<u8>>, b: &Vec<u8>) -> (r: bool)
    ensures
        r == byte_views(v@).contains(b@),
{
    let mut i: usize = 0;
    while i < v.len()
        invariant
            i <= v@.len(),
            forall|j: int| 0 <= j < i ==> v@[j]@ != b@,
        decreases v@.len() - i,
    {
        if bytes_eq(&v[i], b) {
            assert(byte_views(v@)[i as int] == b@);
            return true;
        }
        i = i + 1;
    }
    assert forall|j: int| 0 <= j < byte_views(v@).len() implies byte_views(v@)[j] != b@ by {
        assert(v@[j]@ != b@);
    }
    false
}

impl EnvAuthorizer {
    /// The authorizer for the key variable `env_name` holding `value`
    /// (`None` when the variable is absent).
    pub fn from_env_value(env_name: &str, value: Option<String>) -> (r: Result<EnvAuthorizer, String>)
        ensures
            match value {
                None => r matches Err(e) && e@ == missing_keys_text(env_name@),
                Some(keys) => {
                    &&& r is Ok <==> all_keys_decode(keys@)
                    &&& r matches Ok(a) ==> a@ == key_set(keys@) && !a@.is_empty()
                    &&& r matches Err(e) ==> e@ == undecodable_keys_text()
                },
            },
    {
        match value {
            None => {
                let a = concat("expected ", env_name);
                Err(concat(a.as_str(), " to contain authorized keys. it contains nothing."))
            },
            Some(keys) => Self::from_keys(env_name, keys.as_str()),
        }
    }

    /// The authorizer for the comma-separated base64 keys `keys`, read from
    /// the variable `env_name`.
    pub fn from_keys(env_name: &str, keys: &str) -> (r: Result<EnvAuthorizer, String>)
        ensures
            r is Ok <==> all_keys_decode(keys@),
            r matches Ok(a) ==> a@ == key_set(keys@) && !a@.is_empty(),
            r matches Err(e) ==> e@ == undecodable_keys_text(),
    {
        let pieces = split_char(keys, ',');
        let ghost ps = key_pieces(keys@);
        assert(views(pieces@) == ps);
        assert(ps.len() == pieces@.len());
        let mut tokens: Vec<Vec<u8>> = Vec::new();
        assert(byte_views(tokens@) =~= Seq::<Seq<u8>>::empty());
        let mut i: usize = 0;
        while i < pieces.len()
            invariant
                views(pieces@) == ps,
                ps.len() == pieces@.len(),
                ps == key_pieces(keys@),
                byte_views(tokens@).no_duplicates(),
                i <= pieces@.len(),
                forall|j: int| 0 <= j < i ==> (#[trigger] spec_base64_decode(ps[j])) is Some,
                forall|k: Seq<u8>|
                    byte_views(tokens@).contains(k) <==> exists|j: int|
                        0 <= j < i && spec_base64_decode(#[trigger] ps[j]) == Some(k),
            decreases pieces@.len() - i,
        {
            assert(ps[i as int] == pieces@[i as int]@);
            match base64_decode(pieces[i].as_str()) {
                Ok(bytes) => {
                    let ghost kb = bytes@;
                    let ghost old_t = byte_views(tokens@);
                    if !contains_bytes(&tokens, &bytes) {
                        let ghost old_tokens = tokens@;
                        tokens.push(bytes);
                        assert(byte_views(tokens@) =~= byte_views(old_tokens).push(kb));
                        assert(byte_views(tokens@).no_duplicates()) by {
                            assert forall|a: int, b: int|
                                0 <= a < byte_views(tokens@).len() && 0 <= b < byte_views(
                                    tokens@,
                                ).len() && a != b implies byte_views(tokens@)[a] != byte_views(
                                    tokens@,
                                )[b] by {
                                if a == byte_views(tokens@).len() - 1 {
                                    assert(!byte_views(old_tokens).contains(byte_views(tokens@)[a]));
                                    assert(byte_views(old_tokens)[b] == byte_views(tokens@)[b]);
                                } else if b == byte_views(tokens@).len() - 1 {
                                    assert(!byte_views(old_tokens).contains(byte_views(tokens@)[b]));
                                    assert(byte_views(old_tokens)[a] == byte_views(tokens@)[a]);
                                }
                            }
                        }
                        assert(byte_views(tokens@)[byte_views(tokens@).len() - 1] == kb);
                        assert forall|k: Seq<u8>| old_t.contains(k) implies byte_views(tokens@).contains(k) by {
                            let j = choose|j: int| 0 <= j < old_t.len() && old_t[j] == k;
                            assert(byte_views(tokens@)[j] == k);
                        }
                    }
                    assert(byte_views(tokens@).contains(kb));
                    assert(forall|k: Seq<u8>| old_t.contains(k) ==> byte_views(tokens@).contains(k));
                    assert forall|k: Seq<u8>| byte_views(tokens@).contains(k) implies old_t.contains(k) || k == kb by {
                        let j = choose|j: int| 0 <= j < byte_views(tokens@).len() && byte_views(tokens@)[j] == k;
                        if j < old_t.len() {
                            assert(old_t[j] == k);
                        }
                    }
                    assert forall|k: Seq<u8>|
                        byte_views(tokens@).contains(k) <==> exists|j: int|
                            0 <= j < i + 1 && spec_base64_decode(#[trigger] ps[j]) == Some(k) by {
                        if byte_views(tokens@).contains(k) {
                            if k == kb {
                                assert(spec_base64_decode(ps[i as int]) == Some(k));
                            } else {
                                assert(old_t.contains(k));
                                let j = choose|j: int| 0 <= j < i && spec_base64_decode(#[trigger] ps[j]) == Some(k);
                                assert(spec_base64_decode(ps[j]) == Some(k));
                            }
                        }
                        if exists|j: int| 0 <= j < i + 1 && spec_base64_decode(#[trigger] ps[j]) == Some(k) {
                            let j = choose|j: int| 0 <= j < i + 1 && spec_base64_decode(#[trigger] ps[j]) == Some(k);
                            if j < i {
                                assert(exists|j: int| 0 <= j < i && spec_base64_decode(#[trigger] ps[j]) == Some(k));
                                assert(old_t.contains(k));
                            } else {
                                assert(k == kb);
                            }
                        }
                    }
                },
                Err(_) => {
                    assert(spec_base64_decode(key_pieces(keys@)[i as int]) is None);
                    assert(!all_keys_decode(keys@));
                    return Err(crate::text::owned("one or more tokens failed to decode"));
                },
            }
            i = i + 1;
        }
        assert(byte_views(tokens@).to_set() =~= key_set(keys@)) by {
            assert forall|k: Seq<u8>| byte_views(tokens@).to_set().contains(k) <==> key_set(keys@).contains(k) by {
            }
        }
        if tokens.len() > 0 {
            assert(byte_views(tokens@).contains(byte_views(tokens@)[0]));
            assert(byte_views(tokens@).to_set().contains(byte_views(tokens@)[0]));
            Ok(EnvAuthorizer { authorized_tokens: tokens })
        } else {
            assert(byte_views(tokens@).to_set() =~= Set::<Seq<u8>>::empty());
            proof {
                lemma_decoded_keys_nonempty(keys@);
            }
            let a = concat("expected at least one authorized key in ", env_name);
            Err(concat(a.as_str(), " but there are 0."))
        }
    }
}

/// An authorizer built from a key list authorizes a token exactly when the
/// token's bytes are what one of the listed keys decodes to.
pub proof fn lemma_authorizes_listed_keys(a: EnvAuthorizer, keys: Seq<char>, t: Vec<u8>)
    requires
        a@ == key_set(keys),
    ensures
        a.authorizes(Token::V1(t)) <==> exists|i: int|
            0 <= i < key_pieces(keys).len() && spec_base64_decode(#[trigger] key_pieces(keys)[i])
                == Some(t@),
{
}

impl Authorizer for EnvAuthorizer {
    open spec fn authorizes(&self, token: Token) -> bool {
        match token {
            Token::V1(bytes) => self@.contains(bytes@),
        }
    }

    fn is_authorized(&self, t: &Token) -> (r: bool) {
        match t {
            Token::V1(bytes) => contains_bytes(&self.authorized_tokens, bytes),
        }
    }
}

} // verus!
