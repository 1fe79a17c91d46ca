use argon2::{Algorithm as A, PasswordHasher, Version as V};
use base64::Engine;
use vstd::prelude::*;
use vstd::utf8::encode_utf8;

use crate::codec::{encode_le, lemma_le_injective, le_bytes};

verus! {

/// The member of the Argon2 family that hashes passwords.
#[derive(Clone, Copy, Debug, PartialEq, Eq, Structural)]
pub enum HashAlgorithm {
    Argon2d,
    Argon2i,
    Argon2id,
}

/// The Argon2 revision: 0x10 or 0x13.
#[derive(Clone, Copy, Debug, PartialEq, Eq, Structural)]
pub enum HashVersion {
    V0x10,
    V0x13,
}

/// Algorithm, revision and cost parameters of the password hash.
#[derive(Clone, Copy, Debug, PartialEq, Eq, Structural)]
pub struct ArgonParams {
    pub algorithm: HashAlgorithm,
    pub version: HashVersion,
    pub m_cost: u32,
    pub t_cost: u32,
    pub p_cost: u32,
    pub output_len: usize,
}

/// The cost parameters that argon2's `Params::new` accepts.
pub open spec fn params_ok(m_cost: u32, t_cost: u32, p_cost: u32, output_len: usize) -> bool {
    &&& m_cost >= 8
    &&& m_cost as int >= 8 * p_cost
    &&& t_cost >= 1
    &&& 1 <= p_cost <= 0xFF_FFFF
    &&& 4 <= output_len <= 0xFFFF_FFFF
}

/// What argon2 computes for a password under the given parameters, secret key (the pepper)
/// and base64 salt: `None` where it reports an error, else the raw hash bytes.
pub uninterp spec fn argon2_output(
    params: ArgonParams,
    pepper: Seq<char>,
    password: Seq<char>,
    salt: Seq<char>,
) -> Option<Seq<u8>>;

/// The character of a six-bit value in the standard base64 alphabet.
pub open spec fn b64_digit(v: u8) -> char {
    if v < 26 {
        (65 + v) as u8 as char
    } else if v < 52 {
        (71 + v) as u8 as char
    } else if v < 62 {
        (v - 4) as u8 as char
    } else if v == 62 {
        '+'
    } else {
        '/'
    }
}

/// The standard base64 encoding of some bytes, without padding: four characters for each
/// three bytes, and two or three for a last group of one or two.
pub open spec fn base64_unpadded(b: Seq<u8>) -> Seq<char>
    decreases b.len(),
{
    if b.len() == 0 {
        seq![]
    } else if b.len() == 1 {
        seq![b64_digit(b[0] >> 2u8), b64_digit((b[0] & 3u8) << 4u8)]
    } else if b.len() == 2 {
        seq![
            b64_digit(b[0] >> 2u8),
            b64_digit(((b[0] & 3u8) << 4u8) | (b[1] >> 4u8)),
            b64_digit((b[1] & 15u8) << 2u8),
        ]
    } else {
        seq![
            b64_digit(b[0] >> 2u8),
            b64_digit(((b[0] & 3u8) << 4u8) | (b[1] >> 4u8)),
            b64_digit(((b[1] & 15u8) << 2u8) | (b[2] >> 6u8)),
            b64_digit(b[2] & 63u8),
        ] + base64_unpadded(b.subrange(3, b.len() as int))
    }
}

/// Distinct six-bit values have distinct characters.
pub proof fn lemma_b64_digit_injective(x: u8, y: u8)
    requires
        x < 64,
        y < 64,
        b64_digit(x) == b64_digit(y),
    ensures
        x == y,
{
}

pub open spec fn bytes_view(o: Option<Vec<u8>>) -> Option<Seq<u8>> {
    match o {
        Some(v) => Some(v@),
        None => None,
    }
}

/// Relies on argon2's `Params::new`, which accepts exactly the costs that `params_ok` lists.
/// Inputs whose `8 * p_cost` overflows are left out: `Params::new` computes it in `u32`.
#[verifier::external_body]
fn argon2_params_accepted(m_cost: u32, t_cost: u32, p_cost: u32, output_len: usize) -> (r: bool)
    requires
        8 * p_cost <= u32::MAX,
    ensures
        r == params_ok(m_cost, t_cost, p_cost, output_len),
{
    argon2::Params::new(m_cost, t_cost, p_cost, Some(output_len)).is_ok()
}

/// Relies on base64's `BASE64_STANDARD_NO_PAD.encode`: four characters for each three bytes,
/// the last group shortened rather than padded.
#[verifier::external_body]
fn base64_encode(bytes: &[u8]) -> (r: String)
    ensures
        r@ == base64_unpadded(bytes@),
{
    base64::prelude::BASE64_STANDARD_NO_PAD.encode(bytes)
}

/// Relies on argon2's `Argon2::new_with_secret`, password-hash's `SaltString::from_b64` and
/// `PasswordHasher::hash_password`: the hash bytes of `password` keyed with `pepper`, salted
/// with the decoded `salt`. A hash is `output_len` bytes long, as `Output::init_with` makes it.
/// It is produced whenever the costs pass `Params::new`, the output length is 10 to 64 bytes
/// (`Output::init_with`), pepper and password are at most `u32::MAX` bytes
/// (`new_with_secret`, `hash_password_into`) and the salt is the base64 of eight bytes
/// (`SaltString::from_b64` takes its characters and length, and decoding gives argon2 its
/// minimum of eight salt bytes).
#[verifier::external_body]
fn argon2_hash(params: ArgonParams, pepper: &str, password: &str, salt: &str) -> (r: Option<
    Vec<u8>,
>)
    requires
        8 * params.p_cost <= u32::MAX,
    ensures
        bytes_view(r) == argon2_output(params, pepper@, password@, salt@),
        r matches Some(h) ==> h@.len() == params.output_len,
        engine_ok(params) && encode_utf8(pepper@).len() <= u32::MAX && encode_utf8(password@).len()
            <= u32::MAX && is_salt(salt@) ==> r is Some,
{
    let algorithm = match params.algorithm {
        HashAlgorithm::Argon2d => A::Argon2d,
        HashAlgorithm::Argon2i => A::Argon2i,
        HashAlgorithm::Argon2id => A::Argon2id,
    };
    let version = match params.version {
        HashVersion::V0x10 => V::V0x10,
        HashVersion::V0x13 => V::V0x13,
    };
    let p = argon2::Params::new(params.m_cost, params.t_cost, params.p_cost, Some(params.output_len)).ok()?;
    let ctx = argon2::Argon2::new_with_secret(pepper.as_bytes(), algorithm, version, p).ok()?;
    let salt = argon2::password_hash::SaltString::from_b64(salt).ok()?;
    Some(ctx.hash_password(password.as_bytes(), &salt).ok()?.hash?.as_bytes().to_vec())
}

/// Whether argon2 accepts the cost parameters; `false` also where `8 * p_cost` does not fit
/// in `u32`, which is out of its range anyway.
pub fn argon2_params_valid(m_cost: u32, t_cost: u32, p_cost: u32, output_len: usize) -> (r: bool)
    ensures
        r == params_ok(m_cost, t_cost, p_cost, output_len),
{
    if p_cost > 0x1FFF_FFFF {
        false
    } else {
        argon2_params_accepted(m_cost, t_cost, p_cost, output_len)
    }
}

/// The salt of an account: its identifier's eight little-endian bytes, in unpadded base64.
pub open spec fn salt_of(id: u64) -> Seq<char> {
    base64_unpadded(le_bytes(id))
}

proof fn lemma_b64_group3(p0: u8, p1: u8, p2: u8, q0: u8, q1: u8, q2: u8)
    requires
        b64_digit(p0 >> 2u8) == b64_digit(q0 >> 2u8),
        b64_digit(((p0 & 3u8) << 4u8) | (p1 >> 4u8)) == b64_digit(((q0 & 3u8) << 4u8) | (q1 >> 4u8)),
        b64_digit(((p1 & 15u8) << 2u8) | (p2 >> 6u8)) == b64_digit(((q1 & 15u8) << 2u8) | (q2
            >> 6u8)),
        b64_digit(p2 & 63u8) == b64_digit(q2 & 63u8),
    ensures
        p0 == q0 && p1 == q1 && p2 == q2,
{
    assert(p0 >> 2u8 < 64 && q0 >> 2u8 < 64 && ((p0 & 3u8) << 4u8) | (p1 >> 4u8) < 64 && ((q0
        & 3u8) << 4u8) | (q1 >> 4u8) < 64 && ((p1 & 15u8) << 2u8) | (p2 >> 6u8) < 64 && ((q1
        & 15u8) << 2u8) | (q2 >> 6u8) < 64 && p2 & 63u8 < 64 && q2 & 63u8 < 64) by (bit_vector);
    lemma_b64_digit_injective(p0 >> 2u8, q0 >> 2u8);
    lemma_b64_digit_injective(((p0 & 3u8) << 4u8) | (p1 >> 4u8), ((q0 & 3u8) << 4u8) | (q1 >> 4u8));
    lemma_b64_digit_injective(
        ((p1 & 15u8) << 2u8) | (p2 >> 6u8),
        ((q1 & 15u8) << 2u8) | (q2 >> 6u8),
    );
    lemma_b64_digit_injective(p2 & 63u8, q2 & 63u8);
    assert(p0 == q0 && p1 == q1 && p2 == q2) by (bit_vector)
        requires
            p0 >> 2u8 == q0 >> 2u8,
            ((p0 & 3u8) << 4u8) | (p1 >> 4u8) == ((q0 & 3u8) << 4u8) | (q1 >> 4u8),
            ((p1 & 15u8) << 2u8) | (p2 >> 6u8) == ((q1 & 15u8) << 2u8) | (q2 >> 6u8),
            p2 & 63u8 == q2 & 63u8,
    ;
}

proof fn lemma_b64_group2(p0: u8, p1: u8, q0: u8, q1: u8)
    requires
        b64_digit(p0 >> 2u8) == b64_digit(q0 >> 2u8),
        b64_digit(((p0 & 3u8) << 4u8) | (p1 >> 4u8)) == b64_digit(((q0 & 3u8) << 4u8) | (q1 >> 4u8)),
        b64_digit((p1 & 15u8) << 2u8) == b64_digit((q1 & 15u8) << 2u8),
    ensures
        p0 == q0 && p1 == q1,
{
    assert(p0 >> 2u8 < 64 && q0 >> 2u8 < 64 && ((p0 & 3u8) << 4u8) | (p1 >> 4u8) < 64 && ((q0
        & 3u8) << 4u8) | (q1 >> 4u8) < 64 && (p1 & 15u8) << 2u8 < 64 && (q1 & 15u8) << 2u8 < 64)
        by (bit_vector);
    lemma_b64_digit_injective(p0 >> 2u8, q0 >> 2u8);
    lemma_b64_digit_injective(((p0 & 3u8) << 4u8) | (p1 >> 4u8), ((q0 & 3u8) << 4u8) | (q1 >> 4u8));
    lemma_b64_digit_injective((p1 & 15u8) << 2u8, (q1 & 15u8) << 2u8);
    assert(p0 == q0 && p1 == q1) by (bit_vector)
        requires
            p0 >> 2u8 == q0 >> 2u8,
            ((p0 & 3u8) << 4u8) | (p1 >> 4u8) == ((q0 & 3u8) << 4u8) | (q1 >> 4u8),
            (p1 & 15u8) << 2u8 == (q1 & 15u8) << 2u8,
    ;
}

/// The unpadded base64 of some eight bytes, as every salt is.
pub open spec fn is_salt(s: Seq<char>) -> bool {
    exists|b: Seq<u8>| b.len() == 8 && s == #[trigger] base64_unpadded(b)
}

/// Distinct identifiers have distinct salts.
pub proof fn lemma_salt_injective(a: u64, b: u64)
    requires
        a != b,
    ensures
        salt_of(a) != salt_of(b),
{
    let x = le_bytes(a);
    let y = le_bytes(b);
    lemma_le_injective(a, b);
    reveal_with_fuel(base64_unpadded, 4);
    if salt_of(a) == salt_of(b) {
        let x1 = x.subrange(3, 8);
        let y1 = y.subrange(3, 8);
        let x2 = x1.subrange(3, 5);
        let y2 = y1.subrange(3, 5);
        let sa = salt_of(a);
        let sb = salt_of(b);
        assert(sa[0] == sb[0] && sa[1] == sb[1] && sa[2] == sb[2] && sa[3] == sb[3]);
        lemma_b64_group3(x[0], x[1], x[2], y[0], y[1], y[2]);
        assert(base64_unpadded(x1) =~= sa.subrange(4, 11));
        assert(base64_unpadded(y1) =~= sb.subrange(4, 11));
        let ta = base64_unpadded(x1);
        let tb = base64_unpadded(y1);
        assert(ta[0] == tb[0] && ta[1] == tb[1] && ta[2] == tb[2] && ta[3] == tb[3]);
        lemma_b64_group3(x1[0], x1[1], x1[2], y1[0], y1[1], y1[2]);
        assert(base64_unpadded(x2) =~= ta.subrange(4, 7));
        assert(base64_unpadded(y2) =~= tb.subrange(4, 7));
        let ua = base64_unpadded(x2);
        let ub = base64_unpadded(y2);
        assert(ua[0] == ub[0] && ua[1] == ub[1] && ua[2] == ub[2]);
        lemma_b64_group2(x2[0], x2[1], y2[0], y2[1]);
        assert(x =~= y);
    }
}

/// The settings under which argon2 hashes passwords: costs that `Params::new` accepts and
/// an output length that a password hash can hold (10 to 64 bytes).
pub open spec fn engine_ok(params: ArgonParams) -> bool {
    &&& params_ok(params.m_cost, params.t_cost, params.p_cost, params.output_len)
    &&& 10 <= params.output_len <= 64
}

/// The process-wide hashing context: parameters and the secret pepper.
pub struct HashEngine {
    params: ArgonParams,
    pepper: String,
}

impl HashEngine {
    #[verifier::type_invariant]
    spec fn well_formed(&self) -> bool {
        engine_ok(self.params)
    }

    /// The hash parameters.
    pub closed spec fn argon(&self) -> ArgonParams {
        self.params
    }

    /// The pepper.
    pub closed spec fn secret(&self) -> Seq<char> {
        self.pepper@
    }

    pub(crate) fn new(params: ArgonParams, pepper: String) -> (r: HashEngine)
        requires
            engine_ok(params),
        ensures
            r.argon() == params,
            r.secret() == pepper@,
    {
        HashEngine { params, pepper }
    }

    /// The hash parameters; every engine's settings are well formed.
    pub fn params(&self) -> (r: ArgonParams)
        ensures
            r == self.argon(),
            engine_ok(self.argon()),
    {
        proof {
            use_type_invariant(self);
        }
        self.params
    }

    pub fn pepper(&self) -> (r: &str)
        ensures
            r@ == self.secret(),
    {
        self.pepper.as_str()
    }

    /// The hash of `pw` for account `id` under this engine; a function of its arguments.
    pub open spec fn digest(&self, pw: Seq<char>, id: u64) -> Option<Seq<u8>> {
        argon2_output(self.argon(), self.secret(), pw, salt_of(id))
    }

    /// Derives the salt of `id`.
    pub fn salt(id: u64) -> (r: String)
        ensures
            r@ == salt_of(id),
    {
        let bytes = encode_le(id);
        base64_encode(bytes.as_slice())
    }

    /// Hashes `pw` for account `id`: the same inputs always give the same bytes.
    pub fn hash(&self, pw: &str, id: u64) -> (r: Option<Vec<u8>>)
        ensures
            bytes_view(r) == self.digest(pw@, id),
            r matches Some(h) ==> h@.len() == self.argon().output_len,
            encode_utf8(self.secret()).len() <= u32::MAX && encode_utf8(pw@).len() <= u32::MAX
                ==> r is Some,
    {
        proof {
            use_type_invariant(self);
        }
        let salt = Self::salt(id);
        assert(is_salt(salt@)) by {
            assert(le_bytes(id).len() == 8 && salt@ == base64_unpadded(le_bytes(id)));
        }
        argon2_hash(self.params, self.pepper.as_str(), pw, salt.as_str())
    }

    /// Whether `pw` hashes, for account `id`, to the stored bytes; `None` where hashing fails.
    pub fn verify_pw(&self, stored: &[u8], pw: &str, id: u64) -> (r: Option<bool>)
        ensures
            r == matches_stored(self.digest(pw@, id), stored@),
            encode_utf8(self.secret()).len() <= u32::MAX && encode_utf8(pw@).len() <= u32::MAX
                ==> r is Some,
    {
        match self.hash(pw, id) {
            Some(h) => Some(bytes_equal(h.as_slice(), stored)),
            None => None,
        }
    }
}

/// The verdict on a stored hash, given the outcome of hashing the presented password.
pub open spec fn matches_stored(computed: Option<Seq<u8>>, stored: Seq<u8>) -> Option<bool> {
    match computed {
        Some(h) => Some(h == stored),
        None => None,
    }
}

/// Compares two byte strings, looking at every byte of the shorter whatever it finds, so
/// that the time taken does not tell where the first difference lies.
pub fn bytes_equal(a: &[u8], b: &[u8]) -> (r: bool)
    ensures
        r == (a@ == b@),
{
    if a.len() != b.len() {
        return false;
    }
    let mut diff: u8 = 0;
    let mut i: usize = 0;
    assert(a@.subrange(0, 0) =~= b@.subrange(0, 0));
    while i < a.len()
        invariant
            a@.len() == b@.len(),
            i <= a@.len(),
            (diff == 0) == (a@.subrange(0, i as int) == b@.subrange(0, i as int)),
        decreases a@.len() - i,
    {
        let ai: u8 = a[i];
        let bi: u8 = b[i];
        let x: u8 = ai ^ bi;
        assert((x == 0) == (ai == bi)) by (bit_vector)
            requires
                x == ai ^ bi,
        ;
        let d: u8 = diff | x;
        assert((d == 0) == (diff == 0 && x == 0)) by (bit_vector)
            requires
                d == diff | x,
        ;
        proof {
            assert(a@.subrange(0, i + 1) =~= a@.subrange(0, i as int).push(a[i as int]));
            assert(b@.subrange(0, i + 1) =~= b@.subrange(0, i as int).push(b[i as int]));
            if a@.subrange(0, i as int) == b@.subrange(0, i as int) && x == 0 {
            } else if a@.subrange(0, i + 1) == b@.subrange(0, i + 1) {
                assert(a@.subrange(0, i + 1).drop_last() =~= a@.subrange(0, i as int));
                assert(b@.subrange(0, i + 1).drop_last() =~= b@.subrange(0, i as int));
                assert(a@.subrange(0, i + 1).last() == a[i as int]);
                assert(b@.subrange(0, i + 1).last() == b[i as int]);
            }
        }
        diff = d;
        i = i + 1;
    }
    assert(a@.subrange(0, a@.len() as int) =~= a@);
    assert(b@.subrange(0, b@.len() as int) =~= b@);
    diff == 0
}

} // verus!
