use vstd::prelude::*;
use vstd::string::*;

verus! {

/// Length of a node identifier in bytes.
pub const NODE_ID_LENGTH: usize = 20;

/// The signing schemes that a consensus key may use.
#[derive(Debug, Clone, Copy, PartialEq, Eq, Structural)]
pub enum Scheme {
    Ed25519,
    Secp256k1,
}

/// Length of a public key's canonical encoding under each scheme.
pub open spec fn public_key_len(scheme: Scheme) -> nat {
    match scheme {
        Scheme::Ed25519 => 32,
        Scheme::Secp256k1 => 33,
    }
}

/// Length of a secret key's canonical encoding under each scheme.
pub open spec fn secret_key_len(scheme: Scheme) -> nat {
    32
}

/// A public key: its scheme and its canonical byte encoding.
#[derive(Debug, Clone)]
pub struct PublicKey {
    pub scheme: Scheme,
    pub bytes: Vec<u8>,
}

impl PublicKey {
    pub open spec fn wf(&self) -> bool {
        self.bytes@.len() == public_key_len(self.scheme)
    }

    /// A public key from its encoding, if the length fits the scheme.
    pub fn from_bytes(scheme: Scheme, bytes: Vec<u8>) -> (r: Option<PublicKey>)
        ensures
            bytes@.len() == public_key_len(scheme) <==> r is Some,
            r matches Some(k) ==> k.scheme == scheme && k.bytes@ == bytes@ && k.wf(),
    {
        let expected: usize = match scheme {
            Scheme::Ed25519 => 32,
            Scheme::Secp256k1 => 33,
        };
        if bytes.len() == expected {
            Some(PublicKey { scheme, bytes })
        } else {
            None
        }
    }
}

/// A consensus key as the host's keystore hands it over: the scheme, the
/// secret key's encoding and the encoding of the public key that belongs to
/// it.
#[derive(Debug, Clone)]
pub struct SecretKey {
    pub scheme: Scheme,
    pub secret: Vec<u8>,
    pub public: Vec<u8>,
}

impl SecretKey {
    pub open spec fn wf(&self) -> bool {
        self.secret@.len() == secret_key_len(self.scheme)
            && self.public@.len() == public_key_len(self.scheme)
    }

    /// A consensus key from its parts, if their lengths fit the scheme.
    pub fn from_parts(scheme: Scheme, secret: Vec<u8>, public: Vec<u8>) -> (r: Option<SecretKey>)
        ensures
            (secret@.len() == secret_key_len(scheme) && public@.len() == public_key_len(scheme))
                <==> r is Some,
            r matches Some(k) ==> k.scheme == scheme && k.secret@ == secret@ && k.public@ == public@
                && k.wf(),
    {
        let public_len: usize = match scheme {
            Scheme::Ed25519 => 32,
            Scheme::Secp256k1 => 33,
        };
        if secret.len() == 32 && public.len() == public_len {
            Some(SecretKey { scheme, secret, public })
        } else {
            None
        }
    }

    pub open spec fn ref_to_spec(&self) -> PublicKey {
        PublicKey { scheme: self.scheme, bytes: self.public }
    }

    /// The public half of the key.
    pub fn ref_to(&self) -> (r: PublicKey)
        ensures
            r.scheme == self.scheme,
            r.bytes@ == self.public@,
            node_id_of(r) == node_id_of(self.ref_to_spec()),
    {
        PublicKey { scheme: self.scheme, bytes: self.public.clone() }
    }
}

/// The SHA-256 digest of a byte string.
pub uninterp spec fn sha256_of(b: Seq<u8>) -> Seq<u8>;

/// Relies on sha2's `Sha256::digest`: the 32-byte SHA-256 digest of the input.
#[verifier::external_body]
fn sha256(b: &[u8]) -> (r: Vec<u8>)
    ensures
        r@ == sha256_of(b@),
        r@.len() == 32,
{
    <sha2::Sha256 as sha2::Digest>::digest(b).to_vec()
}

/// Standard base64, with padding, of a byte string.
pub uninterp spec fn base64_of(b: Seq<u8>) -> Seq<char>;

/// Relies on base64's `encode` (standard alphabet, padded): four characters
/// for each started group of three bytes.
#[verifier::external_body]
fn base64_encode(b: &[u8]) -> (r: String)
    requires
        b@.len() <= 1024,
    ensures
        r@ == base64_of(b@),
        r@.len() == 4 * ((b@.len() + 2) / 3),
{
    base64::encode(b)
}

/// The node identifier of a public key: the first twenty bytes of the
/// SHA-256 digest of its encoding.
pub open spec fn node_id_of(pk: PublicKey) -> Seq<u8> {
    sha256_of(pk.bytes@).subrange(0, NODE_ID_LENGTH as int)
}

/// Derives the engine's node identifier from a public key.
pub fn id_from_pk(pk: &PublicKey) -> (r: Vec<u8>)
    ensures
        r@ == node_id_of(*pk),
        r@.len() == NODE_ID_LENGTH,
{
    let digest = sha256(pk.bytes.as_slice());
    let mut id: Vec<u8> = Vec::new();
    let mut i: usize = 0;
    while i < NODE_ID_LENGTH
        invariant
            i <= NODE_ID_LENGTH,
            digest@.len() == 32,
            id@ == digest@.subrange(0, i as int),
        decreases NODE_ID_LENGTH - i,
    {
        id.push(digest[i]);
        assert(id@ =~= digest@.subrange(0, i + 1));
        i = i + 1;
    }
    id
}

/// Identifiers derived from keys of the same scheme and bytes are equal:
/// derivation is a function of the key alone.
pub proof fn lemma_node_id_deterministic(a: PublicKey, b: PublicKey)
    requires
        a.scheme == b.scheme,
        a.bytes@ == b.bytes@,
    ensures
        node_id_of(a) == node_id_of(b),
{
}

/// The upper-case hexadecimal digit of a value below sixteen.
pub open spec fn hex_digit(n: u8) -> char {
    "0123456789ABCDEF"@[n as int]
}

/// Upper-case hexadecimal, two digits per byte, high nibble first.
pub open spec fn upper_hex(b: Seq<u8>) -> Seq<char>
    decreases b.len(),
{
    if b.len() == 0 {
        Seq::empty()
    } else {
        upper_hex(b.drop_last()) + seq![hex_digit(b.last() / 16), hex_digit(b.last() % 16)]
    }
}

fn hex_digit_str(n: u8) -> (r: &'static str)
    requires
        n < 16,
    ensures
        r@ == seq![hex_digit(n)],
{
    let digits: &'static str = "0123456789ABCDEF";
    proof {
        reveal_strlit("0123456789ABCDEF");
    }
    let r = digits.substring_char(n as usize, n as usize + 1);
    assert(r@ =~= seq![hex_digit(n)]);
    r
}

/// Renders bytes as upper-case hexadecimal.
pub fn to_upper_hex(b: &[u8]) -> (r: String)
    ensures
        r@ == upper_hex(b@),
{
    let mut out = String::new();
    let mut i: usize = 0;
    while i < b.len()
        invariant
            i <= b@.len(),
            out@ == upper_hex(b@.subrange(0, i as int)),
        decreases b@.len() - i,
    {
        let ghost prefix = b@.subrange(0, i as int);
        assert(b@.subrange(0, i + 1).drop_last() =~= prefix);
        out.append(hex_digit_str(b[i] / 16));
        out.append(hex_digit_str(b[i] % 16));
        i = i + 1;
    }
    assert(b@.subrange(0, i as int) =~= b@);
    out
}

/// The engine's textual address of a public key: its node identifier in
/// upper-case hexadecimal.
pub open spec fn address_of(pk: PublicKey) -> Seq<char> {
    upper_hex(node_id_of(pk))
}

/// A type tag and a base64 value, as the engine writes keys.
#[derive(Debug, Clone)]
pub struct TypedValue {
    pub key_type: String,
    pub value: String,
}

/// The engine's validator key document.
#[derive(Debug, Clone)]
pub struct ValidatorKeyJson {
    pub address: String,
    pub pub_key: TypedValue,
    pub priv_key: TypedValue,
}

/// The scheme's name in the engine's type tags.
pub open spec fn scheme_name(scheme: Scheme) -> Seq<char> {
    match scheme {
        Scheme::Ed25519 => "Ed25519"@,
        Scheme::Secp256k1 => "Secp256k1"@,
    }
}

pub open spec fn pub_key_type(scheme: Scheme) -> Seq<char> {
    "tendermint/PubKey"@ + scheme_name(scheme)
}

pub open spec fn priv_key_type(scheme: Scheme) -> Seq<char> {
    "tendermint/PrivKey"@ + scheme_name(scheme)
}

/// The key material that the engine expects under `priv_key`: for Ed25519
/// the secret key followed by the public key, for Secp256k1 the secret key
/// alone.
pub open spec fn private_material(sk: SecretKey) -> Seq<u8> {
    match sk.scheme {
        Scheme::Ed25519 => sk.secret@ + sk.public@,
        Scheme::Secp256k1 => sk.secret@,
    }
}

fn scheme_name_str(scheme: Scheme) -> (r: &'static str)
    ensures
        r@ == scheme_name(scheme),
{
    match scheme {
        Scheme::Ed25519 => "Ed25519",
        Scheme::Secp256k1 => "Secp256k1",
    }
}

fn private_material_bytes(sk: &SecretKey) -> (r: Vec<u8>)
    ensures
        r@ == private_material(*sk),
{
    let mut out = sk.secret.clone();
    match sk.scheme {
        Scheme::Ed25519 => {
            let mut public = sk.public.clone();
            out.append(&mut public);
        },
        Scheme::Secp256k1 => {},
    }
    out
}

/// Converts a consensus key into the engine's validator key document.
pub fn validator_key_to_json(sk: &SecretKey) -> (r: ValidatorKeyJson)
    requires
        sk.wf(),
    ensures
        r.address@ == address_of(sk.ref_to_spec()),
        r.pub_key.key_type@ == pub_key_type(sk.scheme),
        r.pub_key.value@ == base64_of(sk.public@),
        r.priv_key.key_type@ == priv_key_type(sk.scheme),
        r.priv_key.value@ == base64_of(private_material(*sk)),
{
    let pk = sk.ref_to();
    let id = id_from_pk(&pk);
    let address = to_upper_hex(id.as_slice());
    let mut pub_type = String::from_str("tendermint/PubKey");
    pub_type.append(scheme_name_str(sk.scheme));
    let mut priv_type = String::from_str("tendermint/PrivKey");
    priv_type.append(scheme_name_str(sk.scheme));
    let material = private_material_bytes(sk);
    let pub_value = base64_encode(sk.public.as_slice());
    let priv_value = base64_encode(material.as_slice());
    ValidatorKeyJson {
        address,
        pub_key: TypedValue { key_type: pub_type, value: pub_value },
        priv_key: TypedValue { key_type: priv_type, value: priv_value },
    }
}

/// The type tags of a key document name the key's scheme, and what is
/// encoded under `priv_key` is, for Ed25519, the secret key followed by the
/// public key (as many bytes as the two together), and for Secp256k1 the
/// secret key alone.
pub proof fn lemma_key_document_shape(sk: SecretKey)
    requires
        sk.wf(),
    ensures
        pub_key_type(sk.scheme) == "tendermint/PubKey"@ + scheme_name(sk.scheme),
        priv_key_type(sk.scheme) == "tendermint/PrivKey"@ + scheme_name(sk.scheme),
        sk.scheme == Scheme::Ed25519 ==> {
            &&& private_material(sk).len() == sk.secret@.len() + sk.public@.len()
            &&& private_material(sk).len() == 64
            &&& private_material(sk).subrange(0, 32) == sk.secret@
            &&& private_material(sk).subrange(32, 64) == sk.public@
        },
        sk.scheme == Scheme::Secp256k1 ==> private_material(sk) == sk.secret@
            && private_material(sk).len() == 32,
{
    if sk.scheme == Scheme::Ed25519 {
        assert(private_material(sk).subrange(0, 32) =~= sk.secret@);
        assert(private_material(sk).subrange(32, 64) =~= sk.public@);
    }
}

} // verus!
