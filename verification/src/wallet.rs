use vstd::prelude::*;
use solana_sdk::signature::Keypair;
use solana_sdk::signer::Signer;
use crate::helpers::{AddressError, has_address_shape, is_valid_address, pubkey_from_str};

verus! {

#[verifier::external_type_specification]
#[verifier::external_body]
pub struct ExKeypair(solana_sdk::signature::Keypair);

/// The step at which loading a wallet failed.
#[derive(Debug, Clone, Copy, PartialEq, Eq, Structural)]
pub enum WalletErrorKind {
    /// The wallet file is not a JSON array of bytes.
    InvalidJson,
    /// The private key is not base64.
    InvalidBase64,
    /// The secret key is not base58.
    InvalidBase58,
    /// The bytes are not an ed25519 keypair.
    InvalidKeypair,
}

impl WalletErrorKind {
    /// The message of the failed step.
    pub open spec fn spec_text(self) -> Seq<char> {
        match self {
            WalletErrorKind::InvalidJson => "Failed to parse wallet JSON"@,
            WalletErrorKind::InvalidBase64 => "Failed to decode base64 private key"@,
            WalletErrorKind::InvalidBase58 => "Failed to decode base58 string"@,
            WalletErrorKind::InvalidKeypair => "Failed to create keypair from bytes"@,
        }
    }
}

/// Why a wallet could not be loaded: the failed step, and the message of
/// the decoder or of the SDK that refused the input.
#[derive(Debug, Clone, PartialEq, Eq)]
pub struct WalletError {
    pub kind: WalletErrorKind,
    pub cause: String,
}

impl WalletError {
    /// The step and the cause's text.
    pub open spec fn spec_view(self) -> (WalletErrorKind, Seq<char>) {
        (self.kind, self.cause@)
    }

    /// The message of the failed step (the cause is `cause`).
    pub fn message(&self) -> (text: String)
        ensures
            text@ == self.kind.spec_text(),
    {
        match self.kind {
            WalletErrorKind::InvalidJson => "Failed to parse wallet JSON".to_owned(),
            WalletErrorKind::InvalidBase64 => "Failed to decode base64 private key".to_owned(),
            WalletErrorKind::InvalidBase58 => "Failed to decode base58 string".to_owned(),
            WalletErrorKind::InvalidKeypair => "Failed to create keypair from bytes".to_owned(),
        }
    }
}

/// Of 64 bytes, whether the SDK finds the second half to be the public key
/// of the secret key in the first half (and a valid curve point).
pub uninterp spec fn keypair_halves_match(bytes: Seq<u8>) -> bool;

/// Whether `Keypair::from_bytes` (Solana SDK) accepts the bytes: exactly 64
/// of them, whose halves match.
pub open spec fn keypair_accepts(bytes: Seq<u8>) -> bool {
    bytes.len() == 64 && keypair_halves_match(bytes)
}

/// The text of the error `Keypair::from_bytes` gives for bytes it refuses.
pub uninterp spec fn keypair_refusal(bytes: Seq<u8>) -> Seq<char>;

/// The 64 bytes `Keypair::to_bytes` (Solana SDK) gives for a keypair.
pub uninterp spec fn keypair_bytes(keypair: Keypair) -> Seq<u8>;

/// What `base64::decode` gives for a text: the bytes, or the text of its
/// error when it is not base64.
pub uninterp spec fn base64_decoded(text: Seq<char>) -> Result<Seq<u8>, Seq<char>>;

/// What `bs58::decode(..).into_vec()` gives for a text: the bytes, or the
/// text of its error when it is not base58.
pub uninterp spec fn base58_decoded(text: Seq<char>) -> Result<Seq<u8>, Seq<char>>;

/// The text `bs58::encode(..).into_string()` gives for bytes.
pub uninterp spec fn base58_encoded(bytes: Seq<u8>) -> Seq<char>;

/// What `serde_json::from_slice::<Vec<u8>>` gives for a file's contents:
/// the array of bytes it holds, or the text of its error.
pub uninterp spec fn json_byte_array(contents: Seq<u8>) -> Result<Seq<u8>, Seq<char>>;

/// The text of a public key as `Pubkey`'s `Display` writes it.
pub uninterp spec fn pubkey_text(key: Seq<u8>) -> Seq<char>;

/// Whether `Pubkey::from_str` reads the text as this key.
pub open spec fn decodes_to_key(text: Seq<char>, key: Seq<u8>) -> bool {
    pubkey_from_str(text) == Result::<Seq<u8>, AddressError>::Ok(key)
}

/// A successful decoding to these bytes.
pub open spec fn decoded_to(bytes: Seq<u8>) -> Result<Seq<u8>, Seq<char>> {
    Ok(bytes)
}

/// A decoding result by its views: the bytes, or the error's text.
pub open spec fn decoding_view(r: Result<Vec<u8>, String>) -> Result<Seq<u8>, Seq<char>> {
    match r {
        Ok(b) => Ok(b@),
        Err(e) => Err(e@),
    }
}

/// The secret half of a keypair that `keypair_from_bytes` gave.
pub open spec fn secret_part(r: Result<(Keypair, Vec<u8>, Vec<u8>), String>) -> Seq<u8> {
    match r {
        Ok(parts) => parts.1@,
        Err(_) => Seq::empty(),
    }
}

/// The keypair that `keypair_from_bytes` gave.
pub open spec fn keypair_part(r: Result<(Keypair, Vec<u8>, Vec<u8>), String>) -> Keypair {
    let parts = r->Ok_0;
    parts.0
}

/// The public half of a keypair that `keypair_from_bytes` gave.
pub open spec fn public_part(r: Result<(Keypair, Vec<u8>, Vec<u8>), String>) -> Seq<u8> {
    match r {
        Ok(parts) => parts.2@,
        Err(_) => Seq::empty(),
    }
}

/// The error text `keypair_from_bytes` gave.
pub open spec fn refusal_part(r: Result<(Keypair, Vec<u8>, Vec<u8>), String>) -> Seq<char> {
    match r {
        Ok(_) => Seq::empty(),
        Err(e) => e@,
    }
}

/// Builds a keypair with `Keypair::from_bytes` (Solana SDK) and reads back
/// its secret key bytes and its public key bytes.
/// Trusted: it succeeds exactly when `keypair_accepts` holds of the bytes,
/// which asks for 64 of them (the SDK refuses a shorter input, and the
/// public half of a longer one is not 32 bytes); on success the secret key
/// is the first 32 bytes, the public key the last 32, and the keypair's
/// `to_bytes` gives the input back (the SDK keeps both halves as given and
/// only checks that they match); on failure the text is the SDK error's
/// `Display`, `keypair_refusal` of the bytes (the SDK builds the error from
/// the bytes alone).
#[verifier::external_body]
#[allow(deprecated)]
fn keypair_from_bytes(bytes: &[u8]) -> (r: Result<(Keypair, Vec<u8>, Vec<u8>), String>)
    ensures
        (r is Ok) == (bytes@.len() == 64 && keypair_halves_match(bytes@)),
        r is Ok ==> secret_part(r) == bytes@.subrange(0, 32),
        r is Ok ==> public_part(r) == bytes@.subrange(32, 64),
        r is Ok ==> keypair_bytes(keypair_part(r)) == bytes@,
        r is Err ==> refusal_part(r) == keypair_refusal(bytes@),
{
    match Keypair::from_bytes(bytes) {
        Ok(keypair) => {
            let secret = keypair.secret().to_bytes().to_vec();
            let public = keypair.pubkey().to_bytes().to_vec();
            Ok((keypair, secret, public))
        },
        Err(e) => Err(e.to_string()),
    }
}

/// The bytes of a keypair, with `Keypair::to_bytes` (Solana SDK).
/// Trusted: the result is `keypair_bytes` of the keypair.
#[verifier::external_body]
fn keypair_to_bytes(keypair: &Keypair) -> (bytes: Vec<u8>)
    ensures
        bytes@ == keypair_bytes(*keypair),
{
    keypair.to_bytes().to_vec()
}

/// Decodes base64 text with `base64::decode`.
/// Trusted: the result (the bytes, or the error's `Display`) is
/// `base64_decoded` of the text.
#[verifier::external_body]
#[allow(deprecated)]
fn decode_base64(text: &str) -> (r: Result<Vec<u8>, String>)
    ensures
        decoding_view(r) == base64_decoded(text@),
{
    base64::decode(text).map_err(|e| e.to_string())
}

/// Decodes base58 text with `bs58::decode(..).into_vec()`.
/// Trusted: the result (the bytes, or the error's `Display`) is
/// `base58_decoded` of the text.
#[verifier::external_body]
fn decode_base58(text: &str) -> (r: Result<Vec<u8>, String>)
    ensures
        decoding_view(r) == base58_decoded(text@),
{
    bs58::decode(text).into_vec().map_err(|e| e.to_string())
}

/// Encodes bytes with `bs58::encode(..).into_string()`.
/// Trusted: the result is `base58_encoded` of the bytes, and decoding it
/// with `bs58::decode` gives the bytes back (both use the Bitcoin alphabet;
/// a zero byte is written as a leading `1` and read back as one).
#[verifier::external_body]
fn encode_base58(bytes: &[u8]) -> (text: String)
    ensures
        text@ == base58_encoded(bytes@),
        base58_decoded(text@) == decoded_to(bytes@),
{
    bs58::encode(bytes).into_string()
}

/// Reads a JSON array of bytes with `serde_json::from_slice::<Vec<u8>>`.
/// Trusted: the result (the bytes, or the error's `Display`) is
/// `json_byte_array` of the contents.
#[verifier::external_body]
fn parse_json_bytes(contents: &[u8]) -> (r: Result<Vec<u8>, String>)
    ensures
        decoding_view(r) == json_byte_array(contents@),
{
    serde_json::from_slice::<Vec<u8>>(contents).map_err(|e| e.to_string())
}

/// Writes a 32-byte public key with `Pubkey`'s `Display` (Solana SDK).
/// Trusted: the result is `pubkey_text` of the key; `Pubkey::from_str`
/// reads it back as the same key (the SDK writes with `five8::encode_32`
/// and reads with its inverse `five8::decode_32`); and it has the shape of
/// an address: base58 characters only, at most 44 of them (the size of the
/// SDK's output buffer) and at least 32 (each leading zero byte gives a `1`,
/// and the other `n` bytes, the first non-zero, need at least `n` digits
/// since `58^(n-1) < 256^(n-1)`).
#[verifier::external_body]
fn display_pubkey(key: &[u8]) -> (text: String)
    requires
        key@.len() == 32,
    ensures
        text@ == pubkey_text(key@),
        decodes_to_key(text@, key@),
        has_address_shape(text@),
{
    let mut array = [0u8; 32];
    array.copy_from_slice(key);
    solana_sdk::pubkey::Pubkey::new_from_array(array).to_string()
}

/// Loading a keypair from a decoding result: the failed step `kind` with
/// the decoder's message when decoding failed, `InvalidKeypair` with the
/// SDK's message when the SDK refuses the bytes, and the 64 keypair bytes
/// otherwise.
pub open spec fn load_keypair(decoded: Result<Seq<u8>, Seq<char>>, kind: WalletErrorKind) -> Result<
    Seq<u8>,
    (WalletErrorKind, Seq<char>),
> {
    match decoded {
        Err(cause) => Err((kind, cause)),
        Ok(bytes) => if keypair_accepts(bytes) {
            Ok(bytes)
        } else {
            Err((WalletErrorKind::InvalidKeypair, keypair_refusal(bytes)))
        },
    }
}

/// Whether loading failed at the keypair step.
pub open spec fn refused_as_keypair(r: Result<Seq<u8>, (WalletErrorKind, Seq<char>)>) -> bool {
    r matches Err(e) && e.0 == WalletErrorKind::InvalidKeypair
}

/// The keypair bytes of a loaded wallet, or the error by its view.
pub open spec fn wallet_view(r: Result<WalletManager, WalletError>) -> Result<
    Seq<u8>,
    (WalletErrorKind, Seq<char>),
> {
    match r {
        Ok(w) => Ok(w@),
        Err(e) => Err(e.spec_view()),
    }
}

/// Loading back a keypair from its base58 text: for a keypair whose bytes
/// the SDK accepts, a text that decodes from base58 to those bytes loads a
/// wallet holding exactly them.
pub proof fn lemma_base58_keypair_loads(keypair: Keypair, text: Seq<char>)
    requires
        keypair_accepts(keypair_bytes(keypair)),
        base58_decoded(text) == decoded_to(keypair_bytes(keypair)),
    ensures
        load_keypair(base58_decoded(text), WalletErrorKind::InvalidBase58) == Result::<
            Seq<u8>,
            (WalletErrorKind, Seq<char>),
        >::Ok(keypair_bytes(keypair)),
{
}

/// Loading back a keypair from its base64 text: for a keypair whose bytes
/// the SDK accepts, a text that decodes from base64 to those bytes loads a
/// wallet holding exactly them.
pub proof fn lemma_base64_keypair_loads(keypair: Keypair, text: Seq<char>)
    requires
        keypair_accepts(keypair_bytes(keypair)),
        base64_decoded(text) == decoded_to(keypair_bytes(keypair)),
    ensures
        load_keypair(base64_decoded(text), WalletErrorKind::InvalidBase64) == Result::<
            Seq<u8>,
            (WalletErrorKind, Seq<char>),
        >::Ok(keypair_bytes(keypair)),
{
}

/// Loading back a keypair from its wallet file: for a keypair whose bytes
/// the SDK accepts, a file whose JSON array holds those bytes loads a wallet
/// holding exactly them.
pub proof fn lemma_json_keypair_loads(keypair: Keypair, contents: Seq<u8>)
    requires
        keypair_accepts(keypair_bytes(keypair)),
        json_byte_array(contents) == decoded_to(keypair_bytes(keypair)),
    ensures
        load_keypair(json_byte_array(contents), WalletErrorKind::InvalidJson) == Result::<
            Seq<u8>,
            (WalletErrorKind, Seq<char>),
        >::Ok(keypair_bytes(keypair)),
{
}

/// Whatever the format, loading succeeds exactly when the text decodes and
/// the SDK accepts the decoded bytes, and then holds exactly those bytes; a
/// failed decoding is reported at the format's own step with the decoder's
/// message, and only bytes the SDK refuses are reported as a bad keypair.
pub proof fn lemma_load_keypair_outcomes(decoded: Result<Seq<u8>, Seq<char>>, kind: WalletErrorKind)
    requires
        kind != WalletErrorKind::InvalidKeypair,
    ensures
        load_keypair(decoded, kind) is Ok <==> (decoded is Ok && keypair_accepts(decoded->Ok_0)),
        load_keypair(decoded, kind) is Ok ==> load_keypair(decoded, kind)->Ok_0 == decoded->Ok_0,
        decoded is Err ==> load_keypair(decoded, kind) == Result::<
            Seq<u8>,
            (WalletErrorKind, Seq<char>),
        >::Err((kind, decoded->Err_0)),
        load_keypair(decoded, kind) is Err ==> (load_keypair(decoded, kind)->Err_0.0 == kind
            <==> decoded is Err),
{
}

/// A wallet: a keypair the SDK accepted, with its secret and public key
/// bytes.
pub struct WalletManager {
    keypair: Keypair,
    secret: Vec<u8>,
    public: Vec<u8>,
}

impl View for WalletManager {
    /// The 64 keypair bytes: the secret key, then the public key.
    type V = Seq<u8>;

    closed spec fn view(&self) -> Seq<u8> {
        self.secret@ + self.public@
    }
}

impl WalletManager {
    #[verifier::type_invariant]
    closed spec fn inv(self) -> bool {
        &&& self.secret@.len() == 32
        &&& self.public@.len() == 32
        &&& keypair_accepts(self.secret@ + self.public@)
        &&& keypair_bytes(self.keypair) == self.secret@ + self.public@
    }

    /// The keypair the wallet holds.
    pub closed spec fn spec_keypair(&self) -> Keypair {
        self.keypair
    }

    /// The secret key bytes.
    pub open spec fn secret_bytes(&self) -> Seq<u8> {
        self@.subrange(0, 32)
    }

    /// The public key bytes.
    pub open spec fn public_bytes(&self) -> Seq<u8> {
        self@.subrange(32, 64)
    }

    /// A wallet from a decoding result: fails at step `kind` with the
    /// decoder's message when the decoding failed, and with
    /// `InvalidKeypair` and the SDK's message when the SDK refuses the bytes.
    pub fn from_key_bytes(decoded: Result<Vec<u8>, String>, kind: WalletErrorKind) -> (r: Result<
        WalletManager,
        WalletError,
    >)
        ensures
            wallet_view(r) == load_keypair(decoding_view(decoded), kind),
    {
        match decoded {
            Err(cause) => Err(WalletError { kind, cause }),
            Ok(bytes) => match keypair_from_bytes(bytes.as_slice()) {
                Err(cause) => Err(WalletError { kind: WalletErrorKind::InvalidKeypair, cause }),
                Ok(parts) => {
                    let (keypair, secret, public) = parts;
                    assert(secret@ + public@ =~= bytes@);
                    Ok(WalletManager { keypair, secret, public })
                },
            },
        }
    }

    /// A wallet from the contents of a wallet file: a JSON array of the 64
    /// keypair bytes.
    pub fn new_from_json(contents: &[u8]) -> (r: Result<WalletManager, WalletError>)
        ensures
            wallet_view(r) == load_keypair(
                json_byte_array(contents@),
                WalletErrorKind::InvalidJson,
            ),
    {
        let decoded = parse_json_bytes(contents);
        Self::from_key_bytes(decoded, WalletErrorKind::InvalidJson)
    }

    /// A wallet from the keypair bytes in base64.
    pub fn new_from_base64(private_key: &str) -> (r: Result<WalletManager, WalletError>)
        ensures
            wallet_view(r) == load_keypair(
                base64_decoded(private_key@),
                WalletErrorKind::InvalidBase64,
            ),
    {
        let decoded = decode_base64(private_key);
        Self::from_key_bytes(decoded, WalletErrorKind::InvalidBase64)
    }

    /// A wallet from the keypair bytes in base58.
    pub fn new_from_base58(secret_key: &str) -> (r: Result<WalletManager, WalletError>)
        ensures
            wallet_view(r) == load_keypair(
                base58_decoded(secret_key@),
                WalletErrorKind::InvalidBase58,
            ),
    {
        let decoded = decode_base58(secret_key);
        Self::from_key_bytes(decoded, WalletErrorKind::InvalidBase58)
    }

    /// The keypair, for signing: its bytes are the wallet's.
    pub fn keypair(&self) -> (k: &Keypair)
        ensures
            *k == self.spec_keypair(),
            keypair_bytes(*k) == self@,
    {
        proof {
            use_type_invariant(self);
        }
        &self.keypair
    }

    /// The 32 bytes of the public key.
    pub fn public_key(&self) -> (key: Vec<u8>)
        ensures
            key@ == self.public_bytes(),
    {
        proof {
            use_type_invariant(self);
            assert(self.public@ =~= self@.subrange(32, 64));
        }
        self.public.clone()
    }

    /// The public key as the SDK writes it (base58). The text is a valid
    /// address that decodes back to the public key.
    pub fn public_key_base58(&self) -> (text: String)
        ensures
            text@ == pubkey_text(self.public_bytes()),
            decodes_to_key(text@, self.public_bytes()),
            is_valid_address(text@),
    {
        proof {
            use_type_invariant(self);
            assert(self.public@ =~= self@.subrange(32, 64));
        }
        display_pubkey(self.public.as_slice())
    }

    /// The 32 bytes of the secret key in base58. The text decodes to the
    /// secret key alone, so a wallet cannot be loaded back from it.
    pub fn secret_key_base58(&self) -> (text: String)
        ensures
            text@ == base58_encoded(self.secret_bytes()),
            base58_decoded(text@) == decoded_to(self.secret_bytes()),
            refused_as_keypair(load_keypair(base58_decoded(text@), WalletErrorKind::InvalidBase58)),
    {
        proof {
            use_type_invariant(self);
            assert(self.secret@ =~= self@.subrange(0, 32));
        }
        encode_base58(self.secret.as_slice())
    }

    /// The 64 keypair bytes: the secret key, then the public key.
    pub fn to_bytes(&self) -> (bytes: Vec<u8>)
        ensures
            bytes@ == self@,
            bytes@.len() == 64,
            keypair_accepts(bytes@),
    {
        proof {
            use_type_invariant(self);
        }
        keypair_to_bytes(&self.keypair)
    }
}

impl Clone for WalletManager {
    /// A second wallet with the same keypair, built again from its bytes.
    fn clone(&self) -> (copy: Self)
        ensures
            copy@ == self@,
            keypair_bytes(copy.spec_keypair()) == keypair_bytes(self.spec_keypair()),
    {
        proof {
            use_type_invariant(self);
        }
        let bytes = self.to_bytes();
        match keypair_from_bytes(bytes.as_slice()) {
            Ok(parts) => {
                let (keypair, secret, public) = parts;
                assert(secret@ + public@ =~= bytes@);
                WalletManager { keypair, secret, public }
            },
            Err(_) => vstd::pervasive::unreached(),
        }
    }
}

} // verus!
