use vstd::prelude::*;
use vstd::string::*;
use std::str::FromStr;
use std::fmt::Write;
use vstd::arithmetic::power2::*;

verus! {

// ---------------------------------------------------------------------------
// Solana addresses
// ---------------------------------------------------------------------------

/// A character of the base58 alphabet used by Solana: the digits `1`-`9`
/// and the letters without `0`, `O`, `I` and `l`.
pub open spec fn is_base58_char(c: char) -> bool {
    ||| '1' <= c <= '9'
    ||| 'A' <= c <= 'H'
    ||| 'J' <= c <= 'N'
    ||| 'P' <= c <= 'Z'
    ||| 'a' <= c <= 'k'
    ||| 'm' <= c <= 'z'
}

/// The base58 characters are exactly the 58 of Bitcoin's alphabet, which
/// leaves out `0`, `I`, `O` and `l`.
pub proof fn lemma_base58_alphabet(c: char)
    ensures
        is_base58_char(c) <==> "123456789ABCDEFGHJKLMNPQRSTUVWXYZabcdefghijkmnopqrstuvwxyz"@.contains(c),
        "123456789ABCDEFGHJKLMNPQRSTUVWXYZabcdefghijkmnopqrstuvwxyz"@.len() == 58,
{
    reveal_strlit("123456789ABCDEFGHJKLMNPQRSTUVWXYZabcdefghijkmnopqrstuvwxyz");
    let a = "123456789ABCDEFGHJKLMNPQRSTUVWXYZabcdefghijkmnopqrstuvwxyz"@;
    assert(forall|i: int| 0 <= i < a.len() ==> is_base58_char(#[trigger] a[i]));
    if is_base58_char(c) {
        let i: int = if '1' <= c <= '9' {
            (c as int) - ('1' as int)
        } else if 'A' <= c <= 'H' {
            9 + (c as int) - ('A' as int)
        } else if 'J' <= c <= 'N' {
            17 + (c as int) - ('J' as int)
        } else if 'P' <= c <= 'Z' {
            22 + (c as int) - ('P' as int)
        } else if 'a' <= c <= 'k' {
            33 + (c as int) - ('a' as int)
        } else {
            44 + (c as int) - ('m' as int)
        };
        assert(a[i] == c);
    }
}

/// The textual shape of an address: 32 to 44 base58 characters, nothing else.
pub open spec fn has_address_shape(s: Seq<char>) -> bool {
    &&& 32 <= s.len() <= 44
    &&& forall|i: int| 0 <= i < s.len() ==> is_base58_char(#[trigger] s[i])
}

/// An address has the shape of one exactly when it is 32 to 44 characters
/// long and every character is in the base58 alphabet.
pub proof fn lemma_address_shape_alphabet(s: Seq<char>)
    ensures
        has_address_shape(s) <==> (32 <= s.len() <= 44 && forall|i: int|
            0 <= i < s.len()
                ==> "123456789ABCDEFGHJKLMNPQRSTUVWXYZabcdefghijkmnopqrstuvwxyz"@.contains(
                #[trigger] s[i],
            )),
{
    assert forall|i: int| 0 <= i < s.len() implies (is_base58_char(#[trigger] s[i])
        <==> "123456789ABCDEFGHJKLMNPQRSTUVWXYZabcdefghijkmnopqrstuvwxyz"@.contains(s[i])) by {
        lemma_base58_alphabet(s[i]);
    }
}

/// Why a string is not a public key.
#[derive(Debug, Clone, Copy, PartialEq, Eq, Structural)]
pub enum AddressError {
    /// The decoded key does not have 32 bytes.
    WrongSize,
    /// The string is not base58.
    Invalid,
}

/// What `Pubkey::from_str` of the Solana SDK gives for a string: the 32 key
/// bytes, or the kind of error.
pub uninterp spec fn pubkey_from_str(s: Seq<char>) -> Result<Seq<u8>, AddressError>;

/// An address that `is_valid_solana_address` accepts.
pub open spec fn is_valid_address(s: Seq<char>) -> bool {
    has_address_shape(s) && pubkey_from_str(s) is Ok
}

/// Decodes a public key with `Pubkey::from_str` (Solana SDK).
/// Trusted: the result equals `pubkey_from_str` of the string, every decoded
/// key has 32 bytes, and a string of more than 44 characters is refused as
/// `WrongSize` (the SDK refuses more than 44 bytes before decoding).
#[verifier::external_body]
fn decode_pubkey(address: &str) -> (r: Result<Vec<u8>, AddressError>)
    ensures
        key_bytes(r) == pubkey_from_str(address@),
        r is Ok ==> r->Ok_0@.len() == 32,
        address@.len() > 44 ==> r == wrong_size_error(),
{
    match solana_sdk::pubkey::Pubkey::from_str(address) {
        Ok(key) => Ok(key.to_bytes().to_vec()),
        Err(solana_sdk::pubkey::ParsePubkeyError::WrongSize) => Err(AddressError::WrongSize),
        Err(solana_sdk::pubkey::ParsePubkeyError::Invalid) => Err(AddressError::Invalid),
    }
}

/// The decoded key bytes by their view, or the error.
pub open spec fn key_bytes(r: Result<Vec<u8>, AddressError>) -> Result<Seq<u8>, AddressError> {
    match r {
        Ok(bytes) => Ok(bytes@),
        Err(e) => Err(e),
    }
}

/// The result that refuses a string as having the wrong size.
pub open spec fn wrong_size_error() -> Result<Vec<u8>, AddressError> {
    Err(AddressError::WrongSize)
}

impl AddressError {
    /// The text the SDK shows for this error.
    pub open spec fn spec_text(self) -> Seq<char> {
        match self {
            AddressError::WrongSize => "String is the wrong size"@,
            AddressError::Invalid => "Invalid Base58 string"@,
        }
    }

    /// The message of the error, as the SDK words it.
    pub fn message(&self) -> (text: String)
        ensures
            text@ == self.spec_text(),
    {
        match self {
            AddressError::WrongSize => "String is the wrong size".to_owned(),
            AddressError::Invalid => "Invalid Base58 string".to_owned(),
        }
    }
}

/// Whether a character belongs to the base58 alphabet.
pub fn is_base58(c: char) -> (b: bool)
    ensures
        b == is_base58_char(c),
{
    ('1' <= c && c <= '9') || ('A' <= c && c <= 'H') || ('J' <= c && c <= 'N') || ('P' <= c
        && c <= 'Z') || ('a' <= c && c <= 'k') || ('m' <= c && c <= 'z')
}

/// Whether the text has the shape of an address: between 32 and 44
/// characters, all of them base58.
pub fn has_solana_address_shape(address: &str) -> (b: bool)
    ensures
        b == has_address_shape(address@),
{
    let len = address.unicode_len();
    if len < 32 || len > 44 {
        return false;
    }
    let mut i: usize = 0;
    while i < len
        invariant
            len == address@.len(),
            i <= len,
            forall|j: int| 0 <= j < i ==> is_base58_char(#[trigger] address@[j]),
        decreases len - i,
    {
        if !is_base58(address.get_char(i)) {
            return false;
        }
        i = i + 1;
    }
    true
}

/// Decodes an address into its 32 key bytes. A text of more than 44
/// characters is refused as having the wrong size.
pub fn parse_address(address: &str) -> (r: Result<Vec<u8>, AddressError>)
    ensures
        key_bytes(r) == pubkey_from_str(address@),
        r is Ok ==> r->Ok_0@.len() == 32,
        address@.len() > 44 ==> r == wrong_size_error(),
{
    decode_pubkey(address)
}

/// Whether the text is a Solana address: it has the shape of one and
/// decodes to a public key.
pub fn is_valid_solana_address(address: &str) -> (b: bool)
    ensures
        b == is_valid_address(address@),
{
    if !has_solana_address_shape(address) {
        return false;
    }
    parse_address(address).is_ok()
}

/// Every address that `is_valid_solana_address` accepts decodes to a key,
/// so `parse_address` succeeds on it.
pub proof fn lemma_valid_address_decodes(s: Seq<char>)
    requires
        is_valid_address(s),
    ensures
        pubkey_from_str(s) is Ok,
        32 <= s.len() <= 44,
{
}

// ---------------------------------------------------------------------------
// Formatting
// ---------------------------------------------------------------------------

/// The Solscan page of a transaction: `https://solscan.io/tx/` followed by the signature.
pub open spec fn transaction_url(signature: Seq<char>) -> Seq<char> {
    "https://solscan.io/tx/"@ + signature
}

/// Link to a transaction on the Solscan explorer.
pub fn format_transaction_url(signature: &str) -> (url: String)
    ensures
        url@ == transaction_url(signature@),
{
    let url = "https://solscan.io/tx/".to_owned();
    url.concat(signature)
}

/// The text shown for an error whose message is `message`.
pub open spec fn error_text(message: Seq<char>) -> Seq<char> {
    "Error: "@ + message
}

/// `Error: ` followed by the message of an error.
pub fn format_error_message(message: &str) -> (text: String)
    ensures
        text@ == error_text(message@),
{
    let text = "Error: ".to_owned();
    text.concat(message)
}

#[verifier::external_type_specification]
#[verifier::external_body]
pub struct ExAnyhowError(anyhow::Error);

/// The `Display` text of an `anyhow::Error`, written into a `String`.
/// Nothing is stated of the text: an `anyhow::Error` shows the error it
/// wraps, whose `Display` is any code at all (it need not give the same text
/// twice). A `Display` that fails leaves what it wrote so far, instead of
/// panicking as `to_string` would.
#[verifier::external_body]
fn error_display(error: &anyhow::Error) -> (text: String) {
    let mut text = String::new();
    let _ = write!(text, "{}", error);
    text
}

/// `Error: ` followed by the displayed message of the error. Whatever text
/// the error shows, the result is `Error: ` followed by it; the exact
/// wording is `format_error_message`'s.
pub fn format_error(error: &anyhow::Error) -> (text: String)
    ensures
        exists|message: Seq<char>| text@ == error_text(message),
{
    let message = error_display(error);
    format_error_message(message.as_str())
}

// ---------------------------------------------------------------------------
// Retrying with exponential backoff
// ---------------------------------------------------------------------------

/// The state of a retry loop: the calls still allowed and the pause before
/// the next retry, which doubles after each failure.
#[derive(Debug, Clone, Copy, PartialEq, Eq, Structural)]
pub struct Backoff {
    pub attempts_left: u32,
    pub delay: u64,
}

/// What follows a failed call.
#[derive(Debug, Clone, Copy, PartialEq, Eq, Structural)]
pub enum RetryStep {
    /// No attempt is left: the last error is returned.
    GiveUp,
    /// Sleep this many milliseconds, then call again.
    RetryAfter(u64),
}

/// Whether recording one more failure in this state keeps every number in
/// range: an attempt is left to spend, and a pause that is doubled fits.
pub open spec fn can_fail(s: Backoff) -> bool {
    &&& s.attempts_left >= 1
    &&& s.attempts_left > 1 ==> 2 * s.delay <= u64::MAX
}

/// One failure: spend an attempt; give up if none is left, else sleep the
/// current pause and double it.
pub open spec fn fail_step(s: Backoff) -> (RetryStep, Backoff) {
    if s.attempts_left <= 1 {
        (RetryStep::GiveUp, Backoff { attempts_left: (s.attempts_left - 1) as u32, delay: s.delay })
    } else {
        (
            RetryStep::RetryAfter(s.delay),
            Backoff { attempts_left: (s.attempts_left - 1) as u32, delay: (2 * s.delay) as u64 },
        )
    }
}

/// The state after `k` failures.
pub open spec fn after_failures(s: Backoff, k: nat) -> Backoff
    decreases k,
{
    if k == 0 {
        s
    } else {
        fail_step(after_failures(s, (k - 1) as nat)).1
    }
}

impl Backoff {
    /// The state before the first call: `attempts` calls at most, and a first
    /// pause of `base_delay` milliseconds.
    pub fn new(attempts: u32, base_delay: u64) -> (s: Backoff)
        ensures
            s.attempts_left == attempts,
            s.delay == base_delay,
    {
        Backoff { attempts_left: attempts, delay: base_delay }
    }

    /// Records a failed call. When it was the last allowed call the loop
    /// gives up; otherwise it sleeps for the current pause, which then
    /// doubles.
    pub fn on_failure(&mut self) -> (step: RetryStep)
        requires
            can_fail(*old(self)),
        ensures
            (step, *final(self)) == fail_step(*old(self)),
    {
        self.attempts_left = self.attempts_left - 1;
        if self.attempts_left == 0 {
            RetryStep::GiveUp
        } else {
            let pause = self.delay;
            self.delay = self.delay * 2;
            RetryStep::RetryAfter(pause)
        }
    }
}

/// Backoff schedule: starting with `attempts` calls and a pause of
/// `base_delay`, after `k < attempts` failures the loop has `attempts - k`
/// calls left and a pause of `base_delay * 2^k`. The next failure gives up
/// exactly when it is failure number `attempts`; before that it sleeps
/// `base_delay * 2^k`. (Holds while the pause fits in a `u64`.)
pub proof fn lemma_backoff_schedule(attempts: u32, base_delay: u64, k: nat)
    requires
        k < attempts,
        base_delay * pow2(k) <= u64::MAX,
    ensures
        after_failures(Backoff { attempts_left: attempts, delay: base_delay }, k) == (Backoff {
            attempts_left: (attempts - k) as u32,
            delay: (base_delay * pow2(k)) as u64,
        }),
        fail_step(after_failures(Backoff { attempts_left: attempts, delay: base_delay }, k)).0
            == (if k + 1 == attempts {
            RetryStep::GiveUp
        } else {
            RetryStep::RetryAfter((base_delay * pow2(k)) as u64)
        }),
    decreases k,
{
    let s0 = Backoff { attempts_left: attempts, delay: base_delay };
    if k > 0 {
        lemma_pow2_unfold(k);
        assert(base_delay * pow2(k) == 2 * (base_delay * pow2((k - 1) as nat))) by (nonlinear_arith)
            requires
                pow2(k) == 2 * pow2((k - 1) as nat),
        ;
        lemma_pow2_pos((k - 1) as nat);
        assert(base_delay * pow2((k - 1) as nat) <= base_delay * pow2(k)) by (nonlinear_arith)
            requires
                pow2(k) == 2 * pow2((k - 1) as nat),
        ;
        lemma_backoff_schedule(attempts, base_delay, (k - 1) as nat);
    } else {
        lemma2_to64();
    }
}

} // verus!
