use vstd::prelude::*;
use vstd::string::*;

verus! {

/// The program id used for Raydium swaps.
pub const RAYDIUM_PROGRAM_ID: &'static str = "5quBzjrh1rKB7oRhxbEr7Tx6t8AH7z3maXJJu44HacKL";

/// The program id used for Jupiter swaps.
pub const JUPITER_PROGRAM_ID: &'static str = "675kPX9MHTjS2zt1qfr1NYHuzeLXfQM9H24wFSUt1Mp8";

/// The pools a trade can go through.
#[derive(Debug, Clone, Copy, PartialEq, Eq, Structural)]
pub enum PoolType {
    Raydium,
    Jupiter,
}

/// Why a trade could not be prepared.
#[derive(Debug, Clone, Copy, PartialEq, Eq, Structural)]
pub enum TradeError {
    /// The mint is not a public key.
    InvalidMint,
    /// The pool type is neither `raydium` nor `jupiter`.
    UnsupportedPool,
}

impl TradeError {
    /// The message of the error.
    pub open spec fn spec_text(self) -> Seq<char> {
        match self {
            TradeError::InvalidMint => "Invalid mint address"@,
            TradeError::UnsupportedPool => "Unsupported pool type"@,
        }
    }

    /// The message of the error.
    pub fn message(&self) -> (text: String)
        ensures
            text@ == self.spec_text(),
    {
        match self {
            TradeError::InvalidMint => "Invalid mint address".to_owned(),
            TradeError::UnsupportedPool => "Unsupported pool type".to_owned(),
        }
    }
}

/// The pool a trade names, if the name is one the bot supports.
pub open spec fn pool_named(name: Seq<char>) -> Option<PoolType> {
    if name == "raydium"@ {
        Some(PoolType::Raydium)
    } else if name == "jupiter"@ {
        Some(PoolType::Jupiter)
    } else {
        None
    }
}

/// Whether two strings hold the same characters.
pub fn same_text(a: &str, b: &str) -> (eq: bool)
    ensures
        eq == (a@ == b@),
{
    let n = a.unicode_len();
    if n != b.unicode_len() {
        return false;
    }
    let mut i: usize = 0;
    while i < n
        invariant
            n == a@.len(),
            n == b@.len(),
            i <= n,
            forall|j: int| 0 <= j < i ==> a@[j] == b@[j],
        decreases n - i,
    {
        if a.get_char(i) != b.get_char(i) {
            return false;
        }
        i = i + 1;
    }
    assert(a@ =~= b@);
    true
}

impl PoolType {
    /// The pool for a `pool_type` name: `raydium` or `jupiter`; any other
    /// name is not supported.
    pub fn from_name(name: &str) -> (pool: Option<PoolType>)
        ensures
            pool == pool_named(name@),
    {
        if same_text(name, "raydium") {
            Some(PoolType::Raydium)
        } else if same_text(name, "jupiter") {
            Some(PoolType::Jupiter)
        } else {
            None
        }
    }

    /// The pool's program id.
    pub fn program_id(&self) -> (id: &'static str)
        ensures
            *self == PoolType::Raydium ==> id@ == RAYDIUM_PROGRAM_ID@,
            *self == PoolType::Jupiter ==> id@ == JUPITER_PROGRAM_ID@,
    {
        match self {
            PoolType::Raydium => RAYDIUM_PROGRAM_ID,
            PoolType::Jupiter => JUPITER_PROGRAM_ID,
        }
    }
}

} // verus!
