use vstd::prelude::*;

verus! {

/// Settings of the Telegram side of the bot.
#[derive(Debug, Clone)]
pub struct TelegramConfig {
    /// The character that starts a command.
    pub command_prefix: String,
    /// The pause, in milliseconds, between two notifications.
    pub message_timeout: u64,
    /// The most subscribers the bot accepts.
    pub max_subscribers: usize,
}

/// Settings of the Solana side of the bot.
#[derive(Debug, Clone)]
pub struct SolanaConfig {
    pub confirmation_blocks: u64,
    pub commitment: String,
    pub max_retries: u32,
    /// Milliseconds before the first retry.
    pub retry_delay: u64,
    pub raydium_program_id: String,
    pub jupiter_program_id: String,
}

/// Limits on what one user may ask for.
#[derive(Debug, Clone, Copy, PartialEq, Eq, Structural)]
pub struct RateLimitConfig {
    pub max_requests_per_minute: u32,
    pub max_subscriptions_per_user: u32,
}

/// The program id the default settings give for Raydium.
pub open spec fn default_raydium_program_id() -> Seq<char> {
    "5quBzjrh1rKB7oRhxbEr7Tx6t8AH7z3maXJJu44HacKL"@
}

/// The program id the default settings give for Jupiter.
pub open spec fn default_jupiter_program_id() -> Seq<char> {
    "675kPX9MHTjS2zt1qfr1NYHuzeLXfQM9H24wFSUt1Mp8"@
}

impl Default for TelegramConfig {
    /// Commands start with `/`, notifications are 5 s apart, and at most
    /// 1000 users subscribe.
    fn default() -> (c: TelegramConfig)
        ensures
            c.command_prefix@ == "/"@,
            c.message_timeout == 5000,
            c.max_subscribers == 1000,
    {
        TelegramConfig {
            command_prefix: "/".to_owned(),
            message_timeout: 5000,
            max_subscribers: 1000,
        }
    }
}

impl Default for SolanaConfig {
    /// One confirmation block at `confirmed` commitment, three retries one
    /// second apart, and the Raydium and Jupiter program ids.
    fn default() -> (c: SolanaConfig)
        ensures
            c.confirmation_blocks == 1,
            c.commitment@ == "confirmed"@,
            c.max_retries == 3,
            c.retry_delay == 1000,
            c.raydium_program_id@ == default_raydium_program_id(),
            c.jupiter_program_id@ == default_jupiter_program_id(),
    {
        SolanaConfig {
            confirmation_blocks: 1,
            commitment: "confirmed".to_owned(),
            max_retries: 3,
            retry_delay: 1000,
            raydium_program_id: "5quBzjrh1rKB7oRhxbEr7Tx6t8AH7z3maXJJu44HacKL".to_owned(),
            jupiter_program_id: "675kPX9MHTjS2zt1qfr1NYHuzeLXfQM9H24wFSUt1Mp8".to_owned(),
        }
    }
}

impl Default for RateLimitConfig {
    /// Sixty requests a minute and five subscriptions per user.
    fn default() -> (c: RateLimitConfig)
        ensures
            c.max_requests_per_minute == 60,
            c.max_subscriptions_per_user == 5,
    {
        RateLimitConfig { max_requests_per_minute: 60, max_subscriptions_per_user: 5 }
    }
}

} // verus!
