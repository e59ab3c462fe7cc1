use vstd::prelude::*;
use vstd::string::*;
use std::collections::HashMap;
use crate::helpers::{AddressError, is_valid_address, is_valid_solana_address};

verus! {

broadcast use vstd::std_specs::hash::group_hash_axioms;

/// The commands the bot understands.
#[derive(Debug, Clone, Copy, PartialEq, Eq, Structural)]
pub enum Command {
    /// Show the help message.
    Start,
    /// Stop monitoring the current address.
    Stop,
    /// Check the current monitoring status.
    Status,
    /// Check the wallet balance.
    Balance,
    /// Subscribe to notifications.
    Subscribe,
    /// Unsubscribe from notifications.
    Unsubscribe,
    /// View Raydium transactions.
    Trader,
}

/// The answer to `/start`.
pub open spec fn welcome_text() -> Seq<char> {
    "Welcome to Solana Copy Trading Bot! 🚀\n\
     Available commands:\n\
     /start - Show this help message\n\
     /stop - Stop monitoring\n\
     /status - Check status\n\
     /balance - Check balance\n\
     /subscribe - Subscribe to notifications\n\
     /unsubscribe - Unsubscribe from notifications\n\
     /trader - View Raydium transactions"@
}

/// The answer to `/trader`.
pub open spec fn trader_prompt_text() -> Seq<char> {
    "Please enter a Solana address to monitor"@
}

/// What the bot does for a command.
#[derive(Debug)]
pub enum CommandAction {
    /// Send this text to the chat.
    Reply(String),
    /// Stop the chat's monitor (`MonitorRegistry::stop_monitoring`).
    StopMonitoring,
    /// Report the chat's monitor (`MonitorRegistry::check_status`).
    CheckStatus,
    /// Look up the wallet balance.
    CheckBalance,
    /// Subscribe the chat (`TelegramService::handle_subscribe`).
    Subscribe,
    /// Unsubscribe the chat (`TelegramService::handle_unsubscribe`).
    Unsubscribe,
}

/// Whether `action` is what the bot does for `cmd`.
pub open spec fn is_action_for(cmd: Command, action: CommandAction) -> bool {
    match cmd {
        Command::Start => action matches CommandAction::Reply(text) && text@ == welcome_text(),
        Command::Stop => action is StopMonitoring,
        Command::Status => action is CheckStatus,
        Command::Balance => action is CheckBalance,
        Command::Subscribe => action is Subscribe,
        Command::Unsubscribe => action is Unsubscribe,
        Command::Trader => action matches CommandAction::Reply(text) && text@
            == trader_prompt_text(),
    }
}

/// Decides what to do for a command.
pub fn handle_command(cmd: Command) -> (action: CommandAction)
    ensures
        is_action_for(cmd, action),
{
    match cmd {
        Command::Start => CommandAction::Reply(
            "Welcome to Solana Copy Trading Bot! 🚀\n\
             Available commands:\n\
             /start - Show this help message\n\
             /stop - Stop monitoring\n\
             /status - Check status\n\
             /balance - Check balance\n\
             /subscribe - Subscribe to notifications\n\
             /unsubscribe - Unsubscribe from notifications\n\
             /trader - View Raydium transactions".to_owned(),
        ),
        Command::Stop => CommandAction::StopMonitoring,
        Command::Status => CommandAction::CheckStatus,
        Command::Balance => CommandAction::CheckBalance,
        Command::Subscribe => CommandAction::Subscribe,
        Command::Unsubscribe => CommandAction::Unsubscribe,
        Command::Trader => CommandAction::Reply("Please enter a Solana address to monitor".to_owned()),
    }
}

/// A message that is not a command: it has a text and the text does not
/// start with `/`.
pub open spec fn is_plain_text(text: Option<Seq<char>>) -> bool {
    text matches Some(t) && !(t.len() > 0 && t[0] == '/')
}

/// Routing: a message goes to the address handler exactly when it has a
/// text that does not begin with `/`, whatever else the text holds.
pub proof fn lemma_plain_text_routing(text: Seq<char>)
    ensures
        is_plain_text(Some(text)) <==> !"/"@.is_prefix_of(text),
        !is_plain_text(None),
{
    reveal_strlit("/");
    assert("/"@.len() == 1 && "/"@[0] == '/');
    if text.len() > 0 && text[0] == '/' {
        assert("/"@ =~= text.subrange(0, 1));
    }
    if "/"@.is_prefix_of(text) {
        assert(text.subrange(0, 1)[0] == text[0]);
    }
}

/// The text of an optional string slice, by its view.
pub open spec fn text_view(text: Option<&str>) -> Option<Seq<char>> {
    match text {
        Some(t) => Some(t@),
        None => None,
    }
}

/// Whether a message goes to the address handler: it has a text that
/// does not start with `/`.
pub fn is_address_message(text: Option<&str>) -> (b: bool)
    ensures
        b == is_plain_text(text_view(text)),
{
    match text {
        Some(t) => !(t.unicode_len() > 0 && t.get_char(0) == '/'),
        None => false,
    }
}

/// The answer to a text that is not an address.
pub open spec fn invalid_address_text() -> Seq<char> {
    "Invalid Solana address format"@
}

/// What the bot does with a plain text message.
#[derive(Debug)]
pub enum AddressAction {
    /// The message has no text.
    Ignore,
    /// The text is an address: start monitoring it.
    StartMonitoring,
    /// Send this text to the chat.
    Reply(String),
}

/// Whether `action` is what the bot does for a message with this text.
pub open spec fn is_address_action_for(text: Option<Seq<char>>, action: AddressAction) -> bool {
    match text {
        None => action is Ignore,
        Some(t) => if is_valid_address(t) {
            action is StartMonitoring
        } else {
            action matches AddressAction::Reply(r) && r@ == invalid_address_text()
        },
    }
}

/// Decides what to do with the text of a message: monitor it if it is a
/// valid address, otherwise say that it is not.
pub fn handle_address(text: Option<&str>) -> (action: AddressAction)
    ensures
        is_address_action_for(text_view(text), action),
{
    match text {
        None => AddressAction::Ignore,
        Some(address) => {
            if is_valid_solana_address(address) {
                AddressAction::StartMonitoring
            } else {
                AddressAction::Reply("Invalid Solana address format".to_owned())
            }
        },
    }
}

/// Answer when a monitor was stopped.
pub open spec fn stopped_text() -> Seq<char> {
    "Stopped monitoring"@
}

/// Answer to `/stop` when no monitor runs.
pub open spec fn nothing_to_stop_text() -> Seq<char> {
    "No active monitoring to stop"@
}

/// Answer to `/status` when a monitor runs.
pub open spec fn active_text() -> Seq<char> {
    "Active monitoring in progress"@
}

/// Answer to `/status` when no monitor runs.
pub open spec fn inactive_text() -> Seq<char> {
    "No active monitoring"@
}

/// Answer when a monitor started on `address`.
pub open spec fn started_text(address: Seq<char>) -> Seq<char> {
    "Started monitoring address: "@ + address
}

/// Answer when a monitor could not start.
pub open spec fn start_error_text(error: AddressError) -> Seq<char> {
    "Error starting monitoring: "@ + error.spec_text()
}

/// `/stop` on a map of monitors: the new map, the stop handle to signal (if
/// any) and the reply.
pub open spec fn stop_outcome<H>(m: Map<i64, H>, chat_id: i64) -> (Map<i64, H>, Option<H>, Seq<char>) {
    if m.contains_key(chat_id) {
        (m.remove(chat_id), Some(m[chat_id]), stopped_text())
    } else {
        (m, None, nothing_to_stop_text())
    }
}

/// `/status` on a map of monitors.
pub open spec fn status_text<H>(m: Map<i64, H>, chat_id: i64) -> Seq<char> {
    if m.contains_key(chat_id) {
        active_text()
    } else {
        inactive_text()
    }
}

/// The first step of starting a monitor: the map without the chat's
/// monitor, and that monitor's stop handle if there was one.
pub open spec fn take_outcome<H>(m: Map<i64, H>, chat_id: i64) -> (Map<i64, H>, Option<H>) {
    if m.contains_key(chat_id) {
        (m.remove(chat_id), Some(m[chat_id]))
    } else {
        (m, None)
    }
}

/// The end of starting a monitor, given what starting it gave: the new
/// map, the stop handle of a monitor that the new one replaced (if the chat
/// still had one), and the reply.
pub open spec fn start_outcome<H>(
    m: Map<i64, H>,
    chat_id: i64,
    address: Seq<char>,
    started: Result<H, AddressError>,
) -> (Map<i64, H>, Option<H>, Seq<char>) {
    match started {
        Ok(handle) => (
            m.insert(chat_id, handle),
            if m.contains_key(chat_id) {
                Some(m[chat_id])
            } else {
                None
            },
            started_text(address),
        ),
        Err(e) => (m, None, start_error_text(e)),
    }
}

/// No stop handle leaves the map without being handed back: every monitor
/// of `old` is still in `new` under its chat, or it was the chat's own and
/// it is `returned`.
pub open spec fn keeps_or_hands_back<H>(
    old: Map<i64, H>,
    new: Map<i64, H>,
    chat_id: i64,
    returned: Option<H>,
) -> bool {
    forall|k: i64|
        #![trigger old.contains_key(k)]
        old.contains_key(k) ==> (new.contains_key(k) && new[k] == old[k]) || (k == chat_id
            && returned == Some(old[k]))
}

/// The running monitors, one per chat, each with the handle that stops it.
pub struct MonitorRegistry<H> {
    monitors: HashMap<i64, H>,
}

impl<H> View for MonitorRegistry<H> {
    type V = Map<i64, H>;

    closed spec fn view(&self) -> Map<i64, H> {
        self.monitors@
    }
}

impl<H> MonitorRegistry<H> {
    /// No monitor runs.
    pub fn new() -> (r: MonitorRegistry<H>)
        ensures
            r@ == Map::<i64, H>::empty(),
    {
        MonitorRegistry { monitors: HashMap::new() }
    }

    /// Whether a monitor runs for the chat.
    pub fn is_monitoring(&self, chat_id: i64) -> (b: bool)
        ensures
            b == self@.contains_key(chat_id),
    {
        self.monitors.contains_key(&chat_id)
    }

    /// Handles `/stop`: removes the chat's monitor and hands back its stop
    /// handle, which the caller signals. Returns the reply too.
    pub fn stop_monitoring(&mut self, chat_id: i64) -> (r: (Option<H>, String))
        ensures
            (final(self)@, r.0, r.1@) == stop_outcome(old(self)@, chat_id),
    {
        match self.monitors.remove(&chat_id) {
            Some(handle) => (Some(handle), "Stopped monitoring".to_owned()),
            None => (None, "No active monitoring to stop".to_owned()),
        }
    }

    /// Handles `/status`: the reply for the chat.
    pub fn check_status(&self, chat_id: i64) -> (reply: String)
        ensures
            reply@ == status_text(self@, chat_id),
    {
        if self.monitors.contains_key(&chat_id) {
            "Active monitoring in progress".to_owned()
        } else {
            "No active monitoring".to_owned()
        }
    }

    /// First step of starting a monitor: the chat's running monitor, if any,
    /// is removed and its stop handle handed back for the caller to signal.
    pub fn take_monitor(&mut self, chat_id: i64) -> (old_handle: Option<H>)
        ensures
            (final(self)@, old_handle) == take_outcome(old(self)@, chat_id),
    {
        self.monitors.remove(&chat_id)
    }

    /// Last step of starting a monitor on `address`: records the new
    /// monitor's stop handle if it started, and returns the stop handle of
    /// a monitor it replaced (none after `take_monitor`) and the reply.
    pub fn record_start(
        &mut self,
        chat_id: i64,
        address: &str,
        started: Result<H, AddressError>,
    ) -> (r: (Option<H>, String))
        ensures
            (final(self)@, r.0, r.1@) == start_outcome(old(self)@, chat_id, address@, started),
    {
        match started {
            Ok(handle) => {
                let replaced = self.monitors.insert(chat_id, handle);
                let reply = "Started monitoring address: ".to_owned();
                (replaced, reply.concat(address))
            },
            Err(e) => {
                let reply = "Error starting monitoring: ".to_owned();
                let text = e.message();
                (None, reply.concat(text.as_str()))
            },
        }
    }
}

/// After a monitor started for a chat, `/status` reports it active, and a
/// following `/stop` hands back exactly that monitor's handle, replies
/// `Stopped monitoring`, and leaves the other chats' monitors as they were.
pub proof fn lemma_start_then_stop<H>(m: Map<i64, H>, chat_id: i64, address: Seq<char>, handle: H)
    ensures
        ({
            let started = start_outcome(m, chat_id, address, Ok::<H, AddressError>(handle)).0;
            &&& status_text(started, chat_id) == active_text()
            &&& stop_outcome(started, chat_id).1 == Some(handle)
            &&& stop_outcome(started, chat_id).2 == stopped_text()
            &&& stop_outcome(started, chat_id).0 == m.remove(chat_id)
        }),
{
    assert(m.insert(chat_id, handle).remove(chat_id) =~= m.remove(chat_id));
}

/// After `/stop`, the chat has no monitor: `/status` says so, and a second
/// `/stop` changes nothing and answers that there is nothing to stop.
pub proof fn lemma_stop_is_final<H>(m: Map<i64, H>, chat_id: i64)
    ensures
        status_text(stop_outcome(m, chat_id).0, chat_id) == inactive_text(),
        stop_outcome(stop_outcome(m, chat_id).0, chat_id).0 == stop_outcome(m, chat_id).0,
        stop_outcome(stop_outcome(m, chat_id).0, chat_id).1 is None,
        stop_outcome(stop_outcome(m, chat_id).0, chat_id).2 == nothing_to_stop_text(),
{
}

/// A chat has at most one monitor: starting a new one after the old one
/// was taken out leaves exactly the new handle for the chat, and other
/// chats keep theirs.
pub proof fn lemma_restart_replaces<H>(
    m: Map<i64, H>,
    chat_id: i64,
    address: Seq<char>,
    handle: H,
    other: i64,
)
    requires
        other != chat_id,
    ensures
        start_outcome(m.remove(chat_id), chat_id, address, Ok::<H, AddressError>(handle)).0[chat_id]
            == handle,
        start_outcome(m.remove(chat_id), chat_id, address, Ok::<H, AddressError>(handle)).0.contains_key(other)
            == m.contains_key(other),
        m.contains_key(other) ==> start_outcome(
            m.remove(chat_id),
            chat_id,
            address,
            Ok::<H, AddressError>(handle),
        ).0[other] == m[other],
{
}

/// A failed start leaves the chat without a monitor when the old one was
/// taken out first, and the reply carries the error's message.
pub proof fn lemma_failed_start<H>(m: Map<i64, H>, chat_id: i64, address: Seq<char>, e: AddressError)
    ensures
        !start_outcome(m.remove(chat_id), chat_id, address, Err::<H, AddressError>(e)).0.contains_key(chat_id),
        start_outcome(m.remove(chat_id), chat_id, address, Err::<H, AddressError>(e)).2
            == start_error_text(e),
{
}

/// A text the bot takes for an address always starts a monitor: the
/// address decodes to a public key, so starting cannot fail on it.
pub proof fn lemma_accepted_address_starts(text: Seq<char>, action: AddressAction)
    requires
        is_address_action_for(Some(text), action),
        action is StartMonitoring,
    ensures
        crate::helpers::pubkey_from_str(text) is Ok,
{
}

/// Every step of the registry hands back each stop handle it takes out of
/// the map: `/stop`, the first step of a start, and the last step of a
/// start. So a monitor is always signalled before it leaves the registry.
pub proof fn lemma_no_handle_dropped<H>(
    m: Map<i64, H>,
    chat_id: i64,
    address: Seq<char>,
    started: Result<H, AddressError>,
)
    ensures
        keeps_or_hands_back(m, stop_outcome(m, chat_id).0, chat_id, stop_outcome(m, chat_id).1),
        keeps_or_hands_back(m, take_outcome(m, chat_id).0, chat_id, take_outcome(m, chat_id).1),
        keeps_or_hands_back(
            m,
            start_outcome(m, chat_id, address, started).0,
            chat_id,
            start_outcome(m, chat_id, address, started).1,
        ),
{
}

/// A whole start on a chat (take the old monitor out, then record what the
/// start gave): the old monitor's handle is handed back by the first step,
/// the second step replaces nothing, afterwards the chat has exactly the
/// new monitor if it started and none otherwise, and every other chat keeps
/// its monitor.
pub proof fn lemma_start_sequence<H>(
    m: Map<i64, H>,
    chat_id: i64,
    address: Seq<char>,
    started: Result<H, AddressError>,
)
    ensures
        ({
            let (m1, old_handle) = take_outcome(m, chat_id);
            let (m2, replaced, reply) = start_outcome(m1, chat_id, address, started);
            &&& old_handle == (if m.contains_key(chat_id) {
                Some(m[chat_id])
            } else {
                None
            })
            &&& replaced is None
            &&& m2.contains_key(chat_id) == started is Ok
            &&& (started matches Ok(h) ==> m2[chat_id] == h)
            &&& forall|k: i64|
                k != chat_id ==> (#[trigger] m2.contains_key(k) == m.contains_key(k) && (
                m.contains_key(k) ==> m2[k] == m[k]))
        }),
{
}

} // verus!
