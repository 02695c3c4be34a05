//! Who may talk to the assistant: pairing requests, approvals, sessions and
//! user profiles.

use crate::cron::clock::{low_u64, system_millis};
use crate::text::{chars_of, clone_text, push_str, str_eq, string_of};
use crate::textmap::TextMap;
use crate::trusted::{since_epoch, to_uppercase, uppercase_of};
use std::time::SystemTime;
use vstd::prelude::*;

verus! {

/// Seconds for which a pairing code can be used.
pub const CODE_TTL_SECS: u64 = 3600;

/// Number of characters of a pairing code.
pub const CODE_LENGTH: usize = 8;

/// The characters a pairing code is made of: capital letters and digits
/// without the look-alikes `0`, `O`, `1` and `I`.
pub open spec fn code_alphabet() -> Seq<char> {
    "ABCDEFGHJKLMNPQRSTUVWXYZ23456789"@
}

/// A request to be let in, waiting for approval.
#[derive(Debug)]
pub struct PendingRequest {
    pub code: String,
    pub channel: String,
    pub user_id: String,
    pub username: Option<String>,
    pub display_name: Option<String>,
    /// When the request was made, in seconds since the Unix epoch.
    pub created_at: u64,
}

impl Clone for PendingRequest {
    fn clone(&self) -> (r: Self)
        ensures
            r == *self,
    {
        PendingRequest {
            code: self.code.clone(),
            channel: self.channel.clone(),
            user_id: self.user_id.clone(),
            username: clone_text(&self.username),
            display_name: clone_text(&self.display_name),
            created_at: self.created_at,
        }
    }
}

impl PendingRequest {
    /// Whether the request is still good at `now` (seconds): it was made
    /// less than an hour ago.
    pub open spec fn live_at(self, now: u64) -> bool {
        now <= self.created_at || now - self.created_at < CODE_TTL_SECS
    }

    /// Whether the request was made by `user_id` on `channel`.
    pub open spec fn from_user(self, channel: Seq<char>, user_id: Seq<char>) -> bool {
        self.channel@ == channel && self.user_id@ == user_id
    }

    /// Whether the request is still good at `now`.
    pub fn is_live(&self, now: u64) -> (r: bool)
        ensures
            r == self.live_at(now),
    {
        now <= self.created_at || now - self.created_at < CODE_TTL_SECS
    }
}

/// What is known about a user.
#[derive(Debug)]
pub struct UserProfile {
    pub name: Option<String>,
    pub pronouns: Option<String>,
    pub location: Option<String>,
    pub timezone: Option<String>,
    pub notes: Option<String>,
    pub onboarding_complete: bool,
}

impl UserProfile {
    /// The profile of a user of whom nothing is known.
    pub open spec fn blank() -> UserProfile {
        UserProfile {
            name: None,
            pronouns: None,
            location: None,
            timezone: None,
            notes: None,
            onboarding_complete: false,
        }
    }
}

impl Default for UserProfile {
    fn default() -> (r: Self)
        ensures
            r == UserProfile::blank(),
    {
        UserProfile {
            name: None,
            pronouns: None,
            location: None,
            timezone: None,
            notes: None,
            onboarding_complete: false,
        }
    }
}

impl Clone for UserProfile {
    fn clone(&self) -> (r: Self)
        ensures
            r == *self,
    {
        UserProfile {
            name: clone_text(&self.name),
            pronouns: clone_text(&self.pronouns),
            location: clone_text(&self.location),
            timezone: clone_text(&self.timezone),
            notes: clone_text(&self.notes),
            onboarding_complete: self.onboarding_complete,
        }
    }
}

/// Why a pairing request could not be served.
#[derive(Debug)]
pub enum PairingError {
    /// No request is waiting under this code.
    NoPendingRequest(String),
    /// A hundred codes were drawn and every one was taken.
    CodesExhausted,
}

impl PairingError {
    /// The refusal in words.
    pub open spec fn text(self) -> Seq<char> {
        match self {
            PairingError::NoPendingRequest(code) => "No pending request found for code: "@
                + code@,
            PairingError::CodesExhausted => "Failed to generate unique code after 100 attempts"@,
        }
    }

    /// The refusal in words.
    pub fn message(&self) -> (r: String)
        ensures
            r@ == self.text(),
    {
        let mut out: Vec<char> = Vec::new();
        match self {
            PairingError::NoPendingRequest(code) => {
                push_str(&mut out, "No pending request found for code: ");
                push_str(&mut out, code.as_str());
            },
            PairingError::CodesExhausted => {
                push_str(&mut out, "Failed to generate unique code after 100 attempts");
            },
        }
        string_of(out.as_slice())
    }
}

// ---------------------------------------------------------------------------
// Codes and session identifiers
// ---------------------------------------------------------------------------

/// One step of the xorshift generator.
pub open spec fn xorshift(x: u64) -> u64 {
    let a = x ^ (x << 13);
    let b = a ^ (a >> 7);
    b ^ (b << 17)
}

/// The state of the generator after `n` steps from `seed`.
pub open spec fn xorshift_n(seed: u64, n: nat) -> u64
    decreases n,
{
    if n == 0 {
        seed
    } else {
        xorshift(xorshift_n(seed, (n - 1) as nat))
    }
}

/// The pairing code drawn from `seed`: eight characters of the alphabet, the
/// `i`-th chosen by the generator's state after `i + 1` steps.
pub open spec fn code_of(seed: u64) -> Seq<char> {
    Seq::new(8, |i: int| code_alphabet()[(xorshift_n(seed, (i + 1) as nat) % 32) as int])
}

/// A small pseudo-random generator (xorshift64).
pub struct SimpleRng(pub u64);

impl SimpleRng {
    /// A generator that starts from `seed`.
    pub fn new(seed: u64) -> (r: Self)
        ensures
            r.0 == seed,
    {
        SimpleRng(seed)
    }

    /// Advances the generator and gives its new state.
    pub fn next(&mut self) -> (r: u64)
        ensures
            r == xorshift(old(self).0),
            final(self).0 == r,
    {
        let mut x: u64 = self.0;
        x = x ^ (x << 13);
        x = x ^ (x >> 7);
        x = x ^ (x << 17);
        self.0 = x;
        x
    }
}

/// The pairing code drawn from `seed`.
pub fn generate_code_from(seed: u64) -> (code: String)
    ensures
        code@ == code_of(seed),
{
    let alphabet = chars_of("ABCDEFGHJKLMNPQRSTUVWXYZ23456789");
    proof {
        reveal_strlit("ABCDEFGHJKLMNPQRSTUVWXYZ23456789");
    }
    let mut rng = SimpleRng::new(seed);
    let mut out: Vec<char> = Vec::new();
    let mut i: usize = 0;
    while i < CODE_LENGTH
        invariant
            i <= CODE_LENGTH,
            alphabet@ == code_alphabet(),
            alphabet@.len() == 32,
            rng.0 == xorshift_n(seed, i as nat),
            out@ == code_of(seed).take(i as int),
        decreases CODE_LENGTH - i,
    {
        let x = rng.next();
        let idx: usize = (x % 32) as usize;
        out.push(alphabet[idx]);
        i += 1;
    }
    string_of(out.as_slice())
}

/// A pairing code drawn from the system clock's reading.
pub fn generate_code() -> (code: String)
    ensures
        exists|seed: u64| code@ == code_of(seed),
{
    generate_code_from(clock_seed())
}

/// Nanoseconds since the Unix epoch by the system clock, cut to 64 bits; 0
/// when the clock reads earlier than the epoch.
pub fn clock_seed() -> u64 {
    let now = SystemTime::now();
    match since_epoch(&now) {
        Ok(elapsed) => low_u64(elapsed.as_nanos()),
        Err(_) => 0,
    }
}

/// Seconds since the Unix epoch by the system clock; 0 when the clock reads
/// earlier than the epoch.
pub fn now_timestamp() -> u64 {
    system_millis() / 1000
}

/// Whether a request with the code `code` is among `existing`.
pub open spec fn code_taken(existing: Seq<PendingRequest>, code: Seq<char>) -> bool {
    exists|i: int| 0 <= i < existing.len() && (#[trigger] existing[i]).code@ == code
}

/// Whether a request with the code `code` is among `existing`.
pub fn is_code_taken(existing: &Vec<PendingRequest>, code: &str) -> (r: bool)
    ensures
        r == code_taken(existing@, code@),
{
    let mut i: usize = 0;
    while i < existing.len()
        invariant
            i <= existing@.len(),
            forall|k: int| 0 <= k < i ==> (#[trigger] existing@[k]).code@ != code@,
        decreases existing@.len() - i,
    {
        if str_eq(existing[i].code.as_str(), code) {
            return true;
        }
        i += 1;
    }
    false
}

/// Draws pairing codes, each from a new reading of the clock, until one is
/// not taken; gives up after a hundred draws.
pub fn generate_unique_code(existing: &Vec<PendingRequest>) -> (r: Result<String, PairingError>)
    ensures
        match r {
            Ok(code) => !code_taken(existing@, code@) && exists|seed: u64| code@ == code_of(seed),
            Err(e) => e is CodesExhausted,
        },
{
    let mut attempt: usize = 0;
    while attempt < 100
        invariant
            attempt <= 100,
        decreases 100 - attempt,
    {
        let code = generate_code();
        if !is_code_taken(existing, code.as_str()) {
            return Ok(code);
        }
        attempt += 1;
    }
    Err(PairingError::CodesExhausted)
}

/// The two lower-case hexadecimal digits of a byte.
pub open spec fn hex_byte(b: u8) -> Seq<char> {
    seq![hex_digit((b / 16) as nat), hex_digit((b % 16) as nat)]
}

/// The lower-case hexadecimal digit for `d`.
pub open spec fn hex_digit(d: nat) -> char
    recommends
        d < 16,
{
    "0123456789abcdef"@[d as int]
}

/// The `i`-th byte drawn from `seed`: the low eight bits of the generator's
/// state after `i + 1` steps.
pub open spec fn drawn_byte(seed: u64, i: nat) -> u8 {
    (xorshift_n(seed, i + 1) % 256) as u8
}

/// The session identifier drawn from `seed`: sixteen drawn bytes written as
/// a version-4 UUID, that is as 32 hexadecimal digits in groups of 8, 4, 4,
/// 4 and 12, with the version digit `4` and the variant bits `10` set.
pub open spec fn session_id_of(seed: u64) -> Seq<char> {
    let b = |i: nat| drawn_byte(seed, i);
    hex_byte(b(0)) + hex_byte(b(1)) + hex_byte(b(2)) + hex_byte(b(3)) + "-"@ + hex_byte(b(4))
        + hex_byte(b(5)) + "-4"@ + seq![hex_digit((b(6) % 16) as nat)] + hex_byte(b(7)) + "-"@
        + hex_byte(((b(8) % 64) + 128) as u8) + hex_byte(b(9)) + "-"@ + hex_byte(b(10))
        + hex_byte(b(11)) + hex_byte(b(12)) + hex_byte(b(13)) + hex_byte(b(14)) + hex_byte(b(15))
}

/// Appends the hexadecimal digit for `d`.
fn push_hex_digit(out: &mut Vec<char>, d: u8)
    requires
        d < 16,
    ensures
        final(out)@ == old(out)@.push(hex_digit(d as nat)),
{
    let digits = chars_of("0123456789abcdef");
    proof {
        reveal_strlit("0123456789abcdef");
    }
    out.push(digits[d as usize]);
}

/// Appends the two hexadecimal digits of `b`.
fn push_hex_byte(out: &mut Vec<char>, b: u8)
    ensures
        final(out)@ == old(out)@ + hex_byte(b),
{
    push_hex_digit(out, b / 16);
    push_hex_digit(out, b % 16);
    assert(final(out)@ == old(out)@ + hex_byte(b));
}

/// The session identifier drawn from `seed`.
pub fn generate_uuid_from(seed: u64) -> (id: String)
    ensures
        id@ == session_id_of(seed),
{
    let mut rng = SimpleRng::new(seed);
    let mut bytes: Vec<u8> = Vec::new();
    let mut i: usize = 0;
    while i < 16
        invariant
            i <= 16,
            bytes@.len() == i,
            rng.0 == xorshift_n(seed, i as nat),
            forall|k: int| 0 <= k < i ==> bytes@[k] == drawn_byte(seed, k as nat),
        decreases 16 - i,
    {
        let x = rng.next();
        bytes.push((x % 256) as u8);
        i += 1;
    }
    let mut out: Vec<char> = Vec::new();
    push_hex_byte(&mut out, bytes[0]);
    push_hex_byte(&mut out, bytes[1]);
    push_hex_byte(&mut out, bytes[2]);
    push_hex_byte(&mut out, bytes[3]);
    push_str(&mut out, "-");
    push_hex_byte(&mut out, bytes[4]);
    push_hex_byte(&mut out, bytes[5]);
    push_str(&mut out, "-4");
    push_hex_digit(&mut out, bytes[6] % 16);
    push_hex_byte(&mut out, bytes[7]);
    push_str(&mut out, "-");
    push_hex_byte(&mut out, (bytes[8] % 64) + 128);
    push_hex_byte(&mut out, bytes[9]);
    push_str(&mut out, "-");
    push_hex_byte(&mut out, bytes[10]);
    push_hex_byte(&mut out, bytes[11]);
    push_hex_byte(&mut out, bytes[12]);
    push_hex_byte(&mut out, bytes[13]);
    push_hex_byte(&mut out, bytes[14]);
    push_hex_byte(&mut out, bytes[15]);
    string_of(out.as_slice())
}

/// A session identifier drawn from the system clock's reading.
pub fn generate_uuid() -> (id: String)
    ensures
        exists|seed: u64| id@ == session_id_of(seed),
{
    generate_uuid_from(clock_seed())
}

/// The key under which sessions and profiles of a user are kept: channel, a
/// colon, user.
pub open spec fn user_key_of(channel: Seq<char>, user_id: Seq<char>) -> Seq<char> {
    channel + ":"@ + user_id
}

/// The key under which sessions and profiles of a user are kept.
pub fn user_key(channel: &str, user_id: &str) -> (r: String)
    ensures
        r@ == user_key_of(channel@, user_id@),
{
    let mut out: Vec<char> = Vec::new();
    push_str(&mut out, channel);
    push_str(&mut out, ":");
    push_str(&mut out, user_id);
    string_of(out.as_slice())
}

// ---------------------------------------------------------------------------
// The store
// ---------------------------------------------------------------------------

/// Requests that are still good at `now`.
pub open spec fn live_by(now: u64) -> spec_fn(PendingRequest) -> bool {
    |request: PendingRequest| request.live_at(now)
}

/// Position of the first request of `user_id` on `channel`, or the length
/// of the list where there is none.
pub open spec fn first_request_of(
    pending: Seq<PendingRequest>,
    channel: Seq<char>,
    user_id: Seq<char>,
    from: int,
) -> int
    decreases pending.len() - from,
{
    if from < 0 || from >= pending.len() {
        pending.len() as int
    } else if pending[from].from_user(channel, user_id) {
        from
    } else {
        first_request_of(pending, channel, user_id, from + 1)
    }
}

/// Position of the first request with the code `code`, or the length of the
/// list where there is none.
pub open spec fn first_with_code(pending: Seq<PendingRequest>, code: Seq<char>, from: int) -> int
    decreases pending.len() - from,
{
    if from < 0 || from >= pending.len() {
        pending.len() as int
    } else if pending[from].code@ == code {
        from
    } else {
        first_with_code(pending, code, from + 1)
    }
}

/// The texts that a list of strings holds.
pub open spec fn texts(list: Seq<String>) -> Seq<Seq<char>> {
    list.map_values(|t: String| t@)
}

/// What asking for a pairing code does to the waiting list `live` of the
/// requests that are still good at `now`, where `code` is the code handed
/// out (`None` where none could be drawn).
///
/// A user who has a request among them gets its code and the list stays as
/// it is. Any other user gets a new request at the end of the list, with a
/// code that no request of the list has; where no such code could be drawn
/// the list stays as it is.
pub open spec fn code_outcome(
    live: Seq<PendingRequest>,
    after: Seq<PendingRequest>,
    channel: Seq<char>,
    user_id: Seq<char>,
    username: Option<String>,
    display_name: Option<String>,
    now: u64,
    code: Option<Seq<char>>,
) -> bool {
    let at = first_request_of(live, channel, user_id, 0);
    if at < live.len() {
        after == live && code == Some(live[at].code@)
    } else {
        match code {
            Some(drawn) => {
                &&& !code_taken(live, drawn)
                &&& after.len() == live.len() + 1
                &&& after.drop_last() == live
                &&& after.last().code@ == drawn
                &&& after.last().from_user(channel, user_id)
                &&& after.last().username == username
                &&& after.last().display_name == display_name
                &&& after.last().created_at == now
            },
            None => after == live,
        }
    }
}

/// [`code_outcome`] for the answer of the pairing store, which also tells
/// whether the request is new.
pub open spec fn pending_outcome(
    live: Seq<PendingRequest>,
    after: Seq<PendingRequest>,
    channel: Seq<char>,
    user_id: Seq<char>,
    username: Option<String>,
    display_name: Option<String>,
    now: u64,
    r: Result<(String, bool), PairingError>,
) -> bool {
    match r {
        Ok((code, is_new)) => is_new == (first_request_of(live, channel, user_id, 0) >= live.len())
            && code_outcome(
            live,
            after,
            channel,
            user_id,
            username,
            display_name,
            now,
            Some(code@),
        ),
        Err(e) => e is CodesExhausted && code_outcome(
            live,
            after,
            channel,
            user_id,
            username,
            display_name,
            now,
            None,
        ),
    }
}

/// Everything the assistant remembers about who may talk to it.
pub struct PairingStore {
    /// Requests waiting for approval, oldest first.
    pub pending: Vec<PendingRequest>,
    /// For each channel, the users let in.
    pub approved: TextMap<Vec<String>>,
    /// For each user key, the identifier of the running conversation.
    pub sessions: TextMap<String>,
    /// For each user key, what is known about the user.
    pub user_profiles: TextMap<UserProfile>,
}

impl Default for PairingStore {
    fn default() -> (r: Self)
        ensures
            r.wf(),
            r.pending@.len() == 0,
            r.approved@ == Map::<Seq<char>, Vec<String>>::empty(),
            r.sessions@ == Map::<Seq<char>, String>::empty(),
            r.user_profiles@ == Map::<Seq<char>, UserProfile>::empty(),
    {
        PairingStore {
            pending: Vec::new(),
            approved: TextMap::new(),
            sessions: TextMap::new(),
            user_profiles: TextMap::new(),
        }
    }
}

impl PairingStore {
    /// The three maps of the store are well formed.
    pub open spec fn wf(&self) -> bool {
        &&& self.approved.wf()
        &&& self.sessions.wf()
        &&& self.user_profiles.wf()
    }

    /// Whether `user_id` has been let in on `channel`.
    pub open spec fn approves(&self, channel: Seq<char>, user_id: Seq<char>) -> bool {
        self.approved@.contains_key(channel) && texts(self.approved@[channel]@).contains(user_id)
    }

    /// The users let in on `channel`.
    pub open spec fn approved_on(&self, channel: Seq<char>) -> Seq<String> {
        if self.approved@.contains_key(channel) {
            self.approved@[channel]@
        } else {
            Seq::empty()
        }
    }

    /// Drops the requests that are no longer good at `now` (seconds).
    pub fn prune_expired_at(&mut self, now: u64)
        ensures
            final(self).pending@ == old(self).pending@.filter(live_by(now)),
            final(self).approved == old(self).approved,
            final(self).sessions == old(self).sessions,
            final(self).user_profiles == old(self).user_profiles,
    {
        let mut kept: Vec<PendingRequest> = Vec::new();
        let mut all: Vec<PendingRequest> = Vec::new();
        std::mem::swap(&mut all, &mut self.pending);
        let ghost before = all@;
        proof {
            reveal(Seq::filter);
        }
        for request in it: all
            invariant
                it.seq() == before,
                kept@ == before.take(it.index() as int).filter(live_by(now)),
        {
            proof {
                reveal(Seq::filter);
                let n = it.index() as int;
                assert(before.take(n + 1).drop_last() == before.take(n));
            }
            if request.is_live(now) {
                kept.push(request);
            }
        }
        assert(before.take(before.len() as int) == before);
        self.pending = kept;
    }

    /// Drops the requests that are older than an hour by the system clock.
    pub fn prune_expired(&mut self)
        ensures
            exists|now: u64| final(self).pending@ == old(self).pending@.filter(live_by(now)),
            final(self).approved == old(self).approved,
            final(self).sessions == old(self).sessions,
            final(self).user_profiles == old(self).user_profiles,
    {
        let now = now_timestamp();
        self.prune_expired_at(now);
    }

    /// Whether `user_id` has been let in on `channel`.
    pub fn is_approved(&self, channel: &str, user_id: &str) -> (r: bool)
        requires
            self.wf(),
        ensures
            r == self.approves(channel@, user_id@),
    {
        match self.approved.get(channel) {
            Some(users) => {
                let mut i: usize = 0;
                while i < users.len()
                    invariant
                        i <= users@.len(),
                        self.approved@.contains_key(channel@),
                        *users == self.approved@[channel@],
                        forall|k: int| 0 <= k < i ==> texts(users@)[k] != user_id@,
                    decreases users@.len() - i,
                {
                    if str_eq(users[i].as_str(), user_id) {
                        assert(texts(users@)[i as int] == user_id@);
                        assert(texts(users@).contains(user_id@));
                        return true;
                    }
                    i += 1;
                }
                false
            },
            None => false,
        }
    }

    /// Position of the first request of `user_id` on `channel`.
    fn find_request(&self, channel: &str, user_id: &str) -> (r: usize)
        ensures
            r == first_request_of(self.pending@, channel@, user_id@, 0),
            r <= self.pending@.len(),
            r < self.pending@.len() ==> self.pending@[r as int].from_user(channel@, user_id@),
    {
        let mut i: usize = 0;
        while i < self.pending.len()
            invariant
                i <= self.pending@.len(),
                first_request_of(self.pending@, channel@, user_id@, 0) == first_request_of(
                    self.pending@,
                    channel@,
                    user_id@,
                    i as int,
                ),
            decreases self.pending@.len() - i,
        {
            if str_eq(self.pending[i].channel.as_str(), channel) && str_eq(
                self.pending[i].user_id.as_str(),
                user_id,
            ) {
                return i;
            }
            i += 1;
        }
        i
    }

    /// The code of the request of `user_id` on `channel` among the requests
    /// that are good at `now`, or a new request made at `now` with the code
    /// `fresh_code`. Tells the code and whether the request is new.
    pub fn get_or_create_pending_at(
        &mut self,
        channel: &str,
        user_id: &str,
        username: Option<String>,
        display_name: Option<String>,
        now: u64,
        fresh_code: String,
    ) -> (r: (String, bool))
        ensures
            final(self).approved == old(self).approved,
            final(self).sessions == old(self).sessions,
            final(self).user_profiles == old(self).user_profiles,
            ({
                let live = old(self).pending@.filter(live_by(now));
                let at = first_request_of(live, channel@, user_id@, 0);
                if at < live.len() {
                    &&& final(self).pending@ == live
                    &&& r.0@ == live[at].code@
                    &&& !r.1
                } else {
                    &&& final(self).pending@.len() == live.len() + 1
                    &&& final(self).pending@.drop_last() == live
                    &&& final(self).pending@.last().code@ == fresh_code@
                    &&& final(self).pending@.last().from_user(channel@, user_id@)
                    &&& final(self).pending@.last().username == username
                    &&& final(self).pending@.last().display_name == display_name
                    &&& final(self).pending@.last().created_at == now
                    &&& r.0@ == fresh_code@
                    &&& r.1
                }
            }),
    {
        self.prune_expired_at(now);
        let at = self.find_request(channel, user_id);
        if at < self.pending.len() {
            return (self.pending[at].code.clone(), false);
        }
        let code = fresh_code.clone();
        let request = PendingRequest {
            code: fresh_code,
            channel: channel.to_owned(),
            user_id: user_id.to_owned(),
            username,
            display_name,
            created_at: now,
        };
        let ghost live = self.pending@;
        self.pending.push(request);
        assert(self.pending@.drop_last() == live);
        (code, true)
    }

    /// The code of the waiting request of a user, or a new request with a
    /// code that no waiting request has. Tells the code and whether the
    /// request is new.
    ///
    /// The clock decides which requests are still good, and the draw decides
    /// the new code; [`PairingStore::get_or_create_pending_at`] says what is
    /// done with both.
    pub fn get_or_create_pending(
        &mut self,
        channel: &str,
        user_id: &str,
        username: Option<String>,
        display_name: Option<String>,
    ) -> (r: Result<(String, bool), PairingError>)
        ensures
            final(self).approved == old(self).approved,
            final(self).sessions == old(self).sessions,
            final(self).user_profiles == old(self).user_profiles,
            exists|now: u64| #[trigger]
                pending_outcome(
                    old(self).pending@.filter(live_by(now)),
                    final(self).pending@,
                    channel@,
                    user_id@,
                    username,
                    display_name,
                    now,
                    r,
                ),
    {
        let now = now_timestamp();
        self.prune_expired_at(now);
        let ghost live = self.pending@;
        let at = self.find_request(channel, user_id);
        if at < self.pending.len() {
            let r = Ok((self.pending[at].code.clone(), false));
            assert(pending_outcome(
                live,
                self.pending@,
                channel@,
                user_id@,
                username,
                display_name,
                now,
                r,
            ));
            return r;
        }
        let code = match generate_unique_code(&self.pending) {
            Ok(code) => code,
            Err(e) => {
                let r = Err(e);
                assert(pending_outcome(
                    live,
                    self.pending@,
                    channel@,
                    user_id@,
                    username,
                    display_name,
                    now,
                    r,
                ));
                return r;
            },
        };
        let request = PendingRequest {
            code: code.clone(),
            channel: channel.to_owned(),
            user_id: user_id.to_owned(),
            username,
            display_name,
            created_at: now,
        };
        self.pending.push(request);
        let r = Ok((code, true));
        assert(self.pending@.drop_last() == live);
        assert(pending_outcome(
            live,
            self.pending@,
            channel@,
            user_id@,
            username,
            display_name,
            now,
            r,
        ));
        r
    }

    /// Lets `user_id` in on `channel`.
    pub fn auto_approve(
        &mut self,
        channel: &str,
        user_id: &str,
        _username: Option<String>,
        _display_name: Option<String>,
    )
        requires
            old(self).wf(),
        ensures
            final(self).wf(),
            final(self).pending == old(self).pending,
            final(self).sessions == old(self).sessions,
            final(self).user_profiles == old(self).user_profiles,
            final(self).approved@.dom() == old(self).approved@.dom().insert(channel@),
            forall|c: Seq<char>|
                c != channel@ && old(self).approved@.contains_key(c) ==> final(self).approved@[c]
                    == old(self).approved@[c],
            texts(final(self).approved_on(channel@)) == texts(old(self).approved_on(channel@)).push(
                user_id@,
            ),
            final(self).approves(channel@, user_id@),
    {
        let user = user_id.to_owned();
        let ghost before = self.approved_on(channel@);
        match self.approved.get_mut(channel) {
            Some(users) => {
                users.push(user);
            },
            None => {
                let mut users: Vec<String> = Vec::new();
                users.push(user);
                self.approved.insert(channel.to_owned(), users);
            },
        }
        proof {
            let after = self.approved_on(channel@);
            assert(after == before.push(user));
            assert(texts(after) =~= texts(before).push(user_id@));
            assert(texts(after)[before.len() as int] == user_id@);
            assert(self.approved@.dom() =~= old(self).approved@.dom().insert(channel@));
        }
    }

    /// Position of the first request with the code `code`.
    fn find_code(&self, code: &str) -> (r: usize)
        ensures
            r == first_with_code(self.pending@, code@, 0),
            r <= self.pending@.len(),
            r < self.pending@.len() ==> self.pending@[r as int].code@ == code@,
    {
        let mut i: usize = 0;
        while i < self.pending.len()
            invariant
                i <= self.pending@.len(),
                first_with_code(self.pending@, code@, 0) == first_with_code(
                    self.pending@,
                    code@,
                    i as int,
                ),
            decreases self.pending@.len() - i,
        {
            if str_eq(self.pending[i].code.as_str(), code) {
                return i;
            }
            i += 1;
        }
        i
    }

    /// Approves the request with the code `code` among the requests that are
    /// good at `now`: the request leaves the waiting list and its user is
    /// let in on its channel. Codes are compared in upper case.
    pub fn approve_at(&mut self, code: &str, now: u64) -> (r: Result<PendingRequest, PairingError>)
        requires
            old(self).wf(),
        ensures
            final(self).wf(),
            final(self).sessions == old(self).sessions,
            final(self).user_profiles == old(self).user_profiles,
            ({
                let live = old(self).pending@.filter(live_by(now));
                let at = first_with_code(live, uppercase_of(code@), 0);
                if at < live.len() {
                    &&& r == Ok::<PendingRequest, PairingError>(live[at])
                    &&& live[at].code@ == uppercase_of(code@)
                    &&& final(self).pending@ == live.remove(at)
                    &&& final(self).approves(live[at].channel@, live[at].user_id@)
                    &&& texts(final(self).approved_on(live[at].channel@)) == texts(
                        old(self).approved_on(live[at].channel@),
                    ).push(live[at].user_id@)
                } else {
                    &&& r matches Err(PairingError::NoPendingRequest(missing)) && missing@ == code@
                    &&& final(self).pending@ == live
                    &&& final(self).approved == old(self).approved
                }
            }),
    {
        self.prune_expired_at(now);
        let wanted = to_uppercase(code);
        let at = self.find_code(wanted.as_str());
        if at >= self.pending.len() {
            return Err(PairingError::NoPendingRequest(code.to_owned()));
        }
        let request = self.pending.remove(at);
        self.auto_approve(request.channel.as_str(), request.user_id.as_str(), None, None);
        Ok(request)
    }

    /// Approves the request with the code `code`, if it is still good by the
    /// system clock. See [`PairingStore::approve_at`].
    pub fn approve(&mut self, code: &str) -> (r: Result<PendingRequest, PairingError>)
        requires
            old(self).wf(),
        ensures
            final(self).wf(),
            final(self).sessions == old(self).sessions,
            final(self).user_profiles == old(self).user_profiles,
            match r {
                Ok(request) => request.code@ == uppercase_of(code@) && final(self).approves(
                    request.channel@,
                    request.user_id@,
                ),
                Err(e) => (e matches PairingError::NoPendingRequest(missing) && missing@ == code@)
                    && final(self).approved == old(self).approved,
            },
    {
        let now = now_timestamp();
        self.approve_at(code, now)
    }

    /// The requests that are still good by the system clock; the others are
    /// dropped.
    pub fn list_pending(&mut self) -> (r: Vec<&PendingRequest>)
        ensures
            r@.len() == final(self).pending@.len(),
            forall|i: int| 0 <= i < r@.len() ==> *(#[trigger] r@[i]) == final(self).pending@[i],
            exists|now: u64| final(self).pending@ == old(self).pending@.filter(live_by(now)),
            final(self).approved == old(self).approved,
            final(self).sessions == old(self).sessions,
            final(self).user_profiles == old(self).user_profiles,
    {
        self.prune_expired();
        let mut out: Vec<&PendingRequest> = Vec::new();
        let mut i: usize = 0;
        while i < self.pending.len()
            invariant
                i <= self.pending@.len(),
                out@.len() == i,
                forall|k: int| 0 <= k < i ==> *(#[trigger] out@[k]) == self.pending@[k],
            decreases self.pending@.len() - i,
        {
            out.push(&self.pending[i]);
            i += 1;
        }
        out
    }

    /// The session of a user, or `fresh` as the user's new session.
    pub fn get_or_create_session_with(&mut self, channel: &str, user_id: &str, fresh: String) -> (r:
        String)
        requires
            old(self).wf(),
        ensures
            final(self).wf(),
            final(self).pending == old(self).pending,
            final(self).approved == old(self).approved,
            final(self).user_profiles == old(self).user_profiles,
            ({
                let key = user_key_of(channel@, user_id@);
                if old(self).sessions@.contains_key(key) {
                    r@ == old(self).sessions@[key]@ && final(self).sessions == old(self).sessions
                } else {
                    r@ == fresh@ && final(self).sessions@ == old(self).sessions@.insert(key, fresh)
                }
            }),
    {
        let key = user_key(channel, user_id);
        match self.sessions.get(key.as_str()) {
            Some(session) => session.clone(),
            None => {
                let id = fresh.clone();
                self.sessions.insert(key, fresh);
                id
            },
        }
    }

    /// The session of a user, or a newly drawn one.
    pub fn get_or_create_session(&mut self, channel: &str, user_id: &str) -> (r: String)
        requires
            old(self).wf(),
        ensures
            final(self).wf(),
            final(self).pending == old(self).pending,
            final(self).approved == old(self).approved,
            final(self).user_profiles == old(self).user_profiles,
            final(self).sessions@.contains_key(user_key_of(channel@, user_id@)),
            final(self).sessions@[user_key_of(channel@, user_id@)]@ == r@,
            old(self).sessions@.contains_key(user_key_of(channel@, user_id@))
                ==> final(self).sessions == old(self).sessions,
            !old(self).sessions@.contains_key(user_key_of(channel@, user_id@)) ==> (exists|
                seed: u64,
            |
                r@ == session_id_of(seed)) && final(self).sessions@ == old(self).sessions@.insert(
                user_key_of(channel@, user_id@),
                final(self).sessions@[user_key_of(channel@, user_id@)],
            ),
    {
        let key = user_key(channel, user_id);
        if self.sessions.contains_key(key.as_str()) {
            return self.get_or_create_session_with(channel, user_id, String::new());
        }
        let fresh = generate_uuid();
        self.get_or_create_session_with(channel, user_id, fresh)
    }

    /// Forgets the session of a user, so that the next message starts a new
    /// conversation.
    pub fn reset_session(&mut self, channel: &str, user_id: &str)
        requires
            old(self).wf(),
        ensures
            final(self).wf(),
            final(self).sessions@ == old(self).sessions@.remove(user_key_of(channel@, user_id@)),
            final(self).pending == old(self).pending,
            final(self).approved == old(self).approved,
            final(self).user_profiles == old(self).user_profiles,
    {
        let key = user_key(channel, user_id);
        self.sessions.remove(key.as_str());
    }

    /// The profile of a user.
    pub fn get_user_profile(&self, channel: &str, user_id: &str) -> (r: Option<&UserProfile>)
        requires
            self.wf(),
        ensures
            r == if self.user_profiles@.contains_key(user_key_of(channel@, user_id@)) {
                Some(&self.user_profiles@[user_key_of(channel@, user_id@)])
            } else {
                None
            },
    {
        let key = user_key(channel, user_id);
        self.user_profiles.get(key.as_str())
    }

    /// The profile of a user, to change it; a blank profile is made where the
    /// user has none.
    pub fn get_or_create_user_profile(&mut self, channel: &str, user_id: &str) -> (r:
        &mut UserProfile)
        requires
            old(self).wf(),
        ensures
            final(self).wf(),
            *r == (if old(self).user_profiles@.contains_key(user_key_of(channel@, user_id@)) {
                old(self).user_profiles@[user_key_of(channel@, user_id@)]
            } else {
                UserProfile::blank()
            }),
            final(self).user_profiles@ == old(self).user_profiles@.insert(
                user_key_of(channel@, user_id@),
                *final(r),
            ),
            final(self).pending == old(self).pending,
            final(self).approved == old(self).approved,
            final(self).sessions == old(self).sessions,
    {
        let key = user_key(channel, user_id);
        let at = match self.user_profiles.position(key.as_str()) {
            Some(at) => at,
            None => {
                let at = self.user_profiles.len();
                self.user_profiles.insert(key, UserProfile::default());
                at
            },
        };
        self.user_profiles.value_at_mut(at)
    }

    /// Puts `profile` in place of what was known about a user.
    pub fn update_user_profile(&mut self, channel: &str, user_id: &str, profile: UserProfile)
        requires
            old(self).wf(),
        ensures
            final(self).wf(),
            final(self).user_profiles@ == old(self).user_profiles@.insert(
                user_key_of(channel@, user_id@),
                profile,
            ),
            final(self).pending == old(self).pending,
            final(self).approved == old(self).approved,
            final(self).sessions == old(self).sessions,
    {
        let key = user_key(channel, user_id);
        self.user_profiles.insert(key, profile);
    }

    /// Whether a user has a profile that says the introduction is over.
    pub fn is_user_onboarded(&self, channel: &str, user_id: &str) -> (r: bool)
        requires
            self.wf(),
        ensures
            r == (self.user_profiles@.contains_key(user_key_of(channel@, user_id@))
                && self.user_profiles@[user_key_of(channel@, user_id@)].onboarding_complete),
    {
        match self.get_user_profile(channel, user_id) {
            Some(profile) => profile.onboarding_complete,
            None => false,
        }
    }
}

} // verus!
