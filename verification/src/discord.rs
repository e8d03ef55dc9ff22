//! Outcome classification for redeem attempts, session profiles, shared
//! coordination state, and the per-event pipeline decisions.

use vstd::prelude::*;

use vstd::assert_sets_equal;

use crate::logging::{LogBlock, Severity};
use crate::decimal::dec_rep;
use crate::decimal::u64_to_dec;

verus! {

/// The classified result of one redeem attempt.
#[derive(Clone, Copy, PartialEq, Eq, Structural, Debug)]
pub enum SnipeResult {
    Success,
    FakeOrExpired,
    AlreadyRedeemed,
    RateLimited,
    DiscordError,
    ConnectionError,
    Unknown,
}

/// The single authoritative mapping from a redeem response to an outcome.
/// `None` stands for a transport failure with no response at all.
pub open spec fn spec_classify(status: Option<u16>) -> SnipeResult {
    match status {
        None => SnipeResult::ConnectionError,
        Some(s) => if s == 200 {
            SnipeResult::Success
        } else if s == 405 {
            SnipeResult::DiscordError
        } else if s == 404 {
            SnipeResult::FakeOrExpired
        } else if s == 400 {
            SnipeResult::AlreadyRedeemed
        } else if s == 429 {
            SnipeResult::RateLimited
        } else {
            SnipeResult::Unknown
        },
    }
}

/// Classifies the result of a redeem request.
pub fn classify_response(status: Option<u16>) -> (r: SnipeResult)
    ensures
        r == spec_classify(status),
{
    match status {
        None => SnipeResult::ConnectionError,
        Some(s) => {
            if s == 200 {
                SnipeResult::Success
            } else if s == 405 {
                SnipeResult::DiscordError
            } else if s == 404 {
                SnipeResult::FakeOrExpired
            } else if s == 400 {
                SnipeResult::AlreadyRedeemed
            } else if s == 429 {
                SnipeResult::RateLimited
            } else {
                SnipeResult::Unknown
            }
        },
    }
}

/// The outcome table is total and deterministic: every status (and the
/// transport-failure case) maps to exactly one outcome, the known statuses
/// to their listed outcomes and every other status to `Unknown`.
pub proof fn lemma_classification_total_and_deterministic(a: Option<u16>, b: Option<u16>)
    ensures
        a == b ==> spec_classify(a) == spec_classify(b),
        spec_classify(None) == SnipeResult::ConnectionError,
        spec_classify(Some(200u16)) == SnipeResult::Success,
        spec_classify(Some(400u16)) == SnipeResult::AlreadyRedeemed,
        spec_classify(Some(404u16)) == SnipeResult::FakeOrExpired,
        spec_classify(Some(405u16)) == SnipeResult::DiscordError,
        spec_classify(Some(429u16)) == SnipeResult::RateLimited,
        forall|s: u16|
            s != 200 && s != 400 && s != 404 && s != 405 && s != 429 ==> spec_classify(Some(s))
                == SnipeResult::Unknown,
{
}

/// The view of an optional string.
pub open spec fn opt_view(o: Option<String>) -> Option<Seq<char>> {
    match o {
        Some(s) => Some(s@),
        None => None,
    }
}

/// The identity of one session, resolved once at startup and immutable
/// afterwards.
#[derive(Clone, Debug)]
pub struct Profile {
    pub username: String,
    pub avatar: Option<String>,
    pub id: String,
}

/// The avatar address a profile presents: its own avatar when it has one,
/// the platform default otherwise.
pub open spec fn spec_face(p: Profile) -> Seq<char> {
    match p.avatar {
        Some(a) => "https://cdn.discordapp.com/avatars/"@ + p.id@ + "/"@ + a@ + ".webp"@,
        None => "https://discordapp.com/assets/6debd47ed13483642cf09e832ed0bc1b.png"@,
    }
}

impl Profile {
    pub fn new(username: String, avatar: Option<String>, id: String) -> (p: Profile)
        ensures
            p.username@ == username@,
            opt_view(p.avatar) == opt_view(avatar),
            p.id@ == id@,
    {
        Profile { username, avatar, id }
    }

    fn get_avatar(&self) -> (r: Option<String>)
        ensures
            opt_view(r) == opt_view(self.avatar),
    {
        match &self.avatar {
            Some(a) => Some(a.clone()),
            None => None,
        }
    }

    /// The avatar address shown beside this profile's name.
    pub fn face(&self) -> (r: String)
        ensures
            r@ == spec_face(*self),
    {
        match self.get_avatar() {
            Some(a) => {
                let mut s = String::from_str("https://cdn.discordapp.com/avatars/");
                s.append(self.id.as_str());
                s.append("/");
                s.append(a.as_str());
                s.append(".webp");
                proof {
                    assert(s@ =~= spec_face(*self));
                }
                s
            },
            None => String::from_str(
                "https://discordapp.com/assets/6debd47ed13483642cf09e832ed0bc1b.png",
            ),
        }
    }

    /// The display name of this profile.
    pub fn display_name(&self) -> (r: String)
        ensures
            r@ == self.username@,
    {
        self.username.clone()
    }
}

/// Why the startup profile fetch failed.
#[derive(Clone, Copy, PartialEq, Eq, Structural, Debug)]
pub enum ProfileError {
    Unauthorized,
    RateLimited,
    ConnectionError,
    Other,
}

/// How a profile-fetch response is classified: `None` means the request
/// succeeded and the body may be parsed; `Some(e)` names the fatal error.
/// A `None` status stands for a transport failure with no response.
pub open spec fn spec_profile_classify(status: Option<u16>) -> Option<ProfileError> {
    match status {
        None => Some(ProfileError::ConnectionError),
        Some(s) => if s == 200 {
            None
        } else if s == 401 {
            Some(ProfileError::Unauthorized)
        } else if s == 429 {
            Some(ProfileError::RateLimited)
        } else {
            Some(ProfileError::Other)
        },
    }
}

/// Classifies the status of the startup profile fetch.
pub fn classify_profile_response(status: Option<u16>) -> (r: Option<ProfileError>)
    ensures
        r == spec_profile_classify(status),
{
    match status {
        None => Some(ProfileError::ConnectionError),
        Some(s) => {
            if s == 200 {
                None
            } else if s == 401 {
                Some(ProfileError::Unauthorized)
            } else if s == 429 {
                Some(ProfileError::RateLimited)
            } else {
                Some(ProfileError::Other)
            }
        },
    }
}

/// The fatal message announced for each startup failure.
pub open spec fn spec_fatal_message(e: ProfileError) -> Seq<char> {
    match e {
        ProfileError::Unauthorized => "Main token verification failed. Check token validity."@,
        ProfileError::RateLimited => "Rate-limited. Try again later..."@,
        ProfileError::ConnectionError => "Connection failed. Check network connection!"@,
        ProfileError::Other => "Received unknown response for Discord..."@,
    }
}

impl ProfileError {
    /// The message to announce before the process exits over this error.
    pub fn fatal_message(&self) -> (r: String)
        ensures
            r@ == spec_fatal_message(*self),
    {
        match self {
            ProfileError::Unauthorized => String::from_str(
                "Main token verification failed. Check token validity.",
            ),
            ProfileError::RateLimited => String::from_str("Rate-limited. Try again later..."),
            ProfileError::ConnectionError => String::from_str(
                "Connection failed. Check network connection!",
            ),
            ProfileError::Other => String::from_str("Received unknown response for Discord..."),
        }
    }
}

/// True when one of the strings in `codes` has the view `c`.
pub open spec fn spec_holds(codes: Seq<String>, c: Seq<char>) -> bool {
    exists|k: int| 0 <= k < codes.len() && codes[k]@ == c
}

fn contains_code(codes: &Vec<String>, code: &String) -> (r: bool)
    ensures
        r == spec_holds(codes@, code@),
{
    let mut i: usize = 0;
    while i < codes.len()
        invariant
            0 <= i <= codes@.len(),
            forall|k: int| 0 <= k < i ==> codes@[k]@ != code@,
        decreases codes@.len() - i,
    {
        if codes[i].eq(code) {
            return true;
        }
        i = i + 1;
    }
    false
}

/// The coordination state all sessions of one process share: the dedup set
/// of already-claimed codes and the readiness counters.
pub struct HandlerInfo {
    pub seen_codes: Vec<String>,
    pub token_amount: usize,
    pub connected: usize,
    pub total_guilds: usize,
}

impl HandlerInfo {
    /// The set of code strings already claimed by this process.
    pub open spec fn seen(&self) -> Set<Seq<char>> {
        Set::new(|c: Seq<char>| spec_holds(self.seen_codes@, c))
    }

    /// Fresh coordination state for a fixed number of credentials: nothing
    /// claimed, no session ready yet.
    pub fn new(token_amount: usize) -> (info: HandlerInfo)
        ensures
            info.seen() =~= Set::<Seq<char>>::empty(),
            info.token_amount == token_amount,
            info.connected == 0,
            info.total_guilds == 0,
    {
        HandlerInfo { seen_codes: Vec::new(), token_amount, connected: 0, total_guilds: 0 }
    }

    /// Atomically tests membership of `code` in the dedup set and inserts it
    /// if absent. Granted exactly to the caller that performed the
    /// insertion: every later call for the same code is refused, and the set
    /// only ever grows.
    pub fn try_claim(&mut self, code: &String) -> (granted: bool)
        ensures
            granted == !old(self).seen().contains(code@),
            final (self).seen() =~= old(self).seen().insert(code@),
            old(self).seen().subset_of(final (self).seen()),
            !granted ==> *final (self) == *old(self),
            final (self).token_amount == old(self).token_amount,
            final (self).connected == old(self).connected,
            final (self).total_guilds == old(self).total_guilds,
    {
        if contains_code(&self.seen_codes, code) {
            proof {
                assert(old(self).seen().contains(code@));
                assert_sets_equal!(self.seen() == old(self).seen().insert(code@), c => {
                    if c == code@ {
                        assert(self.seen().contains(c));
                    }
                });
            }
            false
        } else {
            self.seen_codes.push(code.clone());
            proof {
                assert(self.seen_codes@ == old(self).seen_codes@.push(*code));
                assert(self.seen_codes@[old(self).seen_codes@.len() as int]@ == code@);
                assert_sets_equal!(self.seen() == old(self).seen().insert(code@), c => {
                    if self.seen().contains(c) {
                        let k = choose|k: int|
                            0 <= k < self.seen_codes@.len() && self.seen_codes@[k]@ == c;
                        if k < old(self).seen_codes@.len() {
                            assert(old(self).seen_codes@[k]@ == c);
                            assert(old(self).seen().contains(c));
                        } else {
                            assert(c == code@);
                        }
                    }
                    if old(self).seen().insert(code@).contains(c) {
                        if c == code@ {
                            assert(self.seen().contains(c));
                        } else {
                            let k = choose|k: int|
                                0 <= k < old(self).seen_codes@.len() && old(
                                    self,
                                ).seen_codes@[k]@ == c;
                            assert(self.seen_codes@[k]@ == c);
                            assert(self.seen().contains(c));
                        }
                    }
                });
            }
            true
        }
    }

    /// Records one session's readiness: the connected count rises by one and
    /// the session's guild count joins the aggregate. Each session reports
    /// exactly once, so at most `token_amount` calls are ever made. Returns
    /// whether the aggregate announcement is owed (every account of a
    /// multi-account run is now connected).
    pub fn record_session_ready(&mut self, guild_count: usize) -> (announce: bool)
        requires
            old(self).connected < old(self).token_amount,
            old(self).total_guilds + guild_count <= usize::MAX,
        ensures
            final (self).connected == old(self).connected + 1,
            final (self).total_guilds == old(self).total_guilds + guild_count,
            final (self).token_amount == old(self).token_amount,
            final (self).seen_codes@ == old(self).seen_codes@,
            announce == (old(self).connected + 1 == old(self).token_amount
                && old(self).token_amount > 1),
    {
        self.connected = self.connected + 1;
        self.total_guilds = self.total_guilds + guild_count;
        self.connected == self.token_amount && self.token_amount > 1
    }
}

/// How many of the `attempts` for `code`, resolved in the order the dedup
/// set serialized them, are granted, when each attempt is granted exactly
/// if its code is not yet in the set and then inserts it — the model of
/// `HandlerInfo::try_claim` applied once per delivery.
pub open spec fn spec_granted_count(
    seen: Set<Seq<char>>,
    attempts: Seq<Seq<char>>,
    code: Seq<char>,
) -> nat
    decreases attempts.len(),
{
    if attempts.len() == 0 {
        0
    } else {
        (if attempts[0] == code && !seen.contains(attempts[0]) {
            1nat
        } else {
            0nat
        }) + spec_granted_count(seen.insert(attempts[0]), attempts.drop_first(), code)
    }
}

/// However many deliveries of one code race, in whatever order the dedup
/// set serializes them: the claim is granted exactly once when the code is
/// new and attempted at all, and never when it is already in the set.
pub proof fn lemma_claim_granted_exactly_once(
    seen: Set<Seq<char>>,
    attempts: Seq<Seq<char>>,
    code: Seq<char>,
)
    ensures
        spec_granted_count(seen, attempts, code) == if !seen.contains(code)
            && attempts.contains(code) {
            1nat
        } else {
            0nat
        },
    decreases attempts.len(),
{
    if attempts.len() == 0 {
        assert(!attempts.contains(code));
    } else {
        let first = attempts[0];
        let rest = attempts.drop_first();
        lemma_claim_granted_exactly_once(seen.insert(first), rest, code);
        assert(attempts.contains(first));
        if rest.contains(code) {
            let k = choose|k: int| 0 <= k < rest.len() && rest[k] == code;
            assert(attempts[k + 1] == code);
            assert(attempts.contains(code));
        }
        if attempts.contains(code) && first != code {
            let k = choose|k: int| 0 <= k < attempts.len() && attempts[k] == code;
            assert(rest[k - 1] == code);
            assert(rest.contains(code));
        }
    }
}

/// One session's identity: unknown until its first handshake, then being
/// resolved, then fixed for the session's lifetime.
pub enum SessionState {
    Uninitialized,
    Initializing,
    Ready(Profile),
}

impl SessionState {
    pub fn new() -> (s: SessionState)
        ensures
            s is Uninitialized,
    {
        SessionState::Uninitialized
    }

    /// Marks the one-time identity resolution as started.
    pub fn begin_initializing(&mut self)
        requires
            *old(self) is Uninitialized,
        ensures
            *final (self) is Initializing,
    {
        *self = SessionState::Initializing;
    }

    /// Fixes the session's identity, exactly once.
    pub fn complete(&mut self, profile: Profile)
        requires
            *old(self) is Initializing,
        ensures
            (*final (self) matches SessionState::Ready(p) && p == profile),
    {
        *self = SessionState::Ready(profile);
    }

    /// The resolved identity; reads are gated on readiness.
    pub fn profile(&self) -> (r: Option<&Profile>)
        ensures
            (match self {
                SessionState::Ready(p) => r == Some(p),
                _ => r is None,
            }),
    {
        match self {
            SessionState::Ready(p) => Some(p),
            _ => None,
        }
    }

    pub fn is_uninitialized(&self) -> (r: bool)
        ensures
            r == (*self is Uninitialized),
    {
        match self {
            SessionState::Uninitialized => true,
            _ => false,
        }
    }

    pub fn is_ready(&self) -> (r: bool)
        ensures
            r == (*self is Ready),
    {
        match self {
            SessionState::Ready(_) => true,
            _ => false,
        }
    }
}

/// One inbound chat event, reduced to the plain values the pipeline reads:
/// the identifiers of the message, its author, its channel and (for a
/// server message) its server, the author's display tag, and the raw text.
pub struct ChatEvent {
    pub message_id: u64,
    pub author_id: u64,
    pub author_tag: String,
    pub channel_id: u64,
    pub guild_id: Option<u64>,
    pub content: String,
}

/// The informational entry announcing a claim attempt for `code`.
pub open spec fn spec_claim_line(code: Seq<char>) -> Seq<char> {
    "Claiming code: "@ + code + "!"@
}

/// Appends the entry announcing that this session claims `code`.
pub fn announce_claim<'a>(log: &mut LogBlock<'a>, code: &String)
    requires
        !old(log).flushed,
    ensures
        final (log).entries() =~= old(log).entries().push(
            (Severity::Info, spec_claim_line(code@), false),
        ),
        final (log).start_ms == old(log).start_ms,
        final (log).profile == old(log).profile,
        final (log).elapsed == old(log).elapsed,
        final (log).flushed == old(log).flushed,
{
    let mut text = String::from_str("Claiming code: ");
    text.append(code.as_str());
    text.append("!");
    proof {
        assert(text@ =~= spec_claim_line(code@));
    }
    log.add_message(Severity::Info, text, false);
}

/// The first entry recorded for an unclassified response: the numeric
/// status and, when the platform supplied one, its canonical reason text.
pub open spec fn spec_unknown_line(status: u16, reason: Option<Seq<char>>) -> Seq<char> {
    "Received unknown response... ("@ + dec_rep(status as nat) + (match reason {
        Some(r) => " "@ + r,
        None => Seq::<char>::empty(),
    }) + ")"@
}

/// The second entry recorded for an unclassified response: the captured
/// body, or the note that none could be read.
pub open spec fn spec_body_line(body: Option<Seq<char>>) -> Seq<char> {
    match body {
        Some(b) => "...with this body: "@ + b,
        None => "...and couldn't parse the body of the response."@,
    }
}

/// Every entry that one redeem response adds to the event's log block; text
/// and severity derive from the same classification as the outcome itself.
pub open spec fn spec_response_entries(
    status: Option<u16>,
    reason: Option<Seq<char>>,
    body: Option<Seq<char>>,
) -> Seq<(Severity, Seq<char>, bool)> {
    match spec_classify(status) {
        SnipeResult::Success => seq![(Severity::Info, "Yay! Claimed code!"@, true)],
        SnipeResult::DiscordError => seq![
            (Severity::Error, "There was an error on Discord's side."@, false),
        ],
        SnipeResult::FakeOrExpired => seq![(Severity::Warn, "Code was fake or expired."@, false)],
        SnipeResult::AlreadyRedeemed => seq![
            (Severity::Error, "Code was already redeemed."@, false),
        ],
        SnipeResult::RateLimited => seq![(Severity::Warn, "Rate-limited..."@, false)],
        SnipeResult::ConnectionError => seq![
            (Severity::Warn, "Connection failed. Check network connection!"@, false),
        ],
        SnipeResult::Unknown => seq![
            (Severity::Error, spec_unknown_line(status->Some_0, reason), false),
            (Severity::Error, spec_body_line(body), false),
        ],
    }
}

/// Classifies one redeem response and appends the entries describing it to
/// the event's log block. The outcome, the log text and the severity all
/// derive from the one classification. `reason` is the canonical reason
/// text of the status, `body` the captured response body; both matter only
/// for an unclassified response.
pub fn record_response<'a>(
    log: &mut LogBlock<'a>,
    status: Option<u16>,
    reason: Option<String>,
    body: Option<String>,
) -> (r: SnipeResult)
    requires
        !old(log).flushed,
    ensures
        r == spec_classify(status),
        final (log).entries() =~= old(log).entries() + spec_response_entries(
            status,
            opt_view(reason),
            opt_view(body),
        ),
        final (log).start_ms == old(log).start_ms,
        final (log).profile == old(log).profile,
        final (log).elapsed == old(log).elapsed,
        final (log).flushed == old(log).flushed,
{
    match status {
        None => {
            log.add_message(
                Severity::Warn,
                String::from_str("Connection failed. Check network connection!"),
                false,
            );
            SnipeResult::ConnectionError
        },
        Some(st) => {
            if st == 200 {
                log.add_message(Severity::Info, String::from_str("Yay! Claimed code!"), true);
                SnipeResult::Success
            } else if st == 405 {
                log.add_message(
                    Severity::Error,
                    String::from_str("There was an error on Discord's side."),
                    false,
                );
                SnipeResult::DiscordError
            } else if st == 404 {
                log.add_message(
                    Severity::Warn,
                    String::from_str("Code was fake or expired."),
                    false,
                );
                SnipeResult::FakeOrExpired
            } else if st == 400 {
                log.add_message(
                    Severity::Error,
                    String::from_str("Code was already redeemed."),
                    false,
                );
                SnipeResult::AlreadyRedeemed
            } else if st == 429 {
                log.add_message(Severity::Warn, String::from_str("Rate-limited..."), false);
                SnipeResult::RateLimited
            } else {
                let mut text = String::from_str("Received unknown response... (");
                let digits = u64_to_dec(st as u64);
                text.append(digits.as_str());
                match &reason {
                    Some(rr) => {
                        text.append(" ");
                        text.append(rr.as_str());
                    },
                    None => {},
                }
                text.append(")");
                proof {
                    assert(text@ =~= spec_unknown_line(st, opt_view(reason)));
                }
                log.add_message(Severity::Error, text, false);
                let body_text = match body {
                    Some(b) => {
                        let mut t = String::from_str("...with this body: ");
                        t.append(b.as_str());
                        t
                    },
                    None => String::from_str("...and couldn't parse the body of the response."),
                };
                log.add_message(Severity::Error, body_text, false);
                SnipeResult::Unknown
            }
        },
    }
}

/// The decision gate of the per-event pipeline: an event proceeds to the
/// redeem request exactly when its server is not excluded, a candidate code
/// was extracted, and this process has not claimed that code before. A
/// refused event changes nothing and triggers no further work; an accepted
/// one claims its code in the dedup set before any request is made.
pub fn should_attempt(excluded: bool, code: Option<String>, info: &mut HandlerInfo) -> (r: Option<
    String,
>)
    ensures
        (r is Some <==> (!excluded && code is Some && !old(info).seen().contains(
            code->Some_0@,
        ))),
        r is Some ==> r->Some_0@ == code->Some_0@,
        r is Some ==> final (info).seen() =~= old(info).seen().insert(code->Some_0@),
        r is None ==> *final (info) == *old(info),
        final (info).token_amount == old(info).token_amount,
        final (info).connected == old(info).connected,
        final (info).total_guilds == old(info).total_guilds,
{
    if excluded {
        return None;
    }
    match code {
        None => None,
        Some(c) => {
            if info.try_claim(&c) {
                Some(c)
            } else {
                None
            }
        },
    }
}

/// Deduplicates the configured credential list: the result holds each
/// distinct credential of the input exactly once.
pub fn dedup_tokens(tokens: Vec<String>) -> (r: Vec<String>)
    ensures
        forall|a: int, b: int| 0 <= a < b < r@.len() ==> r@[a]@ != r@[b]@,
        forall|a: int| 0 <= a < r@.len() ==> spec_holds(tokens@, r@[a]@),
        forall|k: int| 0 <= k < tokens@.len() ==> spec_holds(r@, tokens@[k]@),
{
    let mut out: Vec<String> = Vec::new();
    let mut i: usize = 0;
    while i < tokens.len()
        invariant
            0 <= i <= tokens@.len(),
            forall|a: int, b: int| 0 <= a < b < out@.len() ==> out@[a]@ != out@[b]@,
            forall|a: int| 0 <= a < out@.len() ==> spec_holds(tokens@, out@[a]@),
            forall|k: int| 0 <= k < i ==> spec_holds(out@, tokens@[k]@),
        decreases tokens@.len() - i,
    {
        let t = tokens[i].clone();
        proof {
            assert(t@ == tokens@[i as int]@);
        }
        if !contains_code(&out, &t) {
            let ghost prev = out@;
            out.push(t);
            proof {
                assert(out@[prev.len() as int]@ == tokens@[i as int]@);
                assert(forall|a: int| 0 <= a < prev.len() ==> out@[a]@ == prev[a]@);
                assert(spec_holds(tokens@, out@[prev.len() as int]@));
            }
        }
        i = i + 1;
    }
    out
}

} // verus!
