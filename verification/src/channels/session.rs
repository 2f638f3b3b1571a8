//! Outbound sessions: which numbers were called or written to, and until when
//! that counts.
use vstd::prelude::*;
use vstd::hash_map::StringHashMap;
use std::time::SystemTime;
use crate::clock::{epoch_seconds, unix_seconds};
use crate::text::{opt_str, opt_string, owned};

verus! {

/// How long a voice session counts (one hour).
pub const VOICE_SESSION_TTL_SECS: u64 = 3600;

/// How long an SMS session counts (half an hour).
pub const SMS_SESSION_TTL_SECS: u64 = 1800;

/// An active outbound call or SMS conversation.
#[derive(Debug, Clone)]
pub struct OutboundSession {
    /// Call or conversation ID from the AgentPhone API.
    pub call_id: String,
    /// Unix timestamp when the session was registered.
    pub started_at: u64,
    /// Purpose of this outbound contact.
    pub purpose: Option<String>,
    /// Time-to-live in seconds. The session is expired after `started_at + ttl_secs`.
    pub ttl_secs: u64,
}

/// What an outbound session records.
pub struct SessionModel {
    pub call_id: Seq<char>,
    pub started_at: u64,
    pub purpose: Option<Seq<char>>,
    pub ttl_secs: u64,
}

impl View for OutboundSession {
    type V = SessionModel;

    open spec fn view(&self) -> SessionModel {
        SessionModel {
            call_id: self.call_id@,
            started_at: self.started_at,
            purpose: opt_string(self.purpose),
            ttl_secs: self.ttl_secs,
        }
    }
}

impl SessionModel {
    /// Whether the session has ended by a given time.
    pub open spec fn expired(self, now: u64) -> bool {
        now > self.started_at + self.ttl_secs
    }
}

/// The time-to-live of a session of a given kind.
pub open spec fn session_ttl(is_voice: bool) -> u64 {
    if is_voice {
        VOICE_SESSION_TTL_SECS
    } else {
        SMS_SESSION_TTL_SECS
    }
}

impl OutboundSession {
    /// Whether the session has ended by the time `now`.
    pub fn is_expired_at(&self, now: u64) -> (expired: bool)
        ensures
            expired == self@.expired(now),
    {
        match self.started_at.checked_add(self.ttl_secs) {
            Some(end) => now > end,
            None => false,
        }
    }

    /// Whether the session has ended by now.
    pub fn is_expired(&self) -> (expired: bool)
        ensures
            exists|time: SystemTime| expired == self@.expired(#[trigger] epoch_seconds(time)),
    {
        let now = unix_seconds();
        self.is_expired_at(now)
    }
}

/// The outbound sessions, by phone number.
pub struct OutboundSessionTracker {
    sessions: StringHashMap<OutboundSession>,
}

impl View for OutboundSessionTracker {
    type V = Map<Seq<char>, SessionModel>;

    closed spec fn view(&self) -> Map<Seq<char>, SessionModel> {
        self.sessions@.map_values(|s: OutboundSession| s@)
    }
}

/// Whether a number has a session that has not ended.
pub open spec fn active_at(
    sessions: Map<Seq<char>, SessionModel>,
    phone: Seq<char>,
    now: u64,
) -> bool {
    sessions.contains_key(phone) && !sessions[phone].expired(now)
}

/// The purpose of a number's session, where it has one that has not ended.
pub open spec fn active_purpose(
    sessions: Map<Seq<char>, SessionModel>,
    phone: Seq<char>,
    now: u64,
) -> Option<Seq<char>> {
    if active_at(sessions, phone, now) {
        sessions[phone].purpose
    } else {
        None
    }
}

/// The session that registering a contact at a given time makes.
pub open spec fn new_session(
    call_id: Seq<char>,
    purpose: Option<Seq<char>>,
    is_voice: bool,
    now: u64,
) -> SessionModel {
    SessionModel { call_id, started_at: now, purpose, ttl_secs: session_ttl(is_voice) }
}

/// Create a new outbound session tracker.
pub fn new_outbound_tracker() -> (tracker: OutboundSessionTracker)
    ensures
        tracker@ == Map::<Seq<char>, SessionModel>::empty(),
{
    let tracker = OutboundSessionTracker { sessions: StringHashMap::new() };
    assert(tracker@ =~= Map::empty());
    tracker
}

impl OutboundSessionTracker {
    /// The session of a number, ended or not.
    pub fn get(&self, phone: &str) -> (session: Option<&OutboundSession>)
        ensures
            match session {
                Some(s) => self@.contains_key(phone@) && self@[phone@] == s@,
                None => !self@.contains_key(phone@),
            },
    {
        self.sessions.get(phone)
    }

    /// Whether `phone` has a session that has not ended by `now`.
    pub fn is_active_at(&self, phone: &str, now: u64) -> (active: bool)
        ensures
            active == active_at(self@, phone@, now),
    {
        match self.get(phone) {
            Some(session) => !session.is_expired_at(now),
            None => false,
        }
    }

    /// The purpose of the session of `phone`, if it has not ended by `now`.
    pub fn purpose_at(&self, phone: &str, now: u64) -> (purpose: Option<String>)
        ensures
            opt_string(purpose) == active_purpose(self@, phone@, now),
    {
        match self.get(phone) {
            Some(session) => if session.is_expired_at(now) {
                None
            } else {
                owned(crate::text::borrowed(&session.purpose))
            },
            None => None,
        }
    }

    /// Registers a contact with `phone` at the time `now`, in place of an
    /// earlier one.
    pub fn register_at(
        &mut self,
        phone: &str,
        call_id: &str,
        purpose: Option<&str>,
        is_voice: bool,
        now: u64,
    )
        ensures
            final(self)@ == old(self)@.insert(
                phone@,
                new_session(call_id@, opt_str(purpose), is_voice, now),
            ),
    {
        let ttl: u64 = if is_voice {
            VOICE_SESSION_TTL_SECS
        } else {
            SMS_SESSION_TTL_SECS
        };
        let session = OutboundSession {
            call_id: call_id.to_string(),
            started_at: now,
            purpose: owned(purpose),
            ttl_secs: ttl,
        };
        let ghost before = self@;
        self.sessions.insert(phone.to_string(), session);
        assert(self@ =~= before.insert(
            phone@,
            new_session(call_id@, opt_str(purpose), is_voice, now),
        ));
    }

    /// Forgets the session of `phone`.
    pub fn clear(&mut self, phone: &str)
        ensures
            final(self)@ == old(self)@.remove(phone@),
    {
        let ghost before = self@;
        self.sessions.remove(phone);
        assert(self@ =~= before.remove(phone@));
    }
}

/// A registered contact is active with its purpose from the time of its
/// registration until its time-to-live is over, and not after that. Sessions of
/// other numbers are as before.
pub proof fn law_registered_session_is_active(
    sessions: Map<Seq<char>, SessionModel>,
    phone: Seq<char>,
    call_id: Seq<char>,
    purpose: Option<Seq<char>>,
    is_voice: bool,
    started: u64,
    now: u64,
)
    ensures
        ({
            let after = sessions.insert(phone, new_session(call_id, purpose, is_voice, started));
            &&& active_at(after, phone, now) <==> now <= started + session_ttl(is_voice)
            &&& now <= started + session_ttl(is_voice) ==> active_purpose(after, phone, now)
                == purpose
            &&& now > started + session_ttl(is_voice) ==> active_purpose(after, phone, now) is None
            &&& forall|other: Seq<char>| #![trigger active_at(after, other, now)]
                other != phone ==> active_at(after, other, now) == active_at(sessions, other, now)
            &&& forall|other: Seq<char>| #![trigger active_purpose(after, other, now)]
                other != phone ==> active_purpose(after, other, now) == active_purpose(
                    sessions,
                    other,
                    now,
                )
        }),
{
}

/// A cleared number has no active session, and the sessions of other numbers
/// are as before.
pub proof fn law_cleared_session_is_gone(
    sessions: Map<Seq<char>, SessionModel>,
    phone: Seq<char>,
    now: u64,
)
    ensures
        ({
            let after = sessions.remove(phone);
            &&& !active_at(after, phone, now)
            &&& active_purpose(after, phone, now) is None
            &&& forall|other: Seq<char>| #![trigger active_at(after, other, now)]
                other != phone ==> active_at(after, other, now) == active_at(sessions, other, now)
        }),
{
}

/// No number has an active session in a new tracker.
pub proof fn law_new_tracker_is_empty(phone: Seq<char>, now: u64)
    ensures
        !active_at(Map::empty(), phone, now),
        active_purpose(Map::empty(), phone, now) is None,
{
}

/// A session that has ended stays ended.
pub proof fn law_expiry_is_final(session: SessionModel, now: u64, later: u64)
    requires
        now <= later,
    ensures
        session.expired(now) ==> session.expired(later),
{
}

/// A call counts for an hour and an SMS for half an hour from when it was
/// registered, up to and with the last second, and what was registered is kept
/// as it was given.
pub proof fn law_sessions_last_their_time(
    sessions: Map<Seq<char>, SessionModel>,
    phone: Seq<char>,
    call_id: Seq<char>,
    purpose: Option<Seq<char>>,
    started: u64,
    now: u64,
)
    ensures
        ({
            let call = sessions.insert(phone, new_session(call_id, purpose, true, started));
            let sms = sessions.insert(phone, new_session(call_id, purpose, false, started));
            &&& active_at(call, phone, now) <==> now <= started + 3600
            &&& active_at(sms, phone, now) <==> now <= started + 1800
            &&& active_purpose(call, phone, now) == if now <= started + 3600 {
                purpose
            } else {
                None
            }
            &&& active_purpose(sms, phone, now) == if now <= started + 1800 {
                purpose
            } else {
                None
            }
            &&& call[phone].call_id == call_id && sms[phone].call_id == call_id
            &&& call[phone].started_at == started && sms[phone].started_at == started
        }),
{
}

/// A number that was not registered has no active session and no purpose.
pub proof fn law_unregistered_number_is_inactive(
    sessions: Map<Seq<char>, SessionModel>,
    phone: Seq<char>,
    now: u64,
)
    requires
        !sessions.contains_key(phone),
    ensures
        !active_at(sessions, phone, now),
        active_purpose(sessions, phone, now) is None,
{
}

} // verus!
