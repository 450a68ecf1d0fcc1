//! Per-guild voice-session registry.
//!
//! For every guild the bot is connected to, the registry holds the occupied
//! voice channel, an idle-minute counter, and the queue of transient audio
//! resources whose release is owed once their track finishes playing. A guild
//! holds at most one session; absence from the registry means "not connected".
//! The idle counter is advanced by [`IdleDurations::tick`] once per timer
//! period and reset by playback activity; when it would reach
//! [`IDLE_LEAVE_THRESHOLD`] the session is removed (auto-leave).

use vstd::prelude::*;

verus! {

/// Number of consecutive idle ticks after which a session auto-leaves.
pub const IDLE_LEAVE_THRESHOLD: u64 = 10;

/// Errors raised by session-registry transitions.
#[derive(Clone, Copy, Debug, PartialEq, Eq, Structural)]
pub enum SessionError {
    /// A `join` was asked of a guild that already holds a session.
    AlreadyConnected,
    /// A `leave` or playback note was asked of a guild with no session.
    NotConnected,
}

/// Abstract state of one guild's session: the occupied channel, the idle
/// counter, and the identifiers of transient audio resources not yet released.
#[verifier::ext_equal]
pub struct SessionView {
    pub channel_id: u64,
    pub idle_minutes: u64,
    pub pending_tracks: Seq<u64>,
}

impl SessionView {
    /// The session created by a successful join: idle counter at zero,
    /// nothing pending.
    pub open spec fn fresh(channel_id: u64) -> SessionView {
        SessionView { channel_id, idle_minutes: 0, pending_tracks: Seq::empty() }
    }

    /// One idle tick elapsed.
    pub open spec fn bump_idle(self) -> SessionView {
        SessionView { idle_minutes: (self.idle_minutes + 1) as u64, ..self }
    }

    /// A track was enqueued: the idle counter resets and the track's
    /// transient resource becomes pending.
    pub open spec fn with_enqueued(self, track_id: u64) -> SessionView {
        SessionView {
            idle_minutes: 0,
            pending_tracks: self.pending_tracks.push(track_id),
            ..self
        }
    }

    /// A track finished playing: the idle counter resets and the first
    /// pending occurrence of the track's resource is released.
    pub open spec fn with_track_ended(self, track_id: u64) -> SessionView {
        SessionView {
            idle_minutes: 0,
            pending_tracks: remove_first_match(self.pending_tracks, track_id),
            ..self
        }
    }
}

/// The sequence with its first occurrence of `x` removed, or unchanged if
/// `x` does not occur.
pub open spec fn remove_first_match(s: Seq<u64>, x: u64) -> Seq<u64>
    decreases s.len(),
{
    if s.len() == 0 {
        s
    } else if s[0] == x {
        s.drop_first()
    } else {
        seq![s[0]] + remove_first_match(s.drop_first(), x)
    }
}

/// One guild's session record.
pub struct GuildVoiceSession {
    channel_id: u64,
    idle_minutes: u64,
    pending_tracks: Vec<u64>,
}

impl View for GuildVoiceSession {
    type V = SessionView;

    closed spec fn view(&self) -> SessionView {
        SessionView {
            channel_id: self.channel_id,
            idle_minutes: self.idle_minutes,
            pending_tracks: self.pending_tracks@,
        }
    }
}

impl GuildVoiceSession {
    /// The voice channel this session occupies.
    pub fn channel_id(&self) -> (c: u64)
        ensures
            c == self@.channel_id,
    {
        self.channel_id
    }

    /// Minutes the session has been idle since the last playback activity.
    pub fn idle_minutes(&self) -> (m: u64)
        ensures
            m == self@.idle_minutes,
    {
        self.idle_minutes
    }

    /// Identifiers of the transient audio resources still owed a release.
    pub fn pending_tracks(&self) -> (t: &Vec<u64>)
        ensures
            t@ == self@.pending_tracks,
    {
        &self.pending_tracks
    }
}

/// Effect of `join` on the registry state: rejected if the guild already
/// holds a session, otherwise a fresh session on the requested channel.
pub open spec fn spec_join(m: Map<u64, SessionView>, guild_id: u64, channel_id: u64) -> (
    Map<u64, SessionView>,
    Result<(), SessionError>,
) {
    if m.contains_key(guild_id) {
        (m, Err(SessionError::AlreadyConnected))
    } else {
        (m.insert(guild_id, SessionView::fresh(channel_id)), Ok(()))
    }
}

/// Effect of `leave`: rejected if the guild holds no session, otherwise the
/// session is removed and handed back.
pub open spec fn spec_leave(m: Map<u64, SessionView>, guild_id: u64) -> (
    Map<u64, SessionView>,
    Result<SessionView, SessionError>,
) {
    if m.contains_key(guild_id) {
        (m.remove(guild_id), Ok(m[guild_id]))
    } else {
        (m, Err(SessionError::NotConnected))
    }
}

/// Effect of one idle tick: no session means nothing happens; a counter one
/// step short of the threshold means auto-leave; otherwise the counter
/// advances by one.
pub open spec fn spec_tick(m: Map<u64, SessionView>, guild_id: u64) -> Map<u64, SessionView> {
    if !m.contains_key(guild_id) {
        m
    } else if m[guild_id].idle_minutes + 1 >= IDLE_LEAVE_THRESHOLD {
        m.remove(guild_id)
    } else {
        m.insert(guild_id, m[guild_id].bump_idle())
    }
}

/// Effect of a successful enqueue note: rejected without a session,
/// otherwise the idle counter resets and the track becomes pending.
pub open spec fn spec_enqueue(m: Map<u64, SessionView>, guild_id: u64, track_id: u64) -> (
    Map<u64, SessionView>,
    Result<(), SessionError>,
) {
    if m.contains_key(guild_id) {
        (m.insert(guild_id, m[guild_id].with_enqueued(track_id)), Ok(()))
    } else {
        (m, Err(SessionError::NotConnected))
    }
}

/// Effect of a track-end note: without a session nothing happens and nothing
/// is released; otherwise the idle counter resets, and the track's resource
/// is released exactly when it was pending.
pub open spec fn spec_track_end(m: Map<u64, SessionView>, guild_id: u64, track_id: u64) -> (
    Map<u64, SessionView>,
    bool,
) {
    if m.contains_key(guild_id) {
        (
            m.insert(guild_id, m[guild_id].with_track_ended(track_id)),
            m[guild_id].pending_tracks.contains(track_id),
        )
    } else {
        (m, false)
    }
}

/// The per-guild session registry. Its abstract value is a finite map from
/// guild identifier to [`SessionView`].
pub struct IdleDurations {
    sessions: Vec<(u64, GuildVoiceSession)>,
}

impl View for IdleDurations {
    type V = Map<u64, SessionView>;

    closed spec fn view(&self) -> Map<u64, SessionView> {
        entries_map(self.sessions@)
    }
}

/// The map that a sequence of keyed session records denotes.
spec fn entries_map(s: Seq<(u64, GuildVoiceSession)>) -> Map<u64, SessionView>
    decreases s.len(),
{
    if s.len() == 0 {
        Map::empty()
    } else {
        entries_map(s.drop_last()).insert(s.last().0, s.last().1@)
    }
}

/// Pairwise-distinct guild keys.
spec fn distinct_keys(s: Seq<(u64, GuildVoiceSession)>) -> bool {
    forall|i: int, j: int| 0 <= i < j < s.len() ==> s[i].0 != s[j].0
}

proof fn lemma_entries_map_index(s: Seq<(u64, GuildVoiceSession)>, i: int)
    requires
        distinct_keys(s),
        0 <= i < s.len(),
    ensures
        entries_map(s).contains_key(s[i].0),
        entries_map(s)[s[i].0] == s[i].1@,
    decreases s.len(),
{
    if i < s.len() - 1 {
        lemma_entries_map_index(s.drop_last(), i);
    }
}

proof fn lemma_entries_map_absent(s: Seq<(u64, GuildVoiceSession)>, guild_id: u64)
    requires
        forall|i: int| 0 <= i < s.len() ==> s[i].0 != guild_id,
    ensures
        !entries_map(s).contains_key(guild_id),
    decreases s.len(),
{
    if s.len() > 0 {
        lemma_entries_map_absent(s.drop_last(), guild_id);
    }
}

proof fn lemma_entries_map_remove(s: Seq<(u64, GuildVoiceSession)>, i: int)
    requires
        distinct_keys(s),
        0 <= i < s.len(),
    ensures
        entries_map(s.remove(i)) =~= entries_map(s).remove(s[i].0),
    decreases s.len(),
{
    if i == s.len() - 1 {
        assert(s.remove(i) =~= s.drop_last());
        assert(forall|j: int| 0 <= j < s.drop_last().len() ==> s.drop_last()[j].0 != s[i].0);
        lemma_entries_map_absent(s.drop_last(), s[i].0);
    } else {
        assert(s.remove(i).drop_last() =~= s.drop_last().remove(i));
        lemma_entries_map_remove(s.drop_last(), i);
    }
}

impl IdleDurations {
    #[verifier::type_invariant]
    spec fn wf(&self) -> bool {
        distinct_keys(self.sessions@)
    }

    /// An empty registry: no guild is connected.
    pub fn new() -> (r: IdleDurations)
        ensures
            r@ == Map::<u64, SessionView>::empty(),
    {
        IdleDurations { sessions: Vec::new() }
    }

    /// Position of the guild's record, if it holds one.
    fn find_index(&self, guild_id: u64) -> (r: Option<usize>)
        ensures
            match r {
                Some(i) => i < self.sessions@.len() && self.sessions@[i as int].0 == guild_id,
                None => forall|i: int|
                    0 <= i < self.sessions@.len() ==> self.sessions@[i].0 != guild_id,
            },
    {
        let n = self.sessions.len();
        let mut i: usize = 0;
        while i < n
            invariant
                i <= n,
                n == self.sessions@.len(),
                forall|j: int| 0 <= j < i ==> self.sessions@[j].0 != guild_id,
            decreases n - i,
        {
            if self.sessions[i].0 == guild_id {
                return Some(i);
            }
            i = i + 1;
        }
        None
    }

    /// Whether the guild currently holds a session.
    pub fn is_connected(&self, guild_id: u64) -> (r: bool)
        ensures
            r == self@.contains_key(guild_id),
    {
        proof {
            use_type_invariant(self);
        }
        let found = self.find_index(guild_id);
        proof {
            match found {
                Some(i) => lemma_entries_map_index(self.sessions@, i as int),
                None => lemma_entries_map_absent(self.sessions@, guild_id),
            }
        }
        found.is_some()
    }

    /// The channel the guild's session occupies, if it holds one.
    pub fn current_channel(&self, guild_id: u64) -> (r: Option<u64>)
        ensures
            r == (if self@.contains_key(guild_id) {
                Some(self@[guild_id].channel_id)
            } else {
                None::<u64>
            }),
    {
        proof {
            use_type_invariant(self);
        }
        let found = self.find_index(guild_id);
        proof {
            match found {
                Some(i) => lemma_entries_map_index(self.sessions@, i as int),
                None => lemma_entries_map_absent(self.sessions@, guild_id),
            }
        }
        match found {
            Some(i) => Some(self.sessions[i].1.channel_id()),
            None => None,
        }
    }

    /// The guild's idle-minute counter, if it holds a session.
    pub fn idle_minutes(&self, guild_id: u64) -> (r: Option<u64>)
        ensures
            r == (if self@.contains_key(guild_id) {
                Some(self@[guild_id].idle_minutes)
            } else {
                None::<u64>
            }),
    {
        proof {
            use_type_invariant(self);
        }
        let found = self.find_index(guild_id);
        proof {
            match found {
                Some(i) => lemma_entries_map_index(self.sessions@, i as int),
                None => lemma_entries_map_absent(self.sessions@, guild_id),
            }
        }
        match found {
            Some(i) => Some(self.sessions[i].1.idle_minutes()),
            None => None,
        }
    }

    /// Records a successful transport join: rejected if the guild already
    /// holds a session, otherwise a fresh session on the given channel.
    pub fn join(&mut self, guild_id: u64, channel_id: u64) -> (r: Result<(), SessionError>)
        ensures
            (final(self)@, r) == spec_join(old(self)@, guild_id, channel_id),
    {
        proof {
            use_type_invariant(&*self);
        }
        let found = self.find_index(guild_id);
        proof {
            match found {
                Some(i) => lemma_entries_map_index(self.sessions@, i as int),
                None => lemma_entries_map_absent(self.sessions@, guild_id),
            }
        }
        match found {
            Some(_) => Err(SessionError::AlreadyConnected),
            None => {
                let session = GuildVoiceSession {
                    channel_id,
                    idle_minutes: 0,
                    pending_tracks: Vec::new(),
                };
                let mut sessions: Vec<(u64, GuildVoiceSession)> = Vec::new();
                core::mem::swap(&mut self.sessions, &mut sessions);
                sessions.push((guild_id, session));
                proof {
                    assert(sessions@.drop_last() =~= old(self).sessions@);
                    assert(session@ =~= SessionView::fresh(channel_id));
                }
                core::mem::swap(&mut self.sessions, &mut sessions);
                Ok(())
            },
        }
    }

    /// Removes the guild's session and hands it back, or reports that none
    /// exists. The handed-back record carries the transient resources the
    /// caller still has to release.
    pub fn leave(&mut self, guild_id: u64) -> (r: Result<GuildVoiceSession, SessionError>)
        ensures
            final(self)@ == spec_leave(old(self)@, guild_id).0,
            (match r {
                Ok(session) => spec_leave(old(self)@, guild_id).1 == Ok::<SessionView, SessionError>(session@),
                Err(e) => spec_leave(old(self)@, guild_id).1 == Err::<SessionView, SessionError>(e),
            }),
    {
        proof {
            use_type_invariant(&*self);
        }
        let found = self.find_index(guild_id);
        proof {
            match found {
                Some(i) => {
                    lemma_entries_map_index(self.sessions@, i as int);
                    lemma_entries_map_remove(self.sessions@, i as int);
                },
                None => lemma_entries_map_absent(self.sessions@, guild_id),
            }
        }
        match found {
            Some(i) => {
                let mut sessions: Vec<(u64, GuildVoiceSession)> = Vec::new();
                core::mem::swap(&mut self.sessions, &mut sessions);
                let (_, session) = sessions.remove(i);
                core::mem::swap(&mut self.sessions, &mut sessions);
                Ok(session)
            },
            None => Err(SessionError::NotConnected),
        }
    }

    /// Advances the guild's idle counter by one tick. A counter that would
    /// reach the threshold removes the session instead (auto-leave); a guild
    /// without a session is left untouched.
    pub fn tick(&mut self, guild_id: u64) -> (r: TickOutcome)
        ensures
            final(self)@ == spec_tick(old(self)@, guild_id),
            !old(self)@.contains_key(guild_id) ==> r is NoSession,
            old(self)@.contains_key(guild_id) && old(self)@[guild_id].idle_minutes + 1
                < IDLE_LEAVE_THRESHOLD ==> (r matches TickOutcome::Ticked { idle_minutes }
                && idle_minutes == old(self)@[guild_id].idle_minutes + 1),
            old(self)@.contains_key(guild_id) && old(self)@[guild_id].idle_minutes + 1
                >= IDLE_LEAVE_THRESHOLD ==> (r matches TickOutcome::AutoLeave { session }
                && session@ == old(self)@[guild_id]),
    {
        proof {
            use_type_invariant(&*self);
        }
        let found = self.find_index(guild_id);
        proof {
            match found {
                Some(i) => {
                    lemma_entries_map_index(self.sessions@, i as int);
                    lemma_entries_map_remove(self.sessions@, i as int);
                },
                None => lemma_entries_map_absent(self.sessions@, guild_id),
            }
        }
        match found {
            Some(i) => {
                let mut sessions: Vec<(u64, GuildVoiceSession)> = Vec::new();
                core::mem::swap(&mut self.sessions, &mut sessions);
                let (key, mut session) = sessions.remove(i);
                if session.idle_minutes >= IDLE_LEAVE_THRESHOLD - 1 {
                    core::mem::swap(&mut self.sessions, &mut sessions);
                    TickOutcome::AutoLeave { session }
                } else {
                    session.idle_minutes = session.idle_minutes + 1;
                    let idle_minutes = session.idle_minutes;
                    sessions.push((key, session));
                    proof {
                        assert(sessions@.drop_last() =~= old(self).sessions@.remove(i as int));
                        assert(session@ =~= old(self)@[guild_id].bump_idle());
                        assert(entries_map(sessions@) =~= old(self)@.insert(
                            guild_id,
                            old(self)@[guild_id].bump_idle(),
                        ));
                    }
                    core::mem::swap(&mut self.sessions, &mut sessions);
                    TickOutcome::Ticked { idle_minutes }
                }
            },
            None => TickOutcome::NoSession,
        }
    }

    /// Records a successful audio enqueue: the idle counter resets to zero
    /// and the track's transient resource becomes pending.
    pub fn note_enqueued(&mut self, guild_id: u64, track_id: u64) -> (r: Result<(), SessionError>)
        ensures
            (final(self)@, r) == spec_enqueue(old(self)@, guild_id, track_id),
    {
        proof {
            use_type_invariant(&*self);
        }
        let found = self.find_index(guild_id);
        proof {
            match found {
                Some(i) => {
                    lemma_entries_map_index(self.sessions@, i as int);
                    lemma_entries_map_remove(self.sessions@, i as int);
                },
                None => lemma_entries_map_absent(self.sessions@, guild_id),
            }
        }
        match found {
            Some(i) => {
                let mut sessions: Vec<(u64, GuildVoiceSession)> = Vec::new();
                core::mem::swap(&mut self.sessions, &mut sessions);
                let (key, mut session) = sessions.remove(i);
                session.idle_minutes = 0;
                session.pending_tracks.push(track_id);
                sessions.push((key, session));
                proof {
                    assert(sessions@.drop_last() =~= old(self).sessions@.remove(i as int));
                    assert(session@ =~= old(self)@[guild_id].with_enqueued(track_id));
                    assert(entries_map(sessions@) =~= old(self)@.insert(
                        guild_id,
                        old(self)@[guild_id].with_enqueued(track_id),
                    ));
                }
                core::mem::swap(&mut self.sessions, &mut sessions);
                Ok(())
            },
            None => Err(SessionError::NotConnected),
        }
    }

    /// Records that a track finished playing: the idle counter resets, and
    /// the result says whether the track's transient resource was pending
    /// and is now to be released by the caller.
    pub fn note_track_ended(&mut self, guild_id: u64, track_id: u64) -> (released: bool)
        ensures
            (final(self)@, released) == spec_track_end(old(self)@, guild_id, track_id),
    {
        proof {
            use_type_invariant(&*self);
        }
        let found = self.find_index(guild_id);
        proof {
            match found {
                Some(i) => {
                    lemma_entries_map_index(self.sessions@, i as int);
                    lemma_entries_map_remove(self.sessions@, i as int);
                },
                None => lemma_entries_map_absent(self.sessions@, guild_id),
            }
        }
        match found {
            Some(i) => {
                let mut sessions: Vec<(u64, GuildVoiceSession)> = Vec::new();
                core::mem::swap(&mut self.sessions, &mut sessions);
                let (key, mut session) = sessions.remove(i);
                session.idle_minutes = 0;
                let removed = remove_first(&mut session.pending_tracks, track_id);
                sessions.push((key, session));
                proof {
                    assert(sessions@.drop_last() =~= old(self).sessions@.remove(i as int));
                    assert(session@ =~= old(self)@[guild_id].with_track_ended(track_id));
                    assert(entries_map(sessions@) =~= old(self)@.insert(
                        guild_id,
                        old(self)@[guild_id].with_track_ended(track_id),
                    ));
                }
                core::mem::swap(&mut self.sessions, &mut sessions);
                removed
            },
            None => false,
        }
    }
}

/// The outcome of one idle tick.
pub enum TickOutcome {
    /// The guild held no session; nothing happened.
    NoSession,
    /// The counter advanced and the session stays.
    Ticked { idle_minutes: u64 },
    /// The counter reached the threshold; the session was removed and is
    /// handed back for cleanup.
    AutoLeave { session: GuildVoiceSession },
}

/// Position of the first occurrence of `x`, if any.
fn find_first(v: &Vec<u64>, x: u64) -> (r: Option<usize>)
    ensures
        match r {
            Some(i) => i < v@.len() && v@[i as int] == x && (forall|j: int|
                0 <= j < i ==> v@[j] != x),
            None => forall|j: int| 0 <= j < v@.len() ==> v@[j] != x,
        },
{
    let n = v.len();
    let mut i: usize = 0;
    while i < n
        invariant
            i <= n,
            n == v@.len(),
            forall|j: int| 0 <= j < i ==> v@[j] != x,
        decreases n - i,
    {
        if v[i] == x {
            return Some(i);
        }
        i = i + 1;
    }
    None
}

/// Removes the first occurrence of `x` from the vector; reports whether one
/// was there.
fn remove_first(v: &mut Vec<u64>, x: u64) -> (removed: bool)
    ensures
        final(v)@ == remove_first_match(old(v)@, x),
        removed == old(v)@.contains(x),
{
    match find_first(v, x) {
        Some(i) => {
            proof {
                lemma_remove_first_match_at(v@, x, i as int);
            }
            v.remove(i);
            true
        },
        None => {
            proof {
                lemma_remove_first_match_missing(v@, x);
            }
            false
        },
    }
}

/// Iterated idle ticks.
pub open spec fn spec_ticks(m: Map<u64, SessionView>, guild_id: u64, n: nat) -> Map<
    u64,
    SessionView,
>
    decreases n,
{
    if n == 0 {
        m
    } else {
        spec_tick(spec_ticks(m, guild_id, (n - 1) as nat), guild_id)
    }
}

/// Law: a second `join` without an intervening `leave` is rejected as
/// already connected, and the session's channel is unchanged by it.
pub proof fn lemma_second_join_rejected(
    m: Map<u64, SessionView>,
    guild_id: u64,
    channel_a: u64,
    channel_b: u64,
)
    ensures
        ({
            let (m1, r1) = spec_join(m, guild_id, channel_a);
            let (m2, r2) = spec_join(m1, guild_id, channel_b);
            &&& r2 == Err::<(), SessionError>(SessionError::AlreadyConnected)
            &&& m2 == m1
            &&& m1.contains_key(guild_id)
            &&& m2[guild_id].channel_id == m1[guild_id].channel_id
            &&& (r1 is Ok ==> m1[guild_id].channel_id == channel_a)
        }),
{
}

/// Law: `leave` on a guild with no session reports not-connected and leaves
/// the registry untouched.
pub proof fn lemma_leave_without_session(m: Map<u64, SessionView>, guild_id: u64)
    requires
        !m.contains_key(guild_id),
    ensures
        spec_leave(m, guild_id) == (m, Err::<SessionView, SessionError>(SessionError::NotConnected)),
{
}

/// Law: a successful enqueue note resets the idle counter to zero.
pub proof fn lemma_enqueue_resets_idle(m: Map<u64, SessionView>, guild_id: u64, track_id: u64)
    requires
        m.contains_key(guild_id),
    ensures
        spec_enqueue(m, guild_id, track_id).1 is Ok,
        spec_enqueue(m, guild_id, track_id).0[guild_id].idle_minutes == 0,
{
}

/// Law: starting from an idle counter of zero, each of the first
/// `IDLE_LEAVE_THRESHOLD - 1` ticks keeps the session, with the counter
/// equal to the number of ticks taken and the channel unchanged.
pub proof fn lemma_idle_countdown(m: Map<u64, SessionView>, guild_id: u64, k: nat)
    requires
        m.contains_key(guild_id),
        m[guild_id].idle_minutes == 0,
        k < IDLE_LEAVE_THRESHOLD,
    ensures
        spec_ticks(m, guild_id, k).contains_key(guild_id),
        spec_ticks(m, guild_id, k)[guild_id].idle_minutes == k,
        spec_ticks(m, guild_id, k)[guild_id].channel_id == m[guild_id].channel_id,
    decreases k,
{
    if k > 0 {
        lemma_idle_countdown(m, guild_id, (k - 1) as nat);
    }
}

/// Law: starting from an idle counter of zero, exactly `IDLE_LEAVE_THRESHOLD`
/// consecutive ticks with no reset remove the session, and every later tick
/// changes nothing more.
pub proof fn lemma_idle_threshold_leaves(m: Map<u64, SessionView>, guild_id: u64, n: nat)
    requires
        m.contains_key(guild_id),
        m[guild_id].idle_minutes == 0,
        n >= IDLE_LEAVE_THRESHOLD,
    ensures
        !spec_ticks(m, guild_id, n).contains_key(guild_id),
        spec_ticks(m, guild_id, n) == spec_ticks(m, guild_id, IDLE_LEAVE_THRESHOLD as nat),
    decreases n,
{
    if n == IDLE_LEAVE_THRESHOLD {
        lemma_idle_countdown(m, guild_id, (IDLE_LEAVE_THRESHOLD - 1) as nat);
    } else {
        lemma_idle_threshold_leaves(m, guild_id, (n - 1) as nat);
    }
}

/// Law: joins for two different guilds are independent: they commute, and
/// neither changes what the other reads or returns. This is the state-level
/// ground for handling guilds under separate locks.
pub proof fn lemma_join_guilds_independent(
    m: Map<u64, SessionView>,
    guild_a: u64,
    channel_a: u64,
    guild_b: u64,
    channel_b: u64,
)
    requires
        guild_a != guild_b,
    ensures
        ({
            let (ma, ra) = spec_join(m, guild_a, channel_a);
            let (mab, rb) = spec_join(ma, guild_b, channel_b);
            let (mb, rb_alone) = spec_join(m, guild_b, channel_b);
            let (mba, ra_after) = spec_join(mb, guild_a, channel_a);
            &&& mab == mba
            &&& rb == rb_alone
            &&& ra == ra_after
        }),
{
    let (ma, ra) = spec_join(m, guild_a, channel_a);
    let (mab, rb) = spec_join(ma, guild_b, channel_b);
    let (mb, rb_alone) = spec_join(m, guild_b, channel_b);
    let (mba, ra_after) = spec_join(mb, guild_a, channel_a);
    assert(mab =~= mba);
}

/// Law: completing the implicit join that `say` plans for an unconnected
/// guild creates a session on the caller's own channel.
pub proof fn lemma_implicit_join_uses_caller_channel(
    m: Map<u64, SessionView>,
    guild_id: u64,
    channel_id: u64,
)
    requires
        !m.contains_key(guild_id),
    ensures
        ({
            let (m1, r) = spec_join(m, guild_id, channel_id);
            &&& r is Ok
            &&& m1.contains_key(guild_id)
            &&& m1[guild_id].channel_id == channel_id
            &&& m1[guild_id].idle_minutes == 0
        }),
{
}

proof fn lemma_remove_first_match_at(s: Seq<u64>, x: u64, i: int)
    requires
        0 <= i < s.len(),
        s[i] == x,
        forall|j: int| 0 <= j < i ==> s[j] != x,
    ensures
        remove_first_match(s, x) =~= s.remove(i),
        s.contains(x),
    decreases i,
{
    if i == 0 {
        assert(s.drop_first() =~= s.remove(0));
    } else {
        assert(s.drop_first()[i - 1] == x);
        lemma_remove_first_match_at(s.drop_first(), x, i - 1);
        assert(seq![s[0]] + s.drop_first().remove(i - 1) =~= s.remove(i));
    }
}

proof fn lemma_remove_first_match_missing(s: Seq<u64>, x: u64)
    requires
        forall|j: int| 0 <= j < s.len() ==> s[j] != x,
    ensures
        remove_first_match(s, x) == s,
        !s.contains(x),
    decreases s.len(),
{
    if s.len() > 0 {
        assert(forall|j: int| 0 <= j < s.drop_first().len() ==> s.drop_first()[j] != x);
        lemma_remove_first_match_missing(s.drop_first(), x);
        assert(seq![s[0]] + s.drop_first() =~= s);
    }
}

} // verus!
