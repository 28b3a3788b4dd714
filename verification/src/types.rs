//! Core data model: tracks, timestamps, queued prompts, period records,
//! user profiles and the library's error classification.

use vstd::prelude::*;
use vstd::string::StringExecFns;

verus! {

/// Default period length of the glyph track, in seconds (one week).
pub const GLYPH_INTERVAL: i64 = 7 * 24 * 60 * 60;

/// Default period length of the ambigram track, in seconds (one week).
pub const AMBI_INTERVAL: i64 = 7 * 24 * 60 * 60;

/// Announcement destination of the glyph track.
pub const GLYPH_ANNOUNCEMENTS_CHANNEL: u64 = 1;

/// Announcement destination of the ambigram track.
pub const AMBIGRAM_ANNOUNCEMENTS_CHANNEL: u64 = 2;

/// Upper bound on the unix timestamps the store keeps (about year 144683).
/// Keeping every stored time below it makes all window arithmetic fit in i64.
pub const MAX_TIME: i64 = 0x10_0000_0000_0000;

/// Upper bound on the length of one track's prompt queue.
pub const MAX_QUEUE_LEN: usize = 0x1_0000;

/// Upper bound on the number of period records one track can accumulate.
pub const MAX_WEEKS: usize = 0x1000_0000;

/// Upper bound on stable prompt ids.
pub const MAX_PROMPT_ID: i64 = 0x4000_0000_0000_0000;

/// Upper bound on the number of stored submissions.
pub const MAX_SUBMISSIONS: usize = 0x1000_0000;

/// Interactive slots one voting panel can carry.
pub const PANEL_CAPACITY: i64 = 25;

/// Display ceiling over both panels together; leaves headroom under the
/// 64-bit vote bitmask.
pub const MAX_DISPLAY_SLOTS: i64 = 40;

/// Width of one voter's bitmask in the vote ledger.
pub const VOTE_MASK_BITS: i64 = 64;

/// Upper bound, in seconds, on the span one queued entry can cover (the
/// default period length times the largest representable duration override).
pub const MAX_WEEK_SPAN: i64 = 7 * 24 * 60 * 60 * 0x1_0000;

/// Which of the two challenge tracks a value belongs to.
#[derive(Copy, Clone, Debug, PartialEq, Eq, Structural)]
pub enum Challenge {
    Glyph,
    Ambigram,
}

impl Challenge {
    /// Stable numeric tag of the track, as persisted rows key it.
    pub open spec fn spec_raw(self) -> u8 {
        match self {
            Challenge::Glyph => 0u8,
            Challenge::Ambigram => 1u8,
        }
    }

    pub fn raw(self) -> (r: u8)
        ensures
            r == self.spec_raw(),
    {
        match self {
            Challenge::Glyph => 0u8,
            Challenge::Ambigram => 1u8,
        }
    }

    pub open spec fn spec_short_name(self) -> Seq<char> {
        match self {
            Challenge::Glyph => "glyph"@,
            Challenge::Ambigram => "ambi"@,
        }
    }

    pub fn short_name(&self) -> (r: String)
        ensures
            r@ == self.spec_short_name(),
    {
        match self {
            Challenge::Glyph => "glyph".to_owned(),
            Challenge::Ambigram => "ambi".to_owned(),
        }
    }

    pub open spec fn spec_long_name(self) -> Seq<char> {
        match self {
            Challenge::Glyph => "glyph"@,
            Challenge::Ambigram => "ambigram"@,
        }
    }

    pub fn long_name(&self) -> (r: String)
        ensures
            r@ == self.spec_long_name(),
    {
        match self {
            Challenge::Glyph => "glyph".to_owned(),
            Challenge::Ambigram => "ambigram".to_owned(),
        }
    }

    pub open spec fn spec_one_char_name(self) -> char {
        match self {
            Challenge::Glyph => 'g',
            Challenge::Ambigram => 'a',
        }
    }

    pub fn one_char_name(&self) -> (r: char)
        ensures
            r == self.spec_one_char_name(),
    {
        match self {
            Challenge::Glyph => 'g',
            Challenge::Ambigram => 'a',
        }
    }

    /// Path under which a generated artifact with the given base name lands.
    pub fn name_to_path(s: &str) -> (r: String)
        ensures
            r@ == "./generation/"@ + s@ + ".png"@,
    {
        let prefix: String = "./generation/".to_owned();
        let with_name: String = prefix.concat(s);
        with_name.concat(".png")
    }

    /// Default period length of the track, in seconds.
    pub open spec fn spec_default_duration(self) -> i64 {
        match self {
            Challenge::Glyph => GLYPH_INTERVAL,
            Challenge::Ambigram => AMBI_INTERVAL,
        }
    }

    pub fn default_duration(&self) -> (r: i64)
        ensures
            r == self.spec_default_duration(),
    {
        match self {
            Challenge::Glyph => GLYPH_INTERVAL,
            Challenge::Ambigram => AMBI_INTERVAL,
        }
    }

    /// Announcement destination of the track.
    pub open spec fn spec_announcement_channel(self) -> u64 {
        match self {
            Challenge::Glyph => GLYPH_ANNOUNCEMENTS_CHANNEL,
            Challenge::Ambigram => AMBIGRAM_ANNOUNCEMENTS_CHANNEL,
        }
    }

    pub fn announcement_channel(&self) -> (r: u64)
        ensures
            r == self.spec_announcement_channel(),
    {
        match self {
            Challenge::Glyph => GLYPH_ANNOUNCEMENTS_CHANNEL,
            Challenge::Ambigram => AMBIGRAM_ANNOUNCEMENTS_CHANNEL,
        }
    }
}

/// A point in time, as whole seconds since the unix epoch.
#[derive(Copy, Clone, Debug, PartialEq, Eq, Structural)]
pub struct Timestamp(pub i64);

impl Timestamp {
    /// Timestamps the store accepts.
    pub open spec fn valid(self) -> bool {
        0 <= self.0 <= MAX_TIME
    }
}

/// A message reference; absent while nothing has been posted.
#[derive(Copy, Clone, Debug, PartialEq, Eq)]
pub struct MsgId(pub Option<u64>);

/// How the library classifies a failed operation.
#[derive(Copy, Clone, Debug, PartialEq, Eq, Structural)]
pub enum GlyfiError {
    /// Rejected before any mutation: bad position, zero duration or size,
    /// degenerate swap.
    Validation,
    /// The addressed prompt, period or position does not exist.
    NotFound,
    /// A collaborator call (render, post, membership) failed; the tick
    /// aborts and is retried.
    Collaborator,
    /// Durable storage failed; fatal for the current tick.
    Persistence,
}

impl GlyfiError {
    /// A short description, for the operator-facing layer to show.
    pub fn describe(&self) -> (r: &'static str)
        ensures
            r@ == self.spec_describe(),
    {
        match self {
            GlyfiError::Validation => "invalid request",
            GlyfiError::NotFound => "no such entry",
            GlyfiError::Collaborator => "a collaborator call failed",
            GlyfiError::Persistence => "durable storage failed",
        }
    }

    pub open spec fn spec_describe(self) -> Seq<char> {
        match self {
            GlyfiError::Validation => "invalid request"@,
            GlyfiError::NotFound => "no such entry"@,
            GlyfiError::Collaborator => "a collaborator call failed"@,
            GlyfiError::Persistence => "durable storage failed"@,
        }
    }
}

/// Data associated with one queued prompt.
#[derive(Debug, PartialEq)]
pub struct PromptData {
    pub challenge: Challenge,
    pub prompt: String,
    /// Size modifier in percent; `None` stands for the default 100.
    pub size_percentage: Option<u16>,
    /// Duration override in periods; `None` stands for the default 1.
    pub custom_duration: Option<u16>,
    /// Whether the period is special; `None` stands for false.
    pub is_special: Option<bool>,
    pub extra_announcement_text: Option<String>,
}

impl Clone for PromptData {
    fn clone(&self) -> (r: Self)
        ensures
            r == *self,
    {
        PromptData {
            challenge: self.challenge,
            prompt: self.prompt.clone(),
            size_percentage: self.size_percentage,
            custom_duration: self.custom_duration,
            is_special: self.is_special,
            extra_announcement_text: match &self.extra_announcement_text {
                Some(s) => Some(s.clone()),
                None => None,
            },
        }
    }
}

impl PromptData {
    /// Entries the store accepts: explicit zero size or duration is rejected
    /// before it is ever stored.
    pub open spec fn valid(self) -> bool {
        &&& self.size_percentage != Some(0u16)
        &&& self.custom_duration != Some(0u16)
    }

    /// Duration of the prompt's period, in track default lengths.
    pub open spec fn spec_duration_weeks(self) -> int {
        match self.custom_duration {
            Some(d) => d as int,
            None => 1,
        }
    }

    pub fn duration_weeks(&self) -> (r: u16)
        ensures
            r as int == self.spec_duration_weeks(),
    {
        match self.custom_duration {
            Some(d) => d,
            None => 1u16,
        }
    }

    /// Size modifier with the default applied.
    pub open spec fn spec_size(self) -> u16 {
        match self.size_percentage {
            Some(s) => s,
            None => 100u16,
        }
    }

    pub fn size(&self) -> (r: u16)
        ensures
            r == self.spec_size(),
    {
        match self.size_percentage {
            Some(s) => s,
            None => 100u16,
        }
    }

    /// Special flag with the default applied.
    pub open spec fn spec_special(self) -> bool {
        match self.is_special {
            Some(b) => b,
            None => false,
        }
    }

    pub fn special(&self) -> (r: bool)
        ensures
            r == self.spec_special(),
    {
        match self.is_special {
            Some(b) => b,
            None => false,
        }
    }

    /// Absolute span of the prompt's period for the given track, in seconds.
    pub open spec fn spec_span(self, c: Challenge) -> int {
        c.spec_default_duration() as int * self.spec_duration_weeks()
    }

    /// Builds a queue entry from operator input, rejecting a zero size or
    /// duration and normalising defaulted fields to `None`.
    pub fn validated(
        challenge: Challenge,
        prompt: String,
        size_percentage: Option<u16>,
        custom_duration: Option<u16>,
        is_special: Option<bool>,
        extra_announcement_text: Option<String>,
    ) -> (r: Result<PromptData, GlyfiError>)
        ensures
            match r {
                Ok(p) => {
                    &&& size_percentage != Some(0u16)
                    &&& custom_duration != Some(0u16)
                    &&& p == (PromptData {
                        challenge,
                        prompt,
                        size_percentage: if size_percentage == Some(100u16) {
                            None
                        } else {
                            size_percentage
                        },
                        custom_duration,
                        is_special: if is_special == Some(true) {
                            Some(true)
                        } else {
                            None
                        },
                        extra_announcement_text,
                    })
                    &&& p.valid()
                },
                Err(e) => {
                    &&& e == GlyfiError::Validation
                    &&& (size_percentage == Some(0u16) || custom_duration == Some(0u16))
                },
            },
    {
        if size_percentage == Some(0u16) {
            return Err(GlyfiError::Validation);
        }
        if custom_duration == Some(0u16) {
            return Err(GlyfiError::Validation);
        }
        Ok(PromptData {
            challenge,
            prompt,
            size_percentage: if size_percentage == Some(100u16) {
                None
            } else {
                size_percentage
            },
            custom_duration,
            is_special: if is_special == Some(true) {
                Some(true)
            } else {
                None
            },
            extra_announcement_text,
        })
    }

    /// Merges an edit over this entry, as the queue edit operation does:
    /// absent fields keep their current value, present fields replace it
    /// after the same normalisation `validated` applies.  The second result
    /// says whether the edit changed the rendered preview (size or
    /// duration).
    pub fn apply_edit(
        &self,
        size_percentage: Option<u16>,
        custom_duration: Option<u16>,
        is_special: Option<bool>,
        extra_announcement_text: Option<String>,
    ) -> (r: Result<(PromptData, bool), GlyfiError>)
        ensures
            match r {
                Ok(pc) => {
                    &&& size_percentage != Some(0u16)
                    &&& custom_duration != Some(0u16)
                    &&& pc.0 == (PromptData {
                        challenge: self.challenge,
                        prompt: self.prompt,
                        size_percentage: match size_percentage {
                            Some(s) => if s == 100u16 {
                                None
                            } else {
                                Some(s)
                            },
                            None => self.size_percentage,
                        },
                        custom_duration: match custom_duration {
                            Some(d) => Some(d),
                            None => self.custom_duration,
                        },
                        is_special: match is_special {
                            Some(b) => if b {
                                Some(true)
                            } else {
                                None
                            },
                            None => self.is_special,
                        },
                        extra_announcement_text: match extra_announcement_text {
                            Some(t) => Some(t),
                            None => self.extra_announcement_text,
                        },
                    })
                    &&& pc.1 == (size_percentage is Some || custom_duration is Some)
                },
                Err(e) => {
                    &&& e == GlyfiError::Validation
                    &&& (size_percentage == Some(0u16) || custom_duration == Some(0u16))
                },
            },
    {
        if size_percentage == Some(0u16) {
            return Err(GlyfiError::Validation);
        }
        if custom_duration == Some(0u16) {
            return Err(GlyfiError::Validation);
        }
        let changed: bool = size_percentage.is_some() || custom_duration.is_some();
        let merged = PromptData {
            challenge: self.challenge,
            prompt: self.prompt.clone(),
            size_percentage: match size_percentage {
                Some(s) => if s == 100u16 {
                    None
                } else {
                    Some(s)
                },
                None => self.size_percentage,
            },
            custom_duration: match custom_duration {
                Some(d) => Some(d),
                None => self.custom_duration,
            },
            is_special: match is_special {
                Some(b) => if b {
                    Some(true)
                } else {
                    None
                },
                None => self.is_special,
            },
            extra_announcement_text: match extra_announcement_text {
                Some(t) => Some(t),
                None => match &self.extra_announcement_text {
                    Some(t) => Some(t.clone()),
                    None => None,
                },
            },
        };
        Ok((merged, changed))
    }
}

/// One period of a track: the persisted row keyed by (track, sequence).
#[derive(Debug, PartialEq)]
pub struct WeekInfo {
    pub challenge: Challenge,
    /// Sequence number, contiguous per track from 0.
    pub week: i64,
    pub prompt: String,
    pub size_percentage: u16,
    pub target_start_time: Timestamp,
    pub target_end_time: Timestamp,
    pub actual_start_time: Timestamp,
    /// Unset while the period is open; set when it closes.
    pub actual_end_time: Option<Timestamp>,
    pub is_special: bool,
    /// Submission-count snapshot, taken at rollover.
    pub num_subs: i64,
    pub poll_message_id: MsgId,
    pub second_poll_message_id: MsgId,
}

impl Clone for WeekInfo {
    fn clone(&self) -> (r: Self)
        ensures
            r == *self,
    {
        WeekInfo {
            challenge: self.challenge,
            week: self.week,
            prompt: self.prompt.clone(),
            size_percentage: self.size_percentage,
            target_start_time: self.target_start_time,
            target_end_time: self.target_end_time,
            actual_start_time: self.actual_start_time,
            actual_end_time: self.actual_end_time,
            is_special: self.is_special,
            num_subs: self.num_subs,
            poll_message_id: self.poll_message_id,
            second_poll_message_id: self.second_poll_message_id,
        }
    }
}

impl WeekInfo {
    /// Every time the record carries lies within the store's bounds.
    pub open spec fn times_valid(self) -> bool {
        &&& self.target_start_time.valid()
        &&& self.target_end_time.valid()
        &&& self.actual_start_time.valid()
        &&& match self.actual_end_time {
            Some(t) => t.valid(),
            None => true,
        }
    }

    /// A period is open while its actual end is unset.
    pub open spec fn is_open(self) -> bool {
        self.actual_end_time is None
    }
}

/// One stored submission, keyed by (message, track, sequence).
#[derive(Debug, PartialEq)]
pub struct Submission {
    pub message: u64,
    pub week: i64,
    pub challenge: Challenge,
    pub author: u64,
    pub link: String,
    pub time: i64,
}

impl Clone for Submission {
    fn clone(&self) -> (r: Self)
        ensures
            r == *self,
    {
        Submission {
            message: self.message,
            week: self.week,
            challenge: self.challenge,
            author: self.author,
            link: self.link.clone(),
            time: self.time,
        }
    }
}

/// One user's cached profile row.
#[derive(Debug, PartialEq)]
pub struct UserRow {
    pub id: u64,
    pub nickname: Option<String>,
    pub glyphs_first: i64,
    pub glyphs_second: i64,
    pub glyphs_third: i64,
    pub ambigrams_first: i64,
    pub ambigrams_second: i64,
    pub ambigrams_third: i64,
    pub highest_ranking_glyphs: i64,
    pub highest_ranking_ambigrams: i64,
}

impl Clone for UserRow {
    fn clone(&self) -> (r: Self)
        ensures
            r == *self,
    {
        UserRow {
            id: self.id,
            nickname: match &self.nickname {
                Some(s) => Some(s.clone()),
                None => None,
            },
            glyphs_first: self.glyphs_first,
            glyphs_second: self.glyphs_second,
            glyphs_third: self.glyphs_third,
            ambigrams_first: self.ambigrams_first,
            ambigrams_second: self.ambigrams_second,
            ambigrams_third: self.ambigrams_third,
            highest_ranking_glyphs: self.highest_ranking_glyphs,
            highest_ranking_ambigrams: self.highest_ranking_ambigrams,
        }
    }
}

/// Profile for a user, as the operator-facing layer shows it.
#[derive(Clone, Debug, PartialEq)]
pub struct UserProfileData {
    pub nickname: Option<String>,
    pub glyphs_first: i64,
    pub glyphs_second: i64,
    pub glyphs_third: i64,
    pub ambigrams_first: i64,
    pub ambigrams_second: i64,
    pub ambigrams_third: i64,
    pub highest_ranking_glyphs: i64,
    pub highest_ranking_ambigrams: i64,
    pub glyphs_submissions: i64,
    pub ambigrams_submissions: i64,
}

/// Podium places of a finished period.
#[derive(Clone, Debug)]
pub enum WinnerPosition {
    First,
    Second,
    Third,
}

impl WinnerPosition {
    pub open spec fn spec_name(self) -> Seq<char> {
        match self {
            WinnerPosition::First => "first"@,
            WinnerPosition::Second => "second"@,
            WinnerPosition::Third => "third"@,
        }
    }

    pub fn name(&self) -> (r: String)
        ensures
            r@ == self.spec_name(),
    {
        match self {
            WinnerPosition::First => "first".to_owned(),
            WinnerPosition::Second => "second".to_owned(),
            WinnerPosition::Third => "third".to_owned(),
        }
    }
}

/// What kind of challenge artifact to render, with its parameters.
#[derive(Clone, Debug)]
pub enum ChallengeImageOptions {
    Announcement { prompt: String, size_percentage: u16 },
    Poll { prompt: String, size_percentage: u16 },
    Winner { position: WinnerPosition, winner_nick: String, winner_id: u64, submission_id: u64 },
}

impl ChallengeImageOptions {
    /// Suffix of the artifact's base name.
    pub fn suffix(&self) -> (r: String)
        ensures
            r@ == self.spec_suffix(),
    {
        match self {
            ChallengeImageOptions::Announcement { .. } => "announcement".to_owned(),
            ChallengeImageOptions::Poll { .. } => "poll".to_owned(),
            ChallengeImageOptions::Winner { position, .. } => position.name(),
        }
    }

    pub open spec fn spec_suffix(self) -> Seq<char> {
        match self {
            ChallengeImageOptions::Announcement { .. } => "announcement"@,
            ChallengeImageOptions::Poll { .. } => "poll"@,
            ChallengeImageOptions::Winner { position, .. } => position.spec_name(),
        }
    }
}

/// The artifact kinds the operator can preview.
#[derive(Clone, Debug)]
pub enum PreviewableImages {
    Announcement,
    Poll,
    FirstPlace,
    SecondPlace,
    ThirdPlace,
}

/// The artifact kinds the operator can upload by hand.
#[derive(Clone, Debug)]
pub enum UploadableImages {
    Announcement,
    Poll,
}

/// Where one user's vote interaction currently stands.
#[derive(Clone, Copy, Debug, PartialEq, Eq, Structural)]
pub enum UserVoteReplyStatus {
    Idle,
    Waiting(i64),
    Responding,
}

/// Marker for the per-user vote reply status table the chat layer keeps.
#[derive(Clone, Debug, PartialEq, Eq, Structural)]
pub struct UserVoteStatusData;

} // verus!
