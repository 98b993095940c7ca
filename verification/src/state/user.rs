use vstd::prelude::*;

use crate::state::{BadgeType, Pubkey};

verus! {

/// Per-badge reputation points.
pub const BADGE_REPUTATION: u64 = 25;

/// Per-cast-vote reputation points.
pub const VOTE_REPUTATION: u64 = 10;

/// Per-created-poll reputation points.
pub const CREATOR_REPUTATION: u64 = 50;

/// Per-received-delegation reputation points.
pub const DELEGATION_REPUTATION: u64 = 5;

/// A participant's profile and activity counters.
#[derive(Clone, Debug)]
pub struct User {
    pub pubkey: Pubkey,
    pub did_identifier: Option<String>,
    pub total_votes_cast: u64,
    pub total_polls_created: u64,
    pub total_delegations_given: u64,
    pub total_delegations_received: u64,
    pub reputation_score: u64,
    pub is_verified: bool,
    pub verification_level: u8,
    pub created_at: i64,
    pub last_activity: i64,
    pub preferred_language: Option<String>,
    pub location_hash: Option<[u8; 32]>,
    pub badges_earned: Vec<BadgeType>,
    pub is_active: bool,
}

impl User {
    /// The weighted reputation a user's counters and badges earn.
    pub open spec fn spec_reputation(self) -> int {
        self.total_votes_cast * VOTE_REPUTATION + self.total_polls_created * CREATOR_REPUTATION
            + self.total_delegations_received * DELEGATION_REPUTATION + self.badges_earned@.len()
            * BADGE_REPUTATION
    }

    /// Record that the user was last seen at `now`.
    pub fn update_activity(&mut self, now: i64)
        ensures
            *final(self) == (User { last_activity: now, ..*old(self) }),
    {
        self.last_activity = now;
    }

    /// Add a badge the user does not already hold; holding it already
    /// leaves the list unchanged.
    pub fn add_badge(&mut self, badge_type: BadgeType)
        ensures
            final(self).badges_earned@ == if old(self).badges_earned@.contains(badge_type) {
                old(self).badges_earned@
            } else {
                old(self).badges_earned@.push(badge_type)
            },
            *final(self) == (User { badges_earned: final(self).badges_earned, ..*old(self) }),
    {
        let n = self.badges_earned.len();
        let mut i: usize = 0;
        while i < n
            invariant
                i <= n == self.badges_earned@.len(),
                forall|j: int| 0 <= j < i ==> self.badges_earned@[j] != badge_type,
                *self == *old(self),
            decreases n - i,
        {
            if self.badges_earned[i] == badge_type {
                assert(old(self).badges_earned@.contains(badge_type));
                return ;
            }
            i += 1;
        }
        assert(!old(self).badges_earned@.contains(badge_type));
        self.badges_earned.push(badge_type);
    }

    /// The user's reputation from votes cast, polls created, delegations
    /// received and badges earned.
    pub fn calculate_reputation(&self) -> (r: u64)
        requires
            self.spec_reputation() <= u64::MAX,
        ensures
            r == self.spec_reputation(),
    {
        let base_score = self.total_votes_cast * VOTE_REPUTATION;
        let creator_bonus = self.total_polls_created * CREATOR_REPUTATION;
        let delegation_bonus = self.total_delegations_received * DELEGATION_REPUTATION;
        let badge_bonus = (self.badges_earned.len() as u64) * BADGE_REPUTATION;
        base_score + creator_bonus + delegation_bonus + badge_bonus
    }
}

/// Aggregate participation statistics for one user.
#[derive(Clone, Debug)]
pub struct UserStats {
    pub user: Pubkey,
    pub polls_participated: Vec<Pubkey>,
    pub avg_participation_time: u64,
    pub streak_count: u32,
    pub last_streak_date: i64,
    pub civic_engagement_score: u64,
}

/// A user's stored preferences.
#[derive(Clone, Debug)]
pub struct UserPreferences {
    pub user: Pubkey,
    pub notification_settings: NotificationSettings,
    pub privacy_settings: PrivacySettings,
    pub accessibility_settings: AccessibilitySettings,
}

/// Which notifications a user receives.
#[derive(Clone, Copy, Debug)]
pub struct NotificationSettings {
    pub email_notifications: bool,
    pub push_notifications: bool,
    pub poll_reminders: bool,
    pub result_notifications: bool,
    pub delegation_alerts: bool,
}

/// How much of a user's activity is visible.
#[derive(Clone, Copy, Debug)]
pub struct PrivacySettings {
    pub hide_voting_history: bool,
    pub anonymous_participation: bool,
    pub location_sharing: bool,
}

/// A user's accessibility switches.
#[derive(Clone, Copy, Debug)]
pub struct AccessibilitySettings {
    pub high_contrast_mode: bool,
    pub large_text: bool,
    pub screen_reader_mode: bool,
    pub keyboard_navigation: bool,
}

} // verus!
