//! What a tier may use: the daily allowance of generated queries and the
//! number of saved records.

use crate::text::same_text;
use vstd::prelude::*;

verus! {

/// The counters of use, as they are stored.
#[derive(Debug)]
pub struct UsageStats {
    pub ai_generations_today: i32,
    /// The day, as `YYYY-MM-DD`, on which the daily counter last began anew.
    pub last_reset_date: String,
    pub total_dorks: i32,
    pub total_conversations: i32,
    pub created_at: String,
    pub updated_at: String,
}

/// How many queries the free tier may generate in a day.
pub const FREE_DAILY_GENERATIONS: i32 = 10;

/// How many records the free tier may save.
pub const FREE_SAVED_DORKS: i32 = 50;

/// Whether `tier` is one without limits: `professional`, `team` or `enterprise`.
pub open spec fn is_unlimited_tier(tier: Seq<char>) -> bool {
    tier == "professional"@ || tier == "team"@ || tier == "enterprise"@
}

/// What is left of the daily allowance after `used` generations: -1 for a tier
/// without limits, else ten less `used`, kept within the range of `i32`.
pub open spec fn remaining_generations(tier: Seq<char>, used: i32) -> int {
    if is_unlimited_tier(tier) {
        -1
    } else if FREE_DAILY_GENERATIONS - used > i32::MAX {
        i32::MAX as int
    } else {
        FREE_DAILY_GENERATIONS - used
    }
}

/// Whether `tier` is one without limits.
pub fn unlimited_tier(tier: &str) -> (unlimited: bool)
    ensures
        unlimited == is_unlimited_tier(tier@),
{
    same_text(tier, "professional") || same_text(tier, "team") || same_text(tier, "enterprise")
}

/// Whether another query may be generated today: always in a tier without
/// limits, else while fewer than ten were generated.
pub fn can_generate_ai(tier: &str, stats: &UsageStats) -> (allowed: bool)
    ensures
        allowed == (is_unlimited_tier(tier@) || stats.ai_generations_today
            < FREE_DAILY_GENERATIONS),
{
    unlimited_tier(tier) || stats.ai_generations_today < FREE_DAILY_GENERATIONS
}

/// Whether another record may be saved: always in a tier without limits, else
/// while fewer than fifty are saved.
pub fn can_save_dork(tier: &str, total_dorks: i32) -> (allowed: bool)
    ensures
        allowed == (is_unlimited_tier(tier@) || total_dorks < FREE_SAVED_DORKS),
{
    unlimited_tier(tier) || total_dorks < FREE_SAVED_DORKS
}

/// What is left of the daily allowance: -1 where there is no limit.
pub fn get_remaining_ai_generations(tier: &str, stats: &UsageStats) -> (left: i32)
    ensures
        left == remaining_generations(tier@, stats.ai_generations_today),
{
    if unlimited_tier(tier) {
        -1
    } else if stats.ai_generations_today < FREE_DAILY_GENERATIONS - i32::MAX {
        i32::MAX
    } else {
        FREE_DAILY_GENERATIONS - stats.ai_generations_today
    }
}

impl UsageStats {
    /// Whether the daily counter is due to begin anew: it last did so on a day
    /// other than `today`.
    pub fn needs_daily_reset(&self, today: &str) -> (due: bool)
        ensures
            due == (self.last_reset_date@ != today@),
    {
        !same_text(self.last_reset_date.as_str(), today)
    }

    /// Begins the daily counter anew where that is due, and leaves the counters
    /// as they are otherwise.
    pub fn check_and_reset_daily_usage(&mut self, today: &str) -> (reset: bool)
        ensures
            reset == (old(self).last_reset_date@ != today@),
            reset ==> final(self).ai_generations_today == 0 && final(self).last_reset_date@
                == today@,
            !reset ==> final(self).ai_generations_today == old(self).ai_generations_today
                && final(self).last_reset_date == old(self).last_reset_date,
            final(self).total_dorks == old(self).total_dorks,
            final(self).total_conversations == old(self).total_conversations,
            final(self).created_at == old(self).created_at,
            final(self).updated_at == old(self).updated_at,
    {
        if self.needs_daily_reset(today) {
            self.ai_generations_today = 0;
            self.last_reset_date = String::from_str(today);
            true
        } else {
            false
        }
    }

    /// Counts one more generation on the day `today`, after the daily counter
    /// began anew where that was due, and returns the new count. The count
    /// stops at the greatest `i32`.
    pub fn increment_ai_usage(&mut self, today: &str) -> (count: i32)
        ensures
            count == final(self).ai_generations_today,
            count == ({
                let before: int = if old(self).last_reset_date@ != today@ {
                    0
                } else {
                    old(self).ai_generations_today as int
                };
                if before < i32::MAX {
                    before + 1
                } else {
                    before
                }
            }),
            final(self).last_reset_date@ == today@,
            final(self).total_dorks == old(self).total_dorks,
            final(self).total_conversations == old(self).total_conversations,
    {
        self.check_and_reset_daily_usage(today);
        if self.ai_generations_today < i32::MAX {
            self.ai_generations_today = self.ai_generations_today + 1;
        }
        self.ai_generations_today
    }
}

} // verus!
