//! The recursion depth policy.

use crate::decimal::{i32_value, parse_i32};
use crate::error::ConfigError;
use vstd::prelude::*;

verus! {

/// How many more directory levels a walk may descend into.
#[derive(Debug, Clone, Copy, Hash, PartialEq, Eq, Structural)]
pub enum DepthSetting {
    /// Unlimited recursion.
    Infinite,
    /// The last level: descend no further.
    LastLevel,
    /// Another `n` levels may be entered; `n` is positive in every value
    /// this library builds.
    NRemaining(u32),
}

impl DepthSetting {
    /// The policy that a signed level count stands for: a negative count
    /// lifts the limit, zero forbids descent, a positive count is kept.
    pub open spec fn of_int(i: int) -> DepthSetting {
        if i < 0 {
            DepthSetting::Infinite
        } else if i == 0 {
            DepthSetting::LastLevel
        } else {
            DepthSetting::NRemaining(i as u32)
        }
    }

    /// A value is well formed when a remaining count is positive.
    pub open spec fn wf(self) -> bool {
        match self {
            DepthSetting::NRemaining(n) => n > 0,
            _ => true,
        }
    }

    /// Whether a walk may enter one more level.
    pub open spec fn spec_can_recurse(self) -> bool {
        self != DepthSetting::LastLevel
    }

    /// The policy one level further down, if there is one.
    pub open spec fn spec_next_level(self) -> Option<DepthSetting> {
        match self {
            DepthSetting::Infinite => Some(DepthSetting::Infinite),
            DepthSetting::NRemaining(n) => Some(Self::of_int(n - 1)),
            DepthSetting::LastLevel => None,
        }
    }

    /// The policy reached after `k` further levels, while there is one.
    pub open spec fn descend(self, k: nat) -> Option<DepthSetting>
        decreases k,
    {
        if k == 0 {
            Some(self)
        } else {
            match self.spec_next_level() {
                Some(next) => next.descend((k - 1) as nat),
                None => None,
            }
        }
    }

    /// The policy that a depth text stands for: the text read as a base-ten
    /// 32-bit signed integer, then as a level count.
    pub open spec fn of_text(s: Seq<char>) -> Result<DepthSetting, ConfigError> {
        match i32_value(s) {
            Some(i) => Ok(Self::of_int(i as int)),
            None => Err(ConfigError::MalformedDepth),
        }
    }

    /// Read a depth from its text: `-1` or any negative integer for
    /// unlimited recursion, `0` for none, a positive integer for that many
    /// levels. A text that is no 32-bit integer is refused.
    pub fn parse(s: &str) -> (r: Result<DepthSetting, ConfigError>)
        ensures
            r == Self::of_text(s@),
            r is Ok ==> r.unwrap().wf(),
    {
        match parse_i32(s) {
            Some(i) => Ok(DepthSetting::from(i)),
            None => Err(ConfigError::MalformedDepth),
        }
    }

    /// Check if this depth can go one level deeper.
    ///
    /// If so, `next_level()` returns `Some`, otherwise `None`.
    pub fn can_recurse(&self) -> (r: bool)
        ensures
            r == self.spec_can_recurse(),
            r == self.spec_next_level().is_some(),
    {
        match self {
            DepthSetting::Infinite | DepthSetting::NRemaining(_) => true,
            DepthSetting::LastLevel => false,
        }
    }

    /// Get the next recursion level, if one exists.
    ///
    /// The next level does not exist only for `LastLevel`. A remaining count
    /// is lowered by one and read again as a level count, so a count of one
    /// gives `LastLevel`.
    pub fn next_level(&self) -> (r: Option<DepthSetting>)
        ensures
            r == self.spec_next_level(),
            self.wf() && r.is_some() ==> r.unwrap().wf(),
    {
        match self {
            DepthSetting::Infinite => Some(DepthSetting::Infinite),
            DepthSetting::NRemaining(n) => {
                let n: u32 = *n;
                if n <= 2147483647 {
                    Some(DepthSetting::from(n as i32 - 1))
                } else {
                    Some(DepthSetting::NRemaining(n - 1))
                }
            },
            DepthSetting::LastLevel => None,
        }
    }
}

impl From<i32> for DepthSetting {
    /// A negative count is `Infinite`, zero is `LastLevel`, a positive
    /// count `n` is `NRemaining(n)`.
    fn from(n: i32) -> (r: DepthSetting)
        ensures
            r == DepthSetting::of_int(n as int),
            r.wf(),
    {
        if n < 0 {
            DepthSetting::Infinite
        } else if n > 0 {
            DepthSetting::NRemaining(n as u32)
        } else {
            DepthSetting::LastLevel
        }
    }
}

impl std::str::FromStr for DepthSetting {
    type Err = ConfigError;

    /// Read a depth from its text, as [`DepthSetting::parse`] does: the
    /// policy that the text's integer converts to, or the error of a
    /// malformed depth for a text that is no 32-bit integer.
    fn from_str(s: &str) -> (r: Result<DepthSetting, ConfigError>)
        ensures
            r == DepthSetting::of_text(s@),
            r is Ok ==> r->Ok_0.wf(),
    {
        DepthSetting::parse(s)
    }
}

impl vstd::std_specs::convert::FromSpecImpl<i32> for DepthSetting {
    open spec fn obeys_from_spec() -> bool {
        true
    }

    open spec fn from_spec(n: i32) -> DepthSetting {
        DepthSetting::of_int(n as int)
    }
}

/// A negative level count stands for unlimited recursion.
pub proof fn lemma_negative_is_infinite(i: int)
    requires
        i < 0,
    ensures
        DepthSetting::of_int(i) == DepthSetting::Infinite,
{
}

/// A level count of zero stands for the last level.
pub proof fn lemma_zero_is_last_level()
    ensures
        DepthSetting::of_int(0) == DepthSetting::LastLevel,
{
}

/// A positive level count that fits the counter is kept as it is.
pub proof fn lemma_positive_is_remaining(i: int)
    requires
        0 < i <= u32::MAX,
    ensures
        DepthSetting::of_int(i) == DepthSetting::NRemaining(i as u32),
        DepthSetting::of_int(i).wf(),
{
}

/// Every conversion of a 32-bit count yields a well-formed policy.
pub proof fn lemma_conversion_is_well_formed(i: i32)
    ensures
        DepthSetting::of_int(i as int).wf(),
{
}

/// Unlimited recursion may always go deeper, and is its own successor
/// after any number of levels.
pub proof fn lemma_infinite_is_fixed_point(k: nat)
    ensures
        DepthSetting::Infinite.spec_can_recurse(),
        DepthSetting::Infinite.spec_next_level() == Some(DepthSetting::Infinite),
        DepthSetting::Infinite.descend(k) == Some(DepthSetting::Infinite),
    decreases k,
{
    if k > 0 {
        lemma_infinite_is_fixed_point((k - 1) as nat);
    }
}

/// The last level cannot go deeper and has no successor.
pub proof fn lemma_last_level_is_terminal()
    ensures
        !DepthSetting::LastLevel.spec_can_recurse(),
        DepthSetting::LastLevel.spec_next_level().is_none(),
{
}

/// Any positive remaining count may go deeper.
pub proof fn lemma_remaining_can_recurse(n: u32)
    requires
        n > 0,
    ensures
        DepthSetting::NRemaining(n).spec_can_recurse(),
{
}

/// One remaining level is followed by the last level.
pub proof fn lemma_one_remaining_then_last()
    ensures
        DepthSetting::NRemaining(1).spec_next_level() == Some(DepthSetting::LastLevel),
{
}

/// More than one remaining level is followed by one level fewer.
pub proof fn lemma_remaining_counts_down(n: u32)
    requires
        n > 1,
    ensures
        DepthSetting::NRemaining(n).spec_next_level() == Some(
            DepthSetting::NRemaining((n - 1) as u32),
        ),
{
}

/// A well-formed policy with `n` remaining levels can be entered exactly
/// `n` times: after `n` levels it is the last level, and one level more
/// does not exist.
pub proof fn lemma_remaining_runs_out(n: u32)
    requires
        n > 0,
    ensures
        DepthSetting::NRemaining(n).descend(n as nat) == Some(DepthSetting::LastLevel),
        DepthSetting::NRemaining(n).descend((n + 1) as nat).is_none(),
    decreases n,
{
    let start = DepthSetting::NRemaining(n);
    if n == 1 {
        assert(start.spec_next_level() == Some(DepthSetting::LastLevel));
        assert(DepthSetting::LastLevel.descend(0) == Some(DepthSetting::LastLevel));
        assert(start.descend(1) == DepthSetting::LastLevel.descend(0));
        assert(DepthSetting::LastLevel.descend(1).is_none());
        assert(start.descend(2) == DepthSetting::LastLevel.descend(1));
    } else {
        let next = DepthSetting::NRemaining((n - 1) as u32);
        lemma_remaining_runs_out((n - 1) as u32);
        assert(start.spec_next_level() == Some(next));
        assert(start.descend(n as nat) == next.descend((n - 1) as nat));
        assert(start.descend((n + 1) as nat) == next.descend(n as nat));
    }
}

/// Reading a depth text is reading its integer and converting that: a text
/// that denotes the 32-bit integer `i` gives the policy that `i` converts to.
pub proof fn lemma_text_agrees_with_conversion(s: Seq<char>, i: i32)
    requires
        i32_value(s) == Some(i),
    ensures
        DepthSetting::of_text(s) == Ok::<DepthSetting, ConfigError>(
            <DepthSetting as vstd::std_specs::convert::FromSpec<i32>>::from_spec(i),
        ),
        DepthSetting::of_text(s)->Ok_0.wf(),
{
}

/// A text that denotes no 32-bit integer is refused as a malformed depth.
pub proof fn lemma_malformed_text_is_refused(s: Seq<char>)
    requires
        i32_value(s) is None,
    ensures
        DepthSetting::of_text(s) == Err::<DepthSetting, ConfigError>(ConfigError::MalformedDepth),
{
}

/// A depth text that denotes a negative integer lifts the limit: however
/// many levels are entered, there is always a next one.
pub proof fn lemma_negative_text_never_runs_out(s: Seq<char>, k: nat)
    requires
        i32_value(s) is Some,
        i32_value(s)->Some_0 < 0,
    ensures
        DepthSetting::of_text(s) == Ok::<DepthSetting, ConfigError>(DepthSetting::Infinite),
        DepthSetting::of_text(s)->Ok_0.descend(k) is Some,
{
    lemma_infinite_is_fixed_point(k);
}

/// Can-recurse and next-level agree: a successor exists exactly when the
/// policy may go deeper.
pub proof fn lemma_can_recurse_iff_next(d: DepthSetting)
    ensures
        d.spec_can_recurse() <==> d.spec_next_level().is_some(),
{
}

} // verus!
