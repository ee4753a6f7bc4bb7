//! Session configurations and the order in which a session runs its phases.
use vstd::prelude::*;
use vstd::string::StringExecFns;
use vstd::arithmetic::div_mod::{
    lemma_fundamental_div_mod, lemma_mod_mod, lemma_mod_multiples_vanish, lemma_small_mod,
};

use crate::clock::{CLOCK_LIMIT_MS, MINUTE_MS};
use crate::text::{decimal, push_decimal};

verus! {

/// The most minutes that the phases of a configuration may span (see
/// `SessionConfig::span_minutes`): the largest count that, turned into
/// milliseconds and added to any time that the clock reads, stays within an
/// `i64`.
pub const MAX_SPAN_MINUTES: u64 = 153_556_200_614_246;

/// The kind of a phase, with its length in minutes.
#[derive(Debug, Clone, Copy, PartialEq, Eq, Structural)]
pub enum PhaseType {
    Work(usize),
    Short(usize),
    Long(usize),
}

impl PhaseType {
    /// The length of the phase, in minutes.
    pub open spec fn minutes(self) -> nat {
        match self {
            PhaseType::Work(length) => length as nat,
            PhaseType::Short(length) => length as nat,
            PhaseType::Long(length) => length as nat,
        }
    }

    pub fn length(&self) -> (r: usize)
        ensures
            r == self.minutes(),
    {
        match *self {
            PhaseType::Work(length) => length,
            PhaseType::Short(length) => length,
            PhaseType::Long(length) => length,
        }
    }

    /// The text that describes the phase, such as "25 minute work session".
    pub open spec fn describe(self) -> Seq<char> {
        match self {
            PhaseType::Work(length) => decimal(length as nat) + " minute work session"@,
            PhaseType::Short(length) => decimal(length as nat) + " minute short break"@,
            PhaseType::Long(length) => decimal(length as nat) + " minute long break"@,
        }
    }

    pub fn description(&self) -> (r: String)
        ensures
            r@ == self.describe(),
    {
        let mut text = String::new();
        push_decimal(&mut text, self.length());
        match *self {
            PhaseType::Work(_) => text.append(" minute work session"),
            PhaseType::Short(_) => text.append(" minute short break"),
            PhaseType::Long(_) => text.append(" minute long break"),
        }
        text
    }
}

/// Why a configuration cannot make a session.
#[derive(Debug, Clone, Copy, PartialEq, Eq, Structural)]
pub enum ConfigError {
    /// A phase would last no time at all.
    ZeroLength,
    /// Long breaks would have no work phases between them.
    ZeroInterval,
    /// The phases span more minutes than times in milliseconds can hold
    /// (see `SessionConfig::span_minutes`).
    OutOfRange,
}

/// A session configuration: the lengths (in minutes) of each of the three
/// kinds of phase, and the number of work phases between long breaks.
#[derive(Debug, Clone, Copy, PartialEq, Eq, Structural)]
pub struct SessionConfig {
    /// The number of minutes each work phase lasts for.
    pub work: usize,
    /// The number of minutes each short break lasts for.
    pub short: usize,
    /// The number of minutes each long break lasts for.
    pub long: usize,
    /// The number of work phases in between each long break.
    pub interval: usize,
}

impl SessionConfig {
    /// The longest of the three phase lengths.
    pub open spec fn longest(self) -> nat {
        if self.work >= self.short && self.work >= self.long {
            self.work as nat
        } else if self.short >= self.long {
            self.short as nat
        } else {
            self.long as nat
        }
    }

    /// A bound on the minutes that any two periods' worth of phases can
    /// take: twice the interval times the longest length. Every deadline and
    /// every long-break time lies within this many minutes of a clock reading.
    pub open spec fn span_minutes(self) -> nat {
        (2 * self.interval * self.longest()) as nat
    }

    /// Every length and the interval are at least one, and the span fits in
    /// milliseconds after any clock reading and in a `usize`.
    pub open spec fn is_valid(self) -> bool {
        &&& 1 <= self.work
        &&& 1 <= self.short
        &&& 1 <= self.long
        &&& 1 <= self.interval
        &&& self.span_minutes() <= MAX_SPAN_MINUTES
        &&& self.span_minutes() <= usize::MAX
    }

    /// What checking the configuration finds: the first problem in the order
    /// zero length, zero interval, out of range; else nothing.
    pub open spec fn check_spec(self) -> Result<(), ConfigError> {
        if self.work == 0 || self.short == 0 || self.long == 0 {
            Err(ConfigError::ZeroLength)
        } else if self.interval == 0 {
            Err(ConfigError::ZeroInterval)
        } else if self.span_minutes() > MAX_SPAN_MINUTES || self.span_minutes() > usize::MAX {
            Err(ConfigError::OutOfRange)
        } else {
            Ok(())
        }
    }

    /// Check that the configuration can make a session.
    pub fn check(&self) -> (r: Result<(), ConfigError>)
        ensures
            r == self.check_spec(),
            r is Ok <==> self.is_valid(),
    {
        if self.work == 0 || self.short == 0 || self.long == 0 {
            return Err(ConfigError::ZeroLength);
        }
        if self.interval == 0 {
            return Err(ConfigError::ZeroInterval);
        }
        let longest = if self.work >= self.short && self.work >= self.long {
            self.work
        } else if self.short >= self.long {
            self.short
        } else {
            self.long
        };
        let span = match self.interval.checked_mul(2) {
            Some(double) => double.checked_mul(longest),
            None => None,
        };
        proof {
            assert(2 * self.interval * longest == (2 * self.interval) * longest);
            if 2 * self.interval > usize::MAX {
                assert(2 * self.interval * longest >= 2 * self.interval) by (nonlinear_arith)
                    requires
                        longest >= 1,
                        self.interval >= 1,
                ;
            }
        }
        match span {
            Some(span) => if span as u64 > MAX_SPAN_MINUTES {
                Err(ConfigError::OutOfRange)
            } else {
                Ok(())
            },
            None => Err(ConfigError::OutOfRange),
        }
    }

    pub fn work(self, work: usize) -> (r: Self)
        ensures
            r == (SessionConfig { work, ..self }),
    {
        SessionConfig { work, ..self }
    }

    pub fn work_or_default(self, work: Option<usize>) -> (r: Self)
        ensures
            r == match work {
                Some(w) => SessionConfig { work: w, ..self },
                None => self,
            },
    {
        if let Some(work) = work {
            self.work(work)
        } else {
            self
        }
    }

    pub fn short(self, short: usize) -> (r: Self)
        ensures
            r == (SessionConfig { short, ..self }),
    {
        SessionConfig { short, ..self }
    }

    pub fn short_or_default(self, short: Option<usize>) -> (r: Self)
        ensures
            r == match short {
                Some(s) => SessionConfig { short: s, ..self },
                None => self,
            },
    {
        if let Some(short) = short {
            self.short(short)
        } else {
            self
        }
    }

    pub fn long(self, long: usize) -> (r: Self)
        ensures
            r == (SessionConfig { long, ..self }),
    {
        SessionConfig { long, ..self }
    }

    pub fn long_or_default(self, long: Option<usize>) -> (r: Self)
        ensures
            r == match long {
                Some(l) => SessionConfig { long: l, ..self },
                None => self,
            },
    {
        if let Some(long) = long {
            self.long(long)
        } else {
            self
        }
    }

    pub fn interval(self, interval: usize) -> (r: Self)
        ensures
            r == (SessionConfig { interval, ..self }),
    {
        SessionConfig { interval, ..self }
    }

    pub fn interval_or_default(self, interval: Option<usize>) -> (r: Self)
        ensures
            r == match interval {
                Some(i) => SessionConfig { interval: i, ..self },
                None => self,
            },
    {
        if let Some(interval) = interval {
            self.interval(interval)
        } else {
            self
        }
    }

    /// The number of phases from one long break to the next, the long break
    /// included.
    pub open spec fn period(self) -> nat {
        (2 * self.interval) as nat
    }

    /// The phase at index `i`: work on even indices; on odd ones a long break
    /// where the index closes a period, a short break elsewhere.
    pub open spec fn phase_at_spec(self, i: nat) -> PhaseType {
        if i % 2 == 0 {
            PhaseType::Work(self.work)
        } else if i % self.period() == self.period() - 1 {
            PhaseType::Long(self.long)
        } else {
            PhaseType::Short(self.short)
        }
    }

    /// Return the phase type and length for the phase at index `phase_index`.
    pub fn phase_at(&self, phase_index: usize) -> (r: PhaseType)
        requires
            1 <= self.interval,
        ensures
            r == self.phase_at_spec(phase_index as nat),
    {
        if phase_index % 2 == 0 {
            PhaseType::Work(self.work)
        } else {
            proof {
                lemma_odd_period_end(*self, phase_index as nat);
            }
            // An odd index closes a period where its number among the breaks
            // closes a run of `interval` breaks.
            if (phase_index / 2) % self.interval == self.interval - 1 {
                PhaseType::Long(self.long)
            } else {
                PhaseType::Short(self.short)
            }
        }
    }

    /// How many phases lie from index `i` up to the end of its period.
    pub open spec fn steps_to_long(self, i: nat) -> nat {
        (self.period() - 1 - i % self.period()) as nat
    }

    /// The number of minutes from the start of phase `i` to the start of the
    /// next long break: the lengths of the phases from `i` on, up to and
    /// without the first long break.
    pub open spec fn minutes_until_long(self, i: nat) -> nat
        decreases self.steps_to_long(i),
        when self.interval >= 1
    {
        if self.phase_at_spec(i) is Long {
            0
        } else {
            proof {
                lemma_long_iff_period_end(self, i);
                lemma_next_offset(self, i);
            }
            self.phase_at_spec(i).minutes() + self.minutes_until_long(i + 1)
        }
    }

    /// Return the number of minutes between the beginning of the phase with
    /// index `current` and the beginning of the next long break.
    pub fn until_long(&self, current: usize) -> (r: usize)
        requires
            1 <= self.interval,
            2 * self.interval <= usize::MAX,
            self.minutes_until_long(current as nat) <= usize::MAX,
        ensures
            r == self.minutes_until_long(current as nat),
    {
        let period = self.interval * 2;
        let mut offset = current % period;
        let mut minutes: usize = 0;
        proof {
            lemma_until_long_periodic(*self, current as nat);
        }
        while offset != period - 1
            invariant
                1 <= self.interval,
                period == self.period(),
                offset < period,
                self.minutes_until_long(current as nat) <= usize::MAX,
                minutes + self.minutes_until_long(offset as nat) == self.minutes_until_long(
                    current as nat,
                ),
            decreases period - offset,
        {
            proof {
                lemma_small_mod(offset as nat, period as nat);
                lemma_long_iff_period_end(*self, offset as nat);
            }
            minutes = minutes + self.phase_at(offset).length();
            offset = offset + 1;
        }
        proof {
            lemma_small_mod(offset as nat, period as nat);
            lemma_long_iff_period_end(*self, offset as nat);
        }
        minutes
    }
}

impl Default for SessionConfig {
    /// Work for 25 minutes, short breaks of 5, long breaks of 15, and a long
    /// break after every 4 work phases.
    fn default() -> (r: Self)
        ensures
            r == (SessionConfig { work: 25, short: 5, long: 15, interval: 4 }),
    {
        SessionConfig { work: 25, short: 5, long: 15, interval: 4 }
    }
}

/// An odd index closes its period exactly where its number among the breaks,
/// `i / 2`, closes a run of `interval` breaks.
pub proof fn lemma_odd_period_end(config: SessionConfig, i: nat)
    requires
        config.interval >= 1,
        i % 2 == 1,
    ensures
        (i % config.period() == config.period() - 1) <==> ((i / 2) % (config.interval as nat)
            == config.interval - 1),
{
    let n = config.interval as int;
    let q = (i / 2) as int;
    let k = q / n;
    let r = q % n;
    lemma_fundamental_div_mod(q, n);
    assert(i == 2 * q + 1);
    assert(i == (2 * n) * k + (2 * r + 1)) by (nonlinear_arith)
        requires
            i == 2 * q + 1,
            q == n * k + r,
    ;
    lemma_mod_multiples_vanish(k, 2 * r + 1, 2 * n);
    lemma_small_mod((2 * r + 1) as nat, (2 * n) as nat);
}

/// Any phase lasts at most the longest of the three lengths.
pub proof fn lemma_phase_within_longest(config: SessionConfig, i: nat)
    ensures
        config.phase_at_spec(i).minutes() <= config.longest(),
{
}

/// The longest length and one phase short of a period's worth of it lie
/// within the span, which in milliseconds fits after any clock reading.
pub proof fn lemma_span_bounds(config: SessionConfig)
    requires
        config.is_valid(),
    ensures
        config.longest() <= config.span_minutes(),
        (config.period() - 1) * config.longest() + config.longest() == config.span_minutes(),
        2 * config.interval <= config.span_minutes(),
        config.span_minutes() * MINUTE_MS + CLOCK_LIMIT_MS <= i64::MAX,
{
    let l = config.longest() as int;
    let n = config.interval as int;
    assert(l <= 2 * n * l && 2 * n <= 2 * n * l && (2 * n - 1) * l + l == 2 * n * l)
        by (nonlinear_arith)
        requires
            l >= 1,
            n >= 1,
    ;
}

/// The minutes until the next long break are at most the longest length for
/// each phase still to come before it.
pub proof fn lemma_until_long_bound(config: SessionConfig, i: nat)
    requires
        config.interval >= 1,
    ensures
        config.minutes_until_long(i) <= config.steps_to_long(i) * config.longest(),
        config.steps_to_long(i) < config.period(),
    decreases config.steps_to_long(i),
{
    lemma_long_iff_period_end(config, i);
    if !(config.phase_at_spec(i) is Long) {
        lemma_next_offset(config, i);
        lemma_until_long_bound(config, i + 1);
        let s = config.steps_to_long(i + 1) as int;
        let l = config.longest() as int;
        assert((s + 1) * l == s * l + l) by (nonlinear_arith);
    }
}

/// Index `i` and its offset in the period have the same parity.
pub proof fn lemma_offset_parity(config: SessionConfig, i: nat)
    requires
        config.interval >= 1,
    ensures
        (i % config.period()) % 2 == i % 2,
{
    lemma_mod_mod(i as int, 2, config.interval as int);
}

/// Past an index that does not close its period, the offset grows by one.
pub proof fn lemma_next_offset(config: SessionConfig, i: nat)
    requires
        config.interval >= 1,
        i % config.period() != config.period() - 1,
    ensures
        (i + 1) % config.period() == i % config.period() + 1,
{
    let p = config.period() as int;
    lemma_fundamental_div_mod(i as int, p);
    lemma_mod_multiples_vanish((i as int) / p, (i as int) % p + 1, p);
    lemma_small_mod((i % config.period() + 1) as nat, p as nat);
}

/// A phase is a long break exactly where its index closes a period.
pub proof fn lemma_long_iff_period_end(config: SessionConfig, i: nat)
    requires
        config.interval >= 1,
    ensures
        (config.phase_at_spec(i) is Long) <==> i % config.period() == config.period() - 1,
{
    lemma_offset_parity(config, i);
}

/// The phase at an index is the phase at its offset in the period.
pub proof fn lemma_phase_periodic(config: SessionConfig, i: nat)
    requires
        config.interval >= 1,
    ensures
        config.phase_at_spec(i) == config.phase_at_spec(i % config.period()),
{
    lemma_offset_parity(config, i);
    lemma_small_mod(i % config.period(), config.period());
}

/// The minutes until the next long break depend on the offset in the period
/// alone.
pub proof fn lemma_until_long_periodic(config: SessionConfig, i: nat)
    requires
        config.interval >= 1,
    ensures
        config.minutes_until_long(i) == config.minutes_until_long(i % config.period()),
    decreases config.steps_to_long(i),
{
    let p = config.period();
    let o = i % p;
    lemma_small_mod(o, p);
    lemma_phase_periodic(config, i);
    lemma_long_iff_period_end(config, i);
    if !(config.phase_at_spec(i) is Long) {
        lemma_next_offset(config, i);
        lemma_until_long_periodic(config, i + 1);
        lemma_small_mod(o + 1, p);
    }
}

/// Work phases fall on the even indices and on no others, whatever the
/// configuration.
pub proof fn lemma_work_iff_even(config: SessionConfig, i: nat)
    ensures
        (config.phase_at_spec(i) is Work) <==> i % 2 == 0,
{
}

/// With an interval of `n` work phases, any `2n` consecutive phase indices
/// hold exactly one long break.
pub proof fn lemma_one_long_break_per_period(config: SessionConfig, start: nat)
    requires
        config.interval >= 1,
    ensures
        exists|j: nat|
            start <= j < start + config.period() && #[trigger] config.phase_at_spec(j) is Long
                && forall|k: nat|
                start <= k < start + config.period() && #[trigger] config.phase_at_spec(k) is Long
                    ==> k == j,
{
    let p = config.period() as int;
    let j = (start + config.steps_to_long(start)) as nat;
    lemma_fundamental_div_mod(start as int, p);
    let q = (start as int) / p;
    assert(j == p * q + (p - 1));
    lemma_mod_multiples_vanish(q, p - 1, p);
    lemma_small_mod((p - 1) as nat, p as nat);
    lemma_long_iff_period_end(config, j);
    assert forall|k: nat|
        start <= k < start + config.period() && #[trigger] config.phase_at_spec(k) is Long implies k
        == j by {
        lemma_long_iff_period_end(config, k);
        lemma_fundamental_div_mod(k as int, p);
        let qk = (k as int) / p;
        assert(k == p * qk + (p - 1));
        assert(qk == q) by (nonlinear_arith)
            requires
                k == p * qk + (p - 1),
                j == p * q + (p - 1),
                start <= k < start + p,
                start <= j < start + p,
                p > 0,
        ;
    }
}

} // verus!
