use vstd::prelude::*;
use vstd::string::StringExecFns;

verus! {

/// The first interval between spawns, 500 ms, in microseconds.
pub const STARTING_SPAWN_INTERVAL: u64 = 500_000;

/// How much each spawn shortens the interval: 5 ms.
pub const SPAWN_INTERVAL_DECREMENT: u64 = 5_000;

/// The interval never drops below 50 ms.
pub const MIN_SPAWN_INTERVAL: u64 = 50_000;

/// The score at the start of a game.
pub const STARTING_SCORE: i32 = -4;

#[derive(Clone, Copy, Debug, PartialEq, Eq, Structural)]
pub struct ScoreCounter {
    pub score: i32,
}

impl Default for ScoreCounter {
    fn default() -> (r: Self)
        ensures
            r.score == STARTING_SCORE,
    {
        ScoreCounter { score: STARTING_SCORE }
    }
}

/// A repeating countdown: `elapsed_us` accumulates time and wraps around
/// `interval_us`.
#[derive(Clone, Copy, Debug, PartialEq, Eq, Structural)]
pub struct SpawnTimer {
    pub interval_us: u64,
    pub elapsed_us: u64,
}

/// The interval after one more spawn: 5 ms shorter, but not below the floor.
pub open spec fn next_interval(i: int) -> int {
    if i - SPAWN_INTERVAL_DECREMENT < MIN_SPAWN_INTERVAL {
        MIN_SPAWN_INTERVAL as int
    } else {
        i - SPAWN_INTERVAL_DECREMENT
    }
}

/// The interval after `n` spawns since the start.
pub open spec fn interval_after_spawns(n: nat) -> int
    decreases n,
{
    if n == 0 {
        STARTING_SPAWN_INTERVAL as int
    } else {
        next_interval(interval_after_spawns((n - 1) as nat))
    }
}

impl SpawnTimer {
    pub open spec fn wf(self) -> bool {
        &&& MIN_SPAWN_INTERVAL <= self.interval_us <= STARTING_SPAWN_INTERVAL
        &&& self.elapsed_us < STARTING_SPAWN_INTERVAL
    }

    pub open spec fn spec_new() -> SpawnTimer {
        SpawnTimer { interval_us: STARTING_SPAWN_INTERVAL, elapsed_us: 0 }
    }

    /// Whether advancing by `dt` microseconds finishes the countdown.
    pub open spec fn fires(self, dt: int) -> bool {
        self.elapsed_us + dt >= self.interval_us
    }

    /// The timer advanced by `dt` microseconds.
    pub open spec fn advanced(self, dt: int) -> SpawnTimer {
        let e = self.elapsed_us + dt;
        SpawnTimer {
            elapsed_us: (if e >= self.interval_us {
                e % (self.interval_us as int)
            } else {
                e
            }) as u64,
            ..self
        }
    }

    pub open spec fn shortened(self) -> SpawnTimer {
        SpawnTimer { interval_us: next_interval(self.interval_us as int) as u64, ..self }
    }

    /// A countdown of the starting interval, from zero.
    pub fn new() -> (r: SpawnTimer)
        ensures
            r == SpawnTimer::spec_new(),
            r.wf(),
    {
        SpawnTimer { interval_us: STARTING_SPAWN_INTERVAL, elapsed_us: 0 }
    }

    /// Advances the countdown by `dt_us`; says whether it finished.
    pub fn tick(&mut self, dt_us: u32) -> (fired: bool)
        requires
            old(self).wf(),
        ensures
            fired == old(self).fires(dt_us as int),
            *final(self) == old(self).advanced(dt_us as int),
            final(self).wf(),
    {
        let e = self.elapsed_us + dt_us as u64;
        if e >= self.interval_us {
            self.elapsed_us = e % self.interval_us;
            true
        } else {
            self.elapsed_us = e;
            false
        }
    }

    /// Shortens the interval for the next countdown.
    pub fn shorten(&mut self)
        requires
            old(self).wf(),
        ensures
            *final(self) == old(self).shortened(),
            final(self).wf(),
    {
        if self.interval_us - SPAWN_INTERVAL_DECREMENT < MIN_SPAWN_INTERVAL {
            self.interval_us = MIN_SPAWN_INTERVAL;
        } else {
            self.interval_us = self.interval_us - SPAWN_INTERVAL_DECREMENT;
        }
    }
}

pub open spec fn digit_char(d: int) -> char {
    if d == 0 {
        '0'
    } else if d == 1 {
        '1'
    } else if d == 2 {
        '2'
    } else if d == 3 {
        '3'
    } else if d == 4 {
        '4'
    } else if d == 5 {
        '5'
    } else if d == 6 {
        '6'
    } else if d == 7 {
        '7'
    } else if d == 8 {
        '8'
    } else {
        '9'
    }
}

/// The decimal digits of `n`, most significant first, without leading zeros.
pub open spec fn decimal(n: nat) -> Seq<char>
    decreases n,
{
    if n < 10 {
        seq![digit_char(n as int)]
    } else {
        decimal(n / 10).push(digit_char((n % 10) as int))
    }
}

/// The score line as shown: negative scores show as zero.
pub open spec fn score_label(score: int) -> Seq<char> {
    seq!['S', 'c', 'o', 'r', 'e', ':', ' '] + decimal(if score < 0 { 0 } else { score as nat })
}

fn digit_str(d: u32) -> (r: &'static str)
    requires
        d < 10,
    ensures
        r@ == seq![digit_char(d as int)],
{
    proof {
        reveal_strlit("0");
        reveal_strlit("1");
        reveal_strlit("2");
        reveal_strlit("3");
        reveal_strlit("4");
        reveal_strlit("5");
        reveal_strlit("6");
        reveal_strlit("7");
        reveal_strlit("8");
        reveal_strlit("9");
    }
    let r = if d == 0 {
        "0"
    } else if d == 1 {
        "1"
    } else if d == 2 {
        "2"
    } else if d == 3 {
        "3"
    } else if d == 4 {
        "4"
    } else if d == 5 {
        "5"
    } else if d == 6 {
        "6"
    } else if d == 7 {
        "7"
    } else if d == 8 {
        "8"
    } else {
        "9"
    };
    assert(r@ =~= seq![digit_char(d as int)]);
    r
}

fn push_decimal(s: &mut String, n: u32)
    ensures
        final(s)@ == old(s)@ + decimal(n as nat),
    decreases n,
{
    if n >= 10 {
        push_decimal(s, n / 10);
    }
    s.append(digit_str(n % 10));
    assert(final(s)@ =~= old(s)@ + decimal(n as nat));
}

/// The text of the score line for `score`.
pub fn score_text(score: i32) -> (r: String)
    ensures
        r@ == score_label(score as int),
{
    proof {
        reveal_strlit("Score: ");
    }
    let mut s = String::from_str("Score: ");
    let shown: u32 = if score < 0 {
        0
    } else {
        score as u32
    };
    push_decimal(&mut s, shown);
    assert(s@ =~= score_label(score as int));
    s
}

} // verus!
