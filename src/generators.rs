use vstd::prelude::*;

verus! {

/// Generators produce events. `next_event` returns how many discrete time units of the given
/// resolution (ticks per second; 1_000_000 for a microsecond scale) must pass until the next
/// event.
///
/// A coarse resolution may make the result 0: the next event is then due within the current
/// tick. Callers treat 0 as an immediate event, not as an error.
pub trait Generator {
    /// `ticks` is a value that `next_event` may return at `resolution`. A generator that says
    /// nothing of its samples admits every value.
    open spec fn admits(&self, resolution: u32, ticks: u32) -> bool {
        true
    }

    fn next_event(&self, resolution: u32) -> (r: u32)
        ensures
            self.admits(resolution, r),
    ;
}

/// A rate of `amount` per `per_secs` seconds, that is `amount / per_secs` per second.
#[derive(Clone, Copy, Debug, PartialEq, Eq, Structural)]
pub struct Rate {
    pub amount: u32,
    pub per_secs: u32,
}

impl Rate {
    /// The rate is a finite number: its time span is not zero.
    pub open spec fn is_finite(self) -> bool {
        self.per_secs > 0
    }

    /// The rate is a finite number above zero.
    pub open spec fn is_positive(self) -> bool {
        self.amount > 0 && self.per_secs > 0
    }
}

/// `floor(resolution / rate)` for a rate `amount / per_secs`, that is
/// `floor(resolution * per_secs / amount)`.
pub open spec fn ticks_between(resolution: nat, rate: Rate) -> nat
    recommends
        rate.is_positive(),
{
    (resolution * rate.per_secs as nat) / rate.amount as nat
}

/// A count of ticks as a `u32`, the largest one standing for all that do not fit.
pub open spec fn clamp_ticks(n: nat) -> u32 {
    if n <= u32::MAX {
        n as u32
    } else {
        u32::MAX
    }
}

/// A generator whose events come at a fixed interval, `1 / rate` seconds apart.
pub struct Deterministic {
    rate: Rate,
}

impl Deterministic {
    pub closed spec fn rate(&self) -> Rate {
        self.rate
    }

    /// A deterministic generator at `rate` events per second; `None` where the rate is not a
    /// positive number.
    pub fn new(rate: Rate) -> (r: Option<Deterministic>)
        ensures
            r is Some <==> rate.is_positive(),
            r matches Some(d) ==> d.rate() == rate,
    {
        if rate.amount == 0 || rate.per_secs == 0 {
            None
        } else {
            Some(Deterministic { rate })
        }
    }

    #[verifier::type_invariant]
    closed spec fn wf(&self) -> bool {
        self.rate.is_positive()
    }

    /// The number of ticks between two events: `floor(resolution / rate)`, or `u32::MAX` where
    /// that does not fit.
    pub fn ticks(&self, resolution: u32) -> (r: u32)
        ensures
            self.rate().is_positive(),
            r == clamp_ticks(ticks_between(resolution as nat, self.rate())),
    {
        proof {
            use_type_invariant(self);
            let (a, b) = (resolution as int, self.rate.per_secs as int);
            assert(a * b <= 0xffff_ffff * 0xffff_ffff) by (nonlinear_arith)
                requires
                    0 <= a <= 0xffff_ffff,
                    0 <= b <= 0xffff_ffff,
            ;
        }
        let scaled: u64 = resolution as u64 * self.rate.per_secs as u64;
        let n: u64 = scaled / self.rate.amount as u64;
        if n <= u32::MAX as u64 {
            n as u32
        } else {
            u32::MAX
        }
    }
}

impl Generator for Deterministic {
    /// Exactly one value: the interval `floor(resolution / rate)`.
    open spec fn admits(&self, resolution: u32, ticks: u32) -> bool {
        ticks == clamp_ticks(ticks_between(resolution as nat, self.rate()))
    }

    fn next_event(&self, resolution: u32) -> (r: u32)
        ensures
            r == clamp_ticks(ticks_between(resolution as nat, self.rate())),
    {
        self.ticks(resolution)
    }
}

} // verus!
