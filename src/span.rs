use vstd::prelude::*;

verus! {

/// Nanoseconds in one second.
pub const NANOS_PER_SEC: u32 = 1_000_000_000;

/// A non-negative length of time, held as whole seconds and the
/// nanoseconds below one second.
#[derive(Clone, Copy, Debug, PartialEq, Eq, Structural)]
pub struct Span {
    pub secs: u64,
    pub nanos: u32,
}

/// The largest total, in nanoseconds, that a `Span` can hold.
pub open spec fn max_total() -> int {
    u64::MAX as int * NANOS_PER_SEC as int + (NANOS_PER_SEC - 1) as int
}

impl Span {
    /// The nanosecond field is below one second.
    pub open spec fn wf(self) -> bool {
        self.nanos < NANOS_PER_SEC
    }

    /// The span's length in nanoseconds.
    pub open spec fn total(self) -> int {
        self.secs as int * NANOS_PER_SEC as int + self.nanos as int
    }

    /// A span of whole seconds.
    pub fn from_secs(secs: u64) -> (r: Span)
        ensures
            r.wf(),
            r.secs == secs,
            r.nanos == 0,
    {
        Span { secs, nanos: 0 }
    }

    /// `self - rhs`, or `None` where `rhs` is the longer span.
    pub fn checked_sub(self, rhs: Span) -> (r: Option<Span>)
        requires
            self.wf(),
            rhs.wf(),
        ensures
            r is Some <==> self.total() >= rhs.total(),
            r matches Some(d) ==> d.wf() && d.total() == self.total() - rhs.total(),
    {
        if self.secs < rhs.secs || (self.secs == rhs.secs && self.nanos < rhs.nanos) {
            proof {
                if self.secs < rhs.secs {
                    assert(self.secs as int * NANOS_PER_SEC as int + NANOS_PER_SEC as int
                        <= rhs.secs as int * NANOS_PER_SEC as int) by (nonlinear_arith)
                        requires
                            self.secs < rhs.secs,
                    ;
                }
            }
            None
        } else if self.nanos >= rhs.nanos {
            proof {
                assert((self.secs - rhs.secs) as int * NANOS_PER_SEC as int == self.secs as int
                    * NANOS_PER_SEC as int - rhs.secs as int * NANOS_PER_SEC as int)
                    by (nonlinear_arith);
            }
            Some(Span { secs: self.secs - rhs.secs, nanos: self.nanos - rhs.nanos })
        } else {
            proof {
                assert((self.secs - rhs.secs - 1) as int * NANOS_PER_SEC as int == self.secs as int
                    * NANOS_PER_SEC as int - rhs.secs as int * NANOS_PER_SEC as int
                    - NANOS_PER_SEC as int) by (nonlinear_arith);
            }
            Some(
                Span {
                    secs: self.secs - rhs.secs - 1,
                    nanos: self.nanos + NANOS_PER_SEC - rhs.nanos,
                },
            )
        }
    }

    /// `self + rhs`, or `None` where the sum is longer than a span can be.
    pub fn checked_add(self, rhs: Span) -> (r: Option<Span>)
        requires
            self.wf(),
            rhs.wf(),
        ensures
            r is Some <==> self.total() + rhs.total() <= max_total(),
            r matches Some(d) ==> d.wf() && d.total() == self.total() + rhs.total(),
    {
        let nanos: u32 = self.nanos + rhs.nanos;
        let carry: u64 = if nanos >= NANOS_PER_SEC { 1 } else { 0 };
        let nanos: u32 = if nanos >= NANOS_PER_SEC { nanos - NANOS_PER_SEC } else { nanos };
        proof {
            assert((self.secs as int + rhs.secs as int + carry as int) * NANOS_PER_SEC as int
                == self.secs as int * NANOS_PER_SEC as int + rhs.secs as int
                * NANOS_PER_SEC as int + carry as int * NANOS_PER_SEC as int)
                by (nonlinear_arith);
        }
        if self.secs > u64::MAX - rhs.secs || self.secs + rhs.secs > u64::MAX - carry {
            proof {
                assert((u64::MAX as int + 1) * NANOS_PER_SEC as int == u64::MAX as int
                    * NANOS_PER_SEC as int + NANOS_PER_SEC as int) by (nonlinear_arith);
                assert((self.secs as int + rhs.secs as int + carry as int) * NANOS_PER_SEC as int
                    >= (u64::MAX as int + 1) * NANOS_PER_SEC as int) by (nonlinear_arith)
                    requires
                        self.secs as int + rhs.secs as int + carry as int >= u64::MAX as int
                            + 1,
                ;
            }
            None
        } else {
            proof {
                assert((self.secs + rhs.secs + carry) as int * NANOS_PER_SEC as int
                    <= u64::MAX as int * NANOS_PER_SEC as int) by (nonlinear_arith)
                    requires
                        (self.secs + rhs.secs + carry) as int <= u64::MAX as int,
                ;
            }
            Some(Span { secs: self.secs + rhs.secs + carry, nanos })
        }
    }

    /// The number of whole seconds in the span.
    pub fn as_secs(self) -> (r: u64)
        requires
            self.wf(),
        ensures
            r == self.secs,
            r as int == self.total() / NANOS_PER_SEC as int,
    {
        proof {
            vstd::arithmetic::div_mod::lemma_fundamental_div_mod_converse(
                self.total(),
                NANOS_PER_SEC as int,
                self.secs as int,
                self.nanos as int,
            );
        }
        self.secs
    }
}

} // verus!
