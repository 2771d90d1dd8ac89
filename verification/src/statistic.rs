use vstd::prelude::*;

verus! {

// Per-session scoring: how many of the planned exercises were answered
// correctly, and the wall-clock span of the exercise loop.

/// Relies on std::time::SystemTime: `now()` read once and converted to whole
/// milliseconds since the epoch. Nothing is promised of the value: the clock
/// is outside the model.
#[verifier::external_body]
fn now_millis() -> u64 {
    match std::time::SystemTime::now().duration_since(std::time::SystemTime::UNIX_EPOCH) {
        Ok(d) => d.as_millis() as u64,
        Err(_) => 0,
    }
}

pub struct Statistic {
    pub expect: u32,
    pub correct: u32,
    pub start: Option<u64>,
    pub finish: Option<u64>,
}

impl Statistic {
    /// The running count never passes the planned count.
    pub open spec fn wf(&self) -> bool {
        self.correct <= self.expect
    }

    /// The non-negative elapsed span in milliseconds, defined only once both
    /// timestamps are set.
    pub open spec fn spec_duration_ms(&self) -> Option<u64> {
        match (self.start, self.finish) {
            (Some(s), Some(f)) => Some(
                if f >= s {
                    (f - s) as u64
                } else {
                    0u64
                },
            ),
            _ => None,
        }
    }

    pub fn new(expect: u32) -> (r: Statistic)
        ensures
            r.expect == expect,
            r.correct == 0,
            r.start is None,
            r.finish is None,
            r.wf(),
    {
        Statistic { expect, correct: 0, start: None, finish: None }
    }

    /// Stamps the opening timestamp; a second call overwrites the first.
    pub fn start(&mut self)
        ensures
            final (self).start is Some,
            final (self).finish == old(self).finish,
            final (self).expect == old(self).expect,
            final (self).correct == old(self).correct,
    {
        self.start = Some(now_millis());
    }

    /// Counts one answered exercise, correct or not. The caller records each
    /// planned exercise exactly once, so room must be left in the count.
    pub fn add(&mut self, result: bool)
        requires
            old(self).correct < old(self).expect,
        ensures
            final (self).correct == old(self).correct + (if result {
                1int
            } else {
                0int
            }),
            final (self).expect == old(self).expect,
            final (self).start == old(self).start,
            final (self).finish == old(self).finish,
            final (self).wf(),
    {
        if result {
            self.correct = self.correct + 1;
        }
    }

    /// Stamps the closing timestamp; a second call overwrites the first.
    pub fn finish(&mut self)
        ensures
            final (self).finish is Some,
            final (self).start == old(self).start,
            final (self).expect == old(self).expect,
            final (self).correct == old(self).correct,
    {
        self.finish = Some(now_millis());
    }

    /// The elapsed span in milliseconds, truncated to 32 bits as reported;
    /// nothing until both timestamps are set.
    pub fn duration_in_ms(&self) -> (r: Option<u32>)
        ensures
            r is Some <==> self.spec_duration_ms() is Some,
            self.spec_duration_ms() is Some ==> r == Some(
                (self.spec_duration_ms()->0 % 0x1_0000_0000) as u32,
            ),
    {
        match (self.start, self.finish) {
            (Some(s), Some(f)) => {
                let d: u64 = if f >= s {
                    f - s
                } else {
                    0
                };
                Some((d % 0x1_0000_0000) as u32)
            },
            _ => None,
        }
    }
}

} // verus!
