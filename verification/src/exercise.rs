use vstd::prelude::*;
use vstd::string::*;
use crate::text::{int_str, i64_to_string};
use rand::Rng;

verus! {

// Exercise generation: the operand-range table, the per-mode formulas, and
// the texts the session shows. Only the random draw itself is outside work.

#[derive(Debug, Clone, Copy, PartialEq, Eq, Structural)]
pub enum Level {
    Easy,
    Normal,
    Hard,
}

#[derive(Debug, Clone, Copy, PartialEq, Eq, Structural)]
pub enum Mode {
    SumOfTwo,
    MulOfTwo,
    DivOfTwo,
    SubOfTwo,
    Square,
}

#[derive(Clone, Copy, PartialEq, Eq, Structural)]
pub struct Settings {
    pub level: Level,
    pub mode: Mode,
}

/// One problem: the line shown to the player and the only accepted answer.
#[derive(Debug)]
pub struct Exercise {
    pub text: String,
    pub answer: i64,
}

/// The operand range `[low, high)` for one `(mode, level)` pair: a fixed
/// difficulty table, tunable per mode.
pub open spec fn spec_limit(mode: Mode, level: Level) -> (int, int) {
    match (mode, level) {
        (Mode::SumOfTwo, Level::Easy) => (0, 10),
        (Mode::SumOfTwo, Level::Normal) => (10, 100),
        (Mode::SumOfTwo, Level::Hard) => (100, 1000),
        (Mode::SubOfTwo, Level::Easy) => (0, 10),
        (Mode::SubOfTwo, Level::Normal) => (10, 100),
        (Mode::SubOfTwo, Level::Hard) => (100, 1000),
        (Mode::MulOfTwo, Level::Easy) => (0, 10),
        (Mode::MulOfTwo, Level::Normal) => (10, 20),
        (Mode::MulOfTwo, Level::Hard) => (20, 100),
        (Mode::DivOfTwo, Level::Easy) => (0, 10),
        (Mode::DivOfTwo, Level::Normal) => (10, 20),
        (Mode::DivOfTwo, Level::Hard) => (20, 100),
        (Mode::Square, Level::Easy) => (0, 10),
        (Mode::Square, Level::Normal) => (10, 20),
        (Mode::Square, Level::Hard) => (20, 100),
    }
}

/// An operand lies in the table range of its settings.
pub open spec fn in_limit(s: Settings, x: int) -> bool {
    spec_limit(s.mode, s.level).0 <= x < spec_limit(s.mode, s.level).1
}

/// The divisor actually used in quotient mode: the drawn operand, lifted to
/// one when the draw was zero, so division is always exact and defined.
pub open spec fn spec_divisor(y: int) -> int {
    if y < 1 {
        1
    } else {
        y
    }
}

/// The answer for one mode on the drawn operands.
pub open spec fn spec_answer(mode: Mode, x: int, y: int) -> int {
    match mode {
        Mode::SumOfTwo => x + y,
        Mode::SubOfTwo => x - y,
        Mode::MulOfTwo => x * y,
        Mode::DivOfTwo => x,
        Mode::Square => x * x,
    }
}

/// The problem line for one mode on the drawn operands. In quotient mode the
/// shown dividend is the answer times the divisor, so the quotient is exact.
pub open spec fn spec_text(mode: Mode, x: int, y: int) -> Seq<char> {
    match mode {
        Mode::SumOfTwo => int_str(x) + " + "@ + int_str(y) + " = ?"@,
        Mode::SubOfTwo => int_str(x) + " - "@ + int_str(y) + " = ?"@,
        Mode::MulOfTwo => int_str(x) + " * "@ + int_str(y) + " = ?"@,
        Mode::DivOfTwo => int_str(x * spec_divisor(y)) + " / "@ + int_str(spec_divisor(y))
            + " = "@,
        Mode::Square => int_str(x) + " * "@ + int_str(x) + " = ?"@,
    }
}

/// The exercise is the one the formulas give for these operands.
pub open spec fn exercise_for_operands(s: Settings, x: int, y: int, e: Exercise) -> bool {
    &&& e.answer as int == spec_answer(s.mode, x, y)
    &&& e.text@ == spec_text(s.mode, x, y)
}

/// The exercise was produced from some pair of operands drawn from the table
/// range of its settings.
pub open spec fn generated_exercise(s: Settings, e: Exercise) -> bool {
    exists|x: int, y: int| in_limit(s, x) && in_limit(s, y) && exercise_for_operands(s, x, y, e)
}

pub struct Generator {
    settings: Settings,
}

/// Relies on rand::Rng::gen_range over a half-open integer range: the draw is
/// uniform over `[low, high)` and panics only when the range is empty.
#[verifier::external_body]
fn draw_operand(low: i64, high: i64) -> (r: i64)
    requires
        low < high,
    ensures
        low <= r < high,
{
    rand::thread_rng().gen_range(low..high)
}

impl Generator {
    pub closed spec fn spec_settings(&self) -> Settings {
        self.settings
    }

    pub fn new(settings: Settings) -> (r: Generator)
        ensures
            r.spec_settings() == settings,
    {
        Generator { settings }
    }

    /// The operand range for the generator's settings, straight from the
    /// difficulty table.
    pub fn get_limit(&self) -> (r: (i64, i64))
        ensures
            r.0 as int == spec_limit(self.spec_settings().mode, self.spec_settings().level).0,
            r.1 as int == spec_limit(self.spec_settings().mode, self.spec_settings().level).1,
    {
        match (self.settings.mode, self.settings.level) {
            (Mode::SumOfTwo, Level::Easy) => (0, 10),
            (Mode::SumOfTwo, Level::Normal) => (10, 100),
            (Mode::SumOfTwo, Level::Hard) => (100, 1000),
            (Mode::SubOfTwo, Level::Easy) => (0, 10),
            (Mode::SubOfTwo, Level::Normal) => (10, 100),
            (Mode::SubOfTwo, Level::Hard) => (100, 1000),
            (Mode::MulOfTwo, Level::Easy) => (0, 10),
            (Mode::MulOfTwo, Level::Normal) => (10, 20),
            (Mode::MulOfTwo, Level::Hard) => (20, 100),
            (Mode::DivOfTwo, Level::Easy) => (0, 10),
            (Mode::DivOfTwo, Level::Normal) => (10, 20),
            (Mode::DivOfTwo, Level::Hard) => (20, 100),
            (Mode::Square, Level::Easy) => (0, 10),
            (Mode::Square, Level::Normal) => (10, 20),
            (Mode::Square, Level::Hard) => (20, 100),
        }
    }

    /// The exercise the formulas give for two concrete operands from the
    /// table range: the deterministic part of generation.
    pub fn exercise_for(&self, x: i64, y: i64) -> (r: Exercise)
        requires
            in_limit(self.spec_settings(), x as int),
            in_limit(self.spec_settings(), y as int),
        ensures
            exercise_for_operands(self.spec_settings(), x as int, y as int, r),
    {
        proof {
            assert(0 <= x < 1000 && 0 <= y < 1000);
        }
        match self.settings.mode {
            Mode::SumOfTwo => {
                let mut t = i64_to_string(x);
                t.append(" + ");
                let ys = i64_to_string(y);
                t.append(ys.as_str());
                t.append(" = ?");
                Exercise { text: t, answer: x + y }
            },
            Mode::SubOfTwo => {
                let mut t = i64_to_string(x);
                t.append(" - ");
                let ys = i64_to_string(y);
                t.append(ys.as_str());
                t.append(" = ?");
                Exercise { text: t, answer: x - y }
            },
            Mode::MulOfTwo => {
                proof {
                    assert(x * y < 1000000 && x * y >= 0) by (nonlinear_arith)
                        requires 0 <= x < 1000 && 0 <= y < 1000;
                }
                let mut t = i64_to_string(x);
                t.append(" * ");
                let ys = i64_to_string(y);
                t.append(ys.as_str());
                t.append(" = ?");
                Exercise { text: t, answer: x * y }
            },
            Mode::DivOfTwo => {
                let divisor: i64 = if y < 1 {
                    1
                } else {
                    y
                };
                proof {
                    assert(x * divisor < 1000000 && x * divisor >= 0) by (nonlinear_arith)
                        requires 0 <= x < 1000 && 1 <= divisor < 1000;
                }
                let dividend: i64 = x * divisor;
                let mut t = i64_to_string(dividend);
                t.append(" / ");
                let ds = i64_to_string(divisor);
                t.append(ds.as_str());
                t.append(" = ");
                Exercise { text: t, answer: x }
            },
            Mode::Square => {
                proof {
                    assert(x * x < 1000000 && x * x >= 0) by (nonlinear_arith)
                        requires 0 <= x < 1000;
                }
                let mut t = i64_to_string(x);
                t.append(" * ");
                let xs = i64_to_string(x);
                t.append(xs.as_str());
                t.append(" = ?");
                Exercise { text: t, answer: x * x }
            },
        }
    }

    /// One fresh problem: two operands drawn from the table range, put
    /// through the formulas of the configured mode.
    pub fn make_excercise(&self) -> (r: Exercise)
        ensures
            generated_exercise(self.spec_settings(), r),
    {
        let (low, high) = self.get_limit();
        let x = draw_operand(low, high);
        let y = draw_operand(low, high);
        let r = self.exercise_for(x, y);
        proof {
            assert(in_limit(self.spec_settings(), x as int) && in_limit(
                self.spec_settings(),
                y as int,
            ) && exercise_for_operands(self.spec_settings(), x as int, y as int, r));
        }
        r
    }
}

impl Exercise {
    /// Exact integer equality: the only scoring rule.
    pub fn validate_answer(&self, answer: i64) -> (r: bool)
        ensures
            r == (answer == self.answer),
    {
        self.answer == answer
    }
}

/// Quotient exercises divide exactly: the divisor is at least one even when
/// the drawn operand is zero, and the shown dividend divided by the shown
/// divisor is exactly the answer, with no remainder.
pub proof fn lemma_quotient_exact(x: int, y: int)
    ensures
        spec_divisor(y) >= 1,
        spec_answer(Mode::DivOfTwo, x, y) == (x * spec_divisor(y)) / spec_divisor(y),
        (x * spec_divisor(y)) % spec_divisor(y) == 0,
{
    let d = spec_divisor(y);
    vstd::arithmetic::div_mod::lemma_div_multiples_vanish(x, d);
    assert(d * x == x * d) by (nonlinear_arith);
    assert((x * d) % d == 0) by {
        vstd::arithmetic::div_mod::lemma_fundamental_div_mod(x * d, d);
        assert(x * d == d * ((x * d) / d) + (x * d) % d);
    }
}

} // verus!
