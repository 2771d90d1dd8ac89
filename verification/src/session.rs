use vstd::prelude::*;
use vstd::string::*;
use crate::exercise::{Exercise, Generator, Level, Mode, Settings, generated_exercise};
use crate::statistic::Statistic;
use crate::text::{dec_digits, int_str, spec_parse_i64, parse_i64, i64_to_string, u64_to_string};

verus! {

// The turn-based session engine: one state machine per connected player.
// Every reply line drives one step; each step says exactly which lines go
// back out and how the state moves on. The I/O loop around it only carries
// lines in and out.

/// Exercises per round.
pub const TURNS: u32 = 20;

pub open spec fn separator_line() -> Seq<char> {
    "------------------------------------------------------------------------"@
}

pub open spec fn mode_menu_lines() -> Seq<Seq<char>> {
    seq![
        "  1:sum of two (x + y)"@,
        "  2:dif of two (x - y)"@,
        "  3:mul of two (x * y)"@,
        "  4:div of two (x / y)"@,
        "  5:square (x * x)"@,
    ]
}

pub open spec fn level_menu_lines() -> Seq<Seq<char>> {
    seq!["  1:easy"@, "  2:normal"@, "  3:hard"@]
}

/// What a fresh round writes before its first read: banner, title, and the
/// mode menu.
pub open spec fn opening_lines() -> Seq<Seq<char>> {
    seq![separator_line(), "New game"@, separator_line(), "Select mode"@] + mode_menu_lines()
}

/// What a newly chosen mode is followed by: the level menu.
pub open spec fn level_prompt_lines() -> Seq<Seq<char>> {
    seq!["Select level"@] + level_menu_lines()
}

/// The mode behind each 1-based menu index.
pub open spec fn mode_of_index(k: int) -> Mode {
    if k == 1 {
        Mode::SumOfTwo
    } else if k == 2 {
        Mode::SubOfTwo
    } else if k == 3 {
        Mode::MulOfTwo
    } else if k == 4 {
        Mode::DivOfTwo
    } else {
        Mode::Square
    }
}

/// The level behind each 1-based menu index.
pub open spec fn level_of_index(k: int) -> Level {
    if k == 1 {
        Level::Easy
    } else if k == 2 {
        Level::Normal
    } else {
        Level::Hard
    }
}

/// The 1-based option a menu reply selects among `n` options: the reply must
/// parse as an integer and lie in `[1, n]`; anything else selects nothing.
pub open spec fn menu_choice(line: Seq<char>, n: int) -> Option<int> {
    match spec_parse_i64(line) {
        Some(k) => if 1 <= k <= n {
            Some(k as int)
        } else {
            None
        },
        None => None,
    }
}

/// A reply scores a turn iff it parses to exactly the answer.
pub open spec fn answer_accepted(line: Seq<char>, answer: i64) -> bool {
    spec_parse_i64(line) == Some(answer)
}

/// The numbered problem line of one turn.
pub open spec fn turn_prompt(idx: int, text: Seq<char>) -> Seq<char> {
    int_str(idx) + ") "@ + text
}

/// What a turn gets back: praise, or the answer that was expected.
pub open spec fn verdict_line(correct: bool, answer: int) -> Seq<char> {
    if correct {
        "Correct"@
    } else {
        "Incorrect. The valid answer is "@ + int_str(answer)
    }
}

/// Two decimal digits, zero padded.
pub open spec fn two_digit_text(f: int) -> Seq<char> {
    if f < 10 {
        "0"@ + dec_digits(f as nat)
    } else {
        dec_digits(f as nat)
    }
}

/// Milliseconds as seconds with two decimals, rounded to the nearest
/// hundredth, half away from zero.
pub open spec fn seconds_text(ms: int) -> Seq<char> {
    let cs = (ms + 5) / 10;
    dec_digits((cs / 100) as nat) + "."@ + two_digit_text(cs % 100)
}

/// The closing report: banner, score, the elapsed time when both timestamps
/// were taken, and the pacing prompt.
pub open spec fn report_lines(st: Statistic) -> Seq<Seq<char>> {
    let score = "Correct:"@ + dec_digits(st.correct as nat) + "/"@ + dec_digits(st.expect as nat);
    let head = seq![separator_line(), "Results"@, separator_line(), score];
    let tail = seq![separator_line(), "Press any key to continue..."@];
    match st.spec_duration_ms() {
        Some(d) => head + seq![
            "Duration,s:"@ + seconds_text((d % 0x1_0000_0000) as int),
        ] + tail,
        None => head + tail,
    }
}

/// The views of the lines of one outgoing batch.
pub open spec fn lines_view(v: Seq<String>) -> Seq<Seq<char>> {
    v.map_values(|s: String| s@)
}

/// Where a session stands between two reads.
#[derive(Debug, Clone, Copy, PartialEq, Eq, Structural)]
pub enum Phase {
    /// The mode menu is out; the next reply picks an arithmetic mode.
    SelectMode,
    /// The level menu is out; the next reply picks a difficulty.
    SelectLevel,
    /// A problem is out; the next reply is scored against its answer.
    Answer,
    /// The report is out; the next reply, whatever it is, starts a new round.
    Report,
}

pub struct Session {
    pub phase: Phase,
    pub mode: Option<Mode>,
    pub level: Option<Level>,
    pub exercise: Option<Exercise>,
    pub turn: u32,
    pub statistic: Statistic,
}

/// The settings a session has negotiated.
pub open spec fn session_settings(s: Session) -> Settings {
    Settings { mode: s.mode->0, level: s.level->0 }
}

/// One step out of the mode menu: a valid pick moves to the level menu, any
/// other reply re-prompts with the mode menu and changes nothing.
pub open spec fn select_mode_step(
    pre: Session,
    line: Seq<char>,
    post: Session,
    out: Seq<String>,
) -> bool {
    match menu_choice(line, 5) {
        Some(k) => {
            &&& post.phase is SelectLevel
            &&& post.mode == Some(mode_of_index(k))
            &&& post.level == pre.level
            &&& post.turn == pre.turn
            &&& post.statistic == pre.statistic
            &&& lines_view(out) == level_prompt_lines()
        },
        None => {
            &&& post == pre
            &&& lines_view(out) == mode_menu_lines()
        },
    }
}

/// One step out of the level menu: a valid pick starts the exercise loop —
/// fresh statistics, opening timestamp taken, first problem out — and any
/// other reply re-prompts with the level menu and changes nothing.
pub open spec fn select_level_step(
    pre: Session,
    line: Seq<char>,
    post: Session,
    out: Seq<String>,
) -> bool {
    match menu_choice(line, 3) {
        Some(k) => {
            &&& post.phase is Answer
            &&& post.mode == pre.mode
            &&& post.level == Some(level_of_index(k))
            &&& post.turn == 0
            &&& post.statistic.expect == TURNS
            &&& post.statistic.correct == 0
            &&& post.statistic.start is Some
            &&& post.statistic.finish is None
            &&& post.exercise is Some
            &&& generated_exercise(session_settings(post), post.exercise->0)
            &&& lines_view(out) == seq![turn_prompt(1, (post.exercise->0).text@)]
        },
        None => {
            &&& post == pre
            &&& lines_view(out) == level_menu_lines()
        },
    }
}

/// One scored turn: the reply is parsed — a malformed reply counts as wrong,
/// it never blocks — the verdict goes out, and either the next problem
/// follows or, after the last turn, the closing timestamp is taken and the
/// report goes out.
pub open spec fn answer_step(
    pre: Session,
    line: Seq<char>,
    post: Session,
    out: Seq<String>,
) -> bool {
    let ex = pre.exercise->0;
    let ok = answer_accepted(line, ex.answer);
    &&& post.turn == pre.turn + 1
    &&& post.mode == pre.mode
    &&& post.level == pre.level
    &&& post.statistic.expect == pre.statistic.expect
    &&& post.statistic.correct == pre.statistic.correct + (if ok {
        1int
    } else {
        0int
    })
    &&& post.statistic.start == pre.statistic.start
    &&& out.len() >= 1
    &&& out[0]@ == verdict_line(ok, ex.answer as int)
    &&& if pre.turn + 1 < TURNS {
        &&& post.phase is Answer
        &&& post.exercise is Some
        &&& generated_exercise(session_settings(post), post.exercise->0)
        &&& out.len() == 2
        &&& out[1]@ == turn_prompt(pre.turn + 2, (post.exercise->0).text@)
        &&& post.statistic.finish == pre.statistic.finish
    } else {
        &&& post.phase is Report
        &&& post.statistic.finish is Some
        &&& lines_view(out) == seq![verdict_line(ok, ex.answer as int)] + report_lines(
            post.statistic,
        )
    }
}

/// One step past the report: whatever the reply, a new round opens with the
/// banner and the mode menu.
pub open spec fn report_step(pre: Session, post: Session, out: Seq<String>) -> bool {
    &&& post.phase is SelectMode
    &&& post.mode is None
    &&& post.level is None
    &&& post.exercise is None
    &&& post.turn == pre.turn
    &&& post.statistic == pre.statistic
    &&& lines_view(out) == opening_lines()
}

impl Session {
    /// What every reachable session state satisfies.
    pub open spec fn wf(&self) -> bool {
        &&& self.statistic.expect == TURNS
        &&& self.turn <= TURNS
        &&& self.statistic.correct <= self.turn
        &&& (self.phase is SelectLevel ==> self.mode is Some)
        &&& (self.phase is Answer ==> {
            &&& self.mode is Some
            &&& self.level is Some
            &&& self.exercise is Some
            &&& self.turn < TURNS
            &&& self.statistic.start is Some
        })
    }

    /// A fresh session, about to show the banner and the mode menu.
    pub fn new() -> (r: Session)
        ensures
            r.phase is SelectMode,
            r.mode is None,
            r.level is None,
            r.exercise is None,
            r.turn == 0,
            r.statistic.correct == 0,
            r.wf(),
    {
        Session {
            phase: Phase::SelectMode,
            mode: None,
            level: None,
            exercise: None,
            turn: 0,
            statistic: Statistic::new(TURNS),
        }
    }

    /// The answer of the problem currently out, if one is.
    pub fn current_answer(&self) -> (r: Option<i64>)
        ensures
            r is Some <==> self.exercise is Some,
            self.exercise is Some ==> r == Some((self.exercise->0).answer),
    {
        match &self.exercise {
            Some(e) => Some(e.answer),
            None => None,
        }
    }

    /// The lines a session writes before its first read.
    pub fn opening() -> (out: Vec<String>)
        ensures
            lines_view(out@) == opening_lines(),
    {
        let mut out: Vec<String> = Vec::new();
        out.push(separator_string());
        out.push(String::from_str("New game"));
        out.push(separator_string());
        out.push(String::from_str("Select mode"));
        push_mode_menu(&mut out);
        proof {
            assert(lines_view(out@) =~~= opening_lines());
        }
        out
    }

    /// Drives the session by one reply line and hands back the lines to
    /// write. Each phase's behaviour is its own step relation above.
    pub fn on_line(&mut self, line: &str) -> (out: Vec<String>)
        requires
            old(self).wf(),
        ensures
            final (self).wf(),
            old(self).phase is SelectMode ==> select_mode_step(
                *old(self),
                line@,
                *final (self),
                out@,
            ),
            old(self).phase is SelectLevel ==> select_level_step(
                *old(self),
                line@,
                *final (self),
                out@,
            ),
            old(self).phase is Answer ==> answer_step(*old(self), line@, *final (self), out@),
            old(self).phase is Report ==> report_step(*old(self), *final (self), out@),
    {
        match self.phase {
            Phase::SelectMode => {
                let choice = parse_menu_choice(line, 5);
                match choice {
                    Some(k) => {
                        let m = mode_for(k);
                        self.mode = Some(m);
                        self.phase = Phase::SelectLevel;
                        let mut out: Vec<String> = Vec::new();
                        out.push(String::from_str("Select level"));
                        push_level_menu(&mut out);
                        proof {
                            assert(lines_view(out@) =~~= level_prompt_lines());
                        }
                        out
                    },
                    None => {
                        let mut out: Vec<String> = Vec::new();
                        push_mode_menu(&mut out);
                        proof {
                            assert(lines_view(out@) =~~= mode_menu_lines());
                        }
                        out
                    },
                }
            },
            Phase::SelectLevel => {
                let choice = parse_menu_choice(line, 3);
                match choice {
                    Some(k) => {
                        let l = level_for(k);
                        self.level = Some(l);
                        let settings = Settings { mode: self.mode.unwrap(), level: l };
                        let generator = Generator::new(settings);
                        let ex = generator.make_excercise();
                        let prompt = turn_prompt_string(1, &ex.text);
                        self.exercise = Some(ex);
                        self.turn = 0;
                        let mut st = Statistic::new(TURNS);
                        st.start();
                        self.statistic = st;
                        self.phase = Phase::Answer;
                        let mut out: Vec<String> = Vec::new();
                        out.push(prompt);
                        proof {
                            assert(lines_view(out@) =~~= seq![
                                turn_prompt(1, (self.exercise->0).text@),
                            ]);
                        }
                        out
                    },
                    None => {
                        let mut out: Vec<String> = Vec::new();
                        push_level_menu(&mut out);
                        proof {
                            assert(lines_view(out@) =~~= level_menu_lines());
                        }
                        out
                    },
                }
            },
            Phase::Answer => {
                let ans: i64 = self.exercise.as_ref().unwrap().answer;
                let parsed = parse_i64(line);
                let correct: bool = match parsed {
                    Some(v) => v == ans,
                    None => false,
                };
                self.statistic.add(correct);
                self.turn = self.turn + 1;
                let mut out: Vec<String> = Vec::new();
                out.push(verdict_string(correct, ans));
                if self.turn < TURNS {
                    let settings = Settings {
                        mode: self.mode.unwrap(),
                        level: self.level.unwrap(),
                    };
                    let generator = Generator::new(settings);
                    let ex = generator.make_excercise();
                    let prompt = turn_prompt_string(self.turn + 1, &ex.text);
                    self.exercise = Some(ex);
                    out.push(prompt);
                } else {
                    self.statistic.finish();
                    self.exercise = None;
                    self.phase = Phase::Report;
                    push_report(&self.statistic, &mut out);
                    proof {
                        assert(lines_view(out@) =~~= seq![
                            verdict_line(
                                answer_accepted(line@, ans),
                                ans as int,
                            ),
                        ] + report_lines(self.statistic));
                    }
                }
                out
            },
            Phase::Report => {
                self.mode = None;
                self.level = None;
                self.exercise = None;
                self.phase = Phase::SelectMode;
                let out = Session::opening();
                out
            },
        }
    }
}

/// The option a whole sequence of menu replies ends up selecting: that of
/// the first reply that selects one.
pub open spec fn menu_run(lines: Seq<Seq<char>>, n: int) -> Option<int>
    decreases lines.len(),
{
    if lines.len() == 0 {
        None
    } else {
        match menu_choice(lines[0], n) {
            Some(k) => Some(k),
            None => menu_run(lines.subrange(1, lines.len() as int), n),
        }
    }
}

/// Menu negotiation accepts exactly the first valid reply: a run of replies
/// whose first `i` all select nothing — each of them only re-prompts, by
/// `select_mode_step` and `select_level_step` — selects whatever reply `i`
/// selects, 1-based among the `n` options.
pub proof fn lemma_menu_first_valid(lines: Seq<Seq<char>>, n: int, i: int)
    requires
        0 <= i < lines.len(),
        forall|j: int| 0 <= j < i ==> menu_choice(lines[j], n) is None,
        menu_choice(lines[i], n) is Some,
    ensures
        menu_run(lines, n) == menu_choice(lines[i], n),
    decreases i,
{
    if i > 0 {
        let rest = lines.subrange(1, lines.len() as int);
        assert forall|j: int| 0 <= j < i - 1 implies menu_choice(rest[j], n) is None by {
            assert(rest[j] == lines[j + 1]);
        }
        assert(rest[i - 1] == lines[i]);
        lemma_menu_first_valid(rest, n, i - 1);
    }
}

fn separator_string() -> (r: String)
    ensures
        r@ == separator_line(),
{
    String::from_str("------------------------------------------------------------------------")
}

fn push_mode_menu(out: &mut Vec<String>)
    ensures
        final (out)@.len() == old(out)@.len() + 5,
        lines_view(final (out)@) == lines_view(old(out)@) + mode_menu_lines(),
{
    out.push(String::from_str("  1:sum of two (x + y)"));
    out.push(String::from_str("  2:dif of two (x - y)"));
    out.push(String::from_str("  3:mul of two (x * y)"));
    out.push(String::from_str("  4:div of two (x / y)"));
    out.push(String::from_str("  5:square (x * x)"));
    proof {
        assert(lines_view(out@) =~~= lines_view(old(out)@) + mode_menu_lines());
    }
}

fn push_level_menu(out: &mut Vec<String>)
    ensures
        final (out)@.len() == old(out)@.len() + 3,
        lines_view(final (out)@) == lines_view(old(out)@) + level_menu_lines(),
{
    out.push(String::from_str("  1:easy"));
    out.push(String::from_str("  2:normal"));
    out.push(String::from_str("  3:hard"));
    proof {
        assert(lines_view(out@) =~~= lines_view(old(out)@) + level_menu_lines());
    }
}

/// Reads a menu reply: the selected 1-based option among `n`, or nothing.
fn parse_menu_choice(line: &str, n: i64) -> (r: Option<i64>)
    requires
        1 <= n,
    ensures
        r is Some <==> menu_choice(line@, n as int) is Some,
        menu_choice(line@, n as int) is Some ==> r == Some(menu_choice(line@, n as int)->0 as i64),
        r is Some ==> 1 <= r->0 <= n,
    {
    match parse_i64(line) {
        Some(k) => {
            if 1 <= k && k <= n {
                Some(k)
            } else {
                None
            }
        },
        None => None,
    }
}

fn mode_for(k: i64) -> (r: Mode)
    requires
        1 <= k <= 5,
    ensures
        r == mode_of_index(k as int),
{
    match k {
        1 => Mode::SumOfTwo,
        2 => Mode::SubOfTwo,
        3 => Mode::MulOfTwo,
        4 => Mode::DivOfTwo,
        _ => Mode::Square,
    }
}

fn level_for(k: i64) -> (r: Level)
    requires
        1 <= k <= 3,
    ensures
        r == level_of_index(k as int),
{
    match k {
        1 => Level::Easy,
        2 => Level::Normal,
        _ => Level::Hard,
    }
}

fn turn_prompt_string(idx: u32, text: &String) -> (r: String)
    ensures
        r@ == turn_prompt(idx as int, text@),
{
    let mut s = u64_to_string(idx as u64);
    s.append(") ");
    s.append(text.as_str());
    proof {
        assert(s@ =~= turn_prompt(idx as int, text@));
    }
    s
}

fn verdict_string(correct: bool, answer: i64) -> (r: String)
    ensures
        r@ == verdict_line(correct, answer as int),
{
    if correct {
        String::from_str("Correct")
    } else {
        let mut s = String::from_str("Incorrect. The valid answer is ");
        let a = i64_to_string(answer);
        s.append(a.as_str());
        s
    }
}

fn push_report(st: &Statistic, out: &mut Vec<String>)
    ensures
        lines_view(final (out)@) == lines_view(old(out)@) + report_lines(*st),
        forall|i: int| 0 <= i < old(out)@.len() ==> final (out)@[i] == old(out)@[i],
{
    out.push(separator_string());
    out.push(String::from_str("Results"));
    out.push(separator_string());
    let mut score = String::from_str("Correct:");
    let c = u64_to_string(st.correct as u64);
    score.append(c.as_str());
    score.append("/");
    let e = u64_to_string(st.expect as u64);
    score.append(e.as_str());
    out.push(score);
    match st.duration_in_ms() {
        Some(ms) => {
            let mut d = String::from_str("Duration,s:");
            let sec = seconds_string(ms);
            d.append(sec.as_str());
            out.push(d);
        },
        None => {},
    }
    out.push(separator_string());
    out.push(String::from_str("Press any key to continue..."));
    proof {
        assert(lines_view(out@) =~~= lines_view(old(out)@) + report_lines(*st));
    }
}

fn seconds_string(ms: u32) -> (r: String)
    ensures
        r@ == seconds_text(ms as int),
{
    let total: u64 = (ms as u64 + 5) / 10;
    let whole: u64 = total / 100;
    let frac: u64 = total % 100;
    let mut s = u64_to_string(whole);
    s.append(".");
    if frac < 10 {
        s.append("0");
        let f = u64_to_string(frac);
        s.append(f.as_str());
    } else {
        let f = u64_to_string(frac);
        s.append(f.as_str());
    }
    proof {
        assert(s@ =~= seconds_text(ms as int));
    }
    s
}

} // verus!
