use arith_drill::session::{Phase, Session};

fn lines(v: &[String]) -> Vec<&str> {
    v.iter().map(|s| s.as_str()).collect()
}

const SEPARATOR: &str =
    "------------------------------------------------------------------------";

const MODE_MENU: [&str; 5] = [
    "  1:sum of two (x + y)",
    "  2:dif of two (x - y)",
    "  3:mul of two (x * y)",
    "  4:div of two (x / y)",
    "  5:square (x * x)",
];

#[test]
fn opening_shows_banner_and_mode_menu() {
    let out = Session::opening();
    let v = lines(&out);
    assert_eq!(
        v,
        vec![
            SEPARATOR,
            "New game",
            SEPARATOR,
            "Select mode",
            MODE_MENU[0],
            MODE_MENU[1],
            MODE_MENU[2],
            MODE_MENU[3],
            MODE_MENU[4],
        ]
    );
}

#[test]
fn invalid_mode_replies_re_prompt_until_first_valid() {
    let mut s = Session::new();
    for bad in ["abc", "", "0", "6", "-1", "2x", " 3"] {
        let out = s.on_line(bad);
        assert_eq!(s.phase, Phase::SelectMode);
        assert_eq!(lines(&out), MODE_MENU.to_vec());
    }
    let out = s.on_line("4");
    assert_eq!(s.phase, Phase::SelectLevel);
    assert_eq!(
        lines(&out),
        vec!["Select level", "  1:easy", "  2:normal", "  3:hard"]
    );
}

#[test]
fn mode_menu_accepts_every_index_from_one_to_five() {
    for pick in ["1", "2", "3", "4", "5"] {
        let mut s = Session::new();
        s.on_line(pick);
        assert_eq!(s.phase, Phase::SelectLevel);
    }
}

#[test]
fn level_menu_rejects_zero_and_four() {
    let mut s = Session::new();
    s.on_line("1");
    for bad in ["0", "4", "easy"] {
        let out = s.on_line(bad);
        assert_eq!(s.phase, Phase::SelectLevel);
        assert_eq!(lines(&out), vec!["  1:easy", "  2:normal", "  3:hard"]);
    }
    let out = s.on_line("2");
    assert_eq!(s.phase, Phase::Answer);
    assert_eq!(out.len(), 1);
    assert!(out[0].starts_with("1) "));
}

#[test]
fn malformed_answer_scores_incorrect_without_blocking() {
    let mut s = Session::new();
    s.on_line("1");
    s.on_line("1");
    let answer = s.current_answer().unwrap();
    let out = s.on_line("abc");
    assert_eq!(s.phase, Phase::Answer);
    assert_eq!(out.len(), 2);
    assert_eq!(out[0], format!("Incorrect. The valid answer is {}", answer));
    assert!(out[1].starts_with("2) "));
}

#[test]
fn exact_answer_scores_correct_and_wrong_answer_reports_it() {
    let mut s = Session::new();
    s.on_line("1");
    s.on_line("1");
    let answer = s.current_answer().unwrap();
    let out = s.on_line(&format!("{}", answer));
    assert_eq!(out[0], "Correct");

    let answer = s.current_answer().unwrap();
    let out = s.on_line(&format!("{}", answer + 1));
    assert_eq!(out[0], format!("Incorrect. The valid answer is {}", answer));
}

#[test]
fn full_round_of_correct_answers_reports_a_perfect_score() {
    let mut s = Session::new();
    s.on_line("5");
    s.on_line("3");
    let mut last = Vec::new();
    for _ in 0..20 {
        let answer = s.current_answer().unwrap();
        last = s.on_line(&format!("{}", answer));
    }
    assert_eq!(s.phase, Phase::Report);
    assert_eq!(last[0], "Correct");
    assert_eq!(last[1], SEPARATOR);
    assert_eq!(last[2], "Results");
    assert_eq!(last[3], SEPARATOR);
    assert_eq!(last[4], "Correct:20/20");
    assert!(last[5].starts_with("Duration,s:"));
    assert_eq!(last[6], SEPARATOR);
    assert_eq!(last[7], "Press any key to continue...");
    assert_eq!(last.len(), 8);

    // The pacing gate: any reply starts the next round from the banner.
    let out = s.on_line("");
    assert_eq!(s.phase, Phase::SelectMode);
    assert_eq!(lines(&out), lines(&Session::opening()));
}

#[test]
fn score_counts_only_correct_answers() {
    let mut s = Session::new();
    s.on_line("1");
    s.on_line("1");
    for turn in 0..20 {
        let answer = s.current_answer().unwrap();
        if turn % 2 == 0 {
            s.on_line(&format!("{}", answer));
        } else {
            s.on_line("nope");
        }
    }
    assert_eq!(s.statistic.correct, 10);
    assert_eq!(s.statistic.expect, 20);
}

#[test]
fn two_sessions_keep_independent_counts() {
    let mut a = Session::new();
    let mut b = Session::new();
    a.on_line("1");
    a.on_line("1");
    b.on_line("2");
    b.on_line("2");
    for _ in 0..20 {
        let answer = a.current_answer().unwrap();
        a.on_line(&format!("{}", answer));
        b.on_line("never right");
    }
    assert_eq!(a.phase, Phase::Report);
    assert_eq!(b.phase, Phase::Report);
    assert_eq!(a.statistic.correct, 20);
    assert_eq!(b.statistic.correct, 0);
    assert_eq!(a.statistic.expect, 20);
    assert_eq!(b.statistic.expect, 20);
}
