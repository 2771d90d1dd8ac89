use arith_drill::exercise::{Exercise, Generator, Level, Mode, Settings};

fn limit_of(mode: Mode, level: Level) -> (i64, i64) {
    Generator::new(Settings { mode, level }).get_limit()
}

#[test]
fn limits_match_the_table() {
    assert_eq!(limit_of(Mode::SumOfTwo, Level::Easy), (0, 10));
    assert_eq!(limit_of(Mode::SumOfTwo, Level::Normal), (10, 100));
    assert_eq!(limit_of(Mode::SumOfTwo, Level::Hard), (100, 1000));
    assert_eq!(limit_of(Mode::SubOfTwo, Level::Easy), (0, 10));
    assert_eq!(limit_of(Mode::SubOfTwo, Level::Normal), (10, 100));
    assert_eq!(limit_of(Mode::SubOfTwo, Level::Hard), (100, 1000));
    assert_eq!(limit_of(Mode::MulOfTwo, Level::Easy), (0, 10));
    assert_eq!(limit_of(Mode::MulOfTwo, Level::Normal), (10, 20));
    assert_eq!(limit_of(Mode::MulOfTwo, Level::Hard), (20, 100));
    assert_eq!(limit_of(Mode::DivOfTwo, Level::Easy), (0, 10));
    assert_eq!(limit_of(Mode::DivOfTwo, Level::Normal), (10, 20));
    assert_eq!(limit_of(Mode::DivOfTwo, Level::Hard), (20, 100));
    assert_eq!(limit_of(Mode::Square, Level::Easy), (0, 10));
    assert_eq!(limit_of(Mode::Square, Level::Normal), (10, 20));
    assert_eq!(limit_of(Mode::Square, Level::Hard), (20, 100));
}

#[test]
fn generated_answers_follow_the_formulas() {
    // The random draw is opaque, but every generated answer must fit the
    // formula applied to some pair of operands in the table range.
    for _ in 0..50 {
        let g = Generator::new(Settings { mode: Mode::SumOfTwo, level: Level::Easy });
        let e = g.make_excercise();
        assert!((0..=18).contains(&e.answer));
        let g = Generator::new(Settings { mode: Mode::Square, level: Level::Normal });
        let e = g.make_excercise();
        assert!((100..=361).contains(&e.answer));
    }
}

#[test]
fn sum_exercise_from_fixed_operands() {
    let g = Generator::new(Settings { mode: Mode::SumOfTwo, level: Level::Easy });
    let e = g.exercise_for(3, 4);
    assert_eq!(e.text, "3 + 4 = ?");
    assert_eq!(e.answer, 7);
}

#[test]
fn sub_and_mul_and_square_texts() {
    let g = Generator::new(Settings { mode: Mode::SubOfTwo, level: Level::Easy });
    let e = g.exercise_for(3, 9);
    assert_eq!(e.text, "3 - 9 = ?");
    assert_eq!(e.answer, -6);

    let g = Generator::new(Settings { mode: Mode::MulOfTwo, level: Level::Normal });
    let e = g.exercise_for(12, 15);
    assert_eq!(e.text, "12 * 15 = ?");
    assert_eq!(e.answer, 180);

    let g = Generator::new(Settings { mode: Mode::Square, level: Level::Hard });
    let e = g.exercise_for(21, 99);
    assert_eq!(e.text, "21 * 21 = ?");
    assert_eq!(e.answer, 441);
}

#[test]
fn quotient_is_exact_and_divisor_never_zero() {
    let g = Generator::new(Settings { mode: Mode::DivOfTwo, level: Level::Easy });
    // A zero draw for y must still divide by one.
    let e = g.exercise_for(3, 0);
    assert_eq!(e.text, "3 / 1 = ");
    assert_eq!(e.answer, 3);

    let e = g.exercise_for(7, 4);
    assert_eq!(e.text, "28 / 4 = ");
    assert_eq!(e.answer, 7);
    assert_eq!(28 / 4, e.answer);

    // Generated quotient exercises stay integer-exact for every draw.
    for _ in 0..50 {
        let e = g.make_excercise();
        let parts: Vec<&str> = e.text.split(" / ").collect();
        let dividend: i64 = parts[0].parse().unwrap();
        let divisor: i64 = parts[1].trim_end_matches(" = ").parse().unwrap();
        assert!(divisor >= 1);
        assert_eq!(dividend % divisor, 0);
        assert_eq!(dividend / divisor, e.answer);
    }
}

#[test]
fn validate_answer_is_exact_equality() {
    let e = Exercise { text: String::from("3 + 4 = ?"), answer: 7 };
    assert!(e.validate_answer(7));
    assert!(!e.validate_answer(6));
    assert!(!e.validate_answer(8));
    assert!(!e.validate_answer(-7));
    assert!(!e.validate_answer(0));
}
