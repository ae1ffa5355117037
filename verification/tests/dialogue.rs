use scroll_strategist_cli::dialogue::{Dialogue, Prompt};

/// Hands a line in the way the program does: with the number it reads as.
fn say(d: Dialogue<f64>, line: &str) -> Dialogue<f64> {
    let number = line.trim().parse::<f64>().ok();
    d.answer(line, number)
}

fn run(lines: &[&str]) -> Dialogue<f64> {
    let mut d = Dialogue::new();
    for line in lines {
        d = say(d, line);
    }
    d
}

#[test]
fn a_dialogue_begins_with_the_stats() {
    let d: Dialogue<f64> = Dialogue::new();
    assert_eq!(d.prompt(), Some(Prompt::Stats));
    assert!(!d.is_done());
    assert!(d.into_input().is_none());
}

#[test]
fn a_whole_dialogue() {
    let d = run(&[
        "0, 0\n", "7\n", "60\n", "no\n", "1500.5\n", "2,0\n", "30\n", "YES\n", "9e3\n", "5, 0\n",
        "\n", "10,0\n",
    ]);
    assert!(d.is_done());
    assert_eq!(d.prompt(), None);
    let input = d.into_input().unwrap();
    assert_eq!(input.stats, vec![0, 0]);
    assert_eq!(input.slots, 7);
    assert_eq!(input.goal, vec![10, 0]);
    assert_eq!(input.scrolls.len(), 2);
    assert_eq!(input.scrolls[0].percent, 60.0);
    assert!(!input.scrolls[0].dark);
    assert_eq!(input.scrolls[0].cost, 1500.5);
    assert_eq!(input.scrolls[0].stats, vec![2, 0]);
    assert_eq!(input.scrolls[1].percent, 30.0);
    assert!(input.scrolls[1].dark);
    assert_eq!(input.scrolls[1].cost, 9000.0);
    assert_eq!(input.scrolls[1].stats, vec![5, 0]);
    assert_eq!(input.check_dimensions(), Ok(()));
}

#[test]
fn the_prompts_in_order() {
    let lines = ["1\n", "3\n", "10\n", "y\n", "5\n", "1\n", "70\n", "n\n", "6\n", "2\n", "\n"];
    let expected = [
        Prompt::Stats,
        Prompt::Slots,
        Prompt::Percent(0),
        Prompt::Dark(0),
        Prompt::Cost(0),
        Prompt::ScrollStats(0),
        Prompt::Percent(1),
        Prompt::Dark(1),
        Prompt::Cost(1),
        Prompt::ScrollStats(1),
        Prompt::Percent(2),
    ];
    let mut d: Dialogue<f64> = Dialogue::new();
    for (line, prompt) in lines.iter().zip(expected.iter()) {
        assert_eq!(d.prompt(), Some(*prompt));
        d = say(d, line);
    }
    assert_eq!(d.prompt(), Some(Prompt::Goal));
    d = say(d, "9\n");
    assert_eq!(d.prompt(), None);
    assert!(d.is_done());
}

#[test]
fn a_line_that_is_not_accepted_is_asked_for_again() {
    let mut d: Dialogue<f64> = Dialogue::new();
    for bad in ["\n", "a\n", "1;2\n", "1, ,2\n", "70000\n"] {
        d = say(d, bad);
        assert_eq!(d.prompt(), Some(Prompt::Stats), "{:?}", bad);
    }
    d = say(d, "1,2\n");
    for bad in ["\n", "256\n", "-1\n", "x\n", "1,2\n"] {
        d = say(d, bad);
        assert_eq!(d.prompt(), Some(Prompt::Slots), "{:?}", bad);
    }
    d = say(d, "3\n");
    for bad in ["\n", "", "   \n", "sixty\n"] {
        d = say(d, bad);
        assert_eq!(d.prompt(), Some(Prompt::Percent(0)), "{:?}", bad);
    }
    d = say(d, "60\n");
    for bad in ["\n", "boom\n", "maybe\n", "1\n"] {
        d = say(d, bad);
        assert_eq!(d.prompt(), Some(Prompt::Dark(0)), "{:?}", bad);
    }
    d = say(d, "Y\n");
    for bad in ["\n", "cheap\n"] {
        d = say(d, bad);
        assert_eq!(d.prompt(), Some(Prompt::Cost(0)), "{:?}", bad);
    }
    d = say(d, "12.5\n");
    for bad in ["\n", "1\n", "1,2,3\n", "a,b\n", ""] {
        d = say(d, bad);
        assert_eq!(d.prompt(), Some(Prompt::ScrollStats(0)), "{:?}", bad);
    }
    d = say(d, "1,0\n");
    assert_eq!(d.prompt(), Some(Prompt::Percent(1)));
    d = say(d, "  \n");
    for bad in ["\n", "1\n", "1,2,3\n", "x\n", ""] {
        d = say(d, bad);
        assert_eq!(d.prompt(), Some(Prompt::Goal), "{:?}", bad);
    }
    assert!(!d.is_done());
    d = say(d, "3,3\n");
    assert!(d.is_done());
    let input = d.into_input().unwrap();
    assert_eq!(input.scrolls.len(), 1);
    assert!(input.scrolls[0].dark);
    assert_eq!(input.scrolls[0].cost, 12.5);
}

#[test]
fn an_empty_line_at_the_end_of_input_gives_empty_stats() {
    let d = run(&[""]);
    assert_eq!(d.prompt(), Some(Prompt::Slots));
    let d = run(&["", "0", "1", "n", "1", "", "", ""]);
    let input = d.into_input().unwrap();
    assert_eq!(input.stats, Vec::<u16>::new());
    assert_eq!(input.goal, Vec::<u16>::new());
    assert_eq!(input.scrolls.len(), 1);
    assert_eq!(input.scrolls[0].stats, Vec::<u16>::new());
}

#[test]
fn the_number_is_the_callers() {
    let d: Dialogue<f64> = run(&["1\n", "1\n"]);
    let d = d.answer("not a number\n", Some(42.0));
    assert_eq!(d.prompt(), Some(Prompt::Dark(0)));
    let d = d.answer("n\n", None);
    let d = d.answer("7\n", None);
    assert_eq!(d.prompt(), Some(Prompt::Cost(0)));
    let d = d.answer("7\n", Some(7.0));
    let d = d.answer("2\n", Some(2.0));
    let d = d.answer("\n", Some(1.0));
    let d = d.answer("2\n", None);
    let input = d.into_input().unwrap();
    assert_eq!(input.scrolls[0].percent, 42.0);
    assert_eq!(input.scrolls[0].cost, 7.0);
}

#[test]
fn once_done_nothing_changes() {
    let d = run(&["1\n", "1\n", "1\n", "n\n", "1\n", "1\n", "\n", "2\n", "5\n", "y\n", "\n"]);
    assert!(d.is_done());
    let input = d.into_input().unwrap();
    assert_eq!(input.goal, vec![2]);
    assert_eq!(input.scrolls.len(), 1);
}
