use scroll_strategist_cli::graph::{ItemState, ScrollUse};
use scroll_strategist_cli::opts::{MissingJson, Mode, Opts};
use scroll_strategist_cli::replay::{arrive, find_surviving, turn, Arrival, Turn};
use scroll_strategist_cli::stats::Stats;

fn leaf(slots: u8, stats: &[u16]) -> ItemState<f64> {
    ItemState::new_exists(slots, Stats::from_vec(stats.to_vec()))
}

fn node(slots: u8, stats: &[u16], scroll: usize, outcomes: Vec<ItemState<f64>>) -> ItemState<f64> {
    ItemState::Exists {
        slots,
        stats: Stats::from_vec(stats.to_vec()),
        child: Some(Box::new(ScrollUse { p_goal: 0.5, exp_cost: 5.0, scroll, outcomes })),
    }
}

fn stats_of(state: &ItemState<f64>) -> Vec<u16> {
    match state {
        ItemState::Exists { stats, .. } => stats.values().clone(),
        ItemState::Boomed => panic!("the item is gone"),
    }
}

fn slots_of(state: &ItemState<f64>) -> u8 {
    match state {
        ItemState::Exists { slots, .. } => *slots,
        ItemState::Boomed => panic!("the item is gone"),
    }
}

#[test]
fn a_new_state_has_nothing_decided() {
    let s = leaf(3, &[1, 2]);
    assert!(s.child().is_none());
    assert_eq!(slots_of(&s), 3);
    assert_eq!(stats_of(&s), vec![1, 2]);
    assert!(ItemState::<f64>::Boomed.child().is_none());
}

#[test]
fn the_child_is_the_scroll_to_use() {
    let s = node(1, &[0], 4, vec![leaf(0, &[1]), ItemState::Boomed]);
    let child = s.child().unwrap();
    assert_eq!(child.scroll, 4);
    assert_eq!(child.p_goal, 0.5);
    assert_eq!(child.exp_cost, 5.0);
    assert_eq!(child.outcomes.len(), 2);
}

#[test]
fn arriving() {
    let s = node(1, &[0], 0, vec![leaf(0, &[1]), leaf(0, &[0])]);
    match arrive(&s) {
        Arrival::Ask { stats, child } => {
            assert_eq!(stats.values(), &vec![0]);
            assert_eq!(child.outcomes.len(), 2);
        }
        _ => panic!("a scroll is recommended here"),
    }
    match arrive(&leaf(0, &[7, 8])) {
        Arrival::Final { stats } => assert_eq!(stats.values(), &vec![7, 8]),
        _ => panic!("nothing is left to decide here"),
    }
    assert!(matches!(arrive(&ItemState::<f64>::Boomed), Arrival::Gone));
}

#[test]
fn a_pass_leads_to_the_changed_stats_and_a_failure_to_the_same() {
    let s = node(2, &[0], 0, vec![leaf(1, &[0]), ItemState::Boomed, leaf(1, &[3])]);
    let stats = Stats::from_vec(vec![0]);
    let child = s.child().unwrap();
    match turn(&stats, child, "y\n") {
        Turn::Moved(next) => assert_eq!(stats_of(next), vec![3]),
        _ => panic!("the scroll passed"),
    }
    match turn(&stats, child, " No \n") {
        Turn::Moved(next) => assert_eq!(stats_of(next), vec![0]),
        _ => panic!("the scroll failed"),
    }
    assert!(matches!(turn(&stats, child, "boom\n"), Turn::Gone));
    assert!(matches!(turn(&stats, child, "what\n"), Turn::Again));
    assert!(matches!(turn(&stats, child, "\n"), Turn::Again));
}

#[test]
fn the_first_outcome_that_fits_is_taken() {
    let s = node(
        5,
        &[1, 1],
        0,
        vec![leaf(1, &[1, 1]), leaf(2, &[2, 1]), leaf(3, &[1, 1]), leaf(4, &[1, 2])],
    );
    let stats = Stats::from_vec(vec![1, 1]);
    let child = s.child().unwrap();
    match turn(&stats, child, "yes") {
        Turn::Moved(next) => assert_eq!((slots_of(next), stats_of(next)), (2, vec![2, 1])),
        _ => panic!("the scroll passed"),
    }
    match turn(&stats, child, "false") {
        Turn::Moved(next) => assert_eq!(slots_of(next), 1),
        _ => panic!("the scroll failed"),
    }
    let found = find_surviving(&child.outcomes, &stats, true).unwrap();
    assert_eq!(slots_of(found), 2);
    let found = find_surviving(&child.outcomes, &Stats::from_vec(vec![1, 2]), false).unwrap();
    assert_eq!(slots_of(found), 4);
}

#[test]
fn without_a_fitting_outcome_the_stats_are_final() {
    let stats = Stats::from_vec(vec![0]);
    let only_pass = node(1, &[0], 0, vec![leaf(0, &[1])]);
    assert!(matches!(turn(&stats, only_pass.child().unwrap(), "n"), Turn::Stayed));
    let only_fail = node(1, &[0], 0, vec![ItemState::Boomed, leaf(0, &[0])]);
    assert!(matches!(turn(&stats, only_fail.child().unwrap(), "y"), Turn::Stayed));
    let none = node(1, &[0], 0, vec![]);
    assert!(matches!(turn(&stats, none.child().unwrap(), "y"), Turn::Stayed));
    assert!(matches!(turn(&stats, none.child().unwrap(), "n"), Turn::Stayed));
    assert!(matches!(turn(&stats, none.child().unwrap(), "b"), Turn::Gone));
    assert!(find_surviving(&none.child().unwrap().outcomes, &stats, true).is_none());
    let wider = node(1, &[0], 0, vec![leaf(0, &[0, 0])]);
    match turn(&stats, wider.child().unwrap(), "y") {
        Turn::Moved(next) => assert_eq!(stats_of(next), vec![0, 0]),
        _ => panic!("stats of another length are other stats"),
    }
}

#[test]
fn a_walk_down_the_tree() {
    let tree = node(
        2,
        &[0],
        1,
        vec![
            node(1, &[1], 0, vec![leaf(0, &[2]), leaf(0, &[1])]),
            node(1, &[0], 1, vec![leaf(0, &[1]), leaf(0, &[0]), ItemState::Boomed]),
            ItemState::Boomed,
        ],
    );
    let mut here = &tree;
    let mut asked = Vec::new();
    for line in ["n\n", "huh\n", "y\n"] {
        match arrive(here) {
            Arrival::Ask { stats, child } => {
                asked.push(child.scroll);
                if let Turn::Moved(next) = turn(stats, child, line) {
                    here = next;
                }
            }
            _ => panic!("a scroll is recommended here"),
        }
    }
    assert_eq!(asked, vec![1, 1, 1]);
    match arrive(here) {
        Arrival::Final { stats } => assert_eq!(stats.values(), &vec![1]),
        _ => panic!("the walk ends on final stats"),
    }
}

#[test]
fn what_the_options_ask_for() {
    let opts = |json: Option<&str>, noninteractive: bool| Opts {
        json: json.map(|s| s.to_string()),
        noninteractive,
    };
    assert_eq!(opts(Some("in.json"), true).mode(), Ok(Mode::Report));
    assert_eq!(opts(Some("in.json"), false).mode(), Ok(Mode::FileThenReplay));
    assert_eq!(opts(None, false).mode(), Ok(Mode::AskThenReplay));
    assert_eq!(opts(None, true).mode(), Err(MissingJson));
}
