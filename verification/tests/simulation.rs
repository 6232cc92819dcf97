use monty_hall::aggregate::{
    combine_wins, empty_tally, run, tally_pairs, trial_pair, win_rate_basis_points,
};
use monty_hall::trial::{
    host_opening, monty_hall, play_trial, selection_from_index, switch_selection, Door, Doors,
    Selection,
};

fn all_selections() -> [Selection; 3] {
    [Selection::Door1, Selection::Door2, Selection::Door3]
}

#[test]
fn host_never_opens_pick_or_prize() {
    for prize in all_selections() {
        let doors = Doors::with_prize(prize);
        for pick in all_selections() {
            let host = host_opening(&doors, pick);
            assert_ne!(host, pick);
            assert_eq!(doors.at(host), Door::Goat);
        }
    }
}

#[test]
fn switch_avoids_pick_and_host() {
    for pick in all_selections() {
        for host in all_selections() {
            if pick != host {
                let switched = switch_selection(pick, host);
                assert_ne!(switched, pick);
                assert_ne!(switched, host);
            }
        }
    }
}

#[test]
fn keeping_wins_iff_first_pick_was_right() {
    for prize in all_selections() {
        for pick in all_selections() {
            assert_eq!(play_trial(prize, pick, false), pick == prize);
            assert_eq!(play_trial(prize, pick, true), pick != prize);
        }
    }
}

#[test]
fn selection_from_index_covers_all_doors() {
    assert_eq!(selection_from_index(0), Selection::Door1);
    assert_eq!(selection_from_index(1), Selection::Door2);
    assert_eq!(selection_from_index(2), Selection::Door3);
}

#[test]
fn trial_pair_components_are_zero_or_one() {
    for _ in 0..100 {
        let (no_switch, with_switch) = trial_pair();
        assert!(no_switch <= 1);
        assert!(with_switch <= 1);
    }
}

#[test]
fn totals_never_exceed_trial_count() {
    let trials: u32 = 50_000;
    let (wins_no_switch, wins_switch) = run(trials);
    assert!(wins_no_switch <= trials as u64);
    assert!(wins_switch <= trials as u64);
}

#[test]
fn zero_trials_yield_zero_wins_and_zero_rate() {
    let (wins_no_switch, wins_switch) = run(0);
    assert_eq!(wins_no_switch, 0);
    assert_eq!(wins_switch, 0);
    assert_eq!(win_rate_basis_points(wins_no_switch, 0), 0);
    assert_eq!(win_rate_basis_points(wins_switch, 0), 0);
}

#[test]
fn win_rates_converge_to_one_third_and_two_thirds() {
    let trials: u32 = 1_000_000;
    let (wins_no_switch, wins_switch) = run(trials);
    let pct_no_switch = wins_no_switch as f64 / trials as f64 * 100.0;
    let pct_switch = wins_switch as f64 / trials as f64 * 100.0;
    assert!((pct_no_switch - 33.333).abs() < 2.0, "no-switch rate {}%", pct_no_switch);
    assert!((pct_switch - 66.667).abs() < 2.0, "switch rate {}%", pct_switch);
}

#[test]
fn ten_thousand_trials_favor_switching() {
    let (wins_no_switch, wins_switch) = run(10_000);
    assert!(wins_switch > wins_no_switch);
}

#[test]
fn direct_trials_favor_switching() {
    let trials: u32 = 60_000;
    let mut wins_no_switch: u64 = 0;
    let mut wins_switch: u64 = 0;
    for _ in 0..trials {
        if monty_hall(false) {
            wins_no_switch += 1;
        }
        if monty_hall(true) {
            wins_switch += 1;
        }
    }
    assert!(wins_switch > wins_no_switch);
    assert!(wins_no_switch > 0);
    assert!(wins_switch < trials as u64);
}

#[test]
fn tally_counts_each_strategy_exactly() {
    let outcomes = vec![
        (true, false),
        (false, true),
        (true, true),
        (false, false),
        (true, false),
    ];
    assert_eq!(tally_pairs(&outcomes), (3, 2));
    assert_eq!(tally_pairs(&Vec::new()), (0, 0));
}

#[test]
fn tally_is_independent_of_partitioning() {
    let outcomes = vec![
        (true, false),
        (false, true),
        (true, true),
        (false, false),
        (true, false),
        (false, true),
        (true, true),
    ];
    let whole = tally_pairs(&outcomes);
    for split in 0..=outcomes.len() {
        let left = tally_pairs(&outcomes[..split].to_vec());
        let right = tally_pairs(&outcomes[split..].to_vec());
        assert_eq!(combine_wins(left, right), whole);
        assert_eq!(combine_wins(right, left), whole);
        assert_eq!(combine_wins(combine_wins(left, empty_tally()), right), whole);
    }
}

#[test]
fn basis_points_round_toward_zero() {
    assert_eq!(win_rate_basis_points(1, 3), 3333);
    assert_eq!(win_rate_basis_points(2, 3), 6666);
    assert_eq!(win_rate_basis_points(3, 4), 7500);
    assert_eq!(win_rate_basis_points(10_000, 10_000), 10_000);
    assert_eq!(win_rate_basis_points(0, 7), 0);
}
