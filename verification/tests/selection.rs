use scaffolder::key::Input;
use scaffolder::selection::{Selection, SelectionState};

fn at(len: usize, cursor: usize) -> Selection {
    let start = Selection::new(len).expect("a list with items");
    let downs = vec![Input::Down; cursor];
    let placed = start.run(&downs);
    assert_eq!(placed.state(), SelectionState::Active(cursor));
    placed
}

#[test]
fn nothing_to_select_from_gives_no_selection() {
    assert_eq!(Selection::new(0), None);
}

#[test]
fn a_fresh_selection_is_active_on_the_first_item() {
    let selection = Selection::new(5).unwrap();
    assert_eq!(selection.len(), 5);
    assert_eq!(selection.cursor(), Some(0));
    assert_eq!(selection.state(), SelectionState::Active(0));
    assert!(!selection.is_terminal());
    assert_eq!(selection.chosen(), None);
}

#[test]
fn down_down_enter_selects_the_third_of_five() {
    let inputs = vec![Input::Down, Input::Down, Input::Confirm];
    let selection = Selection::new(5).unwrap().run(&inputs);
    assert_eq!(selection.state(), SelectionState::Confirmed(2));
    assert_eq!(selection.chosen(), Some(2));
}

#[test]
fn up_enter_wraps_to_the_last_of_five() {
    let inputs = vec![Input::Up, Input::Confirm];
    let selection = Selection::new(5).unwrap().run(&inputs);
    assert_eq!(selection.state(), SelectionState::Confirmed(4));
    assert_eq!(selection.chosen(), Some(4));
}

#[test]
fn down_moves_one_later() {
    assert_eq!(at(5, 0).step(Input::Down).state(), SelectionState::Active(1));
    assert_eq!(at(5, 3).step(Input::Down).state(), SelectionState::Active(4));
}

#[test]
fn up_moves_one_earlier() {
    assert_eq!(at(5, 4).step(Input::Up).state(), SelectionState::Active(3));
    assert_eq!(at(5, 1).step(Input::Up).state(), SelectionState::Active(0));
}

#[test]
fn up_at_the_first_item_wraps_to_the_last() {
    for len in [1usize, 2, 3, 5, 17, 1000] {
        assert_eq!(at(len, 0).step(Input::Up).state(), SelectionState::Active(len - 1));
    }
}

#[test]
fn down_at_the_last_item_wraps_to_the_first() {
    for len in [1usize, 2, 3, 5, 17, 1000] {
        assert_eq!(at(len, len - 1).step(Input::Down).state(), SelectionState::Active(0));
    }
}

#[test]
fn a_full_cycle_down_returns_to_the_start() {
    for len in [1usize, 2, 5, 8] {
        for start in 0..len {
            let cycled = at(len, start).run(&vec![Input::Down; len]);
            assert_eq!(cycled, at(len, start));
        }
    }
}

#[test]
fn a_full_cycle_up_returns_to_the_start() {
    for len in [1usize, 2, 5, 8] {
        for start in 0..len {
            let cycled = at(len, start).run(&vec![Input::Up; len]);
            assert_eq!(cycled, at(len, start));
        }
    }
}

#[test]
fn the_cursor_never_leaves_the_list() {
    let mut selection = Selection::new(3).unwrap();
    let inputs = [Input::Up, Input::Up, Input::Down, Input::Up, Input::Up, Input::Up, Input::Down];
    let expected = [2, 1, 2, 1, 0, 2, 0];
    for (input, cursor) in inputs.into_iter().zip(expected) {
        selection = selection.step(input);
        assert_eq!(selection.cursor(), Some(cursor));
        assert!(cursor < selection.len());
    }
}

#[test]
fn the_largest_list_wraps_without_overflow() {
    let selection = Selection::new(usize::MAX).unwrap();
    let last = selection.step(Input::Up);
    assert_eq!(last.state(), SelectionState::Active(usize::MAX - 1));
    assert_eq!(last.step(Input::Down).state(), SelectionState::Active(0));
}

#[test]
fn confirm_keeps_the_cursor() {
    let confirmed = at(5, 3).step(Input::Confirm);
    assert_eq!(confirmed.state(), SelectionState::Confirmed(3));
    assert_eq!(confirmed.cursor(), Some(3));
    assert_eq!(confirmed.chosen(), Some(3));
    assert!(confirmed.is_terminal());
}

#[test]
fn interrupt_cancels_the_selection() {
    let cancelled = at(5, 3).step(Input::Interrupt);
    assert_eq!(cancelled.state(), SelectionState::Cancelled);
    assert_eq!(cancelled.cursor(), None);
    assert_eq!(cancelled.chosen(), None);
    assert_eq!(cancelled.len(), 5);
    assert!(cancelled.is_terminal());
}

#[test]
fn other_inputs_leave_the_selection_alone() {
    for input in [Input::Character('j'), Input::Backspace, Input::Ignored] {
        assert_eq!(at(5, 2).step(input), at(5, 2));
    }
}

#[test]
fn a_confirmed_selection_no_longer_moves() {
    let confirmed = at(5, 2).step(Input::Confirm);
    for input in [Input::Up, Input::Down, Input::Confirm, Input::Interrupt, Input::Ignored] {
        assert_eq!(confirmed.step(input), confirmed);
    }
}

#[test]
fn a_cancelled_selection_stays_cancelled() {
    let cancelled = at(5, 2).step(Input::Interrupt);
    for input in [Input::Up, Input::Down, Input::Confirm, Input::Interrupt] {
        assert_eq!(cancelled.step(input), cancelled);
    }
}

#[test]
fn running_no_inputs_leaves_the_selection_alone() {
    assert_eq!(at(4, 1).run(&Vec::new()), at(4, 1));
}

#[test]
fn cancelling_forgets_where_the_cursor_was() {
    assert_eq!(at(5, 1).step(Input::Interrupt), at(5, 4).step(Input::Interrupt));
}
