use buttre_platform::candidate_panel::panel_content;
use buttre_platform::candidates::{CandidateMotion, CandidateState, CandidateView};

fn views(n: usize) -> Vec<CandidateView> {
    (0..n)
        .map(|i| CandidateView {
            display: format!("c{i} (gloss)"),
            value: format!("c{i}"),
        })
        .collect()
}

fn state(n: usize) -> CandidateState {
    let mut s = CandidateState::default();
    s.set(views(n));
    s
}

#[test]
fn empty_state_is_inert() {
    let mut s = CandidateState::default();
    assert!(s.is_empty());
    assert!(!s.clear(), "clearing nothing must not ask for a repaint");
    assert!(!s.move_next());
    assert!(!s.move_prev());
    assert_eq!(s.take_current(), None);
    assert_eq!(s.page_count(9), 0);
}

#[test]
fn set_resets_cursor_to_top() {
    let mut s = state(5);
    s.move_next();
    s.move_next();
    assert_eq!(s.cursor(), 2);
    s.set(views(3));
    assert_eq!(s.cursor(), 0);
}

#[test]
fn cursor_wraps_both_ways() {
    let mut s = state(3);
    assert!(s.move_prev());
    assert_eq!(s.cursor(), 2, "prev from the top wraps to the end");
    assert!(s.move_next());
    assert_eq!(s.cursor(), 0, "next from the end wraps to the top");
}

#[test]
fn paging_clamps_instead_of_wrapping() {
    let mut s = state(12);
    assert!(s.page_down(5));
    assert_eq!(s.cursor(), 5);
    assert!(s.page_down(5));
    assert_eq!(s.cursor(), 10);
    assert!(s.page_down(5));
    assert_eq!(s.cursor(), 11);
    assert!(!s.page_down(5), "already at the end");
    s.page_up(5);
    assert_eq!(s.cursor(), 6);
}

#[test]
fn page_window_follows_the_cursor() {
    let mut s = state(12);
    assert_eq!(s.page_start(5), 0);
    assert_eq!(s.page_items(5).len(), 5);
    s.page_down(5);
    assert_eq!(s.page_start(5), 5);
    s.page_down(5);
    assert_eq!(s.page_start(5), 10);
    assert_eq!(s.page_items(5).len(), 2, "last page is short");
    assert_eq!(s.page_count(5), 3);
}

#[test]
fn number_keys_are_page_relative() {
    let mut s = state(12);
    s.page_down(5);
    assert_eq!(s.take_at_page(1, 5).as_deref(), Some("c6"));
}

#[test]
fn selection_clears_the_list() {
    let mut s = state(4);
    assert_eq!(s.take_at(2).as_deref(), Some("c2"));
    assert!(s.is_empty(), "a chosen list must not stay live");
    assert_eq!(s.cursor(), 0);
}

#[test]
fn out_of_range_selection_leaves_the_list_alone() {
    let mut s = state(3);
    s.move_next();
    assert_eq!(s.take_at(9), None);
    assert_eq!(s.len(), 3, "a stray key must not dismiss the list");
    assert_eq!(s.cursor(), 1);
    assert_eq!(s.take_at_page(4, 5), None);
    assert_eq!(s.len(), 3);
}

#[test]
fn next_then_prev_returns_to_the_same_candidate() {
    for n in 1..6 {
        for start in 0..n {
            let mut s = state(n);
            for _ in 0..start {
                s.move_next();
            }
            assert_eq!(s.cursor(), start);
            s.move_next();
            s.move_prev();
            assert_eq!(s.cursor(), start);
            s.move_prev();
            s.move_next();
            assert_eq!(s.cursor(), start);
        }
    }
}

#[test]
fn every_motion_keeps_the_cursor_inside() {
    let motions = [
        CandidateMotion::Next,
        CandidateMotion::Prev,
        CandidateMotion::PageDown,
        CandidateMotion::PageUp,
    ];
    let mut s = state(7);
    for round in 0..20 {
        let m = motions[round % 4];
        s.move_cursor(m, 3);
        assert!(s.cursor() < s.len());
        let start = s.page_start(3);
        assert!(start <= s.cursor() && s.cursor() < start + 3);
    }
}

#[test]
fn single_item_list_never_moves() {
    let mut s = state(1);
    assert!(!s.move_next());
    assert!(!s.move_prev());
    assert!(!s.page_down(9));
    assert!(!s.page_up(9));
    assert_eq!(s.take_current().as_deref(), Some("c0"));
    assert!(s.is_empty());
}

#[test]
fn page_count_rounds_up() {
    assert_eq!(state(9).page_count(9), 1);
    assert_eq!(state(10).page_count(9), 2);
    assert_eq!(state(20).page_count(9), 3);
}

#[test]
fn clone_keeps_list_and_cursor() {
    let mut s = state(4);
    s.move_next();
    let c = s.clone();
    assert_eq!(c, s);
}

#[test]
fn panel_shows_the_page_holding_the_cursor() {
    let mut s = state(12);
    assert!(panel_content(&CandidateState::default(), 9).is_none());
    s.page_down(9);
    let p = panel_content(&s, 9).expect("a list is showing");
    assert_eq!(p.lines, vec!["1. c9 (gloss)", "2. c10 (gloss)", "3. c11 (gloss)"]);
    assert_eq!(p.highlight, 0);
    assert_eq!(p.footer.as_deref(), Some("Trang 2 / 2"));
    let single = panel_content(&state(3), 9).expect("a list is showing");
    assert_eq!(single.footer, None);
}
