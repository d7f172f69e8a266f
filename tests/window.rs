use yew_virtualized::{compute_window, ItemSize, ListController, Window, EXTRA_BUFFER};

fn pseudo_random_heights(seed: u64, len: usize) -> Vec<u64> {
    let mut state = seed;
    let mut out = Vec::new();
    for _ in 0..len {
        state = state.wrapping_mul(6364136223846793005).wrapping_add(1442695040888963407);
        out.push((state >> 33) % 80);
    }
    out
}

fn sum(h: &[u64]) -> u128 {
    h.iter().map(|x| *x as u128).sum()
}

fn reference_window(h: &[u64], scroll: u64, viewport: u64) -> Window {
    let n = h.len();
    let reach = |from: usize, target: u128| -> usize {
        (from..n).find(|i| sum(&h[..i + 1]) >= target).unwrap_or(n)
    };
    let boundary = reach(0, scroll as u128);
    let first = boundary.saturating_sub(EXTRA_BUFFER);
    let end = reach(first, scroll as u128 + viewport as u128);
    let past_last = (end + 1 + EXTRA_BUFFER).min(n);
    Window {
        first_index: first,
        past_last_index: past_last,
        hidden_before: sum(&h[..first]),
        hidden_after: sum(&h[past_last..]),
    }
}

#[test]
fn end_to_end_top_and_bottom() {
    let mut c = ListController::new(100, ItemSize::Pixels(30));
    assert!(c.mounted(300));
    let w = c.window().unwrap();
    assert_eq!(w.first_index, 0);
    assert_eq!(w.hidden_before, 0);
    assert_eq!(w.past_last_index, 15);
    assert_eq!(w.hidden_after, 85 * 30);

    assert!(c.scroll_sampled(3000));
    let w = c.window().unwrap();
    assert_eq!(w.first_index, 100 - 1 - EXTRA_BUFFER);
    assert_eq!(w.hidden_before, 94 * 30);
    assert_eq!(w.past_last_index, 100);
    assert_eq!(w.hidden_after, 0);
}

#[test]
fn window_bounds_and_sums_match_direct_summation() {
    for seed in 0..40u64 {
        let len = (seed * 7 % 60) as usize;
        let h = pseudo_random_heights(seed, len);
        let total: u64 = h.iter().sum();
        for scroll in [0, 1, 17, total / 3, total / 2, total, total + 50] {
            for viewport in [0, 1, 40, 300, total + 1] {
                let w = compute_window(&h, scroll, viewport);
                assert!(w.first_index <= w.past_last_index);
                assert!(w.past_last_index <= h.len());
                assert_eq!(w.hidden_before, sum(&h[..w.first_index]));
                assert_eq!(w.hidden_after, sum(&h[w.past_last_index..]));
                assert_eq!(w, reference_window(&h, scroll, viewport));
            }
        }
    }
}

#[test]
fn window_is_deterministic() {
    let h = pseudo_random_heights(7, 50);
    assert_eq!(compute_window(&h, 400, 250), compute_window(&h, 400, 250));
}

#[test]
fn first_index_never_decreases_when_scrolling_down() {
    let h = pseudo_random_heights(11, 80);
    let total: u64 = h.iter().sum();
    let mut last = 0;
    for scroll in 0..=total + 10 {
        let w = compute_window(&h, scroll, 200);
        assert!(w.first_index >= last);
        last = w.first_index;
    }
}

#[test]
fn overscan_is_exact_in_the_interior() {
    let h = vec![10u64; 50];
    // scroll 205 is first reached by item 20 (items 0..=20 add up to 210)
    let w = compute_window(&h, 205, 100);
    assert_eq!(20 - w.first_index, EXTRA_BUFFER);
    // 305 is reached by item 30, so five more items follow it
    assert_eq!(w.past_last_index, 30 + 1 + EXTRA_BUFFER);
    assert_eq!(w.hidden_before, 150);
    assert_eq!(w.hidden_after, (50 - 36) * 10);
}

#[test]
fn overscan_clamps_at_the_top() {
    let h = vec![10u64; 50];
    let w = compute_window(&h, 25, 10);
    assert_eq!(w.first_index, 0);
    assert_eq!(w.hidden_before, 0);
    assert_eq!(w.past_last_index, 3 + 1 + EXTRA_BUFFER);
}

#[test]
fn empty_list_gives_empty_window() {
    let w = compute_window(&[], 100, 300);
    assert_eq!(
        w,
        Window { first_index: 0, past_last_index: 0, hidden_before: 0, hidden_after: 0 }
    );
}

#[test]
fn scrolled_past_the_content() {
    let h = vec![5u64; 4];
    let w = compute_window(&h, 1000, 10);
    assert_eq!(w.first_index, 0);
    assert_eq!(w.past_last_index, 4);
    assert_eq!(w.hidden_before, 0);
    assert_eq!(w.hidden_after, 0);
}

#[test]
fn largest_heights_do_not_overflow() {
    let h = vec![u64::MAX; 8];
    let w = compute_window(&h, u64::MAX, u64::MAX);
    assert_eq!(w.first_index, 0);
    assert_eq!(w.past_last_index, 7);
    assert_eq!(w.hidden_after, u64::MAX as u128);
}

#[test]
fn zero_heights_put_every_item_in_view() {
    let h = vec![0u64; 30];
    let w = compute_window(&h, 0, 0);
    assert_eq!(w.first_index, 0);
    assert_eq!(w.past_last_index, 1 + EXTRA_BUFFER);
}
