use phifd::Window;

fn contents<T: Copy>(w: &Window<T>) -> Vec<T> {
    let mut out = Vec::new();
    for i in 0..w.len() {
        out.push(*w.get(i));
    }
    out
}

#[test]
fn window_starts_empty() {
    let w: Window<u32> = Window::new(4);
    assert!(w.is_empty());
    assert_eq!(w.len(), 0);
    assert_eq!(w.max(), 4);
}

#[test]
fn window_keeps_latest_in_push_order() {
    let mut w = Window::new(3);
    let mut evicted = Vec::new();
    for x in 1..=7u32 {
        evicted.push(w.push(x));
    }
    assert_eq!(contents(&w), vec![5, 6, 7]);
    assert_eq!(
        evicted,
        vec![None, None, None, Some(1), Some(2), Some(3), Some(4)]
    );
}

#[test]
fn window_shorter_history_is_kept_whole() {
    let mut w = Window::new(10);
    for x in [4i64, -2, 9] {
        assert_eq!(w.push(x), None);
    }
    assert_eq!(contents(&w), vec![4, -2, 9]);
}

#[test]
fn window_evicts_first_value_at_capacity_plus_one() {
    let c = 5usize;
    let mut w = Window::new(c);
    for x in 0..c as u64 {
        assert_eq!(w.push(100 + x), None);
        assert!(w.len() <= c);
    }
    assert_eq!(w.len(), c);
    assert_eq!(w.push(200), Some(100));
    assert_eq!(w.len(), c);
    assert_eq!(contents(&w), vec![101, 102, 103, 104, 200]);
}

#[test]
fn window_of_capacity_one_holds_the_newest() {
    let mut w = Window::new(1);
    assert_eq!(w.push('a'), None);
    assert_eq!(w.push('b'), Some('a'));
    assert_eq!(w.push('c'), Some('b'));
    assert_eq!(contents(&w), vec!['c']);
}

#[test]
fn window_holds_raw_samples_unchanged() {
    let raw = [95.0f64, 100.0, 105.0, 98.0, 102.0];
    let mut w = Window::new(5);
    for &x in raw.iter() {
        w.push(x);
    }
    assert_eq!(contents(&w), raw.to_vec());
}

#[test]
fn window_evicted_values_keep_running_sum_exact() {
    let mut w = Window::new(3);
    let mut sum: i64 = 0;
    for x in [10i64, 20, 30, 40, 50] {
        sum += x;
        if let Some(old) = w.push(x) {
            sum -= old;
        }
    }
    assert_eq!(sum, 40 + 50 + 30);
    assert_eq!(contents(&w).iter().sum::<i64>(), sum);
}
