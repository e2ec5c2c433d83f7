use cazzmachine_lib::selection::draw_without_replacement;

fn first_in_pool(pool: &Vec<usize>) -> usize {
    let _ = pool;
    0
}

fn last_in_pool(pool: &Vec<usize>) -> usize {
    pool.len() - 1
}

fn names(list: &[&str]) -> Vec<String> {
    list.iter().map(|s| s.to_string()).collect()
}

fn select(names: &[String], count: usize, pick: fn(&Vec<usize>) -> usize) -> Vec<String> {
    draw_without_replacement(names.len(), count, pick)
        .into_iter()
        .map(|i| names[i].clone())
        .collect()
}

#[test]
fn draw_from_empty_pool_is_empty() {
    let result = select(&[], 5, first_in_pool);
    assert!(result.is_empty(), "Empty input should return empty output");
}

#[test]
fn draw_more_than_available_takes_all() {
    let scores = names(&["a", "b"]);
    let result = select(&scores, 10, first_in_pool);
    assert_eq!(
        result.len(),
        2,
        "Should return all available when count > providers"
    );
}

#[test]
fn draw_of_zero_is_empty() {
    let scores = names(&["a", "b"]);
    let result = select(&scores, 0, first_in_pool);
    assert!(result.is_empty(), "Count=0 should return empty");
}

#[test]
fn draw_has_no_duplicates() {
    let scores = names(&["a", "b", "c"]);
    let result = select(&scores, 3, last_in_pool);
    assert_eq!(result.len(), 3, "Should select exactly 3 providers");
    let unique: std::collections::HashSet<_> = result.iter().collect();
    assert_eq!(unique.len(), 3, "Should have no duplicates");
}

#[test]
fn draw_takes_picked_position_out_of_pool() {
    // Always taking the last remaining position drains the pool back to front.
    assert_eq!(draw_without_replacement(4, 4, last_in_pool), vec![3, 2, 1, 0]);
    // Always taking the first drains it front to back.
    assert_eq!(draw_without_replacement(4, 2, first_in_pool), vec![0, 1]);
}

#[test]
fn draw_pool_shrinks_in_order() {
    let seen = std::cell::RefCell::new(Vec::new());
    let pick = |pool: &Vec<usize>| {
        seen.borrow_mut().push(pool.clone());
        pool.len() / 2
    };
    let chosen = draw_without_replacement(5, 3, pick);
    assert_eq!(chosen, vec![2, 3, 1]);
    assert_eq!(
        *seen.borrow(),
        vec![vec![0, 1, 2, 3, 4], vec![0, 1, 3, 4], vec![0, 1, 4]]
    );
}
