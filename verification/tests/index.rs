use emoji_mashup::index::PairIndex;

fn key(lo: &str, hi: &str) -> (String, String) {
    (lo.to_string(), hi.to_string())
}

#[test]
fn the_index_of_no_keys_finds_nothing() {
    let keys = Vec::new();
    let index = PairIndex::build(&keys);
    assert_eq!(index.first(&keys, "a", "b"), None);
    assert_eq!(index.first(&keys, "", ""), None);
}

#[test]
fn the_index_finds_the_first_position_of_a_key() {
    let keys = vec![key("a", "b"), key("c", "d"), key("a", "b"), key("a", "c"), key("c", "d")];
    let index = PairIndex::build(&keys);
    assert_eq!(index.first(&keys, "a", "b"), Some(0));
    assert_eq!(index.first(&keys, "c", "d"), Some(1));
    assert_eq!(index.first(&keys, "a", "c"), Some(3));
    assert_eq!(index.first(&keys, "b", "a"), None);
    assert_eq!(index.first(&keys, "a", ""), None);
}

#[test]
fn the_index_tells_where_a_key_breaks() {
    let keys = vec![key("ab", "c"), key("a", "bc"), key("", "abc"), key("abc", "")];
    let index = PairIndex::build(&keys);
    assert_eq!(index.first(&keys, "a", "bc"), Some(1));
    assert_eq!(index.first(&keys, "ab", "c"), Some(0));
    assert_eq!(index.first(&keys, "", "abc"), Some(2));
    assert_eq!(index.first(&keys, "abc", ""), Some(3));
    assert_eq!(index.first(&keys, "abc", "abc"), None);
}

#[test]
fn the_index_agrees_with_a_walk_over_many_keys() {
    let keys: Vec<(String, String)> =
        (0..300).map(|i| key(&format!("k{}", (i * 13) % 41), &format!("😀{}", (i * 5) % 17))).collect();
    let index = PairIndex::build(&keys);
    for lo in 0..45 {
        for hi in 0..20 {
            let wanted = key(&format!("k{}", lo), &format!("😀{}", hi));
            let walked = keys.iter().position(|k| *k == wanted);
            assert_eq!(index.first(&keys, &wanted.0, &wanted.1), walked, "{:?}", wanted);
        }
    }
}
