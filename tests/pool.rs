use emoji_gen::EmojiPool;

#[test]
fn pool_is_not_empty() {
    let pool = EmojiPool::new();
    assert!(pool.len() > 0);
    assert_eq!(pool.as_slice().len(), pool.len());
}

#[test]
fn pool_reads_agree() {
    let a = EmojiPool::new();
    let b = EmojiPool::new();
    assert_eq!(a.len(), b.len());
    assert_eq!(a.as_slice(), b.as_slice());
}

#[test]
fn pool_lists_the_crate_emojis_in_order() {
    let pool = EmojiPool::new();
    assert_eq!(pool.get(0), "\u{1F600}");
    let listed: Vec<&str> = emojis::iter().map(|e| e.as_str()).collect();
    assert_eq!(pool.as_slice(), listed.as_slice());
}

#[test]
fn pool_entries_are_known_emojis() {
    let pool = EmojiPool::new();
    for i in 0..pool.len() {
        assert!(emojis::get(pool.get(i)).is_some());
    }
}
