use wallpaper_engine_plasma::generation::{
    combine_seed, image_file_name, pad_tokens, DEFAULT_PAD_ID, PROMPT_TOKENS,
};

#[test]
fn short_prompt_is_padded() {
    let t = pad_tokens(vec![1, 2, 3], 9);
    assert_eq!(t.len(), PROMPT_TOKENS);
    assert_eq!(PROMPT_TOKENS, 77);
    assert_eq!(&t[..3], &[1, 2, 3]);
    assert!(t[3..].iter().all(|&x| x == 9));
}

#[test]
fn long_prompt_is_cut() {
    let long: Vec<u32> = (0..100).collect();
    let t = pad_tokens(long, DEFAULT_PAD_ID);
    assert_eq!(t, (0..77).collect::<Vec<u32>>());
    let exact: Vec<u32> = (0..77).collect();
    assert_eq!(pad_tokens(exact.clone(), 5), exact);
    assert_eq!(pad_tokens(Vec::new(), DEFAULT_PAD_ID), vec![49407; 77]);
}

#[test]
fn file_name_holds_time() {
    assert_eq!(image_file_name(1700000000), "image_1700000000.png");
    assert_eq!(image_file_name(0), "image_0.png");
}

#[test]
fn seed_combines_counters() {
    assert_eq!(combine_seed(100, 50, 20, &Vec::new()), 130);
    // received % transmitted, and interfaces that sent nothing are skipped
    assert_eq!(combine_seed(100, 50, 20, &vec![(17, 5), (9, 0), (4, 10)]), 130 + 2 + 4);
    // arithmetic wraps around
    assert_eq!(combine_seed(u64::MAX, 2, 0, &Vec::new()), 1);
    assert_eq!(combine_seed(0, 0, 1, &Vec::new()), u64::MAX);
}
