use g3k::normalize_suffix;

fn pseudo_hex(seed: u64, len: usize) -> String {
    let digits = b"0123456789abcdef";
    let mut x = seed.wrapping_mul(6364136223846793005).wrapping_add(1442695040888963407);
    let mut s = String::new();
    for _ in 0..len {
        x = x.wrapping_mul(6364136223846793005).wrapping_add(1442695040888963407);
        s.push(digits[(x >> 60) as usize] as char);
    }
    s
}

#[test]
fn empty_suffix_always_matches() {
    for seed in 0..50u64 {
        let fp = pseudo_hex(seed, 40);
        assert!(g3k::matching::matches(&fp, ""));
    }
    assert!(g3k::matching::matches("", ""));
}

#[test]
fn longer_suffix_never_matches() {
    let fp = pseudo_hex(7, 6);
    let longer = format!("0{}", fp);
    assert!(!g3k::matching::matches(&fp, &longer));
    assert!(!g3k::matching::matches("", "a"));
}

#[test]
fn matches_agrees_with_ends_with() {
    for seed in 0..200u64 {
        let fp = pseudo_hex(seed, 40);
        let n = (seed % 6) as usize;
        let suffix = pseudo_hex(seed / 3, n);
        assert_eq!(g3k::matching::matches(&fp, &suffix), fp.ends_with(&suffix));
        let own = &fp[40 - n..];
        assert!(g3k::matching::matches(&fp, own));
    }
}

#[test]
fn exact_suffix_only() {
    assert!(g3k::matching::matches("0123abcd", "abcd"));
    assert!(g3k::matching::matches("0123abcd", "0123abcd"));
    assert!(!g3k::matching::matches("0123abcd", "abc"));
    assert!(!g3k::matching::matches("0123abcd", "bcdx"));
    assert!(!g3k::matching::matches("0123abcd", "é"));
}

#[test]
fn suffix_is_normalised_to_lowercase() {
    assert_eq!(normalize_suffix("DeAdBEEF"), "deadbeef");
    assert_eq!(normalize_suffix(""), "");
    let target = normalize_suffix("ABCD");
    assert!(g3k::matching::matches("0123abcd", &target));
    assert!(!g3k::matching::matches("0123abcd", "ABCD"));
}

#[test]
fn upper_and_lower_suffix_match_alike() {
    let upper = normalize_suffix("AB");
    let lower = normalize_suffix("ab");
    assert_eq!(upper, lower);
    for fp in ["00ab", "00AB", "ab", "0a0b", ""] {
        if fp.is_ascii() {
            assert_eq!(g3k::matching::matches(fp, &upper), g3k::matching::matches(fp, &lower));
        }
    }
    assert_eq!(normalize_suffix("C0FFee-X"), "c0ffee-x");
}
