use streams_core::{dbg_init_str, Prng, Rng, KEY_SIZE};

fn test_prng(tag: &str) -> Prng {
    dbg_init_str(tag)
}

#[test]
fn nonce_increments_little_endian() {
    let mut r = Rng::new(test_prng("inc"), vec![0u8, 0]);
    let mut buf = vec![0u8; 4];
    r.fill_bytes(&mut buf);
    assert_eq!(r.nonce_bytes(), &vec![1u8, 0]);
    r.fill_bytes(&mut buf);
    assert_eq!(r.nonce_bytes(), &vec![2u8, 0]);
}

#[test]
fn nonce_carry_propagates() {
    let mut r = Rng::new(test_prng("carry"), vec![255u8, 1]);
    let mut buf = vec![0u8; 4];
    r.fill_bytes(&mut buf);
    assert_eq!(r.nonce_bytes(), &vec![0u8, 2]);
}

#[test]
fn nonce_grows_on_full_overflow() {
    let mut r = Rng::new(test_prng("overflow"), vec![0xFFu8]);
    let mut buf = vec![0u8; 4];
    r.fill_bytes(&mut buf);
    assert_eq!(r.nonce_bytes(), &vec![0u8, 0]);
}

#[test]
fn successive_draws_never_repeat_a_nonce() {
    let mut r = Rng::new(test_prng("norepeat"), vec![0xFEu8]);
    let mut seen: Vec<Vec<u8>> = vec![r.nonce_bytes().clone()];
    let mut buf = vec![0u8; 8];
    for _ in 0..6 {
        r.fill_bytes(&mut buf);
        let nonce = r.nonce_bytes().clone();
        assert!(!seen.contains(&nonce), "nonce {:?} repeated", nonce);
        seen.push(nonce);
    }
}

#[test]
fn fill_bytes_is_counter_mode_of_the_prng() {
    let prng = test_prng("counter");
    let mut r = Rng::new(prng.clone(), vec![9u8, 9]);
    let mut out = vec![0u8; 24];
    r.fill_bytes(&mut out);
    assert_eq!(out, prng.gen_bytes(&vec![9u8, 9], 24));
    let mut out2 = vec![0u8; 24];
    r.fill_bytes(&mut out2);
    assert_eq!(out2, prng.gen_bytes(&vec![10u8, 9], 24));
    assert_ne!(out, out2);
}

#[test]
fn try_fill_bytes_is_fill_bytes_behind_ok() {
    let mut r1 = Rng::new(test_prng("try"), vec![4u8]);
    let mut r2 = Rng::new(test_prng("try"), vec![4u8]);
    let mut a = vec![0u8; 16];
    let mut b = vec![0u8; 16];
    r1.fill_bytes(&mut a);
    assert!(r2.try_fill_bytes(&mut b).is_ok());
    assert_eq!(a, b);
}

#[test]
fn next_u32_reads_four_bytes_little_endian() {
    let prng = test_prng("u32");
    let mut r = Rng::new(prng.clone(), vec![1u8]);
    let got = r.next_u32();
    let v = prng.gen_bytes(&vec![1u8], 4);
    let expect = ((v[3] as u32) << 24) | ((v[2] as u32) << 16) | ((v[1] as u32) << 8)
        | (v[0] as u32);
    assert_eq!(got, expect);
    assert_eq!(r.nonce_bytes(), &vec![2u8]);
}

#[test]
fn next_u64_reads_eight_bytes_little_endian() {
    let prng = test_prng("u64");
    let mut r = Rng::new(prng.clone(), vec![1u8]);
    let got = r.next_u64();
    let v = prng.gen_bytes(&vec![1u8], 8);
    let expect = ((v[7] as u64) << 56) | ((v[6] as u64) << 48) | ((v[5] as u64) << 40)
        | ((v[4] as u64) << 32) | ((v[3] as u64) << 24) | ((v[2] as u64) << 16)
        | ((v[1] as u64) << 8) | (v[0] as u64);
    assert_eq!(got, expect);
}

#[test]
fn rng_key_has_fixed_size() {
    let prng = test_prng("size");
    assert_eq!(prng.key_bytes().len(), KEY_SIZE);
}
