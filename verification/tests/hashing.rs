use sha256_hasher::single_block::single_hash_32;
use sha256_hasher::stats::HashStats;
use sha256_hasher::{extend_and_hash, hash, hashv, hashv_with_stats, Digest, Hasher};

fn generic_digest(frags: &[&[u8]]) -> Digest {
    let mut hasher = Hasher::default();
    hasher.hashv(frags);
    hasher.result()
}

fn hex_of(bytes: &[u8]) -> String {
    let mut s = String::new();
    for b in bytes {
        s.push_str(&format!("{:02x}", b));
    }
    s
}

#[test]
fn lib_test_single_hash_32() {
    let inputs = vec![solana_hash::Hash::new_unique().to_bytes()];

    let iters: usize = 200_000;

    // Run the sha2-backed implementation
    let before = std::time::Instant::now();
    let mut sw_final = Digest::new(solana_hash::Hash::new_unique().to_bytes());
    for _ in 0..iters {
        let mut hasher = Hasher::default();
        hasher.hashv(&[&inputs[0]]);
        sw_final = hasher.result()
    }
    let sw_duration = before.elapsed();

    // Run our implementation
    let before = std::time::Instant::now();
    let mut my_final = Digest::new(solana_hash::Hash::new_unique().to_bytes());
    for _ in 0..iters {
        my_final = hashv(&[&inputs[0]]);
    }
    let my_duration = before.elapsed();

    assert_eq!(my_final, sw_final, "Mismatch in hash results");

    println!(
        "Bench {} Hash: sha2 {:?} vs our {:?}",
        iters, sw_duration, my_duration
    );
}

#[test]
fn shani_hasher_optimized_test_single_hash_32() {
    let inputs = vec![rand::random::<[u8; 32]>()];

    let iters: usize = 100_000;

    // Run the sha2 implementation
    let before = std::time::Instant::now();
    let mut sw_final = vec![];
    for _ in 0..iters {
        let mut sw = <sha2::Sha256 as sha2::Digest>::new();
        sha2::Digest::update(&mut sw, inputs[0]);
        sw_final = sha2::Digest::finalize(sw).to_vec();
    }
    let sw_duration = before.elapsed();

    // Run our implementation
    let before = std::time::Instant::now();
    let mut my_final = vec![];
    for _ in 0..iters {
        my_final = single_hash_32(&inputs[0]).to_vec();
    }
    let my_duration = before.elapsed();

    assert_eq!(my_final.len(), sw_final.len());

    assert_eq!(my_final, sw_final, "Mismatch in hash results");

    println!(
        "Bench {} hashes: sha2 {:?} vs our {:?}",
        iters, sw_duration, my_duration
    );
}

#[test]
fn kernel_matches_generic_on_boundary_and_random_inputs() {
    let zero = [0u8; 32];
    let ones = [0xffu8; 32];
    assert_eq!(hashv(&[&zero]), generic_digest(&[&zero]));
    assert_eq!(hashv(&[&ones]), generic_digest(&[&ones]));
    for _ in 0..64 {
        let x = rand::random::<[u8; 32]>();
        assert_eq!(hashv(&[&x]), generic_digest(&[&x]));
        let mut sw = <sha2::Sha256 as sha2::Digest>::new();
        sha2::Digest::update(&mut sw, x);
        let reference: [u8; 32] = sha2::Digest::finalize(sw).into();
        assert_eq!(single_hash_32(&x), reference);
    }
}

#[test]
fn generic_equivalence_on_non_kernel_shapes() {
    let empty: &[&[u8]] = &[];
    assert_eq!(hashv(empty), generic_digest(empty));

    let short = [7u8; 3];
    assert_eq!(hashv(&[&short]), generic_digest(&[&short]));

    let under = [1u8; 31];
    let over = [2u8; 33];
    assert_eq!(hashv(&[&under]), generic_digest(&[&under]));
    assert_eq!(hashv(&[&over]), generic_digest(&[&over]));

    // two fragments summing to exactly 32 bytes still take the generic path
    let a = [3u8; 16];
    let b = [4u8; 16];
    assert_eq!(hashv(&[&a, &b]), generic_digest(&[&a, &b]));
    // and match hashing the concatenation as a single 32-byte fragment
    let mut joined = [0u8; 32];
    joined[..16].copy_from_slice(&a);
    joined[16..].copy_from_slice(&b);
    assert_eq!(hashv(&[&a, &b]), hashv(&[&joined]));
}

#[test]
fn repeated_calls_return_identical_digests() {
    let block = rand::random::<[u8; 32]>();
    let first = hashv(&[&block]);
    for _ in 0..8 {
        assert_eq!(hashv(&[&block]), first);
    }
    let a = [5u8; 7];
    let b = [6u8; 40];
    let first = hashv(&[&a, &b]);
    for _ in 0..8 {
        assert_eq!(hashv(&[&a, &b]), first);
    }
}

#[test]
fn extend_and_hash_matches_hash_of_concatenation() {
    let d = hash(b"some seed value");
    let extras: [&[u8]; 3] = [b"", b"x", b"a longer extension with many bytes"];
    for extra in extras {
        let mut joined = d.to_bytes().to_vec();
        joined.extend_from_slice(extra);
        assert_eq!(extend_and_hash(&d, extra), hash(&joined));
    }
}

#[test]
fn known_answer_digests() {
    // published SHA-256 test vectors
    assert_eq!(
        hex_of(&hash(b"").to_bytes()),
        "e3b0c44298fc1c149afbf4c8996fb92427ae41e4649b934ca495991b7852b855"
    );
    assert_eq!(
        hex_of(&hash(b"abc").to_bytes()),
        "ba7816bf8f01cfea414140de5dae2223b00361a396177a9cb410ff61f20015ad"
    );
    // 32 zero bytes: a single-block input, so this pins the optimized kernel
    let zero = [0u8; 32];
    assert_eq!(
        hex_of(&hash(&zero).to_bytes()),
        "66687aadf862bd776c8fc18b8e9f8e20089714856ee233b3902a591d0d5f2925"
    );
    assert_eq!(
        hex_of(&generic_digest(&[&zero]).to_bytes()),
        "66687aadf862bd776c8fc18b8e9f8e20089714856ee233b3902a591d0d5f2925"
    );
    assert_eq!(
        hex_of(&single_hash_32(&zero)),
        "66687aadf862bd776c8fc18b8e9f8e20089714856ee233b3902a591d0d5f2925"
    );
}

#[test]
fn counters_move_up_by_one_per_routed_call() {
    let mut stats = HashStats::new();
    assert_eq!(stats.hits(), 0);
    for i in 0..32 {
        assert_eq!(stats.miss_count(i), 0);
    }

    let block = [9u8; 32];
    let (d1, log_due) = hashv_with_stats(&[&block], &mut stats);
    assert_eq!(d1, hashv(&[&block]));
    assert_eq!(stats.hits(), 1);
    // the very first hit crosses the logging interval
    assert!(log_due);
    let (_, log_due) = hashv_with_stats(&[&block], &mut stats);
    assert_eq!(stats.hits(), 2);
    assert!(!log_due);

    // a three-byte input lands in the bucket for length 3
    let (d2, log_due) = hashv_with_stats(&[&[1u8, 2, 3]], &mut stats);
    assert_eq!(d2, hashv(&[&[1u8, 2, 3]]));
    assert!(!log_due);
    assert_eq!(stats.miss_count(2), 1);
    // an empty input is clamped into the first bucket
    let empty: &[&[u8]] = &[];
    hashv_with_stats(empty, &mut stats);
    assert_eq!(stats.miss_count(0), 1);
    // a large input is clamped into the last bucket
    let big = [0u8; 100];
    hashv_with_stats(&[&big], &mut stats);
    assert_eq!(stats.miss_count(31), 1);
    // hits were untouched by the misses
    assert_eq!(stats.hits(), 2);
    let mut total: u64 = 0;
    for i in 0..32 {
        total += stats.miss_count(i);
    }
    assert_eq!(total, 3);
}

#[test]
fn cloned_hasher_continues_from_the_same_bytes() {
    let mut first = Hasher::default();
    first.hash(b"ab");
    let mut second = first.clone();
    first.hash(b"c");
    second.hash(b"c");
    assert_eq!(first.result(), hash(b"abc"));
    assert_eq!(second.result(), hash(b"abc"));
}

#[test]
fn scenario_paths_agree_and_empty_fragments_are_noops() {
    let zero = [0u8; 32];
    assert_eq!(hashv(&[&zero]), generic_digest(&[&zero]));

    let empty: &[u8] = &[];
    let tail: &[u8] = &[0x01, 0x02, 0x03];
    assert_eq!(hashv(&[empty, tail]), hashv(&[tail]));
}
