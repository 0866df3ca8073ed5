use bluehash::{constant_time_eq, BlueHashCore, Digest, DigestSize, Phase};

fn hex(bytes: &[u8]) -> String {
    let mut out = String::new();
    for b in bytes {
        out.push_str(&format!("{:02x}", b));
    }
    out
}

fn digest(size: DigestSize, message: &[u8]) -> Vec<u8> {
    let mut hasher = BlueHashCore::new(size);
    hasher.update(message);
    hasher.finalize()
}

fn differing_bits(a: &[u8], b: &[u8]) -> u32 {
    a.iter().zip(b.iter()).map(|(x, y)| (x ^ y).count_ones()).sum()
}

/// A fixed sequence of messages of 1 to 40 bytes.
fn sample_messages(count: usize) -> Vec<Vec<u8>> {
    let mut seed: u64 = 0x2545F4914F6CDD1D;
    let mut out = Vec::new();
    for _ in 0..count {
        seed = seed.wrapping_mul(6364136223846793005).wrapping_add(1442695040888963407);
        let len = 1 + (seed >> 33) as usize % 40;
        let mut message = Vec::new();
        for _ in 0..len {
            seed = seed.wrapping_mul(6364136223846793005).wrapping_add(1442695040888963407);
            message.push((seed >> 56) as u8);
        }
        out.push(message);
    }
    out
}

#[test]
fn test_bluehash128() {
    let mut hasher = BlueHashCore::new(DigestSize::Bit128);
    hasher.update("测试消息123".as_bytes());
    let result = hasher.finalize();
    assert_eq!(result.len(), 16);
}

#[test]
fn test_bluehash256() {
    let mut hasher = BlueHashCore::new(DigestSize::Bit256);
    hasher.update("测试消息123".as_bytes());
    let result = hasher.finalize();
    assert_eq!(result.len(), 32);
}

#[test]
fn test_bluehash512() {
    let mut hasher = BlueHashCore::new(DigestSize::Bit512);
    hasher.update("测试消息123".as_bytes());
    let result = hasher.finalize();
    assert_eq!(result.len(), 64);
}

#[test]
fn test_reset() {
    let mut hasher = BlueHashCore::new(DigestSize::Bit256);
    hasher.update("任意数据".as_bytes());
    hasher.reset();
    let result = hasher.finalize();
    let expected = BlueHashCore::new(DigestSize::Bit256).finalize();
    assert!(constant_time_eq(&result, &expected));
}

#[test]
fn initial_words_of_each_size() {
    let small = BlueHashCore::fixed_iv(DigestSize::Bit128);
    let middle = BlueHashCore::fixed_iv(DigestSize::Bit256);
    let large = BlueHashCore::fixed_iv(DigestSize::Bit512);
    assert_eq!(small.len(), 25);
    assert_eq!(middle.len(), 32);
    assert_eq!(large.len(), 40);
    assert_eq!(small[0], 0x0123456789ABCDEF);
    assert_eq!(small[13], 0x68ACE13579BDF24);
    assert_eq!(small[24], 0x89ABCDEF01234567);
    assert_eq!(&middle[..25], &small[..]);
    assert_eq!(middle[25], 0x23456789ABCDEF01);
    assert_eq!(middle[31], 0xEF0123456789ABCD);
    assert_eq!(&large[..32], &middle[..]);
    assert_eq!(large[32], 0x13579BDF02468ACE);
    assert_eq!(large[38], 0x79BDF02468ACE35);
    assert_eq!(large[39], 0x0123456789ABCDEF);
}

#[test]
fn digest_of_the_empty_message_256() {
    assert_eq!(
        hex(&digest(DigestSize::Bit256, b"")),
        "782afb1d8f8f4da1e4ead20d2d659a8e6f8e36b76bd107da12f644718ed1b3aa"
    );
}

#[test]
fn digest_of_abc_128() {
    assert_eq!(hex(&digest(DigestSize::Bit128, b"abc")), "875d02d13221526c59aed96625573d92");
}

#[test]
fn digest_of_abc_256_and_512() {
    assert_eq!(
        hex(&digest(DigestSize::Bit256, b"abc")),
        "00110bbfeb406d41679ef6fe6e7cf1f12f0dac3e3ce31ed5f503e6baa6ee6f95"
    );
    assert_eq!(
        hex(&digest(DigestSize::Bit512, b"abc")),
        "e11b8863be106e166a4b5135a19ea0de580a1ae03b8857e1a9fe6d8f6c63e751\
         d81eee45aeee67ba9df62d0b1b84de86ec54ae5d27af5962c2e86234b4a405ab"
    );
}

#[test]
fn digest_of_a_message_longer_than_the_state() {
    let mut message = Vec::new();
    for _ in 0..2 {
        for b in 0..=255u8 {
            message.push(b);
        }
    }
    assert_eq!(
        hex(&digest(DigestSize::Bit512, &message)),
        "2e936d885fdc3d6614ae1445791853a98215f742d61df44142ecde92b735aa81\
         42071f2d01a7aefdd68ec5dcbd85f453028169acc864e7d4a2e6af0d7bc7cb21"
    );
}

#[test]
fn digest_of_a_multibyte_text() {
    assert_eq!(
        hex(&digest(DigestSize::Bit256, "测试消息123".as_bytes())),
        "ffece1fd94108962926fc6dfa69dc49376373aacca3e33e392274a489f85f1c9"
    );
}

#[test]
fn digest_without_any_absorb() {
    assert_eq!(
        hex(&BlueHashCore::new(DigestSize::Bit256).finalize()),
        "35dac28726bfc9c844f99e5e09e19f33adfc739741d9c34d988f3bf13d3f4de5"
    );
    assert_eq!(
        hex(&BlueHashCore::new(DigestSize::Bit128).finalize()),
        "59035d60576bc37d0a58dd2b2133e169"
    );
}

#[test]
fn absorbing_nothing_still_runs_the_rounds() {
    assert_ne!(
        digest(DigestSize::Bit256, b""),
        BlueHashCore::new(DigestSize::Bit256).finalize()
    );
}

#[test]
fn digest_length_is_fixed_for_every_input() {
    let sizes = [(DigestSize::Bit128, 16), (DigestSize::Bit256, 32), (DigestSize::Bit512, 64)];
    for (size, len) in sizes {
        assert_eq!(digest(size, b"").len(), len);
        assert_eq!(BlueHashCore::new(size).finalize().len(), len);
        for message in sample_messages(5) {
            assert_eq!(digest(size, &message).len(), len);
        }
        assert_eq!(digest(size, &vec![0xA5u8; 1000]).len(), len);
    }
}

#[test]
fn digest_is_deterministic() {
    for size in [DigestSize::Bit128, DigestSize::Bit256, DigestSize::Bit512] {
        for message in sample_messages(5) {
            assert_eq!(digest(size, &message), digest(size, &message));
        }
        assert_eq!(digest(size, b""), digest(size, b""));
    }
}

#[test]
fn finalize_twice_returns_the_same_digest() {
    let mut hasher = BlueHashCore::new(DigestSize::Bit128);
    hasher.update(b"abc");
    let first = hasher.finalize();
    let second = hasher.finalize();
    assert_eq!(first, second);
    assert_eq!(hex(&first), "875d02d13221526c59aed96625573d92");
}

#[test]
fn update_after_finalize_starts_a_new_message() {
    let mut hasher = BlueHashCore::new(DigestSize::Bit128);
    hasher.update(b"abc");
    hasher.finalize();
    hasher.update(b"xyz");
    let again = hasher.finalize();
    assert_eq!(again, digest(DigestSize::Bit128, b"xyz"));
    assert_eq!(hex(&again), "6c1bea59728be2e31eebbd72f24ee116");
}

#[test]
fn reset_after_finalize_gives_a_fresh_hasher() {
    for size in [DigestSize::Bit128, DigestSize::Bit256, DigestSize::Bit512] {
        let mut hasher = BlueHashCore::new(size);
        hasher.update(b"first message");
        hasher.finalize();
        hasher.reset();
        assert_eq!(hasher.finalize(), BlueHashCore::new(size).finalize());
        hasher.reset();
        hasher.reset();
        hasher.update(b"abc");
        assert_eq!(hasher.finalize(), digest(size, b"abc"));
    }
}

#[test]
fn each_absorb_call_is_a_step_of_its_own() {
    let mut hasher = BlueHashCore::new(DigestSize::Bit128);
    hasher.update(b"ab");
    hasher.update(b"c");
    let in_two = hasher.finalize();
    assert_eq!(hex(&in_two), "9eed235e1475de6217c503245d5ad980");
    assert_ne!(in_two, digest(DigestSize::Bit128, b"abc"));
}

#[test]
fn key_changes_the_digest() {
    let mut keyed = BlueHashCore::new_keyed(DigestSize::Bit128, 0xDEADBEEF);
    keyed.update(b"abc");
    let digest_keyed = keyed.finalize();
    assert_eq!(hex(&digest_keyed), "b692cf41e704ffc8b95a5f9cc51ae53e");
    assert_ne!(digest_keyed, digest(DigestSize::Bit128, b"abc"));
    assert_eq!(
        hex(&BlueHashCore::new_keyed(DigestSize::Bit256, 1).finalize()),
        "1f85ab1e7653e4814e83bfa6330862182997c769a50ce7f61e5b1efa9b99e2dd"
    );
}

#[test]
fn reset_keeps_the_key() {
    let mut keyed = BlueHashCore::new_keyed(DigestSize::Bit128, 0xDEADBEEF);
    keyed.update(b"other");
    keyed.reset();
    keyed.update(b"abc");
    assert_eq!(hex(&keyed.finalize()), "b692cf41e704ffc8b95a5f9cc51ae53e");
}

#[test]
fn clone_continues_like_its_source() {
    let mut hasher = BlueHashCore::new(DigestSize::Bit256);
    hasher.update(b"shared prefix");
    let mut copy = hasher.clone();
    hasher.update(b"tail");
    copy.update(b"tail");
    assert_eq!(hasher.finalize(), copy.finalize());
    assert_eq!(copy.digest_size(), DigestSize::Bit256);
}

#[test]
fn pad_appends_marker_zeros_and_bit_count() {
    let fresh = BlueHashCore::new(DigestSize::Bit128);
    assert_eq!(hex(&fresh.pad(b"")), "800000000000000000000000000000000000000000000000");
    let mut three = BlueHashCore::new(DigestSize::Bit128);
    three.update(b"abc");
    assert_eq!(hex(&three.pad(b"abc")), "616263800000000000000000000000000000000000000018");
    let mut five = BlueHashCore::new(DigestSize::Bit128);
    five.update(b"12345");
    assert_eq!(
        hex(&five.pad(b"12345678")),
        "3132333435363738800000000000000000000000000000000000000000000028"
    );
    for len in 0..40usize {
        let padded = fresh.pad(&vec![7u8; len]);
        assert_eq!(padded.len() % 8, 0);
        assert_eq!(padded.len(), len + 1 + (7 - len % 8) + 16);
        assert_eq!(padded[len], 0x80);
    }
}

#[test]
fn flipping_one_bit_changes_about_half_of_the_digest() {
    let mut changed: u32 = 0;
    let mut total: u32 = 0;
    for size in [DigestSize::Bit128, DigestSize::Bit256, DigestSize::Bit512] {
        for (n, message) in sample_messages(20).into_iter().enumerate() {
            let before = digest(size, &message);
            let mut flipped = message.clone();
            let bit = (n * 13) % (message.len() * 8);
            flipped[bit / 8] ^= 1 << (bit % 8);
            let after = digest(size, &flipped);
            changed += differing_bits(&before, &after);
            total += 8 * before.len() as u32;
        }
    }
    assert!(changed * 100 > total * 45);
    assert!(changed * 100 < total * 55);
}

#[test]
fn a_one_bit_flip_never_reproduces_the_digest() {
    for message in sample_messages(4) {
        let before = digest(DigestSize::Bit128, &message);
        for bit in 0..message.len() * 8 {
            let mut flipped = message.clone();
            flipped[bit / 8] ^= 1 << (bit % 8);
            assert_ne!(digest(DigestSize::Bit128, &flipped), before);
        }
    }
}

#[test]
fn appending_bytes_changes_the_digest() {
    assert_eq!(hex(&digest(DigestSize::Bit128, b"abcd")), "32828209f54bc8c8db4f744a2beb6f29");
    assert_eq!(hex(&digest(DigestSize::Bit128, b"abc\0")), "72e35605444d3fbcce7f7613600a07b6");
    for size in [DigestSize::Bit128, DigestSize::Bit256, DigestSize::Bit512] {
        for message in sample_messages(10) {
            let short = digest(size, &message);
            let mut longer = message.clone();
            longer.push(0);
            assert_ne!(digest(size, &longer), short);
            longer.extend_from_slice(b"more");
            assert_ne!(digest(size, &longer), short);
        }
    }
}

#[test]
fn phases_follow_the_calls() {
    let mut hasher = BlueHashCore::new(DigestSize::Bit128);
    assert_eq!(hasher.phase(), Phase::Fresh);
    hasher.update(b"abc");
    assert_eq!(hasher.phase(), Phase::Absorbing);
    hasher.update(b"def");
    assert_eq!(hasher.phase(), Phase::Absorbing);
    hasher.finalize();
    assert_eq!(hasher.phase(), Phase::Finalized);
    hasher.finalize();
    assert_eq!(hasher.phase(), Phase::Finalized);
    hasher.reset();
    assert_eq!(hasher.phase(), Phase::Fresh);
    hasher.finalize();
    assert_eq!(hasher.phase(), Phase::Finalized);
    hasher.update(b"abc");
    assert_eq!(hasher.phase(), Phase::Absorbing);
}

#[test]
fn counter_adds_up_the_absorbed_lengths() {
    let mut hasher = BlueHashCore::new(DigestSize::Bit256);
    assert_eq!(hasher.total_len(), 0);
    hasher.update(b"abc");
    assert_eq!(hasher.total_len(), 3);
    hasher.update(b"");
    assert_eq!(hasher.total_len(), 3);
    hasher.update(&[0u8; 100]);
    assert_eq!(hasher.total_len(), 103);
    hasher.finalize();
    assert_eq!(hasher.total_len(), 103);
    hasher.update(b"xy");
    assert_eq!(hasher.total_len(), 2);
    hasher.reset();
    assert_eq!(hasher.total_len(), 0);
}
