use shared_lib::crc_utils::{calculate_hash, calculate_hash_from_bytes, compare_hashes, hash_to_string};
use shared_lib::string_utils::{create_whitespace_cstring_with_len, readable_bytes};

#[test]
fn sha256_of_known_inputs() {
    assert_eq!(
        hash_to_string(&calculate_hash(b"abc")),
        "BA7816BF8F01CFEA414140DE5DAE2223B00361A396177A9CB410FF61F20015AD"
    );
    assert_eq!(
        hash_to_string(&calculate_hash_from_bytes(b"")),
        "E3B0C44298FC1C149AFBF4C8996FB92427AE41E4649B934CA495991B7852B855"
    );
    assert_eq!(calculate_hash(b"x").len(), 32);
    assert_ne!(calculate_hash(b"x"), calculate_hash(b"y"));
}

#[test]
fn hash_text_is_upper_case_hex() {
    assert_eq!(hash_to_string(&[]), "");
    assert_eq!(hash_to_string(&[0x00, 0x0f, 0xa5, 0xff]), "000FA5FF");
}

#[test]
fn hashes_compare_ignoring_case() {
    let h = calculate_hash(b"hello");
    let upper = hash_to_string(&h);
    assert!(compare_hashes(upper.as_bytes(), &h));
    assert!(compare_hashes(upper.to_lowercase().as_bytes(), &h));
    assert!(!compare_hashes(b"00", &h));
    assert!(!compare_hashes(hash_to_string(&calculate_hash(b"other")).as_bytes(), &h));
    assert!(compare_hashes(b"0aFf", &[0x0a, 0xff]));
    assert!(!compare_hashes(b"0aFe", &[0x0a, 0xff]));
}

fn float_text(bytes: u64) -> String {
    const KB: u64 = 1024;
    const MB: u64 = KB * 1024;
    const GB: u64 = MB * 1024;
    const TB: u64 = GB * 1024;
    if bytes < KB {
        format!("{} B", bytes)
    } else if bytes < MB {
        format!("{:.2} KB", bytes as f64 / KB as f64)
    } else if bytes < GB {
        format!("{:.2} MB", bytes as f64 / MB as f64)
    } else if bytes < TB {
        format!("{:.2} GB", bytes as f64 / GB as f64)
    } else {
        format!("{:.2} TB", bytes as f64 / TB as f64)
    }
}

#[test]
fn readable_bytes_examples() {
    assert_eq!(readable_bytes(0), "0 B");
    assert_eq!(readable_bytes(1023), "1023 B");
    assert_eq!(readable_bytes(1024), "1.00 KB");
    assert_eq!(readable_bytes(1536), "1.50 KB");
    assert_eq!(readable_bytes(1048576), "1.00 MB");
    assert_eq!(readable_bytes(5 * 1024 * 1024 * 1024), "5.00 GB");
    assert_eq!(readable_bytes(1 << 40), "1.00 TB");
}

#[test]
fn readable_bytes_matches_float_formatting() {
    let mut values: Vec<u64> = vec![
        1151, 1152, 1153, 1034, 1045, 2047, 1048575, 1048576 + 5243, 1073741823, 1099511627775,
        u64::MAX, u64::MAX - 1, 1 << 53, (1 << 53) + 1, (1 << 54) + 3, (1 << 63) + 1025, 9_007_199_254_740_993,
    ];
    let mut x: u64 = 0x9E37_79B9_7F4A_7C15;
    for _ in 0..3000 {
        x ^= x << 13;
        x ^= x >> 7;
        x ^= x << 17;
        values.push(x >> (x % 60));
        values.push((x % 2_000_000) + 1000);
    }
    for k in 0..20u64 {
        values.push(1024 * k + 512);
        values.push(1024 * 1024 * k + 5 * 1024 * 1024 / 1000);
    }
    for v in values {
        assert_eq!(readable_bytes(v), float_text(v), "{}", v);
    }
}

#[test]
fn whitespace_buffer() {
    assert_eq!(create_whitespace_cstring_with_len(0), Vec::<u8>::new());
    assert_eq!(create_whitespace_cstring_with_len(3), b"   ".to_vec());
}
