use ruggine::auth::{hash_password, verify_password};
use ruggine::errors::AppError;
use ruggine::keys::{ordered_pair, prefix_pattern, session_expiry};
use ruggine::protocol::UserInfo;
use ruggine::subtitle::generate_members_subtitle;
use ruggine::text::{is_blank, trimmed};
use ruggine::timefmt::{decimal_string, describe_age, format_timestamp};

#[test]
fn blank_texts() {
    assert!(is_blank(""));
    assert!(is_blank("   \t\n"));
    assert!(is_blank("\u{3000}\u{a0}"));
    assert!(!is_blank(" a "));
    assert!(!is_blank("ciao"));
}

#[test]
fn trimming_matches_str_trim() {
    for s in ["  bob ", "bob", "", "   ", "\u{2003}x y\u{85}", "a\u{200b}"] {
        assert_eq!(trimmed(s), s.trim());
    }
}

#[test]
fn decimal_digits() {
    assert_eq!(decimal_string(0), "0");
    assert_eq!(decimal_string(7), "7");
    assert_eq!(decimal_string(59), "59");
    assert_eq!(decimal_string(1234567890), "1234567890");
    assert_eq!(decimal_string(u64::MAX), u64::MAX.to_string());
}

#[test]
fn age_labels() {
    let sent = 1_000_000;
    assert_eq!(describe_age(sent, Some(1_000_000)), "ora");
    assert_eq!(describe_age(sent, Some(1_000_059)), "ora");
    assert_eq!(describe_age(sent, Some(1_000_060)), "1 min fa");
    assert_eq!(describe_age(sent, Some(1_003_599)), "59 min fa");
    assert_eq!(describe_age(sent, Some(1_003_600)), "1 ore fa");
    assert_eq!(describe_age(sent, Some(1_086_399)), "23 ore fa");
    assert_eq!(describe_age(sent, Some(1_086_400)), "pochi secondi fa");
    // A message from the future, or a clock before the epoch.
    assert_eq!(describe_age(sent, Some(999_999)), "pochi secondi fa");
    assert_eq!(describe_age(sent, None), "pochi secondi fa");
}

#[test]
fn timestamps_against_the_clock() {
    let now = std::time::SystemTime::now()
        .duration_since(std::time::UNIX_EPOCH)
        .unwrap()
        .as_secs() as i64;
    assert_eq!(format_timestamp(now), "ora");
    assert_eq!(format_timestamp(now - 120), "2 min fa");
    assert_eq!(format_timestamp(now - 7200), "2 ore fa");
    assert_eq!(format_timestamp(now + 3600), "pochi secondi fa");
}

fn users(names: &[&str]) -> Vec<UserInfo> {
    names.iter().enumerate().map(|(i, n)| UserInfo { user_id: i as u128, username: n.to_string() }).collect()
}

#[test]
fn member_subtitles() {
    assert_eq!(generate_members_subtitle(&users(&[])), "");
    assert_eq!(generate_members_subtitle(&users(&["alice"])), "alice");
    assert_eq!(generate_members_subtitle(&users(&["alice", "bob", "charlie"])), "alice, bob, charlie");
    let long: Vec<String> = (0..10).map(|i| format!("utente_numero_{}", i)).collect();
    let refs: Vec<&str> = long.iter().map(|s| s.as_str()).collect();
    // 16 bytes a name plus separators: the fourth name crosses sixty bytes.
    assert_eq!(
        generate_members_subtitle(&users(&refs)),
        "utente_numero_0, utente_numero_1, utente_numero_2, utente_numero_3..."
    );
    // Bytes, not characters, are counted.
    let wide = "è".repeat(31);
    assert_eq!(generate_members_subtitle(&users(&[wide.as_str(), "x"])), format!("{}...", wide));
}

#[test]
fn participant_order() {
    assert_eq!(ordered_pair(5, 9), (5, 9));
    assert_eq!(ordered_pair(9, 5), (5, 9));
    assert_eq!(ordered_pair(7, 7), (7, 7));
    let a = uuid::Uuid::parse_str("00000000-0000-0000-0000-0000000000ff").unwrap();
    let b = uuid::Uuid::parse_str("01000000-0000-0000-0000-000000000000").unwrap();
    assert!(a < b);
    assert_eq!(ordered_pair(b.as_u128(), a.as_u128()), (a.as_u128(), b.as_u128()));
}

#[test]
fn session_expiry_adds_the_ttl_in_seconds() {
    assert_eq!(session_expiry(1_700_000_000, 86400), 1_700_086_400);
    assert_eq!(session_expiry(0, 0), 0);
}

#[test]
fn search_pattern() {
    assert_eq!(prefix_pattern("bob"), "bob%");
    assert_eq!(prefix_pattern(""), "%");
}

#[test]
fn passwords_round_trip() {
    let h = hash_password("segreto").unwrap();
    assert!(h.starts_with("$argon2"));
    assert_eq!(verify_password("segreto", &h), Ok(true));
    assert_eq!(verify_password("sbagliato", &h), Ok(false));
    // Two hashes of one password differ by their salt.
    assert_ne!(hash_password("segreto").unwrap(), h);
    match verify_password("segreto", "not a phc string") {
        Err(AppError::Crypto(_)) => {}
        other => panic!("{:?}", other),
    }
}

#[test]
fn clock_readings_as_unix_seconds() {
    assert_eq!(ruggine::clock::unix_seconds(None), 0);
    assert_eq!(ruggine::clock::unix_seconds(Some(1_700_000_000)), 1_700_000_000);
    assert_eq!(ruggine::clock::unix_seconds(Some(u64::MAX)), i64::MAX);
    assert!(ruggine::clock::now_unix() > 1_600_000_000);
}

#[test]
fn ordinary_passwords_always_hash() {
    for p in ["", "a", "una password molto più lunga con accenti àèìòù"] {
        let h = hash_password(p).expect("hashing an ordinary password succeeds");
        assert_eq!(verify_password(p, &h), Ok(true));
    }
}
