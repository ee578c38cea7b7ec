use std::cell::Cell;

use tempscope::{create_helper, create_helper_with_retries, effective_budget, tmpname,
    AttemptError, ErrorKind, NUM_RETRIES};

fn is_alphanumeric_byte(b: u8) -> bool {
    (b'0'..=b'9').contains(&b) || (b'A'..=b'Z').contains(&b) || (b'a'..=b'z').contains(&b)
}

#[test]
fn test_customnamed() {
    let path = create_helper("base", "prefix", "suffix", 12, |p: String| {
        Ok::<String, AttemptError>(p)
    })
    .unwrap();
    let name = path.strip_prefix("base/").unwrap();
    assert!(name.starts_with("prefix"));
    assert!(name.ends_with("suffix"));
    assert_eq!(name.len(), 24);
}

#[test]
fn tmpname_has_exact_length_prefix_and_suffix() {
    let name = tmpname("pre", "post", 5);
    assert_eq!(name.len(), 3 + 5 + 4);
    assert!(name.starts_with("pre"));
    assert!(name.ends_with("post"));
    for b in name.as_bytes()[3..8].iter() {
        assert!(is_alphanumeric_byte(*b));
    }
}

#[test]
fn tmpname_with_empty_parts() {
    assert_eq!(tmpname("", "", 0), "");
    let only_random = tmpname("", "", 8);
    assert_eq!(only_random.len(), 8);
    assert!(only_random.bytes().all(is_alphanumeric_byte));
    assert_eq!(tmpname("just-prefix", "", 0), "just-prefix");
    assert_eq!(tmpname("", ".txt", 0), ".txt");
}

#[test]
fn tmpname_total_length_twenty_four() {
    let name = tmpname("prefix", "suffix", 12);
    assert_eq!(name.len(), 24);
    assert!(name.starts_with("prefix"));
    assert!(name.ends_with("suffix"));
}

#[test]
fn zero_random_len_makes_exactly_one_attempt() {
    let attempts = Cell::new(0u32);
    let res = create_helper_with_retries("base", "stable", "", 0, 100, |_p: String| {
        attempts.set(attempts.get() + 1);
        Err::<(), AttemptError>(AttemptError::AlreadyExists)
    });
    assert_eq!(attempts.get(), 1);
    let e = res.unwrap_err();
    assert_eq!(e.kind, ErrorKind::Exhausted);
    assert_eq!(e.path, "base");
}

#[test]
fn zero_random_len_attempts_the_deterministic_path() {
    let res = create_helper_with_retries("dir", "pre", "suf", 0, 100, |p: String| {
        Ok::<String, AttemptError>(p)
    });
    assert_eq!(res.unwrap(), "dir/presuf");
}

#[test]
fn all_conflicts_exhaust_the_whole_budget() {
    let attempts = Cell::new(0u32);
    let res = create_helper_with_retries("shared", "t", "", 6, 7, |_p: String| {
        attempts.set(attempts.get() + 1);
        Err::<(), AttemptError>(AttemptError::AlreadyExists)
    });
    assert_eq!(attempts.get(), 7);
    let e = res.unwrap_err();
    assert_eq!(e.kind, ErrorKind::Exhausted);
    assert_ne!(e.kind, ErrorKind::AlreadyExists);
    assert_eq!(e.path, "shared");
    assert_eq!(e.message, "too many temporary files exist");
    assert!(e.is_already_exists());
}

#[test]
fn success_after_conflicts_stops_retrying() {
    let attempts = Cell::new(0u32);
    let res = create_helper_with_retries("base", "job", "", 6, 10, |p: String| {
        attempts.set(attempts.get() + 1);
        if attempts.get() < 3 {
            Err(AttemptError::AlreadyExists)
        } else {
            Ok(p)
        }
    });
    assert_eq!(attempts.get(), 3);
    let path = res.unwrap();
    assert!(path.starts_with("base/job"));
    assert_eq!(path.len(), "base/job".len() + 6);
}

#[test]
fn other_failure_propagates_immediately_with_path() {
    let attempts = Cell::new(0u32);
    let res = create_helper_with_retries("root", "x", "y", 4, 50, |_p: String| {
        attempts.set(attempts.get() + 1);
        Err::<(), AttemptError>(AttemptError::Other("permission denied".to_string()))
    });
    assert_eq!(attempts.get(), 1);
    let e = res.unwrap_err();
    assert_eq!(e.kind, ErrorKind::Other);
    assert_eq!(e.message, "permission denied");
    assert!(e.path.starts_with("root/x"));
    assert!(e.path.ends_with("y"));
    assert_eq!(e.path.len(), "root/".len() + 1 + 4 + 1);
    assert!(!e.is_already_exists());
}

#[test]
fn conflict_then_other_failure_is_not_retried_past_it() {
    let attempts = Cell::new(0u32);
    let res = create_helper_with_retries("d", "a", "b", 3, 9, |_p: String| {
        attempts.set(attempts.get() + 1);
        if attempts.get() == 1 {
            Err::<(), AttemptError>(AttemptError::AlreadyExists)
        } else {
            Err(AttemptError::Other("disk full".to_string()))
        }
    });
    assert_eq!(attempts.get(), 2);
    let e = res.unwrap_err();
    assert_eq!(e.kind, ErrorKind::Other);
    assert_eq!(e.message, "disk full");
}

#[test]
fn budget_collapses_to_one_without_randomness() {
    assert_eq!(effective_budget(0, 100), 1);
    assert_eq!(effective_budget(0, 1), 1);
    assert_eq!(effective_budget(6, 7), 7);
    assert_eq!(effective_budget(1, 100), 100);
}

#[test]
fn default_budget_is_large() {
    assert_eq!(NUM_RETRIES, 0x8000_0000);
    let res = create_helper("b", "p", "s", 2, |p: String| Ok::<String, AttemptError>(p));
    let path = res.unwrap();
    assert!(path.starts_with("b/p"));
    assert!(path.ends_with("s"));
}

#[test]
fn generated_names_differ_between_attempts() {
    let first = tmpname("n", "", 12);
    let second = tmpname("n", "", 12);
    // 62^12 candidates: two independent draws virtually never collide
    assert_ne!(first, second);
}
