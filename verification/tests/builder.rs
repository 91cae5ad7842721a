use puid::error::PuidError;
use puid::random::rnd_string;
use puid::{assemble, counter, puid, time, Puid, PuidBuilder, DEFAULT_ENTROPY};
use std::sync::atomic::{AtomicU8, Ordering};

fn is_base36(c: char) -> bool {
    c.is_ascii_digit() || c.is_ascii_lowercase()
}

#[test]
fn rnd_string_test() {
    assert_eq!(rnd_string(12).len(), 12);
}

#[test]
fn puid_builder_test() {
    let counter = AtomicU8::new(0);
    let id = Puid::builder().prefix("foo").unwrap().build(1651312057, &counter, 4242);
    assert!(id.is_ok());
}

#[test]
fn rnd_string_has_the_length_asked_for() {
    for n in [0u8, 1, 2, 12, 24, 100, 255] {
        let s = rnd_string(n);
        assert_eq!(s.chars().count(), n as usize);
        assert!(s.chars().all(|c| c.is_ascii_alphanumeric()), "{s}");
    }
}

#[test]
fn rnd_string_draws_afresh() {
    assert_ne!(rnd_string(64), rnd_string(64));
}

#[test]
fn assemble_joins_the_parts_in_order() {
    assert_eq!(assemble("foo", 1651312057, 7, 4242, "AbC123"), "foo_rb5cjd739uAbC123");
    assert_eq!(assemble("x", 0, 0, 0, ""), "x_0");
    assert_eq!(assemble("user", 36, 255, 35, "Zz"), "user_10255zZz");
}

#[test]
fn counter_is_written_in_decimal_not_base36() {
    assert_eq!(assemble("p", 0, 10, 0, ""), "p_10");
    assert_eq!(assemble("p", 10, 0, 10, ""), "p_a0a");
    assert_eq!(assemble("p", 0, 35, 0, ""), "p_35");
}

#[test]
fn build_without_prefix_fails() {
    let cell = AtomicU8::new(0);
    assert!(matches!(
        Puid::builder().build(1651312057, &cell, 1),
        Err(PuidError::InvalidPrefix)
    ));
    assert!(matches!(
        PuidBuilder::new().entropy(3).build(1, &cell, 3),
        Err(PuidError::InvalidPrefix)
    ));
    assert!(matches!(
        PuidBuilder::default().build(1, &cell, 3),
        Err(PuidError::InvalidPrefix)
    ));
}

#[test]
fn failed_build_leaves_the_counter_alone() {
    let cell = AtomicU8::new(41);
    assert!(Puid::builder().build(1, &cell, 1).is_err());
    assert_eq!(cell.load(Ordering::SeqCst), 41);
}

#[test]
fn build_advances_the_counter_once() {
    let cell = AtomicU8::new(41);
    let id = Puid::builder().prefix("a").unwrap().entropy(0).build(0, &cell, 0).unwrap();
    assert_eq!(id, "a_41");
    assert_eq!(cell.load(Ordering::SeqCst), 42);
    let id = Puid::builder().prefix("a").unwrap().entropy(0).build(0, &cell, 0).unwrap();
    assert_eq!(id, "a_42");
    assert_eq!(cell.load(Ordering::SeqCst), 43);
}

#[test]
fn build_wraps_the_counter_after_255() {
    let cell = AtomicU8::new(255);
    let id = Puid::builder().prefix("a").unwrap().entropy(0).build(0, &cell, 0).unwrap();
    assert_eq!(id, "a_255");
    let id = Puid::builder().prefix("a").unwrap().entropy(0).build(0, &cell, 0).unwrap();
    assert_eq!(id, "a_0");
}

#[test]
fn built_identifier_starts_with_prefix_and_underscore() {
    let cell = AtomicU8::new(0);
    for p in ["f", "fo", "foo", "quux", "b4r", "A1b2C3d4"] {
        let id = Puid::builder().prefix(p).unwrap().build(1651312057, &cell, 77).unwrap();
        assert!(id.starts_with(&format!("{p}_")), "{id}");
    }
}

#[test]
fn built_identifier_has_the_expected_stem_and_tail() {
    let cell = AtomicU8::new(7);
    let id = Puid::builder().prefix("foo").unwrap().build(1651312057, &cell, 4242).unwrap();
    let stem = "foo_rb5cjd739u";
    assert!(id.starts_with(stem), "{id}");
    let tail = &id[stem.len()..];
    assert_eq!(tail.len(), 12);
    assert!(tail.chars().all(|c| c.is_ascii_alphanumeric()), "{id}");
}

#[test]
fn default_entropy_is_twelve() {
    assert_eq!(DEFAULT_ENTROPY, 12);
    let id = PuidBuilder::new().prefix("a").unwrap().build(0, &AtomicU8::new(0), 0).unwrap();
    assert_eq!(id.len(), "a_0".len() + 12);
}

#[test]
fn entropy_sets_the_length_of_the_tail() {
    for n in [0u8, 1, 12, 24, 255] {
        let cell = AtomicU8::new(255);
        let id = Puid::builder().prefix("bar").unwrap().entropy(n).build(36, &cell, 1296).unwrap();
        let stem = "bar_10255100";
        assert!(id.starts_with(stem), "{id}");
        let tail = &id[stem.len()..];
        assert_eq!(tail.len(), n as usize);
        assert!(tail.chars().all(|c| c.is_ascii_alphanumeric()), "{id}");
    }
}

#[test]
fn entropy_zero_leaves_the_stem_alone() {
    let cell = AtomicU8::new(7);
    let id = Puid::builder().prefix("foo").unwrap().entropy(0).build(1651312057, &cell, 4242);
    assert_eq!(id.unwrap(), "foo_rb5cjd739u");
}

#[test]
fn the_last_entropy_set_counts() {
    let cell = AtomicU8::new(1);
    let b = Puid::builder().entropy(3).prefix("ab").unwrap().entropy(5);
    let id = b.build(1, &cell, 1).unwrap();
    assert_eq!(id.len(), "ab_111".len() + 5);
}

#[test]
fn default_builder_draws_no_random_characters() {
    let cell = AtomicU8::new(2);
    let id = PuidBuilder::default().prefix("ab").unwrap().build(1, &cell, 3).unwrap();
    assert_eq!(id, "ab_123");
}

#[test]
fn zero_readings_leave_only_the_counter_digit() {
    let cell = AtomicU8::new(0);
    let id = Puid::builder().prefix("z").unwrap().entropy(0).build(0, &cell, 0).unwrap();
    assert_eq!(id, "z_0");
}

#[test]
fn identifier_follows_the_pattern_end_to_end() {
    let millis = time().unwrap();
    let cell = AtomicU8::new(0);
    let warm_up = counter(&cell);
    assert_eq!(warm_up, 0);
    let id = Puid::builder().prefix("foo").unwrap().build(millis, &cell, 4242).unwrap();

    // prefix and separator
    let rest = id.strip_prefix("foo_").unwrap();
    // twelve random characters close the identifier
    assert!(rest.len() > 12, "{id}");
    let (middle, tail) = rest.split_at(rest.len() - 12);
    assert!(tail.chars().all(|c| c.is_ascii_alphanumeric()), "{id}");
    // clock, counter and process identifier, as the encodings give them
    let expected = format!(
        "{}{}{}",
        puid::base36::to_base36(millis),
        1,
        puid::base36::to_base36(4242)
    );
    assert_eq!(middle, expected);
    assert!(middle.chars().all(is_base36), "{id}");
    assert!(middle.chars().any(|c| c.is_ascii_digit()), "{id}");
}

#[test]
fn one_call_form_builds_the_same_shape() {
    let cell = AtomicU8::new(7);
    let id = puid("foo", 12, 1651312057, &cell, 4242);
    assert!(id.starts_with("foo_rb5cjd739u"), "{id}");
    assert_eq!(id.len(), "foo_rb5cjd739u".len() + 12);
    let cell = AtomicU8::new(255);
    let id = puid("bar", 24, 0, &cell, 0);
    assert!(id.starts_with("bar_255"), "{id}");
    assert_eq!(id.len(), "bar_255".len() + 24);
    let cell = AtomicU8::new(1);
    assert_eq!(puid("q", 0, 35, &cell, 36), "q_z110");
    assert_eq!(cell.load(Ordering::SeqCst), 2);
}

#[test]
fn two_identifiers_of_one_instant_differ() {
    let cell = AtomicU8::new(0);
    let a = Puid::builder().prefix("foo").unwrap().entropy(32).build(1, &cell, 1).unwrap();
    let b = Puid::builder().prefix("foo").unwrap().entropy(32).build(1, &cell, 1).unwrap();
    assert!(a.starts_with("foo_101"), "{a}");
    assert!(b.starts_with("foo_111"), "{b}");
    assert_ne!(a[7..], b[7..]);
}

#[test]
fn builder_can_be_printed_for_debugging() {
    let text = format!("{:?}", Puid::builder().prefix("foo").unwrap());
    assert!(text.contains("foo"), "{text}");
    assert!(text.contains("12"), "{text}");
}
