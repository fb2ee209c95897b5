use wheel::handle_set::Handle;
use wheel::phrases::{handle_at, Topic, TopicLoadError, Topics};

fn handle(id: u64) -> Handle {
    Handle { id }
}

fn sorted_ids(handles: &[Handle]) -> Vec<u64> {
    let mut ids: Vec<u64> = handles.iter().map(|handle| handle.id).collect();
    ids.sort();
    ids
}

fn load(text: &str) -> Result<Topic, TopicLoadError> {
    Topic::load(text.as_bytes().to_vec())
}

#[test]
fn colors_deck_round_trip() {
    let topic = load("COLORS\nred\nblue\n").unwrap();
    assert_eq!(topic.name, "COLORS");
    assert_eq!(topic.phrases, vec!["RED".to_string(), "BLUE".to_string()]);
}

#[test]
fn one_line_deck_is_a_length_error() {
    assert_eq!(load("COLORS").err(), Some(TopicLoadError::LengthError));
    assert_eq!(load("COLORS\n").err(), Some(TopicLoadError::LengthError));
    assert_eq!(load("\n").err(), Some(TopicLoadError::LengthError));
}

#[test]
fn empty_deck_is_a_length_error() {
    assert_eq!(load("").err(), Some(TopicLoadError::LengthError));
}

#[test]
fn invalid_utf8_is_a_conversion_error() {
    let result = Topic::load(vec![b'A', b'\n', 0xff, 0xfe, b'\n']);
    assert_eq!(result.err(), Some(TopicLoadError::ConversionError));
    // a truncated two-byte sequence
    let result = Topic::load(vec![b'A', b'\n', b'b', 0xc3]);
    assert_eq!(result.err(), Some(TopicLoadError::ConversionError));
    // invalid bytes win over a missing second line
    assert_eq!(Topic::load(vec![0x80]).err(), Some(TopicLoadError::ConversionError));
}

#[test]
fn name_is_trimmed_and_keeps_its_case() {
    let topic = load("  Fruit Names \t\nApple\n").unwrap();
    assert_eq!(topic.name, "Fruit Names");
    assert_eq!(topic.phrases, vec!["APPLE".to_string()]);
}

#[test]
fn phrases_are_trimmed_and_upper_cased() {
    let topic = load("t\n  mixed Case words \n\tstra\u{df}e\u{a0}\nd\u{e9}j\u{e0} vu").unwrap();
    assert_eq!(
        topic.phrases,
        vec!["MIXED CASE WORDS".to_string(), "STRASSE".to_string(), "D\u{c9}J\u{c0} VU".to_string()]
    );
}

#[test]
fn carriage_returns_go_with_the_trim() {
    let topic = load("ANIMALS\r\ncat\r\ndog\r\n").unwrap();
    assert_eq!(topic.name, "ANIMALS");
    assert_eq!(topic.phrases, vec!["CAT".to_string(), "DOG".to_string()]);
}

#[test]
fn blank_lines_are_phrases_too() {
    let topic = load("T\n\na\n   \n").unwrap();
    assert_eq!(topic.phrases, vec!["".to_string(), "A".to_string(), "".to_string()]);
    let topic = load("T\n\n").unwrap();
    assert_eq!(topic.phrases, vec!["".to_string()]);
}

#[test]
fn last_line_needs_no_line_feed() {
    let topic = load("T\nlast").unwrap();
    assert_eq!(topic.phrases, vec!["LAST".to_string()]);
}

#[test]
fn repeated_phrases_are_kept() {
    let topic = load("T\nsame\nsame\n").unwrap();
    assert_eq!(topic.phrases, vec!["SAME".to_string(), "SAME".to_string()]);
}

#[test]
fn error_messages() {
    assert_eq!(TopicLoadError::ConversionError.message(), "Topic file must be UTF-8 encoded text");
    assert_eq!(TopicLoadError::LengthError.message(), "Topic file must be at least 2 lines");
}

#[test]
fn phrase_is_the_one_at_the_index() {
    let topic = load("T\na\nb\nc\n").unwrap();
    assert_eq!(topic.phrase(0), "A");
    assert_eq!(topic.phrase(1), "B");
    assert_eq!(topic.phrase(2), "C");
}

#[test]
fn topic_pick_returns_a_phrase_of_the_deck() {
    let topic = load("T\na\nb\nc\n").unwrap();
    let mut seen = [false; 3];
    for _ in 0..400 {
        let phrase = topic.pick().to_string();
        let at = topic.phrases.iter().position(|p| *p == phrase).unwrap();
        seen[at] = true;
    }
    assert_eq!(seen, [true; 3]);
    let single = load("T\nonly\n").unwrap();
    assert_eq!(single.pick(), "ONLY");
}

#[test]
fn topic_pick_is_uniform_over_the_phrases() {
    let topic = load("T\na\nb\nc\nd\n").unwrap();
    let draws = 10_000;
    let mut counts = [0u32; 4];
    for _ in 0..draws {
        let phrase = topic.pick().to_string();
        counts[topic.phrases.iter().position(|p| *p == phrase).unwrap()] += 1;
    }
    let expected = draws as f64 / 4.0;
    let chi_square: f64 =
        counts.iter().map(|&c| (c as f64 - expected).powi(2) / expected).sum();
    // 3 degrees of freedom: above 27.9 with probability below 4 in a million
    assert!(chi_square < 27.9, "chi-square {chi_square} for {counts:?}");
}

#[test]
fn new_registry_is_empty() {
    let topics = Topics::new();
    assert_eq!(topics.enabled_count(), 0);
    assert!(!topics.finished_loading());
    assert!(topics.is_loading());
    assert!(!topics.is_known(handle(1)));
    assert_eq!(topics.enabled_handles(), Vec::<Handle>::new());
}

#[test]
fn registered_decks_are_known_enabled_and_awaited() {
    let mut topics = Topics::new();
    topics.register(handle(3));
    topics.register(handle(8));
    assert!(topics.is_known(handle(3)));
    assert!(topics.is_enabled(handle(8)));
    assert!(!topics.is_known(handle(4)));
    assert!(!topics.is_enabled(handle(4)));
    assert_eq!(topics.enabled_count(), 2);
    assert_eq!(sorted_ids(&topics.enabled_handles()), vec![3, 8]);
    assert_eq!(sorted_ids(&topics.pending_handles()), vec![3, 8]);
}

#[test]
fn registry_is_ready_once_every_deck_is_loaded() {
    let mut topics = Topics::from_handles(&vec![handle(1), handle(2), handle(3)]);
    assert!(topics.is_loading());
    topics.poll(&vec![handle(2)]);
    assert!(topics.is_loading());
    assert_eq!(sorted_ids(&topics.pending_handles()), vec![1, 3]);
    topics.poll(&vec![handle(1), handle(3)]);
    assert!(topics.finished_loading());
    assert!(!topics.is_loading());
    // loading does not touch what is enabled
    assert_eq!(sorted_ids(&topics.enabled_handles()), vec![1, 2, 3]);
}

#[test]
fn deck_that_fails_to_load_keeps_the_registry_loading() {
    let mut topics = Topics::from_handles(&vec![handle(1), handle(2)]);
    for _ in 0..10 {
        topics.poll(&vec![handle(2)]);
    }
    assert!(topics.is_loading());
    assert_eq!(topics.pending_handles(), vec![handle(1)]);
}

#[test]
fn toggle_flips_membership() {
    let mut topics = Topics::from_handles(&vec![handle(1), handle(2), handle(3)]);
    topics.toggle(handle(2));
    assert!(!topics.is_enabled(handle(2)));
    assert!(topics.is_known(handle(2)));
    assert_eq!(sorted_ids(&topics.enabled_handles()), vec![1, 3]);
    topics.toggle(handle(1));
    assert_eq!(sorted_ids(&topics.enabled_handles()), vec![3]);
    topics.toggle(handle(2));
    assert_eq!(sorted_ids(&topics.enabled_handles()), vec![2, 3]);
}

#[test]
fn toggle_twice_restores_enabled() {
    let mut topics = Topics::from_handles(&vec![handle(1), handle(2), handle(3)]);
    topics.toggle(handle(3));
    let before = sorted_ids(&topics.enabled_handles());
    for id in [1, 3] {
        topics.toggle(handle(id));
        topics.toggle(handle(id));
        assert_eq!(sorted_ids(&topics.enabled_handles()), before);
        assert_eq!(topics.enabled_count(), 2);
    }
}

#[test]
fn pick_returns_an_enabled_deck() {
    let mut topics = Topics::from_handles(&(1..=6).map(handle).collect());
    topics.toggle(handle(2));
    topics.toggle(handle(5));
    let mut seen = std::collections::BTreeSet::new();
    for _ in 0..600 {
        let picked = topics.pick();
        assert!(topics.is_enabled(picked));
        seen.insert(picked.id);
    }
    assert_eq!(seen.into_iter().collect::<Vec<u64>>(), vec![1, 3, 4, 6]);
}

#[test]
fn pick_of_a_single_enabled_deck() {
    let mut topics = Topics::from_handles(&vec![handle(7), handle(9)]);
    topics.toggle(handle(7));
    for _ in 0..20 {
        assert_eq!(topics.pick(), handle(9));
    }
}

#[test]
fn pick_deck_is_uniform_over_the_enabled_set() {
    let topics = Topics::from_handles(&(0..5).map(handle).collect());
    let draws = 10_000;
    let mut counts = [0u32; 5];
    for _ in 0..draws {
        counts[topics.pick().id as usize] += 1;
    }
    let expected = draws as f64 / 5.0;
    let chi_square: f64 =
        counts.iter().map(|&c| (c as f64 - expected).powi(2) / expected).sum();
    // 4 degrees of freedom: above 30.7 with probability below 4 in a million
    assert!(chi_square < 30.7, "chi-square {chi_square} for {counts:?}");
}

#[test]
fn handle_at_is_the_handle_at_the_index() {
    let handles = vec![handle(4), handle(2), handle(9)];
    assert_eq!(handle_at(&handles, 0), handle(4));
    assert_eq!(handle_at(&handles, 1), handle(2));
    assert_eq!(handle_at(&handles, 2), handle(9));
}
