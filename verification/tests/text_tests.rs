use digital_twin::keyed_map::KeyedMap;
use digital_twin::text::{chars_of, split, trim, trim_matches};
use digital_twin::time::{Duration, Timestamp};

fn s(v: &[char]) -> String {
    v.iter().collect()
}

#[test]
fn trim_handles_unicode_white_space() {
    assert_eq!(s(&trim(&chars_of("\u{3000}\t a b \u{a0}\n"))), "a b");
    assert_eq!(s(&trim(&chars_of("   "))), "");
    assert_eq!(s(&trim_matches(&chars_of("\"\"x\"\""), '"')), "x");
}

#[test]
fn split_on_pattern() {
    let pieces: Vec<String> = split(&chars_of("a),b),"), &chars_of("),")).iter().map(|p| s(p)).collect();
    assert_eq!(pieces, vec!["a", "b", ""]);
    let pieces: Vec<String> = split(&chars_of("abc"), &chars_of(",")).iter().map(|p| s(p)).collect();
    assert_eq!(pieces, vec!["abc"]);
}

#[test]
fn keyed_map_insert_get_remove() {
    let mut m: KeyedMap<u8> = KeyedMap::new();
    assert!(m.is_empty());
    assert_eq!(m.insert("a".to_string(), 1), None);
    assert_eq!(m.insert("b".to_string(), 2), None);
    assert_eq!(m.insert("a".to_string(), 3), Some(1));
    assert_eq!(m.get("a"), Some(&3));
    assert_eq!(m.len(), 2);
    assert!(m.contains_key("b"));
    assert_eq!(m.keys(), vec!["a".to_string(), "b".to_string()]);
    assert_eq!(m.remove("a"), Some(3));
    assert_eq!(m.remove("a"), None);
    assert_eq!(m.keys(), vec!["b".to_string()]);
}

#[test]
fn durations_and_instants() {
    let d = Duration::from_secs(3);
    assert_eq!(d, Duration { secs: 3, nanos: 0 });
    assert!(!d.is_zero());
    assert!(Duration { secs: 0, nanos: 0 }.is_zero());
    assert!(!Duration { secs: 0, nanos: 1 }.is_zero());
    assert_eq!(Timestamp::from_secs(-2), Timestamp { secs: -2, nanos: 0 });
}

#[test]
fn trimming_twice_is_trimming_once() {
    for t in ["  a  ", "\u{2003}x y\u{2028}", "", "b", " \t\n"] {
        let once = trim(&chars_of(t));
        assert_eq!(trim(&once), once);
    }
}
