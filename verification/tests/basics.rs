use flowfabric::field_map::FieldMap;
use flowfabric::ids::{ExecutionId, FlowId};
use flowfabric::names::LaneId;
use flowfabric::numbers;
use flowfabric::numbers::IntError;
use flowfabric::partition::{partition_from_key, Partition, PartitionFamily};
use flowfabric::text;
use flowfabric::text_set::TextSet;

const UUID: &str = "00000000-0000-4000-8000-00000000000a";

#[test]
fn identities_are_checked() {
    let eid = ExecutionId::parse(&format!("{{fp:42}}:{UUID}")).unwrap();
    assert_eq!(eid.partition(), 42);
    assert_eq!(eid.copy(), eid);
    assert!(ExecutionId::parse(UUID).is_err());
    assert!(ExecutionId::parse(&format!("{{fp:70000}}:{UUID}")).is_err());
    assert!(FlowId::parse("nope").is_err());
    assert_eq!(LaneId::new("main").as_str(), "main");
}

#[test]
fn identities_are_kept_in_plain_form() {
    assert_eq!(FlowId::parse(UUID).unwrap().as_str(), UUID);
    assert_eq!(FlowId::parse(&UUID.to_uppercase()).unwrap().as_str(), UUID);
    assert_eq!(FlowId::parse(&UUID.replace('-', "")).unwrap().as_str(), UUID);
}

#[test]
fn whitespace_is_what_unicode_says() {
    for n in 0..=0x10ffffu32 {
        if let Some(c) = char::from_u32(n) {
            assert_eq!(text::is_space(c), c.is_whitespace(), "{n:x}");
            assert_eq!(text::is_control(c), c.is_control(), "{n:x}");
        }
    }
}

#[test]
fn numbers_round_trip() {
    for n in [0u64, 9, 10, 1234567890, u64::MAX] {
        assert_eq!(numbers::u64_text(n), n.to_string());
        assert_eq!(numbers::parse_u64(&n.to_string()), Ok(n));
    }
    for n in [0i64, -1, i64::MIN, i64::MAX] {
        assert_eq!(numbers::i64_text(n), n.to_string());
        assert_eq!(numbers::parse_i64(&n.to_string()), Ok(n));
    }
    assert_eq!(numbers::parse_u64("+7"), Ok(7));
    assert_eq!(numbers::parse_u16("65536"), Err(IntError::PosOverflow));
    assert_eq!(numbers::parse_u64(""), Err(IntError::Empty));
    assert_eq!(numbers::parse_u64("-1"), Err(IntError::InvalidDigit));
    assert_eq!(numbers::parse_i64("-9223372036854775809"), Err(IntError::NegOverflow));
    for bad in ["", "x", "-", "+", "1 "] {
        assert_eq!(
            numbers::parse_i64(bad).unwrap_err().text(),
            bad.parse::<i64>().unwrap_err().to_string(),
            "{bad:?}"
        );
    }
}

#[test]
fn hash_tags_are_read_back() {
    for family in [PartitionFamily::Flow, PartitionFamily::Budget, PartitionFamily::Quota] {
        let p = Partition { family, index: 9 };
        assert_eq!(partition_from_key(&p.hash_tag()), Ok(p));
    }
    let p = Partition { family: PartitionFamily::Execution, index: 9 };
    assert_eq!(p.hash_tag(), "{fp:9}");
    assert_eq!(
        partition_from_key(&p.hash_tag()),
        Ok(Partition { family: PartitionFamily::Flow, index: 9 })
    );
    assert!(partition_from_key("{fp:x}").is_err());
}

#[test]
fn sets_are_sorted_and_without_repeats() {
    let list: Vec<String> = ["b", "a", "b", "\u{e9}", "Z"].iter().map(|s| (*s).to_owned()).collect();
    let set = TextSet::collect(&list);
    assert_eq!(set.csv(), "Z,a,b,\u{e9}");
    let mut again = list.clone();
    again.reverse();
    assert_eq!(TextSet::collect(&again).csv(), set.csv());
    assert_eq!(set.len(), 4);
}

#[test]
fn maps_keep_the_last_value() {
    let mut m = FieldMap::new();
    m.insert("b".to_owned(), "1".to_owned());
    m.insert("a".to_owned(), "2".to_owned());
    m.insert("b".to_owned(), "3".to_owned());
    assert_eq!(m.len(), 2);
    assert_eq!(m.get("b").map(|v| v.as_str()), Some("3"));
    assert_eq!(m.get("c"), None);
    assert_eq!(m.copy().entries(), m.entries());
}

#[test]
fn texts_are_trimmed_and_searched() {
    assert_eq!(text::trim(" \u{2003}a b\n"), "a b");
    assert_eq!(text::trim(" \t"), "");
    assert_eq!(text::to_lower("AbC\u{c9}"), "abc\u{c9}");
    assert!(text::contains("hello", "ell"));
    assert!(text::contains("", ""));
    assert!(!text::contains("a", "ab"));
    assert!(text::is_blank("\u{a0}\n"));
    assert!(!text::is_blank("."));
    assert!(text::precedes("a", "b"));
    assert!(text::precedes("a", "ab"));
    assert!(!text::precedes("b", "a"));
}
