use fdns::fdns::{merge, Fdns, Options};
use fdns::pattern::{FilterError, Pattern};
use fdns::record::Entry;

const FOO: &str = r#"{"type":"a","name":"foo.example.com","value":"1.2.3.4","timestamp":"t1"}"#;
const BAR: &str = r#"{"type":"a","name":"bar.test.com","value":"5.6.7.8","timestamp":"t2"}"#;

fn entry(timestamp: &str, name: &str, kind: &str, value: &str) -> Entry {
    Entry {
        timestamp: timestamp.to_string(),
        name: name.to_string(),
        entry_kind: kind.to_string(),
        value: value.to_string(),
    }
}

fn foo() -> Entry {
    entry("t1", "foo.example.com", "a", "1.2.3.4")
}

fn bar() -> Entry {
    entry("t2", "bar.test.com", "a", "5.6.7.8")
}

fn fdns(value: bool, pattern: &str, kind: &str, allow: &[&str]) -> Fdns {
    let regex = Pattern::new(pattern).unwrap();
    let allow_list = allow.iter().map(|s| s.to_string()).collect();
    Fdns::new("dump.json.gz".to_string(), Options::new(value, regex, kind.to_string(), allow_list))
}

fn lines(ls: &[&str]) -> Vec<String> {
    ls.iter().map(|s| s.to_string()).collect()
}

#[test]
fn pattern_on_name_keeps_first_record() {
    let f = fdns(false, "example", "a", &[]);
    assert_eq!(f.filter_lines(&lines(&[FOO, BAR])), vec![foo()]);
}

#[test]
fn allow_list_keeps_second_record() {
    let f = fdns(false, ".*", "a", &["test.com"]);
    assert_eq!(f.filter_lines(&lines(&[FOO, BAR])), vec![bar()]);
}

#[test]
fn other_kind_keeps_nothing() {
    let f = fdns(false, "example", "cname", &[]);
    assert_eq!(f.filter_lines(&lines(&[FOO, BAR])), Vec::<Entry>::new());
    let f = fdns(false, ".*", "cname", &["test.com"]);
    assert_eq!(f.filter_lines(&lines(&[FOO, BAR])), Vec::<Entry>::new());
}

#[test]
fn invalid_line_is_skipped() {
    let f = fdns(false, "example", "a", &[]);
    assert_eq!(f.filter_lines(&lines(&[FOO, "not valid json", BAR])), vec![foo()]);
    assert_eq!(f.filter_lines(&lines(&["not valid json", FOO, BAR])), vec![foo()]);
}

#[test]
fn empty_input_gives_empty_result() {
    let f = fdns(false, ".*", "a", &[]);
    assert_eq!(f.filter_lines(&Vec::new()), Vec::<Entry>::new());
    assert_eq!(f.filter_lines(&lines(&[""])), Vec::<Entry>::new());
}

#[test]
fn line_order_does_not_change_what_is_kept() {
    let f = fdns(false, ".*", "a", &[]);
    let forward = f.filter_lines(&lines(&[FOO, BAR]));
    let backward = f.filter_lines(&lines(&[BAR, FOO]));
    assert_eq!(forward, vec![foo(), bar()]);
    assert_eq!(backward, vec![bar(), foo()]);
}

#[test]
fn batches_merge_to_whole_result() {
    let f = fdns(false, ".*", "a", &[]);
    let parts = vec![
        f.filter_lines(&lines(&[FOO])),
        f.filter_lines(&lines(&["{}"])),
        f.filter_lines(&lines(&[BAR, FOO])),
    ];
    assert_eq!(merge(parts), vec![foo(), bar(), foo()]);
    assert_eq!(merge(Vec::new()), Vec::<Entry>::new());
}

#[test]
fn parse_reads_the_four_fields() {
    assert_eq!(Entry::parse(FOO), Some(foo()));
    let extra = r#"{"timestamp":"t","name":"n","type":"mx","value":"v","ttl":30}"#;
    assert_eq!(Entry::parse(extra), Some(entry("t", "n", "mx", "v")));
}

#[test]
fn parse_rejects_wrong_schema() {
    assert_eq!(Entry::parse("not valid json"), None);
    assert_eq!(Entry::parse(""), None);
    assert_eq!(Entry::parse("[1, 2]"), None);
    assert_eq!(Entry::parse(r#"{"name":"n","type":"a","value":"v"}"#), None);
    assert_eq!(Entry::parse(r#"{"timestamp":1,"name":"n","type":"a","value":"v"}"#), None);
    assert_eq!(Entry::parse(r#"{"timestamp":"t","name":"n","kind":"a","value":"v"}"#), None);
}

#[test]
fn from_members_needs_string_fields() {
    let s = |k: &str, v: &str| (k.to_string(), Some(v.to_string()));
    let full = vec![s("name", "n"), s("timestamp", "t"), s("type", "a"), s("value", "v")];
    assert_eq!(Entry::from_members(&full), Some(entry("t", "n", "a", "v")));
    let mut not_string = full.clone();
    not_string[3] = ("value".to_string(), None);
    assert_eq!(Entry::from_members(&not_string), None);
    assert_eq!(Entry::from_members(&full[..3].to_vec()), None);
}

#[test]
fn invalid_pattern_is_an_error() {
    assert!(matches!(Pattern::new("("), Err(FilterError::InvalidPattern)));
    assert_eq!(Pattern::new("ex.*le").unwrap().as_str(), "ex.*le");
}

#[test]
fn is_allowed_checks_suffixes() {
    let open = fdns(false, ".*", "a", &[]);
    assert!(open.is_allowed("anything.org".to_string()));
    let f = fdns(false, ".*", "a", &["test.com", "example.org"]);
    assert!(f.is_allowed("bar.test.com".to_string()));
    assert!(f.is_allowed("example.org".to_string()));
    assert!(!f.is_allowed("test.com.evil.net".to_string()));
    assert!(!f.is_allowed("com".to_string()));
}

#[test]
fn accepts_checks_kind_then_suffix_then_pattern() {
    let f = fdns(false, "^foo", "a", &[]);
    assert!(f.accepts(&foo()));
    assert!(!f.accepts(&bar()));
    assert!(!f.accepts(&entry("t1", "foo.example.com", "aaaa", "1.2.3.4")));
    let f = fdns(false, "foo", "a", &["test.com"]);
    assert!(!f.accepts(&foo()));
    let f = fdns(false, "exam", "a", &["example.com"]);
    assert!(f.accepts(&foo()));
}

#[test]
fn value_field_is_matched_when_selected() {
    let f = fdns(true, r"^1\.2\.", "a", &[]);
    assert!(f.accepts(&foo()));
    assert!(!f.accepts(&bar()));
    let by_name = fdns(false, r"^1\.2\.", "a", &[]);
    assert!(!by_name.accepts(&foo()));
    let f = fdns(true, ".*", "a", &[".8"]);
    assert_eq!(f.filter_lines(&lines(&[FOO, BAR])), vec![bar()]);
}

#[test]
fn file_is_kept() {
    assert_eq!(fdns(false, ".*", "a", &[]).file(), "dump.json.gz");
}
