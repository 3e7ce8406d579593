use fanling_engine::error::FanlingError;
use fanling_engine::fields::FieldMap;
use fanling_engine::item::{Item, ItemBase, ItemKind, Payload};
use fanling_engine::registry::{Registry, TypePolicy};
use fanling_engine::simple::{Simple, SimpleTypePolicy};
use fanling_engine::world::World;
use fanling_engine::yaml::{
    count_name_marks, count_nesting_marks, decoded, encoded, fields_of, names, read_document,
    write_record, Document, Entry, MAX_ALIASES, MAX_NESTING,
};

fn world() -> World {
    World::new(Registry::new())
}

fn written(name: &str, text: &str) -> Simple {
    let mut input = FieldMap::new();
    input.insert("name", name);
    input.insert("text", text);
    let mut page = Simple::new();
    page.set_data(&input, &world()).unwrap();
    page
}

fn entry(key: &str, value: &str) -> Entry {
    Entry { key: Some(key.to_string()), value: Some(value.to_string()) }
}

#[test]
fn record_lists_base_fields_before_page_fields() {
    let base = ItemBase::new("home-1", ItemKind::Simple);
    let record = written("Home", "hi").record(&base);
    assert_eq!(
        record,
        vec![
            ("ident".to_string(), "home-1".to_string()),
            ("kind".to_string(), "simple".to_string()),
            ("name".to_string(), "Home".to_string()),
            ("text".to_string(), "hi".to_string()),
        ]
    );
}

#[test]
fn to_yaml_writes_one_flat_mapping() {
    let base = ItemBase::new("home-1", ItemKind::Simple);
    let bytes = written("Home", "hi").to_yaml(&base).unwrap();
    assert_eq!(
        String::from_utf8(bytes).unwrap(),
        "---\nident: home-1\nkind: simple\nname: Home\ntext: hi\n"
    );
}

#[test]
fn to_yaml_is_the_same_for_the_same_page() {
    let base = ItemBase::new("home-1", ItemKind::Simple);
    let first = written("Home", "a\nb").to_yaml(&base).unwrap();
    let second = written("Home", "a\nb").to_yaml(&base).unwrap();
    assert_eq!(first, second);
}

#[test]
fn write_record_keeps_the_order_of_the_fields() {
    let bytes = write_record(&vec![
        ("b".to_string(), "2".to_string()),
        ("a".to_string(), "1".to_string()),
    ])
    .unwrap();
    let document = read_document(&bytes).unwrap();
    assert_eq!(document, Document::Mapping(vec![entry("b", "2"), entry("a", "1")]));
}

#[test]
fn round_trip_keeps_name_and_text() {
    let base = ItemBase::new("an item", ItemKind::Simple);
    let cases = [
        ("Home", "hi"),
        ("", ""),
        ("true", "123"),
        ("~", "null"),
        ("a: b", "- item\n- other"),
        ("quote \" and '", "line one\nline two\n\nline four"),
        ("tab\there", "  leading and trailing  "),
        ("名前", "テキスト ü é"),
        ("# not a comment", "{ not: a mapping }"),
    ];
    for (name, text) in cases {
        let page = written(name, text);
        let bytes = page.to_yaml(&base).unwrap();
        let mut fresh = Simple::new();
        fresh.decode(&bytes, &world()).unwrap();
        assert_eq!(fresh.name(), name);
        assert_eq!(fresh.text(), text);
        assert_eq!(fresh.description(), page.description());
        assert_eq!(fresh.is_open(), page.is_open());
        assert_eq!(fresh.is_ready(), page.is_ready());
        let again = Simple::from_yaml(&bytes).unwrap();
        assert_eq!(again.name(), name);
        assert_eq!(again.text(), text);
    }
}

#[test]
fn read_document_tells_mappings_from_the_rest() {
    assert_eq!(
        read_document(b"name: Home\ntext: hi\n").unwrap(),
        Document::Mapping(vec![entry("name", "Home"), entry("text", "hi")])
    );
    assert_eq!(read_document(b"- a\n- b\n").unwrap(), Document::Other);
    assert_eq!(read_document(b"just text").unwrap(), Document::Other);
    assert_eq!(
        read_document(b"name: 5\n7: seven\nlist: [1, 2]\n").unwrap(),
        Document::Mapping(vec![
            Entry { key: Some("name".to_string()), value: None },
            Entry { key: None, value: Some("seven".to_string()) },
            Entry { key: Some("list".to_string()), value: None },
        ])
    );
}

#[test]
fn read_document_refuses_what_is_not_yaml() {
    for text in [&b"[1, 2"[..], &b""[..], &b"a: b: c: d"[..], &[0xff, 0xfe, 0x00][..]] {
        match read_document(text) {
            Err(FanlingError::Deserialize(words)) => assert!(!words.is_empty()),
            other => panic!("expected a malformed record, got {:?}", other),
        }
    }
}

#[test]
fn fields_of_passes_over_entries_that_are_not_text() {
    let document = Document::Mapping(vec![
        entry("name", "first"),
        Entry { key: Some("count".to_string()), value: None },
        Entry { key: None, value: Some("orphan".to_string()) },
        entry("name", "second"),
        entry("text", "t"),
    ]);
    let fields = fields_of(&document).unwrap();
    assert_eq!(fields.get("name").unwrap(), "second");
    assert_eq!(fields.get("text").unwrap(), "t");
    assert_eq!(fields.get("count"), None);
    assert_eq!(fields.get("orphan"), None);
    assert!(fields_of(&Document::Other).is_none());
    assert!(fields_of(&Document::Mapping(vec![])).unwrap().get("name").is_none());
}

#[test]
fn set_from_yaml_takes_name_and_text() {
    let mut page = Simple::new();
    let document = Document::Mapping(vec![
        entry("ident", "i"),
        entry("kind", "simple"),
        entry("name", "Home"),
        entry("text", "hi"),
        entry("later", "addition"),
    ]);
    page.set_from_yaml(&document, &world()).unwrap();
    assert_eq!(page.name(), "Home");
    assert_eq!(page.text(), "hi");
}

#[test]
fn set_from_yaml_refuses_malformed_records() {
    let malformed = [
        Document::Other,
        Document::Mapping(vec![]),
        Document::Mapping(vec![entry("name", "only a name")]),
        Document::Mapping(vec![entry("text", "only a text")]),
        Document::Mapping(vec![
            Entry { key: Some("name".to_string()), value: None },
            entry("text", "t"),
        ]),
    ];
    for document in malformed {
        let mut page = written("Home", "hi");
        let outcome = page.set_from_yaml(&document, &world());
        assert!(matches!(outcome, Err(FanlingError::Deserialize(_))));
        assert_eq!(page.name(), "Home");
        assert_eq!(page.text(), "hi");
        assert!(matches!(
            Simple::from_document(&document),
            Err(FanlingError::Deserialize(_))
        ));
    }
}

#[test]
fn decode_refuses_malformed_text_and_keeps_the_page() {
    let texts = [
        &b"[1, 2"[..],
        &b"- a\n- b\n"[..],
        &b"name: Home\n"[..],
        &b"text: hi\n"[..],
        &b"name: 5\ntext: hi\n"[..],
        &b"name: Home\ntext: [a, b]\n"[..],
    ];
    for text in texts {
        let mut page = written("Kept", "as it was");
        let outcome = page.decode(text, &world());
        assert!(matches!(outcome, Err(FanlingError::Deserialize(_))));
        assert_eq!(page.name(), "Kept");
        assert_eq!(page.text(), "as it was");
        assert!(matches!(Simple::from_yaml(text), Err(FanlingError::Deserialize(_))));
    }
}

#[test]
fn decode_reads_records_written_by_hand() {
    let mut page = Simple::new();
    page.decode(b"text: 'two words'\nextra: 1\nname: \"Home\"\n", &world())
        .unwrap();
    assert_eq!(page.name(), "Home");
    assert_eq!(page.text(), "two words");
}

#[test]
fn encoded_maps_the_failure_of_the_writer() {
    assert_eq!(encoded(Ok(vec![1, 2, 3])), Ok(vec![1, 2, 3]));
    assert_eq!(
        encoded(Err("no room".to_string())),
        Err(FanlingError::Encode("no room".to_string()))
    );
}

#[test]
fn decoded_maps_the_failure_of_the_reader() {
    assert_eq!(decoded(Ok(Document::Other)), Ok(Document::Other));
    assert_eq!(
        decoded(Err("no sense".to_string())),
        Err(FanlingError::Deserialize("no sense".to_string()))
    );
}

#[test]
fn read_document_hands_on_the_words_of_the_reader() {
    let words = serde_yaml::from_slice::<serde_yaml::Value>(b"[1, 2")
        .unwrap_err()
        .to_string();
    assert_eq!(read_document(b"[1, 2"), Err(FanlingError::Deserialize(words)));
    assert_eq!(read_document(b"[1, 2"), read_document(b"[1, 2"));
}

#[test]
fn nesting_marks_are_counted() {
    assert_eq!(count_nesting_marks(b""), 0);
    assert_eq!(count_nesting_marks(b"plain text"), 0);
    assert_eq!(count_nesting_marks(b"- a\n- b\n"), 2);
    assert_eq!(count_nesting_marks(b"? a\n: b\n"), 2);
    assert_eq!(count_nesting_marks(b"a:\tb\nc:\r\nd:"), 3);
    assert_eq!(count_nesting_marks(b"- -\0-"), 3);
    assert_eq!(count_nesting_marks(b"well-known http://x at 12:30, is it?! ---x"), 0);
    assert_eq!(count_nesting_marks(b"is it? yes"), 1);
    assert_eq!(count_nesting_marks(b"a: [1, {b: ?}]"), 4);
    assert_eq!(count_nesting_marks(b"see [x](http://y) at 12:30"), 1);
    assert_eq!(count_nesting_marks(b"{\"a\":1, 'b':2, c:3}"), 3);
    assert_eq!(count_nesting_marks(b"[a:, b:], c:d"), 3);
    assert_eq!(count_nesting_marks(b"\"a\":1 b:, c:]"), 0);
    assert_eq!(count_nesting_marks(b"]},!*&|>'\"#%@`"), 0);
    assert_eq!(MAX_NESTING, 512);
}

#[test]
fn texts_with_too_many_nesting_marks_are_refused_unread() {
    let refusal = FanlingError::Deserialize("record holds too many nesting marks".to_string());
    let mut deep = "- ".repeat(100_000);
    deep.push('a');
    assert_eq!(read_document(deep.as_bytes()), Err(refusal.clone()));
    let over = format!("a: \"{}\"\n", "- ".repeat(MAX_NESTING));
    assert_eq!(count_nesting_marks(over.as_bytes()), MAX_NESTING + 1);
    assert_eq!(read_document(over.as_bytes()), Err(refusal.clone()));
    assert_eq!(Simple::from_yaml(deep.as_bytes()).unwrap_err(), refusal);
    assert_eq!(registry().read_item(deep.as_bytes()).unwrap_err(), refusal);
}

#[test]
fn texts_at_the_limit_of_nesting_marks_are_read() {
    let full = format!("a: \"{}\"\n", "- ".repeat(MAX_NESTING - 1));
    assert_eq!(count_nesting_marks(full.as_bytes()), MAX_NESTING);
    assert_eq!(
        read_document(full.as_bytes()),
        Ok(Document::Mapping(vec![entry("a", &"- ".repeat(MAX_NESTING - 1))]))
    );
    let long = format!("text: \"{}\"\n", "well-known http://x at 12:30 ".repeat(10_000));
    assert_eq!(count_nesting_marks(long.as_bytes()), 1);
    assert!(read_document(long.as_bytes()).is_ok());
    let mut nested = "- ".repeat(MAX_NESTING);
    nested.push('a');
    assert_eq!(count_nesting_marks(nested.as_bytes()), MAX_NESTING);
    assert_eq!(
        read_document(nested.as_bytes()),
        Err(FanlingError::Deserialize("recursion limit exceeded".to_string()))
    );
    let pairs = "[? ".repeat(MAX_NESTING / 2);
    assert_eq!(count_nesting_marks(pairs.as_bytes()), MAX_NESTING);
    assert!(matches!(
        read_document(pairs.as_bytes()),
        Err(FanlingError::Deserialize(_))
    ));
}

#[test]
fn anchor_and_alias_marks_are_counted() {
    let text = b"&a x *a *b* **c** R&D a & b *";
    assert_eq!(count_name_marks(text, b'&'), 2);
    assert_eq!(count_name_marks(text, b'*'), 3);
    assert_eq!(count_name_marks(b"", b'*'), 0);
    assert_eq!(count_name_marks(b"*", b'*'), 0);
    assert_eq!(count_name_marks(b"*_ *- *0 *z *Z *. *\xc3\xa9", b'*'), 5);
    assert_eq!(MAX_ALIASES, 8);
}

#[test]
fn texts_whose_aliases_multiply_are_refused_unread() {
    let refusal = FanlingError::Deserialize("record holds too many aliases".to_string());
    let mut laughs = String::from("a0: &a0 {x: y}\n");
    for line in 1..=20 {
        let keys = format!("*a{}: z, ", line - 1).repeat(10);
        laughs.push_str(&format!("a{}: &a{} {{{}}}\n", line, line, keys));
    }
    assert!(count_nesting_marks(laughs.as_bytes()) <= MAX_NESTING);
    assert_eq!(read_document(laughs.as_bytes()), Err(refusal.clone()));
    assert_eq!(Simple::from_yaml(laughs.as_bytes()).unwrap_err(), refusal);
    let nine = format!("a: &a x\nb: [{}]\n", "*a, ".repeat(MAX_ALIASES + 1));
    assert_eq!(read_document(nine.as_bytes()), Err(refusal));
}

#[test]
fn texts_with_few_aliases_are_read() {
    assert_eq!(
        read_document(b"a: &x v\nb: *x\n"),
        Ok(Document::Mapping(vec![entry("a", "v"), entry("b", "v")]))
    );
    let eight = format!("a: &a x\nb: [{}]\n", "*a, ".repeat(MAX_ALIASES));
    assert_eq!(
        read_document(eight.as_bytes()),
        Ok(Document::Mapping(vec![
            entry("a", "x"),
            Entry { key: Some("b".to_string()), value: None },
        ]))
    );
}

#[test]
fn texts_without_anchors_may_hold_any_number_of_stars() {
    let emphasis = "*very* **much** ".repeat(1_000);
    let text = format!("text: \"{}\"\n", emphasis);
    assert_eq!(count_name_marks(text.as_bytes(), b'&'), 0);
    assert_eq!(count_name_marks(text.as_bytes(), b'*'), 2_000);
    assert_eq!(
        read_document(text.as_bytes()),
        Ok(Document::Mapping(vec![entry("text", &emphasis)]))
    );
    let words = serde_yaml::from_slice::<serde_yaml::Value>(b"a: *x\n")
        .unwrap_err()
        .to_string();
    assert_eq!(read_document(b"a: *x\n"), Err(FanlingError::Deserialize(words)));
}

#[test]
fn a_name_that_the_reader_takes_for_a_number_is_not_read_back() {
    let base = ItemBase::new("i", ItemKind::Simple);
    let bytes = written("0o17", "t").to_yaml(&base).unwrap();
    assert_eq!(
        Simple::from_yaml(&bytes).unwrap_err(),
        FanlingError::Deserialize("field `name` is not text".to_string())
    );
}

#[test]
fn names_tells_a_key_without_text_from_a_missing_key() {
    let document = read_document(b"name: 5\n7: seven\ntext: t\n").unwrap();
    assert!(names(&document, "name"));
    assert!(names(&document, "text"));
    assert!(!names(&document, "seven"));
    assert!(!names(&document, "ident"));
    assert!(!names(&Document::Other, "name"));
}

fn registry() -> Registry {
    let mut registry = Registry::new();
    registry
        .register_kind("simple", TypePolicy::Simple(SimpleTypePolicy::new()))
        .unwrap();
    registry
}

#[test]
fn item_round_trips_through_its_record() {
    let registry = registry();
    let item = Item::new_with_data("home-1", Payload::Simple(written("Home", "line\nline")));
    let bytes = item.to_yaml().unwrap();
    assert_eq!(
        String::from_utf8(bytes.clone()).unwrap(),
        "---\nident: home-1\nkind: simple\nname: Home\ntext: \"line\\nline\"\n"
    );
    let read = registry.read_item(&bytes).unwrap();
    assert_eq!(read.base().ident(), "home-1");
    assert_eq!(read.base().kind(), ItemKind::Simple);
    assert_eq!(read.data().kind(), ItemKind::Simple);
    assert_eq!(read.data().description(), item.data().description());
    assert_eq!(read.data().is_open(), item.data().is_open());
    assert_eq!(read.data().is_ready(), item.data().is_ready());
    match read.data() {
        Payload::Simple(page) => {
            assert_eq!(page.name(), "Home");
            assert_eq!(page.text(), "line\nline");
        },
    }
    assert_eq!(read.to_yaml().unwrap(), bytes);
}

#[test]
fn read_item_needs_a_registered_kind() {
    let record = b"ident: i\nkind: simple\nname: n\ntext: t\n";
    assert_eq!(
        Registry::new().read_item(record).unwrap_err(),
        FanlingError::Configuration("simple".to_string())
    );
    assert_eq!(
        registry().read_item(b"ident: i\nkind: task\nname: n\ntext: t\n").unwrap_err(),
        FanlingError::Configuration("task".to_string())
    );
    assert!(registry().read_item(record).is_ok());
}

#[test]
fn read_item_refuses_malformed_records() {
    let texts = [
        &b"[1, 2"[..],
        &b"- a\n"[..],
        &b"kind: simple\nname: n\ntext: t\n"[..],
        &b"ident: i\nname: n\ntext: t\n"[..],
        &b"ident: i\nkind: simple\ntext: t\n"[..],
        &b"ident: i\nkind: simple\nname: n\n"[..],
        &b"ident: 7\nkind: simple\nname: n\ntext: t\n"[..],
    ];
    for text in texts {
        assert!(matches!(
            registry().read_item(text),
            Err(FanlingError::Deserialize(_))
        ));
    }
    let document = Document::Mapping(vec![entry("ident", "i"), entry("kind", "simple")]);
    assert!(matches!(
        registry().read_document(&document),
        Err(FanlingError::Deserialize(_))
    ));
    let policy = TypePolicy::Simple(SimpleTypePolicy::new());
    assert!(matches!(
        policy.read_payload(&Document::Other),
        Err(FanlingError::Deserialize(_))
    ));
    let complete = Document::Mapping(vec![entry("name", "n"), entry("text", "t")]);
    assert_eq!(policy.read_payload(&complete).unwrap().description(), "n");
}

#[test]
fn read_item_says_what_is_wrong_with_a_record() {
    let cases = [
        (&b"- a\n"[..], "record is not a mapping"),
        (&b"kind: simple\nname: n\ntext: t\n"[..], "missing field `ident`"),
        (&b"ident: i\nname: n\ntext: t\n"[..], "missing field `kind`"),
        (&b"ident: i\nkind: simple\ntext: t\n"[..], "missing field `name`"),
        (&b"ident: i\nkind: simple\nname: n\n"[..], "missing field `text`"),
        (&b"ident: 7\nkind: simple\nname: n\ntext: t\n"[..], "field `ident` is not text"),
        (&b"ident: i\nkind: [simple]\nname: n\ntext: t\n"[..], "field `kind` is not text"),
        (&b"ident: i\nkind: simple\nname: 1.5\ntext: t\n"[..], "field `name` is not text"),
        (&b"ident: i\nkind: simple\nname: n\ntext: true\n"[..], "field `text` is not text"),
    ];
    for (text, words) in cases {
        assert_eq!(
            registry().read_item(text).unwrap_err(),
            FanlingError::Deserialize(words.to_string())
        );
    }
}
