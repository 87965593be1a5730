use conn_rs::contact::{Contact, ContactError, Contacts, MapKind};
use conn_rs::error::InputError;
use conn_rs::labels::{LabelError, LabelMap};
use conn_rs::store::{store_dir, store_file, StoreError};

fn s(x: &str) -> String {
    x.to_string()
}

fn pairs(v: &[(&str, &str)]) -> Vec<(String, String)> {
    v.iter().map(|(a, b)| (s(a), s(b))).collect()
}

#[test]
fn full_name_contact_refuses_entity_name() {
    let mut c = Contact::with_full_name(s("Jane Doe"));
    let before = c.lines();
    assert_eq!(c.set_entity_name(s("Acme")), Err(ContactError::ConflictingIdentity));
    assert_eq!(c.lines(), before);
    assert_eq!(c.full_name(), Some("Jane Doe"));
    assert_eq!(c.entity_name(), None);
}

#[test]
fn entity_contact_refuses_full_name() {
    let mut c = Contact::with_entity_name(s("Acme Inc"));
    assert_eq!(c.set_full_name(s("Jane")), Err(ContactError::ConflictingIdentity));
    assert_eq!(c.entity_name(), Some("Acme Inc"));
    assert_eq!(c.full_name(), None);
}

#[test]
fn same_kind_name_can_be_replaced() {
    let mut c = Contact::with_full_name(s("Jane"));
    assert_eq!(c.set_full_name(s("Jane Roe")), Ok(()));
    assert_eq!(c.full_name(), Some("Jane Roe"));
    let mut e = Contact::with_entity_name(s("Acme"));
    assert_eq!(e.set_entity_name(s("Acme Ltd")), Ok(()));
    assert_eq!(e.entity_name(), Some("Acme Ltd"));
}

#[test]
fn empty_name_is_accepted() {
    let c = Contact::with_full_name(s(""));
    assert_eq!(c.full_name(), Some(""));
    assert!(c.emails().is_empty());
    assert!(c.tels().is_empty());
    assert!(c.labels().is_empty());
}

#[test]
fn label_map_insert_set_remove() {
    let mut m = LabelMap::new();
    assert_eq!(m.insert(s("home"), s("1")), Ok(()));
    assert_eq!(m.insert(s("work"), s("2")), Ok(()));
    assert_eq!(m.insert(s("home"), s("3")), Err(LabelError::DuplicateLabel));
    assert_eq!(m.get(&s("home")), Some(&s("1")));
    m.set(s("home"), s("9"));
    assert_eq!(m.to_pairs(), pairs(&[("home", "9"), ("work", "2")]));
    m.set(s("cell"), s("5"));
    assert_eq!(m.to_pairs(), pairs(&[("home", "9"), ("work", "2"), ("cell", "5")]));
    m.remove(&s("work"));
    assert_eq!(m.to_pairs(), pairs(&[("home", "9"), ("cell", "5")]));
    m.remove(&s("missing"));
    assert_eq!(m.len(), 2);
    assert!(m.contains_label(&s("cell")));
    assert!(!m.contains_label(&s("work")));
    assert_eq!(m.position(&s("cell")), Some(1));
    assert_eq!(m.get(&s("work")), None);
}

#[test]
fn label_map_from_pairs_refuses_duplicates() {
    assert_eq!(
        LabelMap::from_pairs(&pairs(&[("a", "1"), ("b", "2"), ("a", "3")])),
        Err(LabelError::DuplicateLabel)
    );
    let m = LabelMap::from_pairs(&pairs(&[("a", "1"), ("b", "2")])).unwrap();
    let (k, v) = m.entry(1);
    assert_eq!((k.as_str(), v.as_str()), ("b", "2"));
}

#[test]
fn from_fields_checks_identity_and_labels() {
    let none = Vec::new();
    assert_eq!(
        Contact::from_fields(Some(s("A")), Some(s("B")), &none, &none, &none),
        Err(ContactError::ConflictingIdentity)
    );
    assert_eq!(
        Contact::from_fields(None, None, &none, &none, &none),
        Err(ContactError::MissingIdentity)
    );
    let dup = pairs(&[("x", "1"), ("x", "2")]);
    assert_eq!(
        Contact::from_fields(Some(s("A")), None, &none, &dup, &none),
        Err(ContactError::DuplicateLabel)
    );
    let emails = pairs(&[("work", "a@b.c")]);
    let c = Contact::from_fields(None, Some(s("Acme")), &none, &emails, &none).unwrap();
    assert_eq!(c.entity_name(), Some("Acme"));
    assert_eq!(c.emails().to_pairs(), emails);
}

#[test]
fn fields_round_trip() {
    let mut c = Contact::with_full_name(s("Jane Doe"));
    c.map_mut(MapKind::Email).insert(s("work"), s("jane@example.com")).unwrap();
    c.map_mut(MapKind::Tel).insert(s("home"), s("123")).unwrap();
    c.map_mut(MapKind::Label).insert(s("note"), s("friend")).unwrap();
    let back = Contact::from_fields(
        c.full_name().map(String::from),
        c.entity_name().map(String::from),
        &c.tels().to_pairs(),
        &c.emails().to_pairs(),
        &c.labels().to_pairs(),
    )
    .unwrap();
    assert_eq!(back, c);
}

#[test]
fn contact_lines_show_nonempty_sections() {
    let mut c = Contact::with_full_name(s("Jane Doe"));
    assert_eq!(c.lines(), vec![s("Full name: Jane Doe")]);
    c.map_mut(MapKind::Email).insert(s("work"), s("jane@example.com")).unwrap();
    c.map_mut(MapKind::Label).insert(s("note"), s("friend")).unwrap();
    assert_eq!(
        c.lines(),
        vec![
            s("Full name: Jane Doe"),
            s("Emails:"),
            s("  work: jane@example.com"),
            s("Labels:"),
            s("  note: friend"),
        ]
    );
    let mut e = Contact::with_entity_name(s("Acme"));
    e.map_mut(MapKind::Tel).insert(s("office"), s("555")).unwrap();
    assert_eq!(
        e.lines(),
        vec![s("Entity name: Acme"), s("Telephone numbers:"), s("  office: 555")]
    );
}

#[test]
fn contacts_keep_insertion_order() {
    let mut book = Contacts::new();
    assert_eq!(book.len(), 0);
    book.add(Contact::with_full_name(s("B")));
    book.add(Contact::with_full_name(s("A")));
    book.add(Contact::with_full_name(s("B")));
    assert_eq!(book.len(), 3);
    let names: Vec<_> = book.contacts().iter().map(|c| c.full_name().unwrap().to_string()).collect();
    assert_eq!(names, vec![s("B"), s("A"), s("B")]);
    book.contacts_mut()[1].set_full_name(s("Z")).unwrap();
    assert_eq!(book.contacts()[1].full_name(), Some("Z"));
}

#[test]
fn store_dir_prefers_xdg_data_home() {
    assert_eq!(
        store_dir(Some(s("/data")), Some(s("/home/u"))),
        Ok(vec![s("/data"), s("conn-rs")])
    );
    assert_eq!(
        store_dir(None, Some(s("/home/u"))),
        Ok(vec![s("/home/u"), s(".local"), s("share"), s("conn-rs")])
    );
    assert_eq!(store_dir(None, None), Err(StoreError::ConfigurationError));
    assert_eq!(
        store_file(Some(s("/data")), None),
        Ok(vec![s("/data"), s("conn-rs"), s("contacts.json")])
    );
    assert_eq!(store_file(None, None), Err(StoreError::ConfigurationError));
}

#[test]
fn error_messages() {
    assert_eq!(
        StoreError::ConfigurationError.message(),
        "Neither XDG_DATA_HOME nor HOME environment variable set."
    );
    assert_eq!(ContactError::DuplicateLabel.message(), "This key already exist!");
    let e = InputError::new(s("bad input"));
    assert_eq!(e.message(), "bad input");
}
