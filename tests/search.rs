use conn_rs::actions::{
    apply_search, decimal_string, ActionError, EditContact, MatchAction, Mutt, Outcome,
    PrintExporter,
};
use conn_rs::contact::{Contact, Contacts, MapKind};
use conn_rs::search::{filter_verdict, search, NameFilter, SearchError, SearchOptions};

fn s(x: &str) -> String {
    x.to_string()
}

fn options(full: Option<&str>, entity: Option<&str>) -> SearchOptions {
    let mut o = SearchOptions::new();
    if let Some(p) = full {
        o.set_full_name_regex(p).unwrap();
    }
    if let Some(p) = entity {
        o.set_entity_name_regex(p).unwrap();
    }
    o
}

fn jane() -> Contact {
    Contact::with_full_name(s("Jane Doe"))
}

fn acme() -> Contact {
    Contact::with_entity_name(s("Acme Inc"))
}

#[test]
fn no_filter_matches_both_kinds() {
    let o = options(None, None);
    assert!(o.is_match(&jane()));
    assert!(o.is_match(&acme()));
}

#[test]
fn full_name_filter_alone() {
    assert!(options(Some("Jane"), None).is_match(&jane()));
    assert!(!options(Some("John"), None).is_match(&jane()));
    assert!(!options(Some("Acme"), None).is_match(&acme()));
    assert!(!options(Some(".*"), None).is_match(&acme()));
}

#[test]
fn entity_name_filter_alone() {
    assert!(options(None, Some("Acme")).is_match(&acme()));
    assert!(!options(None, Some("Globex")).is_match(&acme()));
    assert!(!options(None, Some("Acme")).is_match(&jane()));
    assert!(!options(None, Some(".*")).is_match(&jane()));
}

#[test]
fn both_filters() {
    assert!(options(Some("Jane"), Some("Acme")).is_match(&acme()));
    assert!(options(Some("Jane"), Some("Acme")).is_match(&jane()));
    assert!(!options(Some("Jane"), Some("Globex")).is_match(&acme()));
    assert!(!options(Some("John"), Some("Acme")).is_match(&jane()));
    assert!(options(Some("e"), Some("e")).is_match(&jane()));
    assert!(options(Some("e"), Some("e")).is_match(&acme()));
}

#[test]
fn verdict_truth_table() {
    // neither filter
    assert!(filter_verdict(false, false, None, None));
    // full-name filter only
    assert!(filter_verdict(true, false, Some(true), None));
    assert!(!filter_verdict(true, false, Some(false), None));
    assert!(!filter_verdict(true, false, None, None));
    // entity-name filter only
    assert!(filter_verdict(false, true, None, Some(true)));
    assert!(!filter_verdict(false, true, None, Some(false)));
    assert!(!filter_verdict(false, true, None, None));
    // both filters
    assert!(filter_verdict(true, true, Some(true), None));
    assert!(!filter_verdict(true, true, Some(false), None));
    assert!(filter_verdict(true, true, None, Some(true)));
    assert!(!filter_verdict(true, true, None, Some(false)));
}

#[test]
fn invalid_pattern_leaves_options_unchanged() {
    let mut o = SearchOptions::new();
    assert_eq!(o.set_full_name_regex("("), Err(SearchError::InvalidPattern));
    assert_eq!(o.set_entity_name_regex("[a-"), Err(SearchError::InvalidPattern));
    assert!(o.is_match(&jane()));
    assert!(o.is_match(&acme()));
    o.set_full_name_regex("Jane").unwrap();
    assert_eq!(o.set_full_name_regex("("), Err(SearchError::InvalidPattern));
    assert!(o.is_match(&jane()));
    assert!(!o.is_match(&Contact::with_full_name(s("John"))));
    assert!(NameFilter::new("(").is_err());
    assert_eq!(SearchError::InvalidPattern.message(), "Invalid regular expression.");
}

#[test]
fn name_filter_matches_anywhere() {
    let f = NameFilter::new("Do+e").unwrap();
    assert!(f.matches("Jane Doe"));
    assert!(!f.matches("Jane Dee"));
    let anchored = NameFilter::new("^Doe").unwrap();
    assert!(!anchored.matches("Jane Doe"));
}

fn book() -> Contacts {
    let mut b = Contacts::new();
    let mut j = jane();
    j.map_mut(MapKind::Email).insert(s("work"), s("jane@example.com")).unwrap();
    b.add(j);
    let mut a = acme();
    a.map_mut(MapKind::Email).insert(s("sales"), s("sales@acme.com")).unwrap();
    b.add(a);
    b.add(Contact::with_full_name(s("John Smith")));
    b
}

#[test]
fn search_keeps_book_order() {
    let b = book();
    assert_eq!(search(&options(None, None), &b), vec![0, 1, 2]);
    assert_eq!(search(&options(Some("J"), None), &b), vec![0, 2]);
    assert_eq!(search(&options(Some("Doe"), Some("Acme")), &b), vec![0, 1]);
    assert_eq!(search(&options(Some("Nobody"), None), &b), Vec::<usize>::new());
}

#[test]
fn export_two_contacts_one_email_each() {
    let b = book();
    let out = Mutt::new().process(&b, &vec![0, 1]).unwrap();
    match out {
        Outcome::Report { summary, lines } => {
            assert_eq!(summary, "2 contacts found.");
            assert_eq!(
                lines,
                vec![
                    s("jane@example.com\tJane Doe\t(work)"),
                    s("sales@acme.com\tAcme Inc\t(sales)"),
                ]
            );
        }
        Outcome::Edit(_) => panic!("export does not edit"),
    }
}

#[test]
fn export_skips_contacts_without_email() {
    let b = book();
    let out = Mutt::new().process(&b, &vec![2]).unwrap();
    assert!(!out.needs_save());
    match out {
        Outcome::Report { summary, lines } => {
            assert_eq!(summary, "1 contacts found.");
            assert!(lines.is_empty());
        }
        Outcome::Edit(_) => panic!("export does not edit"),
    }
}

#[test]
fn print_report_format() {
    let b = book();
    let sep = s("--------------------------------------------------");
    match PrintExporter::new().process(&b, &vec![2]).unwrap() {
        Outcome::Report { summary, lines } => {
            assert_eq!(summary, "One contact found:");
            assert_eq!(lines, vec![sep.clone(), s("Full name: John Smith"), sep.clone()]);
        }
        Outcome::Edit(_) => panic!("print does not edit"),
    }
    match PrintExporter::new().process(&b, &vec![0, 2]).unwrap() {
        Outcome::Report { summary, lines } => {
            assert_eq!(summary, "2 contacts found:");
            assert_eq!(
                lines,
                vec![
                    sep.clone(),
                    s("Full name: Jane Doe"),
                    s("Emails:"),
                    s("  work: jane@example.com"),
                    sep.clone(),
                    s("Full name: John Smith"),
                    sep.clone(),
                ]
            );
        }
        Outcome::Edit(_) => panic!("print does not edit"),
    }
}

#[test]
fn zero_matches_fail_for_every_action() {
    let b = book();
    let none: Vec<usize> = Vec::new();
    assert_eq!(PrintExporter::new().process(&b, &none).err(), Some(ActionError::NoMatches));
    assert_eq!(Mutt::new().process(&b, &none).err(), Some(ActionError::NoMatches));
    assert_eq!(EditContact::new().process(&b, &none).err(), Some(ActionError::NoMatches));
}

#[test]
fn edit_needs_exactly_one_match() {
    let b = book();
    assert_eq!(
        EditContact::new().process(&b, &vec![0, 1]).err(),
        Some(ActionError::MultipleMatches)
    );
    let out = EditContact::new().process(&b, &vec![1]).unwrap();
    assert!(out.needs_save());
    assert!(matches!(out, Outcome::Edit(1)));
    assert_ne!(ActionError::NoMatches.message(), ActionError::MultipleMatches.message());
}

#[test]
fn apply_search_runs_action_on_matches() {
    let b = book();
    let out = apply_search(&options(None, Some("Acme")), &b, &EditContact::new()).unwrap();
    assert!(matches!(out, Outcome::Edit(1)));
    assert_eq!(
        apply_search(&options(Some("J"), None), &b, &EditContact::new()).err(),
        Some(ActionError::MultipleMatches)
    );
    assert_eq!(
        apply_search(&options(Some("Nobody"), None), &b, &Mutt::new()).err(),
        Some(ActionError::NoMatches)
    );
}

#[test]
fn decimal_strings() {
    assert_eq!(decimal_string(0), "0");
    assert_eq!(decimal_string(7), "7");
    assert_eq!(decimal_string(10), "10");
    assert_eq!(decimal_string(1234567), "1234567");
    assert_eq!(decimal_string(usize::MAX), usize::MAX.to_string());
}
