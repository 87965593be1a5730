use conn_rs::contact::{Contact, ContactError, MapKind};
use conn_rs::edit::{
    action_label, menu, prompt, start, step, EditAction, EditEvent, EditState, Step,
};

fn s(x: &str) -> String {
    x.to_string()
}

fn jane() -> Contact {
    let mut c = Contact::with_full_name(s("Jane Doe"));
    c.map_mut(MapKind::Email).insert(s("work"), s("jane@example.com")).unwrap();
    c.map_mut(MapKind::Tel).insert(s("home"), s("123")).unwrap();
    c
}

fn fresh_jane() -> Contact {
    jane()
}

fn texts(c: &Contact) -> Vec<String> {
    menu(c).iter().map(action_label).collect()
}

fn next(c: &mut Contact, st: EditState, ev: EditEvent) -> EditState {
    let Step { state, notice } = step(c, st, ev).unwrap();
    assert_eq!(notice, None);
    state
}

#[test]
fn menu_follows_contact_data() {
    assert_eq!(
        texts(&jane()),
        vec![
            s("finish"),
            s("change full name"),
            s("add email"),
            s("remove email: work"),
            s("change email: work"),
            s("add tel"),
            s("remove tel: home"),
            s("change tel: home"),
            s("add label"),
        ]
    );
    assert_eq!(
        texts(&Contact::with_entity_name(s("Acme"))),
        vec![s("finish"), s("change entity name"), s("add email"), s("add tel"), s("add label")]
    );
}

#[test]
fn finish_first_leaves_contact_unchanged() {
    let mut c = jane();
    let r = step(&mut c, start(), EditEvent::Select(0)).unwrap();
    assert_eq!(r.state, EditState::Done);
    assert_eq!(r.notice, None);
    assert_eq!(c, fresh_jane());
    assert_eq!(prompt(&r.state), None);
}

#[test]
fn duplicate_label_is_a_notice() {
    let mut c = jane();
    let st = next(&mut c, EditState::Menu, EditEvent::Select(2));
    assert_eq!(st, EditState::EnterLabel(MapKind::Email));
    let r = step(&mut c, st, EditEvent::Text(s("work"))).unwrap();
    assert_eq!(r.state, EditState::Menu);
    assert_eq!(r.notice, Some(ContactError::DuplicateLabel));
    assert_eq!(c, fresh_jane());
}

#[test]
fn add_email_then_remove_it() {
    let mut c = jane();
    let st = next(&mut c, EditState::Menu, EditEvent::Select(2));
    assert_eq!(prompt(&st), Some(s("email name")));
    let st = next(&mut c, st, EditEvent::Text(s("home")));
    assert_eq!(st, EditState::EnterValue(MapKind::Email, s("home")));
    assert_eq!(prompt(&st), Some(s("email")));
    let st = next(&mut c, st, EditEvent::Text(s("jane@home.org")));
    assert_eq!(st, EditState::Menu);
    assert_eq!(
        c.emails().to_pairs(),
        vec![(s("work"), s("jane@example.com")), (s("home"), s("jane@home.org"))]
    );
    let m = menu(&c);
    assert_eq!(m[5], EditAction::Remove(MapKind::Email, s("home")));
    let st = next(&mut c, st, EditEvent::Select(5));
    assert_eq!(st, EditState::Menu);
    assert_eq!(c.emails().to_pairs(), vec![(s("work"), s("jane@example.com"))]);
}

#[test]
fn change_tel_value_keeps_label() {
    let mut c = jane();
    let st = next(&mut c, EditState::Menu, EditEvent::Select(7));
    assert_eq!(st, EditState::EnterValue(MapKind::Tel, s("home")));
    assert_eq!(prompt(&st), Some(s("telephone number")));
    let st = next(&mut c, st, EditEvent::Text(s("999")));
    assert_eq!(st, EditState::Menu);
    assert_eq!(c.tels().to_pairs(), vec![(s("home"), s("999"))]);
}

#[test]
fn change_full_name() {
    let mut c = jane();
    let st = next(&mut c, EditState::Menu, EditEvent::Select(1));
    assert_eq!(st, EditState::EnterFullName);
    assert_eq!(prompt(&st), Some(s("Full name")));
    let st = next(&mut c, st, EditEvent::Text(s("Jane Roe")));
    assert_eq!(st, EditState::Menu);
    assert_eq!(c.full_name(), Some("Jane Roe"));
}

#[test]
fn entity_name_step_on_person_fails() {
    let mut c = jane();
    let r = step(&mut c, EditState::EnterEntityName, EditEvent::Text(s("Acme")));
    assert_eq!(r.err(), Some(ContactError::ConflictingIdentity));
    assert_eq!(c, fresh_jane());
}

#[test]
fn add_label_entry() {
    let mut c = Contact::with_entity_name(s("Acme"));
    let st = next(&mut c, EditState::Menu, EditEvent::Select(4));
    assert_eq!(st, EditState::EnterLabel(MapKind::Label));
    assert_eq!(prompt(&st), Some(s("label name")));
    let st = next(&mut c, st, EditEvent::Text(s("site")));
    let st = next(&mut c, st, EditEvent::Text(s("acme.com")));
    assert_eq!(st, EditState::Menu);
    assert_eq!(c.labels().to_pairs(), vec![(s("site"), s("acme.com"))]);
    assert_eq!(prompt(&st), Some(s("Select action")));
}

#[test]
fn out_of_range_or_mismatched_events_change_nothing() {
    let mut c = jane();
    let st = next(&mut c, EditState::Menu, EditEvent::Select(100));
    assert_eq!(st, EditState::Menu);
    let st = next(&mut c, st, EditEvent::Text(s("x")));
    assert_eq!(st, EditState::Menu);
    let st = next(&mut c, EditState::Done, EditEvent::Select(0));
    assert_eq!(st, EditState::Done);
    assert_eq!(c, fresh_jane());
}
