use vstd::prelude::*;
use crate::contact::{
    concat_str, map_of, with_map, Contact, ContactError, ContactView, IdentityView, MapKind,
};
use crate::labels::{has_label, with_value, without_label, EntryView};

verus! {

/// One entry of the edit menu.
#[derive(Debug, PartialEq, Eq)]
pub enum EditAction {
    Finish,
    ChangeFullName,
    ChangeEntityName,
    Add(MapKind),
    Remove(MapKind, String),
    Change(MapKind, String),
}

/// The value of an `EditAction`.
pub enum ActionView {
    Finish,
    ChangeFullName,
    ChangeEntityName,
    Add(MapKind),
    Remove(MapKind, Seq<char>),
    Change(MapKind, Seq<char>),
}

impl View for EditAction {
    type V = ActionView;

    open spec fn view(&self) -> ActionView {
        match self {
            EditAction::Finish => ActionView::Finish,
            EditAction::ChangeFullName => ActionView::ChangeFullName,
            EditAction::ChangeEntityName => ActionView::ChangeEntityName,
            EditAction::Add(k) => ActionView::Add(*k),
            EditAction::Remove(k, l) => ActionView::Remove(*k, l@),
            EditAction::Change(k, l) => ActionView::Change(*k, l@),
        }
    }
}

/// The views of a list of menu entries.
pub open spec fn actions_view(v: Seq<EditAction>) -> Seq<ActionView> {
    v.map_values(|a: EditAction| a@)
}

/// The remove and change entries for each label of `s`, in order.
pub open spec fn label_entries(k: MapKind, s: Seq<EntryView>) -> Seq<ActionView>
    decreases s.len(),
{
    if s.len() == 0 {
        Seq::empty()
    } else {
        label_entries(k, s.drop_last()) + seq![
            ActionView::Remove(k, s.last().0),
            ActionView::Change(k, s.last().0),
        ]
    }
}

/// The edit menu of contact `c`: finish, the change of its kind of name,
/// then for emails, telephone numbers and labels in turn an add entry and a
/// remove and a change entry for each label.
pub open spec fn menu_of(c: ContactView) -> Seq<ActionView> {
    seq![
        ActionView::Finish,
        match c.identity {
            IdentityView::FullName(_) => ActionView::ChangeFullName,
            IdentityView::EntityName(_) => ActionView::ChangeEntityName,
        },
        ActionView::Add(MapKind::Email),
    ] + label_entries(MapKind::Email, c.emails) + seq![ActionView::Add(MapKind::Tel)]
        + label_entries(MapKind::Tel, c.tels) + seq![ActionView::Add(MapKind::Label)]
        + label_entries(MapKind::Label, c.labels)
}

/// The word for a map kind in menu entries.
pub open spec fn kind_word(k: MapKind) -> Seq<char> {
    match k {
        MapKind::Email => "email"@,
        MapKind::Tel => "tel"@,
        MapKind::Label => "label"@,
    }
}

/// The text that shows a menu entry.
pub open spec fn action_text(a: ActionView) -> Seq<char> {
    match a {
        ActionView::Finish => "finish"@,
        ActionView::ChangeFullName => "change full name"@,
        ActionView::ChangeEntityName => "change entity name"@,
        ActionView::Add(k) => "add "@ + kind_word(k),
        ActionView::Remove(k, l) => "remove "@ + kind_word(k) + ": "@ + l,
        ActionView::Change(k, l) => "change "@ + kind_word(k) + ": "@ + l,
    }
}

fn kind_word_str(k: MapKind) -> (r: &'static str)
    ensures
        r@ == kind_word(k),
{
    match k {
        MapKind::Email => "email",
        MapKind::Tel => "tel",
        MapKind::Label => "label",
    }
}

/// The text that shows menu entry `a`.
pub fn action_label(a: &EditAction) -> (r: String)
    ensures
        r@ == action_text(a@),
{
    match a {
        EditAction::Finish => String::from_str("finish"),
        EditAction::ChangeFullName => String::from_str("change full name"),
        EditAction::ChangeEntityName => String::from_str("change entity name"),
        EditAction::Add(k) => concat_str("add ", kind_word_str(*k)),
        EditAction::Remove(k, l) => {
            let mut r = concat_str("remove ", kind_word_str(*k));
            r.append(": ");
            r.append(l.as_str());
            r
        },
        EditAction::Change(k, l) => {
            let mut r = concat_str("change ", kind_word_str(*k));
            r.append(": ");
            r.append(l.as_str());
            r
        },
    }
}

/// Appends the add entry of map `k` of `c` and its remove and change
/// entries.
fn push_map_entries(out: &mut Vec<EditAction>, c: &Contact, k: MapKind)
    ensures
        actions_view(final(out)@) == actions_view(old(out)@) + seq![ActionView::Add(k)]
            + label_entries(k, map_of(c@, k)),
{
    let m = c.map(k);
    let ghost start = actions_view(out@).push(ActionView::Add(k));
    out.push(EditAction::Add(k));
    assert(actions_view(out@) =~= start);
    let n = m.len();
    let mut i: usize = 0;
    while i < n
        invariant
            n == m@.len(),
            m@ == map_of(c@, k),
            i <= n,
            actions_view(out@) == start + label_entries(k, m@.take(i as int)),
        decreases n - i,
    {
        let (label, _) = m.entry(i);
        let ghost prev = out@;
        out.push(EditAction::Remove(k, label.clone()));
        out.push(EditAction::Change(k, label.clone()));
        assert(m@.take(i as int + 1).drop_last() =~= m@.take(i as int));
        assert(actions_view(out@) =~= actions_view(prev) + seq![
            ActionView::Remove(k, m@[i as int].0),
            ActionView::Change(k, m@[i as int].0),
        ]);
        i = i + 1;
    }
    assert(m@.take(n as int) =~= m@);
}

/// The edit menu of `c`, built from its current data.
pub fn menu(c: &Contact) -> (r: Vec<EditAction>)
    ensures
        actions_view(r@) == menu_of(c@),
{
    let mut r: Vec<EditAction> = Vec::new();
    r.push(EditAction::Finish);
    match c.full_name() {
        Some(_) => r.push(EditAction::ChangeFullName),
        None => r.push(EditAction::ChangeEntityName),
    }
    push_map_entries(&mut r, c, MapKind::Email);
    push_map_entries(&mut r, c, MapKind::Tel);
    push_map_entries(&mut r, c, MapKind::Label);
    assert(actions_view(r@) =~= menu_of(c@));
    r
}

/// Where an edit session stands.
#[derive(Debug, PartialEq, Eq)]
pub enum EditState {
    /// The menu is shown and a selection is awaited.
    Menu,
    /// A new full name is awaited.
    EnterFullName,
    /// A new entity name is awaited.
    EnterEntityName,
    /// The label of a new entry of a map is awaited.
    EnterLabel(MapKind),
    /// The value to store under a label of a map is awaited.
    EnterValue(MapKind, String),
    /// The session is over.
    Done,
}

/// The value of an `EditState`.
pub enum StateView {
    Menu,
    EnterFullName,
    EnterEntityName,
    EnterLabel(MapKind),
    EnterValue(MapKind, Seq<char>),
    Done,
}

impl View for EditState {
    type V = StateView;

    open spec fn view(&self) -> StateView {
        match self {
            EditState::Menu => StateView::Menu,
            EditState::EnterFullName => StateView::EnterFullName,
            EditState::EnterEntityName => StateView::EnterEntityName,
            EditState::EnterLabel(k) => StateView::EnterLabel(*k),
            EditState::EnterValue(k, l) => StateView::EnterValue(*k, l@),
            EditState::Done => StateView::Done,
        }
    }
}

/// What the user did: picked a menu entry by position, or entered a line.
#[derive(Debug, PartialEq, Eq)]
pub enum EditEvent {
    Select(usize),
    Text(String),
}

/// The value of an `EditEvent`.
pub enum EventView {
    Select(usize),
    Text(Seq<char>),
}

impl View for EditEvent {
    type V = EventView;

    open spec fn view(&self) -> EventView {
        match self {
            EditEvent::Select(i) => EventView::Select(*i),
            EditEvent::Text(t) => EventView::Text(t@),
        }
    }
}

/// The result of one step of an edit session: the next state, and a
/// rejection to report to the user without ending the session.
pub struct Step {
    pub state: EditState,
    pub notice: Option<ContactError>,
}

/// One step of an edit session on contact `c` in state `s` on event `e`:
/// the contact afterwards, the next state and a notice, or an error that
/// ends the session. An event that does not fit the state changes nothing.
pub open spec fn transition(c: ContactView, s: StateView, e: EventView) -> Result<
    (ContactView, StateView, Option<ContactError>),
    ContactError,
> {
    match (s, e) {
        (StateView::Menu, EventView::Select(i)) => if i < menu_of(c).len() {
            match menu_of(c)[i as int] {
                ActionView::Finish => Ok((c, StateView::Done, None)),
                ActionView::ChangeFullName => Ok((c, StateView::EnterFullName, None)),
                ActionView::ChangeEntityName => Ok((c, StateView::EnterEntityName, None)),
                ActionView::Add(k) => Ok((c, StateView::EnterLabel(k), None)),
                ActionView::Remove(k, l) => Ok(
                    (with_map(c, k, without_label(map_of(c, k), l)), StateView::Menu, None),
                ),
                ActionView::Change(k, l) => Ok((c, StateView::EnterValue(k, l), None)),
            }
        } else {
            Ok((c, StateView::Menu, None))
        },
        (StateView::EnterFullName, EventView::Text(t)) => match c.identity {
            IdentityView::FullName(_) => Ok(
                (ContactView { identity: IdentityView::FullName(t), ..c }, StateView::Menu, None),
            ),
            IdentityView::EntityName(_) => Err(ContactError::ConflictingIdentity),
        },
        (StateView::EnterEntityName, EventView::Text(t)) => match c.identity {
            IdentityView::EntityName(_) => Ok(
                (
                    ContactView { identity: IdentityView::EntityName(t), ..c },
                    StateView::Menu,
                    None,
                ),
            ),
            IdentityView::FullName(_) => Err(ContactError::ConflictingIdentity),
        },
        (StateView::EnterLabel(k), EventView::Text(l)) => if has_label(map_of(c, k), l) {
            Ok((c, StateView::Menu, Some(ContactError::DuplicateLabel)))
        } else {
            Ok((c, StateView::EnterValue(k, l), None))
        },
        (StateView::EnterValue(k, l), EventView::Text(v)) => Ok(
            (with_map(c, k, with_value(map_of(c, k), l, v)), StateView::Menu, None),
        ),
        _ => Ok((c, s, None)),
    }
}

/// The state in which an edit session starts.
pub fn start() -> (r: EditState)
    ensures
        r@ == StateView::Menu,
{
    EditState::Menu
}

/// Applies menu entry `a` to `c`.
fn select(c: &mut Contact, a: &EditAction) -> (r: EditState)
    ensures
        match a@ {
            ActionView::Finish => final(c)@ == old(c)@ && r@ == StateView::Done,
            ActionView::ChangeFullName => final(c)@ == old(c)@ && r@ == StateView::EnterFullName,
            ActionView::ChangeEntityName => final(c)@ == old(c)@ && r@
                == StateView::EnterEntityName,
            ActionView::Add(k) => final(c)@ == old(c)@ && r@ == StateView::EnterLabel(k),
            ActionView::Remove(k, l) => final(c)@ == with_map(
                old(c)@,
                k,
                without_label(map_of(old(c)@, k), l),
            ) && r@ == StateView::Menu,
            ActionView::Change(k, l) => final(c)@ == old(c)@ && r@ == StateView::EnterValue(k, l),
        },
{
    match a {
        EditAction::Finish => EditState::Done,
        EditAction::ChangeFullName => EditState::EnterFullName,
        EditAction::ChangeEntityName => EditState::EnterEntityName,
        EditAction::Add(k) => EditState::EnterLabel(*k),
        EditAction::Remove(k, l) => {
            c.map_mut(*k).remove(l);
            EditState::Menu
        },
        EditAction::Change(k, l) => EditState::EnterValue(*k, l.clone()),
    }
}

/// Carries out one step of an edit session on `c`.
pub fn step(c: &mut Contact, state: EditState, event: EditEvent) -> (r: Result<Step, ContactError>)
    ensures
        match r {
            Ok(st) => transition(old(c)@, state@, event@) == Ok::<
                (ContactView, StateView, Option<ContactError>),
                ContactError,
            >((final(c)@, st.state@, st.notice)),
            Err(e) => transition(old(c)@, state@, event@) == Err::<
                (ContactView, StateView, Option<ContactError>),
                ContactError,
            >(e) && final(c)@ == old(c)@,
        },
{
    match (state, event) {
        (EditState::Menu, EditEvent::Select(i)) => {
            let m = menu(c);
            if i < m.len() {
                let next = select(c, &m[i]);
                Ok(Step { state: next, notice: None })
            } else {
                Ok(Step { state: EditState::Menu, notice: None })
            }
        },
        (EditState::EnterFullName, EditEvent::Text(t)) => {
            c.set_full_name(t)?;
            Ok(Step { state: EditState::Menu, notice: None })
        },
        (EditState::EnterEntityName, EditEvent::Text(t)) => {
            c.set_entity_name(t)?;
            Ok(Step { state: EditState::Menu, notice: None })
        },
        (EditState::EnterLabel(k), EditEvent::Text(l)) => {
            if c.map(k).contains_label(&l) {
                Ok(Step { state: EditState::Menu, notice: Some(ContactError::DuplicateLabel) })
            } else {
                Ok(Step { state: EditState::EnterValue(k, l), notice: None })
            }
        },
        (EditState::EnterValue(k, l), EditEvent::Text(v)) => {
            c.map_mut(k).set(l, v);
            Ok(Step { state: EditState::Menu, notice: None })
        },
        (state, _) => Ok(Step { state, notice: None }),
    }
}

/// What a map's entries are called when the user is asked for one.
pub open spec fn kind_title(k: MapKind) -> Seq<char> {
    match k {
        MapKind::Email => "email"@,
        MapKind::Tel => "telephone number"@,
        MapKind::Label => "label"@,
    }
}

/// The prompt under which the user is asked for input in state `s`; none
/// once the session is over.
pub open spec fn prompt_of(s: StateView) -> Option<Seq<char>> {
    match s {
        StateView::Menu => Some("Select action"@),
        StateView::EnterFullName => Some("Full name"@),
        StateView::EnterEntityName => Some("Entity name"@),
        StateView::EnterLabel(k) => Some(kind_title(k) + " name"@),
        StateView::EnterValue(k, _) => Some(kind_title(k)),
        StateView::Done => None,
    }
}

fn kind_title_str(k: MapKind) -> (r: &'static str)
    ensures
        r@ == kind_title(k),
{
    match k {
        MapKind::Email => "email",
        MapKind::Tel => "telephone number",
        MapKind::Label => "label",
    }
}

/// The prompt for state `state`.
pub fn prompt(state: &EditState) -> (r: Option<String>)
    ensures
        match r {
            Some(p) => prompt_of(state@) == Some(p@),
            None => prompt_of(state@) is None,
        },
{
    match state {
        EditState::Menu => Some(String::from_str("Select action")),
        EditState::EnterFullName => Some(String::from_str("Full name")),
        EditState::EnterEntityName => Some(String::from_str("Entity name")),
        EditState::EnterLabel(k) => Some(concat_str(kind_title_str(*k), " name")),
        EditState::EnterValue(k, _) => Some(String::from_str(kind_title_str(*k))),
        EditState::Done => None,
    }
}

/// Choosing the first menu entry, finish, ends the session and leaves the
/// contact as it was.
pub proof fn lemma_finish_leaves_contact_unchanged(c: ContactView)
    ensures
        transition(c, StateView::Menu, EventView::Select(0)) == Ok::<
            (ContactView, StateView, Option<ContactError>),
            ContactError,
        >((c, StateView::Done, None)),
{
    assert(menu_of(c)[0] == ActionView::Finish);
}

/// Entering a label that the map already holds is reported and changes
/// nothing; the session goes back to the menu.
pub proof fn lemma_duplicate_label_changes_nothing(c: ContactView, k: MapKind, l: Seq<char>)
    requires
        has_label(map_of(c, k), l),
    ensures
        transition(c, StateView::EnterLabel(k), EventView::Text(l)) == Ok::<
            (ContactView, StateView, Option<ContactError>),
            ContactError,
        >((c, StateView::Menu, Some(ContactError::DuplicateLabel))),
{
}

} // verus!
