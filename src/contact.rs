use vstd::prelude::*;
use crate::labels::{labels_unique, pairs_view, EntryView, LabelMap};

verus! {

/// The name by which a contact is known: a person's full name or an
/// organization's entity name, never both.
#[derive(Debug, PartialEq, Eq)]
pub enum Identity {
    FullName(String),
    EntityName(String),
}

/// The value of an `Identity`.
pub enum IdentityView {
    FullName(Seq<char>),
    EntityName(Seq<char>),
}

impl View for Identity {
    type V = IdentityView;

    open spec fn view(&self) -> IdentityView {
        match self {
            Identity::FullName(n) => IdentityView::FullName(n@),
            Identity::EntityName(n) => IdentityView::EntityName(n@),
        }
    }
}

/// The value of a `Contact`.
pub struct ContactView {
    pub identity: IdentityView,
    pub tels: Seq<EntryView>,
    pub emails: Seq<EntryView>,
    pub labels: Seq<EntryView>,
}

/// Errors of the record store.
#[derive(Debug, Clone, Copy, PartialEq, Eq, Structural)]
pub enum ContactError {
    /// A full name and an entity name at once.
    ConflictingIdentity,
    /// Neither a full name nor an entity name.
    MissingIdentity,
    /// A label given twice within one map.
    DuplicateLabel,
}

impl ContactError {
    /// The text that tells the user about the error.
    pub fn message(&self) -> (r: &'static str)
        ensures
            *self == ContactError::ConflictingIdentity ==> r@
                == "Full name and entity name cannot be set at the same time."@,
            *self == ContactError::MissingIdentity ==> r@
                == "One of full name or entity name must be given."@,
            *self == ContactError::DuplicateLabel ==> r@ == "This key already exist!"@,
    {
        match self {
            ContactError::ConflictingIdentity => "Full name and entity name cannot be set at the same time.",
            ContactError::MissingIdentity => "One of full name or entity name must be given.",
            ContactError::DuplicateLabel => "This key already exist!",
        }
    }
}

/// One contact record.
#[derive(Debug, PartialEq, Eq)]
pub struct Contact {
    identity: Identity,
    tels: LabelMap,
    emails: LabelMap,
    labels: LabelMap,
}

/// The three label maps of a contact.
#[derive(Debug, Clone, Copy, PartialEq, Eq, Structural)]
pub enum MapKind {
    Email,
    Tel,
    Label,
}

/// The map of kind `k` of contact `c`.
pub open spec fn map_of(c: ContactView, k: MapKind) -> Seq<EntryView> {
    match k {
        MapKind::Email => c.emails,
        MapKind::Tel => c.tels,
        MapKind::Label => c.labels,
    }
}

/// Contact `c` with its map of kind `k` replaced by `m`.
pub open spec fn with_map(c: ContactView, k: MapKind, m: Seq<EntryView>) -> ContactView {
    match k {
        MapKind::Email => ContactView { emails: m, ..c },
        MapKind::Tel => ContactView { tels: m, ..c },
        MapKind::Label => ContactView { labels: m, ..c },
    }
}

impl View for Contact {
    type V = ContactView;

    closed spec fn view(&self) -> ContactView {
        ContactView {
            identity: self.identity@,
            tels: self.tels@,
            emails: self.emails@,
            labels: self.labels@,
        }
    }
}

/// A contact with `identity` and empty maps.
pub open spec fn fresh_contact(identity: IdentityView) -> ContactView {
    ContactView {
        identity,
        tels: Seq::empty(),
        emails: Seq::empty(),
        labels: Seq::empty(),
    }
}

/// The full name of a contact, if it has one.
pub open spec fn full_name_of(c: ContactView) -> Option<Seq<char>> {
    match c.identity {
        IdentityView::FullName(n) => Some(n),
        IdentityView::EntityName(_) => None,
    }
}

/// The entity name of a contact, if it has one.
pub open spec fn entity_name_of(c: ContactView) -> Option<Seq<char>> {
    match c.identity {
        IdentityView::FullName(_) => None,
        IdentityView::EntityName(n) => Some(n),
    }
}

/// Every contact has exactly one name: a full name or an entity name.
pub proof fn lemma_exactly_one_name(c: ContactView)
    ensures
        (full_name_of(c) is Some) != (entity_name_of(c) is Some),
{
}

/// The contact that stored fields describe, or the error that they give:
/// exactly one of the two names must be present and no map may repeat a
/// label.
pub open spec fn contact_from_fields(
    full_name: Option<Seq<char>>,
    entity_name: Option<Seq<char>>,
    tels: Seq<EntryView>,
    emails: Seq<EntryView>,
    labels: Seq<EntryView>,
) -> Result<ContactView, ContactError> {
    let identity = match (full_name, entity_name) {
        (Some(_), Some(_)) => Err(ContactError::ConflictingIdentity),
        (None, None) => Err(ContactError::MissingIdentity),
        (Some(n), None) => Ok(IdentityView::FullName(n)),
        (None, Some(n)) => Ok(IdentityView::EntityName(n)),
    };
    match identity {
        Err(e) => Err(e),
        Ok(identity) => if labels_unique(tels) && labels_unique(emails) && labels_unique(labels) {
            Ok(ContactView { identity, tels, emails, labels })
        } else {
            Err(ContactError::DuplicateLabel)
        },
    }
}

/// Reading back the fields of a contact gives the same contact.
pub proof fn lemma_fields_round_trip(c: ContactView)
    requires
        labels_unique(c.tels),
        labels_unique(c.emails),
        labels_unique(c.labels),
    ensures
        contact_from_fields(full_name_of(c), entity_name_of(c), c.tels, c.emails, c.labels)
            == Ok::<ContactView, ContactError>(c),
{
}

/// `s` as an optional view.
pub open spec fn opt_view(s: Option<String>) -> Option<Seq<char>> {
    match s {
        Some(s) => Some(s@),
        None => None,
    }
}

/// The views of a list of strings.
pub open spec fn lines_view(v: Seq<String>) -> Seq<Seq<char>> {
    v.map_values(|s: String| s@)
}

/// The line that shows one map entry.
pub open spec fn entry_line(e: EntryView) -> Seq<char> {
    "  "@ + e.0 + ": "@ + e.1
}

/// A titled section of map entries; nothing for an empty map.
pub open spec fn section_lines(title: Seq<char>, s: Seq<EntryView>) -> Seq<Seq<char>> {
    if s.len() == 0 {
        Seq::empty()
    } else {
        seq![title] + s.map_values(|e: EntryView| entry_line(e))
    }
}

/// The line that shows the name of a contact.
pub open spec fn identity_line(id: IdentityView) -> Seq<char> {
    match id {
        IdentityView::FullName(n) => "Full name: "@ + n,
        IdentityView::EntityName(n) => "Entity name: "@ + n,
    }
}

/// The lines that show a contact: its name, then its telephone numbers,
/// emails and labels, each section only where it has entries.
pub open spec fn contact_lines(c: ContactView) -> Seq<Seq<char>> {
    seq![identity_line(c.identity)] + section_lines("Telephone numbers:"@, c.tels)
        + section_lines("Emails:"@, c.emails) + section_lines("Labels:"@, c.labels)
}

/// `a` followed by `b`.
pub fn concat_str(a: &str, b: &str) -> (r: String)
    ensures
        r@ == a@ + b@,
{
    let mut r = String::from_str(a);
    r.append(b);
    r
}

/// Appends to `out` the section of `m` under `title`.
fn push_section(out: &mut Vec<String>, title: &str, m: &LabelMap)
    ensures
        lines_view(final(out)@) == lines_view(old(out)@) + section_lines(title@, m@),
{
    let ghost start = lines_view(out@);
    let n = m.len();
    if n == 0 {
        assert(lines_view(out@) =~= start + section_lines(title@, m@));
        return;
    }
    out.push(String::from_str(title));
    let ghost head = start.push(title@);
    assert(lines_view(out@) =~= head);
    let mut i: usize = 0;
    while i < n
        invariant
            n == m@.len(),
            i <= n,
            lines_view(out@) == head + m@.take(i as int).map_values(|e: EntryView| entry_line(e)),
        decreases n - i,
    {
        let (k, v) = m.entry(i);
        let mut line = concat_str("  ", k.as_str());
        line.append(": ");
        line.append(v.as_str());
        let ghost prev = out@;
        out.push(line);
        assert(lines_view(out@) =~= lines_view(prev).push(line@));
        assert(m@.take(i as int + 1).map_values(|e: EntryView| entry_line(e)) =~= m@.take(
            i as int,
        ).map_values(|e: EntryView| entry_line(e)).push(entry_line(m@[i as int])));
        i = i + 1;
    }
    assert(m@.take(n as int) =~= m@);
    assert(lines_view(out@) =~= start + section_lines(title@, m@));
}

impl Contact {
    /// The lines that show this contact.
    pub fn lines(&self) -> (r: Vec<String>)
        ensures
            lines_view(r@) == contact_lines(self@),
    {
        let mut out: Vec<String> = Vec::new();
        let first = match &self.identity {
            Identity::FullName(n) => concat_str("Full name: ", n.as_str()),
            Identity::EntityName(n) => concat_str("Entity name: ", n.as_str()),
        };
        out.push(first);
        assert(lines_view(out@) =~= seq![identity_line(self@.identity)]);
        push_section(&mut out, "Telephone numbers:", &self.tels);
        push_section(&mut out, "Emails:", &self.emails);
        push_section(&mut out, "Labels:", &self.labels);
        out
    }

    /// A person with `full_name` and no other data.
    pub fn with_full_name(full_name: String) -> (r: Contact)
        ensures
            r@ == fresh_contact(IdentityView::FullName(full_name@)),
    {
        Contact {
            identity: Identity::FullName(full_name),
            tels: LabelMap::new(),
            emails: LabelMap::new(),
            labels: LabelMap::new(),
        }
    }

    /// An organization with `entity_name` and no other data.
    pub fn with_entity_name(entity_name: String) -> (r: Contact)
        ensures
            r@ == fresh_contact(IdentityView::EntityName(entity_name@)),
    {
        Contact {
            identity: Identity::EntityName(entity_name),
            tels: LabelMap::new(),
            emails: LabelMap::new(),
            labels: LabelMap::new(),
        }
    }

    /// Replaces the full name. A contact known by an entity name is refused
    /// and left as it was.
    pub fn set_full_name(&mut self, full_name: String) -> (r: Result<(), ContactError>)
        ensures
            old(self)@.identity is EntityName ==> r == Err::<(), ContactError>(
                ContactError::ConflictingIdentity,
            ) && final(self)@ == old(self)@,
            old(self)@.identity is FullName ==> r is Ok && final(self)@ == (ContactView {
                identity: IdentityView::FullName(full_name@),
                ..old(self)@
            }),
    {
        match self.identity {
            Identity::EntityName(_) => Err(ContactError::ConflictingIdentity),
            Identity::FullName(_) => {
                self.identity = Identity::FullName(full_name);
                Ok(())
            },
        }
    }

    /// Replaces the entity name. A contact known by a full name is refused
    /// and left as it was.
    pub fn set_entity_name(&mut self, entity_name: String) -> (r: Result<(), ContactError>)
        ensures
            old(self)@.identity is FullName ==> r == Err::<(), ContactError>(
                ContactError::ConflictingIdentity,
            ) && final(self)@ == old(self)@,
            old(self)@.identity is EntityName ==> r is Ok && final(self)@ == (ContactView {
                identity: IdentityView::EntityName(entity_name@),
                ..old(self)@
            }),
    {
        match self.identity {
            Identity::FullName(_) => Err(ContactError::ConflictingIdentity),
            Identity::EntityName(_) => {
                self.identity = Identity::EntityName(entity_name);
                Ok(())
            },
        }
    }

    /// The telephone numbers, by label.
    pub fn tels(&self) -> (r: &LabelMap)
        ensures
            r@ == self@.tels,
    {
        &self.tels
    }

    /// The email addresses, by label.
    pub fn emails(&self) -> (r: &LabelMap)
        ensures
            r@ == self@.emails,
    {
        &self.emails
    }

    /// The custom labels and their texts.
    pub fn labels(&self) -> (r: &LabelMap)
        ensures
            r@ == self@.labels,
    {
        &self.labels
    }

    /// The map of kind `k`.
    pub fn map(&self, k: MapKind) -> (r: &LabelMap)
        ensures
            r@ == map_of(self@, k),
    {
        match k {
            MapKind::Email => &self.emails,
            MapKind::Tel => &self.tels,
            MapKind::Label => &self.labels,
        }
    }

    /// The map of kind `k`, for changing it in place.
    pub fn map_mut(&mut self, k: MapKind) -> (r: &mut LabelMap)
        ensures
            r@ == map_of(old(self)@, k),
            final(self)@ == with_map(old(self)@, k, final(r)@),
    {
        match k {
            MapKind::Email => &mut self.emails,
            MapKind::Tel => &mut self.tels,
            MapKind::Label => &mut self.labels,
        }
    }

    /// The full name, if the contact is a person.
    pub fn full_name(&self) -> (r: Option<&str>)
        ensures
            match r {
                Some(s) => full_name_of(self@) == Some(s@),
                None => full_name_of(self@) is None,
            },
    {
        match &self.identity {
            Identity::FullName(n) => Some(n.as_str()),
            Identity::EntityName(_) => None,
        }
    }

    /// The entity name, if the contact is an organization.
    pub fn entity_name(&self) -> (r: Option<&str>)
        ensures
            match r {
                Some(s) => entity_name_of(self@) == Some(s@),
                None => entity_name_of(self@) is None,
            },
    {
        match &self.identity {
            Identity::FullName(_) => None,
            Identity::EntityName(n) => Some(n.as_str()),
        }
    }

    /// Builds a contact from stored fields: exactly one of the two names,
    /// and three lists of label/value pairs whose labels do not repeat.
    pub fn from_fields(
        full_name: Option<String>,
        entity_name: Option<String>,
        tels: &Vec<(String, String)>,
        emails: &Vec<(String, String)>,
        labels: &Vec<(String, String)>,
    ) -> (r: Result<Contact, ContactError>)
        ensures
            match r {
                Ok(c) => contact_from_fields(
                    opt_view(full_name),
                    opt_view(entity_name),
                    pairs_view(tels@),
                    pairs_view(emails@),
                    pairs_view(labels@),
                ) == Ok::<ContactView, ContactError>(c@),
                Err(e) => contact_from_fields(
                    opt_view(full_name),
                    opt_view(entity_name),
                    pairs_view(tels@),
                    pairs_view(emails@),
                    pairs_view(labels@),
                ) == Err::<ContactView, ContactError>(e),
            },
    {
        let identity = match (full_name, entity_name) {
            (Some(_), Some(_)) => {
                return Err(ContactError::ConflictingIdentity);
            },
            (None, None) => {
                return Err(ContactError::MissingIdentity);
            },
            (Some(n), None) => Identity::FullName(n),
            (None, Some(n)) => Identity::EntityName(n),
        };
        let tels = match LabelMap::from_pairs(tels) {
            Ok(m) => m,
            Err(_) => {
                return Err(ContactError::DuplicateLabel);
            },
        };
        let emails = match LabelMap::from_pairs(emails) {
            Ok(m) => m,
            Err(_) => {
                return Err(ContactError::DuplicateLabel);
            },
        };
        let labels = match LabelMap::from_pairs(labels) {
            Ok(m) => m,
            Err(_) => {
                return Err(ContactError::DuplicateLabel);
            },
        };
        let c = Contact { identity, tels, emails, labels };
        Ok(c)
    }
}

} // verus!

verus! {

/// The whole contact book: contacts in the order in which they were added.
#[derive(Debug, PartialEq, Eq)]
pub struct Contacts {
    contacts: Vec<Contact>,
}

impl View for Contacts {
    type V = Seq<Contact>;

    closed spec fn view(&self) -> Seq<Contact> {
        self.contacts@
    }
}

impl Contacts {
    /// An empty contact book.
    pub fn new() -> (r: Contacts)
        ensures
            r@ == Seq::<Contact>::empty(),
    {
        Contacts { contacts: Vec::new() }
    }

    /// Appends `contact` at the end.
    pub fn add(&mut self, contact: Contact)
        ensures
            final(self)@ == old(self)@.push(contact),
    {
        self.contacts.push(contact);
    }

    /// Number of contacts.
    pub fn len(&self) -> (r: usize)
        ensures
            r == self@.len(),
    {
        self.contacts.len()
    }

    /// The contacts, in order.
    pub fn contacts(&self) -> (r: &Vec<Contact>)
        ensures
            r@ == self@,
    {
        &self.contacts
    }

    /// The contacts, in order, for editing in place.
    pub fn contacts_mut(&mut self) -> (r: &mut Vec<Contact>)
        ensures
            r@ == old(self)@,
            final(self)@ == final(r)@,
    {
        &mut self.contacts
    }
}

} // verus!
