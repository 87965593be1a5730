use vstd::prelude::*;
use crate::contact::{
    concat_str, contact_lines, lines_view, Contact, ContactView, Contacts, IdentityView,
};
use crate::labels::EntryView;
use crate::search::{lemma_matching_indices_in_range, matching_indices, search, SearchOptions};

verus! {

/// What a search action asks its caller to do.
#[derive(Debug, PartialEq, Eq)]
pub enum Outcome {
    /// Write `summary`, then `lines`, to standard output; nothing changed.
    Report { summary: String, lines: Vec<String> },
    /// Edit the contact at this position of the contact book, then save the
    /// contact book.
    Edit(usize),
}

/// The value of an `Outcome`.
pub enum OutcomeView {
    Report { summary: Seq<char>, lines: Seq<Seq<char>> },
    Edit(usize),
}

impl View for Outcome {
    type V = OutcomeView;

    open spec fn view(&self) -> OutcomeView {
        match self {
            Outcome::Report { summary, lines } => OutcomeView::Report {
                summary: summary@,
                lines: lines_view(lines@),
            },
            Outcome::Edit(i) => OutcomeView::Edit(*i),
        }
    }
}

impl Outcome {
    /// Whether the contact book must be saved once the outcome is carried out.
    pub fn needs_save(&self) -> (r: bool)
        ensures
            r == (self is Edit),
    {
        match self {
            Outcome::Report { .. } => false,
            Outcome::Edit(_) => true,
        }
    }
}

/// Errors of the search actions.
#[derive(Debug, Clone, Copy, PartialEq, Eq, Structural)]
pub enum ActionError {
    /// The search matched no contact.
    NoMatches,
    /// The search matched more than one contact where one was needed.
    MultipleMatches,
}

impl ActionError {
    /// The text that tells the user about the error.
    pub fn message(&self) -> (r: &'static str)
        ensures
            *self == ActionError::NoMatches ==> r@ == "No contact has been matched."@,
            *self == ActionError::MultipleMatches ==> r@ == "More than one contacts matched."@,
    {
        match self {
            ActionError::NoMatches => "No contact has been matched.",
            ActionError::MultipleMatches => "More than one contacts matched.",
        }
    }
}

/// Every position in `matched` is a position of `contacts`.
pub open spec fn valid_matches(contacts: Seq<Contact>, matched: Seq<usize>) -> bool {
    forall|k: int| 0 <= k < matched.len() ==> #[trigger] matched[k] < contacts.len()
}

/// What a search does with the contacts it matched.
pub trait MatchAction {
    /// The outcome of the action on the contacts at positions `matched`.
    spec fn outcome(&self, contacts: Seq<Contact>, matched: Seq<usize>) -> Result<
        OutcomeView,
        ActionError,
    >;

    /// Carries out the action on the contacts at positions `matched`.
    fn process(&self, contacts: &Contacts, matched: &Vec<usize>) -> (r: Result<
        Outcome,
        ActionError,
    >)
        requires
            valid_matches(contacts@, matched@),
        ensures
            match r {
                Ok(o) => self.outcome(contacts@, matched@) == Ok::<OutcomeView, ActionError>(o@),
                Err(e) => self.outcome(contacts@, matched@) == Err::<OutcomeView, ActionError>(e),
            },
    ;
}

/// The character of decimal digit `d`.
pub open spec fn digit_char(d: nat) -> char {
    seq!['0', '1', '2', '3', '4', '5', '6', '7', '8', '9'][d as int]
}

/// `n` written in decimal.
pub open spec fn decimal(n: nat) -> Seq<char>
    decreases n,
{
    if n < 10 {
        seq![digit_char(n)]
    } else {
        decimal(n / 10).push(digit_char(n % 10))
    }
}

/// The text of decimal digit `d`.
fn digit_str(d: usize) -> (r: &'static str)
    requires
        d < 10,
    ensures
        r@ == seq![digit_char(d as nat)],
{
    proof {
        reveal_strlit("0");
        reveal_strlit("1");
        reveal_strlit("2");
        reveal_strlit("3");
        reveal_strlit("4");
        reveal_strlit("5");
        reveal_strlit("6");
        reveal_strlit("7");
        reveal_strlit("8");
        reveal_strlit("9");
    }
    let r = if d == 0 {
        "0"
    } else if d == 1 {
        "1"
    } else if d == 2 {
        "2"
    } else if d == 3 {
        "3"
    } else if d == 4 {
        "4"
    } else if d == 5 {
        "5"
    } else if d == 6 {
        "6"
    } else if d == 7 {
        "7"
    } else if d == 8 {
        "8"
    } else {
        "9"
    };
    assert(r@ =~= seq![digit_char(d as nat)]);
    r
}

/// `n` written in decimal.
pub fn decimal_string(n: usize) -> (r: String)
    ensures
        r@ == decimal(n as nat),
    decreases n,
{
    if n < 10 {
        String::from_str(digit_str(n))
    } else {
        let mut r = decimal_string(n / 10);
        r.append(digit_str(n % 10));
        r
    }
}

/// The line that separates printed contacts.
pub open spec fn separator() -> Seq<char> {
    "--------------------------------------------------"@
}

/// The printed blocks of the contacts at positions `matched`: each
/// contact's lines followed by a separator.
pub open spec fn print_blocks(contacts: Seq<Contact>, matched: Seq<usize>) -> Seq<Seq<char>>
    decreases matched.len(),
{
    if matched.len() == 0 {
        Seq::empty()
    } else {
        print_blocks(contacts, matched.drop_last()) + contact_lines(
            contacts[matched.last() as int]@,
        ) + seq![separator()]
    }
}

/// The name under which a contact is shown: its full name or its entity
/// name.
pub open spec fn display_name(c: ContactView) -> Seq<char> {
    match c.identity {
        IdentityView::FullName(n) => n,
        IdentityView::EntityName(n) => n,
    }
}

/// The export line of one email entry: address, name and label, separated
/// by tabs, the label in parentheses.
pub open spec fn export_line(name: Seq<char>, e: EntryView) -> Seq<char> {
    e.1 + "\t"@ + name + "\t("@ + e.0 + ")"@
}

/// The export lines of the contacts at positions `matched`: one line for
/// each email of each contact, in order.
pub open spec fn export_lines(contacts: Seq<Contact>, matched: Seq<usize>) -> Seq<Seq<char>>
    decreases matched.len(),
{
    if matched.len() == 0 {
        Seq::empty()
    } else {
        let c = contacts[matched.last() as int]@;
        export_lines(contacts, matched.drop_last()) + c.emails.map_values(
            |e: EntryView| export_line(display_name(c), e),
        )
    }
}

/// The summary line of a printed report of `n` contacts.
pub open spec fn print_summary(n: nat) -> Seq<char> {
    if n == 1 {
        "One contact found:"@
    } else {
        decimal(n) + " contacts found:"@
    }
}

/// The summary line of an export of `n` contacts.
pub open spec fn export_summary(n: nat) -> Seq<char> {
    decimal(n) + " contacts found."@
}

/// Appends `more` to `out`.
fn append_lines(out: &mut Vec<String>, more: Vec<String>)
    ensures
        lines_view(final(out)@) == lines_view(old(out)@) + lines_view(more@),
{
    let mut more = more;
    let ghost a = out@;
    let ghost b = more@;
    out.append(&mut more);
    assert(lines_view(out@) =~= lines_view(a) + lines_view(b));
}

/// Prints the matched contacts in full.
pub struct PrintExporter {}

impl PrintExporter {
    pub fn new() -> (r: PrintExporter) {
        PrintExporter {}
    }
}

impl MatchAction for PrintExporter {
    open spec fn outcome(&self, contacts: Seq<Contact>, matched: Seq<usize>) -> Result<
        OutcomeView,
        ActionError,
    > {
        if matched.len() == 0 {
            Err(ActionError::NoMatches)
        } else {
            Ok(
                OutcomeView::Report {
                    summary: print_summary(matched.len()),
                    lines: seq![separator()] + print_blocks(contacts, matched),
                },
            )
        }
    }

    fn process(&self, contacts: &Contacts, matched: &Vec<usize>) -> (r: Result<
        Outcome,
        ActionError,
    >) {
        let n = matched.len();
        if n == 0 {
            return Err(ActionError::NoMatches);
        }
        let summary = if n == 1 {
            String::from_str("One contact found:")
        } else {
            let mut s = decimal_string(n);
            s.append(" contacts found:");
            s
        };
        let all = contacts.contacts();
        let mut lines: Vec<String> = Vec::new();
        lines.push(String::from_str("--------------------------------------------------"));
        let mut k: usize = 0;
        while k < n
            invariant
                n == matched@.len(),
                k <= n,
                all@ == contacts@,
                valid_matches(contacts@, matched@),
                lines_view(lines@) == seq![separator()] + print_blocks(
                    contacts@,
                    matched@.take(k as int),
                ),
            decreases n - k,
        {
            assert(matched@.take(k as int + 1).drop_last() =~= matched@.take(k as int));
            let c = &all[matched[k]];
            append_lines(&mut lines, c.lines());
            let ghost before = lines@;
            lines.push(String::from_str("--------------------------------------------------"));
            assert(lines_view(lines@) =~= lines_view(before).push(separator()));
            assert(lines_view(lines@) =~= seq![separator()] + print_blocks(
                contacts@,
                matched@.take(k as int + 1),
            ));
            k = k + 1;
        }
        assert(matched@.take(n as int) =~= matched@);
        Ok(Outcome::Report { summary, lines })
    }
}

/// Exports the emails of the matched contacts, one tab-separated line each,
/// in the form that a mail client's address query reads.
pub struct Mutt {}

impl Mutt {
    pub fn new() -> (r: Mutt) {
        Mutt {}
    }
}

/// Appends to `out` the export lines of contact `c`.
fn push_export_lines(out: &mut Vec<String>, c: &Contact)
    ensures
        lines_view(final(out)@) == lines_view(old(out)@) + c@.emails.map_values(
            |e: EntryView| export_line(display_name(c@), e),
        ),
{
    let ghost start = lines_view(out@);
    let name = match c.full_name() {
        Some(n) => n,
        None => match c.entity_name() {
            Some(n) => n,
            None => "",
        },
    };
    assert(name@ == display_name(c@));
    let n = c.emails().len();
    let mut i: usize = 0;
    while i < n
        invariant
            n == c@.emails.len(),
            i <= n,
            name@ == display_name(c@),
            lines_view(out@) == start + c@.emails.take(i as int).map_values(
                |e: EntryView| export_line(display_name(c@), e),
            ),
        decreases n - i,
    {
        let (label, address) = c.emails().entry(i);
        let mut line = concat_str(address.as_str(), "\t");
        line.append(name);
        line.append("\t(");
        line.append(label.as_str());
        line.append(")");
        let ghost prev = out@;
        out.push(line);
        assert(lines_view(out@) =~= lines_view(prev).push(line@));
        assert(c@.emails.take(i as int + 1).map_values(
            |e: EntryView| export_line(display_name(c@), e),
        ) =~= c@.emails.take(i as int).map_values(
            |e: EntryView| export_line(display_name(c@), e),
        ).push(export_line(display_name(c@), c@.emails[i as int])));
        i = i + 1;
    }
    assert(c@.emails.take(n as int) =~= c@.emails);
}

impl MatchAction for Mutt {
    open spec fn outcome(&self, contacts: Seq<Contact>, matched: Seq<usize>) -> Result<
        OutcomeView,
        ActionError,
    > {
        if matched.len() == 0 {
            Err(ActionError::NoMatches)
        } else {
            Ok(
                OutcomeView::Report {
                    summary: export_summary(matched.len()),
                    lines: export_lines(contacts, matched),
                },
            )
        }
    }

    fn process(&self, contacts: &Contacts, matched: &Vec<usize>) -> (r: Result<
        Outcome,
        ActionError,
    >) {
        let n = matched.len();
        if n == 0 {
            return Err(ActionError::NoMatches);
        }
        let mut summary = decimal_string(n);
        summary.append(" contacts found.");
        let all = contacts.contacts();
        let mut lines: Vec<String> = Vec::new();
        assert(lines_view(lines@) =~= export_lines(contacts@, matched@.take(0)));
        let mut k: usize = 0;
        while k < n
            invariant
                n == matched@.len(),
                k <= n,
                all@ == contacts@,
                valid_matches(contacts@, matched@),
                lines_view(lines@) == export_lines(contacts@, matched@.take(k as int)),
            decreases n - k,
        {
            assert(matched@.take(k as int + 1).drop_last() =~= matched@.take(k as int));
            push_export_lines(&mut lines, &all[matched[k]]);
            k = k + 1;
        }
        assert(matched@.take(n as int) =~= matched@);
        Ok(Outcome::Report { summary, lines })
    }
}

/// Edits the one matched contact.
pub struct EditContact {}

impl EditContact {
    pub fn new() -> (r: EditContact) {
        EditContact {}
    }
}

impl MatchAction for EditContact {
    open spec fn outcome(&self, contacts: Seq<Contact>, matched: Seq<usize>) -> Result<
        OutcomeView,
        ActionError,
    > {
        if matched.len() == 0 {
            Err(ActionError::NoMatches)
        } else if matched.len() > 1 {
            Err(ActionError::MultipleMatches)
        } else {
            Ok(OutcomeView::Edit(matched[0]))
        }
    }

    fn process(&self, contacts: &Contacts, matched: &Vec<usize>) -> (r: Result<
        Outcome,
        ActionError,
    >) {
        if matched.len() == 0 {
            return Err(ActionError::NoMatches);
        }
        if matched.len() > 1 {
            return Err(ActionError::MultipleMatches);
        }
        Ok(Outcome::Edit(matched[0]))
    }
}

/// Each action fails on an empty set of matches; editing also fails on
/// more than one match.
pub proof fn lemma_actions_need_matches(contacts: Seq<Contact>, matched: Seq<usize>)
    ensures
        matched.len() == 0 ==> (PrintExporter {}).outcome(contacts, matched) == Err::<
            OutcomeView,
            ActionError,
        >(ActionError::NoMatches),
        matched.len() == 0 ==> (Mutt {}).outcome(contacts, matched) == Err::<
            OutcomeView,
            ActionError,
        >(ActionError::NoMatches),
        matched.len() == 0 ==> (EditContact {}).outcome(contacts, matched) == Err::<
            OutcomeView,
            ActionError,
        >(ActionError::NoMatches),
        matched.len() > 1 ==> (EditContact {}).outcome(contacts, matched) == Err::<
            OutcomeView,
            ActionError,
        >(ActionError::MultipleMatches),
{
}

/// Searches `contacts` with `options` and applies `action` to the matches.
pub fn apply_search<A: MatchAction>(options: &SearchOptions, contacts: &Contacts, action: &A) -> (r:
    Result<Outcome, ActionError>)
    ensures
        match r {
            Ok(o) => action.outcome(contacts@, matching_indices(options@, contacts@)) == Ok::<
                OutcomeView,
                ActionError,
            >(o@),
            Err(e) => action.outcome(contacts@, matching_indices(options@, contacts@)) == Err::<
                OutcomeView,
                ActionError,
            >(e),
        },
{
    let matched = search(options, contacts);
    let _ = contacts.len();
    proof {
        lemma_matching_indices_in_range(options@, contacts@);
    }
    action.process(contacts, &matched)
}

} // verus!
