use vstd::prelude::*;
use crate::contact::{entity_name_of, full_name_of, Contact, ContactView, Contacts};

verus! {

/// Declares regex::Regex, a compiled regular expression, which a
/// `NameFilter` carries without looking inside.
#[verifier::external_type_specification]
#[verifier::external_body]
pub struct ExRegex(regex::Regex);

/// Declares regex::Error, the error of regex::Regex::new, which is mapped to
/// `SearchError::InvalidPattern`.
#[verifier::external_type_specification]
#[verifier::external_body]
pub struct ExRegexError(regex::Error);

/// Whether `pattern` is a regular expression that the regex crate accepts.
pub uninterp spec fn pattern_compiles(pattern: Seq<char>) -> bool;

/// Whether the regular expression `pattern` matches somewhere in `text`.
pub uninterp spec fn pattern_matches(pattern: Seq<char>, text: Seq<char>) -> bool;

/// Relies on regex::Regex::new: it compiles `re` or returns an error, and
/// which of the two depends on the pattern alone.
pub assume_specification[ regex::Regex::new ](re: &str) -> (r: Result<regex::Regex, regex::Error>)
    ensures
        r is Ok == pattern_compiles(re@),
;

/// Errors of the name filters.
#[derive(Debug, Clone, Copy, PartialEq, Eq, Structural)]
pub enum SearchError {
    /// The pattern is not a valid regular expression.
    InvalidPattern,
}

impl SearchError {
    /// The text that tells the user about the error.
    pub fn message(&self) -> (r: &'static str)
        ensures
            r@ == "Invalid regular expression."@,
    {
        "Invalid regular expression."
    }
}

/// A compiled regular expression together with the pattern it was compiled
/// from.
pub struct NameFilter {
    pattern: String,
    regex: regex::Regex,
}

impl View for NameFilter {
    type V = Seq<char>;

    closed spec fn view(&self) -> Seq<char> {
        self.pattern@
    }
}

/// Relies on regex::Regex::is_match, whose answer depends on the pattern and
/// the text alone; `f.regex` is always compiled from `f.pattern`, as
/// `NameFilter::new` is the only place that builds a filter.
#[verifier::external_body]
fn regex_is_match(f: &NameFilter, text: &str) -> (r: bool)
    ensures
        r == pattern_matches(f@, text@),
{
    f.regex.is_match(text)
}

impl NameFilter {
    /// Compiles `pattern`.
    pub fn new(pattern: &str) -> (r: Result<NameFilter, SearchError>)
        ensures
            pattern_compiles(pattern@) ==> r is Ok && r->Ok_0@ == pattern@,
            !pattern_compiles(pattern@) ==> r == Err::<NameFilter, SearchError>(
                SearchError::InvalidPattern,
            ),
    {
        match regex::Regex::new(pattern) {
            Ok(regex) => Ok(NameFilter { pattern: String::from_str(pattern), regex }),
            Err(_) => Err(SearchError::InvalidPattern),
        }
    }

    /// Whether the filter's pattern matches somewhere in `text`.
    pub fn matches(&self, text: &str) -> (r: bool)
        ensures
            r == pattern_matches(self@, text@),
    {
        regex_is_match(self, text)
    }
}

/// The patterns of a set of search options; `None` puts no constraint.
pub struct SearchOptionsView {
    pub full_name: Option<Seq<char>>,
    pub entity_name: Option<Seq<char>>,
}

/// The optional full-name and entity-name filters of one search.
pub struct SearchOptions {
    full_name_regex: Option<NameFilter>,
    entity_name_regex: Option<NameFilter>,
}

/// The pattern of an optional filter.
pub open spec fn filter_view(f: Option<NameFilter>) -> Option<Seq<char>> {
    match f {
        Some(f) => Some(f@),
        None => None,
    }
}

impl View for SearchOptions {
    type V = SearchOptionsView;

    closed spec fn view(&self) -> SearchOptionsView {
        SearchOptionsView {
            full_name: filter_view(self.full_name_regex),
            entity_name: filter_view(self.entity_name_regex),
        }
    }
}

/// The inclusion decision. A filter that is present passes a contact whose
/// name of its kind it matches (`Some(true)` as hit); a contact without a
/// name of its kind (`None` as hit) passes it only if the other filter is
/// present too.
pub open spec fn verdict(
    full_filter: bool,
    entity_filter: bool,
    full_hit: Option<bool>,
    entity_hit: Option<bool>,
) -> bool {
    &&& full_filter ==> match full_hit {
        Some(h) => h,
        None => entity_filter,
    }
    &&& entity_filter ==> match entity_hit {
        Some(h) => h,
        None => full_filter,
    }
}

/// Whether an optional pattern matches an optional name; `None` where
/// either is absent.
pub open spec fn hit(pattern: Option<Seq<char>>, name: Option<Seq<char>>) -> Option<bool> {
    match (pattern, name) {
        (Some(p), Some(n)) => Some(pattern_matches(p, n)),
        _ => None,
    }
}

/// Whether a search with options `o` includes contact `c`.
pub open spec fn contact_matches(o: SearchOptionsView, c: ContactView) -> bool {
    verdict(
        o.full_name is Some,
        o.entity_name is Some,
        hit(o.full_name, full_name_of(c)),
        hit(o.entity_name, entity_name_of(c)),
    )
}

/// The positions in `s` of the contacts that a search with options `o`
/// includes, in increasing order.
pub open spec fn matching_indices(o: SearchOptionsView, s: Seq<Contact>) -> Seq<usize>
    decreases s.len(),
{
    if s.len() == 0 {
        Seq::empty()
    } else {
        let before = matching_indices(o, s.drop_last());
        if contact_matches(o, s.last()@) {
            before.push((s.len() - 1) as usize)
        } else {
            before
        }
    }
}

/// Every position that a search yields is a position of the searched
/// sequence, and they come in increasing order.
pub proof fn lemma_matching_indices_in_range(o: SearchOptionsView, s: Seq<Contact>)
    requires
        s.len() <= usize::MAX,
    ensures
        forall|k: int|
            0 <= k < matching_indices(o, s).len() ==> #[trigger] matching_indices(o, s)[k]
                < s.len(),
        forall|k: int, l: int|
            0 <= k < l < matching_indices(o, s).len() ==> #[trigger] matching_indices(o, s)[k]
                < #[trigger] matching_indices(o, s)[l],
        matching_indices(o, s).len() <= s.len(),
    decreases s.len(),
{
    if s.len() > 0 {
        lemma_matching_indices_in_range(o, s.drop_last());
    }
}

/// The inclusion decision of a search, from whether each filter is present
/// and from what each present filter gave on the contact's name of its kind.
pub fn filter_verdict(
    full_filter: bool,
    entity_filter: bool,
    full_hit: Option<bool>,
    entity_hit: Option<bool>,
) -> (r: bool)
    ensures
        r == verdict(full_filter, entity_filter, full_hit, entity_hit),
{
    if full_filter {
        match full_hit {
            Some(h) => {
                if !h {
                    return false;
                }
            },
            None => {
                if !entity_filter {
                    return false;
                }
            },
        }
    }
    if entity_filter {
        match entity_hit {
            Some(h) => {
                if !h {
                    return false;
                }
            },
            None => {
                if !full_filter {
                    return false;
                }
            },
        }
    }
    true
}

/// What an optional filter gives on an optional name.
fn filter_hit(f: &Option<NameFilter>, name: Option<&str>) -> (r: Option<bool>)
    ensures
        r == hit(filter_view(*f), match name {
            Some(n) => Some(n@),
            None => None,
        }),
{
    match (f, name) {
        (Some(f), Some(n)) => Some(f.matches(n)),
        _ => None,
    }
}

impl SearchOptions {
    /// Options without any filter: every contact matches.
    pub fn new() -> (r: SearchOptions)
        ensures
            r@ == (SearchOptionsView { full_name: None, entity_name: None }),
    {
        SearchOptions { full_name_regex: None, entity_name_regex: None }
    }

    /// Sets the full-name filter to `full_name_regex`. An invalid pattern is
    /// refused and the options are left as they were.
    pub fn set_full_name_regex(&mut self, full_name_regex: &str) -> (r: Result<(), SearchError>)
        ensures
            pattern_compiles(full_name_regex@) ==> r is Ok && final(self)@ == (SearchOptionsView {
                full_name: Some(full_name_regex@),
                ..old(self)@
            }),
            !pattern_compiles(full_name_regex@) ==> r == Err::<(), SearchError>(
                SearchError::InvalidPattern,
            ) && final(self)@ == old(self)@,
    {
        let f = NameFilter::new(full_name_regex)?;
        self.full_name_regex = Some(f);
        Ok(())
    }

    /// Sets the entity-name filter to `entity_name_regex`. An invalid pattern
    /// is refused and the options are left as they were.
    pub fn set_entity_name_regex(&mut self, entity_name_regex: &str) -> (r: Result<(), SearchError>)
        ensures
            pattern_compiles(entity_name_regex@) ==> r is Ok && final(self)@ == (
            SearchOptionsView { entity_name: Some(entity_name_regex@), ..old(self)@ }),
            !pattern_compiles(entity_name_regex@) ==> r == Err::<(), SearchError>(
                SearchError::InvalidPattern,
            ) && final(self)@ == old(self)@,
    {
        let f = NameFilter::new(entity_name_regex)?;
        self.entity_name_regex = Some(f);
        Ok(())
    }

    /// Whether a search with these options includes `contact`.
    pub fn is_match(&self, contact: &Contact) -> (r: bool)
        ensures
            r == contact_matches(self@, contact@),
    {
        let full_hit = filter_hit(&self.full_name_regex, contact.full_name());
        let entity_hit = filter_hit(&self.entity_name_regex, contact.entity_name());
        filter_verdict(
            self.full_name_regex.is_some(),
            self.entity_name_regex.is_some(),
            full_hit,
            entity_hit,
        )
    }
}

/// The positions of the contacts that a search with `options` includes, in
/// the order of the contact book.
pub fn search(options: &SearchOptions, contacts: &Contacts) -> (r: Vec<usize>)
    ensures
        r@ == matching_indices(options@, contacts@),
{
    let all = contacts.contacts();
    let mut r: Vec<usize> = Vec::new();
    let mut i: usize = 0;
    while i < all.len()
        invariant
            i <= all@.len(),
            all@ == contacts@,
            r@ == matching_indices(options@, all@.take(i as int)),
        decreases all@.len() - i,
    {
        assert(all@.take(i as int + 1).drop_last() =~= all@.take(i as int));
        if options.is_match(&all[i]) {
            r.push(i);
        }
        i = i + 1;
    }
    assert(all@.take(all@.len() as int) =~= all@);
    r
}

} // verus!
