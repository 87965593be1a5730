use vstd::prelude::*;
use crate::contact::{lines_view, opt_view};

verus! {

/// Errors of the contact book's storage.
#[derive(Debug, Clone, Copy, PartialEq, Eq, Structural)]
pub enum StoreError {
    /// No base directory can be found for the storage.
    ConfigurationError,
    /// The storage has not been initialized.
    StoreNotFound,
    /// The stored document cannot be read as a contact book.
    CorruptStore,
}

impl StoreError {
    /// The text that tells the user about the error.
    pub fn message(&self) -> (r: &'static str)
        ensures
            *self == StoreError::ConfigurationError ==> r@
                == "Neither XDG_DATA_HOME nor HOME environment variable set."@,
            *self == StoreError::StoreNotFound ==> r@
                == "Could not load contacts. Make sure contacts are initialized."@,
            *self == StoreError::CorruptStore ==> r@ == "Error while loading contacts."@,
    {
        match self {
            StoreError::ConfigurationError => "Neither XDG_DATA_HOME nor HOME environment variable set.",
            StoreError::StoreNotFound => "Could not load contacts. Make sure contacts are initialized.",
            StoreError::CorruptStore => "Error while loading contacts.",
        }
    }
}

/// The path components of the storage directory, from the values of the
/// `XDG_DATA_HOME` and `HOME` environment variables: the first where it is
/// set, else the standard data directory under the second.
pub open spec fn store_dir_of(xdg_data_home: Option<Seq<char>>, home: Option<Seq<char>>) -> Option<
    Seq<Seq<char>>,
> {
    match (xdg_data_home, home) {
        (Some(x), _) => Some(seq![x, "conn-rs"@]),
        (None, Some(h)) => Some(seq![h, ".local"@, "share"@, "conn-rs"@]),
        (None, None) => None,
    }
}

/// The name of the file that holds the contact book.
pub open spec fn store_file_name() -> Seq<char> {
    "contacts.json"@
}

/// The path components of the storage directory; see `store_dir_of`.
pub fn store_dir(xdg_data_home: Option<String>, home: Option<String>) -> (r: Result<
    Vec<String>,
    StoreError,
>)
    ensures
        match r {
            Ok(v) => store_dir_of(opt_view(xdg_data_home), opt_view(home))
                == Some(lines_view(v@)),
            Err(e) => store_dir_of(
                opt_view(xdg_data_home),
                opt_view(home),
            ) is None && e == StoreError::ConfigurationError,
        },
{
    let mut v: Vec<String> = Vec::new();
    match (xdg_data_home, home) {
        (Some(x), _) => {
            v.push(x);
        },
        (None, Some(h)) => {
            v.push(h);
            v.push(String::from_str(".local"));
            v.push(String::from_str("share"));
        },
        (None, None) => {
            return Err(StoreError::ConfigurationError);
        },
    }
    v.push(String::from_str("conn-rs"));
    assert(lines_view(v@) =~= store_dir_of(
        opt_view(xdg_data_home),
        opt_view(home),
    ).unwrap());
    Ok(v)
}

/// The path components of the file that holds the contact book: the
/// storage directory, then the file name.
pub fn store_file(xdg_data_home: Option<String>, home: Option<String>) -> (r: Result<
    Vec<String>,
    StoreError,
>)
    ensures
        match r {
            Ok(v) => store_dir_of(opt_view(xdg_data_home), opt_view(home))
                == Some(lines_view(v@).drop_last()) && v@.len() > 0 && v@.last()@
                == store_file_name(),
            Err(e) => store_dir_of(
                opt_view(xdg_data_home),
                opt_view(home),
            ) is None && e == StoreError::ConfigurationError,
        },
{
    let mut v = store_dir(xdg_data_home, home)?;
    let ghost dir = v@;
    v.push(String::from_str("contacts.json"));
    assert(lines_view(v@).drop_last() =~= lines_view(dir));
    Ok(v)
}

} // verus!
