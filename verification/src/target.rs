//! The hosts to monitor, and the checks that a list of them must pass before
//! any monitor is launched.

use vstd::prelude::*;
use vstd::string::*;

verus! {

/// A host to monitor: the name under which its journal is kept, and its
/// network address.
#[derive(Debug, PartialEq, Eq)]
pub struct Target {
    pub name: String,
    pub address: String,
}

/// The name of a target as the settings gave it.
#[derive(Debug, PartialEq, Eq)]
pub enum NameField {
    /// The entry has no such field.
    Missing,
    /// The field holds something that is not text.
    NotText,
    Text(String),
}

/// The address of a target as the settings gave it.
#[derive(Debug, PartialEq, Eq)]
pub enum AddressField {
    /// The entry has no such field.
    Missing,
    /// The field holds something that is not text.
    NotText,
    /// The field holds `text`; `parses` tells whether that text is a network
    /// address.
    Text { text: String, parses: bool },
}

/// One element of the settings' list of targets, as it was read.
#[derive(Debug, PartialEq, Eq)]
pub enum Listing {
    /// The element is not a table of fields.
    NotTable,
    Table { name: NameField, address: AddressField },
}

/// Why the process cannot start. `index` is the position of the offending
/// element in the list of targets.
#[derive(Clone, Copy, Debug, PartialEq, Eq, Structural)]
pub enum StartupError {
    /// The settings hold no list of targets.
    TargetsNotFound,
    NotTable { index: usize },
    NameMissing { index: usize },
    NameNotText { index: usize },
    NameEmpty { index: usize },
    AddressMissing { index: usize },
    AddressNotText { index: usize },
    AddressUnparsable { index: usize },
}

/// What is wrong with the element at position `at`, if anything. The name is
/// looked at before the address, and each field is checked for presence, then
/// for being text, then for its content.
pub open spec fn listing_fault(listing: Listing, at: int) -> Option<StartupError> {
    let index = at as usize;
    match listing {
        Listing::NotTable => Some(StartupError::NotTable { index }),
        Listing::Table { name, address } => match name {
            NameField::Missing => Some(StartupError::NameMissing { index }),
            NameField::NotText => Some(StartupError::NameNotText { index }),
            NameField::Text(name) => if name@.len() == 0 {
                Some(StartupError::NameEmpty { index })
            } else {
                match address {
                    AddressField::Missing => Some(StartupError::AddressMissing { index }),
                    AddressField::NotText => Some(StartupError::AddressNotText { index }),
                    AddressField::Text { text, parses } => if parses {
                        None
                    } else {
                        Some(StartupError::AddressUnparsable { index })
                    },
                }
            },
        },
    }
}

/// `target` holds the name and the address that `listing` gives.
pub open spec fn describes(listing: Listing, target: Target) -> bool {
    &&& listing matches Listing::Table {
        name: NameField::Text(name),
        address: AddressField::Text { text, .. },
    }
    &&& target.name@ == name@
    &&& target.address@ == text@
}

/// `error` is the fault of the element at `index`, and no element before it
/// has one.
pub open spec fn is_first_fault(listings: Seq<Listing>, index: int, error: StartupError) -> bool {
    &&& 0 <= index < listings.len()
    &&& listing_fault(listings[index], index) == Some(error)
    &&& forall|j: int| 0 <= j < index ==> (#[trigger] listing_fault(listings[j], j)).is_none()
}

/// What `collect_targets` owes for the list `listings`.
pub open spec fn collected(
    listings: Option<Seq<Listing>>,
    result: Result<Vec<Target>, StartupError>,
) -> bool {
    match listings {
        None => result == Err::<Vec<Target>, StartupError>(StartupError::TargetsNotFound),
        Some(listings) => match result {
            Ok(targets) => {
                &&& targets.len() == listings.len()
                &&& forall|i: int|
                    0 <= i < listings.len() ==> {
                        &&& (#[trigger] listing_fault(listings[i], i)).is_none()
                        &&& describes(listings[i], targets[i])
                    }
            },
            Err(error) => exists|index: int| is_first_fault(listings, index, error),
        },
    }
}

/// The text of a startup error, for the operator.
pub open spec fn error_text(error: StartupError) -> Seq<char> {
    match error {
        StartupError::TargetsNotFound => "targets not found in settings file"@,
        StartupError::NotTable { .. } => "target is not a table"@,
        StartupError::NameMissing { .. } => "logname not found in target"@,
        StartupError::NameNotText { .. } => "logname is not a valid string"@,
        StartupError::NameEmpty { .. } => "logname is empty"@,
        StartupError::AddressMissing { .. } => "ip not found in target"@,
        StartupError::AddressNotText { .. } => "ip is not a valid string"@,
        StartupError::AddressUnparsable { .. } => "Unparsable ip address"@,
    }
}

impl StartupError {
    /// The position of the offending element, where one element is at fault.
    pub fn index(&self) -> (index: Option<usize>)
        ensures
            index == match *self {
                StartupError::TargetsNotFound => None,
                StartupError::NotTable { index } => Some(index),
                StartupError::NameMissing { index } => Some(index),
                StartupError::NameNotText { index } => Some(index),
                StartupError::NameEmpty { index } => Some(index),
                StartupError::AddressMissing { index } => Some(index),
                StartupError::AddressNotText { index } => Some(index),
                StartupError::AddressUnparsable { index } => Some(index),
            },
    {
        match *self {
            StartupError::TargetsNotFound => None,
            StartupError::NotTable { index } => Some(index),
            StartupError::NameMissing { index } => Some(index),
            StartupError::NameNotText { index } => Some(index),
            StartupError::NameEmpty { index } => Some(index),
            StartupError::AddressMissing { index } => Some(index),
            StartupError::AddressNotText { index } => Some(index),
            StartupError::AddressUnparsable { index } => Some(index),
        }
    }

    /// What to tell the operator.
    pub fn message(&self) -> (text: String)
        ensures
            text@ == error_text(*self),
    {
        match *self {
            StartupError::TargetsNotFound => String::from_str("targets not found in settings file"),
            StartupError::NotTable { .. } => String::from_str("target is not a table"),
            StartupError::NameMissing { .. } => String::from_str("logname not found in target"),
            StartupError::NameNotText { .. } => String::from_str("logname is not a valid string"),
            StartupError::NameEmpty { .. } => String::from_str("logname is empty"),
            StartupError::AddressMissing { .. } => String::from_str("ip not found in target"),
            StartupError::AddressNotText { .. } => String::from_str("ip is not a valid string"),
            StartupError::AddressUnparsable { .. } => String::from_str("Unparsable ip address"),
        }
    }
}

/// Checks one element of the list and makes its target.
pub fn check_listing(listing: &Listing, index: usize) -> (result: Result<Target, StartupError>)
    ensures
        match result {
            Ok(target) => {
                &&& listing_fault(*listing, index as int).is_none()
                &&& describes(*listing, target)
            },
            Err(error) => listing_fault(*listing, index as int) == Some(error),
        },
{
    match listing {
        Listing::NotTable => Err(StartupError::NotTable { index }),
        Listing::Table { name, address } => match name {
            NameField::Missing => Err(StartupError::NameMissing { index }),
            NameField::NotText => Err(StartupError::NameNotText { index }),
            NameField::Text(name) => {
                if name.as_str().is_empty() {
                    Err(StartupError::NameEmpty { index })
                } else {
                    match address {
                        AddressField::Missing => Err(StartupError::AddressMissing { index }),
                        AddressField::NotText => Err(StartupError::AddressNotText { index }),
                        AddressField::Text { text, parses } => {
                            if *parses {
                                Ok(Target { name: name.clone(), address: text.clone() })
                            } else {
                                Err(StartupError::AddressUnparsable { index })
                            }
                        },
                    }
                }
            },
        },
    }
}

/// Turns the list of targets that the settings gave into the targets to
/// monitor, in the same order.
///
/// `listings` is `None` where the settings hold no such list. The list is
/// accepted only as a whole: the first element at fault decides the error,
/// and no target is handed out beside an error.
pub fn collect_targets(listings: Option<&Vec<Listing>>) -> (result: Result<
    Vec<Target>,
    StartupError,
>)
    ensures
        collected(
            match listings {
                Some(list) => Some(list@),
                None => None,
            },
            result,
        ),
{
    let list = match listings {
        Some(list) => list,
        None => {
            return Err(StartupError::TargetsNotFound);
        },
    };
    let mut targets: Vec<Target> = Vec::new();
    let mut i: usize = 0;
    while i < list.len()
        invariant
            listings == Some(list),
            i <= list.len(),
            targets.len() == i,
            forall|j: int|
                0 <= j < i ==> {
                    &&& (#[trigger] listing_fault(list@[j], j)).is_none()
                    &&& describes(list@[j], targets@[j])
                },
        decreases list.len() - i,
    {
        match check_listing(&list[i], i) {
            Ok(target) => {
                targets.push(target);
            },
            Err(error) => {
                assert(is_first_fault(list@, i as int, error));
                return Err(error);
            },
        }
        i += 1;
    }
    Ok(targets)
}

} // verus!
