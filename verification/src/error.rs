//! The failure taxonomy: every failure is surfaced to the caller as a typed
//! value; none is retried and none is silently swallowed.

use vstd::prelude::*;

use crate::entry::{name_text, spec_name_text, spec_type_text, type_text};
use crate::one::OneEntry;

verus! {

#[derive(Debug)]
pub enum FileMatcherError {
    /// More than one candidate matched an "exactly one" query; carries the
    /// query for diagnostics.
    TooMany(OneEntry),
    /// No candidate matched an "exactly one" query; carries the query for
    /// diagnostics.
    NotExists(OneEntry),
    /// A resolved path exists but is not a readable file or folder per its
    /// declared type, or has no final name component.
    NotReadable(String),
    /// A file name cannot be represented as text.
    InvalidUnicode(String),
    /// An underlying filesystem operation failed.
    IoError(String),
    /// A recursive directory copy failed.
    FsExtraError(String),
    /// A regex pattern failed to compile.
    RegexError(regex::Error),
}

/// What each failure says in words.
pub open spec fn spec_message(e: &FileMatcherError) -> Seq<char> {
    match e {
        FileMatcherError::TooMany(one) => "Found more than one "@ + spec_type_text(one@.entry_type)
            + " named "@ + spec_name_text(one@.name) + " in "@ + one@.directory,
        FileMatcherError::NotExists(one) => "Could not find "@ + spec_type_text(one@.entry_type)
            + " named "@ + spec_name_text(one@.name) + " in "@ + one@.directory,
        FileMatcherError::NotReadable(path) => "Failed to read "@ + path@,
        FileMatcherError::InvalidUnicode(name) => "Failed to convert "@ + name@ + " to Unicode"@,
        FileMatcherError::IoError(detail) => "Failed to perform IO operation: "@ + detail@,
        FileMatcherError::FsExtraError(detail) => "Failed to copy the folder: "@ + detail@,
        FileMatcherError::RegexError(_) => "Failed to create regex"@,
    }
}

impl FileMatcherError {
    /// A human-readable account of the failure.
    pub fn message(&self) -> (r: String)
        ensures
            r@ == spec_message(self),
    {
        match self {
            FileMatcherError::TooMany(one) => {
                let mut r = "Found more than one ".to_owned();
                let t = type_text(one.entry_type());
                r.append(t.as_str());
                r.append(" named ");
                let n = name_text(one.entry_name());
                r.append(n.as_str());
                r.append(" in ");
                r.append(one.directory());
                proof {
                    assert(r@ =~= spec_message(self));
                }
                r
            },
            FileMatcherError::NotExists(one) => {
                let mut r = "Could not find ".to_owned();
                let t = type_text(one.entry_type());
                r.append(t.as_str());
                r.append(" named ");
                let n = name_text(one.entry_name());
                r.append(n.as_str());
                r.append(" in ");
                r.append(one.directory());
                proof {
                    assert(r@ =~= spec_message(self));
                }
                r
            },
            FileMatcherError::NotReadable(path) => {
                let mut r = "Failed to read ".to_owned();
                r.append(path.as_str());
                r
            },
            FileMatcherError::InvalidUnicode(name) => {
                let mut r = "Failed to convert ".to_owned();
                r.append(name.as_str());
                r.append(" to Unicode");
                proof {
                    assert(r@ =~= spec_message(self));
                }
                r
            },
            FileMatcherError::IoError(detail) => {
                let mut r = "Failed to perform IO operation: ".to_owned();
                r.append(detail.as_str());
                r
            },
            FileMatcherError::FsExtraError(detail) => {
                let mut r = "Failed to copy the folder: ".to_owned();
                r.append(detail.as_str());
                r
            },
            FileMatcherError::RegexError(_) => "Failed to create regex".to_owned(),
        }
    }
}

} // verus!
