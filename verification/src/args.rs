//! The parsed-arguments model: a read-only record of the values that the
//! external command-line parser collected for the upload command, as plain
//! presence flags and string values.

use vstd::prelude::*;

verus! {

/// The occurrences of one argument: whether the argument appeared at all,
/// and the values supplied with it (an argument can appear without a value,
/// as the password flag does when it asks for a prompt).
pub struct ArgValues {
    /// Whether the argument appeared on the command line.
    pub present: bool,
    /// The values supplied with the argument, in order of appearance.
    pub values: Vec<String>,
}

impl ArgValues {
    /// The first supplied value, if any, as a mathematical sequence.
    pub open spec fn spec_first(&self) -> Option<Seq<char>> {
        if self.values@.len() > 0 {
            Some(self.values@[0]@)
        } else {
            None
        }
    }

    /// An argument that did not appear.
    pub fn absent() -> (r: ArgValues)
        ensures
            !r.present,
            r.spec_first() is None,
    {
        ArgValues { present: false, values: Vec::new() }
    }

    /// An argument that appeared without a value.
    pub fn flag() -> (r: ArgValues)
        ensures
            r.present,
            r.spec_first() is None,
    {
        ArgValues { present: true, values: Vec::new() }
    }

    /// An argument that appeared with the one given value.
    pub fn with_value(v: String) -> (r: ArgValues)
        ensures
            r.present,
            r.spec_first() == Some(v@),
    {
        ArgValues { present: true, values: vec![v] }
    }

    /// The first supplied value, if any.
    pub fn value_of(&self) -> (r: Option<&String>)
        ensures
            match r {
                Some(v) => self.spec_first() == Some(v@),
                None => self.spec_first() is None,
            },
    {
        if self.values.len() > 0 {
            Some(&self.values[0])
        } else {
            None
        }
    }

    /// Whether the argument appeared on the command line.
    pub fn is_present(&self) -> (r: bool)
        ensures
            r == self.present,
    {
        self.present
    }
}

/// The parsed arguments of the upload command, one record per recognized
/// argument, together with the build-time clipboard capability flag.
pub struct UploadMatches {
    /// The required positional path of the file to upload.
    pub file: ArgValues,
    /// The optional rename of the uploaded file.
    pub name: ArgValues,
    /// The password flag, with or without an explicit value.
    pub password: ArgValues,
    /// The target host URL.
    pub host: ArgValues,
    /// Whether to open the share link in the browser.
    pub open: ArgValues,
    /// Whether to copy the share link to the clipboard.
    pub copy: ArgValues,
    /// Whether clipboard support was compiled in: when false, the copy
    /// argument is not registered and copying is unavailable.
    pub clipboard: bool,
}

/// The parsed arguments of the top-level command: the upload subcommand's
/// arguments, when the upload subcommand was invoked.
pub struct MainMatches {
    /// The upload subcommand's arguments, if that subcommand was chosen.
    pub upload: Option<UploadMatches>,
}

} // verus!
