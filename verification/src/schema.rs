//! The declarative schema of the upload command: the recognized arguments
//! with their aliases, cardinality, defaults and help texts. The schema is
//! a pure value, consumed once at startup by the external top-level parser.

use vstd::prelude::*;

verus! {

/// The definition of one argument: its key, how it is written on the
/// command line, its cardinality, its default and its help text.
#[derive(Debug, PartialEq, Eq)]
pub struct ArgDef {
    /// The key under which the parsed values are recorded.
    pub key: String,
    /// The long form (`--name`), if any; a positional argument has none.
    pub long: Option<String>,
    /// The short form (`-n`), if any.
    pub short: Option<char>,
    /// Hidden aliases of the long form.
    pub aliases: Vec<String>,
    /// The value placeholder shown in the usage text, if any.
    pub value_name: Option<String>,
    /// Whether the argument must appear.
    pub required: bool,
    /// Whether the argument takes a value.
    pub takes_value: bool,
    /// Whether the value may be omitted although the argument takes one.
    pub value_optional: bool,
    /// The value used when the argument is omitted, if any.
    pub default: Option<String>,
    /// The help text.
    pub help: String,
}

/// The declarative description of one subcommand: its name, visible
/// aliases, description and arguments.
#[derive(Debug, PartialEq, Eq)]
pub struct CmdSchema {
    /// The subcommand's name.
    pub name: String,
    /// The subcommand's visible aliases.
    pub visible_aliases: Vec<String>,
    /// The one-line description.
    pub about: String,
    /// The argument definitions, positionals first.
    pub args: Vec<ArgDef>,
}

/// The required positional path of the file to upload.
pub open spec fn spec_file_arg(a: ArgDef) -> bool {
    &&& a.key@ == "FILE"@
    &&& a.long is None
    &&& a.short is None
    &&& a.aliases@.len() == 0
    &&& a.value_name is None
    &&& a.required
    &&& a.takes_value
    &&& !a.value_optional
    &&& a.default is None
    &&& a.help@ == "The file to upload"@
}

/// The optional rename of the uploaded file.
pub open spec fn spec_name_arg(a: ArgDef) -> bool {
    &&& a.key@ == "name"@
    &&& a.long matches Some(l) && l@ == "name"@
    &&& a.short == Some('n')
    &&& a.aliases@.len() == 2
    &&& a.aliases@[0]@ == "file"@
    &&& a.aliases@[1]@ == "f"@
    &&& a.value_name matches Some(v) && v@ == "NAME"@
    &&& !a.required
    &&& a.takes_value
    &&& !a.value_optional
    &&& a.default is None
    &&& a.help@ == "Rename the file being uploaded"@
}

/// The password flag, whose value may be omitted to ask for a prompt.
pub open spec fn spec_password_arg(a: ArgDef) -> bool {
    &&& a.key@ == "password"@
    &&& a.long matches Some(l) && l@ == "password"@
    &&& a.short == Some('p')
    &&& a.aliases@.len() == 1
    &&& a.aliases@[0]@ == "pass"@
    &&& a.value_name matches Some(v) && v@ == "PASSWORD"@
    &&& !a.required
    &&& a.takes_value
    &&& a.value_optional
    &&& a.default is None
    &&& a.help@ == "Protect the file with a password"@
}

/// The target host, with the well-known default.
pub open spec fn spec_host_arg(a: ArgDef) -> bool {
    &&& a.key@ == "host"@
    &&& a.long matches Some(l) && l@ == "host"@
    &&& a.short == Some('h')
    &&& a.aliases@.len() == 1
    &&& a.aliases@[0]@ == "server"@
    &&& a.value_name matches Some(v) && v@ == "URL"@
    &&& !a.required
    &&& a.takes_value
    &&& !a.value_optional
    &&& a.default matches Some(d) && d@ == crate::spec_send_def_host()
    &&& a.help@ == "The Send host to upload to"@
}

/// The flag that opens the share link in the browser.
pub open spec fn spec_open_arg(a: ArgDef) -> bool {
    &&& a.key@ == "open"@
    &&& a.long matches Some(l) && l@ == "open"@
    &&& a.short == Some('o')
    &&& a.aliases@.len() == 0
    &&& a.value_name is None
    &&& !a.required
    &&& !a.takes_value
    &&& !a.value_optional
    &&& a.default is None
    &&& a.help@ == "Open the share link in your browser"@
}

/// The flag that copies the share link to the clipboard; registered only
/// when clipboard support is compiled in.
pub open spec fn spec_copy_arg(a: ArgDef) -> bool {
    &&& a.key@ == "copy"@
    &&& a.long matches Some(l) && l@ == "copy"@
    &&& a.short == Some('c')
    &&& a.aliases@.len() == 0
    &&& a.value_name is None
    &&& !a.required
    &&& !a.takes_value
    &&& !a.value_optional
    &&& a.default is None
    &&& a.help@ == "Copy the share link to your clipboard"@
}

/// The whole upload command schema: name, aliases, description, and the
/// argument definitions in order, the copy flag present exactly when
/// clipboard support is compiled in.
pub open spec fn spec_upload_schema(s: CmdSchema, clipboard: bool) -> bool {
    &&& s.name@ == "upload"@
    &&& s.about@ == "Upload files."@
    &&& s.visible_aliases@.len() == 2
    &&& s.visible_aliases@[0]@ == "u"@
    &&& s.visible_aliases@[1]@ == "up"@
    &&& s.args@.len() == (if clipboard {
        6int
    } else {
        5int
    })
    &&& spec_file_arg(s.args@[0])
    &&& spec_name_arg(s.args@[1])
    &&& spec_password_arg(s.args@[2])
    &&& spec_host_arg(s.args@[3])
    &&& spec_open_arg(s.args@[4])
    &&& clipboard ==> spec_copy_arg(s.args@[5])
}

} // verus!
