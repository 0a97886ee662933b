//! The upload command: its schema definition and the typed, validated
//! accessors over its parsed arguments.

use vstd::prelude::*;

use crate::args::{ArgValues, MainMatches, UploadMatches};
use crate::error::Error;
use crate::host::{parse_outcome, resolve_host};
use crate::schema::{ArgDef, CmdSchema, spec_upload_schema};
use crate::text::{spec_trimmed_empty, trimmed_empty};

verus! {

/// How the upload password is acquired: no protection was asked for, an
/// explicit value was supplied, or a value must be read interactively.
#[derive(Debug, PartialEq, Eq)]
pub enum PasswordAcquisition {
    /// The password flag was absent: no password protection.
    Unset,
    /// The password flag carried an explicit value (an explicit empty
    /// string is a valid secret, distinct from no protection).
    Explicit(String),
    /// The password flag appeared without a value: the secret must be read
    /// from the interactive channel.
    PromptPending,
}

impl PasswordAcquisition {
    /// Completes the acquisition. `entered` is the line read from the
    /// interactive channel, or `None` when that channel could not provide
    /// one; it is consulted only when a prompt is pending.
    pub fn resolve(self, entered: Option<String>) -> (r: Result<Option<String>, Error>)
        ensures
            match self {
                PasswordAcquisition::Unset => r == Ok::<Option<String>, Error>(None::<String>),
                PasswordAcquisition::Explicit(p) => (r matches Ok(Some(q)) && q@ == p@),
                PasswordAcquisition::PromptPending => match entered {
                    Some(line) => (r matches Ok(Some(q)) && q@ == line@),
                    None => r == Err::<Option<String>, Error>(Error::SecretReadFailure),
                },
            },
    {
        match self {
            PasswordAcquisition::Unset => Ok(None),
            PasswordAcquisition::Explicit(p) => Ok(Some(p)),
            PasswordAcquisition::PromptPending => match entered {
                Some(line) => Ok(Some(line)),
                None => Err(Error::SecretReadFailure),
            },
        }
    }
}

/// The upload command: a borrowed view of its parsed arguments, exposing
/// typed, validated getters for each field.
pub struct CmdUpload<'a> {
    /// The parsed arguments of the upload subcommand.
    pub matches: &'a UploadMatches,
}

impl<'a> CmdUpload<'a> {
    /// Build the subcommand's declarative schema. The copy flag is
    /// registered exactly when clipboard support is compiled in.
    pub fn build(clipboard: bool) -> (cmd: CmdSchema)
        ensures
            spec_upload_schema(cmd, clipboard),
    {
        let mut args: Vec<ArgDef> = Vec::new();
        args.push(ArgDef {
            key: String::from_str("FILE"),
            long: None,
            short: None,
            aliases: Vec::new(),
            value_name: None,
            required: true,
            takes_value: true,
            value_optional: false,
            default: None,
            help: String::from_str("The file to upload"),
        });
        let mut name_aliases: Vec<String> = Vec::new();
        name_aliases.push(String::from_str("file"));
        name_aliases.push(String::from_str("f"));
        args.push(ArgDef {
            key: String::from_str("name"),
            long: Some(String::from_str("name")),
            short: Some('n'),
            aliases: name_aliases,
            value_name: Some(String::from_str("NAME")),
            required: false,
            takes_value: true,
            value_optional: false,
            default: None,
            help: String::from_str("Rename the file being uploaded"),
        });
        let mut password_aliases: Vec<String> = Vec::new();
        password_aliases.push(String::from_str("pass"));
        args.push(ArgDef {
            key: String::from_str("password"),
            long: Some(String::from_str("password")),
            short: Some('p'),
            aliases: password_aliases,
            value_name: Some(String::from_str("PASSWORD")),
            required: false,
            takes_value: true,
            value_optional: true,
            default: None,
            help: String::from_str("Protect the file with a password"),
        });
        let mut host_aliases: Vec<String> = Vec::new();
        host_aliases.push(String::from_str("server"));
        args.push(ArgDef {
            key: String::from_str("host"),
            long: Some(String::from_str("host")),
            short: Some('h'),
            aliases: host_aliases,
            value_name: Some(String::from_str("URL")),
            required: false,
            takes_value: true,
            value_optional: false,
            default: Some(crate::send_def_host()),
            help: String::from_str("The Send host to upload to"),
        });
        args.push(ArgDef {
            key: String::from_str("open"),
            long: Some(String::from_str("open")),
            short: Some('o'),
            aliases: Vec::new(),
            value_name: None,
            required: false,
            takes_value: false,
            value_optional: false,
            default: None,
            help: String::from_str("Open the share link in your browser"),
        });
        if clipboard {
            args.push(ArgDef {
                key: String::from_str("copy"),
                long: Some(String::from_str("copy")),
                short: Some('c'),
                aliases: Vec::new(),
                value_name: None,
                required: false,
                takes_value: false,
                value_optional: false,
                default: None,
                help: String::from_str("Copy the share link to your clipboard"),
            });
        }
        let mut visible_aliases: Vec<String> = Vec::new();
        visible_aliases.push(String::from_str("u"));
        visible_aliases.push(String::from_str("up"));
        CmdSchema {
            name: String::from_str("upload"),
            visible_aliases,
            about: String::from_str("Upload files."),
            args,
        }
    }

    /// Wrap the upload subcommand's arguments, from the given parent
    /// command's arguments; none when the upload subcommand was not chosen.
    pub fn parse(parent: &'a MainMatches) -> (r: Option<CmdUpload<'a>>)
        ensures
            match parent.upload {
                Some(m) => (r matches Some(c) && *c.matches == m),
                None => r is None,
            },
    {
        match &parent.upload {
            Some(m) => Some(CmdUpload { matches: m }),
            None => None,
        }
    }

    /// The name to use for the uploaded file; none when no rename was
    /// asked for. A rename that is empty after trimming is a validation
    /// error.
    pub fn name(&self) -> (r: Result<Option<String>, Error>)
        ensures
            match self.matches.name.spec_first() {
                None => r == Ok::<Option<String>, Error>(None::<String>),
                Some(v) => if spec_trimmed_empty(v) {
                    r == Err::<Option<String>, Error>(Error::EmptyName)
                } else {
                    (r matches Ok(Some(s)) && s@ == v)
                },
            },
    {
        match self.matches.name.value_of() {
            None => Ok(None),
            Some(n) => {
                if trimmed_empty(n.as_str()) {
                    Err(Error::EmptyName)
                } else {
                    Ok(Some(n.clone()))
                }
            },
        }
    }

    /// The path of the file to upload. The schema's required cardinality
    /// guarantees a value; its absence is a parser contract breach.
    pub fn file(&self) -> (r: Result<String, Error>)
        ensures
            match self.matches.file.spec_first() {
                Some(v) => (r matches Ok(s) && s@ == v),
                None => r == Err::<String, Error>(Error::MissingRequiredArgument),
            },
    {
        match self.matches.file.value_of() {
            Some(f) => Ok(f.clone()),
            None => Err(Error::MissingRequiredArgument),
        }
    }

    /// The raw host string that resolution reads: the supplied value, or
    /// the well-known default when the host argument was omitted.
    pub open spec fn spec_raw_host(&self) -> Seq<char> {
        match self.matches.host.spec_first() {
            Some(v) => v,
            None => crate::spec_send_def_host(),
        }
    }

    /// The host to upload to, as a structured address. A host string that
    /// is no valid address is reported with the kind whose diagnostic
    /// names the failure.
    pub fn host(&self) -> (r: Result<url::Url, Error>)
        ensures
            match parse_outcome(self.spec_raw_host()) {
                Ok(u) => r == Ok::<url::Url, Error>(u),
                Err(k) => r == Err::<url::Url, Error>(Error::InvalidHost(k)),
            },
    {
        let raw: String = match self.matches.host.value_of() {
            Some(v) => v.clone(),
            None => crate::send_def_host(),
        };
        resolve_host(raw.as_str())
    }

    /// Whether to open the share link in the user's browser.
    pub fn open(&self) -> (r: bool)
        ensures
            r == self.matches.open.present,
    {
        self.matches.open.is_present()
    }

    /// Whether to copy the share link to the user's clipboard; none when
    /// clipboard support was not compiled in.
    pub fn copy(&self) -> (r: Option<bool>)
        ensures
            self.matches.clipboard ==> r == Some(self.matches.copy.present),
            !self.matches.clipboard ==> r is None,
    {
        if self.matches.clipboard {
            Some(self.matches.copy.is_present())
        } else {
            None
        }
    }

    /// How the upload password is to be acquired: unset when the flag was
    /// absent, the explicit value when one was supplied, and a pending
    /// prompt when the flag appeared without a value.
    pub fn password(&self) -> (r: PasswordAcquisition)
        ensures
            !self.matches.password.present ==> r == PasswordAcquisition::Unset,
            self.matches.password.present ==> match self.matches.password.spec_first() {
                Some(v) => (r matches PasswordAcquisition::Explicit(p) && p@ == v),
                None => r == PasswordAcquisition::PromptPending,
            },
    {
        if !self.matches.password.is_present() {
            return PasswordAcquisition::Unset;
        }
        match self.matches.password.value_of() {
            Some(p) => PasswordAcquisition::Explicit(p.clone()),
            None => PasswordAcquisition::PromptPending,
        }
    }
}

/// When the host argument is omitted, host resolution reads exactly the
/// well-known default host string.
pub proof fn lemma_default_host(c: CmdUpload)
    requires
        c.matches.host.spec_first() is None,
    ensures
        c.spec_raw_host() == crate::spec_send_def_host(),
{
}

} // verus!
