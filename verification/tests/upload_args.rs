use ffsend_upload::args::{ArgValues, MainMatches, UploadMatches};
use ffsend_upload::cmd_upload::{CmdUpload, PasswordAcquisition};
use ffsend_upload::error::Error;

fn empty_matches() -> UploadMatches {
    UploadMatches {
        file: ArgValues::absent(),
        name: ArgValues::absent(),
        password: ArgValues::absent(),
        host: ArgValues::absent(),
        open: ArgValues::absent(),
        copy: ArgValues::absent(),
        clipboard: false,
    }
}

#[test]
fn parse_wraps_upload_subcommand() {
    let parent = MainMatches {
        upload: Some(empty_matches()),
    };
    let cmd = CmdUpload::parse(&parent);
    assert!(cmd.is_some());
}

#[test]
fn parse_returns_none_without_upload_subcommand() {
    let parent = MainMatches { upload: None };
    assert!(CmdUpload::parse(&parent).is_none());
}

#[test]
fn file_returns_sole_value() {
    let mut m = empty_matches();
    m.file = ArgValues::with_value("photo.png".to_string());
    let cmd = CmdUpload { matches: &m };
    assert_eq!(cmd.file(), Ok("photo.png".to_string()));
}

#[test]
fn file_missing_is_contract_breach() {
    let m = empty_matches();
    let cmd = CmdUpload { matches: &m };
    let r = cmd.file();
    assert_eq!(r, Err(Error::MissingRequiredArgument));
    assert_eq!(
        r.unwrap_err().message(),
        "no file specified to upload".to_string()
    );
}

#[test]
fn name_absent_returns_none() {
    let m = empty_matches();
    let cmd = CmdUpload { matches: &m };
    assert_eq!(cmd.name(), Ok(None));
}

#[test]
fn name_returns_raw_value() {
    let mut m = empty_matches();
    m.name = ArgValues::with_value("report.pdf".to_string());
    let cmd = CmdUpload { matches: &m };
    assert_eq!(cmd.name(), Ok(Some("report.pdf".to_string())));
}

#[test]
fn name_keeps_surrounding_whitespace() {
    let mut m = empty_matches();
    m.name = ArgValues::with_value("  notes.txt ".to_string());
    let cmd = CmdUpload { matches: &m };
    assert_eq!(cmd.name(), Ok(Some("  notes.txt ".to_string())));
}

#[test]
fn name_empty_is_validation_error() {
    let mut m = empty_matches();
    m.name = ArgValues::with_value("".to_string());
    let cmd = CmdUpload { matches: &m };
    assert_eq!(cmd.name(), Err(Error::EmptyName));
}

#[test]
fn name_whitespace_only_is_validation_error() {
    for raw in ["   ", "\t\n \r", "\u{a0}\u{2002}\u{3000}"] {
        let mut m = empty_matches();
        m.name = ArgValues::with_value(raw.to_string());
        let cmd = CmdUpload { matches: &m };
        assert_eq!(cmd.name(), Err(Error::EmptyName));
        assert_eq!(
            cmd.name().unwrap_err().message(),
            "the new name must not be empty".to_string()
        );
    }
}

#[test]
fn open_reflects_flag_presence() {
    let mut m = empty_matches();
    let cmd = CmdUpload { matches: &m };
    assert!(!cmd.open());
    m.open = ArgValues::flag();
    let cmd = CmdUpload { matches: &m };
    assert!(cmd.open());
}

#[test]
fn copy_unavailable_without_clipboard_support() {
    let mut m = empty_matches();
    m.copy = ArgValues::flag();
    let cmd = CmdUpload { matches: &m };
    assert_eq!(cmd.copy(), None);
}

#[test]
fn copy_reflects_flag_presence_with_clipboard_support() {
    let mut m = empty_matches();
    m.clipboard = true;
    let cmd = CmdUpload { matches: &m };
    assert_eq!(cmd.copy(), Some(false));
    m.copy = ArgValues::flag();
    let cmd = CmdUpload { matches: &m };
    assert_eq!(cmd.copy(), Some(true));
}

#[test]
fn password_flag_absent_means_unset() {
    let m = empty_matches();
    let cmd = CmdUpload { matches: &m };
    let acq = cmd.password();
    assert_eq!(acq, PasswordAcquisition::Unset);
    assert_eq!(acq.resolve(None), Ok(None));
}

#[test]
fn password_explicit_value_returned_verbatim() {
    let mut m = empty_matches();
    m.password = ArgValues::with_value("x".to_string());
    let cmd = CmdUpload { matches: &m };
    let acq = cmd.password();
    assert_eq!(acq, PasswordAcquisition::Explicit("x".to_string()));
    assert_eq!(acq.resolve(None), Ok(Some("x".to_string())));
}

#[test]
fn password_explicit_empty_is_not_unset() {
    let mut m = empty_matches();
    m.password = ArgValues::with_value("".to_string());
    let cmd = CmdUpload { matches: &m };
    let acq = cmd.password();
    assert_eq!(acq, PasswordAcquisition::Explicit("".to_string()));
    assert_eq!(acq.resolve(None), Ok(Some("".to_string())));
}

#[test]
fn password_flag_without_value_asks_for_prompt() {
    let mut m = empty_matches();
    m.password = ArgValues::flag();
    let cmd = CmdUpload { matches: &m };
    let acq = cmd.password();
    assert_eq!(acq, PasswordAcquisition::PromptPending);
    assert_eq!(
        acq.resolve(Some("letmein".to_string())),
        Ok(Some("letmein".to_string()))
    );
}

#[test]
fn password_prompt_read_failure_is_reported() {
    let mut m = empty_matches();
    m.password = ArgValues::flag();
    let cmd = CmdUpload { matches: &m };
    let r = cmd.password().resolve(None);
    assert_eq!(r, Err(Error::SecretReadFailure));
    assert_eq!(
        r.unwrap_err().message(),
        "failed to read password from stdin".to_string()
    );
}

#[test]
fn upload_with_host_and_open_scenario() {
    let parent = MainMatches {
        upload: Some(UploadMatches {
            file: ArgValues::with_value("secret.txt".to_string()),
            name: ArgValues::absent(),
            password: ArgValues::absent(),
            host: ArgValues::with_value("https://send.example.com".to_string()),
            open: ArgValues::flag(),
            copy: ArgValues::absent(),
            clipboard: false,
        }),
    };
    let cmd = CmdUpload::parse(&parent).unwrap();
    assert_eq!(cmd.file(), Ok("secret.txt".to_string()));
    assert_eq!(cmd.name(), Ok(None));
    let host = cmd.host().unwrap();
    assert_eq!(host.host_str(), Some("send.example.com"));
    assert!(cmd.open());
    let acq = cmd.password();
    assert_eq!(acq, PasswordAcquisition::Unset);
    assert_eq!(acq.resolve(None), Ok(None));
}

#[test]
fn upload_with_interactive_password_scenario() {
    let parent = MainMatches {
        upload: Some(UploadMatches {
            file: ArgValues::with_value("report.pdf".to_string()),
            name: ArgValues::absent(),
            password: ArgValues::flag(),
            host: ArgValues::absent(),
            open: ArgValues::absent(),
            copy: ArgValues::absent(),
            clipboard: false,
        }),
    };
    let cmd = CmdUpload::parse(&parent).unwrap();
    assert_eq!(cmd.file(), Ok("report.pdf".to_string()));
    let acq = cmd.password();
    assert_eq!(acq, PasswordAcquisition::PromptPending);
    assert_eq!(
        acq.resolve(Some("hunter2".to_string())),
        Ok(Some("hunter2".to_string()))
    );
}

#[test]
fn upload_with_blank_rename_scenario() {
    let parent = MainMatches {
        upload: Some(UploadMatches {
            file: ArgValues::with_value("f".to_string()),
            name: ArgValues::with_value(" ".to_string()),
            password: ArgValues::absent(),
            host: ArgValues::absent(),
            open: ArgValues::absent(),
            copy: ArgValues::absent(),
            clipboard: false,
        }),
    };
    let cmd = CmdUpload::parse(&parent).unwrap();
    assert_eq!(cmd.name(), Err(Error::EmptyName));
}
