use aws_s3::error::{Error, PathKind};
use aws_s3::status::{check_code, SUCCESS};
use aws_s3::text::{render_decimal, same_text};

#[test]
fn code_200_is_accepted() {
    assert_eq!(SUCCESS, 200);
    assert_eq!(check_code(200), Ok(()));
}

#[test]
fn other_success_codes_are_rejected() {
    assert_eq!(check_code(201), Err(Error::RemoteStatus(201)));
    assert_eq!(check_code(204), Err(Error::RemoteStatus(204)));
    assert_eq!(check_code(299), Err(Error::RemoteStatus(299)));
}

#[test]
fn every_code_but_200_is_rejected_with_itself() {
    let mut code: u16 = 0;
    loop {
        let outcome = check_code(code);
        if code == 200 {
            assert_eq!(outcome, Ok(()));
        } else {
            assert_eq!(outcome, Err(Error::RemoteStatus(code)));
        }
        if code == u16::MAX {
            break;
        }
        code += 1;
    }
}

#[test]
fn status_error_message_names_the_code() {
    assert_eq!(
        Error::RemoteStatus(404).message(),
        "Remote file error. result code is 404."
    );
    assert_eq!(
        Error::RemoteStatus(0).message(),
        "Remote file error. result code is 0."
    );
    assert_eq!(
        Error::RemoteStatus(65535).message(),
        "Remote file error. result code is 65535."
    );
    let text = match check_code(503) {
        Err(e) => e.message(),
        Ok(()) => panic!("503 was accepted"),
    };
    assert!(text.contains("503"));
}

#[test]
fn decimal_rendering_matches_the_standard_one() {
    assert_eq!(render_decimal(0), "0");
    assert_eq!(render_decimal(7), "7");
    assert_eq!(render_decimal(10), "10");
    assert_eq!(render_decimal(200), "200");
    assert_eq!(render_decimal(1009), "1009");
    assert_eq!(render_decimal(65535), "65535");
    let mut n: u16 = 0;
    loop {
        assert_eq!(render_decimal(n), format!("{}", n));
        if n == u16::MAX {
            break;
        }
        n += 1;
    }
}

#[test]
fn same_text_compares_content() {
    assert!(same_text("", ""));
    assert!(same_text("list", "list"));
    assert!(!same_text("list", "l"));
    assert!(!same_text("get", "put"));
    assert!(!same_text("Get", "get"));
}

#[test]
fn fixed_messages() {
    assert_eq!(
        Error::MissingPath(PathKind::Local).message(),
        "No local path specified"
    );
    assert_eq!(
        Error::MissingPath(PathKind::Remote).message(),
        "No remote path specified"
    );
    assert_eq!(Error::InvalidMode.message(), "Invalid mode");
    assert_eq!(Error::Usage.message(), "Exactly one mode must be selected");
}

#[test]
fn outside_messages_are_kept_verbatim() {
    let text = String::from("connection refused (os error 111)");
    assert_eq!(Error::Transport(text.clone()).message(), text);
    assert_eq!(Error::LocalFile(text.clone()).message(), text);
    assert_eq!(Error::ConfigParse(text.clone()).message(), text);
    assert_eq!(Error::InvalidBucket(text.clone()).message(), text);
    assert_eq!(Error::InvalidRegion(text.clone()).message(), text);
}
