use aws_s3::dispatch::{aws_s3, list_report, parse_mode, Mode};
use aws_s3::error::{Error, PathKind};
use aws_s3::path::{destination, effective_local_path};
use aws_s3::protocol::{ListPage, State, Step};

fn failure(e: Error) -> (State, Step) {
    (State::Finished, Step::Finish { output: vec![], result: Err(e) })
}

fn page(entries: &[&str], code: u16) -> ListPage {
    ListPage { entries: entries.iter().map(|e| e.to_string()).collect(), code }
}

#[test]
fn mode_words() {
    assert_eq!(parse_mode(None), Ok(Mode::List));
    assert_eq!(parse_mode(Some("l")), Ok(Mode::List));
    assert_eq!(parse_mode(Some("list")), Ok(Mode::List));
    assert_eq!(parse_mode(Some("p")), Ok(Mode::Put));
    assert_eq!(parse_mode(Some("put")), Ok(Mode::Put));
    assert_eq!(parse_mode(Some("g")), Ok(Mode::Get));
    assert_eq!(parse_mode(Some("get")), Ok(Mode::Get));
    assert_eq!(parse_mode(Some("d")), Ok(Mode::Delete));
    assert_eq!(parse_mode(Some("del")), Ok(Mode::Delete));
    assert_eq!(parse_mode(Some("delete")), Ok(Mode::Delete));
}

#[test]
fn unknown_mode_words() {
    for word in ["", "ls", "List", "GET", "pu", "delet", "remove", " get", "get "] {
        assert_eq!(parse_mode(Some(word)), Err(Error::InvalidMode));
    }
}

#[test]
fn invalid_mode_ends_the_operation() {
    assert_eq!(aws_s3(Some("copy"), Some("a"), Some("b")), failure(Error::InvalidMode));
}

#[test]
fn list_asks_for_everything() {
    let expected = (State::AwaitListing, Step::ListObjects { prefix: String::new() });
    assert_eq!(aws_s3(Some("list"), None, None), expected);
    assert_eq!(aws_s3(Some("l"), Some("ignored"), Some("ignored")), expected);
    assert_eq!(aws_s3(None, None, None), expected);
}

#[test]
fn put_needs_both_paths_and_misses_the_local_one_first() {
    assert_eq!(aws_s3(Some("put"), None, None), failure(Error::MissingPath(PathKind::Local)));
    assert_eq!(
        aws_s3(Some("put"), Some("r"), None),
        failure(Error::MissingPath(PathKind::Local))
    );
    assert_eq!(
        aws_s3(Some("p"), None, Some("l")),
        failure(Error::MissingPath(PathKind::Remote))
    );
    assert_eq!(
        aws_s3(Some("put"), Some("dir/r.bin"), Some("l.bin")),
        (
            State::AwaitRead { remote: "dir/r.bin".to_string() },
            Step::ReadLocal { path: "l.bin".to_string() }
        )
    );
}

#[test]
fn get_needs_both_paths_and_misses_the_remote_one_first() {
    assert_eq!(aws_s3(Some("get"), None, None), failure(Error::MissingPath(PathKind::Remote)));
    assert_eq!(
        aws_s3(Some("g"), None, Some("l")),
        failure(Error::MissingPath(PathKind::Remote))
    );
    assert_eq!(
        aws_s3(Some("get"), Some("r"), None),
        failure(Error::MissingPath(PathKind::Local))
    );
    assert_eq!(
        aws_s3(Some("get"), Some("a/b/report.txt"), Some("out")),
        (
            State::AwaitProbe {
                remote: "a/b/report.txt".to_string(),
                local: "out".to_string(),
                name: Some("report.txt".to_string()),
            },
            Step::ProbeLocal { path: "out".to_string() }
        )
    );
}

#[test]
fn get_of_a_path_without_base_name_remembers_that() {
    assert_eq!(
        aws_s3(Some("get"), Some("a/.."), Some("out")),
        (
            State::AwaitProbe {
                remote: "a/..".to_string(),
                local: "out".to_string(),
                name: None,
            },
            Step::ProbeLocal { path: "out".to_string() }
        )
    );
}

#[test]
fn delete_needs_the_remote_path_only() {
    assert_eq!(
        aws_s3(Some("delete"), None, Some("l")),
        failure(Error::MissingPath(PathKind::Remote))
    );
    for word in ["d", "del", "delete"] {
        assert_eq!(
            aws_s3(Some(word), Some("old.txt"), None),
            (State::AwaitDelete, Step::DeleteObject { remote: "old.txt".to_string() })
        );
    }
}

#[test]
fn directory_target_gets_the_base_name() {
    assert_eq!(
        effective_local_path("downloads", true, "a/b/report.txt"),
        Some("downloads/report.txt".to_string())
    );
    assert_eq!(
        effective_local_path("./out/", true, "x/y.txt"),
        Some("./out/y.txt".to_string())
    );
    assert_eq!(
        effective_local_path("/tmp", true, "report.txt"),
        Some("/tmp/report.txt".to_string())
    );
}

#[test]
fn file_target_is_kept() {
    assert_eq!(
        effective_local_path("copy.txt", false, "a/b/report.txt"),
        Some("copy.txt".to_string())
    );
    assert_eq!(effective_local_path("copy.txt", false, ".."), Some("copy.txt".to_string()));
    assert_eq!(effective_local_path("", false, ""), Some(String::new()));
}

#[test]
fn directory_target_without_base_name_has_no_destination() {
    assert_eq!(effective_local_path("out", true, ".."), None);
    assert_eq!(effective_local_path("out", true, "a/b/.."), None);
    assert_eq!(effective_local_path("out", true, "/"), None);
    assert_eq!(effective_local_path("out", true, ""), None);
}

#[test]
fn destination_joins_only_for_directories() {
    let name = Some("report.txt".to_string());
    assert_eq!(destination("out", true, &name), "out/report.txt");
    assert_eq!(destination("out/", true, &name), "out/report.txt");
    assert_eq!(destination("out", false, &name), "out");
    assert_eq!(destination("out", false, &None), "out");
}

#[test]
fn listing_of_accepted_pages_reports_every_entry_in_order() {
    let pages = vec![page(&["a", "b"], 200), page(&[], 200), page(&["c"], 200)];
    assert_eq!(
        list_report(&pages),
        (vec!["a".to_string(), "b".to_string(), "c".to_string()], Ok(()))
    );
}

#[test]
fn empty_listing_is_a_success() {
    assert_eq!(list_report(&vec![]), (vec![], Ok(())));
    assert_eq!(list_report(&vec![page(&[], 200)]), (vec![], Ok(())));
}

#[test]
fn listing_stops_at_the_first_rejected_page() {
    let pages = vec![
        page(&["a", "b"], 200),
        page(&["c"], 206),
        page(&["d"], 200),
        page(&["e"], 500),
    ];
    assert_eq!(
        list_report(&pages),
        (vec!["a".to_string(), "b".to_string()], Err(Error::RemoteStatus(206)))
    );
}

#[test]
fn listing_rejected_on_the_first_page_reports_nothing() {
    let pages = vec![page(&["a"], 403), page(&["b"], 200)];
    assert_eq!(list_report(&pages), (vec![], Err(Error::RemoteStatus(403))));
}
