use neocities::bulk::{
    after_failure, delete_all_plan, directories_to_delete, failure_notice, files_to_delete,
    remote_path, upload_target, AfterFailure, SweepStep,
};
use neocities::listing::ListEntry;
use neocities::request::Neocities;

fn file(path: &str) -> ListEntry {
    ListEntry::File {
        path: path.to_string(),
        size: 1,
        updated_at: "d".to_string(),
        sha1_hash: "h".to_string(),
    }
}

fn directory(path: &str) -> ListEntry {
    ListEntry::Directory {
        path: path.to_string(),
        updated_at: "d".to_string(),
    }
}

#[test]
fn delete_all_spares_the_front_page() {
    let listing = vec![file("index.html"), file("other.txt"), directory("sub")];
    assert_eq!(
        delete_all_plan(&listing),
        vec!["other.txt".to_string(), "sub".to_string()]
    );
}

#[test]
fn only_a_failed_deletion_is_passed_over() {
    assert_eq!(after_failure(SweepStep::Delete), AfterFailure::GoOn);
    assert_eq!(after_failure(SweepStep::List), AfterFailure::Stop);
    assert_eq!(after_failure(SweepStep::Read), AfterFailure::Stop);
    assert_eq!(after_failure(SweepStep::Upload), AfterFailure::Stop);
}

#[test]
fn upload_all_stops_at_the_first_failure() {
    let walked = ["a.txt", "b.txt", "c.txt"];
    let mut uploaded = Vec::new();
    for relative in walked {
        let target = upload_target(relative, false).expect("a file");
        let failed = relative == "b.txt";
        if failed && after_failure(SweepStep::Upload) == AfterFailure::Stop {
            break;
        }
        uploaded.push(target);
    }
    assert_eq!(uploaded, vec!["a.txt".to_string()]);
}

#[test]
fn delete_all_goes_on_after_a_failure() {
    let listing = vec![file("index.html"), file("other.txt"), directory("sub")];
    let api = Neocities::new("k".to_string());
    let mut called = Vec::new();
    let mut notices = Vec::new();
    for path in files_to_delete(&listing) {
        let request = api.delete(std::slice::from_ref(&path));
        called.push(request.query[0].1.clone());
        let failed = path == "other.txt";
        if failed {
            notices.push(failure_notice(&path));
            if after_failure(SweepStep::Delete) == AfterFailure::Stop {
                break;
            }
        }
    }
    for path in directories_to_delete(&listing) {
        let request = api.delete(std::slice::from_ref(&path));
        called.push(request.query[0].1.clone());
    }
    assert_eq!(called, vec!["other.txt".to_string(), "sub".to_string()]);
    assert_eq!(notices, vec!["Failed to delete `other.txt`".to_string()]);
    assert_eq!(called, delete_all_plan(&listing));
}

#[test]
fn delete_all_takes_files_first_and_then_directories() {
    let listing = vec![
        directory("b"),
        file("b/x.txt"),
        directory("a"),
        file("index.html"),
        file("a/index.html"),
    ];
    assert_eq!(
        files_to_delete(&listing),
        vec!["b/x.txt".to_string(), "a/index.html".to_string()]
    );
    assert_eq!(
        directories_to_delete(&listing),
        vec!["b".to_string(), "a".to_string()]
    );
    assert_eq!(
        delete_all_plan(&listing),
        vec![
            "b/x.txt".to_string(),
            "a/index.html".to_string(),
            "b".to_string(),
            "a".to_string()
        ]
    );
}

#[test]
fn delete_all_deletes_a_directory_named_like_the_front_page() {
    let listing = vec![directory("index.html")];
    assert_eq!(delete_all_plan(&listing), vec!["index.html".to_string()]);
}

#[test]
fn delete_all_of_an_empty_site_does_nothing() {
    assert_eq!(delete_all_plan(&[]), Vec::<String>::new());
    assert_eq!(
        delete_all_plan(&[file("index.html")]),
        Vec::<String>::new()
    );
}

#[test]
fn failure_notice_names_the_path() {
    assert_eq!(failure_notice("a b.txt"), "Failed to delete `a b.txt`");
    assert_eq!(failure_notice(""), "Failed to delete ``");
}

#[test]
fn upload_all_uploads_files_and_skips_directories() {
    for separator in ["/", "\\"] {
        let walked = vec![
            (String::new(), true),
            ("a.txt".to_string(), false),
            ("sub".to_string(), true),
            (format!("sub{}b.txt", separator), false),
        ];
        let api = Neocities::new("k".to_string());
        let mut uploads = Vec::new();
        for (relative, is_directory) in &walked {
            if let Some(target) = upload_target(relative, *is_directory) {
                let request = api.upload(target.clone(), vec![0]);
                assert_eq!(request.url, "https://neocities.org/api/upload");
                uploads.push(target);
            }
        }
        assert_eq!(uploads, vec!["a.txt".to_string(), "sub/b.txt".to_string()]);
    }
}

#[test]
fn remote_path_turns_backslashes_into_slashes() {
    assert_eq!(remote_path("a\\b\\c.txt"), "a/b/c.txt");
    assert_eq!(remote_path("a/b\\c"), "a/b/c");
    assert_eq!(remote_path("plain.txt"), "plain.txt");
    assert_eq!(remote_path(""), "");
    assert_eq!(remote_path("\\"), "/");
    assert_eq!(remote_path("h\u{e9}\\\u{1F600}"), "h\u{e9}/\u{1F600}");
}

#[test]
fn upload_target_of_a_directory_is_none() {
    assert_eq!(upload_target("sub", true), None);
    assert_eq!(upload_target("", true), None);
    assert_eq!(upload_target("sub\\x", false), Some("sub/x".to_string()));
}
