use gitdown::{
    check_status, check_tree_response, dentries_from_tree, fetch_action, fetch_targets, keep_blobs,
    media_type, raw_url, selection_from_exit, split_repo, split_text, trim_end_text, tree_url, Error,
    ErrorKind, FetchAction, FetchEvent, FetchQueue, GitHubDirEntry, FETCH_LIMIT,
};
use gitdown::error::{decimal, status_display};

fn entry(path: &str, ty: &str) -> GitHubDirEntry {
    GitHubDirEntry::new(Some(path.to_string()), ty.to_string(), None)
}

fn paths(v: &[GitHubDirEntry]) -> Vec<String> {
    v.iter().map(|e| e.path.clone().unwrap()).collect()
}

#[test]
fn filter_keeps_only_blobs() {
    let listing = vec![
        entry("src", "tree"),
        entry("a.rs", "blob"),
        entry("sub", "commit"),
        entry("src/b.rs", "blob"),
        entry("docs", "tree"),
    ];
    let kept = keep_blobs(listing);
    assert_eq!(kept.len(), 2);
    assert_eq!(paths(&kept), vec!["a.rs".to_string(), "src/b.rs".to_string()]);
}

#[test]
fn filter_count_ignores_order() {
    let a = keep_blobs(vec![entry("x", "blob"), entry("d", "tree"), entry("y", "blob")]);
    let b = keep_blobs(vec![entry("d", "tree"), entry("y", "blob"), entry("x", "blob")]);
    assert_eq!(a.len(), 2);
    assert_eq!(b.len(), 2);
    assert_eq!(paths(&b), vec!["y".to_string(), "x".to_string()]);
}

#[test]
fn filter_empty_listing() {
    assert!(keep_blobs(Vec::new()).is_empty());
    assert!(keep_blobs(vec![entry("d", "tree")]).is_empty());
}

#[test]
fn non_ok_status_means_missing_tree() {
    for status in [None, Some(404u16), Some(500), Some(201), Some(301)] {
        let r = check_tree_response(status, "owner", "demo", "dev");
        match r {
            Err(e) => match e.kind() {
                ErrorKind::TreeDoesNotExist { tree, repo } => {
                    assert_eq!(tree, "dev");
                    assert_eq!(repo, "owner/demo");
                }
                other => panic!("unexpected kind {:?}", other),
            },
            Ok(()) => panic!("status {:?} accepted", status),
        }
    }
    assert!(check_tree_response(Some(200), "owner", "demo", "main").is_ok());
}

#[test]
fn status_failure_carries_status_and_body() {
    assert!(check_status(200, String::new()).is_ok());
    let e = check_status(404, "Not Found".to_string()).unwrap_err();
    assert!(matches!(e.kind(), ErrorKind::GitHubStatusFailure { status: 404, msg } if msg == "Not Found"));
    assert_eq!(e.message(), "GitHub API failure with response status 404 Not Found: Not Found");
    let e = check_status(799, "odd".to_string()).unwrap_err();
    assert_eq!(e.message(), "GitHub API failure with response status 799 <unknown status code>: odd");
    let e = check_status(42, "low".to_string()).unwrap_err();
    assert_eq!(e.message(), "GitHub API failure with response status 42: low");
}

#[test]
fn missing_tree_key_is_reported() {
    let e = dentries_from_tree(None).unwrap_err();
    assert!(matches!(e.kind(), ErrorKind::ResponseKeyError { key } if key == "tree"));
    assert_eq!(e.message(), "The response is missing the key: tree");
}

#[test]
fn tree_url_is_recursive_listing() {
    assert_eq!(
        tree_url("https://api.github.com/repos", "owner", "demo", "main"),
        "https://api.github.com/repos/owner/demo/git/trees/main?recursive=1"
    );
    assert_eq!(media_type(), "application/vnd.github.v3+json");
}

#[test]
fn selection_exit_zero_gives_lines() {
    let r = selection_from_exit(Some(0), "exit status: 0", "a\nb").unwrap();
    assert_eq!(r, vec!["a".to_string(), "b".to_string()]);
    let r = selection_from_exit(Some(0), "exit status: 0", "  a\nb\n\n").unwrap();
    assert_eq!(r, vec!["  a".to_string(), "b".to_string()]);
}

#[test]
fn selection_signal_is_interrupted() {
    let e = selection_from_exit(None, "signal: 9 (SIGKILL)", "").unwrap_err();
    assert!(matches!(e.kind(), ErrorKind::Interrupted));
    assert_eq!(e.message(), "Fzf was Interrupted");
}

#[test]
fn selection_other_code_is_other() {
    let e = selection_from_exit(Some(2), "exit status: 2", "").unwrap_err();
    match e.kind() {
        ErrorKind::Other { status } => {
            assert_eq!(status, "An error occured; likely, a file was not chosen: exit status: 2")
        }
        other => panic!("unexpected kind {:?}", other),
    }
}

#[test]
fn trim_and_split_edges() {
    assert_eq!(trim_end_text(" \t x y \n"), " \t x y");
    assert_eq!(trim_end_text("   "), "");
    assert_eq!(trim_end_text("x\u{3000}\u{a0}\r"), "x");
    assert_eq!(trim_end_text("x\u{200b}"), "x\u{200b}");
    assert_eq!(split_text(""), vec![String::new()]);
    assert_eq!(split_text("a\n\nb"), vec!["a".to_string(), String::new(), "b".to_string()]);
    assert_eq!(split_text("one"), vec!["one".to_string()]);
}

#[test]
fn repo_argument_split() {
    let (u, r) = split_repo(Some("owner/demo")).unwrap();
    assert_eq!(u, "owner");
    assert_eq!(r, "demo");
    assert!(matches!(split_repo(None).unwrap_err().kind(), ErrorKind::EmptyText));
    for bad in ["owner", "a/b/c", ""] {
        let e = split_repo(Some(bad)).unwrap_err();
        assert!(matches!(e.kind(), ErrorKind::MalformedRepo { repo } if repo == bad));
    }
    assert_eq!(
        split_repo(Some("a/b/c")).unwrap_err().message(),
        "The given repo a/b/c is malformed."
    );
}

#[test]
fn raw_urls_of_chosen_paths() {
    assert_eq!(
        raw_url("owner", "demo", "main", "src/lib.rs"),
        "https://raw.githubusercontent.com/owner/demo/main/src/lib.rs"
    );
    let t = fetch_targets("owner", "demo", "main", vec!["a".to_string(), "b/c".to_string()]);
    assert_eq!(t.len(), 2);
    assert_eq!(t[1].path.as_deref(), Some("b/c"));
    assert_eq!(t[1].ty, "blob");
    assert_eq!(t[1].raw_path.as_deref(), Some("https://raw.githubusercontent.com/owner/demo/main/b/c"));
}

#[test]
fn queue_never_exceeds_limit() {
    assert_eq!(FETCH_LIMIT, 4);
    let mut q = FetchQueue::new(10);
    let mut started = Vec::new();
    let mut max_depth = 0;
    let mut round = 0;
    while !q.is_done() {
        while let Some(i) = q.launch() {
            started.push(i);
            max_depth = max_depth.max(q.in_flight());
            assert!(q.in_flight() <= FETCH_LIMIT);
        }
        // complete one or two fetches per round
        q.finish();
        if round % 2 == 0 && q.in_flight() > 0 {
            q.finish();
        }
        round += 1;
    }
    assert_eq!(max_depth, 4);
    assert_eq!(started, (0..10).collect::<Vec<usize>>());
}

#[test]
fn failure_of_one_fetch_leaves_others() {
    let targets = fetch_targets(
        "owner",
        "demo",
        "main",
        vec!["one.txt".to_string(), "two.txt".to_string(), "three.txt".to_string()],
    );
    let events = vec![
        FetchEvent::Body("first".to_string()),
        FetchEvent::SendFailed,
        FetchEvent::Body("third".to_string()),
    ];
    let actions: Vec<FetchAction> =
        targets.iter().zip(events).map(|(t, ev)| fetch_action(t, ev)).collect();
    assert!(matches!(&actions[0], FetchAction::Write { path, contents } if path == "one.txt" && contents == "first"));
    match &actions[1] {
        FetchAction::Report(e) => {
            assert!(matches!(e.kind(), ErrorKind::DownloadFailure { path }
                if path == "https://raw.githubusercontent.com/owner/demo/main/two.txt"));
            assert_eq!(
                e.message(),
                "Downloading from https://raw.githubusercontent.com/owner/demo/main/two.txt caused an error"
            );
        }
        _ => panic!("failure not reported"),
    }
    assert!(matches!(&actions[2], FetchAction::Write { path, contents } if path == "three.txt" && contents == "third"));
}

#[test]
fn read_failure_is_reported() {
    let t = fetch_targets("o", "r", "main", vec!["f".to_string()]);
    match fetch_action(&t[0], FetchEvent::ReadFailed) {
        FetchAction::Report(e) => {
            assert!(matches!(e.kind(), ErrorKind::ReadFailure { path } if path == "https://raw.githubusercontent.com/o/r/main/f"))
        }
        _ => panic!("read failure not reported"),
    }
}

#[test]
fn end_to_end_demo() {
    let listing = vec![entry("a.txt", "blob"), entry("dir", "tree"), entry("b.txt", "blob")];
    let files = dentries_from_tree(Some(listing)).unwrap();
    assert_eq!(paths(&files), vec!["a.txt".to_string(), "b.txt".to_string()]);
    let chosen = selection_from_exit(Some(0), "exit status: 0", "b.txt\n").unwrap();
    assert_eq!(chosen, vec!["b.txt".to_string()]);
    let targets = fetch_targets("owner", "demo", "main", chosen);
    assert_eq!(targets.len(), 1);
    assert_eq!(targets[0].raw_path.as_deref(), Some("https://raw.githubusercontent.com/owner/demo/main/b.txt"));
    let action = fetch_action(&targets[0], FetchEvent::Body("contents of b".to_string()));
    assert!(matches!(action, FetchAction::Write { path, contents } if path == "b.txt" && contents == "contents of b"));
}

#[test]
fn messages_of_each_kind() {
    let k = |kind| Error::new(kind).message();
    assert_eq!(k(ErrorKind::EmptyText), "Text was not provided");
    assert_eq!(k(ErrorKind::ReadFailure { path: "p".to_string() }), "Reading from p caused an error");
    assert_eq!(
        k(ErrorKind::TreeDoesNotExist { tree: "dev".to_string(), repo: "o/r".to_string() }),
        "The tree dev does not exist for repo o/r. If you did not specify a tree, specify master (by default, the tree is main)."
    );
    assert_eq!(k(ErrorKind::Other { status: "x".to_string() }), "An error occured: x");
    assert_eq!(decimal(0), "0");
    assert_eq!(decimal(65535), "65535");
    assert_eq!(status_display(404), "404 Not Found");
    assert_eq!(status_display(1000), "1000");
    assert!(!Error::new(ErrorKind::Interrupted).has_source());
}

#[test]
fn io_error_converts_to_io_kind() {
    let e: Box<Error> = std::io::Error::new(std::io::ErrorKind::NotFound, "gone").into();
    assert!(matches!(e.kind(), ErrorKind::IoError(_)));
    assert_eq!(e.message(), "I/O failure");
    assert!(e.has_source());
}
