use vibetree::portal::{scan_output, DetectedKind};

fn kinds_and_values(text: &str) -> Vec<(DetectedKind, String)> {
    scan_output(text).into_iter().map(|i| (i.kind, i.value)).collect()
}

#[test]
fn scan_detects_url_and_localhost_port() {
    let items = kinds_and_values("Server running at http://localhost:3000/ ok");
    assert_eq!(
        items,
        vec![
            (DetectedKind::Url, "http://localhost:3000/".to_string()),
            (DetectedKind::Url, "http://localhost:3000".to_string()),
        ]
    );
}

#[test]
fn scan_url_word_trimmed_of_punctuation() {
    let items = kinds_and_values("see (https://example.com/docs) now");
    assert_eq!(items, vec![(DetectedKind::Url, "https://example.com/docs".to_string())]);
}

#[test]
fn scan_url_must_be_longer_than_ten() {
    assert!(kinds_and_values("http://a.b").is_empty());
    assert_eq!(
        kinds_and_values("https://a.b"),
        vec![(DetectedKind::Url, "https://a.b".to_string())]
    );
}

#[test]
fn scan_localhost_needs_a_port() {
    assert!(kinds_and_values("localhost:").is_empty());
    assert_eq!(
        kinds_and_values("listening on localhost:8080,"),
        vec![(DetectedKind::Url, "http://localhost:8080".to_string())]
    );
}

#[test]
fn scan_app_launch_after_prompt() {
    assert_eq!(
        kinds_and_values("user@host:~$ cargo build --release"),
        vec![(
            DetectedKind::AppLaunch("Cargo".to_string()),
            "cargo build --release".to_string()
        )]
    );
    assert_eq!(
        kinds_and_values("$ /usr/bin/nvim notes.txt"),
        vec![(
            DetectedKind::AppLaunch("Neovim".to_string()),
            "/usr/bin/nvim notes.txt".to_string()
        )]
    );
    assert!(kinds_and_values("$ ls -la").is_empty());
}

#[test]
fn scan_app_launch_without_prompt() {
    assert_eq!(
        kinds_and_values("  brave-browser --incognito"),
        vec![(
            DetectedKind::AppLaunch("Brave".to_string()),
            "brave-browser --incognito".to_string()
        )]
    );
}

#[test]
fn scan_build_errors_and_warnings() {
    assert_eq!(
        kinds_and_values("error[E0308]: mismatched types"),
        vec![(DetectedKind::BuildOutput, "error[E0308]: mismatched types".to_string())]
    );
    assert_eq!(
        kinds_and_values("warning: unused variable"),
        vec![(DetectedKind::BuildOutput, "warning: unused variable".to_string())]
    );
    assert!(kinds_and_values("warning: 3 warnings generated").is_empty());
    assert_eq!(kinds_and_values("error: and warning: here").len(), 2);
}

#[test]
fn scan_build_message_cut_at_120_chars() {
    let long = format!("error: {}", "x".repeat(200));
    let items = kinds_and_values(&long);
    assert_eq!(items.len(), 1);
    assert_eq!(items[0].1.chars().count(), 120);
    assert!(long.starts_with(&items[0].1));
}

#[test]
fn scan_file_activity() {
    assert_eq!(
        kinds_and_values("   Compiling foo v0.1.0 (/home/u/foo)"),
        vec![(DetectedKind::FilePath, "Compiling foo v0.1.0 (/home/u/foo)".to_string())]
    );
    assert!(kinds_and_values("Compiling foo v0.1.0").is_empty());
}

#[test]
fn scan_skips_blank_lines_and_keeps_line_order() {
    let items = kinds_and_values("\n   \n$ git status\n\nerror: boom\n");
    assert_eq!(
        items,
        vec![
            (DetectedKind::AppLaunch("Git".to_string()), "git status".to_string()),
            (DetectedKind::BuildOutput, "error: boom".to_string()),
        ]
    );
}

#[test]
fn scan_stamps_all_items_alike() {
    let items = scan_output("https://one.example\nhttps://two.example\n$ make\n");
    assert_eq!(items.len(), 3);
    assert!(items.iter().all(|i| i.timestamp == items[0].timestamp));
}

#[test]
fn scan_of_joined_output_is_joined_scans() {
    let a = "$ npm start\nhttp://localhost:5173\n";
    let b = "error: failed\n";
    let joined = format!("{}{}", a, b);
    let mut parts = kinds_and_values(a);
    parts.extend(kinds_and_values(b));
    assert_eq!(kinds_and_values(&joined), parts);
}

#[test]
fn scan_non_alphanumeric_edges_use_unicode_rules() {
    // `é` is alphanumeric, so it is not trimmed off the end of the word.
    assert_eq!(
        kinds_and_values("«https://café.example/é»"),
        vec![(DetectedKind::Url, "https://café.example/é".to_string())]
    );
}

#[test]
fn detected_kind_labels() {
    assert_eq!(DetectedKind::Url.label(), "URL");
    assert_eq!(DetectedKind::FilePath.label(), "File");
    assert_eq!(DetectedKind::BuildOutput.label(), "Build");
    assert_eq!(DetectedKind::AppLaunch("Vim".to_string()).label(), "Vim");
}

#[test]
fn detected_kind_colors() {
    assert_eq!(DetectedKind::Url.color(), (114, 159, 207));
    assert_eq!(DetectedKind::FilePath.color(), (138, 226, 52));
    assert_eq!(DetectedKind::BuildOutput.color(), (252, 233, 79));
    assert_eq!(DetectedKind::AppLaunch("Go".to_string()).color(), (173, 127, 168));
}
