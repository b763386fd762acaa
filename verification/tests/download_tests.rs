use receivetn::download::{
    candidate_name, choose_filename, disposition_filename, last_path_segment, resolve_collision,
    split_filename, NameError, MAX_NAME_ATTEMPTS,
};

#[test]
fn split_at_the_last_dot() {
    let f = split_filename("report.pdf");
    assert_eq!(f.stem, "report");
    assert_eq!(f.ext.as_deref(), Some(".pdf"));

    let f = split_filename("archive.tar.gz");
    assert_eq!(f.stem, "archive.tar");
    assert_eq!(f.ext.as_deref(), Some(".gz"));

    let f = split_filename("README");
    assert_eq!(f.stem, "README");
    assert!(f.ext.is_none());
}

#[test]
fn candidates_count_up_inside_the_name() {
    let f = split_filename("report.pdf");
    assert_eq!(candidate_name(&f, 0), "report.pdf");
    assert_eq!(candidate_name(&f, 1), "report (1).pdf");
    assert_eq!(candidate_name(&f, 2), "report (2).pdf");
    assert_eq!(candidate_name(&f, 10), "report (10).pdf");

    let bare = split_filename("README");
    assert_eq!(candidate_name(&bare, 3), "README (3)");
}

#[test]
fn collisions_get_a_numeric_suffix() {
    let f = split_filename("report.pdf");
    let existing = vec!["report.pdf".to_string()];
    assert_eq!(resolve_collision(&existing, &f).unwrap(), "report (1).pdf");

    let existing = vec!["report.pdf".to_string(), "report (1).pdf".to_string()];
    assert_eq!(resolve_collision(&existing, &f).unwrap(), "report (2).pdf");

    let empty: Vec<String> = vec![];
    assert_eq!(resolve_collision(&empty, &f).unwrap(), "report.pdf");
}

#[test]
fn a_full_destination_is_reported() {
    let f = split_filename("a");
    let mut existing = vec!["a".to_string()];
    let mut n: u32 = 1;
    while n <= MAX_NAME_ATTEMPTS {
        existing.push(format!("a ({})", n));
        n += 1;
    }
    assert_eq!(resolve_collision(&existing, &f).unwrap_err(), NameError::DestinationUnavailable);
}

#[test]
fn disposition_header_yields_the_quoted_name() {
    let h = "attachment; filename=\"weekly report.pdf\"";
    assert_eq!(disposition_filename(h).unwrap(), "weekly report.pdf");
    assert_eq!(disposition_filename("attachment; filename=\"\"").unwrap(), "");
}

#[test]
fn disposition_without_a_quoted_name_yields_none() {
    assert!(disposition_filename("attachment").is_none());
    assert!(disposition_filename("attachment; filename=\"broken").is_none());
    assert!(disposition_filename("").is_none());
}

#[test]
fn the_last_nonempty_path_segment_names_the_file() {
    assert_eq!(last_path_segment("/files/a.torrent").unwrap(), "a.torrent");
    assert_eq!(last_path_segment("/files/").unwrap(), "files");
    assert_eq!(last_path_segment("plain").unwrap(), "plain");
    assert!(last_path_segment("/").is_none());
    assert!(last_path_segment("///").is_none());
    assert!(last_path_segment("").is_none());
}

#[test]
fn the_header_wins_then_the_path_then_the_fallback() {
    assert_eq!(
        choose_filename(Some("attachment; filename=\"x.bin\""), "/p/y.bin"),
        "x.bin"
    );
    assert_eq!(choose_filename(Some("attachment"), "/p/y.bin"), "y.bin");
    assert_eq!(choose_filename(None, "/p/y.bin"), "y.bin");
    assert_eq!(choose_filename(None, "/"), "unknown");
}
