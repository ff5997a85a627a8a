use check_my_setup::config::{LinkKind, LinkSpec, SetupError};
use check_my_setup::json::parse_config;
use check_my_setup::session::{link_action, LinkAction, Session};

#[test]
fn well_formed_run_hands_out_one_job_per_entry() {
    let text = r#"[
        {"name":"a","type":"File","source_location":"/tmp/src.txt","target_location":"/tmp/dst.txt"},
        {"name":"b","type":"Directory","source_location":"/tmp/srcdir","target_location":"/tmp/dstdir"}
    ]"#;
    let entries = parse_config(text).unwrap();
    let mut session = Session::new(entries);
    let mut lines = Vec::new();
    loop {
        match session.next_job() {
            None => break,
            Some(Ok(job)) => {
                lines.push(job.line.clone());
                session.report_link(true).unwrap();
            },
            Some(Err(e)) => panic!("unexpected failure: {:?}", e),
        }
    }
    assert_eq!(
        lines,
        vec![
            String::from("Linking: \"/tmp/src.txt\" to \"/tmp/dst.txt\""),
            String::from("Linking: \"/tmp/srcdir\" to \"/tmp/dstdir\""),
        ]
    );
}

#[test]
fn scenario_single_file_entry() {
    let text = r#"[{"name":"a","type":"File","source_location":"/tmp/src.txt","target_location":"/tmp/dst.txt"}]"#;
    let entries = parse_config(text).unwrap();
    let mut session = Session::new(entries);
    let job = session.next_job().unwrap().unwrap();
    assert_eq!(job.kind, LinkKind::File);
    assert_eq!(job.pair.source, "/tmp/src.txt");
    assert_eq!(job.pair.target, "/tmp/dst.txt");
    assert_eq!(job.line, "Linking: \"/tmp/src.txt\" to \"/tmp/dst.txt\"");
    assert_eq!(link_action(job.kind, false), LinkAction::CreateFileLink);
    session.report_link(true).unwrap();
    assert!(session.next_job().is_none());
}

#[test]
fn incomplete_entry_aborts_before_later_entries() {
    let mk = |name: &str, src: Option<&str>, tgt: Option<&str>| LinkSpec {
        name: String::from(name),
        kind: LinkKind::File,
        source_location: src.map(String::from),
        target_location: tgt.map(String::from),
    };
    let entries = vec![
        mk("ok", Some("/tmp/a"), Some("/tmp/b")),
        mk("bad", None, Some("/tmp/d")),
        mk("never", Some("/tmp/e"), Some("/tmp/f")),
    ];
    let mut session = Session::new(entries);
    assert!(matches!(session.next_job(), Some(Ok(_))));
    session.report_link(true).unwrap();
    match session.next_job() {
        Some(Err(e)) => assert_eq!(e, SetupError::ConfigError),
        _ => panic!("expected the run to fail on the incomplete entry"),
    }
    assert!(session.next_job().is_none());
    assert!(session.next_job().is_none());
}

#[test]
fn existing_target_is_skipped() {
    assert_eq!(link_action(LinkKind::File, true), LinkAction::Skip);
    assert_eq!(link_action(LinkKind::Directory, true), LinkAction::Skip);
}

#[test]
fn free_target_gets_link_of_declared_kind() {
    assert_eq!(link_action(LinkKind::File, false), LinkAction::CreateFileLink);
    assert_eq!(
        link_action(LinkKind::Directory, false),
        LinkAction::CreateDirLink
    );
}

#[test]
fn second_run_over_linked_target_skips() {
    let first = link_action(LinkKind::File, false);
    assert_eq!(first, LinkAction::CreateFileLink);
    let second = link_action(LinkKind::File, true);
    assert_eq!(second, LinkAction::Skip);
}

#[test]
fn failed_link_ends_the_run() {
    let text = r#"[
        {"name":"a","type":"File","source_location":"/tmp/a","target_location":"/tmp/b"},
        {"name":"b","type":"File","source_location":"/tmp/c","target_location":"/tmp/d"}
    ]"#;
    let entries = parse_config(text).unwrap();
    let mut session = Session::new(entries);
    assert!(matches!(session.next_job(), Some(Ok(_))));
    assert_eq!(session.report_link(false), Err(SetupError::LinkError));
    assert!(session.next_job().is_none());
}

#[test]
fn empty_configuration_hands_out_nothing() {
    let entries = parse_config("[]").unwrap();
    let mut session = Session::new(entries);
    assert!(session.next_job().is_none());
}
