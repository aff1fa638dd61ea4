use clothes_search::AbortKind;
use clothes_search::Action;
use clothes_search::ClothesDisplay;
use clothes_search::Event;
use clothes_search::Phase;
use clothes_search::step;

const CATALOG: &str = r#"[{"id": 1, "seaon": "winter", "article": "sweatshirt", "cost": 19.99, "size": "L", "pattern": "striped"}]"#;

#[test]
fn a_session_runs_from_idle_to_terminated() {
    let (p, a) = step(Phase::Idle, Event::CatalogLoaded(CATALOG.to_string()));
    assert_eq!(p, Phase::Provisioning);
    match a {
        Action::Provision(docs) => {
            assert_eq!(docs.len(), 1);
            assert_eq!(docs[0].article, "sweatshirt");
        },
        _ => panic!("expected provisioning"),
    }

    let (p, a) = step(p, Event::ProvisionDone);
    assert_eq!(p, Phase::Ready);
    assert!(matches!(a, Action::Prompt));

    let (p, a) = step(p, Event::Line("  sweater \n".to_string()));
    assert_eq!(p, Phase::Querying);
    match a {
        Action::Query(q) => assert_eq!(q, "sweater"),
        _ => panic!("expected a query"),
    }

    let hits = vec![ClothesDisplay {
        article: "sweatshirt".to_string(),
        cost: "19.99".to_string(),
        size: "L".to_string(),
        pattern: "striped".to_string(),
    }];
    let (p, a) = step(p, Event::QueryDone(hits));
    assert_eq!(p, Phase::Ready);
    match a {
        Action::Print(out) => assert!(out.contains("article: sweatshirt,")),
        _ => panic!("expected printed hits"),
    }

    let (p, a) = step(p, Event::Line("quit".to_string()));
    assert_eq!(p, Phase::Teardown);
    assert!(matches!(a, Action::DeleteIndex));

    let (p, a) = step(p, Event::TeardownDone);
    assert_eq!(p, Phase::Terminated);
    assert!(matches!(a, Action::Exit));
}

#[test]
fn quit_words_skip_the_search() {
    for line in ["q", "quit", "", "  q  ", "\tquit\n", "   "] {
        let (p, a) = step(Phase::Ready, Event::Line(line.to_string()));
        assert_eq!(p, Phase::Teardown, "on {:?}", line);
        assert!(matches!(a, Action::DeleteIndex), "on {:?}", line);
    }
}

#[test]
fn empty_hits_print_no_results() {
    let (p, a) = step(Phase::Querying, Event::QueryDone(Vec::new()));
    assert_eq!(p, Phase::Ready);
    match a {
        Action::Print(out) => assert_eq!(out, "no results...\n"),
        _ => panic!("expected printed text"),
    }
}

#[test]
fn malformed_catalog_aborts_before_provisioning() {
    let (p, a) = step(
        Phase::Idle,
        Event::CatalogLoaded("[{\"id\": oops}]".to_string()),
    );
    assert_eq!(p, Phase::Terminated);
    match a {
        Action::Abort(kind, _) => assert_eq!(kind, AbortKind::Deserialization),
        _ => panic!("expected an abort, saw another action"),
    }
}

#[test]
fn unreadable_catalog_aborts() {
    let (p, a) = step(
        Phase::Idle,
        Event::CatalogUnreadable("no such file".to_string()),
    );
    assert_eq!(p, Phase::Terminated);
    match a {
        Action::Abort(kind, detail) => {
            assert_eq!(kind, AbortKind::FileAccess);
            assert_eq!(detail, "no such file");
        },
        _ => panic!("expected an abort"),
    }
}

#[test]
fn service_failures_are_fatal() {
    let (p, a) = step(Phase::Provisioning, Event::ProvisionFailed("task failed".to_string()));
    assert_eq!(p, Phase::Terminated);
    assert!(matches!(a, Action::Abort(AbortKind::ServiceTask, _)));

    let (p, a) = step(Phase::Querying, Event::QueryFailed("boom".to_string()));
    assert_eq!(p, Phase::Terminated);
    assert!(matches!(a, Action::Abort(AbortKind::ServiceRequest, _)));

    let (p, a) = step(Phase::Teardown, Event::TeardownFailed("still there".to_string()));
    assert_eq!(p, Phase::Terminated);
    assert!(matches!(a, Action::Abort(AbortKind::ServiceRequest, _)));
}

#[test]
fn no_query_after_teardown() {
    let (p, a) = step(Phase::Teardown, Event::Line("sweater".to_string()));
    assert_eq!(p, Phase::Teardown);
    assert!(matches!(a, Action::Ignore));

    let (p, a) = step(Phase::Terminated, Event::Line("sweater".to_string()));
    assert_eq!(p, Phase::Terminated);
    assert!(matches!(a, Action::Ignore));

    let (p, a) = step(Phase::Terminated, Event::ProvisionDone);
    assert_eq!(p, Phase::Terminated);
    assert!(matches!(a, Action::Ignore));
}

#[test]
fn events_out_of_phase_are_ignored() {
    let (p, a) = step(Phase::Idle, Event::Line("hello".to_string()));
    assert_eq!(p, Phase::Idle);
    assert!(matches!(a, Action::Ignore));

    let (p, a) = step(Phase::Ready, Event::ProvisionDone);
    assert_eq!(p, Phase::Ready);
    assert!(matches!(a, Action::Ignore));
}
