use toy_piano::connection::find_source;
use toy_piano::connection::ConnectError;
use toy_piano::connection::Connection;
use toy_piano::connection::ConnectionState;
use toy_piano::connection::OpenOutcome;
use toy_piano::connection::Status;

fn names(v: &[&str]) -> Vec<String> {
    v.iter().map(|s| s.to_string()).collect()
}

#[test]
fn new_is_disconnected_and_ready() {
    let c = Connection::new(names(&["Keys", "Pads"]));
    assert_eq!(c.state(), ConnectionState::Disconnected);
    assert_eq!(c.status(), Status::Ready);
    assert_eq!(c.selected(), None);
    assert_eq!(c.first_source(), Some("Keys".to_string()));
    assert_eq!(Connection::new(Vec::new()).first_source(), None);
}

#[test]
fn find_source_gives_first_match() {
    let list = names(&["A", "B", "A"]);
    assert_eq!(find_source(&list, &"A".to_string()), Some(0));
    assert_eq!(find_source(&list, &"B".to_string()), Some(1));
    assert_eq!(find_source(&list, &"C".to_string()), None);
    assert_eq!(find_source(&Vec::new(), &"A".to_string()), None);
}

#[test]
fn select_then_open_connects() {
    let mut c = Connection::new(names(&["Keys"]));
    assert_eq!(c.begin_select("Keys".to_string()), None);
    assert_eq!(c.state(), ConnectionState::Connecting);
    assert_eq!(c.status(), Status::Connecting("Keys".to_string()));
    let id = c.finish_select(OpenOutcome::Opened).unwrap();
    assert_eq!(c.state(), ConnectionState::Connected("Keys".to_string()));
    assert_eq!(c.status(), Status::Connected("Keys".to_string()));
    assert!(c.accepts(id));
    assert!(!c.accepts(id + 1));
}

#[test]
fn reselect_retires_first_link() {
    let mut c = Connection::new(names(&["A", "B"]));
    c.begin_select("A".to_string());
    let a = c.finish_select(OpenOutcome::Opened).unwrap();
    assert_eq!(c.begin_select("B".to_string()), Some(a));
    assert!(!c.accepts(a));
    let b = c.finish_select(OpenOutcome::Opened).unwrap();
    assert_ne!(a, b);
    assert!(!c.accepts(a));
    assert!(c.accepts(b));
}

#[test]
fn failures_leave_nothing_live() {
    let mut c = Connection::new(names(&["A"]));
    c.begin_select("A".to_string());
    let a = c.finish_select(OpenOutcome::Opened).unwrap();
    c.begin_select("Z".to_string());
    assert_eq!(c.finish_select(OpenOutcome::NotFound), None);
    assert_eq!(c.state(), ConnectionState::Failed(ConnectError::NotFound));
    assert!(!c.accepts(a));
    c.begin_select("A".to_string());
    assert_eq!(c.finish_select(OpenOutcome::Refused("busy".to_string())), None);
    assert_eq!(
        c.status(),
        Status::Failed(ConnectError::Refused("busy".to_string()))
    );
    c.begin_select("A".to_string());
    let again = c.finish_select(OpenOutcome::Opened).unwrap();
    assert_ne!(again, a);
    assert!(c.accepts(again));
}

#[test]
fn rescan_keeps_connection() {
    let mut c = Connection::new(names(&["A"]));
    c.begin_select("A".to_string());
    let a = c.finish_select(OpenOutcome::Opened).unwrap();
    c.rescan(names(&["A", "B", "C"]));
    assert_eq!(c.status(), Status::FoundSources(3));
    assert_eq!(c.state(), ConnectionState::Connected("A".to_string()));
    assert!(c.accepts(a));
    assert_eq!(c.sources().len(), 3);
    c.rescan(Vec::new());
    assert_eq!(c.status(), Status::NoSources);
    assert_eq!(c.selected(), Some("A".to_string()));
}
