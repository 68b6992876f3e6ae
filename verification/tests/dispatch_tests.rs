use dataset_dispatch::classify::DatasetConn;
use dataset_dispatch::command::ConnectOpts;
use dataset_dispatch::dispatch::Dispatcher;
use dataset_dispatch::error::ReplError;
use dataset_dispatch::executor::run_one;
use dataset_dispatch::executor::Backend;
use dataset_dispatch::executor::BackendError;

/// A stub backend that records, independent of any reply handle, the name
/// of every dataset it was asked to connect, and can be set to fail.
struct StubBackend {
    connected: Vec<String>,
    failure: Option<String>,
}

impl StubBackend {
    fn ok() -> Self {
        StubBackend { connected: Vec::new(), failure: None }
    }

    fn failing(message: &str) -> Self {
        StubBackend { connected: Vec::new(), failure: Some(message.to_string()) }
    }
}

impl Backend for StubBackend {
    fn connect(&mut self, cmd: &ConnectOpts) -> Result<(), BackendError> {
        match &self.failure {
            Some(message) => Err(BackendError { message: message.clone() }),
            None => {
                self.connected.push(cmd.name.clone());
                Ok(())
            }
        }
    }
}

fn csv_command(path: &str, name: &str) -> ConnectOpts {
    ConnectOpts::new(DatasetConn::Csv(path.to_string()), None, name.to_string())
}

#[test]
fn builder_is_immutable() {
    let cmd = ConnectOpts::new(
        DatasetConn::Postgres("postgres://localhost/db".to_string()),
        Some("users".to_string()),
        "mydb".to_string(),
    );
    assert!(matches!(&cmd.conn, DatasetConn::Postgres(s) if s == "postgres://localhost/db"));
    assert_eq!(cmd.table.as_deref(), Some("users"));
    assert_eq!(cmd.name, "mydb");
    // A second read observes the same values.
    assert!(matches!(&cmd.conn, DatasetConn::Postgres(s) if s == "postgres://localhost/db"));
    assert_eq!(cmd.table.as_deref(), Some("users"));
    assert_eq!(cmd.name, "mydb");
}

#[test]
fn tickets_are_fresh_in_send_order() {
    let mut d = Dispatcher::new();
    let h1 = d.send(csv_command("a.csv", "a"));
    let h2 = d.send(csv_command("b.csv", "b"));
    let h3 = d.send(csv_command("c.csv", "c"));
    assert_eq!(h1.id, 0);
    assert_eq!(h2.id, 1);
    assert_eq!(h3.id, 2);
}

#[test]
fn dispatch_preserves_send_order() {
    let mut d = Dispatcher::new();
    d.send(csv_command("first.csv", "first"));
    d.send(csv_command("second.csv", "second"));
    let mut backend = StubBackend::ok();
    assert!(run_one(&mut d, &mut backend));
    assert!(run_one(&mut d, &mut backend));
    assert!(!run_one(&mut d, &mut backend));
    assert_eq!(backend.connected, vec!["first".to_string(), "second".to_string()]);
}

#[test]
fn envelope_is_consumed_exactly_once() {
    let mut d = Dispatcher::new();
    d.send(csv_command("a.csv", "a"));
    let mut backend = StubBackend::ok();
    assert!(run_one(&mut d, &mut backend));
    assert!(!run_one(&mut d, &mut backend));
    assert!(!run_one(&mut d, &mut backend));
    assert_eq!(backend.connected, vec!["a".to_string()]);
}

#[test]
fn dropped_handle_does_not_stop_the_side_effect() {
    let mut d = Dispatcher::new();
    let handle = d.send(csv_command("sales.csv", "sales"));
    drop(handle);
    let mut backend = StubBackend::ok();
    assert!(run_one(&mut d, &mut backend));
    assert_eq!(backend.connected, vec!["sales".to_string()]);
}

#[test]
fn fire_and_forget_reply_stays_collectable() {
    let mut d = Dispatcher::new();
    let handle = d.send(csv_command("sales.csv", "sales"));
    let mut backend = StubBackend::ok();
    run_one(&mut d, &mut backend);
    // The sender never has to collect the reply, but it may, later.
    let reply = d.take_reply(&handle);
    assert_eq!(reply.unwrap().unwrap(), "Connected to dataset: sales");
}

#[test]
fn reply_is_absent_until_executed_and_taken_once() {
    let mut d = Dispatcher::new();
    let handle = d.send(csv_command("a.csv", "a"));
    assert!(d.take_reply(&handle).is_none());
    let mut backend = StubBackend::ok();
    run_one(&mut d, &mut backend);
    assert!(d.take_reply(&handle).is_some());
    assert!(d.take_reply(&handle).is_none());
}

#[test]
fn replies_are_keyed_by_ticket() {
    let mut d = Dispatcher::new();
    let h1 = d.send(csv_command("a.csv", "a"));
    let h2 = d.send(csv_command("b.csv", "b"));
    let mut backend = StubBackend::ok();
    run_one(&mut d, &mut backend);
    run_one(&mut d, &mut backend);
    assert_eq!(d.take_reply(&h2).unwrap().unwrap(), "Connected to dataset: b");
    assert_eq!(d.take_reply(&h1).unwrap().unwrap(), "Connected to dataset: a");
}

#[test]
fn backend_error_is_propagated_unchanged() {
    let mut d = Dispatcher::new();
    let handle = d.send(csv_command("a.csv", "a"));
    let mut backend = StubBackend::failing("connection refused");
    run_one(&mut d, &mut backend);
    let outcome = d.take_reply(&handle).unwrap();
    assert_eq!(outcome.unwrap_err().message, "connection refused");
    assert!(backend.connected.is_empty());
}

#[test]
fn repl_error_messages_name_their_kind() {
    let validation = ReplError::Validation("Invalid connection string: data.txt".to_string());
    assert_eq!(validation.message(), "Invalid connection string: data.txt");
    let backend = ReplError::Backend(BackendError { message: "boom".to_string() });
    assert_eq!(backend.message(), "boom");
    let closed = ReplError::ChannelClosed;
    assert_eq!(closed.message(), "Command executor is no longer running");
}
