use general_api::greeting::{hello_step, HelloAction, HelloEvent, HELLO_DELAY_SECONDS};
use general_api::model::Message;

#[test]
fn a_request_is_held_for_five_seconds() {
    assert_eq!(HELLO_DELAY_SECONDS, 5);
    assert!(matches!(hello_step(HelloEvent::Received), HelloAction::Wait(5)));
}

#[test]
fn the_table_is_read_after_the_wait() {
    match hello_step(HelloEvent::DelayElapsed) {
        HelloAction::Query(statement) => {
            assert_eq!(statement, "SELECT id, text FROM messages LIMIT 1")
        }
        _ => panic!("the wait must be followed by the query"),
    }
}

#[test]
fn the_row_is_the_reply_verbatim() {
    let row = Message { id: 42, text: "Hello, world! こんにちは".to_string() };
    match hello_step(HelloEvent::RowFetched(row)) {
        HelloAction::Reply(message) => {
            assert_eq!(message.id, 42);
            assert_eq!(message.text, "Hello, world! こんにちは");
        }
        _ => panic!("a fetched row must be replied"),
    }
}

#[test]
fn extreme_rows_are_replied_unchanged() {
    for (id, text) in [(i32::MIN, ""), (i32::MAX, "\"quoted\"\n"), (0, " ")] {
        let row = Message { id, text: text.to_string() };
        match hello_step(HelloEvent::RowFetched(row)) {
            HelloAction::Reply(message) => {
                assert_eq!(message.id, id);
                assert_eq!(message.text, text);
            }
            _ => panic!("a fetched row must be replied"),
        }
    }
}

#[test]
fn a_failed_query_gives_the_request_up() {
    assert!(matches!(hello_step(HelloEvent::QueryFailed), HelloAction::Abort));
}

#[test]
fn a_whole_request_runs_wait_query_reply() {
    let mut trace: Vec<&str> = Vec::new();
    let mut action = hello_step(HelloEvent::Received);
    let reply = loop {
        action = match action {
            HelloAction::Wait(_) => {
                trace.push("wait");
                hello_step(HelloEvent::DelayElapsed)
            }
            HelloAction::Query(_) => {
                trace.push("query");
                hello_step(HelloEvent::RowFetched(Message { id: 1, text: "hi".to_string() }))
            }
            HelloAction::Reply(message) => break Some(message),
            HelloAction::Abort => break None,
        };
    };
    assert_eq!(trace, vec!["wait", "query"]);
    let reply = reply.expect("a reply");
    assert_eq!((reply.id, reply.text.as_str()), (1, "hi"));
}
