use tmgui::app::{Screen, TempMailApp};
use tmgui::event_handler::{Event, EventResponse, Handler, Operation, Reply, Request};
use tmgui::mail::Email;
use tmgui::queue::Queue;

fn message(id: &str) -> Email {
    Email {
        id: id.to_string(),
        from_address: "sender@example.org".to_string(),
        to_address: "me@vwh.sh".to_string(),
        subject: format!("subject of {id}"),
        received_at: 1_700_000_000,
        text_content: Some("body".to_string()),
        has_attachments: false,
        attachment_count: 0,
    }
}

/// A network that knows one mailbox and records every operation asked of it.
struct Network {
    inbox: Vec<Email>,
    failing: bool,
    log: Vec<String>,
}

fn perform(network: &mut Network, request: &Request) -> Reply {
    network.log.push(format!("begin {:?}", request.operation));
    let reply = if network.failing {
        Reply::Failed("unreachable".to_string())
    } else {
        match &request.operation {
            Operation::ListDomains => Reply::Domains(vec!["vwh.sh".to_string()]),
            Operation::ListEmails { limit, offset } => Reply::Emails(
                network
                    .inbox
                    .iter()
                    .skip(*offset as usize)
                    .take(*limit as usize)
                    .cloned()
                    .collect(),
            ),
            Operation::GetEmail { id } => match network.inbox.iter().find(|m| &m.id == id) {
                Some(found) => Reply::Email(found.clone()),
                None => Reply::Failed("not found".to_string()),
            },
            Operation::CountEmails => Reply::Count(network.inbox.len() as u32),
            Operation::DeleteEmail { id } => {
                network.inbox.retain(|m| &m.id != id);
                Reply::Deleted
            }
            Operation::DeleteAllEmails => {
                let count = network.inbox.len() as u32;
                network.inbox.clear();
                Reply::DeletedAll(count)
            }
            Operation::ListAttachments { .. } => Reply::Attachments(vec![]),
        }
    };
    network.log.push(format!("end {:?}", request.operation));
    reply
}

/// Carries the interface's commands to the worker, lets the worker serve
/// them against `network`, and carries the responses back.
fn pump(app: &mut TempMailApp, handler: &mut Handler, network: &mut Network) -> Vec<String> {
    let mut reports = Vec::new();
    while let Some(event) = app.next_event() {
        handler.accept(event);
    }
    while let Some(request) = handler.listen() {
        assert_eq!(handler.listen(), None);
        let reply = perform(network, &request);
        if let Some(report) = handler.complete(reply) {
            reports.push(report);
        }
    }
    while let Some(response) = handler.take_response() {
        app.deliver(response);
    }
    reports
}

fn settle(app: &mut TempMailApp) {
    for _ in 0..16 {
        app.handle_responses().unwrap();
    }
}

fn start(inbox: &[&str]) -> (TempMailApp, Handler, Network) {
    let app = TempMailApp::new(
        Queue::new(),
        Queue::new(),
        Some("me".to_string()),
        Some("vwh.sh".to_string()),
    );
    let handler = Handler::new(Queue::new(), Queue::new());
    let network =
        Network { inbox: inbox.iter().map(|id| message(id)).collect(), failing: false, log: vec![] };
    (app, handler, network)
}

fn ids(app: &TempMailApp) -> Vec<String> {
    app.emails().iter().map(|email| email.id.clone()).collect()
}

#[test]
fn startup_lists_the_mailbox_and_the_domains() {
    let (mut app, mut handler, mut network) = start(&["m1", "m2"]);
    assert_eq!(app.screen(), Screen::Busy);
    assert!(pump(&mut app, &mut handler, &mut network).is_empty());
    assert_eq!(app.handle_responses(), Ok(()));
    assert_eq!(app.screen(), Screen::List);
    assert_eq!(ids(&app), vec!["m1", "m2"]);
    assert!(app.domains().is_empty());
    assert_eq!(app.handle_responses(), Ok(()));
    assert_eq!(app.domains(), &vec!["vwh.sh".to_string()]);
    assert_eq!(
        network.log,
        vec![
            "begin ListEmails { limit: 50, offset: 0 }",
            "end ListEmails { limit: 50, offset: 0 }",
            "begin ListDomains",
            "end ListDomains",
        ]
    );
}

#[test]
fn operations_never_overlap() {
    let (mut app, mut handler, mut network) = start(&["m1", "m2", "m3"]);
    app.request_count(app.email());
    app.request_detail("m2".to_string());
    app.request_delete("m3".to_string(), 2);
    pump(&mut app, &mut handler, &mut network);
    assert_eq!(network.log.len(), 10);
    for pair in network.log.chunks(2) {
        assert!(pair[0].starts_with("begin "));
        assert!(pair[1].starts_with("end "));
        assert_eq!(pair[0]["begin ".len()..], pair[1]["end ".len()..]);
    }
}

#[test]
fn delete_all_is_served_before_the_listing_behind_it() {
    let (mut app, mut handler, mut network) = start(&["m1", "m2"]);
    pump(&mut app, &mut handler, &mut network);
    settle(&mut app);
    network.log.clear();
    assert_eq!(ids(&app), vec!["m1", "m2"]);

    app.request_delete_all(app.email());
    let mut issued = Vec::new();
    while let Some(event) = app.next_event() {
        issued.push(event.clone());
        handler.accept(event);
    }
    assert_eq!(
        issued,
        vec![
            Event::DeleteAllEmails("me@vwh.sh".to_string()),
            Event::FetchEmails("me@vwh.sh".to_string())
        ]
    );

    let delete = handler.listen().unwrap();
    assert_eq!(
        delete,
        Request { address: "me@vwh.sh".to_string(), operation: Operation::DeleteAllEmails }
    );
    assert_eq!(handler.listen(), None);
    let reply = perform(&mut network, &delete);
    assert_eq!(reply, Reply::DeletedAll(2));
    assert_eq!(handler.listen(), None);
    assert_eq!(handler.complete(reply), None);

    let list = handler.listen().unwrap();
    assert_eq!(
        list,
        Request {
            address: "me@vwh.sh".to_string(),
            operation: Operation::ListEmails { limit: 50, offset: 0 }
        }
    );
    let reply = perform(&mut network, &list);
    assert_eq!(reply, Reply::Emails(vec![]));
    assert_eq!(handler.complete(reply), None);
    assert_eq!(handler.listen(), None);

    assert_eq!(
        network.log,
        vec![
            "begin DeleteAllEmails",
            "end DeleteAllEmails",
            "begin ListEmails { limit: 50, offset: 0 }",
            "end ListEmails { limit: 50, offset: 0 }",
        ]
    );
    assert_eq!(handler.take_response(), Some(EventResponse::EmailsDeleted));
    assert_eq!(handler.take_response(), Some(EventResponse::Emails(vec![])));
    assert_eq!(handler.take_response(), None);
}

#[test]
fn delete_by_position_round_trip() {
    let (mut app, mut handler, mut network) = start(&["m1", "m2", "m3"]);
    pump(&mut app, &mut handler, &mut network);
    settle(&mut app);
    app.request_delete("m2".to_string(), 1);
    assert!(app.is_fetching());
    assert!(pump(&mut app, &mut handler, &mut network).is_empty());
    assert_eq!(app.handle_responses(), Ok(()));
    assert!(!app.is_fetching());
    assert_eq!(ids(&app), vec!["m1", "m3"]);
    assert_eq!(network.inbox.len(), 2);
}

#[test]
fn failed_delete_leaves_the_list_and_the_busy_sign() {
    let (mut app, mut handler, mut network) = start(&["m1", "m2", "m3"]);
    pump(&mut app, &mut handler, &mut network);
    settle(&mut app);
    network.failing = true;
    app.request_delete("m2".to_string(), 1);
    let reports = pump(&mut app, &mut handler, &mut network);
    assert_eq!(reports, vec!["Could not delete email: unreachable".to_string()]);
    assert_eq!(handler.take_response(), None);
    assert!(handler.is_idle());
    settle(&mut app);
    assert_eq!(ids(&app), vec!["m1", "m2", "m3"]);
    assert!(app.is_fetching());
    assert_eq!(app.screen(), Screen::Busy);
}

#[test]
fn a_later_response_clears_the_busy_sign_of_a_failed_command() {
    let (mut app, mut handler, mut network) = start(&["m1"]);
    pump(&mut app, &mut handler, &mut network);
    settle(&mut app);
    network.failing = true;
    app.request_detail("m1".to_string());
    pump(&mut app, &mut handler, &mut network);
    settle(&mut app);
    assert!(app.is_fetching());
    network.failing = false;
    app.request_count(app.email());
    pump(&mut app, &mut handler, &mut network);
    assert_eq!(app.handle_responses(), Ok(()));
    assert!(!app.is_fetching());
    assert_eq!(app.email_count(), 1);
    assert_eq!(app.viewed_email(), None);
}

#[test]
fn further_pages_are_asked_from_successive_offsets() {
    let (mut app, mut handler, mut network) = start(&["m1", "m2", "m3"]);
    pump(&mut app, &mut handler, &mut network);
    settle(&mut app);
    network.log.clear();
    app.request_more(app.email());
    app.request_more(app.email());
    app.request_more(app.email());
    pump(&mut app, &mut handler, &mut network);
    let begun: Vec<&String> = network.log.iter().filter(|l| l.starts_with("begin")).collect();
    assert_eq!(
        begun,
        vec![
            "begin ListEmails { limit: 50, offset: 0 }",
            "begin ListEmails { limit: 50, offset: 1 }",
            "begin ListEmails { limit: 50, offset: 2 }",
        ]
    );
    settle(&mut app);
    assert_eq!(ids(&app), vec!["m1", "m2", "m3", "m1", "m2", "m3", "m2", "m3", "m3"]);
}
