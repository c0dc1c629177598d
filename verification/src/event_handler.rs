//! The commands of the interface, the worker that serves them one at a time,
//! and the responses it sends back.

use crate::mail::Attachment;
use crate::mail::AttachmentSpec;
use crate::mail::Email;
use crate::mail::EmailSpec;
use crate::queue::Queue;
use vstd::prelude::*;
use vstd::string::StringExecFns;

verus! {

/// The number of messages asked for in one listing.
pub const PAGE_SIZE: u8 = 50;

/// A command of the interface: one operation that the worker is to perform.
#[derive(Clone, Debug, PartialEq, Eq)]
pub enum Event {
    /// Delete every message of the mailbox at this address.
    DeleteAllEmails(String),
    /// Delete the message with this identifier, shown at this position of
    /// the interface's list.
    DeleteEmail(String, usize),
    /// List the first page of the mailbox at this address.
    FetchEmails(String),
    /// List one more page of the mailbox at this address, from this offset.
    FetchMoreEmails(String, u32),
    /// Fetch the message with this identifier in full.
    FetchEmail(String),
    /// List the domains that the service offers.
    FetchDomanins,
    /// Count the messages of the mailbox at this address.
    CountEmails(String),
    /// List the attachments of the message with this identifier.
    GetAttachments(String),
}

/// What an [`Event`] holds, with every string as its characters.
pub enum EventSpec {
    DeleteAllEmails(Seq<char>),
    DeleteEmail(Seq<char>, nat),
    FetchEmails(Seq<char>),
    FetchMoreEmails(Seq<char>, nat),
    FetchEmail(Seq<char>),
    FetchDomanins,
    CountEmails(Seq<char>),
    GetAttachments(Seq<char>),
}

impl DeepView for Event {
    type V = EventSpec;

    open spec fn deep_view(&self) -> EventSpec {
        match self {
            Event::DeleteAllEmails(address) => EventSpec::DeleteAllEmails(address@),
            Event::DeleteEmail(id, index) => EventSpec::DeleteEmail(id@, *index as nat),
            Event::FetchEmails(address) => EventSpec::FetchEmails(address@),
            Event::FetchMoreEmails(address, offset) => EventSpec::FetchMoreEmails(
                address@,
                *offset as nat,
            ),
            Event::FetchEmail(id) => EventSpec::FetchEmail(id@),
            Event::FetchDomanins => EventSpec::FetchDomanins,
            Event::CountEmails(address) => EventSpec::CountEmails(address@),
            Event::GetAttachments(id) => EventSpec::GetAttachments(id@),
        }
    }
}

/// The outcome of one command that the worker completed with success.
#[derive(Clone, Debug, PartialEq, Eq)]
pub enum EventResponse {
    /// The domains that the service offers.
    Domains(Vec<String>),
    /// The first page of a mailbox: it replaces the list shown.
    Emails(Vec<Email>),
    /// One more page of a mailbox: it is appended to the list shown.
    EmailsMore(Vec<Email>),
    /// One message in full.
    Email(Email),
    /// The number of messages in the mailbox.
    Count(u32),
    /// Every message of the mailbox was deleted.
    EmailsDeleted,
    /// The message shown at this position was deleted.
    EmailDeleted(usize),
    /// The attachments of the message in view.
    Attachments(Vec<Attachment>),
}

/// What an [`EventResponse`] holds, with every string as its characters.
pub enum EventResponseSpec {
    Domains(Seq<Seq<char>>),
    Emails(Seq<EmailSpec>),
    EmailsMore(Seq<EmailSpec>),
    Email(EmailSpec),
    Count(nat),
    EmailsDeleted,
    EmailDeleted(nat),
    Attachments(Seq<AttachmentSpec>),
}

impl DeepView for EventResponse {
    type V = EventResponseSpec;

    open spec fn deep_view(&self) -> EventResponseSpec {
        match self {
            EventResponse::Domains(domains) => EventResponseSpec::Domains(domains.deep_view()),
            EventResponse::Emails(emails) => EventResponseSpec::Emails(emails.deep_view()),
            EventResponse::EmailsMore(emails) => EventResponseSpec::EmailsMore(emails.deep_view()),
            EventResponse::Email(email) => EventResponseSpec::Email(email.deep_view()),
            EventResponse::Count(count) => EventResponseSpec::Count(*count as nat),
            EventResponse::EmailsDeleted => EventResponseSpec::EmailsDeleted,
            EventResponse::EmailDeleted(index) => EventResponseSpec::EmailDeleted(*index as nat),
            EventResponse::Attachments(attachments) => EventResponseSpec::Attachments(
                attachments.deep_view(),
            ),
        }
    }
}

/// One operation of the mail service.
#[derive(Clone, Debug, PartialEq, Eq)]
pub enum Operation {
    /// List the domains that the service offers.
    ListDomains,
    /// List at most `limit` messages of the mailbox, skipping `offset`.
    ListEmails { limit: u8, offset: u32 },
    /// Fetch the message with this identifier.
    GetEmail { id: String },
    /// Count the messages of the mailbox.
    CountEmails,
    /// Delete the message with this identifier.
    DeleteEmail { id: String },
    /// Delete every message of the mailbox.
    DeleteAllEmails,
    /// List the attachments of the message with this identifier.
    ListAttachments { id: String },
}

/// What an [`Operation`] holds, with every string as its characters.
pub enum OperationSpec {
    ListDomains,
    ListEmails { limit: nat, offset: nat },
    GetEmail { id: Seq<char> },
    CountEmails,
    DeleteEmail { id: Seq<char> },
    DeleteAllEmails,
    ListAttachments { id: Seq<char> },
}

impl DeepView for Operation {
    type V = OperationSpec;

    open spec fn deep_view(&self) -> OperationSpec {
        match self {
            Operation::ListDomains => OperationSpec::ListDomains,
            Operation::ListEmails { limit, offset } => OperationSpec::ListEmails {
                limit: *limit as nat,
                offset: *offset as nat,
            },
            Operation::GetEmail { id } => OperationSpec::GetEmail { id: id@ },
            Operation::CountEmails => OperationSpec::CountEmails,
            Operation::DeleteEmail { id } => OperationSpec::DeleteEmail { id: id@ },
            Operation::DeleteAllEmails => OperationSpec::DeleteAllEmails,
            Operation::ListAttachments { id } => OperationSpec::ListAttachments { id: id@ },
        }
    }
}

/// What the worker asks of the network: one operation, on a client made for
/// one mailbox address.
#[derive(Clone, Debug, PartialEq, Eq)]
pub struct Request {
    /// The address for which the client is made.
    pub address: String,
    /// The operation to perform with that client.
    pub operation: Operation,
}

/// What a [`Request`] holds, with every string as its characters.
pub struct RequestSpec {
    pub address: Seq<char>,
    pub operation: OperationSpec,
}

impl DeepView for Request {
    type V = RequestSpec;

    open spec fn deep_view(&self) -> RequestSpec {
        RequestSpec { address: self.address@, operation: self.operation.deep_view() }
    }
}

/// What the network hands back for one [`Request`].
#[derive(Clone, Debug, PartialEq, Eq)]
pub enum Reply {
    /// The domains that the service offers.
    Domains(Vec<String>),
    /// One page of messages.
    Emails(Vec<Email>),
    /// One message in full.
    Email(Email),
    /// The number of messages in the mailbox.
    Count(u32),
    /// The message was deleted.
    Deleted,
    /// Every message was deleted; this many there were.
    DeletedAll(u32),
    /// The attachments of a message.
    Attachments(Vec<Attachment>),
    /// The operation failed, for this reason.
    Failed(String),
}

/// What a [`Reply`] holds, with every string as its characters.
pub enum ReplySpec {
    Domains(Seq<Seq<char>>),
    Emails(Seq<EmailSpec>),
    Email(EmailSpec),
    Count(nat),
    Deleted,
    DeletedAll(nat),
    Attachments(Seq<AttachmentSpec>),
    Failed(Seq<char>),
}

impl DeepView for Reply {
    type V = ReplySpec;

    open spec fn deep_view(&self) -> ReplySpec {
        match self {
            Reply::Domains(domains) => ReplySpec::Domains(domains.deep_view()),
            Reply::Emails(emails) => ReplySpec::Emails(emails.deep_view()),
            Reply::Email(email) => ReplySpec::Email(email.deep_view()),
            Reply::Count(count) => ReplySpec::Count(*count as nat),
            Reply::Deleted => ReplySpec::Deleted,
            Reply::DeletedAll(count) => ReplySpec::DeletedAll(*count as nat),
            Reply::Attachments(attachments) => ReplySpec::Attachments(attachments.deep_view()),
            Reply::Failed(cause) => ReplySpec::Failed(cause@),
        }
    }
}

/// The address of the client that serves the operations which name a message
/// by its identifier, or no mailbox at all.
pub open spec fn placeholder_address() -> Seq<char> {
    "example@example.com"@
}

/// The network operation by which a command is served.
///
/// A command that carries an address is served by a client made for that
/// address, any other by one made for [`placeholder_address`]. The first page
/// of a mailbox is listed from offset zero, a further page from the offset
/// that the command carries; both ask for [`PAGE_SIZE`] messages.
pub open spec fn dispatch(event: EventSpec) -> RequestSpec {
    match event {
        EventSpec::DeleteAllEmails(address) => RequestSpec {
            address,
            operation: OperationSpec::DeleteAllEmails,
        },
        EventSpec::DeleteEmail(id, _) => RequestSpec {
            address: placeholder_address(),
            operation: OperationSpec::DeleteEmail { id },
        },
        EventSpec::FetchEmails(address) => RequestSpec {
            address,
            operation: OperationSpec::ListEmails { limit: PAGE_SIZE as nat, offset: 0 },
        },
        EventSpec::FetchMoreEmails(address, offset) => RequestSpec {
            address,
            operation: OperationSpec::ListEmails { limit: PAGE_SIZE as nat, offset },
        },
        EventSpec::FetchEmail(id) => RequestSpec {
            address: placeholder_address(),
            operation: OperationSpec::GetEmail { id },
        },
        EventSpec::FetchDomanins => RequestSpec {
            address: placeholder_address(),
            operation: OperationSpec::ListDomains,
        },
        EventSpec::CountEmails(address) => RequestSpec {
            address,
            operation: OperationSpec::CountEmails,
        },
        EventSpec::GetAttachments(id) => RequestSpec {
            address: placeholder_address(),
            operation: OperationSpec::ListAttachments { id },
        },
    }
}

/// The response that a command earns with a reply: the one that belongs to
/// the command where the reply is the success of its operation, and none
/// where the operation failed or the reply is that of another operation.
pub open spec fn response_to(event: EventSpec, reply: ReplySpec) -> Option<EventResponseSpec> {
    match (event, reply) {
        (EventSpec::DeleteAllEmails(_), ReplySpec::DeletedAll(_)) => Some(
            EventResponseSpec::EmailsDeleted,
        ),
        (EventSpec::DeleteEmail(_, index), ReplySpec::Deleted) => Some(
            EventResponseSpec::EmailDeleted(index),
        ),
        (EventSpec::FetchEmails(_), ReplySpec::Emails(emails)) => Some(
            EventResponseSpec::Emails(emails),
        ),
        (EventSpec::FetchMoreEmails(_, _), ReplySpec::Emails(emails)) => Some(
            EventResponseSpec::EmailsMore(emails),
        ),
        (EventSpec::FetchEmail(_), ReplySpec::Email(email)) => Some(
            EventResponseSpec::Email(email),
        ),
        (EventSpec::FetchDomanins, ReplySpec::Domains(domains)) => Some(
            EventResponseSpec::Domains(domains),
        ),
        (EventSpec::CountEmails(_), ReplySpec::Count(count)) => Some(
            EventResponseSpec::Count(count),
        ),
        (EventSpec::GetAttachments(_), ReplySpec::Attachments(attachments)) => Some(
            EventResponseSpec::Attachments(attachments),
        ),
        _ => None,
    }
}

/// The words that name the operation of a command in a report of its failure.
pub open spec fn failure_context(event: EventSpec) -> Seq<char> {
    match event {
        EventSpec::DeleteAllEmails(_) => "Could not delete all emails: "@,
        EventSpec::DeleteEmail(_, _) => "Could not delete email: "@,
        EventSpec::FetchEmails(_) => "Could not fetch emails: "@,
        EventSpec::FetchMoreEmails(_, _) => "Could not fetch emails: "@,
        EventSpec::FetchEmail(_) => "Could not fetch email: "@,
        EventSpec::FetchDomanins => "Could not fetch domains: "@,
        EventSpec::CountEmails(_) => "Could not fetch count: "@,
        EventSpec::GetAttachments(_) => "Could not fetch attachments: "@,
    }
}

/// The report of a command that earned no response: the operation's name,
/// then the cause that the network gave, or a note that the reply was that of
/// another operation.
pub open spec fn failure_report(event: EventSpec, reply: ReplySpec) -> Seq<char> {
    match reply {
        ReplySpec::Failed(cause) => failure_context(event) + cause,
        _ => failure_context(event) + "unexpected reply"@,
    }
}

/// The network operation by which `event` is served.
pub fn request_for(event: &Event) -> (request: Request)
    ensures
        request.deep_view() == dispatch(event.deep_view()),
{
    match event {
        Event::DeleteAllEmails(address) => Request {
            address: address.clone(),
            operation: Operation::DeleteAllEmails,
        },
        Event::DeleteEmail(id, _) => Request {
            address: String::from_str("example@example.com"),
            operation: Operation::DeleteEmail { id: id.clone() },
        },
        Event::FetchEmails(address) => Request {
            address: address.clone(),
            operation: Operation::ListEmails { limit: PAGE_SIZE, offset: 0 },
        },
        Event::FetchMoreEmails(address, offset) => Request {
            address: address.clone(),
            operation: Operation::ListEmails { limit: PAGE_SIZE, offset: *offset },
        },
        Event::FetchEmail(id) => Request {
            address: String::from_str("example@example.com"),
            operation: Operation::GetEmail { id: id.clone() },
        },
        Event::FetchDomanins => Request {
            address: String::from_str("example@example.com"),
            operation: Operation::ListDomains,
        },
        Event::CountEmails(address) => Request {
            address: address.clone(),
            operation: Operation::CountEmails,
        },
        Event::GetAttachments(id) => Request {
            address: String::from_str("example@example.com"),
            operation: Operation::ListAttachments { id: id.clone() },
        },
    }
}

/// Settles a command with the reply to its operation: the response to send
/// where the operation succeeded, else the report to log.
pub fn respond(event: Event, reply: Reply) -> (outcome: Result<EventResponse, String>)
    ensures
        match response_to(event.deep_view(), reply.deep_view()) {
            Some(response) => outcome is Ok && outcome->Ok_0.deep_view() == response,
            None => outcome is Err && outcome->Err_0@ == failure_report(
                event.deep_view(),
                reply.deep_view(),
            ),
        },
{
    match (event, reply) {
        (Event::DeleteAllEmails(_), Reply::DeletedAll(_)) => Ok(EventResponse::EmailsDeleted),
        (Event::DeleteEmail(_, index), Reply::Deleted) => Ok(EventResponse::EmailDeleted(index)),
        (Event::FetchEmails(_), Reply::Emails(emails)) => Ok(EventResponse::Emails(emails)),
        (Event::FetchMoreEmails(_, _), Reply::Emails(emails)) => Ok(
            EventResponse::EmailsMore(emails),
        ),
        (Event::FetchEmail(_), Reply::Email(email)) => Ok(EventResponse::Email(email)),
        (Event::FetchDomanins, Reply::Domains(domains)) => Ok(EventResponse::Domains(domains)),
        (Event::CountEmails(_), Reply::Count(count)) => Ok(EventResponse::Count(count)),
        (Event::GetAttachments(_), Reply::Attachments(attachments)) => Ok(
            EventResponse::Attachments(attachments),
        ),
        (event, Reply::Failed(cause)) => {
            let mut report = context_of(&event);
            report.append(cause.as_str());
            Err(report)
        },
        (event, _) => {
            let mut report = context_of(&event);
            report.append("unexpected reply");
            Err(report)
        },
    }
}

/// The words that name the operation of `event` in a report of its failure.
fn context_of(event: &Event) -> (context: String)
    ensures
        context@ == failure_context(event.deep_view()),
{
    match event {
        Event::DeleteAllEmails(_) => String::from_str("Could not delete all emails: "),
        Event::DeleteEmail(_, _) => String::from_str("Could not delete email: "),
        Event::FetchEmails(_) => String::from_str("Could not fetch emails: "),
        Event::FetchMoreEmails(_, _) => String::from_str("Could not fetch emails: "),
        Event::FetchEmail(_) => String::from_str("Could not fetch email: "),
        Event::FetchDomanins => String::from_str("Could not fetch domains: "),
        Event::CountEmails(_) => String::from_str("Could not fetch count: "),
        Event::GetAttachments(_) => String::from_str("Could not fetch attachments: "),
    }
}

/// The worker as its decisions see it.
pub struct WorkerState {
    /// The commands received and not yet begun, oldest first.
    pub pending: Seq<EventSpec>,
    /// The command whose network operation is outstanding, if there is one.
    pub in_flight: Option<EventSpec>,
    /// The responses produced and not yet handed on, oldest first.
    pub responses: Seq<EventResponseSpec>,
}

impl WorkerState {
    /// The state after `event` was received.
    pub open spec fn accept(self, event: EventSpec) -> WorkerState {
        WorkerState { pending: self.pending.push(event), ..self }
    }

    /// Whether the worker may begin a command: none is outstanding and one
    /// is waiting.
    pub open spec fn ready(self) -> bool {
        self.in_flight is None && self.pending.len() > 0
    }

    /// The state after the worker looked for its next command.
    pub open spec fn listen(self) -> WorkerState {
        if self.ready() {
            WorkerState {
                pending: self.pending.drop_first(),
                in_flight: Some(self.pending[0]),
                ..self
            }
        } else {
            self
        }
    }

    /// The network operation that the worker begins when it looks for its
    /// next command.
    pub open spec fn begun(self) -> Option<RequestSpec> {
        if self.ready() {
            Some(dispatch(self.pending[0]))
        } else {
            None
        }
    }

    /// The state after the outstanding operation ended with `reply`.
    pub open spec fn complete(self, reply: ReplySpec) -> WorkerState {
        match self.in_flight {
            Some(event) => WorkerState {
                in_flight: None,
                responses: match response_to(event, reply) {
                    Some(response) => self.responses.push(response),
                    None => self.responses,
                },
                ..self
            },
            None => self,
        }
    }

    /// The report to log when the outstanding operation ends with `reply`.
    pub open spec fn report(self, reply: ReplySpec) -> Option<Seq<char>> {
        match self.in_flight {
            Some(event) => match response_to(event, reply) {
                Some(_) => None,
                None => Some(failure_report(event, reply)),
            },
            None => None,
        }
    }

    /// The state after the oldest response was handed on.
    pub open spec fn take_response(self) -> WorkerState {
        if self.responses.len() > 0 {
            WorkerState { responses: self.responses.drop_first(), ..self }
        } else {
            self
        }
    }
}

/// The worker: it takes the commands in the order they arrived, keeps at most
/// one network operation outstanding, and turns each reply into a response or
/// into a report of failure.
///
/// The worker performs no operation itself. Whoever runs it hands it each
/// command as it arrives ([`Handler::accept`]), asks it what to do next
/// ([`Handler::listen`]), performs that operation, hands back the reply
/// ([`Handler::complete`]) and sends on the responses
/// ([`Handler::take_response`]).
pub struct Handler {
    event_stream: Queue<Event>,
    response_stream: Queue<EventResponse>,
    current: Option<Event>,
}

impl View for Handler {
    type V = WorkerState;

    closed spec fn view(&self) -> WorkerState {
        WorkerState {
            pending: self.event_stream.deep_view(),
            in_flight: self.current.deep_view(),
            responses: self.response_stream.deep_view(),
        }
    }
}

impl Handler {
    /// A worker with nothing outstanding, over the commands that
    /// `event_stream` holds and the responses that `response_stream` holds.
    pub fn new(event_stream: Queue<Event>, response_stream: Queue<EventResponse>) -> (handler: Self)
        ensures
            handler@ == (WorkerState {
                pending: event_stream.deep_view(),
                in_flight: None,
                responses: response_stream.deep_view(),
            }),
    {
        Handler { event_stream, response_stream, current: None }
    }

    /// Receives a command: it waits behind those received before it.
    pub fn accept(&mut self, event: Event)
        ensures
            final(self)@ == old(self)@.accept(event.deep_view()),
    {
        self.event_stream.send(event);
        assert(self.event_stream.deep_view() =~= old(self).event_stream.deep_view().push(
            event.deep_view(),
        ));
    }

    /// Looks for the next command. Where no operation is outstanding and a
    /// command waits, the oldest one becomes the outstanding command and its
    /// network operation is returned, to be performed now. Otherwise nothing
    /// changes and nothing is to be performed.
    pub fn listen(&mut self) -> (request: Option<Request>)
        ensures
            final(self)@ == old(self)@.listen(),
            request.deep_view() == old(self)@.begun(),
    {
        if self.current.is_some() {
            return None;
        }
        match self.event_stream.try_recv() {
            Some(event) => {
                assert(self.event_stream.deep_view() =~= old(
                    self,
                ).event_stream.deep_view().drop_first());
                let request = request_for(&event);
                self.current = Some(event);
                Some(request)
            },
            None => None,
        }
    }

    /// Ends the outstanding operation with the reply of the network. Where
    /// the reply is the success of that operation, the command's response
    /// joins the responses to hand on; otherwise no response is produced and
    /// the report to log is returned. Either way no operation is outstanding
    /// afterwards. Without an outstanding operation the reply is dropped.
    pub fn complete(&mut self, reply: Reply) -> (report: Option<String>)
        ensures
            final(self)@ == old(self)@.complete(reply.deep_view()),
            report.deep_view() == old(self)@.report(reply.deep_view()),
    {
        match self.current.take() {
            Some(event) => match respond(event, reply) {
                Ok(response) => {
                    self.response_stream.send(response);
                    assert(self.response_stream.deep_view() =~= old(
                        self,
                    ).response_stream.deep_view().push(response.deep_view()));
                    None
                },
                Err(report) => Some(report),
            },
            None => None,
        }
    }

    /// Takes the oldest response that was produced and not yet handed on.
    pub fn take_response(&mut self) -> (response: Option<EventResponse>)
        ensures
            final(self)@ == old(self)@.take_response(),
            response.deep_view() == (if old(self)@.responses.len() > 0 {
                Some(old(self)@.responses[0])
            } else {
                None
            }),
    {
        let response = self.response_stream.try_recv();
        assert(response is Some ==> self.response_stream.deep_view() =~= old(
            self,
        ).response_stream.deep_view().drop_first());
        response
    }

    /// Whether no operation is outstanding.
    pub fn is_idle(&self) -> (idle: bool)
        ensures
            idle == (self@.in_flight is None),
    {
        self.current.is_none()
    }
}

} // verus!
