//! The interface's side of the mediator: its state, the commands it issues
//! and the responses it merges.

use crate::event_handler::Event;
use crate::event_handler::EventResponse;
use crate::event_handler::EventResponseSpec;
use crate::event_handler::EventSpec;
use crate::mail::Attachment;
use crate::mail::AttachmentSpec;
use crate::mail::Email;
use crate::mail::EmailSpec;
use crate::queue::Queue;
use vstd::prelude::*;
use vstd::string::StringExecFns;

pub mod ui;
pub mod utils;

verus! {

/// The length of a generated mailbox name.
pub const NAME_LENGTH: usize = 10;

/// The domain of a mailbox for which none was chosen.
pub open spec fn default_domain() -> Seq<char> {
    "vwh.sh"@
}

/// The interface's state as its rules see it.
pub struct AppState {
    /// The part of the mailbox address before the `@`.
    pub name: Seq<char>,
    /// The part of the mailbox address behind the `@`.
    pub domain: Seq<char>,
    /// The domains that can be chosen.
    pub domains: Seq<Seq<char>>,
    /// The messages shown, in the order shown.
    pub emails: Seq<EmailSpec>,
    /// Whether a command is believed outstanding.
    pub fetching: bool,
    /// The message open in full, if one is.
    pub viewed_email: Option<EmailSpec>,
    /// The number of messages that the service reported for the mailbox.
    pub email_count: nat,
    /// The offset that the next further page is asked from.
    pub current_offset: nat,
    /// The attachments of the message in view, once they were fetched.
    pub attachments: Option<Seq<AttachmentSpec>>,
    /// The open picture windows, each the picture's location and its name.
    pub images: Seq<(Seq<char>, Seq<char>)>,
    /// The commands issued and not yet handed to the worker, oldest first.
    pub events: Seq<EventSpec>,
    /// The responses delivered and not yet merged, oldest first.
    pub responses: Seq<EventResponseSpec>,
}

/// What the interface shows.
#[derive(Clone, Copy, Debug, PartialEq, Eq)]
pub enum Screen {
    /// A command is believed outstanding: only a progress sign is shown.
    Busy,
    /// One message is open in full.
    Detail,
    /// The list of messages.
    List,
}

/// Why a response could not be merged.
#[derive(Clone, Copy, Debug, PartialEq, Eq)]
pub enum ResponseError {
    /// The response reports the deletion of the message at `index`, and the
    /// list shown holds only `len` messages.
    IndexOutOfBounds { index: usize, len: usize },
}

/// Whether `c` is an ASCII letter or digit.
pub open spec fn is_alphanumeric(c: char) -> bool {
    ('a' <= c && c <= 'z') || ('A' <= c && c <= 'Z') || ('0' <= c && c <= '9')
}

/// Whether `name` can be a generated mailbox name of `len` characters: it
/// has that length and holds ASCII letters and digits only.
pub open spec fn is_generated_name(name: Seq<char>, len: nat) -> bool {
    name.len() == len && forall|i: int| 0 <= i < name.len() ==> is_alphanumeric(#[trigger] name[i])
}

impl AppState {
    /// What every state of the interface keeps: no picture is open twice.
    pub open spec fn wf(self) -> bool {
        self.images.no_duplicates()
    }

    /// The state after `event` was issued: it waits behind the commands
    /// issued before it, and a command is believed outstanding.
    pub open spec fn send_event(self, event: EventSpec) -> AppState {
        AppState { fetching: true, events: self.events.push(event), ..self }
    }

    /// The state after the oldest issued command was handed to the worker.
    pub open spec fn next_event(self) -> AppState {
        if self.events.len() > 0 {
            AppState { events: self.events.drop_first(), ..self }
        } else {
            self
        }
    }

    /// The state after `response` arrived from the worker.
    pub open spec fn deliver(self, response: EventResponseSpec) -> AppState {
        AppState { responses: self.responses.push(response), ..self }
    }

    /// Whether `response` cannot be merged: it reports the deletion of a
    /// message at a position that the list shown does not have.
    pub open spec fn rejects(self, response: EventResponseSpec) -> bool {
        response matches EventResponseSpec::EmailDeleted(index) && index >= self.emails.len()
    }

    /// The state after `response` was merged. A response that is rejected
    /// changes nothing.
    pub open spec fn merge(self, response: EventResponseSpec) -> AppState {
        match response {
            EventResponseSpec::Domains(domains) => AppState { domains, ..self },
            EventResponseSpec::Emails(emails) => AppState { emails, ..self },
            EventResponseSpec::EmailsMore(emails) => AppState {
                emails: self.emails + emails,
                ..self
            },
            EventResponseSpec::Email(email) => AppState { viewed_email: Some(email), ..self },
            EventResponseSpec::Count(count) => AppState { email_count: count, ..self },
            EventResponseSpec::EmailsDeleted => AppState { emails: Seq::empty(), ..self },
            EventResponseSpec::EmailDeleted(index) => if index < self.emails.len() {
                AppState { emails: self.emails.remove(index as int), ..self }
            } else {
                self
            },
            EventResponseSpec::Attachments(attachments) => AppState {
                attachments: Some(attachments),
                ..self
            },
        }
    }

    /// The state after one poll for responses. Where none was delivered,
    /// nothing changes. Otherwise the oldest one is taken, no command is
    /// believed outstanding any more, and that one response is merged.
    pub open spec fn handle_responses(self) -> AppState {
        if self.responses.len() > 0 {
            (AppState {
                fetching: false,
                responses: self.responses.drop_first(),
                ..self
            }).merge(self.responses[0])
        } else {
            self
        }
    }

    /// What is shown: the progress sign while a command is believed
    /// outstanding, else the open message where there is one, else the list.
    pub open spec fn screen(self) -> Screen {
        if self.fetching {
            Screen::Busy
        } else if self.viewed_email is Some {
            Screen::Detail
        } else {
            Screen::List
        }
    }

    /// Whether the list offers a further page: it shows messages, and the
    /// service counted more than it shows.
    pub open spec fn offers_more(self) -> bool {
        self.emails.len() > 0 && self.email_count > self.emails.len()
    }

    /// Whether the deletion of all messages is offered: the mailbox has a
    /// name and the list shows messages.
    pub open spec fn offers_delete_all(self) -> bool {
        self.name.len() > 0 && self.emails.len() > 0
    }

    /// Whether a fresh listing is offered: no message is open and the
    /// mailbox has a name.
    pub open spec fn offers_fetch(self) -> bool {
        self.viewed_email is None && self.name.len() > 0
    }

    /// The state after the first page of `address` was asked for.
    pub open spec fn request_list(self, address: Seq<char>) -> AppState {
        self.send_event(EventSpec::FetchEmails(address))
    }

    /// The state after a further page of `address` was asked for: the
    /// command carries the current offset, and the offset advances by one.
    pub open spec fn request_more(self, address: Seq<char>) -> AppState {
        AppState {
            current_offset: self.current_offset + 1,
            ..self.send_event(EventSpec::FetchMoreEmails(address, self.current_offset))
        }
    }

    /// The state after the message `id` was asked for in full.
    pub open spec fn request_detail(self, id: Seq<char>) -> AppState {
        self.send_event(EventSpec::FetchEmail(id))
    }

    /// The state after the number of messages of `address` was asked for.
    pub open spec fn request_count(self, address: Seq<char>) -> AppState {
        self.send_event(EventSpec::CountEmails(address))
    }

    /// The state after the deletion of the message `id`, shown at `index`,
    /// was asked for.
    pub open spec fn request_delete(self, id: Seq<char>, index: nat) -> AppState {
        self.send_event(EventSpec::DeleteEmail(id, index))
    }

    /// The state after the deletion of all messages of `address` was asked
    /// for: two commands are issued, the deletion and then a fresh listing.
    pub open spec fn request_delete_all(self, address: Seq<char>) -> AppState {
        self.send_event(EventSpec::DeleteAllEmails(address)).send_event(
            EventSpec::FetchEmails(address),
        )
    }

    /// The state after the attachments of the message `id` were asked for.
    pub open spec fn request_attachments(self, id: Seq<char>) -> AppState {
        self.send_event(EventSpec::GetAttachments(id))
    }

    /// The state after the open message was closed: the list is shown
    /// again, and the attachments fetched for the message are forgotten.
    pub open spec fn close_email(self) -> AppState {
        AppState { viewed_email: None, attachments: None, ..self }
    }

    /// The state after a window was asked for the picture `name` at
    /// `locator`: it is opened unless it is open already.
    pub open spec fn open_image(self, locator: Seq<char>, name: Seq<char>) -> AppState {
        if self.images.contains((locator, name)) {
            self
        } else {
            AppState { images: self.images.push((locator, name)), ..self }
        }
    }

    /// The state after the window of the picture `name` at `locator` was
    /// closed, wherever in the row of windows it stood.
    pub open spec fn close_image(self, locator: Seq<char>, name: Seq<char>) -> AppState {
        AppState { images: self.images.remove_value((locator, name)), ..self }
    }

    /// The address of the active mailbox: name, `@`, domain.
    pub open spec fn address(self) -> Seq<char> {
        self.name + seq!['@'] + self.domain
    }

    /// The state in which the interface starts for the mailbox `name` at
    /// `domain`: nothing is shown yet, and the first page of the mailbox and
    /// the list of domains are asked for, behind the commands in `events`.
    pub open spec fn initial(
        events: Seq<EventSpec>,
        responses: Seq<EventResponseSpec>,
        name: Seq<char>,
        domain: Seq<char>,
    ) -> AppState {
        AppState {
            name,
            domain,
            domains: Seq::empty(),
            emails: Seq::empty(),
            fetching: true,
            viewed_email: None,
            email_count: 0,
            current_offset: 0,
            attachments: None,
            images: Seq::empty(),
            events: events.push(EventSpec::FetchEmails(name + seq!['@'] + domain)).push(
                EventSpec::FetchDomanins,
            ),
            responses,
        }
    }
}

/// The interface's side of the mediator.
///
/// It issues commands into `events` and merges the responses delivered into
/// `responses`, at most one per redraw. Whoever embeds it carries the
/// commands to the worker ([`TempMailApp::next_event`]) and the worker's
/// responses back ([`TempMailApp::deliver`]).
pub struct TempMailApp {
    domain: String,
    domains: Vec<String>,
    name: String,
    emails: Vec<Email>,
    fetching: bool,
    viewed_email: Option<Email>,
    email_count: u32,
    current_offset: u32,
    attachments: Option<Vec<Attachment>>,
    images: Vec<(String, String)>,
    events: Queue<Event>,
    responses: Queue<EventResponse>,
}

impl View for TempMailApp {
    type V = AppState;

    closed spec fn view(&self) -> AppState {
        AppState {
            name: self.name@,
            domain: self.domain@,
            domains: self.domains.deep_view(),
            emails: self.emails.deep_view(),
            fetching: self.fetching,
            viewed_email: self.viewed_email.deep_view(),
            email_count: self.email_count as nat,
            current_offset: self.current_offset as nat,
            attachments: self.attachments.deep_view(),
            images: self.images.deep_view(),
            events: self.events.deep_view(),
            responses: self.responses.deep_view(),
        }
    }
}

impl TempMailApp {
    /// The interface for the mailbox given by `name` and `domain`, with
    /// nothing shown yet. Where `name` is absent a name of [`NAME_LENGTH`]
    /// letters and digits is generated, where `domain` is absent the mailbox
    /// is at [`default_domain`]. The interface asks at once for the first
    /// page of the mailbox and for the list of domains, behind whatever `tx`
    /// already holds.
    pub fn new(
        tx: Queue<Event>,
        rx: Queue<EventResponse>,
        name: Option<String>,
        domain: Option<String>,
    ) -> (app: Self)
        ensures
            app@ == AppState::initial(
                tx.deep_view(),
                rx.deep_view(),
                app@.name,
                match domain {
                    Some(domain) => domain@,
                    None => default_domain(),
                },
            ),
            match name {
                Some(name) => app@.name == name@,
                None => is_generated_name(app@.name, NAME_LENGTH as nat),
            },
            app@.wf(),
    {
        let name = match name {
            Some(name) => name,
            None => Self::gen_random_name(NAME_LENGTH),
        };
        let domain = match domain {
            Some(domain) => domain,
            None => String::from_str("vwh.sh"),
        };
        Self::with_identity(tx, rx, name, domain)
    }

    /// The interface for the mailbox `name` at `domain`, with nothing shown
    /// yet. It asks at once for the first page of the mailbox and for the
    /// list of domains, behind whatever `tx` already holds.
    pub fn with_identity(
        tx: Queue<Event>,
        rx: Queue<EventResponse>,
        name: String,
        domain: String,
    ) -> (app: Self)
        ensures
            app@ == AppState::initial(tx.deep_view(), rx.deep_view(), name@, domain@),
            app@.wf(),
    {
        let mut app = TempMailApp {
            domain,
            domains: Vec::new(),
            name,
            emails: Vec::new(),
            fetching: true,
            viewed_email: None,
            email_count: 0,
            current_offset: 0,
            attachments: None,
            images: Vec::new(),
            events: tx,
            responses: rx,
        };
        let address = app.email();
        app.events.send(Event::FetchEmails(address));
        app.events.send(Event::FetchDomanins);
        proof {
            assert(app.domains.deep_view() =~= Seq::empty());
            assert(app.emails.deep_view() =~= Seq::empty());
            assert(app.images.deep_view() =~= Seq::empty());
            assert(app.events.deep_view() =~= tx.deep_view().push(
                EventSpec::FetchEmails(address@),
            ).push(EventSpec::FetchDomanins));
        }
        app
    }

    /// The part of the mailbox address before the `@`.
    pub fn name(&self) -> (name: &String)
        ensures
            name@ == self@.name,
    {
        &self.name
    }

    /// The part of the mailbox address behind the `@`.
    pub fn domain(&self) -> (domain: &String)
        ensures
            domain@ == self@.domain,
    {
        &self.domain
    }

    /// The domains that can be chosen.
    pub fn domains(&self) -> (domains: &Vec<String>)
        ensures
            domains.deep_view() == self@.domains,
    {
        &self.domains
    }

    /// The messages shown, in the order shown.
    pub fn emails(&self) -> (emails: &Vec<Email>)
        ensures
            emails.deep_view() == self@.emails,
    {
        &self.emails
    }

    /// Whether a command is believed outstanding.
    pub fn is_fetching(&self) -> (fetching: bool)
        ensures
            fetching == self@.fetching,
    {
        self.fetching
    }

    /// The message open in full, if one is.
    pub fn viewed_email(&self) -> (email: Option<&Email>)
        ensures
            email.deep_view() == self@.viewed_email,
    {
        self.viewed_email.as_ref()
    }

    /// The number of messages that the service reported for the mailbox.
    pub fn email_count(&self) -> (count: u32)
        ensures
            count == self@.email_count,
    {
        self.email_count
    }

    /// The offset that the next further page is asked from.
    pub fn current_offset(&self) -> (offset: u32)
        ensures
            offset == self@.current_offset,
    {
        self.current_offset
    }

    /// The attachments of the message in view, once they were fetched.
    pub fn attachments(&self) -> (attachments: Option<&Vec<Attachment>>)
        ensures
            attachments.deep_view() == self@.attachments,
    {
        self.attachments.as_ref()
    }

    /// The open picture windows, each the picture's location and its name.
    pub fn images(&self) -> (images: &Vec<(String, String)>)
        ensures
            images.deep_view() == self@.images,
    {
        &self.images
    }
}

} // verus!
