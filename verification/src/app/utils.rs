//! The mailbox address, the sending of commands and the merging of responses.

use crate::app::is_generated_name;
use crate::app::ResponseError;
use crate::app::TempMailApp;
use crate::date::date_line;
use crate::date::month_text;
use crate::date::push_decimal;
use crate::date::push_signed_decimal;
use crate::date::weekday_text;
use crate::date::LocalTime;
use crate::event_handler::Event;
use crate::event_handler::EventResponse;
use crate::event_handler::EventResponseSpec;
use rand::Rng;
use vstd::prelude::*;
use vstd::string::StringExecFns;

verus! {

impl TempMailApp {
    /// A fresh mailbox name of `len` characters.
    ///
    /// The name is drawn by `rand::Rng::sample_iter` from the distribution
    /// `rand::distr::Alphanumeric`, on the generator that `rand::rng` hands
    /// out. Every draw of that distribution is one byte out of `A` to `Z`,
    /// `a` to `z` and `0` to `9`, and the iterator never ends, so the name
    /// has exactly `len` characters, each an ASCII letter or digit. Which
    /// ones is left open: two calls may differ.
    #[verifier::external_body]
    pub(crate) fn gen_random_name(len: usize) -> (name: String)
        ensures
            is_generated_name(name@, len as nat),
    {
        rand::rng().sample_iter(rand::distr::Alphanumeric).take(len).map(char::from).collect()
    }

    /// The line that tells when a message arrived, as in
    /// `Mon, January 5, 2026 at 9:7 PM`.
    pub fn get_date(received_at: &LocalTime) -> (date: String)
        ensures
            date@ == date_line(received_at@),
    {
        let mut date = weekday_text(received_at.weekday());
        date.append(", ");
        let month = month_text(received_at.month());
        date.append(month.as_str());
        date.append(" ");
        push_decimal(&mut date, received_at.day() as u64);
        date.append(", ");
        push_signed_decimal(&mut date, received_at.year());
        date.append(" at ");
        let hour: u8 = received_at.hour();
        let hour12: u8 = if hour % 12 == 0 {
            12
        } else {
            hour % 12
        };
        push_decimal(&mut date, hour12 as u64);
        date.append(":");
        push_decimal(&mut date, received_at.minute() as u64);
        date.append(" ");
        if hour >= 12 {
            date.append("PM");
        } else {
            date.append("AM");
        }
        assert(date@ =~= date_line(received_at@));
        date
    }

    /// The address of the active mailbox.
    pub fn email(&self) -> (address: String)
        ensures
            address@ == self@.address(),
    {
        let mut address = self.name.clone();
        address.append("@");
        address.append(self.domain.as_str());
        proof {
            reveal_strlit("@");
            assert("@"@ =~= seq!['@']);
        }
        address
    }

    /// Issues `event`: it waits behind the commands issued before it, and a
    /// command is believed outstanding from now on.
    pub fn send_event(&mut self, event: Event)
        ensures
            final(self)@ == old(self)@.send_event(event.deep_view()),
            old(self)@.wf() ==> final(self)@.wf(),
    {
        self.fetching = true;
        self.events.send(event);
        assert(self.events.deep_view() =~= old(self).events.deep_view().push(event.deep_view()));
    }

    /// Takes the oldest command that was issued and not yet handed to the
    /// worker.
    pub fn next_event(&mut self) -> (event: Option<Event>)
        ensures
            final(self)@ == old(self)@.next_event(),
            old(self)@.wf() ==> final(self)@.wf(),
            event.deep_view() == (if old(self)@.events.len() > 0 {
                Some(old(self)@.events[0])
            } else {
                None
            }),
    {
        let event = self.events.try_recv();
        assert(event is Some ==> self.events.deep_view() =~= old(
            self,
        ).events.deep_view().drop_first());
        event
    }

    /// Takes in a response of the worker: it waits behind those delivered
    /// before it until a poll merges it.
    pub fn deliver(&mut self, response: EventResponse)
        ensures
            final(self)@ == old(self)@.deliver(response.deep_view()),
            old(self)@.wf() ==> final(self)@.wf(),
    {
        self.responses.send(response);
        assert(self.responses.deep_view() =~= old(self).responses.deep_view().push(
            response.deep_view(),
        ));
    }

    /// Polls once for a response, without waiting. Where none was
    /// delivered, nothing changes. Otherwise the oldest one is taken, no
    /// command is believed outstanding any more, and that one response is
    /// merged: a list of domains or a first page replaces what is shown, a
    /// further page is appended, a message is opened, a count is noted, a
    /// deletion takes the message at the reported position out of the list.
    ///
    /// A deletion at a position that the list does not have is an error:
    /// the response is used up and nothing is merged.
    pub fn handle_responses(&mut self) -> (outcome: Result<(), ResponseError>)
        ensures
            final(self)@ == old(self)@.handle_responses(),
            old(self)@.wf() ==> final(self)@.wf(),
            outcome is Err <==> old(self)@.responses.len() > 0 && old(self)@.rejects(
                old(self)@.responses[0],
            ),
            outcome matches Err(ResponseError::IndexOutOfBounds { index, len }) ==> old(
                self,
            )@.responses[0] == EventResponseSpec::EmailDeleted(index as nat) && len == old(
                self,
            )@.emails.len(),
    {
        match self.responses.try_recv() {
            Some(response) => {
                assert(self.responses.deep_view() =~= old(self).responses.deep_view().drop_first());
                self.fetching = false;
                match response {
                    EventResponse::Domains(domains) => {
                        self.domains = domains;
                        Ok(())
                    },
                    EventResponse::Emails(emails) => {
                        self.emails = emails;
                        Ok(())
                    },
                    EventResponse::Email(email) => {
                        self.viewed_email = Some(email);
                        Ok(())
                    },
                    EventResponse::Count(count) => {
                        self.email_count = count;
                        Ok(())
                    },
                    EventResponse::EmailsMore(emails) => {
                        let mut emails = emails;
                        self.emails.append(&mut emails);
                        assert(self.emails.deep_view() =~= old(self).emails.deep_view()
                            + response.deep_view()->EmailsMore_0);
                        Ok(())
                    },
                    EventResponse::EmailsDeleted => {
                        self.emails.clear();
                        assert(self.emails.deep_view() =~= Seq::empty());
                        Ok(())
                    },
                    EventResponse::Attachments(attachments) => {
                        self.attachments = Some(attachments);
                        Ok(())
                    },
                    EventResponse::EmailDeleted(index) => {
                        let len = self.emails.len();
                        if index < len {
                            self.emails.remove(index);
                            assert(self.emails.deep_view() =~= old(self).emails.deep_view().remove(
                                index as int,
                            ));
                            Ok(())
                        } else {
                            Err(ResponseError::IndexOutOfBounds { index, len })
                        }
                    },
                }
            },
            None => Ok(()),
        }
    }
}

} // verus!
