//! What the interface offers its user: what to show, which actions to offer,
//! and what each action does.

use crate::app::is_generated_name;
use crate::app::AppState;
use crate::app::Screen;
use crate::app::TempMailApp;
use crate::app::NAME_LENGTH;
use crate::event_handler::Event;
use vstd::prelude::*;

verus! {

impl TempMailApp {
    /// What to show: the progress sign while a command is believed
    /// outstanding, else the open message where there is one, else the list.
    pub fn screen(&self) -> (screen: Screen)
        ensures
            screen == self@.screen(),
    {
        if self.fetching {
            Screen::Busy
        } else if self.viewed_email.is_some() {
            Screen::Detail
        } else {
            Screen::List
        }
    }

    /// Whether the list offers a further page: it shows messages, and the
    /// service counted more than it shows.
    pub fn offers_more(&self) -> (offered: bool)
        ensures
            offered == self@.offers_more(),
    {
        self.emails.len() > 0 && self.email_count as usize > self.emails.len()
    }

    /// Whether the deletion of all messages is offered: the mailbox has a
    /// name and the list shows messages.
    pub fn offers_delete_all(&self) -> (offered: bool)
        ensures
            offered == self@.offers_delete_all(),
    {
        !self.name.as_str().is_empty() && self.emails.len() > 0
    }

    /// Whether a fresh listing is offered: no message is open and the
    /// mailbox has a name.
    pub fn offers_fetch(&self) -> (offered: bool)
        ensures
            offered == self@.offers_fetch(),
    {
        self.viewed_email.is_none() && !self.name.as_str().is_empty()
    }

    /// Asks for the first page of the mailbox at `address`.
    pub fn request_list(&mut self, address: String)
        ensures
            final(self)@ == old(self)@.request_list(address@),
            old(self)@.wf() ==> final(self)@.wf(),
    {
        self.send_event(Event::FetchEmails(address));
    }

    /// Asks for a further page of the mailbox at `address`. The command
    /// carries the current offset, and the offset advances by one whether or
    /// not the page ever arrives: each call asks for another page.
    pub fn request_more(&mut self, address: String)
        requires
            old(self)@.current_offset < u32::MAX,
        ensures
            final(self)@ == old(self)@.request_more(address@),
            old(self)@.wf() ==> final(self)@.wf(),
    {
        self.send_event(Event::FetchMoreEmails(address, self.current_offset));
        self.current_offset += 1;
    }

    /// Asks for the message `id` in full.
    pub fn request_detail(&mut self, id: String)
        ensures
            final(self)@ == old(self)@.request_detail(id@),
            old(self)@.wf() ==> final(self)@.wf(),
    {
        self.send_event(Event::FetchEmail(id));
    }

    /// Asks for the number of messages in the mailbox at `address`.
    pub fn request_count(&mut self, address: String)
        ensures
            final(self)@ == old(self)@.request_count(address@),
            old(self)@.wf() ==> final(self)@.wf(),
    {
        self.send_event(Event::CountEmails(address));
    }

    /// Asks for the deletion of the message `id`, which the list shows at
    /// `index`. The position travels with the command, because the deletion
    /// is reported back by position.
    pub fn request_delete(&mut self, id: String, index: usize)
        ensures
            final(self)@ == old(self)@.request_delete(id@, index as nat),
            old(self)@.wf() ==> final(self)@.wf(),
    {
        self.send_event(Event::DeleteEmail(id, index));
    }

    /// Asks for the deletion of all messages in the mailbox at `address`,
    /// and behind it for a fresh first page of the same mailbox.
    pub fn request_delete_all(&mut self, address: String)
        ensures
            final(self)@ == old(self)@.request_delete_all(address@),
            old(self)@.wf() ==> final(self)@.wf(),
    {
        let again = address.clone();
        self.send_event(Event::DeleteAllEmails(address));
        self.send_event(Event::FetchEmails(again));
    }

    /// Asks for the attachments of the message `id`.
    pub fn request_attachments(&mut self, id: String)
        ensures
            final(self)@ == old(self)@.request_attachments(id@),
            old(self)@.wf() ==> final(self)@.wf(),
    {
        self.send_event(Event::GetAttachments(id));
    }

    /// Closes the open message: the list is shown again, and the attachments
    /// fetched for the message are forgotten.
    pub fn close_email(&mut self)
        ensures
            final(self)@ == old(self)@.close_email(),
            old(self)@.wf() ==> final(self)@.wf(),
    {
        self.viewed_email = None;
        self.attachments = None;
    }

    /// The position of the window that shows the picture `name` at
    /// `locator`: the first such window, if there is one.
    fn image_position(&self, locator: &String, name: &String) -> (position: Option<usize>)
        ensures
            match position {
                Some(index) => {
                    &&& index < self@.images.len()
                    &&& self@.images[index as int] == (locator@, name@)
                    &&& forall|j: int| 0 <= j < index ==> self@.images[j] != (locator@, name@)
                },
                None => !self@.images.contains((locator@, name@)),
            },
    {
        let mut index: usize = 0;
        while index < self.images.len()
            invariant
                index <= self.images.len(),
                forall|j: int| 0 <= j < index ==> self@.images[j] != (locator@, name@),
            decreases self.images.len() - index,
        {
            if self.images[index].0 == *locator && self.images[index].1 == *name {
                return Some(index);
            }
            index += 1;
        }
        None
    }

    /// Opens a window for the picture `name` at `locator`, unless one is
    /// open for this very pair already.
    pub fn open_image(&mut self, locator: String, name: String)
        ensures
            final(self)@ == old(self)@.open_image(locator@, name@),
            old(self)@.wf() ==> final(self)@.wf(),
    {
        if self.image_position(&locator, &name).is_none() {
            self.images.push((locator, name));
            assert(self.images.deep_view() =~= old(self).images.deep_view().push(
                (locator@, name@),
            ));
        }
    }

    /// Closes the window of the picture `name` at `locator`, wherever in the
    /// row of windows it stands. Afterwards no window shows this pair.
    pub fn close_image(&mut self, locator: &String, name: &String)
        ensures
            final(self)@ == old(self)@.close_image(locator@, name@),
            old(self)@.wf() ==> final(self)@.wf(),
            old(self)@.wf() ==> !final(self)@.images.contains((locator@, name@)),
    {
        proof {
            old(self)@.images.index_of_first_ensures((locator@, name@));
        }
        match self.image_position(locator, name) {
            Some(index) => {
                self.images.remove(index);
                assert(self.images.deep_view() =~= old(self).images.deep_view().remove(
                    index as int,
                ));
            },
            None => {},
        }
    }

    /// Gives the mailbox the name `name`.
    pub fn set_name(&mut self, name: String)
        ensures
            final(self)@ == (AppState { name: name@, ..old(self)@ }),
            old(self)@.wf() ==> final(self)@.wf(),
    {
        self.name = name;
    }

    /// Puts the mailbox at the domain `domain`.
    pub fn set_domain(&mut self, domain: String)
        ensures
            final(self)@ == (AppState { domain: domain@, ..old(self)@ }),
            old(self)@.wf() ==> final(self)@.wf(),
    {
        self.domain = domain;
    }

    /// Gives the mailbox a freshly generated name of [`NAME_LENGTH`] letters
    /// and digits.
    pub fn regenerate_name(&mut self)
        ensures
            final(self)@ == (AppState { name: final(self)@.name, ..old(self)@ }),
            is_generated_name(final(self)@.name, NAME_LENGTH as nat),
            old(self)@.wf() ==> final(self)@.wf(),
    {
        self.name = Self::gen_random_name(NAME_LENGTH);
    }
}

} // verus!
