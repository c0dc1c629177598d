//! Messages and attachments as the mail service reports them.

use vstd::prelude::*;
use vstd::string::StrSliceExecFns;
use vstd::string::StringExecFns;

verus! {

/// The part of a file name behind its last dot, or the whole name where it
/// holds no dot.
pub open spec fn extension(name: Seq<char>) -> Seq<char>
    decreases name.len(),
{
    if name.len() == 0 {
        name
    } else if name.last() == '.' {
        Seq::empty()
    } else {
        extension(name.drop_last()).push(name.last())
    }
}

/// Whether a file of this name is shown as a picture: its extension is
/// `jpg` or `png`, in lower case.
pub open spec fn is_image_name(name: Seq<char>) -> bool {
    extension(name) == seq!['j', 'p', 'g'] || extension(name) == seq!['p', 'n', 'g']
}

/// Where the attachment with identifier `id` can be fetched.
pub open spec fn download_location(id: Seq<char>) -> Seq<char> {
    "https://api.barid.site/attachments/"@ + id
}

/// The extension is empty exactly where the name is empty or ends in a dot.
proof fn lemma_extension_empty(name: Seq<char>)
    ensures
        extension(name).len() == 0 <==> (name.len() == 0 || name.last() == '.'),
{
}

/// The extension is never longer than the name.
proof fn lemma_extension_short(name: Seq<char>)
    ensures
        extension(name).len() <= name.len(),
    decreases name.len(),
{
    if name.len() > 0 && name.last() != '.' {
        lemma_extension_short(name.drop_last());
    }
}

/// A non-empty extension ends as the name does, and a name of which it is
/// the whole has no dot at its end.
proof fn lemma_extension_end(name: Seq<char>)
    ensures
        extension(name).len() >= 3 ==> name.len() >= 3 && extension(name).skip(
            extension(name).len() - 3,
        ) == name.skip(name.len() - 3),
    decreases name.len(),
{
    lemma_extension_short(name);
    let e = extension(name);
    if e.len() >= 3 {
        let n = name.len() as int;
        let a = name.take(n - 1);
        let b = name.take(n - 2);
        let c = name.take(n - 3);
        assert(name.drop_last() == a);
        assert(e == extension(a).push(name.last()));
        lemma_extension_short(a);
        assert(a.drop_last() == b);
        assert(extension(a) == extension(b).push(a.last()));
        lemma_extension_short(b);
        assert(b.drop_last() == c);
        assert(extension(b) == extension(c).push(b.last()));
        assert(e.skip(e.len() - 3) =~= name.skip(n - 3));
    }
}

/// A name that ends in three characters other than the dot has them as the
/// end of its extension.
proof fn lemma_extension_tail(name: Seq<char>)
    requires
        name.len() >= 3,
        name[name.len() - 3] != '.',
        name[name.len() - 2] != '.',
        name[name.len() - 1] != '.',
    ensures
        extension(name) == extension(name.take(name.len() - 3)) + name.skip(name.len() - 3),
{
    let n = name.len() as int;
    let a = name.take(n - 1);
    let b = name.take(n - 2);
    let c = name.take(n - 3);
    assert(name.drop_last() == a);
    assert(a.drop_last() == b);
    assert(b.drop_last() == c);
    assert(extension(a) == extension(b).push(a.last()));
    assert(extension(b) == extension(c).push(b.last()));
    assert(extension(name) =~= extension(c) + name.skip(n - 3));
}

/// One message of a mailbox.
#[derive(Clone, Debug, PartialEq, Eq)]
pub struct Email {
    /// The service's identifier of the message.
    pub id: String,
    /// The sender's address.
    pub from_address: String,
    /// The receiver's address.
    pub to_address: String,
    /// The subject line.
    pub subject: String,
    /// When the message arrived, in seconds since the Unix epoch.
    pub received_at: i64,
    /// The body as plain text, where the service has one.
    pub text_content: Option<String>,
    /// Whether the message carries attachments.
    pub has_attachments: bool,
    /// How many attachments it carries.
    pub attachment_count: u32,
}

/// What an [`Email`] holds, with every string as its characters.
pub struct EmailSpec {
    pub id: Seq<char>,
    pub from_address: Seq<char>,
    pub to_address: Seq<char>,
    pub subject: Seq<char>,
    pub received_at: i64,
    pub text_content: Option<Seq<char>>,
    pub has_attachments: bool,
    pub attachment_count: u32,
}

impl DeepView for Email {
    type V = EmailSpec;

    open spec fn deep_view(&self) -> EmailSpec {
        EmailSpec {
            id: self.id@,
            from_address: self.from_address@,
            to_address: self.to_address@,
            subject: self.subject@,
            received_at: self.received_at,
            text_content: self.text_content.deep_view(),
            has_attachments: self.has_attachments,
            attachment_count: self.attachment_count,
        }
    }
}

/// The description of one attachment of a message.
#[derive(Clone, Debug, PartialEq, Eq)]
pub struct Attachment {
    /// The service's identifier of the attachment.
    pub id: String,
    /// The file name the sender gave it.
    pub filename: String,
    /// Its size in bytes.
    pub size: u64,
}

/// What an [`Attachment`] holds, with every string as its characters.
pub struct AttachmentSpec {
    pub id: Seq<char>,
    pub filename: Seq<char>,
    pub size: u64,
}

impl DeepView for Attachment {
    type V = AttachmentSpec;

    open spec fn deep_view(&self) -> AttachmentSpec {
        AttachmentSpec { id: self.id@, filename: self.filename@, size: self.size }
    }
}

impl Attachment {
    /// Whether the attachment is shown as a picture.
    pub fn is_image(&self) -> (image: bool)
        ensures
            image == is_image_name(self.filename@),
    {
        let name = self.filename.as_str();
        let n = name.unicode_len();
        if n < 3 {
            proof {
                lemma_extension_short(name@);
            }
            return false;
        }
        let a = name.get_char(n - 3);
        let b = name.get_char(n - 2);
        let c = name.get_char(n - 1);
        let jpg = a == 'j' && b == 'p' && c == 'g';
        let png = a == 'p' && b == 'n' && c == 'g';
        if !(jpg || png) {
            proof {
                lemma_extension_end(name@);
                let found = extension(name@);
                assert(name@.skip(n - 3) == seq![a, b, c]);
                if found.len() == 3 {
                    assert(found.skip(0) == found);
                }
            }
            return false;
        }
        let whole = n == 3 || name.get_char(n - 4) == '.';
        proof {
            lemma_extension_tail(name@);
            lemma_extension_empty(name@.take(n - 3));
            let head = extension(name@.take(n - 3));
            let tail = name@.skip(n - 3);
            assert(tail == seq![a, b, c]);
            assert((head + tail).len() == head.len() + 3);
            if whole {
                assert(head + tail == tail);
            }
        }
        whole
    }

    /// The address from which the attachment can be fetched.
    pub fn download_url(&self) -> (url: String)
        ensures
            url@ == download_location(self.id@),
    {
        let mut url = String::from_str("https://api.barid.site/attachments/");
        url.append(self.id.as_str());
        url
    }
}

} // verus!
