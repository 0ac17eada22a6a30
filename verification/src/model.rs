//! The history model: messages, chats, rooms, and how pages of classified
//! events are aggregated into them.
//!
//! Pages arrive newest-first from the server and are appended in arrival
//! order; an explicit reordering step turns a chat chronological for
//! exporters that want oldest-first.

use vstd::prelude::*;
use crate::event::Classified;
use crate::media::Image;
use crate::media::spec_image_like;
use crate::util::str_eq;

verus! {

/// The author substituted for every sender when the run anonymizes.
pub const ANONYMOUS_AUTHOR: &'static str = "N/A";

/// A message's payload: plain text, or a downloaded media artifact.
pub enum Content {
    /// Text: a body, or the locator of media that was not downloaded.
    Text(String),
    /// A media artifact downloaded in this run.
    Media(Image),
}

/// One message of a room's history.
pub struct Message {
    /// The rendered author: a resolved display name, or the anonymous
    /// placeholder.
    pub author: String,
    /// Whole seconds since the Unix epoch.
    pub timestamp: i64,
    /// The payload.
    pub content: Content,
}

/// A user of the platform: the opaque id and the resolved display name.
pub struct User {
    pub id: String,
    pub displayname: String,
}

/// Fieldwise sameness of two payloads.
pub open spec fn spec_content_like(a: Content, b: Content) -> bool {
    match (a, b) {
        (Content::Text(x), Content::Text(y)) => x@ == y@,
        (Content::Media(x), Content::Media(y)) => spec_image_like(x, y),
        _ => false,
    }
}

/// Fieldwise sameness of two messages.
pub open spec fn spec_message_like(a: Message, b: Message) -> bool {
    a.author@ == b.author@ && a.timestamp == b.timestamp && spec_content_like(a.content, b.content)
}

impl Message {
    /// Copies the message.
    pub fn duplicate(&self) -> (r: Message)
        ensures
            spec_message_like(r, *self),
    {
        let content = match &self.content {
            Content::Text(s) => Content::Text(s.clone()),
            Content::Media(img) => Content::Media(img.duplicate()),
        };
        Message { author: self.author.clone(), timestamp: self.timestamp, content }
    }
}

/// Picks the author string for a message: the anonymous placeholder when the
/// run anonymizes, else the display name the sender resolved to.
pub fn author_for(anonymize: bool, resolved: Option<String>) -> (r: String)
    requires
        anonymize || resolved is Some,
    ensures
        r@ == if anonymize {
            ANONYMOUS_AUTHOR@
        } else {
            resolved->Some_0@
        },
{
    if anonymize {
        String::from_str(ANONYMOUS_AUTHOR)
    } else {
        match resolved {
            Some(name) => name,
            None => vstd::pervasive::unreached(),
        }
    }
}

/// What became of one media message's artifact.
pub enum MediaOutcome {
    /// Fetched in this run.
    Fetched { img: Image },
    /// Recorded in the dedup log by an earlier run: nothing was requested.
    AlreadyLogged,
    /// The response's content type is not an accepted image type.
    Unsupported,
    /// The request failed.
    Failed,
}

/// The message a classified event contributes, if any: a skipped event
/// contributes nothing; a text message carries its body; a media message
/// carries the artifact when one was fetched in this run, and otherwise
/// falls back to text holding the locator. The timestamp is reduced from
/// milliseconds to whole seconds.
pub open spec fn spec_message_of(c: Classified, author: String, media: Option<MediaOutcome>)
    -> Option<Message> {
    match c {
        Classified::Skip { .. } => None,
        Classified::TextMessage { author: _, ts, body } => Some(
            Message {
                author,
                timestamp: (ts as int / 1000) as i64,
                content: Content::Text(body),
            },
        ),
        Classified::MediaMessage { author: _, ts, url } => {
            let content = match media {
                Some(MediaOutcome::Fetched { img }) => Content::Media(img),
                _ => Content::Text(url),
            };
            Some(Message { author, timestamp: (ts as int / 1000) as i64, content })
        },
    }
}

/// True when the event's timestamp is a Unix-millisecond instant.
pub open spec fn spec_ts_ok(c: Classified) -> bool {
    match c {
        Classified::Skip { .. } => true,
        Classified::TextMessage { ts, .. } => ts >= 0,
        Classified::MediaMessage { ts, .. } => ts >= 0,
    }
}

/// Builds the message a classified event contributes, if any.
pub fn message_of(c: Classified, author: String, media: Option<MediaOutcome>) -> (r: Option<
    Message>)
    requires
        spec_ts_ok(c),
    ensures
        r == spec_message_of(c, author, media),
{
    match c {
        Classified::Skip { .. } => None,
        Classified::TextMessage { author: _, ts, body } => {
            let secs = crate::timefmt::millis_to_secs(ts);
            Some(Message { author, timestamp: secs, content: Content::Text(body) })
        },
        Classified::MediaMessage { author: _, ts, url } => {
            let secs = crate::timefmt::millis_to_secs(ts);
            let content = match media {
                Some(MediaOutcome::Fetched { img }) => Content::Media(img),
                _ => Content::Text(url),
            };
            Some(Message { author, timestamp: secs, content })
        },
    }
}

/// One room's aggregated history.
pub struct Chat {
    /// The room id.
    pub id: String,
    /// The messages, in the order their pages arrived.
    pub messages: Vec<Message>,
    /// The cursor the next request would continue from.
    pub next_batch: String,
    /// False when the room's walk failed partway: the messages gathered up
    /// to the failure are kept.
    pub complete: bool,
}

impl Chat {
    /// A fresh chat for a room: no messages yet.
    pub fn new(id: String) -> (r: Chat)
        ensures
            r.id == id,
            r.messages@ == Seq::<Message>::empty(),
            r.next_batch@ == Seq::<char>::empty(),
            r.complete,
    {
        Chat { id, messages: Vec::new(), next_batch: String::new(), complete: true }
    }

    /// Appends one page's messages after everything already gathered,
    /// keeping both orders.
    pub fn append_messages(&mut self, msgs: Vec<Message>)
        ensures
            final(self).messages@ == old(self).messages@ + msgs@,
            final(self).id == old(self).id,
            final(self).next_batch == old(self).next_batch,
            final(self).complete == old(self).complete,
    {
        let mut m = msgs;
        self.messages.append(&mut m);
    }

    /// Reverses the arrival order: pages arrive newest-first, so the
    /// reversed chat reads oldest-first.
    #[verifier::loop_isolation(false)]
    pub fn reorder_chronological(&mut self)
        ensures
            final(self).messages@ == old(self).messages@.reverse(),
            final(self).id == old(self).id,
            final(self).next_batch == old(self).next_batch,
            final(self).complete == old(self).complete,
    {
        let ghost s0 = self.messages@;
        let mut rev: Vec<Message> = Vec::new();
        loop
            invariant
                self.id == old(self).id,
                self.next_batch == old(self).next_batch,
                self.complete == old(self).complete,
                self.messages@ == s0.subrange(0, s0.len() - rev@.len()),
                rev@.len() <= s0.len(),
                forall|k: int| 0 <= k < rev@.len() ==> rev@[k] == s0[s0.len() - 1 - k],
            decreases self.messages@.len(),
        {
            let m = self.messages.pop();
            match m {
                Some(msg) => {
                    proof {
                        let remaining = s0.len() - rev@.len();
                        assert(self.messages@ =~= s0.subrange(0, remaining - 1));
                        assert(msg == s0[remaining - 1]);
                    }
                    rev.push(msg);
                },
                None => {
                    self.messages = rev;
                    proof {
                        assert(self.messages@ =~= s0.reverse());
                    }
                    return ;
                },
            }
        }
    }
}

/// Every room's history.
pub struct AllChats {
    pub chats: Vec<Chat>,
}

/// The first index at or after `i` whose chat carries `id`, or the length
/// when none does.
pub open spec fn spec_chat_index(chats: Seq<Chat>, id: Seq<char>, i: int) -> int
    decreases chats.len() - i when 0 <= i <= chats.len()
{
    if i >= chats.len() {
        chats.len() as int
    } else if chats[i].id@ == id {
        i
    } else {
        spec_chat_index(chats, id, i + 1)
    }
}

impl AllChats {
    /// No history yet.
    pub fn new() -> (r: AllChats)
        ensures
            r.chats@ == Seq::<Chat>::empty(),
    {
        AllChats { chats: Vec::new() }
    }

    /// Folds one room's chat in. A chat whose id is new is appended; a chat
    /// whose id is already present has its messages appended to the
    /// present chat, in arrival order, and the room counts as complete only
    /// when both sources were.
    #[verifier::loop_isolation(false)]
    pub fn merge_chat(&mut self, chat: Chat)
        ensures
            ({
                let s = old(self).chats@;
                let idx = spec_chat_index(s, chat.id@, 0);
                &&& (idx == s.len() ==> final(self).chats@ == s.push(chat))
                &&& (idx < s.len() ==> {
                    &&& final(self).chats@.len() == s.len()
                    &&& forall|j: int|
                        0 <= j < s.len() && j != idx ==> final(self).chats@[j] == s[j]
                    &&& final(self).chats@[idx].id == s[idx].id
                    &&& final(self).chats@[idx].messages@ == s[idx].messages@ + chat.messages@
                    &&& final(self).chats@[idx].next_batch == s[idx].next_batch
                    &&& final(self).chats@[idx].complete == (s[idx].complete && chat.complete)
                })
            }),
    {
        let ghost s0 = self.chats@;
        let mut i: usize = 0;
        while i < self.chats.len()
            invariant
                i <= self.chats.len(),
                self.chats@ == s0,
                spec_chat_index(s0, chat.id@, 0) == spec_chat_index(s0, chat.id@, i as int),
            decreases self.chats.len() - i,
        {
            if str_eq(&self.chats[i].id, chat.id.as_str()) {
                proof {
                    assert(spec_chat_index(s0, chat.id@, i as int) == i);
                }
                let ghost idx = i as int;
                let mut target = self.chats.remove(i);
                let Chat { id: _, messages: msgs, next_batch: _, complete: chat_complete } = chat;
                let mut msgs = msgs;
                target.messages.append(&mut msgs);
                target.complete = target.complete && chat_complete;
                self.chats.insert(i, target);
                proof {
                    assert(forall|j: int|
                        0 <= j < s0.len() && j != idx ==> self.chats@[j] == s0[j]);
                }
                return ;
            }
            i = i + 1;
        }
        proof {
            assert(spec_chat_index(s0, chat.id@, s0.len() as int) == s0.len());
        }
        self.chats.push(chat);
    }

    /// Reverses every chat's arrival order, turning each oldest-first.
    #[verifier::loop_isolation(false)]
    pub fn reorder_chronological(&mut self)
        ensures
            final(self).chats@.len() == old(self).chats@.len(),
            forall|j: int|
                0 <= j < old(self).chats@.len() ==> {
                    &&& (#[trigger] final(self).chats@[j]).id == old(self).chats@[j].id
                    &&& final(self).chats@[j].messages@ == old(self).chats@[j].messages@.reverse()
                    &&& final(self).chats@[j].next_batch == old(self).chats@[j].next_batch
                    &&& final(self).chats@[j].complete == old(self).chats@[j].complete
                },
    {
        let ghost s0 = self.chats@;
        let mut i: usize = 0;
        while i < self.chats.len()
            invariant
                i <= self.chats.len(),
                self.chats@.len() == s0.len(),
                forall|j: int| i <= j < s0.len() ==> self.chats@[j] == s0[j],
                forall|j: int|
                    0 <= j < i ==> {
                        &&& (#[trigger] self.chats@[j]).id == s0[j].id
                        &&& self.chats@[j].messages@ == s0[j].messages@.reverse()
                        &&& self.chats@[j].next_batch == s0[j].next_batch
                        &&& self.chats@[j].complete == s0[j].complete
                    },
            decreases self.chats.len() - i,
        {
            let mut c = self.chats.remove(i);
            c.reorder_chronological();
            self.chats.insert(i, c);
            i = i + 1;
        }
    }
}

/// Order preservation of aggregation: appending page one's messages and then
/// page two's leaves the history holding what it held before, then page
/// one's messages, then page two's, each block in its own order.
pub proof fn lemma_order_preservation(
    before: Seq<Message>,
    page1: Seq<Message>,
    page2: Seq<Message>,
)
    ensures
        (before + page1) + page2 == before + (page1 + page2),
        ((before + page1) + page2).len() == before.len() + page1.len() + page2.len(),
        forall|i: int|
            0 <= i < before.len() ==> ((before + page1) + page2)[i] == before[i],
        forall|i: int|
            0 <= i < page1.len() ==> ((before + page1) + page2)[before.len() + i] == page1[i],
        forall|i: int|
            0 <= i < page2.len() ==> ((before + page1) + page2)[before.len() + page1.len() + i]
                == page2[i],
{
    assert((before + page1) + page2 =~= before + (page1 + page2));
}

/// A room of the platform: its id, and its downloaded history once one was
/// downloaded.
pub struct Room {
    /// The room id.
    pub id: String,
    /// The history, once downloaded.
    pub messages: Option<Vec<Message>>,
}

impl Room {
    /// The history, when downloaded.
    pub open spec fn spec_messages(self) -> Option<Vec<Message>> {
        self.messages
    }

    /// A room from its parts.
    pub fn new(id: String, messages: Option<Vec<Message>>) -> (r: Room)
        ensures
            r.id == id,
            r.spec_messages() == messages,
    {
        Room { id, messages }
    }

    /// The downloaded history. A room is only read out after its download.
    pub fn messages(&self) -> (r: Vec<Message>)
        requires
            self.spec_messages() is Some,
        ensures
            r@.len() == self.spec_messages()->Some_0@.len(),
            forall|i: int|
                0 <= i < r@.len() ==> spec_message_like(
                    r@[i],
                    self.spec_messages()->Some_0@[i],
                ),
    {
        let msgs = match &self.messages {
            Some(m) => m,
            None => vstd::pervasive::unreached(),
        };
        let mut r: Vec<Message> = Vec::new();
        let mut i: usize = 0;
        while i < msgs.len()
            invariant
                i <= msgs.len(),
                msgs == self.spec_messages()->Some_0,
                r@.len() == i,
                forall|j: int| 0 <= j < i ==> spec_message_like(r@[j], msgs@[j]),
            decreases msgs.len() - i,
        {
            r.push(msgs[i].duplicate());
            i = i + 1;
        }
        r
    }
}

} // verus!
