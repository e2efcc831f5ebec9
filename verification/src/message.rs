//! What the transport delivers and what it is asked to send.

use vstd::prelude::*;
use vstd::string::StringExecFns;

verus! {

/// The bot's own identity, as the transport reports it.
#[derive(Clone, Copy, Debug, PartialEq, Eq, Structural)]
pub struct BotIdentity {
    pub application_id: u64,
}

/// One message received from a channel.
#[derive(Clone, Debug, PartialEq, Eq)]
pub struct IncomingMessage {
    pub text: String,
    /// The users the message mentions. Order and repetition carry no meaning.
    pub mentioned_user_ids: Vec<u64>,
    pub channel_id: u64,
}

/// An incoming message as contracts see it.
pub struct MessageView {
    pub text: Seq<char>,
    pub mentioned: Set<u64>,
    pub channel_id: u64,
}

impl View for IncomingMessage {
    type V = MessageView;

    open spec fn view(&self) -> MessageView {
        MessageView {
            text: self.text@,
            mentioned: self.mentioned_user_ids@.to_set(),
            channel_id: self.channel_id,
        }
    }
}

/// What the bot sends back: a text, and at most one embedded image.
#[derive(Clone, Debug, PartialEq, Eq)]
pub struct ReplyContent {
    pub text: String,
    pub image_url: Option<String>,
}

/// A reply as contracts see it.
pub struct ReplyView {
    pub text: Seq<char>,
    pub image_url: Option<Seq<char>>,
}

impl View for ReplyContent {
    type V = ReplyView;

    open spec fn view(&self) -> ReplyView {
        ReplyView {
            text: self.text@,
            image_url: match self.image_url {
                Some(url) => Some(url@),
                None => None,
            },
        }
    }
}

impl IncomingMessage {
    /// Whether the message mentions the user `id`.
    pub fn mentions(&self, id: u64) -> (mentioned: bool)
        ensures
            mentioned == self@.mentioned.contains(id),
    {
        let mut i: usize = 0;
        while i < self.mentioned_user_ids.len()
            invariant
                i <= self.mentioned_user_ids@.len(),
                forall|j: int| 0 <= j < i ==> self.mentioned_user_ids@[j] != id,
            decreases self.mentioned_user_ids@.len() - i,
        {
            if self.mentioned_user_ids[i] == id {
                assert(self.mentioned_user_ids@.contains(id));
                return true;
            }
            i += 1;
        }
        assert(!self.mentioned_user_ids@.contains(id));
        false
    }
}

impl ReplyContent {
    /// A reply of text alone.
    pub fn plain(text: &str) -> (reply: ReplyContent)
        ensures
            reply@ == (ReplyView { text: text@, image_url: None }),
    {
        ReplyContent { text: String::from_str(text), image_url: None }
    }

    /// A reply of text with the image at `image_url` embedded.
    pub fn with_image(text: &str, image_url: &str) -> (reply: ReplyContent)
        ensures
            reply@ == (ReplyView { text: text@, image_url: Some(image_url@) }),
    {
        ReplyContent { text: String::from_str(text), image_url: Some(String::from_str(image_url)) }
    }
}

} // verus!
