//! The bounded conversation log and its prompt formatting.
//!
//! The store keeps an ordered, append-only message sequence capped at a
//! maximum length: once an append pushes the log over the cap, the oldest
//! excess messages fall away, first in first out, and the remainder keeps
//! its relative order. `build_prompt` renders the log as ChatML-style
//! turns and leaves an open assistant marker at the end, signalling the
//! generation point.

use vstd::prelude::*;
use crate::chat::MessageRole;

verus! {

/// One turn of the conversation the lifecycle manager feeds the backend.
#[derive(Debug, Clone)]
pub struct ConversationMessage {
    pub role: MessageRole,
    pub content: String,
}

/// The bounded, ordered conversation log.
#[derive(Debug)]
pub struct ConversationStore {
    pub messages: Vec<ConversationMessage>,
    pub max_len: usize,
}

/// The most recent `max` elements of `s`; all of `s` when it is short
/// enough.
pub open spec fn recent(s: Seq<ConversationMessage>, max: int) -> Seq<ConversationMessage> {
    if s.len() > max {
        s.skip(s.len() - max)
    } else {
        s
    }
}

/// The state of a log with `max` as cap after appending every message of
/// `ms` in order, each append trimming to the most recent `max`.
pub open spec fn append_all(
    s: Seq<ConversationMessage>,
    max: int,
    ms: Seq<ConversationMessage>,
) -> Seq<ConversationMessage>
    decreases ms.len(),
{
    if ms.len() == 0 {
        s
    } else {
        append_all(recent(s.push(ms[0]), max), max, ms.skip(1))
    }
}

proof fn lemma_recent_concat(x: Seq<ConversationMessage>, t: Seq<ConversationMessage>, max: int)
    requires
        max >= 0,
    ensures
        recent(recent(x, max) + t, max) == recent(x + t, max),
{
    let a = recent(x, max) + t;
    let b = x + t;
    if a.len() > max {
        assert(recent(a, max) =~= recent(b, max));
    } else {
        if x.len() > max {
            assert(recent(a, max) =~= recent(b, max));
        } else {
            assert(a =~= b);
        }
    }
}

/// Law of the bounded log: appending any message sequence `ms` one by one,
/// with trimming, leaves exactly the most recent `max` of the base log
/// followed by `ms` — in particular, appending more than `max` messages
/// leaves exactly the most recent `max` of them, in their original
/// relative order.
pub proof fn lemma_appends_keep_recent(
    s: Seq<ConversationMessage>,
    max: int,
    ms: Seq<ConversationMessage>,
)
    requires
        max >= 0,
        s.len() <= max,
    ensures
        append_all(s, max, ms) == recent(s + ms, max),
        ms.len() >= max ==> append_all(s, max, ms) == ms.skip(ms.len() - max),
    decreases ms.len(),
{
    if ms.len() == 0 {
        assert(s + ms =~= s);
    } else {
        let s1 = recent(s.push(ms[0]), max);
        lemma_appends_keep_recent(s1, max, ms.skip(1));
        lemma_recent_concat(s.push(ms[0]), ms.skip(1), max);
        assert(s.push(ms[0]) + ms.skip(1) =~= s + ms);
        if ms.len() >= max {
            assert(recent(s + ms, max) =~= ms.skip(ms.len() - max));
        }
    }
}

/// The ChatML-style rendering of one turn. System turns are not produced
/// by this layer.
pub open spec fn turn_of(m: ConversationMessage) -> Seq<char> {
    match m.role {
        MessageRole::User => "<|im_start|>user\n"@ + m.content@ + "<|im_end|>\n"@,
        MessageRole::Assistant => "<|im_start|>assistant\n"@ + m.content@ + "<|im_end|>\n"@,
        MessageRole::System => Seq::empty(),
    }
}

/// The renderings of all turns, in order.
pub open spec fn turns_of(ms: Seq<ConversationMessage>) -> Seq<char>
    decreases ms.len(),
{
    if ms.len() == 0 {
        Seq::empty()
    } else {
        turns_of(ms.drop_last()) + turn_of(ms.last())
    }
}

/// The full prompt: every turn, then an open assistant marker with no
/// closing tag.
pub open spec fn prompt_of(ms: Seq<ConversationMessage>) -> Seq<char> {
    turns_of(ms) + "<|im_start|>assistant\n"@
}

impl ConversationStore {
    /// An empty log capped at `max_len` messages.
    pub fn new(max_len: usize) -> (r: Self)
        ensures
            r.messages@ == Seq::<ConversationMessage>::empty(),
            r.max_len == max_len,
    {
        ConversationStore { messages: Vec::new(), max_len }
    }

    /// Appends one message, then drops the oldest excess beyond the cap.
    pub fn append(&mut self, m: ConversationMessage)
        ensures
            final(self).messages@ == recent(old(self).messages@.push(m), old(self).max_len as int),
            final(self).max_len == old(self).max_len,
    {
        let ghost pushed = self.messages@.push(m);
        self.messages.push(m);
        if self.messages.len() > self.max_len {
            let excess = self.messages.len() - self.max_len;
            let kept = self.messages.split_off(excess);
            self.messages = kept;
            proof {
                assert(self.messages@ =~= recent(pushed, self.max_len as int));
            }
        }
    }

    /// Appends one message without trimming; the lifecycle manager uses
    /// this for the assistant's reply, which the next user turn trims.
    pub fn push_untrimmed(&mut self, m: ConversationMessage)
        ensures
            final(self).messages@ == old(self).messages@.push(m),
            final(self).max_len == old(self).max_len,
    {
        self.messages.push(m);
    }

    /// Empties the log.
    pub fn clear(&mut self)
        ensures
            final(self).messages@ == Seq::<ConversationMessage>::empty(),
            final(self).max_len == old(self).max_len,
    {
        self.messages.clear();
    }

    /// How many messages the log holds.
    pub fn len(&self) -> (r: usize)
        ensures
            r == self.messages@.len(),
    {
        self.messages.len()
    }

    /// Renders the log as the generation prompt.
    pub fn build_prompt(&self) -> (r: String)
        ensures
            r@ == prompt_of(self.messages@),
    {
        let n = self.messages.len();
        let mut s = String::new();
        let mut i: usize = 0;
        while i < n
            invariant
                n == self.messages@.len(),
                i <= n,
                s@ == turns_of(self.messages@.take(i as int)),
            decreases n - i,
        {
            let ghost pre = self.messages@.take(i as int);
            let ghost cur = self.messages@.take(i + 1);
            proof {
                assert(cur.drop_last() =~= pre);
                assert(cur.last() == self.messages@[i as int]);
            }
            match self.messages[i].role {
                MessageRole::User => {
                    s.append("<|im_start|>user\n");
                    s.append(self.messages[i].content.as_str());
                    s.append("<|im_end|>\n");
                },
                MessageRole::Assistant => {
                    s.append("<|im_start|>assistant\n");
                    s.append(self.messages[i].content.as_str());
                    s.append("<|im_end|>\n");
                },
                MessageRole::System => {},
            }
            i = i + 1;
        }
        proof {
            assert(self.messages@.take(n as int) =~= self.messages@);
        }
        s.append("<|im_start|>assistant\n");
        s
    }
}

} // verus!
