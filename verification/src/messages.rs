//! What a connection does with the text a client sends: cut it to length,
//! make it inert, and put it into a message for the room.

use crate::main_room::{Message, MessageView};
use crate::sanitize::{clean_text, escaped, is_inert, lemma_escaped_is_inert};
use vstd::prelude::*;

verus! {

/// An author name longer than this many characters is cut.
pub const AUTHOR_MAX_CHARS: usize = 30;

/// A message body longer than this many characters is cut.
pub const CONTENT_MAX_CHARS: usize = 280;

/// The mark that ends a text which was cut: three full stops.
pub open spec fn ellipsis() -> Seq<char> {
    seq!['.', '.', '.']
}

/// The first `max_chars` characters of `s`, or all of `s` if it has no more.
pub open spec fn prefix(s: Seq<char>, max_chars: nat) -> Seq<char> {
    if s.len() > max_chars {
        s.take(max_chars as int)
    } else {
        s
    }
}

/// `s` as it is shown: untouched up to `max_chars` characters, otherwise its
/// first `max_chars` characters followed by the ellipsis.
pub open spec fn truncated(s: Seq<char>, max_chars: nat) -> Seq<char> {
    if s.len() > max_chars {
        s.take(max_chars as int) + ellipsis()
    } else {
        s
    }
}

/// Returns the first `max_chars` characters of `s`. Characters are counted,
/// not bytes, so a multi-byte character is never split. `s` is left as it is.
pub fn truncate(s: &mut String, max_chars: usize) -> (head: String)
    ensures
        head@ == prefix(old(s)@, max_chars as nat),
        *final(s) == *old(s),
{
    let text: &str = s.as_str();
    if text.unicode_len() > max_chars {
        text.substring_char(0, max_chars).to_owned()
    } else {
        text.to_owned()
    }
}

/// Cuts `author` to `AUTHOR_MAX_CHARS` and `content` to `CONTENT_MAX_CHARS`
/// characters. A text that had to be cut ends in the ellipsis; one that fits
/// is not changed.
pub fn truncate_author_and_content_strings(author: &mut String, content: &mut String)
    ensures
        final(author)@ == truncated(old(author)@, AUTHOR_MAX_CHARS as nat),
        final(content)@ == truncated(old(content)@, CONTENT_MAX_CHARS as nat),
{
    proof {
        reveal_strlit("...");
    }
    if author.as_str().unicode_len() > AUTHOR_MAX_CHARS {
        *author = truncate(author, AUTHOR_MAX_CHARS);
        author.append("...");
    }
    if content.as_str().unicode_len() > CONTENT_MAX_CHARS {
        *content = truncate(content, CONTENT_MAX_CHARS);
        content.append("...");
    }
}

/// The message that the room receives for a client's author name and text:
/// each is cut to its limit first and escaped afterwards, so the escaping
/// covers the ellipsis too and is never cut in the middle of a reference.
pub open spec fn composed(author: Seq<char>, content: Seq<char>) -> MessageView {
    MessageView {
        author: escaped(truncated(author, AUTHOR_MAX_CHARS as nat)),
        content: escaped(truncated(content, CONTENT_MAX_CHARS as nat)),
    }
}

/// A composed message is inert in both of its texts, whatever the client
/// sent.
pub proof fn lemma_composed_is_inert(author: Seq<char>, content: Seq<char>)
    ensures
        is_inert(composed(author, content).author),
        is_inert(composed(author, content).content),
{
    lemma_escaped_is_inert(truncated(author, AUTHOR_MAX_CHARS as nat));
    lemma_escaped_is_inert(truncated(content, CONTENT_MAX_CHARS as nat));
}

/// Builds the message for the room from what a client sent. This never
/// fails: every text can be cut and escaped.
pub fn compose_message(author: String, content: String) -> (message: Message)
    ensures
        message@ == composed(author@, content@),
{
    let mut author = author;
    let mut content = content;
    truncate_author_and_content_strings(&mut author, &mut content);
    Message { author: clean_text(author.as_str()), content: clean_text(content.as_str()) }
}

} // verus!
