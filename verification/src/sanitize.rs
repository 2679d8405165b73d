//! Making client text inert before it is stored and shown.
//!
//! The work is done by `ammonia::clean_text`, which replaces every character
//! that an HTML parser could take for markup by a character reference. This
//! module states what that replacement is and proves what the rest of the
//! crate relies on: the result holds no markup, and plain text comes through
//! untouched.

use vstd::prelude::*;

verus! {

/// What is written in place of the character `c`: a character reference for
/// each of the fourteen characters that HTML gives a meaning to, and `c`
/// itself for every other character.
pub open spec fn escaped_char(c: char) -> Seq<char> {
    match c {
        '<' => "&lt;"@,
        '>' => "&gt;"@,
        '"' => "&quot;"@,
        '\'' => "&apos;"@,
        '`' => "&grave;"@,
        '/' => "&#47;"@,
        '&' => "&amp;"@,
        '=' => "&#61;"@,
        ' ' => "&#32;"@,
        '\t' => "&#9;"@,
        '\n' => "&#10;"@,
        '\x0c' => "&#12;"@,
        '\r' => "&#13;"@,
        '\0' => "&#65533;"@,
        _ => seq![c],
    }
}

/// `text` with each character replaced by `escaped_char` of it, in order.
pub open spec fn escaped(text: Seq<char>) -> Seq<char>
    decreases text.len(),
{
    if text.len() == 0 {
        Seq::empty()
    } else {
        escaped(text.drop_last()) + escaped_char(text.last())
    }
}

/// The characters that can open, close or split markup. None of them is ever
/// found in escaped text.
pub open spec fn is_active(c: char) -> bool {
    c == '<' || c == '>' || c == '"' || c == '\'' || c == '`' || c == '/' || c == '=' || c == ' '
        || c == '\t' || c == '\n' || c == '\x0c' || c == '\r' || c == '\0'
}

/// The characters that pass through escaping unchanged: all but the active
/// ones and the ampersand, which starts a character reference.
pub open spec fn is_plain(c: char) -> bool {
    !is_active(c) && c != '&'
}

/// Every position of `text` holds a plain character.
pub open spec fn is_plain_text(text: Seq<char>) -> bool {
    forall|i: int| 0 <= i < text.len() ==> is_plain(#[trigger] text[i])
}

/// No position of `text` holds an active character.
pub open spec fn is_inert(text: Seq<char>) -> bool {
    forall|i: int| 0 <= i < text.len() ==> !is_active(#[trigger] text[i])
}

/// Escapes `src` with `ammonia::clean_text`. Trusted: the contract restates
/// that function's replacement table, one arm of `escaped_char` for each arm
/// of its `match`, applied to the characters of `src` from first to last.
#[verifier::external_body]
pub(crate) fn clean_text(src: &str) -> (clean: String)
    ensures
        clean@ == escaped(src@),
{
    ammonia::clean_text(src)
}

/// What stands for one character holds no active character, and is the
/// character itself if that was plain.
proof fn lemma_escaped_char(c: char)
    ensures
        is_inert(escaped_char(c)),
        is_plain(c) ==> escaped_char(c) == seq![c],
{
    reveal_strlit("&lt;");
    reveal_strlit("&gt;");
    reveal_strlit("&quot;");
    reveal_strlit("&apos;");
    reveal_strlit("&grave;");
    reveal_strlit("&#47;");
    reveal_strlit("&amp;");
    reveal_strlit("&#61;");
    reveal_strlit("&#32;");
    reveal_strlit("&#9;");
    reveal_strlit("&#10;");
    reveal_strlit("&#12;");
    reveal_strlit("&#13;");
    reveal_strlit("&#65533;");
}

/// Escaping goes character by character, so it distributes over
/// concatenation.
pub proof fn lemma_escaped_concat(left: Seq<char>, right: Seq<char>)
    ensures
        escaped(left + right) == escaped(left) + escaped(right),
    decreases right.len(),
{
    if right.len() == 0 {
        assert(left + right =~= left);
        assert(escaped(left) + escaped(right) =~= escaped(left));
    } else {
        lemma_escaped_concat(left, right.drop_last());
        assert((left + right).drop_last() =~= left + right.drop_last());
        assert((left + right).last() == right.last());
        assert(escaped(left + right) =~= escaped(left) + escaped(right));
    }
}

/// Escaped text is inert: whatever the input held, the result has no
/// character that could open, close or split markup.
pub proof fn lemma_escaped_is_inert(text: Seq<char>)
    ensures
        is_inert(escaped(text)),
    decreases text.len(),
{
    if text.len() > 0 {
        lemma_escaped_is_inert(text.drop_last());
        lemma_escaped_char(text.last());
    }
}

/// Text made of plain characters only is its own escaped form.
pub proof fn lemma_escaped_plain_text(text: Seq<char>)
    requires
        is_plain_text(text),
    ensures
        escaped(text) == text,
    decreases text.len(),
{
    if text.len() > 0 {
        lemma_escaped_plain_text(text.drop_last());
        lemma_escaped_char(text.last());
        assert(text.drop_last() + seq![text.last()] =~= text);
    } else {
        assert(escaped(text) =~= text);
    }
}

/// Plain text survives verbatim wherever it stands: a plain stretch between
/// any two pieces of input is found unchanged between their escaped forms.
pub proof fn lemma_plain_text_survives(before: Seq<char>, plain: Seq<char>, after: Seq<char>)
    requires
        is_plain_text(plain),
    ensures
        escaped(before + plain + after) == escaped(before) + plain + escaped(after),
{
    lemma_escaped_concat(before + plain, after);
    lemma_escaped_concat(before, plain);
    lemma_escaped_plain_text(plain);
}

} // verus!
