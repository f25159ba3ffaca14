//! The plaintext of a chat message: the sender's name, a separator, the text.

use vstd::prelude::*;
use vstd::string::*;

verus! {

/// What stands between the sender's name and the text.
pub const SEPARATOR: char = '|';

/// Why a decrypted plaintext is no chat message.
#[derive(Clone, Copy, Debug, PartialEq, Eq, Structural)]
pub enum ProtocolError {
    /// The plaintext holds no separator.
    MissingSeparator,
}

/// The plaintext of the message `text` from `sender`.
pub open spec fn composed(sender: Seq<char>, text: Seq<char>) -> Seq<char> {
    sender + seq![SEPARATOR] + text
}

/// Whether the first separator of `plaintext` stands at `i`.
pub open spec fn is_first_separator(plaintext: Seq<char>, i: int) -> bool {
    &&& 0 <= i < plaintext.len()
    &&& plaintext[i] == SEPARATOR
    &&& forall|j: int| 0 <= j < i ==> plaintext[j] != SEPARATOR
}

/// Where the first separator of `plaintext` stands, if it holds one.
pub open spec fn separator_index(plaintext: Seq<char>) -> int {
    choose|i: int| is_first_separator(plaintext, i)
}

/// What stands before the first separator.
pub open spec fn sender_of(plaintext: Seq<char>) -> Seq<char> {
    plaintext.subrange(0, separator_index(plaintext))
}

/// What stands after the first separator.
pub open spec fn text_of(plaintext: Seq<char>) -> Seq<char> {
    plaintext.subrange(separator_index(plaintext) + 1, plaintext.len() as int)
}

/// The first separator stands in one place only.
pub proof fn lemma_first_separator_unique(plaintext: Seq<char>, i: int)
    requires
        is_first_separator(plaintext, i),
    ensures
        separator_index(plaintext) == i,
{
    let k = separator_index(plaintext);
    assert(is_first_separator(plaintext, k));
    if k < i {
        assert(plaintext[k] != SEPARATOR);
    }
    if i < k {
        assert(plaintext[i] != SEPARATOR);
    }
}

/// The plaintext `sender|text`.
pub fn compose(sender: &str, text: &str) -> (plaintext: String)
    ensures
        plaintext@ == composed(sender@, text@),
{
    let mut plaintext = sender.to_owned();
    plaintext.append("|");
    plaintext.append(text);
    proof {
        reveal_strlit("|");
        assert("|"@ =~= seq![SEPARATOR]);
    }
    plaintext
}

/// Splits a plaintext at its first separator into the sender's name and the
/// text. The text may hold further separators, and may be empty.
pub fn split_sender(plaintext: &str) -> (r: Result<(String, String), ProtocolError>)
    ensures
        !plaintext@.contains(SEPARATOR) ==> r == Err::<(String, String), ProtocolError>(
            ProtocolError::MissingSeparator,
        ),
        plaintext@.contains(SEPARATOR) ==> r is Ok && r.unwrap().0@ == sender_of(plaintext@)
            && r.unwrap().1@ == text_of(plaintext@),
{
    let n = plaintext.unicode_len();
    let mut i: usize = 0;
    while i < n
        invariant
            n == plaintext@.len(),
            i <= n,
            forall|j: int| 0 <= j < i ==> plaintext@[j] != SEPARATOR,
        decreases n - i,
    {
        if plaintext.get_char(i) == SEPARATOR {
            let sender = plaintext.substring_char(0, i).to_owned();
            let text = plaintext.substring_char(i + 1, n).to_owned();
            proof {
                lemma_first_separator_unique(plaintext@, i as int);
                assert(plaintext@.contains(SEPARATOR));
            }
            return Ok((sender, text));
        }
        i += 1;
    }
    Err(ProtocolError::MissingSeparator)
}

/// Splitting undoes composing: of the plaintext made of a sender's name that
/// holds no separator and a text, the sender is that name and the text that
/// text.
pub proof fn lemma_split_of_composed(sender: Seq<char>, text: Seq<char>)
    requires
        !sender.contains(SEPARATOR),
    ensures
        composed(sender, text).contains(SEPARATOR),
        sender_of(composed(sender, text)) == sender,
        text_of(composed(sender, text)) == text,
{
    let p = composed(sender, text);
    let at = sender.len() as int;
    assert(p[at] == SEPARATOR);
    assert forall|j: int| 0 <= j < at implies p[j] != SEPARATOR by {
        assert(p[j] == sender[j]);
        assert(sender.contains(sender[j]));
    }
    assert(is_first_separator(p, at));
    lemma_first_separator_unique(p, at);
    assert(sender_of(p) =~= sender);
    assert(text_of(p) =~= text);
}

/// Composing undoes splitting: a plaintext that holds a separator is made of
/// its sender and its text, and its sender holds no separator.
pub proof fn lemma_composed_of_split(plaintext: Seq<char>)
    requires
        plaintext.contains(SEPARATOR),
    ensures
        composed(sender_of(plaintext), text_of(plaintext)) == plaintext,
        !sender_of(plaintext).contains(SEPARATOR),
{
    lemma_separator_exists(plaintext, plaintext.len() as int);
    let k = separator_index(plaintext);
    assert(is_first_separator(plaintext, k));
    assert(composed(sender_of(plaintext), text_of(plaintext)) =~= plaintext);
    if sender_of(plaintext).contains(SEPARATOR) {
        let j = choose|j: int|
            0 <= j < sender_of(plaintext).len() && sender_of(plaintext)[j] == SEPARATOR;
        assert(plaintext[j] == SEPARATOR);
    }
}

/// A plaintext that holds a separator within its first `n` characters has a
/// first separator.
proof fn lemma_separator_exists(plaintext: Seq<char>, n: int)
    requires
        0 <= n <= plaintext.len(),
        exists|i: int| 0 <= i < n && plaintext[i] == SEPARATOR,
    ensures
        exists|i: int| is_first_separator(plaintext, i),
    decreases n,
{
    if exists|i: int| 0 <= i < n - 1 && plaintext[i] == SEPARATOR {
        lemma_separator_exists(plaintext, n - 1);
    } else {
        assert(plaintext[n - 1] == SEPARATOR);
        assert(is_first_separator(plaintext, n - 1));
    }
}

} // verus!
