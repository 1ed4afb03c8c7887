//! Escaping for Telegram's MarkdownV2.
//!
//! The chat reads a message as markup, and the values that a message carries
//! come from a remote service. A value is therefore written with a backslash in
//! front of each character to which the markup gives a meaning, so that the
//! chat shows the value's own characters and nothing else.

use vstd::prelude::*;

verus! {

/// `String::push` puts one character at the end of the string, and leaves what
/// was there before as it was.
pub assume_specification[ String::push ](text: &mut String, c: char)
    ensures
        final(text)@ == old(text)@.push(c),
;

/// Whether the markup gives `c` a meaning of its own: the eighteen characters
/// that MarkdownV2 asks to be escaped in running text, and the backslash, which
/// does the escaping.
pub open spec fn reserved(c: char) -> bool {
    ||| c == '\\'
    ||| c == '_'
    ||| c == '*'
    ||| c == '['
    ||| c == ']'
    ||| c == '('
    ||| c == ')'
    ||| c == '~'
    ||| c == '`'
    ||| c == '>'
    ||| c == '#'
    ||| c == '+'
    ||| c == '-'
    ||| c == '='
    ||| c == '|'
    ||| c == '{'
    ||| c == '}'
    ||| c == '.'
    ||| c == '!'
}

/// How one character is written: after a backslash if it is reserved, as
/// itself if it is not.
pub open spec fn escaped_char(c: char) -> Seq<char> {
    if reserved(c) {
        seq!['\\', c]
    } else {
        seq![c]
    }
}

/// How a text is written: each of its characters as [`escaped_char`] writes
/// it, in order.
pub open spec fn escaped(text: Seq<char>) -> Seq<char> {
    text.flat_map(|c: char| escaped_char(c))
}

/// Whether the markup reads `text` as plain characters only: read from the
/// left, it is made of characters that are not reserved, each standing alone,
/// and of reserved characters, each behind a backslash of its own.
pub open spec fn neutral(text: Seq<char>) -> bool
    decreases text.len(),
{
    if text.len() == 0 {
        true
    } else if text[0] == '\\' {
        text.len() >= 2 && reserved(text[1]) && neutral(text.skip(2))
    } else {
        !reserved(text[0]) && neutral(text.skip(1))
    }
}

/// What the chat shows for `text`: a backslash is dropped and the character
/// behind it is shown; every other character is shown as it is.
pub open spec fn shown(text: Seq<char>) -> Seq<char>
    decreases text.len(),
{
    if text.len() == 0 {
        Seq::empty()
    } else if text[0] == '\\' && text.len() >= 2 {
        seq![text[1]] + shown(text.skip(2))
    } else {
        seq![text[0]] + shown(text.skip(1))
    }
}

/// Tells whether `c` is reserved.
pub fn is_reserved(c: char) -> (yes: bool)
    ensures
        yes == reserved(c),
{
    c == '\\' || c == '_' || c == '*' || c == '[' || c == ']' || c == '(' || c == ')' || c == '~'
        || c == '`' || c == '>' || c == '#' || c == '+' || c == '-' || c == '=' || c == '|'
        || c == '{' || c == '}' || c == '.' || c == '!'
}

/// Writes `text` for the chat, with every reserved character escaped.
pub fn escape(text: &str) -> (out: String)
    ensures
        out@ == escaped(text@),
{
    let mut out = String::new();
    proof {
        lemma_escaped_empty();
    }
    for c in chars: text.chars()
        invariant
            chars.seq() == text@,
            out@ == escaped(text@.take(chars.index())),
    {
        proof {
            let done = text@.take(chars.index());
            assert(text@.take(chars.index() + 1) == done.push(c));
            lemma_escaped_push(done, c);
        }
        if is_reserved(c) {
            out.push('\\');
        }
        out.push(c);
    }
    proof {
        assert(text@.take(text@.len() as int) == text@);
    }
    out
}

/// The empty text is written as the empty text.
pub proof fn lemma_escaped_empty()
    ensures
        escaped(Seq::empty()) == Seq::<char>::empty(),
{
    let pieces = Seq::<char>::empty().map_values(|c: char| escaped_char(c));
    assert(pieces.len() == 0);
    assert(pieces.flatten() == Seq::<char>::empty());
}

/// A text with one more character behind it is written as the text, and then
/// the character.
pub proof fn lemma_escaped_push(text: Seq<char>, c: char)
    ensures
        escaped(text.push(c)) == escaped(text) + escaped_char(c),
{
    text.lemma_flat_map_push(|c: char| escaped_char(c), c);
}

/// A text with one more character in front of it is written as the
/// character, and then the text.
pub proof fn lemma_escaped_front(text: Seq<char>)
    requires
        text.len() > 0,
    ensures
        escaped(text) == escaped_char(text[0]) + escaped(text.skip(1)),
{
    let f = |c: char| escaped_char(c);
    assert(text.map_values(f).drop_first() == text.skip(1).map_values(f));
}

/// Whatever a text holds, the markup reads what [`escaped`] makes of it as
/// plain characters: no reserved character stands in it without its backslash.
pub proof fn lemma_escaped_is_neutral(text: Seq<char>)
    ensures
        neutral(escaped(text)),
    decreases text.len(),
{
    if text.len() == 0 {
        lemma_escaped_empty();
    } else {
        let rest = escaped(text.skip(1));
        lemma_escaped_front(text);
        lemma_escaped_is_neutral(text.skip(1));
        if reserved(text[0]) {
            assert(escaped(text).skip(2) == rest);
        } else {
            assert(escaped(text).skip(1) == rest);
        }
    }
}

/// Escaping loses nothing: the chat shows what [`escaped`] makes of a text as
/// that text, character for character.
pub proof fn lemma_escaped_shows_text(text: Seq<char>)
    ensures
        shown(escaped(text)) == text,
    decreases text.len(),
{
    if text.len() == 0 {
        lemma_escaped_empty();
    } else {
        let rest = escaped(text.skip(1));
        lemma_escaped_front(text);
        lemma_escaped_shows_text(text.skip(1));
        if reserved(text[0]) {
            assert(escaped(text).skip(2) == rest);
        } else {
            assert(escaped(text).skip(1) == rest);
        }
        assert(seq![text[0]] + text.skip(1) == text);
    }
}

/// A text without reserved characters is plain as it stands: the markup reads
/// it as plain characters, and the chat shows it as it is.
pub proof fn lemma_unreserved_is_plain(text: Seq<char>)
    requires
        forall|i: int| 0 <= i < text.len() ==> !reserved(#[trigger] text[i]),
    ensures
        neutral(text),
        shown(text) == text,
    decreases text.len(),
{
    if text.len() > 0 {
        let rest = text.skip(1);
        assert forall|i: int| 0 <= i < rest.len() implies !reserved(#[trigger] rest[i]) by {
            assert(rest[i] == text[i + 1]);
        }
        lemma_unreserved_is_plain(rest);
        assert(seq![text[0]] + rest == text);
    }
}

/// Two texts that the markup reads as plain characters are read so when they
/// are joined, and the chat shows the first and then the second.
pub proof fn lemma_neutral_concat(a: Seq<char>, b: Seq<char>)
    requires
        neutral(a),
        neutral(b),
    ensures
        neutral(a + b),
        shown(a + b) == shown(a) + shown(b),
    decreases a.len(),
{
    if a.len() == 0 {
        assert(a + b == b);
        assert(shown(a) + shown(b) == shown(b));
    } else if a[0] == '\\' {
        lemma_neutral_concat(a.skip(2), b);
        assert((a + b).skip(2) == a.skip(2) + b);
        assert(seq![a[1]] + (shown(a.skip(2)) + shown(b)) == (seq![a[1]] + shown(a.skip(2)))
            + shown(b));
    } else {
        lemma_neutral_concat(a.skip(1), b);
        assert((a + b).skip(1) == a.skip(1) + b);
        assert(seq![a[0]] + (shown(a.skip(1)) + shown(b)) == (seq![a[0]] + shown(a.skip(1)))
            + shown(b));
    }
}

} // verus!
