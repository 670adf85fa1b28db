//! Message kinds and the human-readable relay line.
//!
//! A relay line is the string a sender's display name and text message are
//! combined into before serialization: the name in escaped form, the
//! separator `": "`, then the text unchanged. Escaping removes every colon
//! from the name (a backslash doubles, a colon becomes a backslash followed
//! by `c`), so the first occurrence of the separator is always the one the
//! line was built with, and splitting there then unescaping recovers both
//! the name and the text exactly — for every name and every text, including
//! ones that contain the separator. A name without backslashes or colons,
//! such as the generated display names, is its own escaped form, so its
//! relay lines read as plainly as before.

use vstd::prelude::*;
use vstd::string::StrSliceExecFns;
use vstd::string::StringExecFns;

verus! {

/// A message waiting in a session's outbound queue.
///
/// `Welcome` carries plain text shown only to the session's own client;
/// `Relayed` carries the serialized binary payload of another session's
/// relay line. The two are distinguishable by kind alone.
pub enum OutboundMessage {
    Welcome(String),
    Relayed(Vec<u8>),
}

/// A decoded relay line: the sender's display name and the message text.
pub struct ChatMessage {
    pub user_name: String,
    pub content: String,
}

/// The escaped form of one display-name character: a backslash doubles, a
/// colon becomes a backslash followed by `c`, anything else stands as
/// itself. Backslash starts every two-character token, so escaped text
/// reads back unambiguously, and no escaped character yields a colon.
pub open spec fn char_escape(c: char) -> Seq<char> {
    if c == '\\' {
        seq!['\\', '\\']
    } else if c == ':' {
        seq!['\\', 'c']
    } else {
        seq![c]
    }
}

/// The escaped form of a display name: each character in escaped form, in
/// order.
pub open spec fn escape_spec(s: Seq<char>) -> Seq<char>
    decreases s.len(),
{
    if s.len() == 0 {
        Seq::empty()
    } else {
        char_escape(s[0]) + escape_spec(s.skip(1))
    }
}

/// The inverse of [`escape_spec`]: `None` on text that is not the escaped
/// form of any name.
pub open spec fn unescape_spec(e: Seq<char>) -> Option<Seq<char>>
    decreases e.len(),
{
    if e.len() == 0 {
        Some(Seq::empty())
    } else if e[0] == '\\' {
        if e.len() >= 2 && e[1] == '\\' {
            match unescape_spec(e.skip(2)) {
                Some(t) => Some(seq!['\\'] + t),
                None => None,
            }
        } else if e.len() >= 2 && e[1] == 'c' {
            match unescape_spec(e.skip(2)) {
                Some(t) => Some(seq![':'] + t),
                None => None,
            }
        } else {
            None
        }
    } else {
        match unescape_spec(e.skip(1)) {
            Some(t) => Some(seq![e[0]] + t),
            None => None,
        }
    }
}

/// The relay line built from a sender's display name and message text: the
/// escaped name, the separator, the text.
pub open spec fn relay_line_spec(name: Seq<char>, text: Seq<char>) -> Seq<char> {
    escape_spec(name) + ": "@ + text
}

/// The greeting enqueued for a newly joined session.
pub open spec fn welcome_text_spec(name: Seq<char>) -> Seq<char> {
    "Welcome to chat, "@ + name + "! You are now connected."@
}

/// The two-character separator `": "` starts at index `i` of `s`.
pub open spec fn is_sep_at(s: Seq<char>, i: int) -> bool {
    0 <= i && i + 2 <= s.len() && s[i] == ':' && s[i + 1] == ' '
}

/// `s` contains no occurrence of the separator.
pub open spec fn sep_free(s: Seq<char>) -> bool {
    forall|i: int| !is_sep_at(s, i)
}

/// An escaped name contains no colon, so no separator either.
pub proof fn lemma_escape_sep_free(s: Seq<char>)
    ensures
        forall|i: int| 0 <= i < escape_spec(s).len() ==> escape_spec(s)[i] != ':',
        sep_free(escape_spec(s)),
    decreases s.len(),
{
    let e = escape_spec(s);
    if s.len() > 0 {
        lemma_escape_sep_free(s.skip(1));
        let h = char_escape(s[0]);
        assert forall|i: int| 0 <= i < e.len() implies e[i] != ':' by {
            if i < h.len() {
                assert(e[i] == h[i]);
            } else {
                assert(e[i] == escape_spec(s.skip(1))[i - h.len()]);
            }
        }
    }
    assert forall|i: int| !is_sep_at(e, i) by {
        if 0 <= i && i + 2 <= e.len() {
            assert(e[i] != ':');
        }
    }
}

/// Unescaping inverts escaping: every display name comes back exactly.
pub proof fn lemma_unescape_escape(s: Seq<char>)
    ensures
        unescape_spec(escape_spec(s)) == Some(s),
    decreases s.len(),
{
    if s.len() > 0 {
        lemma_unescape_escape(s.skip(1));
        let e = escape_spec(s);
        let rest = escape_spec(s.skip(1));
        if s[0] == '\\' {
            assert(e[0] == '\\' && e[1] == '\\');
            assert(e.skip(2) =~= rest);
            assert(seq!['\\'] + s.skip(1) =~= s);
        } else if s[0] == ':' {
            assert(e[0] == '\\' && e[1] == 'c');
            assert(e.skip(2) =~= rest);
            assert(seq![':'] + s.skip(1) =~= s);
        } else {
            assert(e[0] == s[0]);
            assert(e.skip(1) =~= rest);
            assert(seq![s[0]] + s.skip(1) =~= s);
        }
    }
}

/// Relies on std String::push: appends the one character at the end.
#[verifier::external_body]
fn push_char(s: &mut String, c: char)
    ensures
        final(s)@ == old(s)@.push(c),
{
    s.push(c);
}

/// Escape a display name so that it contains no colon.
pub fn escape_name(name: &str) -> (r: String)
    ensures
        r@ == escape_spec(name@),
{
    let n = name.unicode_len();
    let mut r = String::new();
    let mut i: usize = 0;
    proof {
        assert(name@.skip(0) =~= name@);
        assert(Seq::<char>::empty() + escape_spec(name@) =~= escape_spec(name@));
    }
    while i < n
        invariant
            n == name@.len(),
            i <= n,
            r@ + escape_spec(name@.skip(i as int)) == escape_spec(name@),
        decreases n - i,
    {
        let ghost r0 = r@;
        let c = name.get_char(i);
        if c == '\\' {
            push_char(&mut r, '\\');
            push_char(&mut r, '\\');
        } else if c == ':' {
            push_char(&mut r, '\\');
            push_char(&mut r, 'c');
        } else {
            push_char(&mut r, c);
        }
        proof {
            let suffix = name@.skip(i as int);
            assert(suffix[0] == name@[i as int]);
            assert(suffix.skip(1) =~= name@.skip(i as int + 1));
            assert(escape_spec(suffix) == char_escape(c) + escape_spec(name@.skip(i as int + 1)));
            assert(r@ =~= r0 + char_escape(c));
            assert(r@ + escape_spec(name@.skip(i as int + 1)) =~= r0 + escape_spec(suffix));
        }
        i = i + 1;
    }
    proof {
        assert(name@.skip(n as int) =~= Seq::<char>::empty());
        assert(r@ + escape_spec(Seq::<char>::empty()) =~= r@);
    }
    r
}

/// Undo [`escape_name`]: `None` on text that is not an escaped name.
pub fn unescape_name(esc: &str) -> (r: Option<String>)
    ensures
        match r {
            Some(t) => unescape_spec(esc@) == Some(t@),
            None => unescape_spec(esc@) is None,
        },
{
    let n = esc.unicode_len();
    let mut out = String::new();
    let mut i: usize = 0;
    proof {
        assert(esc@.skip(0) =~= esc@);
        if unescape_spec(esc@) is Some {
            assert(Seq::<char>::empty() + unescape_spec(esc@)->Some_0 =~= unescape_spec(
                esc@,
            )->Some_0);
        }
    }
    while i < n
        invariant
            n == esc@.len(),
            i <= n,
            unescape_spec(esc@) == match unescape_spec(esc@.skip(i as int)) {
                Some(t) => Some(out@ + t),
                None => None::<Seq<char>>,
            },
        decreases n - i,
    {
        let ghost out0 = out@;
        let ghost suffix = esc@.skip(i as int);
        let c = esc.get_char(i);
        proof {
            assert(suffix[0] == c);
        }
        if c == '\\' {
            if i + 1 >= n {
                proof {
                    assert(suffix.len() < 2);
                    assert(unescape_spec(suffix) is None);
                }
                return None;
            }
            let c2 = esc.get_char(i + 1);
            proof {
                assert(suffix[1] == c2);
                assert(suffix.skip(2) =~= esc@.skip(i as int + 2));
            }
            if c2 == '\\' {
                push_char(&mut out, '\\');
                proof {
                    if unescape_spec(esc@.skip(i as int + 2)) is Some {
                        let t = unescape_spec(esc@.skip(i as int + 2))->Some_0;
                        assert(out@ + t =~= out0 + (seq!['\\'] + t));
                    }
                }
                i = i + 2;
            } else if c2 == 'c' {
                push_char(&mut out, ':');
                proof {
                    if unescape_spec(esc@.skip(i as int + 2)) is Some {
                        let t = unescape_spec(esc@.skip(i as int + 2))->Some_0;
                        assert(out@ + t =~= out0 + (seq![':'] + t));
                    }
                }
                i = i + 2;
            } else {
                proof {
                    assert(unescape_spec(suffix) is None);
                }
                return None;
            }
        } else {
            push_char(&mut out, c);
            proof {
                assert(suffix.skip(1) =~= esc@.skip(i as int + 1));
                if unescape_spec(esc@.skip(i as int + 1)) is Some {
                    let t = unescape_spec(esc@.skip(i as int + 1))->Some_0;
                    assert(out@ + t =~= out0 + (seq![c] + t));
                }
            }
            i = i + 1;
        }
    }
    proof {
        assert(esc@.skip(n as int) =~= Seq::<char>::empty());
        assert(out@ + Seq::<char>::empty() =~= out@);
    }
    Some(out)
}

/// Build the relay line for display name `name` and message text `text`.
pub fn format_relay_line(name: &str, text: &str) -> (line: String)
    ensures
        line@ == relay_line_spec(name@, text@),
{
    escape_name(name).concat(": ").concat(text)
}

/// Build the greeting text for a newly joined session named `name`.
pub fn welcome_text(name: &str) -> (t: String)
    ensures
        t@ == welcome_text_spec(name@),
{
    String::from_str("Welcome to chat, ").concat(name).concat("! You are now connected.")
}

/// Split a relay line at the first occurrence of the separator `": "`,
/// without unescaping.
///
/// Returns the part before the separator (the escaped name) and the part
/// after it (the text); `None` when no separator occurs.
pub fn split_relay_line(line: &str) -> (r: Option<ChatMessage>)
    ensures
        match r {
            Some(m) => exists|i: int|
                {
                    &&& #[trigger] is_sep_at(line@, i)
                    &&& (forall|j: int| 0 <= j < i ==> !is_sep_at(line@, j))
                    &&& m.user_name@ == line@.subrange(0, i)
                    &&& m.content@ == line@.subrange(i + 2, line@.len() as int)
                },
            None => sep_free(line@),
        },
{
    let n = line.unicode_len();
    let mut i: usize = 0;
    while i < n && i + 1 < n
        invariant
            n == line@.len(),
            i <= n,
            forall|j: int| 0 <= j < i ==> !is_sep_at(line@, j),
        decreases n - i,
    {
        if line.get_char(i) == ':' && line.get_char(i + 1) == ' ' {
            let name = line.substring_char(0, i);
            let text = line.substring_char(i + 2, n);
            proof {
                assert(is_sep_at(line@, i as int));
            }
            return Some(
                ChatMessage { user_name: String::from_str(name), content: String::from_str(text) },
            );
        }
        i = i + 1;
    }
    proof {
        assert forall|j: int| !is_sep_at(line@, j) by {
            if 0 <= j && j + 2 <= line@.len() {
                assert(!is_sep_at(line@, j));
            }
        }
    }
    None
}

/// A relay line splits at the separator it was built with.
///
/// For every name and every text (either may contain the separator), the
/// first separator of the relay line stands right after the escaped name,
/// so splitting there yields the escaped name and the text exactly.
pub proof fn lemma_relay_line_split(name: Seq<char>, text: Seq<char>)
    ensures
        is_sep_at(relay_line_spec(name, text), escape_spec(name).len() as int),
        forall|j: int|
            0 <= j < escape_spec(name).len() ==> !is_sep_at(relay_line_spec(name, text), j),
        relay_line_spec(name, text).subrange(0, escape_spec(name).len() as int) == escape_spec(
            name,
        ),
        relay_line_spec(name, text).subrange(
            escape_spec(name).len() as int + 2,
            relay_line_spec(name, text).len() as int,
        ) == text,
{
    let en = escape_spec(name);
    let line = relay_line_spec(name, text);
    lemma_escape_sep_free(name);
    reveal_strlit(": ");
    assert(line[en.len() as int] == ':');
    assert(line[en.len() as int + 1] == ' ');
    assert(is_sep_at(line, en.len() as int));
    assert forall|j: int| 0 <= j < en.len() implies !is_sep_at(line, j) by {
        if j + 2 <= en.len() {
            assert(!is_sep_at(en, j));
            assert(line[j] == en[j]);
            assert(line[j + 1] == en[j + 1]);
        } else {
            // The separator would have to span the end of the escaped name,
            // but the character right after its last one is ':', not ' '.
            assert(j == en.len() as int - 1);
            assert(line[j + 1] == ':');
        }
    }
    assert(line.subrange(0, en.len() as int) =~= en);
    assert(line.subrange(en.len() as int + 2, line.len() as int) =~= text);
}

/// Split a relay line and unescape the name: the exact inverse of
/// [`format_relay_line`], for every display name and every text.
pub fn parse_relay_line(line: &str) -> (r: Option<ChatMessage>)
    ensures
        forall|name: Seq<char>, text: Seq<char>|
            line@ == relay_line_spec(name, text) ==> (r matches Some(m) && m.user_name@ == name
                && m.content@ == text),
{
    let raw = match split_relay_line(line) {
        Option::None => {
            proof {
                assert forall|name: Seq<char>, text: Seq<char>|
                    line@ == relay_line_spec(name, text) implies false by {
                    lemma_relay_line_split(name, text);
                }
            }
            return Option::None;
        },
        Option::Some(raw) => raw,
    };
    let user_name = match unescape_name(raw.user_name.as_str()) {
        Option::None => {
            proof {
                assert forall|name: Seq<char>, text: Seq<char>|
                    line@ == relay_line_spec(name, text) implies false by {
                    lemma_split_is_escaped_name(line@, raw.user_name@, raw.content@, name, text);
                    lemma_unescape_escape(name);
                }
            }
            return Option::None;
        },
        Option::Some(user_name) => user_name,
    };
    let r = Option::Some(ChatMessage { user_name, content: raw.content });
    proof {
        assert forall|name: Seq<char>, text: Seq<char>|
            line@ == relay_line_spec(name, text) implies (r matches Some(m) && m.user_name@ == name
            && m.content@ == text) by {
            lemma_split_is_escaped_name(line@, raw.user_name@, raw.content@, name, text);
            lemma_unescape_escape(name);
        }
    }
    r
}

/// On a relay line, what the first-separator split returned is the escaped
/// name and the text the line was built with.
proof fn lemma_split_is_escaped_name(
    line: Seq<char>,
    raw_name: Seq<char>,
    raw_text: Seq<char>,
    name: Seq<char>,
    text: Seq<char>,
)
    requires
        line == relay_line_spec(name, text),
        exists|i: int|
            {
                &&& #[trigger] is_sep_at(line, i)
                &&& (forall|j: int| 0 <= j < i ==> !is_sep_at(line, j))
                &&& raw_name == line.subrange(0, i)
                &&& raw_text == line.subrange(i + 2, line.len() as int)
            },
    ensures
        raw_name == escape_spec(name),
        raw_text == text,
{
    lemma_relay_line_split(name, text);
    let k = escape_spec(name).len() as int;
    let i = choose|i: int|
        {
            &&& #[trigger] is_sep_at(line, i)
            &&& (forall|j: int| 0 <= j < i ==> !is_sep_at(line, j))
            &&& raw_name == line.subrange(0, i)
            &&& raw_text == line.subrange(i + 2, line.len() as int)
        };
    // The first separator is unique: one before the other would contradict
    // the other's none-before clause.
    assert(i == k);
}

} // verus!
