//! Markup escaping: free-form text is made safe for the markup-sensitive
//! transport by prefixing every reserved character with a backslash.

use vstd::prelude::*;

verus! {

/// The fixed set of characters the transport's markup dialect reserves.
pub open spec fn is_reserved(c: char) -> bool {
    ||| c == '_'
    ||| c == '*'
    ||| c == '['
    ||| c == ']'
    ||| c == '('
    ||| c == ')'
    ||| c == '~'
    ||| c == '`'
    ||| c == '>'
    ||| c == '#'
    ||| c == '+'
    ||| c == '-'
    ||| c == '='
    ||| c == '|'
    ||| c == '{'
    ||| c == '}'
    ||| c == '.'
    ||| c == '!'
}

/// What one character of the input becomes in the escaped output.
pub open spec fn escape_char(c: char) -> Seq<char> {
    if is_reserved(c) {
        seq!['\\', c]
    } else {
        seq![c]
    }
}

/// The escaped form of a whole text, character by character.
pub open spec fn escape_text(s: Seq<char>) -> Seq<char>
    decreases s.len(),
{
    if s.len() == 0 {
        Seq::empty()
    } else {
        escape_char(s[0]) + escape_text(s.drop_first())
    }
}

/// The text with every escape character (backslash) removed.
pub open spec fn strip_escapes(s: Seq<char>) -> Seq<char>
    decreases s.len(),
{
    if s.len() == 0 {
        Seq::empty()
    } else if s[0] == '\\' {
        strip_escapes(s.drop_first())
    } else {
        seq![s[0]] + strip_escapes(s.drop_first())
    }
}

proof fn lemma_escape_text_concat(a: Seq<char>, b: Seq<char>)
    ensures
        escape_text(a + b) == escape_text(a) + escape_text(b),
    decreases a.len(),
{
    if a.len() == 0 {
        assert(a + b =~= b);
        assert(escape_text(a) + escape_text(b) =~= escape_text(b));
    } else {
        assert((a + b).drop_first() =~= a.drop_first() + b);
        lemma_escape_text_concat(a.drop_first(), b);
        assert(escape_char(a[0]) + (escape_text(a.drop_first()) + escape_text(b)) =~= (
        escape_char(a[0]) + escape_text(a.drop_first())) + escape_text(b));
    }
}

proof fn lemma_strip_escapes_concat(a: Seq<char>, b: Seq<char>)
    ensures
        strip_escapes(a + b) == strip_escapes(a) + strip_escapes(b),
    decreases a.len(),
{
    if a.len() == 0 {
        assert(a + b =~= b);
        assert(strip_escapes(a) + strip_escapes(b) =~= strip_escapes(b));
    } else {
        assert((a + b).drop_first() =~= a.drop_first() + b);
        lemma_strip_escapes_concat(a.drop_first(), b);
        if a[0] != '\\' {
            assert(seq![a[0]] + (strip_escapes(a.drop_first()) + strip_escapes(b)) =~= (
            seq![a[0]] + strip_escapes(a.drop_first())) + strip_escapes(b));
        }
    }
}

proof fn lemma_escape_text_snoc(s: Seq<char>, i: int)
    requires
        0 <= i < s.len(),
    ensures
        escape_text(s.take(i + 1)) == escape_text(s.take(i)) + escape_char(s[i]),
{
    assert(s.take(i + 1) =~= s.take(i) + seq![s[i]]);
    lemma_escape_text_concat(s.take(i), seq![s[i]]);
    assert(seq![s[i]].drop_first() =~= Seq::<char>::empty());
    assert(escape_text(Seq::<char>::empty()) == Seq::<char>::empty());
    assert(escape_char(s[i]) + Seq::<char>::empty() =~= escape_char(s[i]));
    assert(escape_text(seq![s[i]]) =~= escape_char(s[i]));
}

/// The escaped output is never shorter than the input.
pub proof fn lemma_escape_text_len(s: Seq<char>)
    ensures
        escape_text(s).len() >= s.len(),
    decreases s.len(),
{
    if s.len() > 0 {
        lemma_escape_text_len(s.drop_first());
    }
}

proof fn lemma_strip_escapes_single(c: char)
    requires
        c != '\\',
    ensures
        strip_escapes(seq![c]) == seq![c],
{
    assert(seq![c].drop_first() =~= Seq::<char>::empty());
    assert(strip_escapes(Seq::<char>::empty()) == Seq::<char>::empty());
    assert(seq![c] + Seq::<char>::empty() =~= seq![c]);
}

/// Removing the escape character from the escaped output reconstructs the
/// original text exactly, provided the original held no bare backslash
/// (a backslash is not reserved, so stripping would also take it out).
pub proof fn lemma_strip_escapes_roundtrip(s: Seq<char>)
    requires
        forall|i: int| 0 <= i < s.len() ==> s[i] != '\\',
    ensures
        strip_escapes(escape_text(s)) == s,
    decreases s.len(),
{
    if s.len() == 0 {
        assert(strip_escapes(escape_text(s)) =~= s);
    } else {
        let c = s[0];
        let rest = s.drop_first();
        lemma_strip_escapes_concat(escape_char(c), escape_text(rest));
        lemma_strip_escapes_roundtrip(rest);
        assert(c != '\\');
        lemma_strip_escapes_single(c);
        if is_reserved(c) {
            assert(escape_char(c)[0] == '\\');
            assert(escape_char(c).drop_first() =~= seq![c]);
            assert(strip_escapes(escape_char(c)) == strip_escapes(seq![c]));
        } else {
            assert(escape_char(c) =~= seq![c]);
        }
        assert(strip_escapes(escape_char(c)) == seq![c]);
        assert(seq![c] + rest =~= s);
    }
}

/// Text that holds no reserved character is escaped to itself.
pub proof fn lemma_escape_text_identity(s: Seq<char>)
    requires
        forall|i: int| 0 <= i < s.len() ==> !is_reserved(s[i]),
    ensures
        escape_text(s) == s,
    decreases s.len(),
{
    if s.len() == 0 {
        assert(escape_text(s) =~= s);
    } else {
        lemma_escape_text_identity(s.drop_first());
        assert(escape_text(s) =~= seq![s[0]] + s.drop_first());
        assert(seq![s[0]] + s.drop_first() =~= s);
    }
}

/// Whether the transport's markup dialect reserves this character.
pub fn is_reserved_char(c: char) -> (r: bool)
    ensures
        r == is_reserved(c),
{
    c == '_' || c == '*' || c == '[' || c == ']' || c == '(' || c == ')' || c == '~' || c == '`'
        || c == '>' || c == '#' || c == '+' || c == '-' || c == '=' || c == '|' || c == '{'
        || c == '}' || c == '.' || c == '!'
}

/// A piece of text already escaped for the markup-sensitive transport.
///
/// Escaping is not idempotent: escaping an already-escaped text doubles its
/// escapes, so text must pass through here exactly once, where it enters a
/// formatted message.
pub struct TgMarkdownString(String);

impl View for TgMarkdownString {
    type V = Seq<char>;

    closed spec fn view(&self) -> Seq<char> {
        self.0@
    }
}

impl TgMarkdownString {
    /// Escapes arbitrary text: every reserved character gains a backslash
    /// prefix; every other character, non-ASCII included, is kept verbatim.
    pub fn new(s: &str) -> (r: Self)
        ensures
            r@ == escape_text(s@),
            r@.len() >= s@.len(),
    {
        proof {
            lemma_escape_text_len(s@);
        }
        let len: usize = s.unicode_len();
        let mut escaped = String::new();
        let mut i: usize = 0;
        while i < len
            invariant
                len == s@.len(),
                i <= len,
                escaped@ == escape_text(s@.take(i as int)),
            decreases len - i,
        {
            let c = s.get_char(i);
            proof {
                lemma_escape_text_snoc(s@, i as int);
            }
            if is_reserved_char(c) {
                escaped.push('\\');
                proof {
                    assert(escaped@ =~= escape_text(s@.take(i as int)) + seq!['\\']);
                }
            }
            escaped.push(c);
            proof {
                assert(escaped@ =~= escape_text(s@.take(i as int)) + escape_char(s@[i as int]));
            }
            i += 1;
        }
        proof {
            assert(s@.take(len as int) =~= s@);
        }
        TgMarkdownString(escaped)
    }

    /// The escaped text itself.
    pub fn as_str(&self) -> (r: &str)
        ensures
            r@ == self@,
    {
        self.0.as_str()
    }
}

} // verus!
