//! Literal SQL text: identifier quoting and string escaping.

use vstd::prelude::*;

verus! {

/// Relies on `String::push`: the character is appended at the end.
pub assume_specification[ std::string::String::push ](s: &mut std::string::String, ch: char)
    ensures
        final(s)@ == old(s)@.push(ch),
;

/// The text of one character as it appears after escaping: a single quote
/// is doubled, every other character stands for itself.
pub open spec fn escape_char(c: char) -> Seq<char> {
    if c == '\'' {
        seq!['\'', '\'']
    } else {
        seq![c]
    }
}

/// Standard SQL string-literal escaping of a whole text.
pub open spec fn escape_spec(s: Seq<char>) -> Seq<char>
    decreases s.len(),
{
    if s.len() == 0 {
        Seq::empty()
    } else {
        escape_char(s[0]) + escape_spec(s.drop_first())
    }
}

/// Reading an escaped text back: a doubled quote stands for one quote.
pub open spec fn unescape_spec(t: Seq<char>) -> Seq<char>
    decreases t.len(),
{
    if t.len() == 0 {
        Seq::empty()
    } else if t.len() >= 2 && t[0] == '\'' && t[1] == '\'' {
        seq!['\''] + unescape_spec(t.subrange(2, t.len() as int))
    } else {
        seq![t[0]] + unescape_spec(t.drop_first())
    }
}

/// Every single quote in `t` is immediately followed by a second one, and the
/// two form a pair: no quote stands alone.
pub open spec fn quotes_paired(t: Seq<char>) -> bool
    decreases t.len(),
{
    if t.len() == 0 {
        true
    } else if t[0] == '\'' {
        t.len() >= 2 && t[1] == '\'' && quotes_paired(t.subrange(2, t.len() as int))
    } else {
        quotes_paired(t.drop_first())
    }
}

/// `s` wrapped in backticks.
pub open spec fn identifier_spec(s: Seq<char>) -> Seq<char> {
    seq!['`'] + s + seq!['`']
}

/// `s` escaped and wrapped in single quotes.
pub open spec fn string_literal_spec(s: Seq<char>) -> Seq<char> {
    seq!['\''] + escape_spec(s) + seq!['\'']
}

pub proof fn lemma_escape_concat(a: Seq<char>, b: Seq<char>)
    ensures
        escape_spec(a + b) == escape_spec(a) + escape_spec(b),
    decreases a.len(),
{
    if a.len() == 0 {
        assert(a + b =~= b);
    } else {
        assert((a + b).drop_first() =~= a.drop_first() + b);
        lemma_escape_concat(a.drop_first(), b);
    }
}

/// Escaping leaves no single quote on its own: every quote is doubled.
pub proof fn lemma_escape_pairs_quotes(s: Seq<char>)
    ensures
        quotes_paired(escape_spec(s)),
    decreases s.len(),
{
    if s.len() > 0 {
        lemma_escape_pairs_quotes(s.drop_first());
        let e = escape_spec(s);
        let rest = escape_spec(s.drop_first());
        if s[0] == '\'' {
            assert(e.subrange(2, e.len() as int) =~= rest);
        } else {
            assert(e.drop_first() =~= rest);
        }
    }
}

/// Reading an escaped text back under the standard rule gives back the text
/// that was escaped.
pub proof fn lemma_escape_round_trip(s: Seq<char>)
    ensures
        unescape_spec(escape_spec(s)) == s,
    decreases s.len(),
{
    if s.len() > 0 {
        lemma_escape_round_trip(s.drop_first());
        let e = escape_spec(s);
        let rest = escape_spec(s.drop_first());
        if s[0] == '\'' {
            assert(e.subrange(2, e.len() as int) =~= rest);
        } else {
            assert(e.drop_first() =~= rest);
        }
        assert(seq![s[0]] + s.drop_first() =~= s);
    }
}

/// Quoting and escaping of SQL identifiers and string literals.
pub struct SqlFormatter;

impl SqlFormatter {
    /// Wraps `name` in backticks; backticks inside `name` are left as they are.
    pub fn format_identifier(name: &str) -> (r: String)
        ensures
            r@ == identifier_spec(name@),
    {
        let mut r = String::new();
        r.push('`');
        r.append(name);
        r.push('`');
        proof {
            assert(r@ =~= identifier_spec(name@));
        }
        r
    }

    /// Replaces every single quote with two single quotes.
    pub fn escape_string(s: &str) -> (r: String)
        ensures
            r@ == escape_spec(s@),
    {
        let n = s.unicode_len();
        let mut r = String::new();
        let mut i: usize = 0;
        while i < n
            invariant
                n == s@.len(),
                i <= n,
                r@ == escape_spec(s@.take(i as int)),
            decreases n - i,
        {
            let c = s.get_char(i);
            proof {
                assert(s@.take(i as int + 1) =~= s@.take(i as int) + seq![c]);
                lemma_escape_concat(s@.take(i as int), seq![c]);
                assert(seq![c].drop_first() =~= Seq::<char>::empty());
                assert(escape_spec(Seq::<char>::empty()) =~= Seq::<char>::empty());
                assert(escape_spec(seq![c]) =~= escape_char(c));
            }
            if c == '\'' {
                r.push('\'');
                r.push('\'');
            } else {
                r.push(c);
            }
            proof {
                assert(r@ =~= escape_spec(s@.take(i as int + 1)));
            }
            i = i + 1;
        }
        proof {
            assert(s@.take(n as int) =~= s@);
        }
        r
    }

    /// Escapes `s` and wraps it in single quotes.
    pub fn format_string_literal(s: &str) -> (r: String)
        ensures
            r@ == string_literal_spec(s@),
    {
        let escaped = Self::escape_string(s);
        let mut r = String::new();
        r.push('\'');
        r.append(escaped.as_str());
        r.push('\'');
        proof {
            assert(r@ =~= string_literal_spec(s@));
        }
        r
    }
}

} // verus!
