//! Quoting of arguments for a POSIX shell, and what the shell makes of
//! a quoted argument.

use vstd::prelude::*;

verus! {

/// Whether `c` may stand in a shell word without quoting: an ASCII
/// letter or digit, or one of `- _ = / , . +`.
pub open spec fn is_plain(c: char) -> bool {
    let u = c as u32;
    ||| 0x61 <= u <= 0x7A
    ||| 0x41 <= u <= 0x5A
    ||| 0x30 <= u <= 0x39
    ||| c == '-'
    ||| c == '_'
    ||| c == '='
    ||| c == '/'
    ||| c == ','
    ||| c == '.'
    ||| c == '+'
}

/// Whether every character of `s` is plain.
pub open spec fn all_plain(s: Seq<char>) -> bool {
    forall|i: int| 0 <= i < s.len() ==> is_plain(#[trigger] s[i])
}

/// How one character is written inside a quoted word: a single quote
/// or an exclamation mark closes the quotes, follows a backslash, and
/// reopens them; any other character stands for itself.
pub open spec fn quoted_char(c: char) -> Seq<char> {
    if c == '\'' || c == '!' {
        seq!['\'', '\\', c, '\'']
    } else {
        seq![c]
    }
}

/// The characters of `s`, each written as [`quoted_char`] says.
pub open spec fn quoted_body(s: Seq<char>) -> Seq<char>
    decreases s.len(),
{
    if s.len() == 0 {
        Seq::<char>::empty()
    } else {
        quoted_char(s[0]) + quoted_body(s.drop_first())
    }
}

/// `s` as one word of a POSIX shell command line: `s` itself when it is
/// nonempty and all plain, else its quoted body between single quotes.
pub open spec fn shell_quoted(s: Seq<char>) -> Seq<char> {
    if s.len() > 0 && all_plain(s) {
        s
    } else {
        seq!['\''] + quoted_body(s) + seq!['\'']
    }
}

/// Quotes `s` for a POSIX shell.
///
/// Wraps `shell_escape::unix::escape`. The contract restates that
/// function: a nonempty input made only of ASCII letters, digits and
/// `- _ = / , . +` comes back unchanged; any other input comes back
/// between single quotes, with each `'` and `!` inside written as
/// `'\'' ` and `'\!'` respectively.
#[verifier::external_body]
pub(crate) fn escape(s: &str) -> (r: String)
    ensures
        r@ == shell_quoted(s@),
{
    shell_escape::unix::escape(std::borrow::Cow::from(s)).into_owned()
}

/// `r` with `c` put in front, where there is an `r`.
pub open spec fn prepend(c: char, r: Option<Seq<char>>) -> Option<Seq<char>> {
    match r {
        Some(s) => Some(seq![c] + s),
        None => None,
    }
}

/// The argument a POSIX shell reads from the word `w`, scanning from a
/// position inside single quotes (`in_quotes`) or outside them.
///
/// Outside quotes a plain character stands for itself, a backslash
/// makes the next character literal (a backslash before a newline
/// vanishes with it), and a single quote opens a quoted span. Inside
/// quotes every character is literal up to the closing quote. `None`
/// stands for a word this fragment of the grammar does not cover: one
/// with an unquoted character that is special to the shell, an
/// unterminated quote, a trailing backslash, or a NUL, which no
/// argument can carry.
pub open spec fn shell_word_from(w: Seq<char>, in_quotes: bool) -> Option<Seq<char>>
    decreases w.len(),
{
    if w.len() == 0 {
        if in_quotes {
            None
        } else {
            Some(Seq::<char>::empty())
        }
    } else if w[0] == '\0' {
        None
    } else if in_quotes {
        if w[0] == '\'' {
            shell_word_from(w.drop_first(), false)
        } else {
            prepend(w[0], shell_word_from(w.drop_first(), true))
        }
    } else if w[0] == '\'' {
        shell_word_from(w.drop_first(), true)
    } else if w[0] == '\\' {
        if w.len() < 2 || w[1] == '\0' {
            None
        } else if w[1] == '\n' {
            shell_word_from(w.subrange(2, w.len() as int), false)
        } else {
            prepend(w[1], shell_word_from(w.subrange(2, w.len() as int), false))
        }
    } else if is_plain(w[0]) {
        prepend(w[0], shell_word_from(w.drop_first(), false))
    } else {
        None
    }
}

/// The argument a POSIX shell reads from the word `w`.
pub open spec fn shell_word(w: Seq<char>) -> Option<Seq<char>> {
    shell_word_from(w, false)
}

/// Whether `s` holds no NUL.
pub open spec fn nul_free(s: Seq<char>) -> bool {
    forall|i: int| 0 <= i < s.len() ==> #[trigger] s[i] != '\0'
}

proof fn lemma_plain_word(s: Seq<char>)
    requires
        all_plain(s),
    ensures
        shell_word_from(s, false) == Some(s),
    decreases s.len(),
{
    if s.len() > 0 {
        assert(is_plain(s[0]));
        lemma_plain_word(s.drop_first());
        assert(seq![s[0]] + s.drop_first() =~= s);
    }
}

proof fn lemma_quoted_span(s: Seq<char>)
    requires
        nul_free(s),
    ensures
        shell_word_from(quoted_body(s) + seq!['\''], true) == Some(s),
    decreases s.len(),
{
    let w = quoted_body(s) + seq!['\''];
    if s.len() == 0 {
        assert(w =~= seq!['\'']);
        assert(w.drop_first() =~= Seq::<char>::empty());
    } else {
        let c = s[0];
        let rest = s.drop_first();
        let tail = quoted_body(rest) + seq!['\''];
        assert(c != '\0');
        lemma_quoted_span(rest);
        assert(seq![c] + rest =~= s);
        if c == '\'' || c == '!' {
            assert(w =~= seq!['\'', '\\', c, '\''] + tail);
            let w1 = w.drop_first();
            assert(w1 =~= seq!['\\', c, '\''] + tail);
            let w2 = w1.subrange(2, w1.len() as int);
            assert(w2 =~= seq!['\''] + tail);
            assert(w2.drop_first() =~= tail);
            assert(shell_word_from(w2, false) == shell_word_from(tail, true));
            assert(shell_word_from(w1, false) == prepend(c, shell_word_from(w2, false)));
            assert(shell_word_from(w, true) == shell_word_from(w1, false));
        } else {
            assert(w =~= seq![c] + tail);
            assert(w.drop_first() =~= tail);
        }
    }
}

/// Quoting an argument and letting the shell read it back yields the
/// argument, for every argument that holds no NUL.
pub proof fn lemma_quote_round_trip(x: Seq<char>)
    requires
        nul_free(x),
    ensures
        shell_word(shell_quoted(x)) == Some(x),
{
    if x.len() > 0 && all_plain(x) {
        lemma_plain_word(x);
    } else {
        let w = seq!['\''] + quoted_body(x) + seq!['\''];
        lemma_quoted_span(x);
        assert(w.drop_first() =~= quoted_body(x) + seq!['\'']);
    }
}

} // verus!
