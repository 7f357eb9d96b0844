//! Quoting of values for a POSIX shell, and a model of how the shell
//! splits a command line into words, against which the quoting is
//! proved to hand every value through unchanged.
use vstd::prelude::*;

verus! {

/// Characters that `shell_escape` leaves unquoted: they mean nothing
/// special to the shell.
pub open spec fn is_shell_safe_char(c: char) -> bool {
    ||| ('a' <= c && c <= 'z')
    ||| ('A' <= c && c <= 'Z')
    ||| ('0' <= c && c <= '9')
    ||| c == '-'
    ||| c == '_'
    ||| c == '='
    ||| c == '/'
    ||| c == ','
    ||| c == '.'
    ||| c == '+'
}

pub open spec fn all_shell_safe(s: Seq<char>) -> bool {
    forall|i: int| 0 <= i < s.len() ==> is_shell_safe_char(#[trigger] s[i])
}

/// How one character stands inside the single quotes of an escaped
/// value: a quote or a `!` leaves the quotes, is escaped with a
/// backslash, and reopens them.
pub open spec fn quoted_char(c: char) -> Seq<char> {
    if c == '\'' || c == '!' {
        seq!['\'', '\\', c, '\'']
    } else {
        seq![c]
    }
}

pub open spec fn quoted_body(s: Seq<char>) -> Seq<char>
    decreases s.len(),
{
    if s.len() == 0 {
        Seq::empty()
    } else {
        quoted_body(s.drop_last()) + quoted_char(s.last())
    }
}

/// What `shell_escape::unix::escape` makes of `s`: `s` itself when it is
/// non-empty and made of safe characters only, else `s` in single quotes.
pub open spec fn shell_escaped(s: Seq<char>) -> Seq<char> {
    if s.len() > 0 && all_shell_safe(s) {
        s
    } else {
        seq!['\''] + quoted_body(s) + seq!['\'']
    }
}

/// Calls `shell_escape::unix::escape`. The contract claims what the
/// crate's source (version 0.1.5) does: a non-empty string of safe
/// characters is returned as it is; any other string is put in single
/// quotes, each `'` in it written as `'\''` and each `!` as `'\!'`
/// (leave the quotes, backslash-escape the character, reopen them).
#[verifier::external_body]
pub(crate) fn escape_for_shell(s: &str) -> (escaped: String)
    ensures
        escaped@ == shell_escaped(s@),
{
    shell_escape::unix::escape(std::borrow::Cow::Borrowed(s)).into_owned()
}

// ---------------------------------------------------------------------
// A model of the shell's word splitting and quote removal.
// ---------------------------------------------------------------------

/// Where the shell's lexer stands in a command line.
pub enum LexMode {
    /// Between words.
    Between,
    /// Inside an unquoted part of a word.
    Word,
    /// Inside single quotes.
    Quoted,
    /// Just after an unquoted backslash.
    Escaped,
}

/// The lexer's state: where it stands, the word read so far, and the
/// words completed before it.
pub struct Lexer {
    pub mode: LexMode,
    pub word: Seq<char>,
    pub words: Seq<Seq<char>>,
}

/// Blanks that separate words (a newline would end the command).
pub open spec fn is_blank(c: char) -> bool {
    c == ' ' || c == '\t'
}

pub open spec fn lexer_start() -> Lexer {
    Lexer { mode: LexMode::Between, word: Seq::empty(), words: Seq::empty() }
}

/// An unquoted character inside a word. A character with a special
/// meaning to the shell (`$`, `` ` ``, `*`, `"`, ...) is outside this
/// model: the lexer gives up (`None`).
pub open spec fn word_char(st: Lexer, c: char) -> Option<Lexer> {
    if c == '\'' {
        Some(Lexer { mode: LexMode::Quoted, ..st })
    } else if c == '\\' {
        Some(Lexer { mode: LexMode::Escaped, ..st })
    } else if is_shell_safe_char(c) {
        Some(Lexer { mode: LexMode::Word, word: st.word.push(c), ..st })
    } else {
        None
    }
}

pub open spec fn lex_step(st: Lexer, c: char) -> Option<Lexer> {
    match st.mode {
        LexMode::Between => if is_blank(c) {
            Some(st)
        } else {
            word_char(Lexer { mode: LexMode::Word, word: Seq::empty(), ..st }, c)
        },
        LexMode::Word => if is_blank(c) {
            Some(
                Lexer { mode: LexMode::Between, word: Seq::empty(), words: st.words.push(st.word) },
            )
        } else {
            word_char(st, c)
        },
        LexMode::Quoted => if c == '\'' {
            Some(Lexer { mode: LexMode::Word, ..st })
        } else {
            Some(Lexer { word: st.word.push(c), ..st })
        },
        LexMode::Escaped => if c == '\n' {
            None
        } else {
            Some(Lexer { mode: LexMode::Word, word: st.word.push(c), ..st })
        },
    }
}

pub open spec fn lex_run(st: Lexer, s: Seq<char>) -> Option<Lexer>
    decreases s.len(),
{
    if s.len() == 0 {
        Some(st)
    } else {
        match lex_step(st, s[0]) {
            Some(next) => lex_run(next, s.drop_first()),
            None => None,
        }
    }
}

pub open spec fn lex_finish(st: Lexer) -> Option<Seq<Seq<char>>> {
    match st.mode {
        LexMode::Between => Some(st.words),
        LexMode::Word => Some(st.words.push(st.word)),
        _ => None,
    }
}

/// The words (after quote removal) into which the shell splits `s`, or
/// `None` when `s` uses shell syntax beyond this model or leaves a quote
/// or backslash open.
pub open spec fn shell_words(s: Seq<char>) -> Option<Seq<Seq<char>>> {
    match lex_run(lexer_start(), s) {
        Some(st) => lex_finish(st),
        None => None,
    }
}

// ---------------------------------------------------------------------
// Lemmas
// ---------------------------------------------------------------------

/// Lexing `a + b` is lexing `a`, then `b` from where `a` left off.
pub proof fn lemma_lex_run_concat(st: Lexer, a: Seq<char>, b: Seq<char>)
    ensures
        lex_run(st, a + b) == (match lex_run(st, a) {
            Some(mid) => lex_run(mid, b),
            None => None,
        }),
    decreases a.len(),
{
    if a.len() > 0 {
        assert((a + b)[0] == a[0]);
        assert((a + b).drop_first() =~= a.drop_first() + b);
        match lex_step(st, a[0]) {
            Some(next) => lemma_lex_run_concat(next, a.drop_first(), b),
            None => {},
        }
    } else {
        assert(a + b =~= b);
    }
}

/// Safe characters extend the current word.
pub proof fn lemma_lex_safe_in_word(st: Lexer, s: Seq<char>)
    requires
        st.mode == LexMode::Word,
        all_shell_safe(s),
    ensures
        lex_run(st, s) == Some(Lexer { word: st.word + s, ..st }),
    decreases s.len(),
{
    if s.len() == 0 {
        assert(st.word + s =~= st.word);
    } else {
        let c = s[0];
        assert(is_shell_safe_char(c));
        let next = Lexer { word: st.word.push(c), ..st };
        assert(lex_step(st, c) == Some(next));
        assert(all_shell_safe(s.drop_first())) by {
            assert forall|i: int| 0 <= i < s.drop_first().len() implies is_shell_safe_char(
                #[trigger] s.drop_first()[i],
            ) by {
                assert(s.drop_first()[i] == s[i + 1]);
            }
        }
        lemma_lex_safe_in_word(next, s.drop_first());
        assert(st.word.push(c) + s.drop_first() =~= st.word + s);
    }
}

/// Between words, a non-empty run of safe characters starts a word made
/// of them.
pub proof fn lemma_lex_safe_between(st: Lexer, s: Seq<char>)
    requires
        st.mode == LexMode::Between,
        s.len() > 0,
        all_shell_safe(s),
    ensures
        lex_run(st, s) == Some(Lexer { mode: LexMode::Word, word: s, words: st.words }),
{
    let c = s[0];
    assert(is_shell_safe_char(c));
    let next = Lexer { mode: LexMode::Word, word: seq![c], words: st.words };
    assert(Seq::<char>::empty().push(c) =~= seq![c]);
    assert(lex_step(st, c) == Some(next));
    assert(all_shell_safe(s.drop_first())) by {
        assert forall|i: int| 0 <= i < s.drop_first().len() implies is_shell_safe_char(
            #[trigger] s.drop_first()[i],
        ) by {
            assert(s.drop_first()[i] == s[i + 1]);
        }
    }
    lemma_lex_safe_in_word(next, s.drop_first());
    assert(seq![c] + s.drop_first() =~= s);
}

/// Inside single quotes, the quoted form of one character reads as that
/// character, and leaves the lexer inside the quotes.
pub proof fn lemma_lex_quoted_char(st: Lexer, c: char)
    requires
        st.mode == LexMode::Quoted,
    ensures
        lex_run(st, quoted_char(c)) == Some(Lexer { word: st.word.push(c), ..st }),
{
    reveal_with_fuel(lex_run, 5);
    if c == '\'' || c == '!' {
        let q = quoted_char(c);
        assert(q[0] == '\'' && q[1] == '\\' && q[2] == c && q[3] == '\'');
        let s1 = Lexer { mode: LexMode::Word, ..st };
        let s2 = Lexer { mode: LexMode::Escaped, ..st };
        let s3 = Lexer { mode: LexMode::Word, word: st.word.push(c), ..st };
        let s4 = Lexer { mode: LexMode::Quoted, word: st.word.push(c), ..st };
        assert(lex_step(st, q[0]) == Some(s1));
        assert(lex_step(s1, q[1]) == Some(s2));
        assert(lex_step(s2, q[2]) == Some(s3));
        assert(lex_step(s3, q[3]) == Some(s4));
        assert(q.drop_first().drop_first().drop_first().drop_first() =~= Seq::<char>::empty());
        assert(q.drop_first()[0] == q[1]);
        assert(q.drop_first().drop_first()[0] == q[2]);
        assert(q.drop_first().drop_first().drop_first()[0] == q[3]);
    } else {
        assert(quoted_char(c).drop_first() =~= Seq::<char>::empty());
    }
}

/// Inside single quotes, the quoted body of `s` reads as `s`.
pub proof fn lemma_lex_quoted_body(st: Lexer, s: Seq<char>)
    requires
        st.mode == LexMode::Quoted,
    ensures
        lex_run(st, quoted_body(s)) == Some(Lexer { word: st.word + s, ..st }),
    decreases s.len(),
{
    if s.len() == 0 {
        assert(st.word + s =~= st.word);
    } else {
        let init = s.drop_last();
        lemma_lex_quoted_body(st, init);
        let mid = Lexer { word: st.word + init, ..st };
        lemma_lex_run_concat(st, quoted_body(init), quoted_char(s.last()));
        lemma_lex_quoted_char(mid, s.last());
        assert((st.word + init).push(s.last()) =~= st.word + s);
    }
}

/// Inside a word, an escaped value reads as the value itself.
pub proof fn lemma_lex_escaped_in_word(st: Lexer, v: Seq<char>)
    requires
        st.mode == LexMode::Word,
    ensures
        lex_run(st, shell_escaped(v)) == Some(Lexer { word: st.word + v, ..st }),
{
    if v.len() > 0 && all_shell_safe(v) {
        lemma_lex_safe_in_word(st, v);
    } else {
        let open = seq!['\''];
        let quoted = Lexer { mode: LexMode::Quoted, ..st };
        reveal_with_fuel(lex_run, 2);
        assert(lex_run(st, open) == Some(quoted));
        lemma_lex_run_concat(st, open, quoted_body(v));
        lemma_lex_quoted_body(quoted, v);
        let after = Lexer { mode: LexMode::Quoted, word: st.word + v, ..st };
        lemma_lex_run_concat(st, open + quoted_body(v), open);
        assert(lex_run(after, open) == Some(Lexer { word: st.word + v, ..st }));
    }
}

/// The shell reads an escaped value back as one word: the value itself,
/// byte for byte, whatever it holds (quotes, `$`, backticks, newlines,
/// backslashes, trailing blanks, or nothing at all).
pub proof fn lemma_escaped_value_round_trip(v: Seq<char>)
    ensures
        shell_words(shell_escaped(v)) == Some(seq![v]),
{
    let start = lexer_start();
    if v.len() > 0 && all_shell_safe(v) {
        lemma_lex_safe_between(start, v);
    } else {
        let open = seq!['\''];
        let in_word = Lexer { mode: LexMode::Word, word: Seq::empty(), words: Seq::empty() };
        let quoted = Lexer { mode: LexMode::Quoted, ..in_word };
        reveal_with_fuel(lex_run, 2);
        assert(lex_run(start, open) == Some(quoted));
        lemma_lex_run_concat(start, open, quoted_body(v));
        lemma_lex_quoted_body(quoted, v);
        let after = Lexer { mode: LexMode::Quoted, word: Seq::<char>::empty() + v, ..in_word };
        lemma_lex_run_concat(start, open + quoted_body(v), open);
        assert(lex_run(after, open) == Some(Lexer { mode: LexMode::Word, ..after }));
        assert(Seq::<char>::empty() + v =~= v);
        assert(Seq::<Seq<char>>::empty().push(v) =~= seq![v]);
    }
}

} // verus!
