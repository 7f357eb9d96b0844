//! `--build-arg` flags for `docker build`.
use vstd::prelude::*;

use crate::shell::{
    all_shell_safe, escape_for_shell, lemma_escaped_value_round_trip, lemma_lex_escaped_in_word,
    lemma_lex_run_concat, lemma_lex_safe_between, lex_finish, lex_run, lexer_start, shell_escaped,
    shell_words, LexMode, Lexer,
};

verus! {

/// A variable and its value, as the user configured them.
pub struct EnvironmentVar {
    pub variable: String,
    pub value: String,
}

/// The flag word `--build-arg`.
pub open spec fn build_arg_flag() -> Seq<char> {
    seq!['-', '-', 'b', 'u', 'i', 'l', 'd', '-', 'a', 'r', 'g']
}

/// ` --build-arg VARIABLE=VALUE`, the value escaped for the shell.
pub open spec fn build_arg_text(variable: Seq<char>, value: Seq<char>) -> Seq<char> {
    seq![' '] + build_arg_flag() + seq![' '] + (variable + seq!['=']) + shell_escaped(value)
}

/// The flags for all of `args`, in order.
pub open spec fn build_args_text(args: Seq<EnvironmentVar>) -> Seq<char>
    decreases args.len(),
{
    if args.len() == 0 {
        Seq::empty()
    } else {
        build_args_text(args.drop_last()) + build_arg_text(
            args.last().variable@,
            args.last().value@,
        )
    }
}

/// The words the docker CLI is meant to receive for `args`:
/// `--build-arg`, `VARIABLE=VALUE` for each, in order.
pub open spec fn build_arg_words(args: Seq<EnvironmentVar>) -> Seq<Seq<char>>
    decreases args.len(),
{
    if args.len() == 0 {
        Seq::empty()
    } else {
        build_arg_words(args.drop_last()) + seq![
            build_arg_flag(),
            args.last().variable@ + seq!['='] + args.last().value@,
        ]
    }
}

/// Renders `build_args` as ` --build-arg VARIABLE=VALUE` flags, each
/// value escaped for the shell that runs the docker command.
pub fn parse_build_args(build_args: &[EnvironmentVar]) -> (args: String)
    ensures
        args@ == build_args_text(build_args@),
{
    let mut res = String::new();
    let n = build_args.len();
    for i in 0..n
        invariant
            n == build_args@.len(),
            res@ == build_args_text(build_args@.take(i as int)),
    {
        let arg = &build_args[i];
        let escaped = escape_for_shell(arg.value.as_str());
        let ghost before = res@;
        res.append(" --build-arg ");
        res.append(arg.variable.as_str());
        res.append("=");
        res.append(escaped.as_str());
        proof {
            reveal_strlit(" --build-arg ");
            reveal_strlit("=");
            let taken = build_args@.take(i + 1);
            assert(taken.drop_last() =~= build_args@.take(i as int));
            assert(taken.last() == build_args@[i as int]);
            assert(res@ =~= before + build_arg_text(arg.variable@, arg.value@));
        }
    }
    assert(build_args@.take(n as int) =~= build_args@);
    res
}

/// From between words or inside one, a single flag completes what was
/// read, then reads as `--build-arg` and `VARIABLE=VALUE`, the lexer
/// staying inside the last word.
proof fn lemma_lex_one_build_arg(st: Lexer, variable: Seq<char>, value: Seq<char>)
    requires
        st.mode == LexMode::Between || st.mode == LexMode::Word,
        all_shell_safe(variable),
    ensures
        lex_run(st, build_arg_text(variable, value)) == Some(
            Lexer {
                mode: LexMode::Word,
                word: variable + seq!['='] + value,
                words: lex_finish(st)->0.push(build_arg_flag()),
            },
        ),
{
    let done = lex_finish(st)->0;
    let p1 = seq![' '];
    let p2 = p1 + build_arg_flag();
    let p3 = p2 + seq![' '];
    let assignment = variable + seq!['='];
    let p4 = p3 + assignment;
    let s1 = Lexer { mode: LexMode::Between, word: Seq::empty(), words: done };
    let s1_actual = if st.mode == LexMode::Between {
        st
    } else {
        s1
    };
    reveal_with_fuel(lex_run, 2);
    assert(lex_run(st, p1) == Some(s1_actual));
    // the flag word
    lemma_lex_safe_between(s1_actual, build_arg_flag());
    lemma_lex_run_concat(st, p1, build_arg_flag());
    let s2 = Lexer { mode: LexMode::Word, word: build_arg_flag(), words: done };
    assert(lex_run(st, p2) == Some(s2));
    // the blank after it
    let s3 = Lexer { mode: LexMode::Between, word: Seq::empty(), words: done.push(build_arg_flag()) };
    assert(lex_run(s2, seq![' ']) == Some(s3));
    lemma_lex_run_concat(st, p2, seq![' ']);
    // VARIABLE=
    assert(all_shell_safe(assignment)) by {
        assert forall|i: int| 0 <= i < assignment.len() implies crate::shell::is_shell_safe_char(
            #[trigger] assignment[i],
        ) by {
            if i < variable.len() {
                assert(assignment[i] == variable[i]);
            }
        }
    }
    lemma_lex_safe_between(s3, assignment);
    lemma_lex_run_concat(st, p3, assignment);
    let s4 = Lexer { mode: LexMode::Word, word: assignment, words: done.push(build_arg_flag()) };
    assert(lex_run(st, p4) == Some(s4));
    // the escaped value
    lemma_lex_escaped_in_word(s4, value);
    lemma_lex_run_concat(st, p4, shell_escaped(value));
    assert(p4 + shell_escaped(value) =~= build_arg_text(variable, value));
}

/// Where the lexer stands after the flags for `args`.
spec fn lexed_build_args(args: Seq<EnvironmentVar>) -> Lexer {
    if args.len() == 0 {
        lexer_start()
    } else {
        Lexer {
            mode: LexMode::Word,
            word: args.last().variable@ + seq!['='] + args.last().value@,
            words: build_arg_words(args.drop_last()).push(build_arg_flag()),
        }
    }
}

proof fn lemma_lex_build_args(args: Seq<EnvironmentVar>)
    requires
        forall|i: int| 0 <= i < args.len() ==> all_shell_safe(#[trigger] args[i].variable@),
    ensures
        lex_run(lexer_start(), build_args_text(args)) == Some(lexed_build_args(args)),
        lex_finish(lexed_build_args(args)) == Some(build_arg_words(args)),
    decreases args.len(),
{
    if args.len() == 0 {
        reveal_with_fuel(lex_run, 1);
    } else {
        let init = args.drop_last();
        assert forall|i: int| 0 <= i < init.len() implies all_shell_safe(
            #[trigger] init[i].variable@,
        ) by {
            assert(init[i] == args[i]);
        }
        lemma_lex_build_args(init);
        let last = args.last();
        assert(all_shell_safe(args[args.len() - 1].variable@));
        let st = lexed_build_args(init);
        lemma_lex_one_build_arg(st, last.variable@, last.value@);
        lemma_lex_run_concat(
            lexer_start(),
            build_args_text(init),
            build_arg_text(last.variable@, last.value@),
        );
        let words = build_arg_words(init).push(build_arg_flag());
        assert(words.push(last.variable@ + seq!['='] + last.value@) =~= build_arg_words(args));
    }
}

/// The shell that runs the docker command splits the flags into exactly
/// the words `--build-arg`, `VARIABLE=VALUE` for each argument in order,
/// each value reaching docker byte for byte as the user wrote it. The
/// variable names must hold no character the shell would interpret
/// (they are not escaped).
pub proof fn lemma_build_args_survive_shell(args: Seq<EnvironmentVar>)
    requires
        forall|i: int| 0 <= i < args.len() ==> all_shell_safe(#[trigger] args[i].variable@),
    ensures
        shell_words(build_args_text(args)) == Some(build_arg_words(args)),
{
    lemma_lex_build_args(args);
}

/// Every value, escaped, is read back by the shell as itself.
pub proof fn lemma_build_arg_value_survives_shell(value: Seq<char>)
    ensures
        shell_words(shell_escaped(value)) == Some(seq![value]),
{
    lemma_escaped_value_round_trip(value);
}

} // verus!
