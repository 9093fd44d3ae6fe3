//! POSIX shell quoting for commands that run on a remote host.
//!
//! A remote git or `gh` invocation travels as one command line that the
//! host's `sh` splits back into words. Every argument is therefore quoted so
//! that the host's shell receives exactly the argument vector the local
//! process would have received.
use vstd::prelude::*;
use vstd::string::*;

verus! {

broadcast use vstd::string::group_string_axioms;

/// Characters that stand for themselves in a POSIX shell word, so an argument
/// made only of them needs no quoting.
pub open spec fn is_safe_shell_char(c: char) -> bool {
    ||| ('a' <= c && c <= 'z')
    ||| ('A' <= c && c <= 'Z')
    ||| ('0' <= c && c <= '9')
    ||| c == '-' || c == '_' || c == '.' || c == '/'
    ||| c == ',' || c == ':' || c == '=' || c == '@' || c == '+' || c == '%'
}

/// An argument that is passed to the shell as it is: non-empty and made only
/// of safe characters.
pub open spec fn is_safe_shell_word(s: Seq<char>) -> bool {
    &&& s.len() > 0
    &&& forall|i: int| 0 <= i < s.len() ==> is_safe_shell_char(#[trigger] s[i])
}

/// What one character becomes between single quotes: a single quote closes
/// the quoting, is written escaped, and the quoting reopens.
pub open spec fn quoted_piece(c: char) -> Seq<char> {
    if c == '\'' {
        seq!['\'', '\\', '\'', '\'']
    } else {
        seq![c]
    }
}

/// The body of a single-quoted word for `s`.
pub open spec fn escape_single_quotes(s: Seq<char>) -> Seq<char>
    decreases s.len(),
{
    if s.len() == 0 {
        Seq::empty()
    } else {
        quoted_piece(s[0]) + escape_single_quotes(s.drop_first())
    }
}

/// The shell word that stands for the argument `s`: `s` itself when it is a
/// safe word, otherwise `s` between single quotes with each single quote
/// written as `'\''`.
pub open spec fn shell_quoted(s: Seq<char>) -> Seq<char> {
    if is_safe_shell_word(s) {
        s
    } else {
        seq!['\''] + escape_single_quotes(s) + seq!['\'']
    }
}

/// Calls `String::push`: appends one character to a string.
#[verifier::external_body]
pub(crate) fn push_char(s: &mut String, c: char)
    ensures
        final(s)@ == old(s)@.push(c),
{
    s.push(c);
}

pub proof fn lemma_escape_append(a: Seq<char>, b: Seq<char>)
    ensures
        escape_single_quotes(a + b) == escape_single_quotes(a) + escape_single_quotes(b),
    decreases a.len(),
{
    if a.len() == 0 {
        assert(a + b =~= b);
    } else {
        assert((a + b).drop_first() =~= a.drop_first() + b);
        lemma_escape_append(a.drop_first(), b);
    }
}

proof fn lemma_escape_single(c: char)
    ensures
        escape_single_quotes(seq![c]) == quoted_piece(c),
{
    reveal_with_fuel(escape_single_quotes, 2);
    assert(seq![c].drop_first() =~= Seq::<char>::empty());
    assert(quoted_piece(c) + Seq::<char>::empty() =~= quoted_piece(c));
}

/// Whether `arg` is passed to the shell unquoted.
fn is_safe_shell_arg(arg: &str) -> (r: bool)
    ensures
        r == is_safe_shell_word(arg@),
{
    let mut all_safe = true;
    let ghost mut count: int = 0;
    for c in it: arg.chars()
        invariant
            count == it.index(),
            it.seq() == arg@,
            all_safe == (forall|j: int| 0 <= j < count ==> is_safe_shell_char(#[trigger] arg@[j])),
    {
        let safe = ('a' <= c && c <= 'z') || ('A' <= c && c <= 'Z') || ('0' <= c && c <= '9')
            || c == '-' || c == '_' || c == '.' || c == '/' || c == ',' || c == ':' || c == '='
            || c == '@' || c == '+' || c == '%';
        if !safe {
            all_safe = false;
        }
        proof {
            count = count + 1;
        }
    }
    all_safe && !arg.is_empty()
}

/// Quotes `arg` for a POSIX shell so that the shell reads it back as exactly
/// one word equal to `arg`.
pub fn shell_quote(arg: &str) -> (r: String)
    ensures
        r@ == shell_quoted(arg@),
{
    if is_safe_shell_arg(arg) {
        return arg.to_owned();
    }
    let mut out = String::new();
    push_char(&mut out, '\'');
    let ghost s = arg@;
    let ghost mut count: int = 0;
    for c in it: arg.chars()
        invariant
            count == it.index(),
            it.seq() == s,
            s == arg@,
            out@ == seq!['\''] + escape_single_quotes(s.take(count)),
    {
        proof {
            assert(s.take(count + 1) =~= s.take(count) + seq![c]);
            lemma_escape_append(s.take(count), seq![c]);
            lemma_escape_single(c);
        }
        if c == '\'' {
            push_char(&mut out, '\'');
            push_char(&mut out, '\\');
            push_char(&mut out, '\'');
            push_char(&mut out, '\'');
        } else {
            push_char(&mut out, c);
        }
        proof {
            count = count + 1;
        }
    }
    proof {
        assert(s.take(count) =~= s);
    }
    push_char(&mut out, '\'');
    out
}


/// Blanks separate words on a shell command line.
pub open spec fn is_shell_blank(c: char) -> bool {
    c == ' ' || c == '\t'
}

/// Characters that a POSIX shell does not read as themselves outside quotes:
/// blanks, newline, operators, expansion and globbing characters, and quotes.
pub open spec fn is_shell_special(c: char) -> bool {
    ||| is_shell_blank(c) || c == '\n'
    ||| c == '|' || c == '&' || c == ';' || c == '<' || c == '>' || c == '(' || c == ')'
    ||| c == '$' || c == '`' || c == '\\' || c == '"' || c == '\''
    ||| c == '*' || c == '?' || c == '[' || c == ']' || c == '#' || c == '~'
    ||| c == '{' || c == '}' || c == '!'
}

/// Where a shell lexer stands while it reads a command line: between words,
/// inside an unquoted part of a word, or inside single quotes.
pub enum ShellLexMode {
    Between,
    Word,
    Quoted,
}

/// The words that a POSIX shell reads from `cmd`, given the lexer's `mode`,
/// the word `cur` read so far and the finished `words`.
///
/// This models single quotes, backslash escapes outside quotes and blanks
/// between words. A line that uses any other shell syntax (a backslash
/// before a newline continues the line), or ends inside quotes or after a
/// lone backslash, gives `None`.
pub open spec fn shell_words_from(
    cmd: Seq<char>,
    mode: ShellLexMode,
    cur: Seq<char>,
    words: Seq<Seq<char>>,
) -> Option<Seq<Seq<char>>>
    decreases cmd.len(),
{
    if cmd.len() == 0 {
        match mode {
            ShellLexMode::Between => Some(words),
            ShellLexMode::Word => Some(words.push(cur)),
            ShellLexMode::Quoted => None,
        }
    } else {
        let c = cmd[0];
        let rest = cmd.drop_first();
        match mode {
            ShellLexMode::Quoted => {
                if c == '\'' {
                    shell_words_from(rest, ShellLexMode::Word, cur, words)
                } else {
                    shell_words_from(rest, ShellLexMode::Quoted, cur.push(c), words)
                }
            },
            _ => {
                if is_shell_blank(c) {
                    let done = match mode {
                        ShellLexMode::Word => words.push(cur),
                        _ => words,
                    };
                    shell_words_from(rest, ShellLexMode::Between, Seq::empty(), done)
                } else if c == '\'' {
                    shell_words_from(rest, ShellLexMode::Quoted, cur, words)
                } else if c == '\\' {
                    if rest.len() > 0 && rest[0] != '\n' {
                        shell_words_from(rest.drop_first(), ShellLexMode::Word, cur.push(rest[0]), words)
                    } else {
                        None
                    }
                } else if !is_shell_special(c) {
                    shell_words_from(rest, ShellLexMode::Word, cur.push(c), words)
                } else {
                    None
                }
            },
        }
    }
}

/// The argument vector that a POSIX shell reads from the command line `cmd`.
pub open spec fn shell_words(cmd: Seq<char>) -> Option<Seq<Seq<char>>> {
    shell_words_from(cmd, ShellLexMode::Between, Seq::empty(), Seq::empty())
}

/// Each argument of `args` as a blank followed by its quoted word.
pub open spec fn quoted_args(args: Seq<Seq<char>>) -> Seq<char>
    decreases args.len(),
{
    if args.len() == 0 {
        Seq::empty()
    } else {
        seq![' '] + shell_quoted(args[0]) + quoted_args(args.drop_first())
    }
}

/// The command line that runs `program` with `args` on a POSIX shell.
pub open spec fn remote_command_line(program: Seq<char>, args: Seq<Seq<char>>) -> Seq<char> {
    program + quoted_args(args)
}

/// The views of a slice of string arguments.
pub open spec fn arg_views(args: Seq<&str>) -> Seq<Seq<char>> {
    args.map_values(|a: &str| a@)
}

/// The option that keeps a remote `git` from refreshing the index on a diff.
pub open spec fn remote_git_prefix() -> Seq<Seq<char>> {
    seq!["-c"@, "diff.autoRefreshIndex=false"@]
}

/// The command line that runs `git` with `args` on the remote host.
pub open spec fn remote_git_command_line(args: Seq<Seq<char>>) -> Seq<char> {
    remote_command_line("git"@, remote_git_prefix() + args)
}

proof fn lemma_plain_run(
    p: Seq<char>,
    rest: Seq<char>,
    cur: Seq<char>,
    words: Seq<Seq<char>>,
)
    requires
        forall|i: int| 0 <= i < p.len() ==> !is_shell_special(#[trigger] p[i]),
    ensures
        shell_words_from(p + rest, ShellLexMode::Word, cur, words) == shell_words_from(
            rest,
            ShellLexMode::Word,
            cur + p,
            words,
        ),
    decreases p.len(),
{
    if p.len() == 0 {
        assert(p + rest =~= rest);
        assert(cur + p =~= cur);
    } else {
        assert((p + rest)[0] == p[0]);
        assert((p + rest).drop_first() =~= p.drop_first() + rest);
        assert(!is_shell_special(p[0]));
        lemma_plain_run(p.drop_first(), rest, cur.push(p[0]), words);
        assert(cur.push(p[0]) + p.drop_first() =~= cur + p);
    }
}

proof fn lemma_escaped_body(
    s: Seq<char>,
    rest: Seq<char>,
    cur: Seq<char>,
    words: Seq<Seq<char>>,
)
    ensures
        shell_words_from(escape_single_quotes(s) + rest, ShellLexMode::Quoted, cur, words)
            == shell_words_from(rest, ShellLexMode::Quoted, cur + s, words),
    decreases s.len(),
{
    if s.len() == 0 {
        assert(escape_single_quotes(s) + rest =~= rest);
        assert(cur + s =~= cur);
    } else {
        let tail = escape_single_quotes(s.drop_first()) + rest;
        let line = escape_single_quotes(s) + rest;
        lemma_escaped_body(s.drop_first(), rest, cur.push(s[0]), words);
        assert(cur.push(s[0]) + s.drop_first() =~= cur + s);
        if s[0] == '\'' {
            let l1 = seq!['\\', '\'', '\''] + tail;
            let l3 = seq!['\''] + tail;
            assert(line =~= seq!['\'', '\\', '\'', '\''] + tail);
            assert(line[0] == '\'');
            assert(line.drop_first() =~= l1);
            assert(shell_words_from(line, ShellLexMode::Quoted, cur, words)
                == shell_words_from(l1, ShellLexMode::Word, cur, words));
            assert(l1[0] == '\\');
            assert(l1.drop_first()[0] == '\'');
            assert(l1.drop_first().drop_first() =~= l3);
            assert(shell_words_from(l1, ShellLexMode::Word, cur, words)
                == shell_words_from(l3, ShellLexMode::Word, cur.push('\''), words));
            assert(l3[0] == '\'');
            assert(l3.drop_first() =~= tail);
            assert(shell_words_from(l3, ShellLexMode::Word, cur.push('\''), words)
                == shell_words_from(tail, ShellLexMode::Quoted, cur.push('\''), words));
        } else {
            assert(line =~= seq![s[0]] + tail);
            assert(line.drop_first() =~= tail);
        }
    }
}

proof fn lemma_quoted_word(
    s: Seq<char>,
    rest: Seq<char>,
    words: Seq<Seq<char>>,
)
    ensures
        shell_words_from(shell_quoted(s) + rest, ShellLexMode::Between, Seq::empty(), words)
            == shell_words_from(rest, ShellLexMode::Word, s, words),
{
    let line = shell_quoted(s) + rest;
    if is_safe_shell_word(s) {
        assert(line[0] == s[0]);
        assert(!is_shell_special(s[0]));
        assert(line.drop_first() =~= s.drop_first() + rest);
        lemma_plain_run(s.drop_first(), rest, seq![s[0]], words);
        assert(Seq::<char>::empty().push(s[0]) =~= seq![s[0]]);
        assert(seq![s[0]] + s.drop_first() =~= s);
    } else {
        let after = seq!['\''] + rest;
        assert(line =~= seq!['\''] + (escape_single_quotes(s) + after));
        assert(line.drop_first() =~= escape_single_quotes(s) + after);
        lemma_escaped_body(s, after, Seq::empty(), words);
        assert(Seq::<char>::empty() + s =~= s);
        assert(after.drop_first() =~= rest);
    }
}

proof fn lemma_quoted_args(
    args: Seq<Seq<char>>,
    cur: Seq<char>,
    words: Seq<Seq<char>>,
)
    ensures
        shell_words_from(quoted_args(args), ShellLexMode::Word, cur, words) == Some(
            words.push(cur) + args,
        ),
    decreases args.len(),
{
    if args.len() == 0 {
        assert(words.push(cur) + args =~= words.push(cur));
    } else {
        let tail = shell_quoted(args[0]) + quoted_args(args.drop_first());
        assert(quoted_args(args) =~= seq![' '] + tail);
        assert(quoted_args(args).drop_first() =~= tail);
        lemma_quoted_word(args[0], quoted_args(args.drop_first()), words.push(cur));
        lemma_quoted_args(args.drop_first(), args[0], words.push(cur));
        assert(words.push(cur).push(args[0]) + args.drop_first() =~= words.push(cur) + args);
    }
}

/// A POSIX shell reads the command line built for `program` and `args` back
/// as the word `program` followed by exactly the words of `args`, whatever
/// characters the arguments hold.
pub proof fn lemma_remote_command_roundtrip(program: Seq<char>, args: Seq<Seq<char>>)
    requires
        program.len() > 0,
        forall|i: int| 0 <= i < program.len() ==> !is_shell_special(#[trigger] program[i]),
    ensures
        shell_words(remote_command_line(program, args)) == Some(seq![program] + args),
{
    let line = remote_command_line(program, args);
    assert(line[0] == program[0]);
    assert(line.drop_first() =~= program.drop_first() + quoted_args(args));
    lemma_plain_run(program.drop_first(), quoted_args(args), seq![program[0]], Seq::empty());
    assert(Seq::<char>::empty().push(program[0]) =~= seq![program[0]]);
    assert(seq![program[0]] + program.drop_first() =~= program);
    lemma_quoted_args(args, program, Seq::empty());
    assert(Seq::<Seq<char>>::empty().push(program) =~= seq![program]);
}

/// A POSIX shell reads the quoted form of any argument back as exactly that
/// one argument.
pub proof fn lemma_shell_quote_roundtrip(s: Seq<char>)
    ensures
        shell_words(shell_quoted(s)) == Some(seq![s]),
{
    lemma_quoted_word(s, Seq::empty(), Seq::empty());
    assert(shell_quoted(s) + Seq::<char>::empty() =~= shell_quoted(s));
    assert(Seq::<Seq<char>>::empty().push(s) =~= seq![s]);
}

/// A POSIX shell reads the command line built for `git` with `args` back as
/// `git -c diff.autoRefreshIndex=false` followed by exactly the words of `args`.
pub proof fn lemma_remote_git_command_roundtrip(args: Seq<Seq<char>>)
    ensures
        shell_words(remote_git_command_line(args)) == Some(
            seq!["git"@] + remote_git_prefix() + args,
        ),
{
    reveal_strlit("git");
    lemma_remote_command_roundtrip("git"@, remote_git_prefix() + args);
    assert(seq!["git"@] + (remote_git_prefix() + args) =~= seq!["git"@] + remote_git_prefix()
        + args);
}

proof fn lemma_quoted_args_append(a: Seq<Seq<char>>, b: Seq<Seq<char>>)
    ensures
        quoted_args(a + b) == quoted_args(a) + quoted_args(b),
    decreases a.len(),
{
    if a.len() == 0 {
        assert(a + b =~= b);
        assert(quoted_args(a) + quoted_args(b) =~= quoted_args(b));
    } else {
        assert((a + b).drop_first() =~= a.drop_first() + b);
        assert((a + b)[0] == a[0]);
        lemma_quoted_args_append(a.drop_first(), b);
        assert(seq![' '] + shell_quoted(a[0]) + (quoted_args(a.drop_first()) + quoted_args(b))
            =~= seq![' '] + shell_quoted(a[0]) + quoted_args(a.drop_first()) + quoted_args(b));
    }
}

proof fn lemma_quoted_args_single(a: Seq<char>)
    ensures
        quoted_args(seq![a]) == seq![' '] + shell_quoted(a),
{
    reveal_with_fuel(quoted_args, 2);
    assert(seq![a].drop_first() =~= Seq::<Seq<char>>::empty());
    assert(seq![' '] + shell_quoted(a) + Seq::<char>::empty() =~= seq![' '] + shell_quoted(a));
}

/// Appends a blank and the quoted form of each of `args` to `out`.
fn append_quoted_args(out: &mut String, args: &[&str])
    ensures
        final(out)@ == old(out)@ + quoted_args(arg_views(args@)),
{
    let ghost start = out@;
    let ghost views = arg_views(args@);
    let mut i: usize = 0;
    while i < args.len()
        invariant
            i <= args@.len(),
            views == arg_views(args@),
            out@ == start + quoted_args(views.take(i as int)),
        decreases args@.len() - i,
    {
        let quoted = shell_quote(args[i]);
        proof {
            assert(views.take(i + 1) =~= views.take(i as int) + seq![views[i as int]]);
            lemma_quoted_args_append(views.take(i as int), seq![views[i as int]]);
            lemma_quoted_args_single(views[i as int]);
        }
        push_char(out, ' ');
        out.append(quoted.as_str());
        proof {
            assert(out@ =~= start + quoted_args(views.take(i + 1)));
        }
        i = i + 1;
    }
    proof {
        assert(views.take(i as int) =~= views);
    }
}

/// Builds the command line that runs `program` with `args` on a POSIX shell:
/// the program followed by each argument, quoted, after a blank.
pub fn build_remote_command(program: &str, args: &[&str]) -> (r: String)
    ensures
        r@ == remote_command_line(program@, arg_views(args@)),
{
    let mut out = program.to_owned();
    append_quoted_args(&mut out, args);
    out
}

/// Builds the command line that runs `git` with `args` on the remote host,
/// with index auto-refresh switched off for diffs.
pub fn build_remote_git_command(args: &[&str]) -> (r: String)
    ensures
        r@ == remote_git_command_line(arg_views(args@)),
{
    let prefix: [&str; 2] = ["-c", "diff.autoRefreshIndex=false"];
    let mut out = "git".to_owned();
    proof {
        assert(prefix@[0] == "-c");
        assert(prefix@[1] == "diff.autoRefreshIndex=false");
        assert(arg_views(prefix@) =~= remote_git_prefix());
    }
    append_quoted_args(&mut out, prefix.as_slice());
    append_quoted_args(&mut out, args);
    proof {
        lemma_quoted_args_append(remote_git_prefix(), arg_views(args@));
        assert(out@ =~= remote_git_command_line(arg_views(args@)));
    }
    out
}

} // verus!
