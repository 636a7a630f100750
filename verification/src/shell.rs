//! Quoting of command arguments for `bash -c` strings and GStreamer tokens.
use crate::text;
use vstd::prelude::*;

verus! {

/// A character that a POSIX shell would not take literally.
pub open spec fn is_special(c: char) -> bool {
    ||| c == ' '
    ||| c == '\''
    ||| c == '"'
    ||| c == '$'
    ||| c == '&'
    ||| c == ';'
    ||| c == '|'
    ||| c == '<'
    ||| c == '>'
    ||| c == '('
    ||| c == ')'
    ||| c == '*'
    ||| c == '?'
    ||| c == '{'
    ||| c == '}'
    ||| c == '\\'
    ||| c == '`'
    ||| c == '\n'
    ||| c == '\t'
}

/// The argument has to be quoted for a shell.
pub open spec fn needs_quotes(s: Seq<char>) -> bool {
    s.len() == 0 || exists|i: int| 0 <= i < s.len() && is_special(#[trigger] s[i])
}

/// The argument as it is written into a shell command: verbatim, or between
/// single quotes with every single quote written as `'\''`.
pub open spec fn shell_quoted(s: Seq<char>) -> Seq<char> {
    if needs_quotes(s) {
        "'"@ + text::replaced(s, '\'', "'\\''"@) + "'"@
    } else {
        s
    }
}

/// The quoted arguments.
pub open spec fn all_quoted(args: Seq<Seq<char>>) -> Seq<Seq<char>> {
    Seq::new(args.len(), |i: int| shell_quoted(args[i]))
}

/// The shell command that runs `args`.
pub open spec fn shell_line(args: Seq<Seq<char>>) -> Seq<char> {
    text::joined(all_quoted(args), " "@)
}

/// A character that `shlex.quote` leaves alone.
pub open spec fn is_plain(c: char) -> bool {
    ||| text::is_alnum(c)
    ||| c == '@'
    ||| c == '%'
    ||| c == '+'
    ||| c == '='
    ||| c == ':'
    ||| c == ','
    ||| c == '.'
    ||| c == '/'
    ||| c == '-'
    ||| c == '_'
}

/// The pipeline token for `s`: verbatim when it holds only plain characters,
/// between single quotes otherwise.
pub open spec fn gst_quoted(s: Seq<char>) -> Seq<char> {
    if s.len() == 0 {
        "''"@
    } else if forall|i: int| 0 <= i < s.len() ==> is_plain(#[trigger] s[i]) {
        s
    } else {
        "'"@ + text::replaced(s, '\'', "'\"'\"'"@) + "'"@
    }
}

fn special(c: char) -> (r: bool)
    ensures
        r == is_special(c),
{
    c == ' ' || c == '\'' || c == '"' || c == '$' || c == '&' || c == ';' || c == '|' || c == '<'
        || c == '>' || c == '(' || c == ')' || c == '*' || c == '?' || c == '{' || c == '}' || c
        == '\\' || c == '`' || c == '\n' || c == '\t'
}

fn plain(c: char) -> (r: bool)
    ensures
        r == is_plain(c),
{
    text::alnum_class(c) || c == '@' || c == '%' || c == '+' || c == '=' || c == ':' || c == ','
        || c == '.' || c == '/' || c == '-' || c == '_'
}

/// Minimal POSIX single-quote escape for an argument inside `bash -c`. The
/// argument is quoted when it is empty or holds a shell-significant
/// character, and returned verbatim otherwise.
pub fn shell_quote(arg: &str) -> (r: String)
    ensures
        r@ == shell_quoted(arg@),
{
    let v = text::chars_of(arg);
    let mut quote = v.len() == 0;
    let mut i: usize = 0;
    while i < v.len()
        invariant
            v@ == arg@,
            i <= v@.len(),
            quote == (v@.len() == 0 || exists|j: int| 0 <= j < i && is_special(#[trigger] v@[j])),
        decreases v@.len() - i,
    {
        if special(v[i]) {
            assert(is_special(v@[i as int]));
            quote = true;
        }
        i += 1;
    }
    if quote {
        let mut out = String::from_str("'");
        let inner = text::replace_char(arg, '\'', "'\\''");
        out.append(inner.as_str());
        out.append("'");
        out
    } else {
        arg.to_owned()
    }
}

/// Join arguments into a single shell command, each one quoted.
pub fn join_shell(args: &Vec<String>) -> (r: String)
    ensures
        r@ == shell_line(text::views(args@)),
{
    let ghost all = all_quoted(text::views(args@));
    let mut quoted: Vec<String> = Vec::new();
    let mut i: usize = 0;
    while i < args.len()
        invariant
            i <= args@.len(),
            all == all_quoted(text::views(args@)),
            text::views(quoted@) == all.take(i as int),
        decreases args@.len() - i,
    {
        let q = shell_quote(args[i].as_str());
        text::add_arg(&mut quoted, q.as_str());
        i += 1;
        assert(all.take(i as int) == all.take(i - 1).push(all[i - 1]));
    }
    assert(all.take(args@.len() as int) == all);
    text::join(&quoted, " ")
}

/// The pipeline token for `s` (device path or output location).
pub fn gst_quote(s: &str) -> (r: String)
    ensures
        r@ == gst_quoted(s@),
{
    let v = text::chars_of(s);
    if v.len() == 0 {
        return "''".to_owned();
    }
    let mut clean = true;
    let mut i: usize = 0;
    while i < v.len()
        invariant
            v@ == s@,
            i <= v@.len(),
            clean == forall|j: int| 0 <= j < i ==> is_plain(#[trigger] v@[j]),
        decreases v@.len() - i,
    {
        if !plain(v[i]) {
            assert(!is_plain(v@[i as int]));
            clean = false;
        }
        i += 1;
    }
    if clean {
        s.to_owned()
    } else {
        let mut out = String::from_str("'");
        let inner = text::replace_char(s, '\'', "'\"'\"'");
        out.append(inner.as_str());
        out.append("'");
        out
    }
}

// ---------------------------------------------------------------------------
// laws
// ---------------------------------------------------------------------------

/// Where a shell stands in a word.
pub enum Quoting {
    Bare,
    Single,
    Double,
    Escaped,
}

/// What a shell has read of a word: where it stands, the text so far, and
/// whether it has met a character that ends the word or means something else.
pub struct Reading {
    pub at: Quoting,
    pub word: Seq<char>,
    pub broken: bool,
}

/// How a shell takes one character of a word.
pub open spec fn reads(r: Reading, c: char) -> Reading {
    match r.at {
        Quoting::Single => if c == '\'' {
            Reading { at: Quoting::Bare, ..r }
        } else {
            Reading { word: r.word.push(c), ..r }
        },
        Quoting::Double => if c == '"' {
            Reading { at: Quoting::Bare, ..r }
        } else {
            Reading {
                word: r.word.push(c),
                broken: r.broken || c == '$' || c == '`' || c == '\\',
                ..r
            }
        },
        Quoting::Escaped => Reading { at: Quoting::Bare, word: r.word.push(c), ..r },
        Quoting::Bare => if c == '\'' {
            Reading { at: Quoting::Single, ..r }
        } else if c == '"' {
            Reading { at: Quoting::Double, ..r }
        } else if c == '\\' {
            Reading { at: Quoting::Escaped, ..r }
        } else {
            Reading {
                word: r.word.push(c),
                broken: r.broken || c == ' ' || c == '\t' || c == '\n' || c == '$' || c == '&' || c
                    == ';' || c == '|' || c == '<' || c == '>' || c == '(' || c == ')' || c == '*'
                    || c == '?' || c == '{' || c == '}' || c == '`',
                ..r
            }
        },
    }
}

/// What a shell reads of `s`.
pub open spec fn shell_reads(s: Seq<char>) -> Reading
    decreases s.len(),
{
    if s.len() == 0 {
        Reading { at: Quoting::Bare, word: Seq::empty(), broken: false }
    } else {
        reads(shell_reads(s.drop_last()), s.last())
    }
}

/// A shell reads `s` as the one word `w`.
pub open spec fn is_word(s: Seq<char>, w: Seq<char>) -> bool {
    s.len() > 0 && shell_reads(s) == (Reading { at: Quoting::Bare, word: w, broken: false })
}

proof fn lemma_reads_push(s: Seq<char>, c: char)
    ensures
        shell_reads(s.push(c)) == reads(shell_reads(s), c),
{
    assert(s.push(c).drop_last() =~= s);
}

/// Behind an opening quote the text is read as it was, each quote in it closed
/// over and opened again.
proof fn lemma_reads_replaced(s: Seq<char>, double: bool)
    ensures
        shell_reads(
            "'"@ + text::replaced(
                s,
                '\'',
                if double {
                    "'\"'\"'"@
                } else {
                    "'\\''"@
                },
            ),
        ) == (Reading { at: Quoting::Single, word: s, broken: false }),
    decreases s.len(),
{
    reveal_strlit("'");
    reveal_strlit("'\\''");
    reveal_strlit("'\"'\"'");
    let with = if double {
        "'\"'\"'"@
    } else {
        "'\\''"@
    };
    let open = "'"@;
    if s.len() == 0 {
        assert(open + text::replaced(s, '\'', with) =~= Seq::<char>::empty().push('\''));
        lemma_reads_push(Seq::<char>::empty(), '\'');
        assert(s =~= Seq::<char>::empty());
    } else {
        let front = s.drop_last();
        let before = open + text::replaced(front, '\'', with);
        lemma_reads_replaced(front, double);
        assert(front.push(s.last()) =~= s);
        if s.last() != '\'' {
            assert(open + text::replaced(s, '\'', with) =~= before.push(s.last()));
            lemma_reads_push(before, s.last());
        } else if double {
            let a = before.push('\'');
            let b = a.push('"');
            let c = b.push('\'');
            let d = c.push('"');
            let e = d.push('\'');
            assert(open + text::replaced(s, '\'', with) =~= e);
            lemma_reads_push(before, '\'');
            lemma_reads_push(a, '"');
            lemma_reads_push(b, '\'');
            lemma_reads_push(c, '"');
            lemma_reads_push(d, '\'');
        } else {
            let a = before.push('\'');
            let b = a.push('\\');
            let c = b.push('\'');
            let d = c.push('\'');
            assert(open + text::replaced(s, '\'', with) =~= d);
            lemma_reads_push(before, '\'');
            lemma_reads_push(a, '\\');
            lemma_reads_push(b, '\'');
            lemma_reads_push(c, '\'');
        }
    }
}

/// Text without a character that means something to a shell is read as it
/// stands.
proof fn lemma_reads_plain(s: Seq<char>)
    requires
        forall|i: int| 0 <= i < s.len() ==> !is_special(#[trigger] s[i]),
    ensures
        shell_reads(s) == (Reading { at: Quoting::Bare, word: s, broken: false }),
    decreases s.len(),
{
    if s.len() > 0 {
        let front = s.drop_last();
        assert forall|i: int| 0 <= i < front.len() implies !is_special(#[trigger] front[i]) by {
            assert(front[i] == s[i]);
        }
        lemma_reads_plain(front);
        assert(!is_special(s[s.len() - 1]));
        assert(front.push(s.last()) =~= s);
    } else {
        assert(s =~= Seq::<char>::empty());
    }
}

/// Whatever an argument holds, a shell reads its quoted form as that one
/// argument.
pub proof fn law_a_shell_reads_arguments_back(arg: Seq<char>)
    ensures
        is_word(shell_quoted(arg), arg),
{
    reveal_strlit("'");
    if needs_quotes(arg) {
        let body = "'"@ + text::replaced(arg, '\'', "'\\''"@);
        lemma_reads_replaced(arg, false);
        lemma_reads_push(body, '\'');
        assert(shell_quoted(arg) =~= body.push('\''));
    } else {
        lemma_reads_plain(arg);
    }
}

/// The same holds of a pipeline token.
pub proof fn law_a_shell_reads_tokens_back(token: Seq<char>)
    ensures
        is_word(gst_quoted(token), token),
{
    reveal_strlit("'");
    reveal_strlit("''");
    if token.len() == 0 {
        let none = Seq::<char>::empty();
        lemma_reads_push(none, '\'');
        lemma_reads_push(none.push('\''), '\'');
        assert(gst_quoted(token) =~= none.push('\'').push('\''));
        assert(token =~= none);
    } else if forall|i: int| 0 <= i < token.len() ==> is_plain(#[trigger] token[i]) {
        assert forall|i: int| 0 <= i < token.len() implies !is_special(#[trigger] token[i]) by {
            assert(is_plain(token[i]));
        }
        lemma_reads_plain(token);
    } else {
        let body = "'"@ + text::replaced(token, '\'', "'\"'\"'"@);
        lemma_reads_replaced(token, true);
        lemma_reads_push(body, '\'');
        assert(gst_quoted(token) =~= body.push('\''));
    }
}

/// An argument of letters, digits and the marks of a path or URL needs no
/// quotes, in either form.
pub proof fn law_plain_arguments_stay_bare(arg: Seq<char>)
    requires
        arg.len() > 0,
        forall|i: int|
            0 <= i < arg.len() ==> {
                let c = #[trigger] arg[i];
                'a' <= c <= 'z' || 'A' <= c <= 'Z' || '0' <= c <= '9' || c == '/' || c == '_' || c
                    == '.' || c == '-' || c == ':'
            },
    ensures
        shell_quoted(arg) == arg,
        gst_quoted(arg) == arg,
{
    assert forall|i: int| 0 <= i < arg.len() implies is_plain(#[trigger] arg[i]) && !is_special(
        arg[i],
    ) by {}
}

/// A command line grows by one argument: a blank and the quoted argument.
pub proof fn law_lines_grow_by_arguments(args: Seq<Seq<char>>, arg: Seq<char>)
    ensures
        args.len() == 0 ==> shell_line(args.push(arg)) == shell_quoted(arg),
        args.len() > 0 ==> shell_line(args.push(arg)) == shell_line(args) + " "@ + shell_quoted(
            arg,
        ),
{
    assert(all_quoted(args.push(arg)) =~= all_quoted(args).push(shell_quoted(arg)));
    assert(all_quoted(args.push(arg)).drop_last() =~= all_quoted(args));
}

} // verus!
