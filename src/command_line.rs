use vstd::prelude::*;

verus! {

/// The state of the tokenizer between two characters: the words completed so
/// far, the word being built, whether a quoted part is open, and whether the
/// previous character was an unconsumed backslash.
pub struct Scan {
    pub args: Seq<Seq<char>>,
    pub current: Seq<char>,
    pub in_quotes: bool,
    pub escaped: bool,
}

/// `args` with `word` appended, when `word` is not empty.
pub open spec fn flush(args: Seq<Seq<char>>, word: Seq<char>) -> Seq<Seq<char>> {
    if word.len() > 0 {
        args.push(word)
    } else {
        args
    }
}

/// One character of input. A backslash escapes the next character: an escaped
/// quote stands for itself, any other escaped character is kept with its
/// backslash. An unescaped quote opens a quoted part, or closes it and ends
/// the word. An unescaped space outside quotes ends the word.
pub open spec fn step(s: Scan, c: char) -> Scan {
    if s.escaped {
        Scan {
            args: s.args,
            current: if c == '"' {
                s.current.push('"')
            } else {
                s.current.push('\\').push(c)
            },
            in_quotes: s.in_quotes,
            escaped: false,
        }
    } else if c == '\\' {
        Scan { args: s.args, current: s.current, in_quotes: s.in_quotes, escaped: true }
    } else if c == '"' {
        if s.in_quotes {
            Scan { args: flush(s.args, s.current), current: Seq::empty(), in_quotes: false, escaped: false }
        } else {
            Scan { args: s.args, current: s.current, in_quotes: true, escaped: false }
        }
    } else if c == ' ' && !s.in_quotes {
        Scan { args: flush(s.args, s.current), current: Seq::empty(), in_quotes: false, escaped: false }
    } else {
        Scan { args: s.args, current: s.current.push(c), in_quotes: s.in_quotes, escaped: false }
    }
}

/// The tokenizer's state after reading all of `input`.
pub open spec fn scan(input: Seq<char>) -> Scan
    decreases input.len(),
{
    if input.len() == 0 {
        Scan { args: Seq::empty(), current: Seq::empty(), in_quotes: false, escaped: false }
    } else {
        step(scan(input.drop_last()), input.last())
    }
}

/// The words of a command line. A trailing lone backslash is dropped, and an
/// unclosed quoted part ends the last word.
pub open spec fn words(input: Seq<char>) -> Seq<Seq<char>> {
    flush(scan(input).args, scan(input).current)
}

/// Relies on String::push: the character is appended at the end.
#[verifier::external_body]
fn push_char(s: &mut String, c: char)
    ensures
        final(s)@ == old(s)@.push(c),
{
    s.push(c)
}

/// Splits a command line into its words, honouring double quotes and
/// backslash escapes as `step` describes.
pub fn parse_command(input: &str) -> (r: Vec<String>)
    ensures
        r@.len() == words(input@).len(),
        forall|i: int| 0 <= i < r@.len() ==> #[trigger] r@[i]@ == words(input@)[i],
{
    let mut args: Vec<String> = Vec::new();
    let mut current_arg = String::new();
    let mut in_quotes = false;
    let mut escaped = false;
    for c in it: input.chars()
        invariant
            it.seq() == input@,
            ({
                let s = scan(input@.take(it.index() as int));
                &&& args@.len() == s.args.len()
                &&& forall|k: int| 0 <= k < args@.len() ==> #[trigger] args@[k]@ == s.args[k]
                &&& current_arg@ == s.current
                &&& in_quotes == s.in_quotes
                &&& escaped == s.escaped
            }),
    {
        proof {
            assert(input@.take(it.index() + 1).drop_last() == input@.take(it.index() as int));
        }
        if escaped {
            if c == '"' {
                push_char(&mut current_arg, '"');
            } else {
                push_char(&mut current_arg, '\\');
                push_char(&mut current_arg, c);
            }
            escaped = false;
        } else if c == '\\' {
            escaped = true;
        } else if c == '"' {
            if in_quotes {
                if !current_arg.as_str().is_empty() {
                    args.push(current_arg);
                    current_arg = String::new();
                }
                in_quotes = false;
            } else {
                in_quotes = true;
            }
        } else if c == ' ' && !in_quotes {
            if !current_arg.as_str().is_empty() {
                args.push(current_arg);
                current_arg = String::new();
            }
        } else {
            push_char(&mut current_arg, c);
        }
    }
    proof {
        assert(input@.take(input@.len() as int) == input@);
    }
    if !current_arg.as_str().is_empty() {
        args.push(current_arg);
    }
    args
}

} // verus!
