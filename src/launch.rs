//! Building the command line for an elevated launch, and the launch outcome.

use vstd::prelude::*;
use crate::text::{is_white_space, is_whitespace, push_char};

verus! {

/// An argument must be quoted when it holds white space or a double quote.
pub open spec fn needs_quotes_spec(s: Seq<char>) -> bool {
    exists|i: int| 0 <= i < s.len() && (is_white_space(s[i]) || s[i] == '"')
}

/// Whether `s` must be quoted to stay one argument.
pub fn needs_quotes(s: &str) -> (r: bool)
    ensures
        r == needs_quotes_spec(s@),
{
    let mut found = false;
    for c in it: s.chars()
        invariant
            it.seq() == s@,
            found == exists|i: int| 0 <= i < it.index() && (is_white_space(s@[i]) || s@[i] == '"'),
    {
        if is_whitespace(c) || c == '"' {
            found = true;
        }
    }
    found
}

/// `s` with a backslash put before each double quote.
pub open spec fn escape_quotes(s: Seq<char>) -> Seq<char>
    decreases s.len(),
{
    if s.len() == 0 {
        Seq::empty()
    } else if s.last() == '"' {
        escape_quotes(s.drop_last()) + seq!['\\', '"']
    } else {
        escape_quotes(s.drop_last()).push(s.last())
    }
}

/// An argument as it is written on the command line.
pub open spec fn quoted(s: Seq<char>) -> Seq<char> {
    if needs_quotes_spec(s) {
        seq!['"'] + escape_quotes(s) + seq!['"']
    } else {
        s
    }
}

/// Arguments written on one command line, separated by single spaces.
pub open spec fn joined_arguments(args: Seq<Seq<char>>) -> Seq<char>
    decreases args.len(),
{
    if args.len() == 0 {
        Seq::empty()
    } else if args.len() == 1 {
        quoted(args[0])
    } else {
        joined_arguments(args.drop_last()) + seq![' '] + quoted(args.last())
    }
}

/// `arg` as one command-line argument: unchanged when it needs no quotes,
/// else in double quotes with each inner double quote escaped by a backslash.
pub fn quote_arg(arg: &str) -> (r: String)
    ensures
        r@ == quoted(arg@),
{
    if !needs_quotes(arg) {
        return arg.to_owned();
    }
    let mut out = String::new();
    push_char(&mut out, '"');
    for c in it: arg.chars()
        invariant
            it.seq() == arg@,
            out@ == seq!['"'] + escape_quotes(arg@.subrange(0, it.index() as int)),
    {
        let ghost before = arg@.subrange(0, it.index() as int);
        let ghost after = arg@.subrange(0, it.index() + 1);
        assert(after.drop_last() =~= before);
        assert(after.last() == c);
        if c == '"' {
            push_char(&mut out, '\\');
            push_char(&mut out, '"');
            assert(out@ =~= seq!['"'] + escape_quotes(after));
        } else {
            push_char(&mut out, c);
            assert(out@ =~= seq!['"'] + escape_quotes(after));
        }
    }
    assert(arg@.subrange(0, arg@.len() as int) =~= arg@);
    push_char(&mut out, '"');
    out
}

/// The elevated launch's parameter string: each argument quoted as needed,
/// separated by single spaces; empty when there are no arguments.
pub fn build_runas_parameters(args: Option<&[String]>) -> (r: String)
    ensures
        r@ == match args {
            Some(a) => joined_arguments(a@.map_values(|s: String| s@)),
            None => Seq::empty(),
        },
{
    let mut out = String::new();
    match args {
        None => out,
        Some(a) => {
            let ghost views = a@.map_values(|s: String| s@);
            let mut i: usize = 0;
            while i < a.len()
                invariant
                    i <= a@.len(),
                    views == a@.map_values(|s: String| s@),
                    out@ == joined_arguments(views.subrange(0, i as int)),
                decreases a.len() - i,
            {
                let q = quote_arg(a[i].as_str());
                let ghost sub = views.subrange(0, i + 1);
                assert(sub.drop_last() =~= views.subrange(0, i as int));
                assert(sub.last() == a@[i as int]@);
                if i > 0 {
                    push_char(&mut out, ' ');
                }
                out.append(q.as_str());
                assert(out@ =~= joined_arguments(sub));
                i = i + 1;
            }
            assert(views.subrange(0, a@.len() as int) =~= views);
            out
        },
    }
}

/// The OS error that asks for the program to be started with elevated rights.
pub const ELEVATION_REQUIRED_OS_ERROR: i32 = 740;

/// Whether a failed launch should be retried with elevated rights: the OS
/// reported that elevation is required.
pub fn needs_elevation(os_error: Option<i32>) -> (r: bool)
    ensures
        r == (os_error == Some(ELEVATION_REQUIRED_OS_ERROR)),
{
    match os_error {
        Some(code) => code == ELEVATION_REQUIRED_OS_ERROR,
        None => false,
    }
}

/// What a launch request returns to the front end.
#[derive(Clone, Debug)]
pub struct LaunchResult {
    pub success: bool,
    pub message: String,
    pub process_id: Option<u32>,
}

} // verus!
