use vstd::prelude::*;
use vstd::string::StringExecFns;

use crate::agent::opt_view;
use crate::text::{append_joined, join_of, strings_view};

verus! {

/// Why the arguments of `work add` were refused.
#[derive(Debug, Clone, Copy, PartialEq, Eq, Structural)]
pub enum AddArgsError {
    /// No arguments at all.
    Usage,
    /// A description flag with nothing after it.
    MissingValue,
    /// The words of the title make an empty title.
    EmptyTitle,
}

impl AddArgsError {
    /// The message shown to the user.
    pub fn to_string(&self) -> (r: String)
        ensures
            r@ == add_args_message(*self),
    {
        match self {
            AddArgsError::Usage => String::from_str(
                "Usage: work add <title> [-d <description>]\n\nExamples:\n  work add \"Fix the login bug\"\n  work add \"Fix the login bug\" -d \"Users can't log in with SSO\"",
            ),
            AddArgsError::MissingValue => String::from_str("Missing value for -d/--desc flag"),
            AddArgsError::EmptyTitle => String::from_str("Task title cannot be empty"),
        }
    }
}

pub open spec fn add_args_message(e: AddArgsError) -> Seq<char> {
    match e {
        AddArgsError::Usage => "Usage: work add <title> [-d <description>]\n\nExamples:\n  work add \"Fix the login bug\"\n  work add \"Fix the login bug\" -d \"Users can't log in with SSO\""@,
        AddArgsError::MissingValue => "Missing value for -d/--desc flag"@,
        AddArgsError::EmptyTitle => "Task title cannot be empty"@,
    }
}

pub open spec fn is_desc_flag(s: Seq<char>) -> bool {
    s == "-d"@ || s == "--desc"@ || s == "--description"@
}

/// Reads the arguments from position `i` on, given the title words and the
/// description found before it. A flag takes the next argument as the
/// description (a later one replaces an earlier one); every other argument is a
/// title word.
pub open spec fn scan_args(
    args: Seq<Seq<char>>,
    i: int,
    words: Seq<Seq<char>>,
    desc: Option<Seq<char>>,
) -> Result<(Seq<Seq<char>>, Option<Seq<char>>), AddArgsError>
    decreases args.len() - i,
{
    if i >= args.len() || i < 0 {
        Ok((words, desc))
    } else if is_desc_flag(args[i]) {
        if i + 1 < args.len() {
            scan_args(args, i + 2, words, Some(args[i + 1]))
        } else {
            Err(AddArgsError::MissingValue)
        }
    } else {
        scan_args(args, i + 1, words.push(args[i]), desc)
    }
}

/// The title (the words joined by spaces) and description that the arguments
/// give, or why they are refused.
pub open spec fn parsed_add_args(args: Seq<Seq<char>>) -> Result<(Seq<char>, Option<Seq<char>>), AddArgsError> {
    if args.len() == 0 {
        Err(AddArgsError::Usage)
    } else {
        match scan_args(args, 0, Seq::empty(), None) {
            Err(e) => Err(e),
            Ok((words, desc)) => if join_of(words, " "@).len() == 0 {
                Err(AddArgsError::EmptyTitle)
            } else {
                Ok((join_of(words, " "@), desc))
            },
        }
    }
}

fn is_desc_flag_exec(s: &String) -> (r: bool)
    ensures
        r == is_desc_flag(s@),
{
    *s == String::from_str("-d") || *s == String::from_str("--desc") || *s == String::from_str(
        "--description",
    )
}

/// Parses the arguments of `work add` into a title and an optional description.
pub fn parse_add_args(args: &[String]) -> (r: Result<(String, Option<String>), AddArgsError>)
    ensures
        match (r, parsed_add_args(strings_view(args@))) {
            (Ok((t, d)), Ok((t2, d2))) => t@ == t2 && opt_view(d) == d2,
            (Err(e), Err(e2)) => e == e2,
            _ => false,
        },
{
    let ghost av = strings_view(args@);
    if args.len() == 0 {
        return Err(AddArgsError::Usage);
    }
    let mut words: Vec<String> = Vec::new();
    let mut description: Option<String> = None;
    let mut i: usize = 0;
    assert(strings_view(words@) =~= Seq::<Seq<char>>::empty());
    while i < args.len()
        invariant
            av == strings_view(args@),
            i <= args@.len(),
            scan_args(av, i as int, strings_view(words@), opt_view(description)) == scan_args(
                av,
                0,
                Seq::empty(),
                None,
            ),
        decreases args.len() - i,
    {
        assert(av[i as int] == args@[i as int]@);
        let ghost i0 = i as int;
        let ghost w0 = strings_view(words@);
        let ghost d0 = opt_view(description);
        if is_desc_flag_exec(&args[i]) {
            i += 1;
            if i < args.len() {
                description = Some(args[i].clone());
                assert(av[i as int] == args@[i as int]@);
                assert(scan_args(av, i0, w0, d0) == scan_args(av, i0 + 2, w0, Some(av[i0 + 1])));
            } else {
                assert(scan_args(av, i0, w0, d0) == Err::<(Seq<Seq<char>>, Option<Seq<char>>), AddArgsError>(AddArgsError::MissingValue));
                return Err(AddArgsError::MissingValue);
            }
        } else {
            let w = args[i].clone();
            words.push(w);
            assert(strings_view(words@) =~= w0.push(w@));
            assert(scan_args(av, i0, w0, d0) == scan_args(av, i0 + 1, w0.push(av[i0]), d0));
        }
        i += 1;
    }
    let mut title = String::new();
    append_joined(&mut title, &words, " ");
    assert(Seq::<char>::empty() + join_of(strings_view(words@), " "@) =~= join_of(
        strings_view(words@),
        " "@,
    ));
    if title.as_str().is_empty() {
        return Err(AddArgsError::EmptyTitle);
    }
    Ok((title, description))
}

} // verus!
