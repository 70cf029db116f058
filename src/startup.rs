use vstd::prelude::*;

use crate::title::{opened_title, opened_title_text};

verus! {

/// The title of a window that has no file open yet.
pub open spec fn loading_title_text() -> Seq<char> {
    seq!['L', 'o', 'a', 'd', 'i', 'n', 'g']
}

/// The file named on the command line: the first argument after the
/// program's own name, if there is one.
pub open spec fn file_argument_of(args: Seq<String>) -> Option<String> {
    if args.len() > 1 {
        Some(args[1])
    } else {
        None
    }
}

/// The title the window opens with.
pub open spec fn startup_title_text(file_arg: Option<Seq<char>>) -> Seq<char> {
    match file_arg {
        Some(path) => opened_title_text(path),
        None => loading_title_text(),
    }
}

/// Picks the file path out of the command line `args`, whose first element
/// is the program's name. Further arguments are ignored.
pub fn file_argument(args: &Vec<String>) -> (r: Option<String>)
    ensures
        r == file_argument_of(args@),
{
    if args.len() > 1 {
        Some(args[1].clone())
    } else {
        None
    }
}

/// The title the window opens with: the file named on the command line if
/// there is one, else a note that nothing is open yet.
pub fn startup_title(file_arg: &Option<String>) -> (r: String)
    ensures
        r@ == startup_title_text(file_arg.deep_view()),
{
    match file_arg {
        Some(path) => opened_title(path.as_str()),
        None => {
            let r = String::from_str("Loading");
            proof {
                reveal_strlit("Loading");
                assert(r@ =~= loading_title_text());
            }
            r
        },
    }
}

} // verus!
