use vstd::prelude::*;

verus! {

/// The text shown in the window title once the file at `path` is open:
/// `Opened: '<path>'`.
pub open spec fn opened_title_text(path: Seq<char>) -> Seq<char> {
    seq!['O', 'p', 'e', 'n', 'e', 'd', ':', ' ', '\''] + path + seq!['\'']
}

/// Builds the window title announcing that the file at `path` was opened.
pub fn opened_title(path: &str) -> (r: String)
    ensures
        r@ == opened_title_text(path@),
        r@.subrange(9, 9 + path@.len() as int) == path@,
{
    let prefix = String::from_str("Opened: '");
    let with_path = prefix.concat(path);
    let r = with_path.concat("'");
    proof {
        reveal_strlit("Opened: '");
        reveal_strlit("'");
        assert(r@ =~= opened_title_text(path@));
        assert(r@.subrange(9, 9 + path@.len() as int) =~= path@);
    }
    r
}

} // verus!
