//! What the bot says for a subject who plays along.

use vstd::prelude::*;
use vstd::string::*;
use crate::weights::thread_rng;

verus! {

/// The lines of which one is said when `author` struggles.
pub open spec fn spec_struggle_lines(author: Seq<char>) -> Seq<Seq<char>> {
    seq![
        "*"@ + author + " struggled against the ropes*"@,
        "*"@ + author + " uselessly struggled against the ropes*"@,
        "*"@ + author + " squirms against the strength of the ropes*"@,
        "*"@ + author + " is unable to get free*"@,
    ]
}

/// The line that is said when `author` wants to be let out.
pub open spec fn spec_let_me_out(author: Seq<char>) -> Seq<char> {
    "*"@ + author + " wants to be let out*"@
}

/// Calls `rand::seq::IndexedRandom::choose` on `lines` and copies what it
/// picked: one of the lines, whichever, and nothing only if there is none.
#[verifier::external_body]
pub(crate) fn choose_line(lines: &Vec<String>, rng: &mut rand::rngs::ThreadRng) -> (r: Option<
    String,
>)
    ensures
        match r {
            Some(line) => exists|i: int| 0 <= i < lines@.len() && (#[trigger] lines@[i])@ == line@,
            None => lines@.len() == 0,
        },
{
    rand::seq::IndexedRandom::choose(lines.as_slice(), rng).cloned()
}

/// `before`, `author` and `after` in a row.
fn line(before: &str, author: &str, after: &str) -> (r: String)
    ensures
        r@ == before@ + author@ + after@,
{
    let mut out = String::from_str(before);
    out.append(author);
    out.append(after);
    out
}

/// The lines of which one is said when `author` struggles.
pub fn struggle_lines(author: &str) -> (r: Vec<String>)
    ensures
        r.deep_view() == spec_struggle_lines(author@),
        r@.len() == 4,
{
    let mut lines: Vec<String> = Vec::new();
    lines.push(line("*", author, " struggled against the ropes*"));
    lines.push(line("*", author, " uselessly struggled against the ropes*"));
    lines.push(line("*", author, " squirms against the strength of the ropes*"));
    lines.push(line("*", author, " is unable to get free*"));
    assert(lines.deep_view() =~= spec_struggle_lines(author@));
    lines
}

/// What is said when `author` struggles: one of four lines, by chance.
pub fn struggle(author: &str) -> (r: String)
    ensures
        exists|i: int| 0 <= i < 4 && #[trigger] spec_struggle_lines(author@)[i] == r@,
{
    let lines = struggle_lines(author);
    let mut rng = thread_rng();
    match choose_line(&lines, &mut rng) {
        Some(picked) => {
            proof {
                let i = choose|i: int| 0 <= i < lines@.len() && (#[trigger] lines@[i])@ == picked@;
                assert(lines.deep_view()[i] == lines@[i]@);
                assert(0 <= i < 4 && spec_struggle_lines(author@)[i] == picked@);
            }
            picked
        },
        None => unreached(),
    }
}

/// What is said when `author` wants to be let out.
pub fn let_me_out(author: &str) -> (r: String)
    ensures
        r@ == spec_let_me_out(author@),
{
    line("*", author, " wants to be let out*")
}

} // verus!
