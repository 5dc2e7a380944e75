//! Texts as sequences of characters, and the joining of lines.

use vstd::prelude::*;

verus! {

/// The text of each string of `lines`, in order.
pub open spec fn texts(lines: Seq<String>) -> Seq<Seq<char>> {
    Seq::new(lines.len(), |i: int| lines[i]@)
}

/// The text of `s`, where there is one.
pub open spec fn optional_text(s: Option<String>) -> Option<Seq<char>> {
    match s {
        Some(text) => Some(text@),
        None => None,
    }
}

/// The lines joined into one text, with `sep` between neighbours and nowhere
/// else: no separator leads or trails, and no line gives the empty text.
pub open spec fn join(lines: Seq<Seq<char>>, sep: Seq<char>) -> Seq<char>
    decreases lines.len(),
{
    if lines.len() == 0 {
        Seq::empty()
    } else if lines.len() == 1 {
        lines[0]
    } else {
        join(lines.drop_last(), sep) + sep + lines.last()
    }
}

/// Joining one more line appends the separator and the line, unless the line
/// is the first.
pub proof fn lemma_join_push(lines: Seq<Seq<char>>, line: Seq<char>, sep: Seq<char>)
    ensures
        join(lines.push(line), sep) == if lines.len() == 0 {
            line
        } else {
            join(lines, sep) + sep + line
        },
{
    let longer = lines.push(line);
    assert(longer.drop_last() =~= lines);
    assert(longer.last() == line);
}

/// Joins `lines` with `sep` between neighbours.
pub fn join_lines(lines: &Vec<String>, sep: &str) -> (out: String)
    ensures
        out@ == join(texts(lines@), sep@),
{
    let mut out = String::new();
    let mut i: usize = 0;
    while i < lines.len()
        invariant
            i <= lines.len(),
            out@ == join(texts(lines@).take(i as int), sep@),
        decreases lines.len() - i,
    {
        proof {
            let done = texts(lines@).take(i as int);
            lemma_join_push(done, lines@[i as int]@, sep@);
            assert(done.push(lines@[i as int]@) =~= texts(lines@).take(i + 1));
        }
        if i > 0 {
            out.append(sep);
        }
        out.append(lines[i].as_str());
        i += 1;
    }
    assert(texts(lines@).take(lines.len() as int) =~= texts(lines@));
    out
}

} // verus!
