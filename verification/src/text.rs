use vstd::prelude::*;
use vstd::string::*;

verus! {

/// The texts that a list of strings holds, in its order.
pub open spec fn texts(strings: Seq<String>) -> Seq<Seq<char>> {
    Seq::new(strings.len(), |i: int| strings[i]@)
}

/// Whether two texts are the same.
pub fn same(left: &str, right: &str) -> (equal: bool)
    ensures
        equal == (left@ == right@),
{
    left.to_owned() == right.to_owned()
}

/// One text followed by another.
pub fn chain(left: &str, right: &str) -> (joined: String)
    ensures
        joined@ == left@ + right@,
{
    let mut joined = left.to_owned();
    joined.append(right);
    joined
}

/// Appends a text to a list of strings.
pub fn push_text(strings: &mut Vec<String>, text: &str)
    ensures
        texts(final(strings)@) == texts(old(strings)@).push(text@),
{
    strings.push(text.to_owned());
    assert(texts(strings@) =~= texts(old(strings)@).push(text@));
}

} // verus!
