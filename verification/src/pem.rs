use vstd::prelude::*;

verus! {

/// Whether `needle` stands in `text` at position `at`.
pub open spec fn occurs_at(needle: Seq<u8>, text: Seq<u8>, at: int) -> bool {
    0 <= at && at + needle.len() <= text.len() && text.subrange(at, at + needle.len()) == needle
}

/// Whether `needle` stands somewhere in `text`.
pub open spec fn occurs(needle: Seq<u8>, text: Seq<u8>) -> bool {
    exists|at: int| occurs_at(needle, text, at)
}

/// The word by which a PEM text says that what it holds is encrypted, be
/// it in a header line or in the label of a block: `ENCRYPTED`.
pub open spec fn encryption_mark() -> Seq<u8> {
    seq![69u8, 78u8, 67u8, 82u8, 89u8, 80u8, 84u8, 69u8, 68u8]
}

/// Whether a PEM text mentions encryption anywhere. A text that does is
/// not handed to the cryptographic library, which would ask for a
/// passphrase.
pub open spec fn mentions_encryption(text: Seq<u8>) -> bool {
    occurs(encryption_mark(), text)
}

/// Whether `needle` stands in `text` at position `at`, which must leave
/// room for it.
fn matches_at(needle: &[u8], text: &[u8], at: usize) -> (same: bool)
    requires
        at + needle@.len() <= text@.len(),
    ensures
        same == occurs_at(needle@, text@, at as int),
{
    let length = text.len();
    let mut i: usize = 0;
    while i < needle.len()
        invariant
            i <= needle@.len(),
            length == text@.len(),
            at + needle@.len() <= text@.len(),
            forall|k: int| 0 <= k < i ==> text@[at + k] == needle@[k],
        decreases needle@.len() - i,
    {
        if text[at + i] != needle[i] {
            proof {
                let part = text@.subrange(at as int, at + needle@.len());
                assert(part[i as int] == text@[at + i]);
            }
            return false;
        }
        i += 1;
    }
    assert(text@.subrange(at as int, at + needle@.len()) =~= needle@);
    true
}

/// Whether `needle` stands somewhere in `text`.
pub fn find(needle: &[u8], text: &[u8]) -> (found: bool)
    ensures
        found == occurs(needle@, text@),
{
    if needle.len() > text.len() {
        return false;
    }
    if needle.len() == 0 {
        assert(text@.subrange(0, 0) =~= needle@);
        assert(occurs_at(needle@, text@, 0));
        return true;
    }
    let last = text.len() - needle.len();
    let mut at: usize = 0;
    while at <= last
        invariant
            last == text@.len() - needle@.len(),
            last < usize::MAX,
            at <= last + 1,
            forall|k: int| 0 <= k < at ==> !occurs_at(needle@, text@, k),
        decreases last + 1 - at,
    {
        if matches_at(needle, text, at) {
            return true;
        }
        at += 1;
    }
    false
}

/// Whether a PEM text mentions encryption anywhere.
pub fn encrypted(text: &[u8]) -> (found: bool)
    ensures
        found == mentions_encryption(text@),
{
    let mark: [u8; 9] = [69u8, 78u8, 67u8, 82u8, 89u8, 80u8, 84u8, 69u8, 68u8];
    assert(mark@ =~= encryption_mark());
    find(mark.as_slice(), text)
}

} // verus!
