use vstd::prelude::*;

verus! {

/// The bytes of a native string for `text`: the text followed by its terminator.
pub open spec fn terminated(text: Seq<u8>) -> Seq<u8> {
    text.push(0u8)
}

/// Whether `text` holds a zero byte; a native string cannot hold one before its end.
pub fn contains_nul(text: &[u8]) -> (r: bool)
    ensures
        r == text@.contains(0u8),
{
    let mut i: usize = 0;
    while i < text.len()
        invariant
            i <= text@.len(),
            forall|j: int| 0 <= j < i ==> text@[j] != 0u8,
        decreases text@.len() - i,
    {
        if text[i] == 0u8 {
            assert(text@[i as int] == 0u8);
            return true;
        }
        i = i + 1;
    }
    false
}

/// The native null-terminated form of `text`, or `None` where `text` holds a
/// zero byte and so has no such form.
pub fn native_string(text: &[u8]) -> (r: Option<Vec<u8>>)
    ensures
        r is None <==> text@.contains(0u8),
        r matches Some(s) ==> s@ == terminated(text@),
{
    if contains_nul(text) {
        return None;
    }
    let mut s: Vec<u8> = Vec::new();
    let mut i: usize = 0;
    while i < text.len()
        invariant
            i <= text@.len(),
            s@ == text@.take(i as int),
        decreases text@.len() - i,
    {
        s.push(text[i]);
        i = i + 1;
        assert(s@ =~= text@.take(i as int));
    }
    s.push(0u8);
    assert(s@ =~= terminated(text@));
    Some(s)
}

} // verus!
