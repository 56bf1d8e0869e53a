use vstd::prelude::*;

verus! {

/// UTF-16 units of the title that a console keeps; the rest is cut off.
pub const CONSOLE_TITLE_MAX_UNITS: usize = 1024;

/// How many units of `title` the console title keeps.
pub open spec fn kept_units(title: Seq<u16>) -> int {
    if title.len() < CONSOLE_TITLE_MAX_UNITS {
        title.len() as int
    } else {
        CONSOLE_TITLE_MAX_UNITS as int
    }
}

/// The wide console title for `title`: its first 1024 units at most, then a
/// terminating zero unit.
pub open spec fn console_title_of(title: Seq<u16>) -> Seq<u16> {
    title.take(kept_units(title)).push(0u16)
}

/// The null-terminated wide string that sets the console title to `title`.
/// The same string names the event that makes the title discoverable.
pub fn console_title(title: &[u16]) -> (r: Vec<u16>)
    ensures
        r@ == console_title_of(title@),
        title@.len() <= CONSOLE_TITLE_MAX_UNITS ==> r@ == title@.push(0u16),
        r@.last() == 0u16,
{
    let mut r: Vec<u16> = Vec::new();
    let mut i: usize = 0;
    while i < title.len() && i < CONSOLE_TITLE_MAX_UNITS
        invariant
            i <= title@.len(),
            i <= CONSOLE_TITLE_MAX_UNITS,
            r@ == title@.take(i as int),
        decreases title@.len() - i,
    {
        r.push(title[i]);
        i = i + 1;
        assert(r@ =~= title@.take(i as int));
    }
    r.push(0u16);
    assert(r@ =~= console_title_of(title@));
    assert(title@.len() <= CONSOLE_TITLE_MAX_UNITS ==> title@.take(i as int) =~= title@);
    r
}

} // verus!
