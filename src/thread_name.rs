use vstd::prelude::*;

use crate::native_string::{native_string, terminated};

verus! {

/// Visible bytes that a thread name keeps; the rest of the title is cut off.
pub const THREAD_NAME_MAX_LEN: usize = 15;

/// Size of a thread name buffer: the visible bytes and at least one terminator.
pub const THREAD_NAME_BUF_LEN: usize = 16;

/// How many bytes of `text` a thread name keeps.
pub open spec fn kept_len(text: Seq<u8>) -> int {
    if text.len() < THREAD_NAME_MAX_LEN {
        text.len() as int
    } else {
        THREAD_NAME_MAX_LEN as int
    }
}

/// The thread name buffer for `text`: its first fifteen bytes at most, and
/// zero bytes after them up to the buffer's size.
pub open spec fn thread_name_of(text: Seq<u8>) -> Seq<u8> {
    text.take(kept_len(text)) + Seq::new(
        (THREAD_NAME_BUF_LEN - kept_len(text)) as nat,
        |_i: int| 0u8,
    )
}

/// The name buffer that sets the calling thread's name to `title`, or `None`
/// where `title` holds a zero byte and has no native form.
pub fn thread_name(title: &[u8]) -> (r: Option<Vec<u8>>)
    ensures
        r is None <==> title@.contains(0u8),
        r matches Some(name) ==> name@ == thread_name_of(title@),
{
    match native_string(title) {
        None => None,
        Some(c) => {
            proof {
                assert(c@ == terminated(title@));
            }
            let mut name: Vec<u8> = Vec::new();
            let mut i: usize = 0;
            while i < THREAD_NAME_BUF_LEN
                invariant
                    i <= THREAD_NAME_BUF_LEN,
                    c@ == terminated(title@),
                    name@.len() == i,
                    forall|j: int|
                        0 <= j < i ==> #[trigger] name@[j] == thread_name_of(title@)[j],
                decreases THREAD_NAME_BUF_LEN - i,
            {
                if i < THREAD_NAME_MAX_LEN && i < c.len() {
                    name.push(c[i]);
                } else {
                    name.push(0u8);
                }
                i = i + 1;
            }
            assert(name@ =~= thread_name_of(title@));
            Some(name)
        },
    }
}

} // verus!
