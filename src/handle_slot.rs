use vstd::prelude::*;

verus! {

/// Whether `held` is a handle that must be closed when it leaves the slot:
/// a null handle (zero) never is.
pub open spec fn must_release(held: Option<usize>) -> bool {
    held matches Some(h) && h != 0
}

/// The live handles in `held`: the handle itself unless it is absent or null.
pub open spec fn live_handles(held: Option<usize>) -> Seq<usize> {
    if must_release(held) {
        seq![held->0]
    } else {
        Seq::empty()
    }
}

/// What the slot holds after storing each of `handles` in turn, starting from `held`.
pub open spec fn held_after(held: Option<usize>, handles: Seq<usize>) -> Option<usize> {
    if handles.len() == 0 {
        held
    } else {
        Some(handles.last())
    }
}

/// The handles released, in order, while storing each of `handles` in turn,
/// starting from `held`: each store releases what the slot held before it.
pub open spec fn released_by(held: Option<usize>, handles: Seq<usize>) -> Seq<usize>
    decreases handles.len(),
{
    if handles.len() == 0 {
        Seq::empty()
    } else {
        let before = handles.drop_last();
        released_by(held, before) + live_handles(held_after(held, before))
    }
}

/// A process-wide register holding the raw value of the most recently created
/// title handle. Storing a new handle hands back the one it supersedes, if
/// that one must be closed, so that exactly one handle is live at a time.
pub struct HandleSlot {
    current: Option<usize>,
}

impl View for HandleSlot {
    type V = Option<usize>;

    closed spec fn view(&self) -> Option<usize> {
        self.current
    }
}

impl HandleSlot {
    /// An empty slot.
    pub fn new() -> (slot: Self)
        ensures
            slot@ is None,
    {
        HandleSlot { current: None }
    }

    /// The handle held, if any.
    pub fn current(&self) -> (r: Option<usize>)
        ensures
            r == self@,
    {
        self.current
    }

    /// Whether a handle is held.
    pub fn is_some(&self) -> (r: bool)
        ensures
            r == self@ is Some,
    {
        self.current.is_some()
    }

    /// Stores `handle`, superseding the handle held before. Returns that
    /// earlier handle where it must be closed, and `None` where the slot was
    /// empty or held a null handle, which is never closed.
    pub fn replace(&mut self, handle: usize) -> (released: Option<usize>)
        ensures
            final(self)@ == Some(handle),
            released == (if must_release(old(self)@) {
                old(self)@
            } else {
                None
            }),
    {
        let before = self.current;
        self.current = Some(handle);
        match before {
            Some(h) => {
                if h != 0 {
                    Some(h)
                } else {
                    None
                }
            },
            None => None,
        }
    }
}

/// Storing handles one after another in a slot leaks none and releases none
/// twice: the handles released, followed by the one still held if it is live,
/// are exactly the live handle held at the start followed by every non-null
/// handle stored, in order. The slot ends holding the last handle stored.
pub proof fn lemma_each_handle_released_once(held: Option<usize>, handles: Seq<usize>)
    ensures
        released_by(held, handles) + live_handles(held_after(held, handles))
            == live_handles(held) + handles.filter(|h: usize| h != 0),
        handles.len() > 0 ==> held_after(held, handles) == Some(handles.last()),
    decreases handles.len(),
{
    reveal(Seq::filter);
    let nonnull = |h: usize| h != 0;
    if handles.len() == 0 {
        assert(handles.filter(nonnull) =~= Seq::<usize>::empty());
        assert(released_by(held, handles) + live_handles(held) =~= live_handles(held)
            + handles.filter(nonnull));
    } else {
        let before = handles.drop_last();
        lemma_each_handle_released_once(held, before);
        let last = Some(handles.last());
        assert(live_handles(last) =~= (if handles.last() != 0 {
            seq![handles.last()]
        } else {
            Seq::empty()
        }));
        assert(released_by(held, handles) + live_handles(last) =~= live_handles(held)
            + handles.filter(nonnull));
    }
}

} // verus!
