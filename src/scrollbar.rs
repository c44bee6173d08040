use vstd::prelude::*;

verus! {

/// The display state of a scrollbar: the length of the content and the
/// position of the thumb in it. A frame derives it from the line count and
/// the scroll position.
#[derive(Clone, Copy, Debug, PartialEq, Eq, Structural)]
pub struct ScrollbarPosition {
    pub content_length: usize,
    pub position: usize,
}

impl ScrollbarPosition {
    /// A scrollbar over empty content, at the start.
    pub fn new() -> (r: ScrollbarPosition)
        ensures
            r.content_length == 0,
            r.position == 0,
    {
        ScrollbarPosition { content_length: 0, position: 0 }
    }
}

} // verus!
