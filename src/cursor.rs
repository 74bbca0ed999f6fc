use vstd::prelude::*;

verus! {

/// Where pagination stands.
///
/// `More` holds the continuation taken verbatim from a page's "load more"
/// control. A stream moves from `Initial` through `More` to `End`.
#[derive(Debug)]
pub enum NitterCursor {
    Initial,
    More(String),
    End,
}

impl NitterCursor {
    /// Rank of the cursor in its one-way progression.
    pub open spec fn rank(&self) -> nat {
        match self {
            NitterCursor::Initial => 0,
            NitterCursor::More(_) => 1,
            NitterCursor::End => 2,
        }
    }
}

} // verus!
