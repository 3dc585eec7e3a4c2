use crate::error::WallpaperError;
use vstd::prelude::*;

verus! {

/// One attached display: its place in the sequence that the system
/// enumerated, and the identifier that the system reports for it.
#[derive(Clone, Copy, Debug, PartialEq, Eq, Structural)]
pub struct DisplayHandle {
    pub index: usize,
    pub identifier: u64,
}

/// Whether a handle names the first display of a sequence that reports the
/// identifier asked for.
pub open spec fn is_first_match(displays: Seq<u64>, requested: u64, handle: DisplayHandle) -> bool {
    &&& handle.identifier == requested
    &&& handle.index < displays.len()
    &&& displays[handle.index as int] == requested
    &&& forall|j: int| 0 <= j < handle.index ==> displays[j] != requested
}

/// What looking a display up gives: the first display that reports the
/// identifier, or the error that says that none does.
pub open spec fn spec_resolve(displays: Seq<u64>, requested: u64) -> Result<
    DisplayHandle,
    WallpaperError,
> {
    match displays.index_of_first(requested) {
        Some(index) => Ok(DisplayHandle { index: index as usize, identifier: requested }),
        None => Err(WallpaperError::DisplayNotFound(requested)),
    }
}

/// Looking a display up succeeds exactly when some display reports the
/// identifier, and then gives the first such display.
pub proof fn lemma_resolve_first_match(displays: Seq<u64>, requested: u64)
    requires
        displays.len() <= usize::MAX,
    ensures
        spec_resolve(displays, requested).is_ok() <==> displays.contains(requested),
        match spec_resolve(displays, requested) {
            Ok(handle) => is_first_match(displays, requested, handle),
            Err(error) => error == WallpaperError::DisplayNotFound(requested),
        },
{
    displays.index_of_first_ensures(requested);
}

/// Finds, among the identifiers of the attached displays in the order in
/// which the system enumerated them, the first display that reports the
/// identifier asked for.
pub fn resolve(displays: &Vec<u64>, requested: u64) -> (found: Result<
    DisplayHandle,
    WallpaperError,
>)
    ensures
        found == spec_resolve(displays@, requested),
        found.is_ok() <==> displays@.contains(requested),
        match found {
            Ok(handle) => is_first_match(displays@, requested, handle),
            Err(error) => error == WallpaperError::DisplayNotFound(requested),
        },
{
    let mut i: usize = 0;
    while i < displays.len()
        invariant
            i <= displays.len(),
            forall|j: int| 0 <= j < i ==> displays@[j] != requested,
        decreases displays.len() - i,
    {
        if displays[i] == requested {
            proof {
                displays@.index_of_first_ensures(requested);
            }
            return Ok(DisplayHandle { index: i, identifier: requested });
        }
        i += 1;
    }
    proof {
        displays@.index_of_first_ensures(requested);
    }
    Err(WallpaperError::DisplayNotFound(requested))
}

} // verus!
