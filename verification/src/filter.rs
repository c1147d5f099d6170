//! Which polygons a query may use.

use vstd::prelude::*;
use crate::error::{DivertError, DivertResult};

verus! {

/// The flags of a query filter: a polygon is used when it has a flag that is
/// included and none that is excluded. The filter is a plain value; the
/// caller hands it to the engine.
#[derive(Clone, Copy, Debug, PartialEq, Eq, Structural)]
pub struct QueryFilter {
    pub include_flags: u16,
    pub exclude_flags: u16,
}

impl QueryFilter {
    /// A filter that includes every flag and excludes none. It cannot fail.
    pub fn new() -> (filter: DivertResult<QueryFilter>)
        ensures
            filter == Ok::<QueryFilter, DivertError>(
                QueryFilter { include_flags: 0xffff, exclude_flags: 0 },
            ),
    {
        Ok(QueryFilter { include_flags: 0xffff, exclude_flags: 0 })
    }

    /// Sets the flags that are included.
    pub fn set_include_flags(&mut self, include_flags: u16)
        ensures
            *final(self) == (QueryFilter { include_flags, exclude_flags: old(self).exclude_flags }),
    {
        self.include_flags = include_flags;
    }

    /// The flags that are included.
    pub fn get_include_flags(&self) -> (flags: u16)
        ensures
            flags == self.include_flags,
    {
        self.include_flags
    }

    /// Sets the flags that are excluded.
    pub fn set_exclude_flags(&mut self, exclude_flags: u16)
        ensures
            *final(self) == (QueryFilter { include_flags: old(self).include_flags, exclude_flags }),
    {
        self.exclude_flags = exclude_flags;
    }

    /// The flags that are excluded.
    pub fn get_exclude_flags(&self) -> (flags: u16)
        ensures
            flags == self.exclude_flags,
    {
        self.exclude_flags
    }
}

} // verus!
