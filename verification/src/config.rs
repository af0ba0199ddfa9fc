//! How many demons the main and the extended list hold.
use vstd::prelude::*;

verus! {

/// The sizes of the list's sections: positions `1..=list_size` form the main list,
/// positions up to `extended_list_size` the extended list, and the rest the legacy list.
#[derive(Debug, Clone, Copy, PartialEq, Eq, Structural)]
pub struct ListConfig {
    pub list_size: i16,
    pub extended_list_size: i16,
}

impl ListConfig {
    /// The sizes are positive and the extended list contains the main list.
    pub open spec fn wf(self) -> bool {
        0 < self.list_size <= self.extended_list_size
    }

    /// A configuration with the given sizes, if they describe nested sections.
    pub fn new(list_size: i16, extended_list_size: i16) -> (r: Option<ListConfig>)
        ensures
            r is Some <==> 0 < list_size <= extended_list_size,
            r matches Some(c) ==> c.list_size == list_size && c.extended_list_size == extended_list_size,
    {
        if 0 < list_size && list_size <= extended_list_size {
            Some(ListConfig { list_size, extended_list_size })
        } else {
            None
        }
    }

    pub fn list_size(&self) -> (r: i16)
        ensures
            r == self.list_size,
    {
        self.list_size
    }

    pub fn extended_list_size(&self) -> (r: i16)
        ensures
            r == self.extended_list_size,
    {
        self.extended_list_size
    }
}

} // verus!
