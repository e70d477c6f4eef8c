//! The plug this controller drives, known by its hardware address.
use vstd::prelude::*;

verus! {

#[derive(Debug)]
pub struct Switch {
    pub target_mac: String,
    pub is_debug: bool,
}

/// A handle on the plug at `target_mac`; `is_debug` asks for the advertised
/// data to be logged in full.
pub fn new(target_mac: &str, is_debug: bool) -> (r: Switch)
    ensures
        r.target_mac@ == target_mac@,
        r.is_debug == is_debug,
{
    Switch { target_mac: target_mac.to_owned(), is_debug }
}

impl Switch {
    /// Among the addresses of the peripherals a scan found, the position of
    /// the first one that is this plug's.
    pub fn find_switch_plug(&self, addresses: &Vec<String>) -> (r: Option<usize>)
        ensures
            r matches Some(i) ==> i < addresses@.len() && addresses@[i as int]@
                == self.target_mac@ && forall|j: int|
                0 <= j < i ==> addresses@[j]@ != self.target_mac@,
            r.is_none() ==> forall|j: int|
                0 <= j < addresses@.len() ==> addresses@[j]@ != self.target_mac@,
    {
        let mut i: usize = 0;
        while i < addresses.len()
            invariant
                i <= addresses@.len(),
                forall|j: int| 0 <= j < i ==> addresses@[j]@ != self.target_mac@,
            decreases addresses@.len() - i,
        {
            if addresses[i] == self.target_mac {
                return Some(i);
            }
            i = i + 1;
        }
        None
    }
}

} // verus!
