//! The kernel's own system calls: handing a PCI device to user space, and
//! telling user space the physical frames behind its pages.

use vstd::prelude::*;

use crate::memory::MemoryAttr;
use crate::syscall::SysError;

verus! {

/// `map_pci_device`, once the device was looked up and its first memory
/// region read: `ENOENT` where there is no such device or region; else the
/// length of the area to map, which only user access marks.
pub fn map_pci_plan(found: bool, bar0: Option<(usize, usize)>) -> (r: Result<(usize, MemoryAttr), SysError>)
    ensures
        r == if !found {
            Err::<(usize, MemoryAttr), SysError>(SysError::ENOENT)
        } else {
            match bar0 {
                None => Err(SysError::ENOENT),
                Some((base, len)) => Ok((len, MemoryAttr { user: true, readonly: false, execute: false, mmio: 0 })),
            }
        },
{
    if !found {
        return Err(SysError::ENOENT);
    }
    match bar0 {
        None => Err(SysError::ENOENT),
        Some((_base, len)) => Ok((len, MemoryAttr::default().user())),
    }
}

/// `get_paddr`: the physical address of each page, where it is mapped, or 0.
pub fn get_paddrs(translated: &Vec<Option<usize>>) -> (paddrs: Vec<u64>)
    ensures
        paddrs@.len() == translated@.len(),
        forall|i: int|
            0 <= i < translated@.len() ==> #[trigger] paddrs@[i] == match translated@[i] {
                Some(p) => p as u64,
                None => 0u64,
            },
{
    let mut paddrs: Vec<u64> = Vec::new();
    let mut i: usize = 0;
    while i < translated.len()
        invariant
            i <= translated@.len(),
            paddrs@.len() == i,
            forall|j: int|
                0 <= j < i ==> #[trigger] paddrs@[j] == match translated@[j] {
                    Some(p) => p as u64,
                    None => 0u64,
                },
        decreases translated@.len() - i,
    {
        let p: u64 = match translated[i] {
            Some(p) => p as u64,
            None => 0,
        };
        paddrs.push(p);
        i = i + 1;
    }
    paddrs
}

} // verus!
