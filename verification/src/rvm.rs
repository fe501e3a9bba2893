//! The hypervisor device: its control commands, the numbering of guests
//! and virtual CPUs, and the translation of its errors.

use vstd::prelude::*;

use std::collections::BTreeMap;

use crate::memory::{phys_to_virt, MemoryAttr, PAGE_SIZE};
use crate::process::proc::{is_lowest_free, lowest_free_key};
use crate::syscall::fs::FsError;

verus! {

broadcast use {vstd::std_specs::btree::group_btree_axioms, vstd::laws_cmp::group_laws_cmp};

/// The errors of the hypervisor.
#[derive(Debug, Clone, Copy, PartialEq, Eq, Structural)]
pub enum RvmError {
    Internal,
    NotSupported,
    NoMemory,
    InvalidParam,
    OutOfRange,
    BadState,
    NotFound,
}

pub open spec fn rvm_fs_error(e: RvmError) -> FsError {
    match e {
        RvmError::Internal => FsError::DeviceError,
        RvmError::NotSupported => FsError::NotSupported,
        RvmError::NoMemory => FsError::NoDeviceSpace,
        RvmError::InvalidParam => FsError::InvalidParam,
        RvmError::OutOfRange => FsError::InvalidParam,
        RvmError::BadState => FsError::DeviceError,
        RvmError::NotFound => FsError::InvalidParam,
    }
}

/// The file system error that the device reports a hypervisor error as.
pub fn into_fs_error(e: RvmError) -> (f: FsError)
    ensures
        f == rvm_fs_error(e),
{
    match e {
        RvmError::Internal => FsError::DeviceError,
        RvmError::NotSupported => FsError::NotSupported,
        RvmError::NoMemory => FsError::NoDeviceSpace,
        RvmError::InvalidParam => FsError::InvalidParam,
        RvmError::OutOfRange => FsError::InvalidParam,
        RvmError::BadState => FsError::DeviceError,
        RvmError::NotFound => FsError::InvalidParam,
    }
}

pub const MAX_GUEST_NUM: usize = 64;
pub const MAX_VCPU_NUM: usize = 64;

pub const RVM_IO: u32 = 0xAE00;
pub const RVM_GUEST_CREATE: u32 = 0xAE01;
pub const RVM_GUEST_ADD_MEMORY_REGION: u32 = 0xAE02;
pub const RVM_GUEST_SET_TRAP: u32 = 0xAE03;
pub const RVM_VCPU_CREATE: u32 = 0xAE11;
pub const RVM_VCPU_RESUME: u32 = 0xAE12;
pub const RVM_VCPU_READ_STATE: u32 = 0xAE13;
pub const RVM_VCPU_WRITE_STATE: u32 = 0xAE14;
pub const RVM_VCPU_INTERRUPT: u32 = 0xAE15;

/// The control commands of the device.
#[derive(Debug, Clone, Copy, PartialEq, Eq, Structural)]
pub enum RvmCommand {
    GuestCreate,
    GuestAddMemoryRegion,
    GuestSetTrap,
    VcpuCreate,
    VcpuResume,
    VcpuReadState,
    VcpuWriteState,
    VcpuInterrupt,
}

pub open spec fn rvm_command(cmd: u32) -> Option<RvmCommand> {
    if cmd == RVM_GUEST_CREATE {
        Some(RvmCommand::GuestCreate)
    } else if cmd == RVM_GUEST_ADD_MEMORY_REGION {
        Some(RvmCommand::GuestAddMemoryRegion)
    } else if cmd == RVM_GUEST_SET_TRAP {
        Some(RvmCommand::GuestSetTrap)
    } else if cmd == RVM_VCPU_CREATE {
        Some(RvmCommand::VcpuCreate)
    } else if cmd == RVM_VCPU_RESUME {
        Some(RvmCommand::VcpuResume)
    } else if cmd == RVM_VCPU_READ_STATE {
        Some(RvmCommand::VcpuReadState)
    } else if cmd == RVM_VCPU_WRITE_STATE {
        Some(RvmCommand::VcpuWriteState)
    } else if cmd == RVM_VCPU_INTERRUPT {
        Some(RvmCommand::VcpuInterrupt)
    } else {
        None
    }
}

/// `io_control`'s reading of a command number; `InvalidParam` for an
/// unknown one.
pub fn decode_command(cmd: u32) -> (r: Result<RvmCommand, FsError>)
    ensures
        r == match rvm_command(cmd) {
            Some(c) => Ok::<RvmCommand, FsError>(c),
            None => Err(FsError::InvalidParam),
        },
{
    if cmd == RVM_GUEST_CREATE {
        Ok(RvmCommand::GuestCreate)
    } else if cmd == RVM_GUEST_ADD_MEMORY_REGION {
        Ok(RvmCommand::GuestAddMemoryRegion)
    } else if cmd == RVM_GUEST_SET_TRAP {
        Ok(RvmCommand::GuestSetTrap)
    } else if cmd == RVM_VCPU_CREATE {
        Ok(RvmCommand::VcpuCreate)
    } else if cmd == RVM_VCPU_RESUME {
        Ok(RvmCommand::VcpuResume)
    } else if cmd == RVM_VCPU_READ_STATE {
        Ok(RvmCommand::VcpuReadState)
    } else if cmd == RVM_VCPU_WRITE_STATE {
        Ok(RvmCommand::VcpuWriteState)
    } else if cmd == RVM_VCPU_INTERRUPT {
        Ok(RvmCommand::VcpuInterrupt)
    } else {
        Err(FsError::InvalidParam)
    }
}

/// What `VcpuReadWriteKind` a state transfer names.
pub const VCPU_STATE: u32 = 0;
pub const VCPU_IO: u32 = 1;

/// The guests and virtual CPUs of the device: id to the hypervisor's
/// handle of the guest, and id to the guest that a virtual CPU belongs to.
pub struct RvmINode {
    pub guests: BTreeMap<usize, usize>,
    pub vcpus: BTreeMap<usize, usize>,
}

impl RvmINode {
    pub fn new() -> (n: Self)
        ensures
            n.guests@ == Map::<usize, usize>::empty(),
            n.vcpus@ == Map::<usize, usize>::empty(),
    {
        RvmINode { guests: BTreeMap::new(), vcpus: BTreeMap::new() }
    }

    /// The lowest guest id from 1 up that is free.
    pub fn get_free_vmid(&self) -> (id: usize)
        requires
            1 + self.guests@.dom().len() < usize::MAX,
        ensures
            is_lowest_free(self.guests@, 1, id),
    {
        lowest_free_key(&self.guests, 1)
    }

    /// The lowest virtual CPU id from 1 up that is free.
    pub fn get_free_vcpu_id(&self) -> (id: usize)
        requires
            1 + self.vcpus@.dom().len() < usize::MAX,
        ensures
            is_lowest_free(self.vcpus@, 1, id),
    {
        lowest_free_key(&self.vcpus, 1)
    }

    /// `RVM_GUEST_CREATE`'s choice of an id: `NotSupported` without the
    /// hardware, `NoMemory` where the lowest free id reaches the limit.
    pub fn guest_create_id(&self, hardware_support: bool) -> (r: Result<usize, RvmError>)
        requires
            1 + self.guests@.dom().len() < usize::MAX,
        ensures
            !hardware_support ==> r == Err::<usize, RvmError>(RvmError::NotSupported),
            hardware_support ==> match r {
                Ok(id) => is_lowest_free(self.guests@, 1, id) && id < MAX_GUEST_NUM,
                Err(e) => e == RvmError::NoMemory && exists|id: usize| is_lowest_free(self.guests@, 1, id) && id >= MAX_GUEST_NUM,
            },
    {
        if !hardware_support {
            return Err(RvmError::NotSupported);
        }
        let vmid = self.get_free_vmid();
        if vmid >= MAX_GUEST_NUM {
            return Err(RvmError::NoMemory);
        }
        Ok(vmid)
    }

    /// Records guest `vmid` with its handle.
    pub fn add_guest(&mut self, guest: usize, vmid: usize)
        ensures
            final(self).guests@ == old(self).guests@.insert(vmid, guest),
            final(self).vcpus@ == old(self).vcpus@,
    {
        self.guests.insert(vmid, guest);
    }

    /// The handle of guest `vmid`; `InvalidParam` where there is none.
    pub fn guest(&self, vmid: usize) -> (r: Result<usize, RvmError>)
        ensures
            r == if self.guests@.contains_key(vmid) { Ok::<usize, RvmError>(self.guests@[vmid]) } else { Err(RvmError::InvalidParam) },
    {
        match self.guests.get(&vmid) {
            Some(g) => Ok(*g),
            None => Err(RvmError::InvalidParam),
        }
    }

    /// `RVM_VCPU_CREATE`'s choice of an id for a virtual CPU of guest
    /// `vmid`: `InvalidParam` for an unknown guest, `NoMemory` where the
    /// lowest free id reaches the limit.
    pub fn vcpu_create_id(&self, vmid: usize) -> (r: Result<usize, RvmError>)
        requires
            1 + self.vcpus@.dom().len() < usize::MAX,
        ensures
            !self.guests@.contains_key(vmid) ==> r == Err::<usize, RvmError>(RvmError::InvalidParam),
            self.guests@.contains_key(vmid) ==> match r {
                Ok(id) => is_lowest_free(self.vcpus@, 1, id) && id < MAX_VCPU_NUM,
                Err(e) => e == RvmError::NoMemory && exists|id: usize| is_lowest_free(self.vcpus@, 1, id) && id >= MAX_VCPU_NUM,
            },
    {
        if !self.guests.contains_key(&vmid) {
            return Err(RvmError::InvalidParam);
        }
        let id = self.get_free_vcpu_id();
        if id >= MAX_VCPU_NUM {
            return Err(RvmError::NoMemory);
        }
        Ok(id)
    }

    /// Records virtual CPU `vcpu_id` of guest `vmid`.
    pub fn add_vcpu(&mut self, vmid: usize, vcpu_id: usize)
        ensures
            final(self).vcpus@ == old(self).vcpus@.insert(vcpu_id, vmid),
            final(self).guests@ == old(self).guests@,
    {
        self.vcpus.insert(vcpu_id, vmid);
    }

    /// Whether virtual CPU `vcpu_id` exists; `InvalidParam` else.
    pub fn vcpu(&self, vcpu_id: usize) -> (r: Result<usize, RvmError>)
        ensures
            r == if self.vcpus@.contains_key(vcpu_id) { Ok::<usize, RvmError>(self.vcpus@[vcpu_id]) } else { Err(RvmError::InvalidParam) },
    {
        match self.vcpus.get(&vcpu_id) {
            Some(g) => Ok(*g),
            None => Err(RvmError::InvalidParam),
        }
    }

    /// `RVM_VCPU_READ_STATE`'s checks: the kind must be the vCPU state and
    /// the buffer its size, and the vCPU must exist.
    pub fn vcpu_read_state_check(&self, vcpu_id: usize, kind: u32, buf_size: usize, state_size: usize) -> (r: Result<
        (),
        RvmError,
    >)
        ensures
            r == if kind != VCPU_STATE || buf_size != state_size || !self.vcpus@.contains_key(vcpu_id) {
                Err::<(), RvmError>(RvmError::InvalidParam)
            } else {
                Ok(())
            },
    {
        if kind != VCPU_STATE || buf_size != state_size {
            return Err(RvmError::InvalidParam);
        }
        if !self.vcpus.contains_key(&vcpu_id) {
            return Err(RvmError::InvalidParam);
        }
        Ok(())
    }

    /// `RVM_VCPU_WRITE_STATE`'s checks: the vCPU must exist, the kind be
    /// the vCPU state or its I/O state, and the buffer that one's size;
    /// gives the kind.
    pub fn vcpu_write_state_check(
        &self,
        vcpu_id: usize,
        kind: u32,
        buf_size: usize,
        state_size: usize,
        io_size: usize,
    ) -> (r: Result<u32, RvmError>)
        ensures
            r == if !self.vcpus@.contains_key(vcpu_id) {
                Err::<u32, RvmError>(RvmError::InvalidParam)
            } else if kind == VCPU_STATE {
                if buf_size != state_size { Err(RvmError::InvalidParam) } else { Ok(VCPU_STATE) }
            } else if kind == VCPU_IO {
                if buf_size != io_size { Err(RvmError::InvalidParam) } else { Ok(VCPU_IO) }
            } else {
                Err(RvmError::InvalidParam)
            },
    {
        if !self.vcpus.contains_key(&vcpu_id) {
            return Err(RvmError::InvalidParam);
        }
        if kind == VCPU_STATE {
            if buf_size != state_size {
                return Err(RvmError::InvalidParam);
            }
            Ok(VCPU_STATE)
        } else if kind == VCPU_IO {
            if buf_size != io_size {
                return Err(RvmError::InvalidParam);
            }
            Ok(VCPU_IO)
        } else {
            Err(RvmError::InvalidParam)
        }
    }
}

/// A guest: the hypervisor's handles of its physical memory and of the
/// guest itself.
#[derive(Debug, Clone, Copy, PartialEq, Eq, Structural)]
pub struct Guest {
    pub gpm: usize,
    pub inner: usize,
}

impl Guest {
    /// A guest over the physical memory `gpm`, once the hypervisor has made
    /// it (`inner`, or the error it gave).
    pub fn new(gpm: usize, inner: Result<usize, RvmError>) -> (r: Result<Guest, RvmError>)
        ensures
            r == match inner {
                Ok(i) => Ok::<Guest, RvmError>(Guest { gpm, inner: i }),
                Err(e) => Err(e),
            },
    {
        match inner {
            Ok(i) => Ok(Guest { gpm, inner: i }),
            Err(e) => Err(e),
        }
    }
}

/// The kernel's address of a physical address, for the hypervisor.
pub fn rvm_phys_to_virt(paddr: usize, physical_memory_offset: usize) -> (v: usize)
    requires
        physical_memory_offset + paddr <= usize::MAX,
    ensures
        v == physical_memory_offset + paddr,
{
    phys_to_virt(paddr, physical_memory_offset)
}

/// The frames that `dealloc_frames` gives back: `n` pages from `paddr`.
pub fn rvm_dealloc_frames(paddr: usize, n: usize) -> (frames: Vec<usize>)
    requires
        paddr + n * PAGE_SIZE <= usize::MAX,
    ensures
        frames@.len() == n,
        forall|i: int| 0 <= i < n ==> #[trigger] frames@[i] == paddr + i * PAGE_SIZE,
{
    let mut frames: Vec<usize> = Vec::new();
    let mut i: usize = 0;
    while i < n
        invariant
            i <= n,
            paddr + n * PAGE_SIZE <= usize::MAX,
            frames@.len() == i,
            forall|j: int| 0 <= j < i ==> #[trigger] frames@[j] == paddr + j * PAGE_SIZE,
        decreases n - i,
    {
        assert(i * PAGE_SIZE <= n * PAGE_SIZE) by (nonlinear_arith)
            requires
                i < n,
        ;
        frames.push(paddr + i * PAGE_SIZE);
        i = i + 1;
    }
    frames
}

/// Whether an interrupt vector is the host's timer: never.
pub fn rvm_x86_is_host_timer_interrupt(vec: u8) -> (b: bool)
    ensures
        !b,
{
    false
}

/// Whether an interrupt vector is the host's serial line: never.
pub fn rvm_x86_is_host_serial_interrupt(vec: u8) -> (b: bool)
    ensures
        !b,
{
    false
}

/// Whether the hypervisor extension is there: as the build says.
pub fn rvm_riscv_check_hypervisor_extension(hypervisor_feature: bool) -> (b: bool)
    ensures
        b == hypervisor_feature,
{
    hypervisor_feature
}

/// The area that a guest's memory region takes in the host: `size` bytes
/// from `hvaddr`, user-accessible and writable, filled lazily.
pub fn memory_region_area(hvaddr: usize, size: usize) -> (r: (usize, usize, MemoryAttr))
    requires
        hvaddr + size <= usize::MAX,
    ensures
        r == (hvaddr, (hvaddr + size) as usize, MemoryAttr { user: true, readonly: false, execute: false, mmio: 0 }),
{
    (hvaddr, hvaddr + size, MemoryAttr::default().user().writable())
}

/// The lazy mapping of a guest's physical memory into the host: host
/// address `host_start_vaddr + k` stands for guest physical address
/// `guest_start_paddr + k`; `gpm` is the hypervisor's handle of the guest's
/// memory.
#[derive(Debug, Clone, Copy, PartialEq, Eq, Structural)]
pub struct RvmPageTableHandlerDelay {
    pub guest_start_paddr: usize,
    pub host_start_vaddr: usize,
    pub gpm: usize,
}

impl RvmPageTableHandlerDelay {
    pub fn new(guest_start_paddr: usize, host_start_vaddr: usize, gpm: usize) -> (h: Self)
        ensures
            h == (RvmPageTableHandlerDelay { guest_start_paddr, host_start_vaddr, gpm }),
    {
        RvmPageTableHandlerDelay { guest_start_paddr, host_start_vaddr, gpm }
    }

    /// A page fault at host address `addr`: not this handler's to serve
    /// where the page is present (`None`); else the guest physical address
    /// whose frame the page gets.
    pub fn fault_guest_paddr(&self, present: bool, addr: usize) -> (r: Option<usize>)
        requires
            !present ==> self.host_start_vaddr <= addr && addr - self.host_start_vaddr + self.guest_start_paddr
                <= usize::MAX,
        ensures
            r == if present {
                None
            } else {
                Some((addr - self.host_start_vaddr + self.guest_start_paddr) as usize)
            },
    {
        if present {
            return None;
        }
        Some(addr - self.host_start_vaddr + self.guest_start_paddr)
    }

    /// The frame that a faulting page maps: the one that the guest's page
    /// table already has there (a nonzero frame), else a fresh one (`None`).
    pub fn fault_frame(&self, queried: Option<usize>) -> (r: Option<usize>)
        ensures
            r == match queried {
                Some(t) => if t != 0 { Some(t) } else { None },
                None => None,
            },
    {
        match queried {
            Some(t) => if t != 0 {
                Some(t)
            } else {
                None
            },
            None => None,
        }
    }
}

} // verus!
