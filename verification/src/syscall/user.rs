//! Pointers into user memory, and the checked copies through them.

use vstd::prelude::*;

use std::collections::BTreeMap;
use std::marker::PhantomData;

use crate::net::bytes::{le32, le64, read_u32, u32_at};
use crate::process::elf::str_from_utf8;
use crate::syscall::SysError;
use vstd::string::StrSliceExecFns;

verus! {

broadcast use {vstd::std_specs::btree::group_btree_axioms, vstd::laws_cmp::group_laws_cmp};

/// What a pointer may be used for.
pub trait Policy {}

/// Pointers that may be read through.
pub trait Read: Policy {}

/// Pointers that may be written through.
pub trait Write: Policy {}

/// A pointer that is only read through.
pub struct In;

/// A pointer that is only written through.
pub struct Out;

/// A pointer that is read and written through.
pub struct InOut;

impl Policy for In {}

impl Policy for Out {}

impl Policy for InOut {}

impl Read for In {}

impl Write for Out {}

impl Read for InOut {}

impl Write for InOut {}

/// A value that is copied to and from user memory byte for byte.
pub trait Plain: Sized {
    /// The number of bytes of a value.
    spec fn size_spec() -> nat;

    /// The bytes of a value.
    spec fn encode(&self) -> Seq<u8>;

    fn size() -> (n: usize)
        ensures
            n == Self::size_spec(),
    ;

    fn to_bytes(&self) -> (b: Vec<u8>)
        ensures
            b@ == self.encode(),
            b@.len() == Self::size_spec(),
    ;

    /// The value whose bytes are `b`.
    fn from_bytes(b: &[u8]) -> (v: Self)
        requires
            b@.len() == Self::size_spec(),
        ensures
            v.encode() == b@,
    ;
}

impl Plain for u8 {
    open spec fn size_spec() -> nat {
        1
    }

    open spec fn encode(&self) -> Seq<u8> {
        seq![*self]
    }

    fn size() -> (n: usize) {
        1
    }

    fn to_bytes(&self) -> (b: Vec<u8>) {
        let v = vec![*self];
        assert(v@ =~= seq![*self]);
        v
    }

    fn from_bytes(b: &[u8]) -> (v: Self) {
        assert(b@ =~= seq![b@[0]]);
        b[0]
    }
}

impl Plain for u32 {
    open spec fn size_spec() -> nat {
        4
    }

    open spec fn encode(&self) -> Seq<u8> {
        le32(*self)
    }

    fn size() -> (n: usize) {
        4
    }

    fn to_bytes(&self) -> (b: Vec<u8>) {
        let mut v: Vec<u8> = Vec::new();
        crate::net::bytes::push_u32(&mut v, *self);
        assert(v@ =~= le32(*self));
        v
    }

    fn from_bytes(b: &[u8]) -> (v: Self) {
        let b0 = b[0];
        let b1 = b[1];
        let b2 = b[2];
        let b3 = b[3];
        let x = (b0 as u32) | ((b1 as u32) << 8) | ((b2 as u32) << 16) | ((b3 as u32) << 24);
        assert((x & 0xff) as u8 == b0 && ((x >> 8) & 0xff) as u8 == b1 && ((x >> 16) & 0xff) as u8 == b2
            && ((x >> 24) & 0xff) as u8 == b3) by (bit_vector)
            requires
                x == (b0 as u32) | ((b1 as u32) << 8) | ((b2 as u32) << 16) | ((b3 as u32) << 24),
        ;
        assert(le32(x) =~= b@);
        x
    }
}

impl Plain for u64 {
    open spec fn size_spec() -> nat {
        8
    }

    open spec fn encode(&self) -> Seq<u8> {
        le64(*self)
    }

    fn size() -> (n: usize) {
        8
    }

    fn to_bytes(&self) -> (b: Vec<u8>) {
        let mut v: Vec<u8> = Vec::new();
        crate::net::bytes::push_u64(&mut v, *self);
        assert(v@ =~= le64(*self));
        v
    }

    fn from_bytes(b: &[u8]) -> (v: Self) {
        let lo = <u32 as Plain>::from_bytes(&[b[0], b[1], b[2], b[3]]);
        let hi = <u32 as Plain>::from_bytes(&[b[4], b[5], b[6], b[7]]);
        let x = (lo as u64) | ((hi as u64) << 32);
        assert((x & 0xffff_ffff) as u32 == lo && (x >> 32) as u32 == hi) by (bit_vector)
            requires
                x == (lo as u64) | ((hi as u64) << 32),
        ;
        assert(le64(x) =~= b@);
        x
    }
}

/// The user half of memory: the addresses below `limit` that are mapped,
/// with their bytes and whether they may be written.
pub struct UserMemory {
    pub limit: usize,
    pub bytes: BTreeMap<usize, (u8, bool)>,
}

impl UserMemory {
    /// Whether `len` bytes from `addr` lie below the limit.
    pub open spec fn access_ok(&self, addr: int, len: int) -> bool {
        addr + len <= self.limit
    }

    /// Whether `len` bytes from `addr` are mapped.
    pub open spec fn mapped(&self, addr: int, len: int) -> bool {
        forall|k: int| 0 <= k < len ==> #[trigger] self.bytes@.contains_key((addr + k) as usize)
    }

    /// Whether `len` bytes from `addr` are mapped writable.
    pub open spec fn mapped_writable(&self, addr: int, len: int) -> bool {
        forall|k: int| 0 <= k < len ==> #[trigger] self.bytes@.contains_key((addr + k) as usize)
            && self.bytes@[(addr + k) as usize].1
    }

    /// The `len` bytes from `addr`.
    pub open spec fn bytes_at(&self, addr: int, len: nat) -> Seq<u8> {
        Seq::new(len, |k: int| self.bytes@[(addr + k) as usize].0)
    }

    /// Whether a copy of `len` bytes from `addr` succeeds.
    pub open spec fn can_read(&self, addr: int, len: int) -> bool {
        self.access_ok(addr, len) && self.mapped(addr, len)
    }

    /// Whether a copy of `len` bytes to `addr` succeeds.
    pub open spec fn can_write(&self, addr: int, len: int) -> bool {
        self.access_ok(addr, len) && self.mapped_writable(addr, len)
    }

    /// The memory after `data` is written at `addr`.
    pub open spec fn written(&self, addr: int, data: Seq<u8>) -> Map<usize, (u8, bool)> {
        Map::new(
            |a: usize| self.bytes@.contains_key(a),
            |a: usize| if addr <= a < addr + data.len() { (data[a - addr], self.bytes@[a].1) } else { self.bytes@[a] },
        )
    }

    /// Whether `len` bytes from `addr` lie below the limit.
    pub fn check_access(&self, addr: usize, len: usize) -> (b: bool)
        ensures
            b == self.access_ok(addr as int, len as int),
    {
        len <= self.limit && addr <= self.limit - len
    }

    /// Copies `len` bytes from `addr`; `None` where they are not all user
    /// memory.
    pub fn copy_from_user(&self, addr: usize, len: usize) -> (r: Option<Vec<u8>>)
        ensures
            r is Some == self.can_read(addr as int, len as int),
            r matches Some(v) ==> v@ == self.bytes_at(addr as int, len as nat),
    {
        if !self.check_access(addr, len) {
            return None;
        }
        let mut v: Vec<u8> = Vec::new();
        let mut k: usize = 0;
        while k < len
            invariant
                k <= len,
                self.access_ok(addr as int, len as int),
                self.mapped(addr as int, k as int),
                v@ == self.bytes_at(addr as int, k as nat),
            decreases len - k,
        {
            match self.bytes.get(&(addr + k)) {
                Some(b) => {
                    v.push(b.0);
                    proof {
                        assert(v@ =~= self.bytes_at(addr as int, (k + 1) as nat));
                        assert forall|j: int| 0 <= j < k + 1 implies #[trigger] self.bytes@.contains_key((addr + j) as usize) by {
                            if j < k {
                                assert(self.bytes@.contains_key((addr + j) as usize));
                            }
                        }
                    }
                },
                None => {
                    return None;
                },
            }
            k = k + 1;
        }
        Some(v)
    }

    /// Copies `data` to `addr` where all of it is writable user memory;
    /// returns whether it did.
    pub fn copy_to_user(&mut self, addr: usize, data: &[u8]) -> (ok: bool)
        ensures
            ok == old(self).can_write(addr as int, data@.len() as int),
            final(self).limit == old(self).limit,
            ok ==> final(self).bytes@ == old(self).written(addr as int, data@),
            !ok ==> final(self).bytes@ == old(self).bytes@,
    {
        if !self.check_access(addr, data.len()) {
            return false;
        }
        let mut k: usize = 0;
        while k < data.len()
            invariant
                k <= data@.len(),
                self.access_ok(addr as int, data@.len() as int),
                self.mapped_writable(addr as int, k as int),
            decreases data@.len() - k,
        {
            match self.bytes.get(&(addr + k)) {
                Some(b) => {
                    if !b.1 {
                        return false;
                    }
                    proof {
                        lemma_extend_writable(self, addr as int, k as int);
                    }
                },
                None => {
                    return false;
                },
            }
            k = k + 1;
        }
        let ghost before = *self;
        let mut k: usize = 0;
        while k < data.len()
            invariant
                k <= data@.len(),
                before.access_ok(addr as int, data@.len() as int),
                before.mapped_writable(addr as int, data@.len() as int),
                self.limit == before.limit,
                self.bytes@ == before.written(addr as int, data@.take(k as int)),
            decreases data@.len() - k,
        {
            let a = addr + k;
            proof {
                assert(before.bytes@.contains_key((addr + k) as usize));
            }
            let w = match self.bytes.get(&a) {
                Some(b) => b.1,
                None => false,
            };
            self.bytes.insert(a, (data[k], w));
            proof {
                assert(self.bytes@ =~= before.written(addr as int, data@.take(k + 1)));
            }
            k = k + 1;
        }
        proof {
            assert(data@.take(data@.len() as int) =~= data@);
        }
        true
    }
}

proof fn lemma_extend_writable(m: &UserMemory, addr: int, k: int)
    requires
        0 <= k,
        m.mapped_writable(addr, k),
        m.bytes@.contains_key((addr + k) as usize),
        m.bytes@[(addr + k) as usize].1,
    ensures
        m.mapped_writable(addr, k + 1),
{
    assert forall|j: int| 0 <= j < k + 1 implies #[trigger] m.bytes@.contains_key((addr + j) as usize)
        && m.bytes@[(addr + j) as usize].1 by {
        if j < k {
            assert(m.bytes@.contains_key((addr + j) as usize));
        }
    }
}

/// A copy to user memory can be read back: after `data` is written at
/// `addr` where that succeeds, the same bytes can be read there and are
/// `data`, and every other byte of memory is as it was.
pub proof fn lemma_write_then_read(mem: UserMemory, after: UserMemory, addr: usize, data: Seq<u8>)
    requires
        mem.can_write(addr as int, data.len() as int),
        after.limit == mem.limit,
        after.bytes@ == mem.written(addr as int, data),
    ensures
        after.can_read(addr as int, data.len() as int),
        after.bytes_at(addr as int, data.len()) == data,
        forall|a: usize| !(addr <= a < addr + data.len()) ==> #[trigger] after.bytes@.contains_key(a) == mem.bytes@.contains_key(a)
            && (mem.bytes@.contains_key(a) ==> after.bytes@[a] == mem.bytes@[a]),
{
    assert forall|k: int| 0 <= k < data.len() implies #[trigger] after.bytes@.contains_key((addr + k) as usize) by {
        assert(mem.bytes@.contains_key((addr + k) as usize));
    }
    assert forall|k: int| 0 <= k < data.len() implies #[trigger] after.bytes_at(addr as int, data.len())[k] == data[k] by {
        assert(mem.bytes@.contains_key((addr + k) as usize));
        assert(((addr + k) as usize) as int == addr + k);
    }
    assert(after.bytes_at(addr as int, data.len()) =~= data);
}

/// A pointer into user memory to values of type `T`, used as `P` allows.
pub struct UserPtr<T, P: Policy> {
    ptr: usize,
    mark: PhantomData<(T, P)>,
}

impl<T, P: Policy> UserPtr<T, P> {
    /// The address.
    pub closed spec fn addr(&self) -> usize {
        self.ptr
    }

    /// A pointer to `x`.
    pub fn from_addr(x: usize) -> (p: Self)
        ensures
            p.addr() == x,
    {
        UserPtr { ptr: x, mark: PhantomData }
    }

    pub fn ptr(&self) -> (a: usize)
        ensures
            a == self.addr(),
    {
        self.ptr
    }

    pub fn is_null(&self) -> (b: bool)
        ensures
            b == (self.addr() == 0),
    {
        self.ptr == 0
    }

    pub fn as_ptr(&self) -> (a: usize)
        ensures
            a == self.addr(),
    {
        self.ptr
    }
}

impl<T: Plain, P: Policy> UserPtr<T, P> {
    /// The pointer `count` values further on.
    pub fn add(&self, count: usize) -> (p: Self)
        requires
            self.addr() + count * T::size_spec() <= usize::MAX,
        ensures
            p.addr() == self.addr() + count * T::size_spec(),
    {
        let n = T::size();
        assert(count * n <= self.addr() + count * n);
        UserPtr { ptr: self.ptr + count * n, mark: PhantomData }
    }
}

impl<T: Plain, P: Read> UserPtr<T, P> {
    /// Reads the value; `EFAULT` where its bytes are not readable user
    /// memory.
    pub fn read(&self, mem: &UserMemory) -> (r: Result<T, SysError>)
        ensures
            mem.can_read(self.addr() as int, T::size_spec() as int) ==> (r matches Ok(v)
                && v.encode() == mem.bytes_at(self.addr() as int, T::size_spec())),
            !mem.can_read(self.addr() as int, T::size_spec() as int) ==> r == Err::<T, SysError>(SysError::EFAULT),
    {
        match mem.copy_from_user(self.ptr, T::size()) {
            Some(b) => Ok(T::from_bytes(b.as_slice())),
            None => Err(SysError::EFAULT),
        }
    }

    /// `None` for a null pointer, else the value read.
    pub fn read_if_not_null(&self, mem: &UserMemory) -> (r: Result<Option<T>, SysError>)
        ensures
            self.addr() == 0 ==> (r matches Ok(None)),
            self.addr() != 0 && mem.can_read(self.addr() as int, T::size_spec() as int) ==> (r matches Ok(Some(v))
                && v.encode() == mem.bytes_at(self.addr() as int, T::size_spec())),
            self.addr() != 0 && !mem.can_read(self.addr() as int, T::size_spec() as int) ==> (r matches Err(SysError::EFAULT)),
    {
        if self.ptr == 0 {
            return Ok(None);
        }
        let value = self.read(mem)?;
        Ok(Some(value))
    }
}

impl<P: Read> UserPtr<u8, P> {
    /// The `len` bytes from the pointer; `EFAULT` where they are not all
    /// readable user memory. No bytes are read for `len` 0.
    pub fn read_bytes(&self, mem: &UserMemory, len: usize) -> (r: Result<Vec<u8>, SysError>)
        ensures
            len == 0 ==> (r matches Ok(v) && v@.len() == 0),
            len > 0 && mem.can_read(self.addr() as int, len as int) ==> (r matches Ok(v) && v@ == mem.bytes_at(
                self.addr() as int,
                len as nat,
            )),
            len > 0 && !mem.can_read(self.addr() as int, len as int) ==> r == Err::<Vec<u8>, SysError>(SysError::EFAULT),
    {
        if len == 0 {
            return Ok(Vec::new());
        }
        match mem.copy_from_user(self.ptr, len) {
            Some(v) => Ok(v),
            None => Err(SysError::EFAULT),
        }
    }

    /// The string of the `len` bytes from the pointer: `EFAULT` where they
    /// are not readable, `EINVAL` where they are not UTF-8; the empty
    /// string for `len` 0, with nothing read.
    pub fn read_string(&self, mem: &UserMemory, len: usize) -> (r: Result<String, SysError>)
        ensures
            len == 0 ==> (r matches Ok(s) && s@.len() == 0),
            len > 0 && !mem.can_read(self.addr() as int, len as int) ==> r == Err::<String, SysError>(SysError::EFAULT),
            len > 0 && mem.can_read(self.addr() as int, len as int) && !vstd::utf8::valid_utf8(
                mem.bytes_at(self.addr() as int, len as nat),
            ) ==> r == Err::<String, SysError>(SysError::EINVAL),
            len > 0 && mem.can_read(self.addr() as int, len as int) && vstd::utf8::valid_utf8(
                mem.bytes_at(self.addr() as int, len as nat),
            ) ==> (r matches Ok(s) && vstd::utf8::encode_utf8(s@) == mem.bytes_at(self.addr() as int, len as nat)),
    {
        if len == 0 {
            return Ok(String::new());
        }
        let src = self.read_bytes(mem, len)?;
        match str_from_utf8(src.as_slice()) {
            Some(s) => Ok(s.to_owned()),
            None => Err(SysError::EINVAL),
        }
    }
}

impl<T: Plain, P: Write> UserPtr<T, P> {
    /// Writes `value`; `EFAULT` (with memory unchanged) where its bytes are
    /// not writable user memory.
    pub fn write(&mut self, mem: &mut UserMemory, value: T) -> (r: Result<(), SysError>)
        ensures
            final(self).addr() == old(self).addr(),
            final(mem).limit == old(mem).limit,
            old(mem).can_write(old(self).addr() as int, T::size_spec() as int) ==> r is Ok
                && final(mem).bytes@ == old(mem).written(old(self).addr() as int, value.encode()),
            !old(mem).can_write(old(self).addr() as int, T::size_spec() as int) ==> r == Err::<(), SysError>(SysError::EFAULT)
                && final(mem).bytes@ == old(mem).bytes@,
    {
        let b = value.to_bytes();
        if mem.copy_to_user(self.ptr, b.as_slice()) {
            Ok(())
        } else {
            Err(SysError::EFAULT)
        }
    }

    /// Nothing for a null pointer, else `write`.
    pub fn write_if_not_null(&mut self, mem: &mut UserMemory, value: T) -> (r: Result<(), SysError>)
        ensures
            final(self).addr() == old(self).addr(),
            final(mem).limit == old(mem).limit,
            old(self).addr() == 0 ==> r is Ok && final(mem).bytes@ == old(mem).bytes@,
            old(self).addr() != 0 && old(mem).can_write(old(self).addr() as int, T::size_spec() as int) ==> r is Ok
                && final(mem).bytes@ == old(mem).written(old(self).addr() as int, value.encode()),
            old(self).addr() != 0 && !old(mem).can_write(old(self).addr() as int, T::size_spec() as int) ==> r == Err::<
                (),
                SysError,
            >(SysError::EFAULT) && final(mem).bytes@ == old(mem).bytes@,
    {
        if self.ptr == 0 {
            return Ok(());
        }
        self.write(mem, value)
    }
}

impl UserMemory {
    /// The byte at `a`.
    pub open spec fn byte_at(&self, a: int) -> u8 {
        self.bytes@[a as usize].0
    }

    /// Whether the byte at `a` can be copied from user memory.
    pub open spec fn byte_readable(&self, a: int) -> bool {
        self.can_read(a, 1)
    }

    /// A NUL-terminated string of `n` bytes lies at `addr`: its bytes and
    /// the NUL can be read, and only the NUL is 0.
    pub open spec fn cstring_at(&self, addr: int, n: int) -> bool {
        &&& 0 <= n
        &&& forall|k: int| 0 <= k <= n ==> #[trigger] self.byte_readable(addr + k)
        &&& self.byte_at(addr + n) == 0
        &&& forall|k: int| 0 <= k < n ==> #[trigger] self.byte_at(addr + k) != 0
    }

    /// The bytes of the string at `addr`, NUL left out; `None` where a byte
    /// that cannot be read comes before a NUL.
    pub open spec fn cstring(&self, addr: int) -> Option<Seq<u8>> {
        if exists|n: int| self.cstring_at(addr, n) {
            let n = choose|n: int| self.cstring_at(addr, n);
            Some(self.bytes_at(addr, n as nat))
        } else {
            None
        }
    }

    /// The length of the string at `addr`; `EFAULT` where a byte that
    /// cannot be read comes before a NUL.
    pub fn cstring_len(&self, addr: usize) -> (r: Result<usize, SysError>)
        ensures
            r matches Ok(n) ==> self.cstring_at(addr as int, n as int),
            r is Err ==> r == Err::<usize, SysError>(SysError::EFAULT) && !exists|n: int| self.cstring_at(addr as int, n),
    {
        let mut i: usize = 0;
        loop
            invariant
                i == 0 || addr + i <= self.limit,
                forall|k: int| 0 <= k < i ==> #[trigger] self.byte_readable(addr + k),
                forall|k: int| 0 <= k < i ==> #[trigger] self.byte_at(addr + k) != 0,
            decreases self.limit - addr - i,
        {
            if addr >= self.limit || i >= self.limit - addr {
                proof {
                    assert forall|n: int| !self.cstring_at(addr as int, n) by {
                        if self.cstring_at(addr as int, n) {
                            if n < i {
                                assert(self.byte_at(addr + n) != 0);
                            } else {
                                assert(self.byte_readable(addr + i));
                            }
                        }
                    }
                }
                return Err(SysError::EFAULT);
            }
            let a = addr + i;
            match self.copy_from_user(a, 1) {
                None => {
                    proof {
                        assert forall|n: int| !self.cstring_at(addr as int, n) by {
                            if self.cstring_at(addr as int, n) {
                                if n < i {
                                    assert(self.byte_at(addr + n) != 0);
                                } else {
                                    assert(self.byte_readable(addr + i));
                                }
                            }
                        }
                    }
                    return Err(SysError::EFAULT);
                },
                Some(b) => {
                    assert(b@[0] == self.byte_at(addr + i));
                    if b[0] == 0 {
                        return Ok(i);
                    }
                },
            }
            i = i + 1;
        }
    }
}

/// A string has one length: the place of its first NUL.
pub proof fn lemma_cstring_unique(mem: UserMemory, addr: int, n1: int, n2: int)
    requires
        mem.cstring_at(addr, n1),
        mem.cstring_at(addr, n2),
    ensures
        n1 == n2,
{
    if n1 < n2 {
        assert(mem.byte_at(addr + n1) != 0);
    } else if n2 < n1 {
        assert(mem.byte_at(addr + n2) != 0);
    }
}

proof fn lemma_cstring_bytes(mem: UserMemory, addr: int, n: int)
    requires
        mem.cstring_at(addr, n),
    ensures
        mem.can_read(addr, n),
        mem.cstring(addr) == Some(mem.bytes_at(addr, n as nat)),
{
    let m = choose|m: int| mem.cstring_at(addr, m);
    lemma_cstring_unique(mem, addr, n, m);
    assert(mem.byte_readable(addr + n));
    assert forall|k: int| 0 <= k < n implies #[trigger] mem.bytes@.contains_key((addr + k) as usize) by {
        assert(mem.byte_readable(addr + k));
        assert(mem.mapped(addr + k, 1));
        assert(mem.bytes@.contains_key(((addr + k) + 0) as usize));
        assert((addr + k) + 0 == addr + k);
    }
    assert(mem.byte_readable(addr));
}

impl<P: Read> UserPtr<u8, P> {
    /// The NUL-terminated string at the pointer: `EFAULT` where a byte that
    /// cannot be read comes before a NUL, `EINVAL` where the bytes are not
    /// UTF-8.
    pub fn read_cstring(&self, mem: &UserMemory) -> (r: Result<String, SysError>)
        ensures
            match mem.cstring(self.addr() as int) {
                None => r == Err::<String, SysError>(SysError::EFAULT),
                Some(b) => if vstd::utf8::valid_utf8(b) {
                    r matches Ok(s) && vstd::utf8::encode_utf8(s@) == b
                } else {
                    r == Err::<String, SysError>(SysError::EINVAL)
                },
            },
    {
        let n = mem.cstring_len(self.ptr)?;
        proof {
            lemma_cstring_bytes(*mem, self.addr() as int, n as int);
        }
        self.read_string(mem, n)
    }
}

/// A string argument of a system call: none for a null pointer, else the
/// string at the pointer; `EFAULT` where it cannot be read or is not UTF-8.
pub fn check_and_clone_cstr(mem: &UserMemory, addr: usize) -> (r: Result<String, SysError>)
    ensures
        addr == 0 ==> (r matches Ok(s) && s@.len() == 0),
        addr != 0 ==> match mem.cstring(addr as int) {
            Some(b) => if vstd::utf8::valid_utf8(b) {
                r matches Ok(s) && vstd::utf8::encode_utf8(s@) == b
            } else {
                r == Err::<String, SysError>(SysError::EFAULT)
            },
            None => r == Err::<String, SysError>(SysError::EFAULT),
        },
{
    if addr == 0 {
        return Ok(String::new());
    }
    let p: UserPtr<u8, In> = UserPtr::from_addr(addr);
    match p.read_cstring(mem) {
        Ok(s) => Ok(s),
        Err(_) => Err(SysError::EFAULT),
    }
}

/// The pointer stored little-endian at `a`.
pub open spec fn ptr_at(mem: UserMemory, a: int) -> usize {
    (u32_at(mem.bytes_at(a, 8), 0) + u32_at(mem.bytes_at(a, 8), 4) * 0x1_0000_0000) as usize
}

/// Whether the `i`-th entry of the pointer array at `addr` is a string
/// that reads as UTF-8.
pub open spec fn array_entry_ok(mem: UserMemory, addr: int, i: int) -> bool {
    &&& mem.can_read(addr + 8 * i, 8)
    &&& ptr_at(mem, addr + 8 * i) != 0
    &&& mem.cstring(ptr_at(mem, addr + 8 * i) as int) matches Some(b) && vstd::utf8::valid_utf8(b)
}

/// A null-terminated array of `n` string pointers lies at `addr`, each
/// string readable and UTF-8.
pub open spec fn cstr_array_at(mem: UserMemory, addr: int, n: int) -> bool {
    &&& 0 <= n
    &&& forall|i: int| 0 <= i < n ==> #[trigger] array_entry_ok(mem, addr, i)
    &&& mem.can_read(addr + 8 * n, 8)
    &&& ptr_at(mem, addr + 8 * n) == 0
}

fn read_ptr(mem: &UserMemory, a: usize) -> (r: Option<usize>)
    ensures
        r is Some == mem.can_read(a as int, 8),
        r matches Some(p) ==> p == ptr_at(*mem, a as int),
{
    match mem.copy_from_user(a, 8) {
        None => None,
        Some(b) => {
            let lo = read_u32(b.as_slice(), 0) as u64;
            let hi = read_u32(b.as_slice(), 4) as u64;
            assert(hi * 0x1_0000_0000 <= u64::MAX - 0xffff_ffff) by (nonlinear_arith)
                requires
                    hi <= 0xffff_ffff,
            ;
            Some((lo + hi * 0x1_0000_0000) as usize)
        },
    }
}

/// A string-array argument (`argv`, `envp`): none for a null pointer, else
/// the strings up to the null pointer; `EFAULT` where a pointer or a string
/// cannot be read or a string is not UTF-8.
pub fn check_and_clone_cstr_array(mem: &UserMemory, addr: usize) -> (r: Result<Vec<String>, SysError>)
    ensures
        addr == 0 ==> (r matches Ok(v) && v@.len() == 0),
        addr != 0 ==> (r is Ok <==> exists|n: int| cstr_array_at(*mem, addr as int, n)),
        addr != 0 ==> (r is Err ==> r == Err::<Vec<String>, SysError>(SysError::EFAULT)),
        addr != 0 ==> (r matches Ok(v) ==> cstr_array_at(*mem, addr as int, v@.len() as int) && forall|i: int|
            0 <= i < v@.len() ==> mem.cstring(ptr_at(*mem, addr + 8 * i) as int) == Some(
                vstd::utf8::encode_utf8(#[trigger] v@[i]@),
            )),
{
    if addr == 0 {
        return Ok(Vec::new());
    }
    let mut v: Vec<String> = Vec::new();
    let mut i: usize = 0;
    loop
        invariant
            addr != 0,
            v@.len() == i,
            i == 0 || addr + 8 * i <= mem.limit,
            forall|k: int| 0 <= k < i ==> #[trigger] array_entry_ok(*mem, addr as int, k),
            forall|k: int|
                0 <= k < i ==> mem.cstring(ptr_at(*mem, addr + 8 * k) as int) == Some(
                    vstd::utf8::encode_utf8(#[trigger] v@[k]@),
                ),
        decreases mem.limit - addr - 8 * i,
    {
        let fail = addr >= mem.limit || 8 * i >= mem.limit - addr;
        let entry = if fail { None } else { read_ptr(mem, addr + 8 * i) };
        match entry {
            None => {
                proof {
                    if !fail {
                        assert(!mem.can_read(addr + 8 * i, 8));
                    }
                    assert forall|n: int| !cstr_array_at(*mem, addr as int, n) by {
                        if cstr_array_at(*mem, addr as int, n) {
                            if n > i {
                                assert(array_entry_ok(*mem, addr as int, i as int));
                            } else if n < i {
                                assert(array_entry_ok(*mem, addr as int, n));
                            }
                        }
                    }
                }
                return Err(SysError::EFAULT);
            },
            Some(p) => {
                if p == 0 {
                    proof {
                        assert(cstr_array_at(*mem, addr as int, i as int));
                    }
                    return Ok(v);
                }
                match check_and_clone_cstr(mem, p) {
                    Err(e) => {
                        proof {
                            assert forall|n: int| !cstr_array_at(*mem, addr as int, n) by {
                                if cstr_array_at(*mem, addr as int, n) {
                                    if n > i {
                                        assert(array_entry_ok(*mem, addr as int, i as int));
                                    } else if n < i {
                                        assert(array_entry_ok(*mem, addr as int, n));
                                    }
                                }
                            }
                        }
                        return Err(SysError::EFAULT);
                    },
                    Ok(s) => {
                        proof {
                            assert(array_entry_ok(*mem, addr as int, i as int));
                        }
                        v.push(s);
                    },
                }
            },
        }
        i = i + 1;
    }
}

/// The number of bytes of `len` from `addr`, counted from `from`, that can
/// be written one by one before the first that cannot.
pub open spec fn writable_run(mem: UserMemory, addr: int, len: nat, from: nat) -> nat
    decreases len - from,
{
    if from >= len {
        len
    } else if mem.can_write(addr + from, 1) {
        writable_run(mem, addr, len, from + 1)
    } else {
        from
    }
}

proof fn lemma_writable_run(mem: UserMemory, addr: int, len: nat, from: nat)
    requires
        from <= len,
    ensures
        from <= writable_run(mem, addr, len, from) <= len,
        forall|j: int| from <= j < writable_run(mem, addr, len, from) ==> #[trigger] mem.can_write(addr + j, 1),
        writable_run(mem, addr, len, from) < len ==> !mem.can_write(addr + writable_run(mem, addr, len, from), 1),
    decreases len - from,
{
    if from < len && mem.can_write(addr + from, 1) {
        lemma_writable_run(mem, addr, len, from + 1);
    }
}

impl<P: Write> UserPtr<u8, P> {
    /// Writes `values` from the pointer one byte at a time; at the first
    /// byte that cannot be written it stops with `EFAULT`, the bytes before
    /// it written.
    pub fn write_array(&mut self, mem: &mut UserMemory, values: &[u8]) -> (r: Result<(), SysError>)
        ensures
            final(self).addr() == old(self).addr(),
            final(mem).limit == old(mem).limit,
            ({
                let k = writable_run(*old(mem), old(self).addr() as int, values@.len(), 0);
                &&& final(mem).bytes@ == old(mem).written(old(self).addr() as int, values@.take(k as int))
                &&& r == if k == values@.len() { Ok::<(), SysError>(()) } else { Err(SysError::EFAULT) }
            }),
    {
        let ghost before = *mem;
        let ghost addr = self.addr() as int;
        let ghost k = writable_run(before, addr, values@.len(), 0);
        proof {
            lemma_writable_run(before, addr, values@.len(), 0);
            assert(before.written(addr, values@.take(0)) =~= before.bytes@);
        }
        let mut i: usize = 0;
        while i < values.len()
            invariant
                i <= k,
                k == writable_run(before, addr, values@.len(), 0),
                k <= values@.len(),
                forall|j: int| 0 <= j < k ==> #[trigger] before.can_write(addr + j, 1),
                k < values@.len() ==> !before.can_write(addr + k, 1),
                addr == self.addr(),
                addr == old(self).addr(),
                before == *old(mem),
                mem.limit == before.limit,
                mem.bytes@ == before.written(addr, values@.take(i as int)),
            decreases values@.len() - i,
        {
            if self.ptr > usize::MAX - i {
                proof {
                    assert(!before.can_write(addr + i, 1)) by {
                        assert(!before.access_ok(addr + i, 1));
                    }
                    if i < k {
                        assert(before.can_write(addr + i, 1));
                    }
                    assert(i == k);
                }
                return Err(SysError::EFAULT);
            }
            let ghost cur = *mem;
            let one = [values[i]];
            let ok = mem.copy_to_user(self.ptr + i, one.as_slice());
            proof {
                assert(cur.can_write(addr + i, 1) == before.can_write(addr + i, 1)) by {
                    assert(cur.bytes@.dom() == before.bytes@.dom());
                    if cur.can_write(addr + i, 1) || before.can_write(addr + i, 1) {
                        assert(cur.bytes@.contains_key((addr + i + 0) as usize));
                        assert(before.bytes@.contains_key((addr + i + 0) as usize));
                    }
                    if before.bytes@.contains_key((addr + i) as usize) {
                        assert(cur.bytes@[(addr + i) as usize].1 == before.bytes@[(addr + i) as usize].1);
                    }
                }
            }
            if !ok {
                proof {
                    if i < k {
                        assert(before.can_write(addr + i, 1));
                    }
                    assert(i == k);
                }
                return Err(SysError::EFAULT);
            }
            proof {
                assert(mem.bytes@ =~= before.written(addr, values@.take(i + 1)));
            }
            i = i + 1;
        }
        proof {
            assert(values@.take(values@.len() as int) =~= values@);
        }
        Ok(())
    }

    /// Writes `s` and a NUL after it, one byte at a time: as `write_array`
    /// does with the string's bytes and the NUL.
    pub fn write_cstring(&mut self, mem: &mut UserMemory, s: &str) -> (r: Result<(), SysError>)
        ensures
            final(self).addr() == old(self).addr(),
            final(mem).limit == old(mem).limit,
            ({
                let bytes = vstd::utf8::encode_utf8(s@).push(0u8);
                let k = writable_run(*old(mem), old(self).addr() as int, bytes.len(), 0);
                &&& final(mem).bytes@ == old(mem).written(old(self).addr() as int, bytes.take(k as int))
                &&& r == if k == bytes.len() { Ok::<(), SysError>(()) } else { Err(SysError::EFAULT) }
            }),
    {
        let mut bytes = s.as_bytes_vec();
        bytes.push(0);
        self.write_array(mem, bytes.as_slice())
    }
}

/// A user pointer that is read through.
pub type UserInPtr<T> = UserPtr<T, In>;

/// A user pointer that is written through.
pub type UserOutPtr<T> = UserPtr<T, Out>;

} // verus!
