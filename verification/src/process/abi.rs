//! The initial user stack of a new program: strings, the auxiliary vector
//! and the `argv`/`envp` pointer arrays, laid out as the System V ABI wants.

use vstd::prelude::*;

use crate::net::bytes::{le64, push_u64};

verus! {

/// Auxiliary vector key: address of the program headers.
pub const AT_PHDR: u8 = 3;
/// Auxiliary vector key: size of one program header.
pub const AT_PHENT: u8 = 4;
/// Auxiliary vector key: number of program headers.
pub const AT_PHNUM: u8 = 5;
/// Auxiliary vector key: page size.
pub const AT_PAGESZ: u8 = 6;
/// Auxiliary vector key: base address of the interpreter.
pub const AT_BASE: u8 = 7;
/// Auxiliary vector key: entry point of the program.
pub const AT_ENTRY: u8 = 9;

/// What a new program finds on its stack.
pub struct ProcInitInfo {
    pub args: Vec<String>,
    pub envs: Vec<String>,
    /// auxiliary vector entries, in ascending key order
    pub auxv: Vec<(u8, usize)>,
}

/// One write into user memory: `bytes` at address `addr`.
pub struct StackWrite {
    pub addr: usize,
    pub bytes: Vec<u8>,
}

/// A write, as an address and bytes.
pub open spec fn write_view(w: StackWrite) -> (int, Seq<u8>) {
    (w.addr as int, w.bytes@)
}

/// Where the stack pointer is, and what was written so far.
pub struct StackState {
    pub sp: int,
    pub writes: Seq<(int, Seq<u8>)>,
}

/// The UTF-8 bytes of a string.
pub open spec fn str_bytes(s: String) -> Seq<u8> {
    vstd::utf8::encode_utf8(s@)
}

/// Pushes `bytes` below the stack pointer, aligned down to `align`.
pub open spec fn push_spec(st: StackState, bytes: Seq<u8>, align: int) -> StackState {
    let s = st.sp - bytes.len();
    let sp = s - s % align;
    StackState { sp, writes: st.writes.push((sp, bytes)) }
}

/// Pushes a NUL and then the bytes of a string (so the string is
/// NUL-terminated in memory).
pub open spec fn push_str_spec(st: StackState, s: Seq<u8>) -> StackState {
    push_spec(push_spec(st, seq![0u8], 1), s, 1)
}

/// The little-endian bytes of machine words, in order.
pub open spec fn words_bytes(ws: Seq<usize>) -> Seq<u8>
    decreases ws.len(),
{
    if ws.len() == 0 {
        Seq::empty()
    } else {
        words_bytes(ws.drop_last()) + le64(ws.last() as u64)
    }
}

/// Pushes machine words, aligned to eight bytes.
pub open spec fn push_words_spec(st: StackState, ws: Seq<usize>) -> StackState {
    push_spec(st, words_bytes(ws), 8)
}

/// Pushes strings one after the other; also gives the stack pointer after
/// each (where each string starts).
pub open spec fn push_strs_spec(st: StackState, strs: Seq<Seq<u8>>) -> (StackState, Seq<int>)
    decreases strs.len(),
{
    if strs.len() == 0 {
        (st, Seq::empty())
    } else {
        let (st1, ptrs) = push_strs_spec(st, strs.drop_last());
        let st2 = push_str_spec(st1, strs.last());
        (st2, ptrs.push(st2.sp))
    }
}

/// Pushes the auxiliary vector entries, each as a pair of words.
pub open spec fn push_auxv_spec(st: StackState, auxv: Seq<(u8, usize)>) -> StackState
    decreases auxv.len(),
{
    if auxv.len() == 0 {
        st
    } else {
        let st1 = push_auxv_spec(st, auxv.drop_last());
        push_words_spec(st1, seq![auxv.last().0 as usize, auxv.last().1])
    }
}

/// The bytes of each string.
pub open spec fn strings_bytes(v: Seq<String>) -> Seq<Seq<u8>> {
    Seq::new(v.len(), |i: int| str_bytes(v[i]))
}

/// Addresses as machine words.
pub open spec fn as_words(ps: Seq<int>) -> Seq<usize> {
    Seq::new(ps.len(), |i: int| ps[i] as usize)
}

/// The whole initial stack, built down from `stack_top`: the program name,
/// the environment strings, the argument strings, the auxiliary vector (with
/// a terminating null pair above it), a null word and the environment
/// pointers, a null word and the argument pointers, and finally `argc`.
pub open spec fn init_stack(args: Seq<Seq<u8>>, envs: Seq<Seq<u8>>, auxv: Seq<(u8, usize)>, stack_top: int) -> StackState {
    let st0 = StackState { sp: stack_top, writes: Seq::empty() };
    let st1 = push_str_spec(st0, args[0]);
    let (st2, env_ptrs) = push_strs_spec(st1, envs);
    let (st3, arg_ptrs) = push_strs_spec(st2, args);
    let st4 = push_words_spec(st3, seq![0usize, 0usize]);
    let st5 = push_auxv_spec(st4, auxv);
    let st6 = push_words_spec(st5, seq![0usize]);
    let st7 = push_words_spec(st6, as_words(env_ptrs));
    let st8 = push_words_spec(st7, seq![0usize]);
    let st9 = push_words_spec(st8, as_words(arg_ptrs));
    push_words_spec(st9, seq![args.len() as usize])
}

/// The room that strings take: each with its NUL.
pub open spec fn strs_need(strs: Seq<Seq<u8>>) -> int
    decreases strs.len(),
{
    if strs.len() == 0 {
        0
    } else {
        strs_need(strs.drop_last()) + strs.last().len() + 1
    }
}

struct StackWriter {
    sp: usize,
    writes: Vec<StackWrite>,
}

impl StackWriter {
    spec fn state(&self) -> StackState {
        StackState { sp: self.sp as int, writes: Seq::new(self.writes@.len(), |i: int| write_view(self.writes@[i])) }
    }

    fn push(&mut self, bytes: Vec<u8>, align: usize)
        requires
            align == 1 || align == 8,
            old(self).sp >= bytes@.len(),
        ensures
            final(self).state() == push_spec(old(self).state(), bytes@, align as int),
    {
        let s = self.sp - bytes.len();
        let sp = s - s % align;
        self.sp = sp;
        self.writes.push(StackWrite { addr: sp, bytes });
        assert(self.state().writes =~= old(self).state().writes.push((sp as int, bytes@)));
    }

    fn push_str(&mut self, s: &String)
        requires
            old(self).sp >= str_bytes(*s).len() + 1,
        ensures
            final(self).state() == push_str_spec(old(self).state(), str_bytes(*s)),
            final(self).sp == old(self).sp - str_bytes(*s).len() - 1,
    {
        let mut nul: Vec<u8> = Vec::new();
        nul.push(0u8);
        assert(nul@ =~= seq![0u8]);
        self.push(nul, 1);
        let b = s.as_str().as_bytes();
        let mut bytes: Vec<u8> = Vec::new();
        let mut i: usize = 0;
        while i < b.len()
            invariant
                i <= b@.len(),
                bytes@ == b@.subrange(0, i as int),
            decreases b.len() - i,
        {
            bytes.push(b[i]);
            i = i + 1;
            assert(bytes@ =~= b@.subrange(0, i as int));
        }
        assert(bytes@ =~= b@);
        assert(b@ == str_bytes(*s));
        self.push(bytes, 1);
    }

    fn push_words(&mut self, ws: &[usize])
        requires
            push_words_spec(old(self).state(), ws@).sp >= 0,
        ensures
            final(self).state() == push_words_spec(old(self).state(), ws@),
    {
        let mut bytes: Vec<u8> = Vec::new();
        let mut i: usize = 0;
        while i < ws.len()
            invariant
                i <= ws@.len(),
                bytes@ == words_bytes(ws@.subrange(0, i as int)),
                bytes@.len() == 8 * i,
            decreases ws.len() - i,
        {
            push_u64(&mut bytes, ws[i] as u64);
            proof {
                let t = ws@.subrange(0, i + 1);
                assert(t.drop_last() =~= ws@.subrange(0, i as int));
            }
            i = i + 1;
        }
        assert(ws@.subrange(0, ws@.len() as int) =~= ws@);
        proof {
            let st = self.state();
            let x = st.sp - bytes@.len();
            if x < 0 {
                assert(x - x % 8 <= x);
            }
        }
        self.push(bytes, 8);
    }
}

proof fn lemma_strs_need_step(strs: Seq<Seq<u8>>, i: int)
    requires
        0 <= i < strs.len(),
    ensures
        strs_need(strs.subrange(0, i + 1)) == strs_need(strs.subrange(0, i)) + strs[i].len() + 1,
{
    assert(strs.subrange(0, i + 1).drop_last() =~= strs.subrange(0, i));
}

proof fn lemma_strs_need_nonneg(strs: Seq<Seq<u8>>)
    ensures
        strs_need(strs) >= 0,
    decreases strs.len(),
{
    if strs.len() > 0 {
        lemma_strs_need_nonneg(strs.drop_last());
    }
}

proof fn lemma_strs_need_prefix(strs: Seq<Seq<u8>>, i: int)
    requires
        0 <= i <= strs.len(),
    ensures
        strs_need(strs.subrange(0, i)) + strs_need(strs.subrange(i, strs.len() as int)) == strs_need(strs),
    decreases strs.len() - i,
{
    if i < strs.len() {
        lemma_strs_need_prefix(strs, i + 1);
        lemma_strs_need_step(strs, i);
        lemma_suffix_need(strs, i);
    } else {
        assert(strs.subrange(0, i) =~= strs);
        assert(strs.subrange(i, strs.len() as int) =~= Seq::<Seq<u8>>::empty());
    }
}

proof fn lemma_suffix_need(strs: Seq<Seq<u8>>, i: int)
    requires
        0 <= i < strs.len(),
    ensures
        strs_need(strs.subrange(i, strs.len() as int)) == strs[i].len() + 1 + strs_need(strs.subrange(i + 1, strs.len() as int)),
    decreases strs.len() - i,
{
    let s = strs.subrange(i, strs.len() as int);
    if i + 1 == strs.len() {
        assert(s.drop_last() =~= Seq::<Seq<u8>>::empty());
        assert(strs.subrange(i + 1, strs.len() as int) =~= Seq::<Seq<u8>>::empty());
    } else {
        let t = strs.drop_last();
        lemma_suffix_need(t, i);
        assert(s.drop_last() =~= t.subrange(i, t.len() as int));
        assert(strs.subrange(i + 1, strs.len() as int).drop_last() =~= t.subrange(i + 1, t.len() as int));
    }
}

impl StackWriter {
    fn push_strs(&mut self, strs: &Vec<String>) -> (ptrs: Vec<usize>)
        requires
            old(self).sp >= strs_need(strings_bytes(strs@)),
        ensures
            (final(self).state(), Seq::new(ptrs@.len(), |i: int| ptrs@[i] as int))
                == push_strs_spec(old(self).state(), strings_bytes(strs@)),
            final(self).sp == old(self).sp - strs_need(strings_bytes(strs@)),
    {
        let ghost all = strings_bytes(strs@);
        let ghost st0 = self.state();
        let ghost sp0 = self.sp as int;
        let mut ptrs: Vec<usize> = Vec::new();
        let mut i: usize = 0;
        proof {
            lemma_strs_need_prefix(all, 0);
            lemma_strs_need_nonneg(all.subrange(0, 0));
            lemma_strs_need_nonneg(all.subrange(0, all.len() as int));
        }
        while i < strs.len()
            invariant
                i <= strs@.len(),
                all == strings_bytes(strs@),
                sp0 >= strs_need(all),
                self.sp == sp0 - strs_need(all.subrange(0, i as int)),
                (self.state(), Seq::new(ptrs@.len(), |k: int| ptrs@[k] as int))
                    == push_strs_spec(st0, all.subrange(0, i as int)),
            decreases strs.len() - i,
        {
            proof {
                lemma_strs_need_step(all, i as int);
                lemma_strs_need_prefix(all, i + 1);
                lemma_strs_need_nonneg(all.subrange(i + 1, all.len() as int));
                assert(all[i as int] == str_bytes(strs@[i as int]));
            }
            self.push_str(&strs[i]);
            let ghost prev_ptrs = ptrs@;
            ptrs.push(self.sp);
            proof {
                let t = all.subrange(0, i + 1);
                assert(t.drop_last() =~= all.subrange(0, i as int));
                assert(t.last() == all[i as int]);
                assert(Seq::new(ptrs@.len(), |k: int| ptrs@[k] as int) =~= Seq::new(prev_ptrs.len(), |k: int| prev_ptrs[k] as int).push(self.sp as int));
            }
            i = i + 1;
        }
        assert(all.subrange(0, all.len() as int) =~= all);
        ptrs
    }
}

proof fn lemma_strs_bytes_of_ptrs(ptrs: Seq<int>, v: Seq<usize>)
    requires
        ptrs == Seq::new(v.len(), |i: int| v[i] as int),
    ensures
        as_words(ptrs) == v,
{
    assert(as_words(ptrs) =~= v);
}

impl ProcInitInfo {
    /// The bytes of the argument strings.
    pub open spec fn args_bytes(&self) -> Seq<Seq<u8>> {
        strings_bytes(self.args@)
    }

    /// The bytes of the environment strings.
    pub open spec fn envs_bytes(&self) -> Seq<Seq<u8>> {
        strings_bytes(self.envs@)
    }

    /// Builds the initial stack below `stack_top` and returns the new stack
    /// pointer (where `argc` lies) and the writes that fill the stack. The
    /// stack must have room for all of it.
    pub fn push_at(&self, stack_top: usize) -> (r: (usize, Vec<StackWrite>))
        requires
            self.args@.len() > 0,
            init_stack(self.args_bytes(), self.envs_bytes(), self.auxv@, stack_top as int).sp >= 0,
        ensures
            ({
                let st = init_stack(self.args_bytes(), self.envs_bytes(), self.auxv@, stack_top as int);
                &&& r.0 == st.sp
                &&& Seq::new(r.1@.len(), |i: int| write_view(r.1@[i])) == st.writes
            }),
    {
        let ghost args = self.args_bytes();
        let ghost envs = self.envs_bytes();
        let ghost auxv = self.auxv@;
        let ghost st0 = StackState { sp: stack_top as int, writes: Seq::empty() };
        let ghost st1 = push_str_spec(st0, args[0]);
        let ghost st2 = push_strs_spec(st1, envs).0;
        let ghost st3 = push_strs_spec(st2, args).0;
        let ghost st4 = push_words_spec(st3, seq![0usize, 0usize]);
        let ghost st5 = push_auxv_spec(st4, auxv);
        let ghost st6 = push_words_spec(st5, seq![0usize]);
        let ghost st7 = push_words_spec(st6, as_words(push_strs_spec(st1, envs).1));
        let ghost st8 = push_words_spec(st7, seq![0usize]);
        let ghost st9 = push_words_spec(st8, as_words(push_strs_spec(st2, args).1));
        let ghost st10 = push_words_spec(st9, seq![args.len() as usize]);
        proof {
            lemma_push_words_mono(st9, seq![args.len() as usize]);
            lemma_push_words_mono(st8, as_words(push_strs_spec(st2, args).1));
            lemma_push_words_mono(st7, seq![0usize]);
            lemma_push_words_mono(st6, as_words(push_strs_spec(st1, envs).1));
            lemma_push_words_mono(st5, seq![0usize]);
            lemma_push_auxv_mono(st4, auxv, auxv.len() as int);
            lemma_push_words_mono(st3, seq![0usize, 0usize]);
            lemma_push_strs_sp(st2, args);
            lemma_push_strs_sp(st1, envs);
            assert(st10 == init_stack(args, envs, auxv, stack_top as int));
        }
        let mut w = StackWriter { sp: stack_top, writes: Vec::new() };
        proof {
            assert(w.state().writes =~= Seq::<(int, Seq<u8>)>::empty());
            assert(w.state() == st0);
            lemma_strs_need_nonneg(envs);
            lemma_strs_need_nonneg(args);
            assert(args[0] == str_bytes(self.args@[0]));
        }
        w.push_str(&self.args[0]);
        let env_ptrs = w.push_strs(&self.envs);
        let arg_ptrs = w.push_strs(&self.args);
        let zero2: [usize; 2] = [0, 0];
        assert(zero2@ =~= seq![0usize, 0usize]);
        w.push_words(&zero2);
        let mut i: usize = 0;
        while i < self.auxv.len()
            invariant
                i <= auxv.len(),
                auxv == self.auxv@,
                push_auxv_spec(st4, auxv).sp >= 0,
                w.state() == push_auxv_spec(st4, auxv.subrange(0, i as int)),
            decreases self.auxv.len() - i,
        {
            let (t, v) = self.auxv[i];
            let pair: [usize; 2] = [t as usize, v];
            assert(pair@ =~= seq![auxv[i as int].0 as usize, auxv[i as int].1]);
            proof {
                let s = auxv.subrange(0, i + 1);
                assert(s.drop_last() =~= auxv.subrange(0, i as int));
                lemma_push_auxv_prefix(st4, auxv, i + 1);
            }
            w.push_words(&pair);
            i = i + 1;
        }
        assert(auxv.subrange(0, auxv.len() as int) =~= auxv);
        let zero1: [usize; 1] = [0];
        assert(zero1@ =~= seq![0usize]);
        w.push_words(&zero1);
        proof {
            lemma_strs_bytes_of_ptrs(push_strs_spec(st1, envs).1, env_ptrs@);
            lemma_strs_bytes_of_ptrs(push_strs_spec(st2, args).1, arg_ptrs@);
        }
        w.push_words(env_ptrs.as_slice());
        w.push_words(&zero1);
        w.push_words(arg_ptrs.as_slice());
        let argc: [usize; 1] = [self.args.len()];
        assert(argc@ =~= seq![args.len() as usize]);
        w.push_words(&argc);
        (w.sp, w.writes)
    }
}

proof fn lemma_push_mono(st: StackState, bytes: Seq<u8>, align: int)
    requires
        align == 1 || align == 8,
    ensures
        push_spec(st, bytes, align).sp <= st.sp - bytes.len(),
{
}

proof fn lemma_push_words_mono(st: StackState, ws: Seq<usize>)
    ensures
        push_words_spec(st, ws).sp <= st.sp,
{
    lemma_push_mono(st, words_bytes(ws), 8);
}

proof fn lemma_push_strs_sp(st: StackState, strs: Seq<Seq<u8>>)
    ensures
        push_strs_spec(st, strs).0.sp == st.sp - strs_need(strs),
    decreases strs.len(),
{
    if strs.len() > 0 {
        lemma_push_strs_sp(st, strs.drop_last());
    }
}

proof fn lemma_push_auxv_prefix(st: StackState, auxv: Seq<(u8, usize)>, k: int)
    requires
        0 <= k <= auxv.len(),
    ensures
        push_auxv_spec(st, auxv).sp <= push_auxv_spec(st, auxv.subrange(0, k)).sp,
    decreases auxv.len() - k,
{
    if k < auxv.len() {
        lemma_push_auxv_prefix(st, auxv, k + 1);
        let s = auxv.subrange(0, k + 1);
        assert(s.drop_last() =~= auxv.subrange(0, k));
        lemma_push_words_mono(push_auxv_spec(st, auxv.subrange(0, k)), seq![s.last().0 as usize, s.last().1]);
    } else {
        assert(auxv.subrange(0, k) =~= auxv);
    }
}

proof fn lemma_push_auxv_mono(st: StackState, auxv: Seq<(u8, usize)>, k: int)
    requires
        k == auxv.len(),
    ensures
        push_auxv_spec(st, auxv).sp <= st.sp,
{
    lemma_push_auxv_prefix(st, auxv, 0);
    assert(auxv.subrange(0, 0) =~= Seq::<(u8, usize)>::empty());
}

/// The initial stack lies below its top: the stack pointer where `argc`
/// lies is at most `stack_top`, and it is aligned to a word.
pub proof fn lemma_init_stack_below_top(
    args: Seq<Seq<u8>>,
    envs: Seq<Seq<u8>>,
    auxv: Seq<(u8, usize)>,
    stack_top: int,
)
    requires
        args.len() > 0,
    ensures
        init_stack(args, envs, auxv, stack_top).sp <= stack_top,
        init_stack(args, envs, auxv, stack_top).sp % 8 == 0,
{
    let st0 = StackState { sp: stack_top, writes: Seq::empty() };
    let st1 = push_str_spec(st0, args[0]);
    lemma_push_mono(st0, seq![0u8], 1);
    lemma_push_mono(push_spec(st0, seq![0u8], 1), args[0], 1);
    let (st2, env_ptrs) = push_strs_spec(st1, envs);
    lemma_push_strs_sp(st1, envs);
    lemma_strs_need_nonneg(envs);
    let (st3, arg_ptrs) = push_strs_spec(st2, args);
    lemma_push_strs_sp(st2, args);
    lemma_strs_need_nonneg(args);
    let st4 = push_words_spec(st3, seq![0usize, 0usize]);
    lemma_push_words_mono(st3, seq![0usize, 0usize]);
    let st5 = push_auxv_spec(st4, auxv);
    lemma_push_auxv_mono(st4, auxv, auxv.len() as int);
    let st6 = push_words_spec(st5, seq![0usize]);
    lemma_push_words_mono(st5, seq![0usize]);
    let st7 = push_words_spec(st6, as_words(env_ptrs));
    lemma_push_words_mono(st6, as_words(env_ptrs));
    let st8 = push_words_spec(st7, seq![0usize]);
    lemma_push_words_mono(st7, seq![0usize]);
    let st9 = push_words_spec(st8, as_words(arg_ptrs));
    lemma_push_words_mono(st8, as_words(arg_ptrs));
    lemma_push_words_mono(st9, seq![args.len() as usize]);
}

} // verus!
