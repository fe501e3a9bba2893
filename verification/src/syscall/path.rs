//! `chdir`'s new working directory: the path's segments applied to the old
//! one, with `.` and `..` resolved.

use vstd::prelude::*;

verus! {

pub const SLASH: u8 = 0x2f;
pub const DOT: u8 = 0x2e;

/// The state of a walk over a path: the directory segments so far, and the
/// segment being read.
pub type Walk = (Seq<Seq<u8>>, Seq<u8>);

/// The end of a segment: an empty one is dropped; with `resolve`, `.` is
/// dropped and `..` takes the last segment away (if any); any other is
/// added.
pub open spec fn end_segment(stack: Seq<Seq<u8>>, seg: Seq<u8>, resolve: bool) -> Seq<Seq<u8>> {
    if seg.len() == 0 {
        stack
    } else if resolve && seg == seq![DOT, DOT] {
        if stack.len() > 0 { stack.drop_last() } else { stack }
    } else if resolve && seg == seq![DOT] {
        stack
    } else {
        stack.push(seg)
    }
}

/// One byte of a path.
pub open spec fn walk_step(w: Walk, b: u8, resolve: bool) -> Walk {
    if b == SLASH {
        (end_segment(w.0, w.1, resolve), Seq::empty())
    } else {
        (w.0, w.1.push(b))
    }
}

/// The segments after walking `path` from `stack`.
pub open spec fn walk(stack: Seq<Seq<u8>>, path: Seq<u8>, resolve: bool) -> Seq<Seq<u8>> {
    let w = path.fold_left((stack, Seq::<u8>::empty()), |w: Walk, b: u8| walk_step(w, b, resolve));
    end_segment(w.0, w.1, resolve)
}

/// A path made of segments: `/` before each, or `/` alone for none.
pub open spec fn join(segs: Seq<Seq<u8>>) -> Seq<u8> {
    if segs.len() == 0 {
        seq![SLASH]
    } else {
        segs.fold_left(Seq::<u8>::empty(), |acc: Seq<u8>, s: Seq<u8>| acc.push(SLASH) + s)
    }
}

/// The working directory after `chdir(path)` from `cwd`: an empty path
/// keeps it; an absolute path starts from the root, a relative one from the
/// segments of `cwd`; `.` and `..` of the path are resolved.
pub open spec fn chdir_spec(cwd: Seq<u8>, path: Seq<u8>) -> Seq<u8> {
    if path.len() == 0 {
        cwd
    } else {
        let base = if path[0] == SLASH { Seq::empty() } else { walk(Seq::empty(), cwd, false) };
        join(walk(base, path, true))
    }
}

fn is_dot(seg: &Vec<u8>) -> (b: bool)
    ensures
        b == (seg@ == seq![DOT]),
{
    if seg.len() == 1 && seg[0] == DOT {
        assert(seg@ =~= seq![DOT]);
        true
    } else {
        false
    }
}

fn is_dot_dot(seg: &Vec<u8>) -> (b: bool)
    ensures
        b == (seg@ == seq![DOT, DOT]),
{
    if seg.len() == 2 && seg[0] == DOT && seg[1] == DOT {
        assert(seg@ =~= seq![DOT, DOT]);
        true
    } else {
        false
    }
}

pub open spec fn views(v: Seq<Vec<u8>>) -> Seq<Seq<u8>> {
    v.map_values(|s: Vec<u8>| s@)
}

fn end_seg(stack: &mut Vec<Vec<u8>>, seg: Vec<u8>, resolve: bool)
    ensures
        views(final(stack)@) == end_segment(views(old(stack)@), seg@, resolve),
{
    if seg.len() == 0 {
        return;
    }
    if resolve && is_dot_dot(&seg) {
        if stack.len() > 0 {
            stack.pop();
            assert(views(stack@) =~= views(old(stack)@).drop_last());
        }
        return;
    }
    if resolve && is_dot(&seg) {
        return;
    }
    stack.push(seg);
    assert(views(stack@) =~= views(old(stack)@).push(seg@));
}

fn walk_exec(stack: &mut Vec<Vec<u8>>, path: &[u8], resolve: bool)
    ensures
        views(final(stack)@) == walk(views(old(stack)@), path@, resolve),
{
    let ghost f = |w: Walk, b: u8| walk_step(w, b, resolve);
    let ghost init: Walk = (views(stack@), Seq::<u8>::empty());
    let mut cur: Vec<u8> = Vec::new();
    let mut i: usize = 0;
    while i < path.len()
        invariant
            i <= path@.len(),
            f == (|w: Walk, b: u8| walk_step(w, b, resolve)),
            init == (views(old(stack)@), Seq::<u8>::empty()),
            (views(stack@), cur@) == path@.take(i as int).fold_left(init, f),
        decreases path@.len() - i,
    {
        let b = path[i];
        proof {
            assert(path@.take(i + 1).drop_last() =~= path@.take(i as int));
        }
        if b == SLASH {
            let mut seg: Vec<u8> = Vec::new();
            std::mem::swap(&mut seg, &mut cur);
            end_seg(stack, seg, resolve);
        } else {
            cur.push(b);
        }
        i = i + 1;
    }
    proof {
        assert(path@.take(path@.len() as int) =~= path@);
    }
    end_seg(stack, cur, resolve);
}

fn join_exec(segs: &Vec<Vec<u8>>) -> (r: Vec<u8>)
    ensures
        r@ == join(views(segs@)),
{
    let mut out: Vec<u8> = Vec::new();
    if segs.len() == 0 {
        out.push(SLASH);
        assert(out@ =~= seq![SLASH]);
        return out;
    }
    let ghost f = |acc: Seq<u8>, s: Seq<u8>| acc.push(SLASH) + s;
    let mut i: usize = 0;
    while i < segs.len()
        invariant
            i <= segs@.len(),
            f == (|acc: Seq<u8>, s: Seq<u8>| acc.push(SLASH) + s),
            out@ == views(segs@).take(i as int).fold_left(Seq::<u8>::empty(), f),
        decreases segs@.len() - i,
    {
        proof {
            assert(views(segs@).take(i + 1).drop_last() =~= views(segs@).take(i as int));
        }
        out.push(SLASH);
        let s = &segs[i];
        let mut k: usize = 0;
        let ghost before = out@;
        while k < s.len()
            invariant
                k <= s@.len(),
                out@ == before + s@.take(k as int),
            decreases s@.len() - k,
        {
            out.push(s[k]);
            k = k + 1;
            assert(out@ =~= before + s@.take(k as int));
        }
        proof {
            assert(s@.take(s@.len() as int) =~= s@);
        }
        i = i + 1;
    }
    proof {
        assert(views(segs@).take(segs@.len() as int) =~= views(segs@));
    }
    out
}

/// `chdir`'s new working directory.
pub fn chdir_path(cwd: &[u8], path: &[u8]) -> (r: Vec<u8>)
    ensures
        r@ == chdir_spec(cwd@, path@),
{
    if path.len() == 0 {
        let mut v: Vec<u8> = Vec::new();
        let mut i: usize = 0;
        while i < cwd.len()
            invariant
                i <= cwd@.len(),
                v@ == cwd@.take(i as int),
            decreases cwd@.len() - i,
        {
            v.push(cwd[i]);
            i = i + 1;
            assert(v@ =~= cwd@.take(i as int));
        }
        assert(v@ =~= cwd@);
        return v;
    }
    let mut stack: Vec<Vec<u8>> = Vec::new();
    assert(views(stack@) =~= Seq::<Seq<u8>>::empty());
    if path[0] != SLASH {
        walk_exec(&mut stack, cwd, false);
    }
    walk_exec(&mut stack, path, true);
    join_exec(&stack)
}

proof fn lemma_join_fold_prefix(segs: Seq<Seq<u8>>)
    requires
        segs.len() > 0,
    ensures
        ({
            let r = segs.fold_left(Seq::<u8>::empty(), |acc: Seq<u8>, s: Seq<u8>| acc.push(SLASH) + s);
            r.len() > 0 && r[0] == SLASH
        }),
    decreases segs.len(),
{
    let f = |acc: Seq<u8>, s: Seq<u8>| acc.push(SLASH) + s;
    if segs.len() == 1 {
        assert(segs.drop_last().fold_left(Seq::<u8>::empty(), f) == Seq::<u8>::empty());
    } else {
        lemma_join_fold_prefix(segs.drop_last());
    }
}

/// After `chdir` with a path, the working directory is absolute: it begins
/// with `/`.
pub proof fn lemma_chdir_absolute(cwd: Seq<u8>, path: Seq<u8>)
    requires
        path.len() > 0,
    ensures
        chdir_spec(cwd, path).len() > 0,
        chdir_spec(cwd, path)[0] == SLASH,
{
    let base = if path[0] == SLASH { Seq::empty() } else { walk(Seq::empty(), cwd, false) };
    let segs = walk(base, path, true);
    if segs.len() > 0 {
        lemma_join_fold_prefix(segs);
    }
}

} // verus!
