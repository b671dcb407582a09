//! The process isolation engine's computations: the kernel flag word for a
//! namespace request list, the ordered join plan for namespaces entered at a
//! path, and the stack-top address handed to the process-creation primitive.
//! The kernel call itself is made by the surrounding program with exactly
//! these values.

use vstd::prelude::*;

use crate::namespace::Namespace;
use crate::namespace::NamespaceType;

verus! {

/// The flag word for a request list: the bitwise union of the kernel flag of
/// every "create new" entry. Entries that join an existing namespace at a
/// path contribute nothing here; they are entered by the child itself.
pub open spec fn spec_namespace_flags(s: Seq<Namespace>) -> i32
    decreases s.len(),
{
    if s.len() == 0 {
        0
    } else {
        spec_namespace_flags(s.drop_last()) | (if s.last().is_create_new() {
            s.last().typ.spec_flag()
        } else {
            0
        })
    }
}

/// The entries of a request list that join an existing namespace, in order.
pub open spec fn spec_join_list(s: Seq<Namespace>) -> Seq<Namespace>
    decreases s.len(),
{
    if s.len() == 0 {
        Seq::empty()
    } else {
        let prefix = spec_join_list(s.drop_last());
        if s.last().is_create_new() {
            prefix
        } else {
            prefix.push(s.last())
        }
    }
}

/// Computes the flag word for a namespace request list.
pub fn namespace_flags(v: &Vec<Namespace>) -> (r: i32)
    ensures
        r == spec_namespace_flags(v@),
{
    let mut flags: i32 = 0;
    let mut i: usize = 0;
    while i < v.len()
        invariant
            i <= v@.len(),
            flags == spec_namespace_flags(v@.subrange(0, i as int)),
        decreases v@.len() - i,
    {
        if v[i].path.is_none() {
            flags = flags | v[i].typ.flag();
        }
        proof {
            let sub = v@.subrange(0, i + 1);
            assert(sub.drop_last() =~= v@.subrange(0, i as int));
            assert(sub.last() == v@[i as int]);
            let a = spec_namespace_flags(v@.subrange(0, i as int));
            assert(a | 0i32 == a) by (bit_vector);
        }
        i += 1;
    }
    proof {
        assert(v@.subrange(0, v@.len() as int) =~= v@);
    }
    flags
}

/// Collects the namespaces to join at a path, preserving their order; the
/// child enters them before any other setup step.
pub fn join_requests(v: &Vec<Namespace>) -> (r: Vec<Namespace>)
    ensures
        r@ == spec_join_list(v@),
{
    let mut out: Vec<Namespace> = Vec::new();
    let mut i: usize = 0;
    while i < v.len()
        invariant
            i <= v@.len(),
            out@ == spec_join_list(v@.subrange(0, i as int)),
        decreases v@.len() - i,
    {
        if v[i].path.is_some() {
            let entry = &v[i];
            let path = match &entry.path {
                Some(p) => Some(p.clone()),
                None => None,
            };
            out.push(Namespace { typ: entry.typ, path });
            proof {
                assert(out@.last() == v@[i as int]);
            }
        }
        proof {
            let sub = v@.subrange(0, i + 1);
            assert(sub.drop_last() =~= v@.subrange(0, i as int));
            assert(sub.last() == v@[i as int]);
        }
        i += 1;
    }
    proof {
        assert(v@.subrange(0, v@.len() as int) =~= v@);
    }
    out
}

/// The flag word finally handed to the process-creation primitive: the
/// namespace flags together with the signal, if any, the parent is to
/// receive when the child exits.
pub open spec fn spec_clone_flags(flags: i32, signal: Option<i32>) -> i32 {
    match signal {
        Some(s) => flags | s,
        None => flags,
    }
}

pub fn clone_flags(flags: i32, signal: Option<i32>) -> (r: i32)
    ensures
        r == spec_clone_flags(flags, signal),
{
    match signal {
        Some(s) => flags | s,
        None => flags,
    }
}

/// The kernel flags of two distinct namespace kinds share no bit, and each
/// kind's flag is exactly its own bit.
pub proof fn lemma_flag_bits(a: NamespaceType, b: NamespaceType)
    ensures
        (a.spec_flag() & b.spec_flag() != 0) <==> a == b,
{
    let x = a.spec_flag();
    let y = b.spec_flag();
    if a == b {
        assert(x & x == x) by (bit_vector);
    } else {
        assert(x & y == 0) by (bit_vector)
            requires
                (x == 0x20000000i32 || x == 0x40000000i32 || x == 0x20000i32 || x == 0x08000000i32
                    || x == 0x04000000i32 || x == 0x02000000i32 || x == 0x10000000i32) && (y
                    == 0x20000000i32 || y == 0x40000000i32 || y == 0x20000i32 || y
                    == 0x08000000i32 || y == 0x04000000i32 || y == 0x02000000i32 || y
                    == 0x10000000i32) && x != y,
        ;
    }
}

/// Isolation is strictly additive: a kind's bit is set in the flag word
/// exactly when some entry requests a fresh namespace of that kind. In
/// particular, an empty request list (or one that only joins) yields a zero
/// flag word and asks for no isolation at all.
pub proof fn lemma_flags_additive(s: Seq<Namespace>, t: NamespaceType)
    ensures
        (spec_namespace_flags(s) & t.spec_flag() != 0) <==> (exists|i: int|
            0 <= i < s.len() && s[i].is_create_new() && s[i].typ == t),
    decreases s.len(),
{
    let f = t.spec_flag();
    if s.len() == 0 {
        assert(0i32 & f == 0) by (bit_vector);
    } else {
        let prefix = s.drop_last();
        let last = s.last();
        lemma_flags_additive(prefix, t);
        let a = spec_namespace_flags(prefix);
        let c: i32 = if last.is_create_new() {
            last.typ.spec_flag()
        } else {
            0
        };
        assert(spec_namespace_flags(s) == a | c);
        assert(((a | c) & f != 0) <==> ((a & f != 0) || (c & f != 0))) by (bit_vector);
        if last.is_create_new() {
            lemma_flag_bits(last.typ, t);
        } else {
            assert(0i32 & f == 0) by (bit_vector);
        }
        if (a | c) & f != 0 {
            if a & f != 0 {
                let i = choose|i: int|
                    0 <= i < prefix.len() && prefix[i].is_create_new() && prefix[i].typ == t;
                assert(s[i] == prefix[i]);
                assert(0 <= i < s.len() && s[i].is_create_new() && s[i].typ == t);
            } else {
                assert(s[s.len() - 1] == last);
                assert(last.is_create_new() && last.typ == t);
            }
        }
        if exists|i: int| 0 <= i < s.len() && s[i].is_create_new() && s[i].typ == t {
            let i = choose|i: int| 0 <= i < s.len() && s[i].is_create_new() && s[i].typ == t;
            if i < s.len() - 1 {
                assert(prefix[i] == s[i]);
                assert(a & f != 0);
            } else {
                assert(last == s[i]);
                assert(c & f != 0);
            }
        }
    }
}

/// A request list with no "create new" entry yields a zero flag word.
pub proof fn lemma_no_request_no_flags(s: Seq<Namespace>)
    requires
        forall|i: int| 0 <= i < s.len() ==> !(#[trigger] s[i]).is_create_new(),
    ensures
        spec_namespace_flags(s) == 0,
    decreases s.len(),
{
    if s.len() > 0 {
        let prefix = s.drop_last();
        assert(forall|i: int| 0 <= i < prefix.len() ==> prefix[i] == s[i]);
        lemma_no_request_no_flags(prefix);
        assert(s[s.len() - 1] == s.last());
        assert(0i32 | 0i32 == 0i32) by (bit_vector);
    }
}

/// The stack-top address for the process-creation primitive: stacks grow
/// downward, so the primitive expects the highest address of the caller's
/// buffer, rounded down to the platform's 16-byte alignment boundary.
pub fn stack_top(base: usize, len: usize) -> (r: usize)
    requires
        base + len <= usize::MAX,
    ensures
        r % 16 == 0,
        r <= base + len,
        base + len - r < 16,
{
    let top = base + len;
    top - (top % 16)
}

} // verus!
