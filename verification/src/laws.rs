use vstd::prelude::*;
use crate::accept::Accept;
use crate::command::Command;
use crate::pages::Pages;
use crate::shaders::ShaderSetView;
use crate::uniform::{clear_flags, find_entry, lemma_find_entry, SharedUniformView, Uniform, UniformData};

verus! {

/// Binding is idempotent: a shader set never sends a bind for the program
/// that is already active.  In particular, after any `use_shader(idx)`, a
/// second `use_shader(idx)` sends nothing, so over any sequence of
/// `use_shader` calls the bind fires exactly when the index differs from the
/// previously active one.
pub proof fn lemma_redundant_bind_eliminated(s: ShaderSetView, idx: usize)
    ensures
        s.used == Some(idx) ==> s.use_shader_emits(idx) == Seq::<Command>::empty(),
        s.spec_use_shader(idx).use_shader_emits(idx) == Seq::<Command>::empty(),
{
}

/// Setting a uniform to the value it already caches is a complete no-op: in
/// particular it does not clear the synchronized flag.  As a round trip:
/// `set_value(v); accept(); set_value(v)` sends exactly one upload, unless
/// the uniform already cached `v` in synchronized state, in which case it
/// sends none; the second `set_value(v)` never causes further traffic.
pub proof fn lemma_uniform_set_accept_set<T: Accept>(u: Uniform<T>, v: T)
    ensures
        v == u.value ==> u.spec_set_value(v) == u,
        ({
            let u1 = u.spec_set_value(v);
            let u2 = u1.spec_accept();
            &&& u2.spec_set_value(v) == u2
            &&& u2.accepted
            &&& u1.accept_emits().len() == (if u.accepted && v == u.value {
                0int
            } else {
                1int
            })
            &&& u2.accept_emits() == Seq::<Command>::empty()
        }),
{
}

/// The page table's lookup discipline: index 0 always answers with the
/// first page, an index the table never grew to is absent, and growing the
/// table (by adding at some index) reserves the indices below the added one:
/// they answer absent until something is stored there.
pub proof fn lemma_pages_lookup<T>(p: Pages<T>, idx: int)
    ensures
        p.spec_get(0) == Some(p.first),
        idx < 0 || idx > p.pages@.len() ==> p.spec_get(idx) is None,
        1 <= idx <= p.pages@.len() ==> p.spec_get(idx) == p.pages@[idx - 1],
{
}

/// At most one renderbuffer per framebuffer, by design: once the bound
/// framebuffer holds a renderbuffer — as it does after every successful
/// `add_renderbuffer`, until a resize rebuilds it — the usage condition
/// `may_add_renderbuffer` is violated, so a verified caller that asks for a
/// second one is rejected.  The fatal usage error of the design is this
/// precondition, not a recoverable result.
pub proof fn lemma_one_renderbuffer_per_framebuffer(fs: crate::framebuffers::FramebufferSet)
    requires
        fs.bound is Some,
        fs.framebuffers@[fs.bound->0 as int].renderbuffer is Some,
    ensures
        !fs.may_add_renderbuffer(),
{
}

/// Two entry tables with the same consumers are searched the same way.
proof fn lemma_find_entry_same_consumers(a: Seq<UniformData>, b: Seq<UniformData>, idx: usize)
    requires
        a.len() == b.len(),
        forall|k: int| 0 <= k < a.len() ==> a[k].shader_idx == b[k].shader_idx,
    ensures
        find_entry(a, idx) == find_entry(b, idx),
    decreases a.len(),
{
    if a.len() > 0 && a[0].shader_idx != idx {
        assert forall|k: int|
            0 <= k < a.drop_first().len() implies a.drop_first()[k].shader_idx
            == b.drop_first()[k].shader_idx by {
            assert(a.drop_first()[k] == a[k + 1]);
            assert(b.drop_first()[k] == b[k + 1]);
        }

        lemma_find_entry_same_consumers(a.drop_first(), b.drop_first(), idx);
    }
}

/// Neither invalidating every copy nor synchronizing one changes which
/// programs consume a shared uniform.
proof fn lemma_shared_transitions_keep_consumers<T: Accept>(
    su: SharedUniformView<T>,
    x: T,
    used: usize,
    idx: usize,
)
    ensures
        find_entry(su.spec_set_value(x).entries, idx) == find_entry(su.entries, idx),
        find_entry(su.spec_accept(used).entries, idx) == find_entry(su.entries, idx),
{
    let cleared = clear_flags(su.entries);
    assert(cleared.len() == su.entries.len());
    assert(forall|k: int|
        0 <= k < su.entries.len() ==> cleared[k].shader_idx == su.entries[k].shader_idx);
    lemma_find_entry_same_consumers(su.spec_set_value(x).entries, su.entries, idx);

    lemma_find_entry(su.entries, used);
    lemma_find_entry_same_consumers(su.spec_accept(used).entries, su.entries, idx);
}

/// A shared uniform consumed by two programs keeps their staleness apart.
/// After `set_value(x)` with a fresh value: accepting while the first
/// program is active uploads `x` to that program's location and leaves the
/// second program's copy stale; accepting while the second program is
/// active then uploads `x` to its location, exactly once — a further accept
/// for it sends nothing.
pub proof fn lemma_shared_uniform_two_consumers<T: Accept>(
    su: SharedUniformView<T>,
    x: T,
    p1: usize,
    p2: usize,
)
    requires
        find_entry(su.entries, p1) is Some,
        find_entry(su.entries, p2) is Some,
        p1 != p2,
        x != su.value,
    ensures
        ({
            let s1 = su.spec_set_value(x);
            let k1 = find_entry(s1.entries, p1)->0;
            let s2 = s1.spec_accept(p1);
            let k2 = find_entry(s2.entries, p2)->0;
            let s3 = s2.spec_accept(p2);
            &&& s1.accept_emits(p1) == seq![
                Command::Upload { location: s1.entries[k1].location, value: x.uniform_value() },
            ]
            &&& !s2.entries[k2].accepted
            &&& s2.accept_emits(p2) == seq![
                Command::Upload { location: s2.entries[k2].location, value: x.uniform_value() },
            ]
            &&& s3.accept_emits(p2) == Seq::<Command>::empty()
        }),
{
    let s1 = su.spec_set_value(x);
    let k1 = find_entry(s1.entries, p1)->0;
    let s2 = s1.spec_accept(p1);
    let k2 = find_entry(s2.entries, p2)->0;
    let s3 = s2.spec_accept(p2);

    lemma_shared_transitions_keep_consumers(su, x, p1, p1);
    lemma_shared_transitions_keep_consumers(su, x, p1, p2);
    lemma_find_entry(su.entries, p1);
    lemma_find_entry(su.entries, p2);
    lemma_find_entry(s1.entries, p1);
    lemma_find_entry(s1.entries, p2);

    assert(s1.entries == clear_flags(su.entries));
    assert(!s1.entries[k1].accepted);
    assert(s1.value == x);

    lemma_shared_transitions_keep_consumers(s1, x, p1, p2);
    lemma_find_entry(s2.entries, p2);

    assert(s1.entries[k1].shader_idx == p1);
    assert(s1.entries[k2].shader_idx == p2);
    assert(k1 != k2);
    assert(s2.entries == s1.entries.update(
        k1,
        UniformData {
            location: s1.entries[k1].location,
            shader_idx: s1.entries[k1].shader_idx,
            accepted: true,
        },
    ));
    assert(s2.entries[k2] == s1.entries[k2]);
    assert(!s2.entries[k2].accepted);
    assert(s2.value == x);

    lemma_shared_transitions_keep_consumers(s2, x, p2, p2);
    assert(s3.entries[k2].accepted);
    assert(find_entry(s3.entries, p2) == Some(k2));
}

} // verus!
