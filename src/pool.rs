//! A server pool whose entries are tagged with the source that produced them.
use vstd::prelude::*;

verus! {

/// Where a server entry of the pool came from.
#[derive(Clone, Copy, Debug, PartialEq, Eq, Structural)]
pub enum ServerSource {
    /// Built into the program.
    Default,
    /// Read from the static configuration file.
    Configuration,
    /// Given on the command line.
    CommandLine,
    /// Fetched from a remote Online Config document.
    OnlineConfig,
}

/// One server of the pool with the tag of its source.
pub struct PoolEntry<T> {
    pub source: ServerSource,
    pub server: T,
}

/// The entries of `s` whose source is `src` (`want`) or is not `src` (`!want`), in order.
pub open spec fn keep<T>(s: Seq<PoolEntry<T>>, src: ServerSource, want: bool) -> Seq<PoolEntry<T>>
    decreases s.len(),
{
    if s.len() == 0 {
        Seq::empty()
    } else {
        let rest = keep(s.drop_last(), src, want);
        if (s.last().source == src) == want {
            rest.push(s.last())
        } else {
            rest
        }
    }
}

/// The entries of `s` that some other source than `src` owns.
pub open spec fn others<T>(s: Seq<PoolEntry<T>>, src: ServerSource) -> Seq<PoolEntry<T>> {
    keep(s, src, false)
}

/// The entries of `s` that `src` owns.
pub open spec fn owned_by<T>(s: Seq<PoolEntry<T>>, src: ServerSource) -> Seq<PoolEntry<T>> {
    keep(s, src, true)
}

/// `servers`, each tagged with `src`.
pub open spec fn tagged<T>(servers: Seq<T>, src: ServerSource) -> Seq<PoolEntry<T>> {
    Seq::new(servers.len(), |i: int| PoolEntry { source: src, server: servers[i] })
}

/// The pool `s` once the entries of `src` are replaced by `servers`.
pub open spec fn replaced<T>(s: Seq<PoolEntry<T>>, servers: Seq<T>, src: ServerSource) -> Seq<
    PoolEntry<T>,
> {
    others(s, src) + tagged(servers, src)
}

/// Filtering distributes over concatenation.
pub proof fn lemma_keep_concat<T>(a: Seq<PoolEntry<T>>, b: Seq<PoolEntry<T>>, src: ServerSource, want: bool)
    ensures
        keep(a + b, src, want) == keep(a, src, want) + keep(b, src, want),
    decreases b.len(),
{
    if b.len() == 0 {
        assert(a + b =~= a);
        assert(keep(b, src, want) =~= Seq::<PoolEntry<T>>::empty());
        assert(keep(a, src, want) + keep(b, src, want) =~= keep(a, src, want));
    } else {
        lemma_keep_concat(a, b.drop_last(), src, want);
        assert((a + b).drop_last() =~= a + b.drop_last());
        assert((a + b).last() == b.last());
        if (b.last().source == src) == want {
            assert(keep(a, src, want) + keep(b, src, want) =~= (keep(a, src, want) + keep(
                b.drop_last(),
                src,
                want,
            )).push(b.last()));
        }
    }
}

/// Every entry of `keep(s, src, want)` has the wanted tag, and filtering twice changes nothing.
pub proof fn lemma_keep_idempotent<T>(s: Seq<PoolEntry<T>>, src: ServerSource, want: bool)
    ensures
        keep(keep(s, src, want), src, want) == keep(s, src, want),
        keep(keep(s, src, want), src, !want) == Seq::<PoolEntry<T>>::empty(),
    decreases s.len(),
{
    if s.len() > 0 {
        lemma_keep_idempotent(s.drop_last(), src, want);
        let rest = keep(s.drop_last(), src, want);
        if (s.last().source == src) == want {
            assert(rest.push(s.last()).drop_last() =~= rest);
        }
    }
}

/// Entries all tagged with `src` are all kept by `owned_by` and all dropped by `others`.
pub proof fn lemma_keep_tagged<T>(servers: Seq<T>, src: ServerSource)
    ensures
        owned_by(tagged(servers, src), src) == tagged(servers, src),
        others(tagged(servers, src), src) == Seq::<PoolEntry<T>>::empty(),
    decreases servers.len(),
{
    if servers.len() > 0 {
        let init = servers.drop_last();
        lemma_keep_tagged(init, src);
        assert(tagged(servers, src).drop_last() =~= tagged(init, src));
        assert(tagged(init, src).push(tagged(servers, src).last()) =~= tagged(servers, src));
    }
}

/// Replacing the entries of `src` leaves exactly `servers`, tagged with `src`, as the
/// entries of `src` (so as many as there are servers), and the entries of every other
/// source as they were, in content and in order.
pub proof fn lemma_replace_scoped<T>(pool: Seq<PoolEntry<T>>, servers: Seq<T>, src: ServerSource)
    ensures
        owned_by(replaced(pool, servers, src), src) == tagged(servers, src),
        owned_by(replaced(pool, servers, src), src).len() == servers.len(),
        others(replaced(pool, servers, src), src) == others(pool, src),
{
    lemma_keep_concat(others(pool, src), tagged(servers, src), src, true);
    lemma_keep_concat(others(pool, src), tagged(servers, src), src, false);
    lemma_keep_idempotent(pool, src, false);
    lemma_keep_tagged(servers, src);
    assert(Seq::<PoolEntry<T>>::empty() + tagged(servers, src) =~= tagged(servers, src));
    assert(others(pool, src) + Seq::<PoolEntry<T>>::empty() =~= others(pool, src));
}

/// Replacing the entries of `src` with the same servers a second time changes nothing.
pub proof fn lemma_replace_idempotent<T>(pool: Seq<PoolEntry<T>>, servers: Seq<T>, src: ServerSource)
    ensures
        replaced(replaced(pool, servers, src), servers, src) == replaced(pool, servers, src),
{
    lemma_replace_scoped(pool, servers, src);
}

/// A mutable collection of servers, each tagged with the source that produced it.
pub struct ServerPool<T> {
    entries: Vec<PoolEntry<T>>,
}

impl<T> View for ServerPool<T> {
    type V = Seq<PoolEntry<T>>;

    closed spec fn view(&self) -> Seq<PoolEntry<T>> {
        self.entries@
    }
}

impl<T> ServerPool<T> {
    /// An empty pool.
    pub fn new() -> (r: Self)
        ensures
            r@ == Seq::<PoolEntry<T>>::empty(),
    {
        ServerPool { entries: Vec::new() }
    }

    /// Adds one server owned by `source` at the end of the pool.
    pub fn add(&mut self, source: ServerSource, server: T)
        ensures
            final(self)@ == old(self)@.push(PoolEntry { source, server }),
    {
        self.entries.push(PoolEntry { source, server });
    }

    /// The number of servers in the pool.
    pub fn len(&self) -> (r: usize)
        ensures
            r == self@.len(),
    {
        self.entries.len()
    }

    /// The entries of the pool, in order.
    pub fn entries(&self) -> (r: &Vec<PoolEntry<T>>)
        ensures
            r@ == self@,
    {
        &self.entries
    }

    /// Replaces every entry owned by `source` with `servers`, tagged with `source`.
    /// Entries of other sources keep their content and their order.
    pub fn reset_servers(&mut self, servers: Vec<T>, source: ServerSource)
        ensures
            final(self)@ == replaced(old(self)@, servers@, source),
    {
        let ghost orig = self.entries@;
        let mut i: usize = 0;
        let ghost mut k: int = 0;
        while i < self.entries.len()
            invariant
                0 <= k <= orig.len(),
                i == others(orig.take(k), source).len(),
                self.entries@ == others(orig.take(k), source) + orig.skip(k),
            decreases orig.len() - k,
        {
            proof {
                assert(orig.take(k + 1).drop_last() =~= orig.take(k));
                assert(orig.take(k + 1).last() == orig[k]);
                assert(self.entries@[i as int] == orig[k]);
                assert(orig.skip(k).drop_first() =~= orig.skip(k + 1));
            }
            if self.entries[i].source == source {
                let _ = self.entries.remove(i);
                proof {
                    assert(self.entries@ =~= others(orig.take(k + 1), source) + orig.skip(k + 1));
                }
            } else {
                proof {
                    assert(self.entries@ =~= others(orig.take(k + 1), source) + orig.skip(k + 1));
                }
                i = i + 1;
            }
            proof {
                k = k + 1;
            }
        }
        proof {
            assert(orig.take(k) =~= orig);
            assert(self.entries@ =~= others(orig, source));
        }
        let ghost base = self.entries@;
        let mut rest = servers;
        let ghost all = rest@;
        while rest.len() > 0
            invariant
                0 <= rest@.len() <= all.len(),
                rest@ == all.skip(all.len() - rest@.len()),
                self.entries@ == base + tagged(all.take(all.len() - rest@.len()), source),
            decreases rest@.len(),
        {
            let ghost j = all.len() - rest@.len();
            let server = rest.remove(0);
            self.entries.push(PoolEntry { source, server });
            proof {
                assert(rest@ =~= all.skip(j + 1));
                assert(tagged(all.take(j + 1), source) =~= tagged(all.take(j), source).push(
                    PoolEntry { source, server },
                ));
            }
        }
        proof {
            assert(all.take(all.len() as int) =~= all);
        }
    }
}

} // verus!
