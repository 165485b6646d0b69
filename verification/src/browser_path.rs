use vstd::prelude::*;

verus! {

/// An operating system a browser may be installed on.
#[derive(Clone, Copy, Debug, PartialEq, Eq, Structural)]
pub enum Os {
    Windows,
    MacOs,
    Linux,
}

/// A browser's distribution track.
#[derive(Clone, Copy, Debug, PartialEq, Eq, Structural)]
pub enum ReleaseChannel {
    Stable,
    Beta,
    Dev,
    Nightly,
}

/// A key of the path table: one release channel of a browser on one
/// operating system.
#[derive(Clone, Copy, Debug, PartialEq, Eq, Structural)]
pub struct BrowserPath {
    pub os: Os,
    pub channel: ReleaseChannel,
}

impl BrowserPath {
    pub fn new(os: Os, channel: ReleaseChannel) -> (r: BrowserPath)
        ensures
            r.os == os,
            r.channel == channel,
    {
        BrowserPath { os, channel }
    }
}

/// A browser's table of installation paths, with at most one path per
/// (operating system, release channel) pair.  A pair absent from the table
/// means the channel is unsupported on that system; looking it up reports
/// that, it never panics and never hands back another pair's path.
pub struct PathTable {
    entries: Vec<(BrowserPath, String)>,
}

impl PathTable {
    /// Key uniqueness: the table holds at most one entry per pair.
    pub closed spec fn wf(&self) -> bool {
        forall|i: int, j: int|
            0 <= i < j < self.entries@.len() ==> (#[trigger] self.entries@[i]).0 != (
            #[trigger] self.entries@[j]).0
    }

    pub closed spec fn spec_contains(&self, key: BrowserPath) -> bool {
        exists|i: int| 0 <= i < self.entries@.len() && (#[trigger] self.entries@[i]).0 == key
    }

    closed spec fn key_index(&self, key: BrowserPath) -> int {
        choose|i: int| 0 <= i < self.entries@.len() && (#[trigger] self.entries@[i]).0 == key
    }

    /// The path stored for a pair; meaningful only when the pair is present.
    pub closed spec fn spec_path(&self, key: BrowserPath) -> Seq<char> {
        self.entries@[self.key_index(key)].1@
    }

    proof fn lemma_key_index(&self, key: BrowserPath)
        requires
            self.wf(),
            self.spec_contains(key),
        ensures
            0 <= self.key_index(key) < self.entries@.len(),
            self.entries@[self.key_index(key)].0 == key,
            forall|i: int|
                0 <= i < self.entries@.len() && (#[trigger] self.entries@[i]).0 == key ==> i
                    == self.key_index(key),
    {
        let ki = self.key_index(key);
        assert(0 <= ki < self.entries@.len() && self.entries@[ki].0 == key);
        assert forall|i: int|
            0 <= i < self.entries@.len() && (#[trigger] self.entries@[i]).0 == key implies i
            == ki by {
            if i < ki {
                assert(self.entries@[i].0 != self.entries@[ki].0);
            } else if ki < i {
                assert(self.entries@[ki].0 != self.entries@[i].0);
            }
        }
    }

    /// A table with no supported pair at all.
    pub fn empty() -> (r: PathTable)
        ensures
            r.wf(),
            forall|k: BrowserPath| !r.spec_contains(k),
    {
        PathTable { entries: Vec::new() }
    }

    /// Records the installation path for a pair not yet in the table.
    pub fn add(&mut self, os: Os, channel: ReleaseChannel, path: String)
        requires
            old(self).wf(),
            !old(self).spec_contains(BrowserPath { os, channel }),
        ensures
            final(self).wf(),
            final(self).spec_contains(BrowserPath { os, channel }),
            final(self).spec_path(BrowserPath { os, channel }) == path@,
            forall|k: BrowserPath|
                k != (BrowserPath { os, channel }) ==> #[trigger] final(self).spec_contains(k)
                    == old(self).spec_contains(k),
            forall|k: BrowserPath|
                k != (BrowserPath { os, channel }) && old(self).spec_contains(k)
                    ==> #[trigger] final(self).spec_path(k) == old(self).spec_path(k),
    {
        let key = BrowserPath { os, channel };
        let n = self.entries.len();
        self.entries.push((key, path));
        proof {
            let post = self.entries@;
            let pre = old(self).entries@;
            assert(post == pre.push((key, path)));
            assert forall|i: int, j: int| 0 <= i < j < post.len() implies (#[trigger] post[i]).0
                != (#[trigger] post[j]).0 by {
                if j < pre.len() {
                    assert(pre[i].0 != pre[j].0);
                } else {
                    assert(post[j].0 == key);
                    assert(post[i].0 == pre[i].0);
                    assert(!old(self).spec_contains(key));
                }
            }
            assert(post[n as int].0 == key);
            self.lemma_key_index(key);
            assert forall|k: BrowserPath| k != key implies #[trigger] self.spec_contains(k)
                == old(self).spec_contains(k) by {
                if self.spec_contains(k) {
                    let i = choose|i: int| 0 <= i < post.len() && (#[trigger] post[i]).0 == k;
                    assert(i < pre.len());
                    assert(pre[i].0 == k);
                }
                if old(self).spec_contains(k) {
                    let i = choose|i: int| 0 <= i < pre.len() && (#[trigger] pre[i]).0 == k;
                    assert(post[i].0 == k);
                }
            }
            assert forall|k: BrowserPath|
                k != key && old(self).spec_contains(k) implies #[trigger] self.spec_path(k)
                == old(self).spec_path(k) by {
                self.lemma_key_index(k);
                old(self).lemma_key_index(k);
                let i = old(self).key_index(k);
                assert(post[i].0 == k);
                assert(self.key_index(k) == i);
            }
        }
    }

    /// Path lookup: the stored path when the pair is supported, nothing
    /// when it is absent.
    pub fn lookup(&self, os: Os, channel: ReleaseChannel) -> (r: Option<&String>)
        requires
            self.wf(),
        ensures
            match r {
                Some(p) => self.spec_contains(BrowserPath { os, channel }) && p@ == self.spec_path(
                    BrowserPath { os, channel },
                ),
                None => !self.spec_contains(BrowserPath { os, channel }),
            },
    {
        let key = BrowserPath { os, channel };
        let n = self.entries.len();
        let mut i: usize = 0;
        while i < n
            invariant
                self.wf(),
                n == self.entries@.len(),
                i <= n,
                key == (BrowserPath { os, channel }),
                forall|j: int| 0 <= j < i ==> (#[trigger] self.entries@[j]).0 != key,
            decreases n - i,
        {
            let e = &self.entries[i];
            if e.0 == key {
                proof {
                    self.lemma_key_index(key);
                }
                return Some(&e.1);
            }
            i = i + 1;
        }
        None
    }

    /// How many pairs the table supports.
    pub closed spec fn spec_len(&self) -> nat {
        self.entries@.len()
    }

    /// How many pairs the table supports.
    pub fn len(&self) -> (r: usize)
        ensures
            r == self.spec_len(),
    {
        self.entries.len()
    }
}

} // verus!
