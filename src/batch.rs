use crate::naming::{
    decrypted_name_spec, encrypted_name_spec, has_encrypted_extension, has_encrypted_extension_spec,
    lemma_file_name_round_trip,
};
use vstd::prelude::*;

verus! {

/// The paths of `paths` whose final extension is exactly "encrypted", in order.
pub open spec fn encrypted_only(paths: Seq<Seq<char>>) -> Seq<Seq<char>> {
    paths.filter(|p: Seq<char>| has_encrypted_extension_spec(p))
}

/// Keeps, in walk order, the files that directory decryption processes.
pub fn select_encrypted(paths: &Vec<String>) -> (r: Vec<String>)
    ensures
        r@.map_values(|s: String| s@) == encrypted_only(paths@.map_values(|s: String| s@)),
{
    let ghost all = paths@.map_values(|s: String| s@);
    let mut r: Vec<String> = Vec::new();
    let mut i: usize = 0;
    while i < paths.len()
        invariant
            i <= paths@.len(),
            all == paths@.map_values(|s: String| s@),
            r@.map_values(|s: String| s@) == encrypted_only(all.subrange(0, i as int)),
        decreases paths.len() - i,
    {
        let keep = has_encrypted_extension(paths[i].as_str());
        proof {
            assert(all.subrange(0, i + 1).drop_last() =~= all.subrange(0, i as int));
            reveal(Seq::filter);
        }
        if keep {
            r.push(paths[i].clone());
        }
        assert(r@.map_values(|s: String| s@) =~= encrypted_only(all.subrange(0, i + 1)));
        i = i + 1;
    }
    assert(all.subrange(0, paths@.len() as int) =~= all);
    r
}

/// A tree's file paths, each named for encryption: directory decryption
/// selects every one of them, in order, and names each back to the path it
/// came from.
pub proof fn lemma_encrypted_tree_round_trip(paths: Seq<Seq<char>>)
    requires
        forall|i: int| 0 <= i < paths.len() ==> #[trigger] paths[i].len() > 0 && paths[i].last() != '/',
    ensures
        encrypted_only(paths.map_values(|p: Seq<char>| encrypted_name_spec(p))) == paths.map_values(
            |p: Seq<char>| encrypted_name_spec(p),
        ),
        paths.map_values(|p: Seq<char>| encrypted_name_spec(p)).map_values(
            |p: Seq<char>| decrypted_name_spec(p),
        ) == paths,
    decreases paths.len(),
{
    let enc = paths.map_values(|p: Seq<char>| encrypted_name_spec(p));
    if paths.len() == 0 {
        reveal(Seq::filter);
        assert(encrypted_only(enc) =~= enc);
        assert(enc.map_values(|p: Seq<char>| decrypted_name_spec(p)) =~= paths);
    } else {
        let init = paths.drop_last();
        assert forall|i: int| 0 <= i < init.len() implies #[trigger] init[i].len() > 0 && init[i].last() != '/' by {
            assert(init[i] == paths[i]);
        }
        lemma_encrypted_tree_round_trip(init);
        let last = paths.last();
        assert(paths[paths.len() - 1].len() > 0);
        lemma_file_name_round_trip(last);
        assert(enc.drop_last() =~= init.map_values(|p: Seq<char>| encrypted_name_spec(p)));
        reveal(Seq::filter);
        assert(encrypted_only(enc) =~= enc);
        let dec = enc.map_values(|p: Seq<char>| decrypted_name_spec(p));
        assert forall|i: int| 0 <= i < paths.len() implies #[trigger] dec[i] == paths[i] by {
            lemma_file_name_round_trip(paths[i]);
        }
        assert(dec =~= paths);
    }
}

/// Progress of a fail-fast batch over `total` files: files are taken in
/// order, and the first failure ends the batch.
pub struct BatchRun {
    total: usize,
    succeeded: usize,
    failed: bool,
}

impl BatchRun {
    pub closed spec fn total(&self) -> nat {
        self.total as nat
    }

    /// Files processed successfully so far.
    pub closed spec fn succeeded(&self) -> nat {
        self.succeeded as nat
    }

    /// Whether a file has failed.
    pub closed spec fn failed(&self) -> bool {
        self.failed
    }

    pub closed spec fn wf(&self) -> bool {
        self.succeeded <= self.total
    }

    /// A batch over `total` files, none processed yet. A batch of no files is
    /// already complete.
    pub fn new(total: usize) -> (r: Self)
        ensures
            r.wf(),
            r.total() == total,
            r.succeeded() == 0,
            !r.failed(),
    {
        BatchRun { total, succeeded: 0, failed: false }
    }

    /// The index of the next file to process, or `None` once every file
    /// succeeded or one failed.
    pub fn next_index(&self) -> (r: Option<usize>)
        requires
            self.wf(),
        ensures
            r == (if self.failed() || self.succeeded() == self.total() {
                None::<usize>
            } else {
                Some(self.succeeded() as usize)
            }),
    {
        if self.failed || self.succeeded == self.total {
            None
        } else {
            Some(self.succeeded)
        }
    }

    /// Records the outcome of the file `next_index` named.
    pub fn record(&mut self, ok: bool)
        requires
            old(self).wf(),
            !old(self).failed(),
            old(self).succeeded() < old(self).total(),
        ensures
            final(self).wf(),
            final(self).total() == old(self).total(),
            final(self).succeeded() == old(self).succeeded() + if ok { 1nat } else { 0nat },
            final(self).failed() == !ok,
    {
        if ok {
            self.succeeded = self.succeeded + 1;
        } else {
            self.failed = true;
        }
    }

    /// Files processed successfully so far.
    pub fn succeeded_count(&self) -> (r: usize)
        ensures
            r == self.succeeded(),
    {
        self.succeeded
    }

    /// Every file was processed and none failed.
    pub fn is_complete(&self) -> (r: bool)
        ensures
            r == (!self.failed() && self.succeeded() == self.total()),
    {
        !self.failed && self.succeeded == self.total
    }
}

} // verus!
