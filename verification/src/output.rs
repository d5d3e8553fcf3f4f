//! Object artifacts: the compiled-but-unlinked output of source units, and
//! the append-only collection that the link stage later consumes whole.

use vstd::prelude::*;

verus! {

/// One object artifact: its output path and its modification time ("now" on
/// a fresh compile, the on-disk timestamp on cache reuse).
#[derive(Debug)]
pub struct Object {
    pub path: String,
    pub modified: Option<u64>,
}

/// The collection of produced object artifacts. Workers append under mutual
/// exclusion; the link stage reads it frozen.
pub struct ObjectCollection {
    pub objects: Vec<Object>,
}

impl ObjectCollection {
    /// The collected object paths, in append order.
    pub open spec fn paths(&self) -> Seq<Seq<char>> {
        self.objects@.map_values(|o: Object| o.path@)
    }

    /// An empty collection.
    pub fn new() -> (r: ObjectCollection)
        ensures
            r.objects@ =~= Seq::<Object>::empty(),
    {
        ObjectCollection { objects: Vec::new() }
    }

    /// Appends one artifact.
    pub fn push(&mut self, obj: Object)
        ensures
            final(self).objects@ == old(self).objects@.push(obj),
    {
        self.objects.push(obj);
    }

    /// The object paths as one argument vector for a linker invocation.
    pub fn to_args(&self) -> (r: Vec<String>)
        ensures
            r.deep_view() == self.paths(),
    {
        let mut arg_str: Vec<String> = Vec::new();
        let n = self.objects.len();
        let mut i: usize = 0;
        while i < n
            invariant
                i <= n,
                n == self.objects.len(),
                arg_str.deep_view() =~= self.paths().take(i as int),
            decreases n - i,
        {
            let ghost prev = arg_str.deep_view();
            arg_str.push(self.objects[i].path.clone());
            proof {
                assert(prev.len() == i);
                assert(arg_str@.len() == i + 1);
                assert(arg_str.deep_view().len() == i + 1);
                assert forall|j: int| 0 <= j <= i implies arg_str.deep_view()[j]
                    == self.paths()[j] by {
                    if j < i {
                        assert(arg_str.deep_view()[j] == prev[j]);
                        assert(prev[j] == self.paths().take(i as int)[j]);
                    } else {
                        assert(arg_str.deep_view()[j] == arg_str@[j]@);
                        assert(arg_str@[j] == self.objects@[j].path);
                    }
                }
                assert(arg_str.deep_view() =~= self.paths().take(i + 1));
            }
            i = i + 1;
        }
        proof {
            assert(self.paths().take(n as int) =~= self.paths());
        }
        arg_str
    }
}

} // verus!
