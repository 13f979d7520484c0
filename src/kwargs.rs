use vstd::prelude::*;
use crate::error::{ErrorKind, HostError};

verus! {

/// Whether no key occurs twice among the pairs.
pub open spec fn keys_unique(pairs: Seq<(String, i64)>) -> bool {
    forall|i: int, j: int|
        0 <= i < j < pairs.len() ==> (#[trigger] pairs[i]).0@ != (#[trigger] pairs[j]).0@
}

/// Keyword arguments for a foreign call: names bound to integers, each name
/// once, in the order given.
pub struct KeywordArgs {
    pairs: Vec<(String, i64)>,
}

impl KeywordArgs {
    pub closed spec fn view(&self) -> Seq<(String, i64)> {
        self.pairs@
    }

    /// Builds keyword arguments from pairs; a key given twice is refused
    /// rather than letting one of the values win.
    pub fn from_pairs(pairs: Vec<(String, i64)>) -> (r: Result<KeywordArgs, HostError>)
        ensures
            r is Ok <==> keys_unique(pairs@),
            r is Ok ==> r->Ok_0.view() == pairs@,
            r is Err ==> r->Err_0.kind == ErrorKind::InvalidInput,
    {
        let n = pairs.len();
        let mut i: usize = 0;
        while i < n
            invariant
                n == pairs.len(),
                i <= n,
                forall|a: int, b: int|
                    0 <= a < b < pairs.len() && a < i ==> (#[trigger] pairs@[a]).0@ != (
                    #[trigger] pairs@[b]).0@,
            decreases n - i,
        {
            let mut j: usize = i + 1;
            while j < n
                invariant
                    n == pairs.len(),
                    i < n,
                    i < j <= n,
                    forall|a: int, b: int|
                        0 <= a < b < pairs.len() && a < i ==> (#[trigger] pairs@[a]).0@ != (
                        #[trigger] pairs@[b]).0@,
                    forall|b: int| i < b < j ==> pairs@[i as int].0@ != (#[trigger] pairs@[b]).0@,
                decreases n - j,
            {
                if pairs[i].0 == pairs[j].0 {
                    return Err(
                        HostError {
                            kind: ErrorKind::InvalidInput,
                            message: "keyword argument given twice".to_owned(),
                        },
                    );
                }
                j = j + 1;
            }
            i = i + 1;
        }
        Ok(KeywordArgs { pairs })
    }

    pub fn len(&self) -> (r: usize)
        ensures
            r == self.view().len(),
    {
        self.pairs.len()
    }

    /// The pairs, in the order given.
    pub fn pairs(&self) -> (r: &Vec<(String, i64)>)
        ensures
            r@ == self.view(),
    {
        &self.pairs
    }
}

} // verus!
