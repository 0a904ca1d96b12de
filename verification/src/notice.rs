//! What the backend is told when a job is done.

use vstd::prelude::*;
use vstd::string::{StrSliceExecFns, StringExecFns};

verus! {

/// Position at which the last segment of `path` begins: just after the last
/// `/`, or at the front when there is none.
pub open spec fn segment_start(path: Seq<char>) -> nat
    decreases path.len(),
{
    if path.len() == 0 || path.last() == '/' {
        path.len()
    } else {
        segment_start(path.drop_last())
    }
}

/// The last segment of `path`: what follows its last `/`, or all of it when
/// there is none. It is empty when `path` ends in `/`.
pub open spec fn last_segment(path: Seq<char>) -> Seq<char> {
    path.skip(segment_start(path) as int)
}

/// The notice that a job is done.
#[derive(Debug)]
pub struct Notification {
    /// Identifier of the job: the last segment of its target directory.
    pub id: String,
    /// Status of the job.
    pub status: String,
}

proof fn lemma_segment_start(path: Seq<char>, k: int)
    requires
        0 <= k <= path.len(),
        forall|j: int| k <= j < path.len() ==> #[trigger] path[j] != '/',
        k == 0 || path[k - 1] == '/',
    ensures
        segment_start(path) == k,
    decreases path.len(),
{
    if k < path.len() {
        lemma_segment_start(path.drop_last(), k);
    }
}

/// The last segment holds no `/`, and the path is what stands before it
/// followed by it.
pub proof fn lemma_last_segment(path: Seq<char>)
    ensures
        segment_start(path) <= path.len(),
        forall|i: int| 0 <= i < last_segment(path).len() ==> #[trigger] last_segment(path)[i] != '/',
        segment_start(path) > 0 ==> path[segment_start(path) - 1] == '/',
        path.take(segment_start(path) as int) + last_segment(path) == path,
    decreases path.len(),
{
    if !(path.len() == 0 || path.last() == '/') {
        lemma_last_segment(path.drop_last());
        assert forall|i: int| 0 <= i < last_segment(path).len() implies #[trigger] last_segment(
            path,
        )[i] != '/' by {
            if i < last_segment(path).len() - 1 {
                assert(last_segment(path)[i] == last_segment(path.drop_last())[i]);
            }
        }
    }
    assert(path.take(segment_start(path) as int) + last_segment(path) =~= path);
}

/// Extracts the identifier of a job from its target directory.
pub fn job_id(target: &str) -> (id: String)
    ensures
        id@ == last_segment(target@),
{
    let n = target.unicode_len();
    let mut start: usize = n;
    while start > 0 && target.get_char(start - 1) != '/'
        invariant
            start <= n == target@.len(),
            forall|j: int| start <= j < n ==> #[trigger] target@[j] != '/',
        decreases start,
    {
        start -= 1;
    }
    proof {
        lemma_segment_start(target@, start as int);
    }
    String::from_str(target.substring_char(start, n))
}

/// The status that a finished job is reported with.
pub open spec fn created_status() -> Seq<char> {
    "CREATED"@
}

/// Builds the notice for the job that wrote to `target`.
pub fn completion_notice(target: &str) -> (notice: Notification)
    ensures
        notice.id@ == last_segment(target@),
        notice.status@ == created_status(),
{
    Notification { id: job_id(target), status: String::from_str("CREATED") }
}

} // verus!
