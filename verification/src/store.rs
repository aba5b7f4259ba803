//! The pull-request store: records kept in insertion order with identities
//! assigned sequentially from one. Every accepted "opened" event creates a
//! new record; the store performs no deduplication by (repository, number).

use vstd::prelude::*;

use crate::payload::PullRequestParams;
use crate::text::str_eq;

verus! {

/// A persisted pull-request record.
#[derive(Debug, PartialEq)]
pub struct PullRequest {
    /// The surrogate key assigned by the store.
    pub id: i32,
    /// The repository identifier, in `owner/name` form.
    pub repository: String,
    /// The pull-request number, kept as text.
    pub number: String,
    /// The head commit SHA.
    pub head_sha: String,
    /// The lifecycle status, such as "opened".
    pub status: String,
}

/// The number of records in a row sequence whose repository equals the given
/// one.
pub open spec fn repo_count(rows: Seq<PullRequest>, repository: Seq<char>) -> nat
    decreases rows.len(),
{
    if rows.len() == 0 {
        0
    } else {
        repo_count(rows.drop_last(), repository) + (if rows.last().repository@ == repository {
            1nat
        } else {
            0nat
        })
    }
}

/// Inserting one record raises the count of its own repository by exactly one
/// and leaves the count of every other repository unchanged.
pub proof fn lemma_repo_count_push(rows: Seq<PullRequest>, pr: PullRequest, repository: Seq<char>)
    ensures
        repo_count(rows.push(pr), repository) == repo_count(rows, repository) + (
        if pr.repository@ == repository {
            1nat
        } else {
            0nat
        }),
{
    assert(rows.push(pr).drop_last() =~= rows);
}

/// The record store.
pub struct PullRequestStore {
    rows: Vec<PullRequest>,
}

impl PullRequestStore {
    /// The stored records, in insertion order.
    pub closed spec fn rows(&self) -> Seq<PullRequest> {
        self.rows@
    }

    /// Well-formedness: identities run sequentially from one.
    pub open spec fn wf(&self) -> bool {
        &&& self.rows().len() <= i32::MAX
        &&& forall|i: int| 0 <= i < self.rows().len() ==> self.rows()[i].id == i + 1
    }

    /// Returns an empty store.
    pub fn new() -> (r: Self)
        ensures
            r.wf(),
            r.rows() == Seq::<PullRequest>::empty(),
    {
        PullRequestStore { rows: Vec::new() }
    }

    /// Returns how many records are stored.
    pub fn len(&self) -> (n: usize)
        ensures
            n == self.rows().len(),
    {
        self.rows.len()
    }

    /// Inserts one new record built from the creation request and returns the
    /// stored record, including its assigned identity. The write is
    /// all-or-nothing and never merges with an existing record.
    pub fn create(&mut self, params: PullRequestParams) -> (r: PullRequest)
        requires
            old(self).wf(),
            old(self).rows().len() < i32::MAX,
        ensures
            final(self).wf(),
            final(self).rows() == old(self).rows().push(r),
            r.id == old(self).rows().len() + 1,
            r.repository@ == params.repository@,
            r.number@ == params.number@,
            r.head_sha@ == params.head_sha@,
            r.status@ == params.status@,
    {
        let id = (self.rows.len() as i32) + 1;
        let stored = PullRequest {
            id,
            repository: params.repository.clone(),
            number: params.number.clone(),
            head_sha: params.head_sha.clone(),
            status: params.status.clone(),
        };
        self.rows.push(
            PullRequest {
                id,
                repository: params.repository,
                number: params.number,
                head_sha: params.head_sha,
                status: params.status,
            },
        );
        stored
    }

    /// Returns how many stored records point at the given repository.
    pub fn count_by_repository(&self, repository: &str) -> (n: usize)
        ensures
            n == repo_count(self.rows(), repository@),
    {
        let mut n: usize = 0;
        let mut i: usize = 0;
        while i < self.rows.len()
            invariant
                i <= self.rows().len(),
                n <= i,
                n == repo_count(self.rows().take(i as int), repository@),
            decreases self.rows().len() - i,
        {
            if str_eq(self.rows[i].repository.as_str(), repository) {
                n = n + 1;
            }
            i = i + 1;
            proof {
                assert(self.rows().take(i as int).drop_last() =~= self.rows().take(i - 1));
                assert(self.rows().take(i as int).last() == self.rows()[i - 1]);
            }
        }
        proof {
            assert(self.rows().take(self.rows().len() as int) =~= self.rows());
        }
        n
    }
}

/// Returns a copy of one record.
fn copy_record(pr: &PullRequest) -> (r: PullRequest)
    ensures
        r == *pr,
{
    let r = PullRequest {
        id: pr.id,
        repository: pr.repository.clone(),
        number: pr.number.clone(),
        head_sha: pr.head_sha.clone(),
        status: pr.status.clone(),
    };
    r
}

/// Returns the stored records in insertion order, at most one hundred of
/// them, as the listing endpoint reports them.
pub fn index(store: &PullRequestStore) -> (r: Vec<PullRequest>)
    ensures
        r@.len() == if store.rows().len() < 100 {
            store.rows().len()
        } else {
            100nat
        },
        forall|i: int| 0 <= i < r@.len() ==> r@[i] == store.rows()[i],
{
    let total = store.rows.len();
    let limit = if total < 100 {
        total
    } else {
        100
    };
    let mut out: Vec<PullRequest> = Vec::new();
    let mut i: usize = 0;
    while i < limit
        invariant
            limit <= store.rows().len(),
            i <= limit,
            out@.len() == i,
            forall|j: int| 0 <= j < i ==> out@[j] == store.rows()[j],
        decreases limit - i,
    {
        out.push(copy_record(&store.rows[i]));
        i = i + 1;
    }
    out
}

} // verus!
