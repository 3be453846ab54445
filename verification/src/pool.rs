//! The credential pool: a fixed, non-empty sequence of database credentials
//! shared by all request handlers, populated once at startup from
//! configuration. Either an explicit list of credential groups is given, each
//! replicated into the pool according to its configured connection count, or
//! a single primary credential is replicated a fixed default number of times.
//! Selection is uniformly random per connection attempt.

use rand::Rng;
use vstd::prelude::*;

verus! {

/// Historical bound on concurrent database connections; the default pool
/// holds one entry fewer than this.
pub const MAX_CONCURRENT_DB_CONNECTIONS: u64 = 10;

/// Connection count used for a credential group whose configured count is
/// absent or zero.
pub const DEFAULT_GROUP_CONNECTIONS: u64 = 5;

/// A database login: a username and its secret. Immutable once loaded.
pub struct Credential {
    pub user: String,
    pub password: String,
}

/// One configured credential group: a credential plus the number of pool
/// entries it should contribute. A `connections` of zero stands for an
/// absent count and falls back to the default.
pub struct CredGroup {
    pub user: String,
    pub password: String,
    pub connections: u64,
}

/// How many pool entries a group contributes: its configured count, or the
/// default where the count is absent or zero. Always at least one.
pub open spec fn effective_count(g: CredGroup) -> nat {
    if g.connections == 0 {
        DEFAULT_GROUP_CONNECTIONS as nat
    } else {
        g.connections as nat
    }
}

/// The credential a group contributes.
pub open spec fn credential_of(g: CredGroup) -> Credential {
    Credential { user: g.user, password: g.password }
}

/// `n` copies of one credential.
pub open spec fn repeat_cred(c: Credential, n: nat) -> Seq<Credential> {
    Seq::new(n, |i: int| c)
}

/// The pool built from a list of credential groups: each group's credential,
/// replicated its effective count of times, in configuration order.
pub open spec fn flatten_pool(groups: Seq<CredGroup>) -> Seq<Credential>
    decreases groups.len(),
{
    if groups.len() == 0 {
        Seq::empty()
    } else {
        flatten_pool(groups.drop_last()) + repeat_cred(
            credential_of(groups.last()),
            effective_count(groups.last()),
        )
    }
}

/// The total connection count a list of groups configures: the sum of each
/// group's effective count.
pub open spec fn total_connections(groups: Seq<CredGroup>) -> nat
    decreases groups.len(),
{
    if groups.len() == 0 {
        0
    } else {
        total_connections(groups.drop_last()) + effective_count(groups.last())
    }
}

/// Law: the constructed pool's size equals the sum of the groups' configured
/// connection counts (each at least one, so the pool holds at least one entry
/// per group).
pub proof fn lemma_pool_size(groups: Seq<CredGroup>)
    ensures
        flatten_pool(groups).len() == total_connections(groups),
        flatten_pool(groups).len() >= groups.len(),
    decreases groups.len(),
{
    if groups.len() > 0 {
        lemma_pool_size(groups.drop_last());
    }
}

/// Builds the pool from an explicit list of credential groups: each group's
/// credential is replicated into the pool its effective count of times.
pub fn build_pool(groups: &Vec<CredGroup>) -> (r: Vec<Credential>)
    ensures
        r@ == flatten_pool(groups@),
{
    let mut pool: Vec<Credential> = Vec::new();
    let mut i: usize = 0;
    while i < groups.len()
        invariant
            i <= groups@.len(),
            pool@ == flatten_pool(groups@.take(i as int)),
        decreases groups@.len() - i,
    {
        let g = &groups[i];
        let count: u64 = if g.connections == 0 {
            DEFAULT_GROUP_CONNECTIONS
        } else {
            g.connections
        };
        assert(count as nat == effective_count(groups@[i as int]));
        let mut j: u64 = 0;
        while j < count
            invariant
                j <= count,
                i < groups@.len(),
                g == groups@[i as int],
                count as nat == effective_count(groups@[i as int]),
                pool@ == flatten_pool(groups@.take(i as int)) + repeat_cred(
                    credential_of(groups@[i as int]),
                    j as nat,
                ),
            decreases count - j,
        {
            let entry = Credential { user: g.user.clone(), password: g.password.clone() };
            proof {
                assert(repeat_cred(credential_of(groups@[i as int]), (j + 1) as nat)
                    =~= repeat_cred(credential_of(groups@[i as int]), j as nat).push(entry));
            }
            pool.push(entry);
            j = j + 1;
        }
        proof {
            let gs = groups@;
            assert(gs.take(i + 1).drop_last() =~= gs.take(i as int));
            assert(gs.take(i + 1).last() == gs[i as int]);
        }
        i = i + 1;
    }
    proof {
        assert(groups@.take(groups@.len() as int) =~= groups@);
    }
    pool
}

/// Builds the default pool used when no credential-group list is configured:
/// the primary credential replicated a fixed number of times (one fewer than
/// the concurrent-connection bound).
pub fn build_default_pool(user: &String, password: &String) -> (r: Vec<Credential>)
    ensures
        r@ == repeat_cred(
            Credential { user: *user, password: *password },
            (MAX_CONCURRENT_DB_CONNECTIONS - 1) as nat,
        ),
        r@.len() == MAX_CONCURRENT_DB_CONNECTIONS - 1,
{
    let mut pool: Vec<Credential> = Vec::new();
    let n: u64 = MAX_CONCURRENT_DB_CONNECTIONS - 1;
    let mut j: u64 = 0;
    while j < n
        invariant
            j <= n,
            pool@ == repeat_cred(Credential { user: *user, password: *password }, j as nat),
        decreases n - j,
    {
        let entry = Credential { user: user.clone(), password: password.clone() };
        proof {
            assert(repeat_cred(Credential { user: *user, password: *password }, (j + 1) as nat)
                =~= repeat_cred(Credential { user: *user, password: *password }, j as nat).push(
                entry,
            ));
        }
        pool.push(entry);
        j = j + 1;
    }
    pool
}

/// Relies on `rand::Rng::gen_range` over the thread-local generator
/// `rand::thread_rng`: returns an index drawn uniformly from `0..len`; the
/// range is non-empty, so the call does not panic and the result is below
/// `len`.
#[verifier::external_body]
fn random_index(len: usize) -> (r: usize)
    requires
        len > 0,
    ensures
        r < len,
{
    rand::thread_rng().gen_range(0..len)
}

/// Picks one credential from the pool, chosen uniformly at random. The pool
/// must be non-empty; by construction it always is.
pub fn choose_credential(pool: &Vec<Credential>) -> (r: &Credential)
    requires
        pool@.len() > 0,
    ensures
        exists|i: int| 0 <= i < pool@.len() && *r == pool@[i],
{
    let i = random_index(pool.len());
    &pool[i]
}

} // verus!
