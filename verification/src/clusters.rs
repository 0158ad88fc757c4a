//! Named groups of anchors.

use crate::contract::{carried_out, first_of, unless, AnchorKitContract};
use crate::data::{contents, present, present_of_all, Address, Duplicate, Text};
use crate::env::{Env, State};
use crate::stores::RoutingState;
use crate::table::{longer, put, read, written};
use crate::types::{AnchorCluster, AnchorClusterView, ErrorCode, PERSISTENT_TTL};
use vstd::prelude::*;

verus! {

impl State {
    /// The cluster with a name.
    pub open spec fn cluster(self, name: Seq<u8>) -> Option<AnchorClusterView> {
        read(self.routing.clusters, name)
    }

    /// Why `create_anchor_cluster` is refused.
    pub open spec fn create_cluster_refusal(self, name: Seq<u8>) -> Option<ErrorCode> {
        first_of(
            self.admin_refusal(),
            unless(self.cluster(name) is None, ErrorCode::ValidationError),
        )
    }

    /// The state after `create_anchor_cluster`.
    pub open spec fn create_cluster_effect(self, name: Seq<u8>, anchors: Seq<Seq<u8>>) -> State {
        State {
            routing: RoutingState {
                clusters: put(
                    self.routing.clusters,
                    name,
                    AnchorClusterView { name, anchors, created_at: self.now() },
                    PERSISTENT_TTL,
                ),
                cluster_names: self.routing.cluster_names.push(name),
                cluster_names_ttl: longer(self.routing.cluster_names_ttl, PERSISTENT_TTL),
                ..self.routing
            },
            ..self
        }
    }

    /// The clusters by the order in which they were made, each if it is known.
    pub open spec fn named_clusters(self) -> Seq<Option<AnchorClusterView>> {
        Seq::new(
            self.routing.cluster_names.len(),
            |i: int| self.cluster(self.routing.cluster_names[i]),
        )
    }
}

impl AnchorKitContract {
    /// Makes a named group of anchors. A name is given once. Only the
    /// administrator may.
    pub fn create_anchor_cluster(env: &mut Env, name: Text, anchors: Vec<Address>) -> (r: Result<
        (),
        ErrorCode,
    >)
        ensures
            carried_out(
                r,
                old(env)@,
                final(env)@,
                old(env)@.create_cluster_refusal(name@),
                old(env)@.create_cluster_effect(name@, contents(anchors@)),
            ),
    {
        match env.require_admin() {
            Ok(_) => {},
            Err(e) => return Err(e),
        }
        if env.routing.clusters.has(&name) {
            return Err(ErrorCode::ValidationError);
        }
        let cluster = AnchorCluster {
            name: name.dup(),
            anchors,
            created_at: env.ledger.timestamp,
        };
        env.routing.clusters.set(name.dup(), cluster, PERSISTENT_TTL);
        let ghost before = env.routing.cluster_names@;
        env.routing.cluster_names.push(name);
        assert(contents(env.routing.cluster_names@) =~= contents(before).push(name@));
        if env.routing.cluster_names_ttl < PERSISTENT_TTL {
            env.routing.cluster_names_ttl = PERSISTENT_TTL;
        }
        Ok(())
    }

    /// The cluster with a name.
    pub fn get_anchor_cluster(env: &Env, name: Text) -> (r: Result<AnchorCluster, ErrorCode>)
        ensures
            match r {
                Ok(cluster) => env@.cluster(name@) == Some(cluster@),
                Err(e) => env@.cluster(name@) is None && e == ErrorCode::ValidationError,
            },
    {
        match env.routing.clusters.get(&name) {
            Some(cluster) => Ok(cluster),
            None => Err(ErrorCode::ValidationError),
        }
    }

    /// The clusters, in the order in which they were made.
    pub fn list_anchor_clusters(env: &Env) -> (r: Vec<AnchorCluster>)
        ensures
            contents(r@) == present(env@.named_clusters()),
    {
        let ghost all = env@.named_clusters();
        let mut clusters: Vec<AnchorCluster> = Vec::new();
        let mut i: usize = 0;
        assert(contents(clusters@) =~= present(all.take(0)));
        while i < env.routing.cluster_names.len()
            invariant
                i <= env.routing.cluster_names@.len(),
                all == env@.named_clusters(),
                contents(clusters@) == present(all.take(i as int)),
            decreases env.routing.cluster_names@.len() - i,
        {
            let ghost before = clusters@;
            assert(all[i as int] == env@.cluster(env.routing.cluster_names@[i as int]@));
            assert(all.take(i + 1).drop_last() =~= all.take(i as int));
            match env.routing.clusters.get(&env.routing.cluster_names[i]) {
                Some(cluster) => {
                    clusters.push(cluster);
                    assert(contents(clusters@) =~= contents(before).push(cluster@));
                },
                None => {},
            }
            i = i + 1;
        }
        assert(all.take(i as int) =~= all);
        clusters
    }
}

/// A new cluster reads back under its name, another of that name is refused, and
/// other clusters stay.
pub proof fn cluster_reads_back(
    s: State,
    name: Seq<u8>,
    anchors: Seq<Seq<u8>>,
    other: Seq<u8>,
)
    ensures
        ({
            let t = s.create_cluster_effect(name, anchors);
            &&& t.cluster(name) == Some(AnchorClusterView { name, anchors, created_at: s.now() })
            &&& t.create_cluster_refusal(name) is Some
            &&& t.admin_refusal() is None ==> t.create_cluster_refusal(name) == Some(
                ErrorCode::ValidationError,
            )
            &&& other != name ==> t.cluster(other) == s.cluster(other)
        }),
{
}

/// Every cluster is listed, once and under its name, in the order in which the
/// clusters were made.
pub proof fn every_cluster_is_listed(s: State)
    requires
        s.consistent(),
    ensures
        ({
            let names = s.routing.cluster_names;
            let listed = present(s.named_clusters());
            &&& listed.len() == names.len()
            &&& forall|i: int|
                0 <= i < listed.len() ==> (#[trigger] listed[i]).name == names[i] && s.cluster(
                    names[i],
                ) == Some(listed[i])
            &&& names.no_duplicates()
            &&& forall|name: Seq<u8>|
                (#[trigger] s.cluster(name)) is Some ==> names.contains(name)
        }),
{
    let names = s.routing.cluster_names;
    let items = s.named_clusters();
    assert forall|i: int| 0 <= i < items.len() implies (#[trigger] items[i]) is Some && (
    items[i]->0).name == names[i] by {
        assert(names.contains(names[i]));
        assert(s.routing.clusters.dom().contains(names[i]));
    }
    present_of_all(items);
    let listed = present(items);
    assert forall|i: int| 0 <= i < listed.len() implies (#[trigger] listed[i]).name == names[i]
        && s.cluster(names[i]) == Some(listed[i]) by {
        assert(listed[i] == items[i]->0);
    }
    assert forall|name: Seq<u8>| (#[trigger] s.cluster(name)) is Some implies names.contains(
        name,
    ) by {
        assert(s.routing.clusters.dom().contains(name));
    }
}

/// A cluster is made by the administrator, under a name that is not taken. It is
/// written as given, from now on, and its name is listed last. Nothing else changes.
pub proof fn cluster_is_written(s: State, name: Seq<u8>, anchors: Seq<Seq<u8>>)
    ensures
        ({
            let refusal = s.create_cluster_refusal(name);
            let taken = s.routing.clusters.dom().contains(name);
            let t = s.create_cluster_effect(name, anchors);
            &&& s.admin_refusal() is Some ==> refusal == s.admin_refusal()
            &&& s.admin_refusal() is None && taken ==> refusal == Some(ErrorCode::ValidationError)
            &&& s.admin_refusal() is None && !taken ==> refusal is None
            &&& written(
                s.routing.clusters,
                t.routing.clusters,
                name,
                AnchorClusterView { name, anchors, created_at: s.ledger.timestamp },
                PERSISTENT_TTL,
            )
            &&& t.routing.cluster_names == s.routing.cluster_names.push(name)
            &&& t.routing.cluster_names_ttl >= PERSISTENT_TTL
            &&& t.routing.cluster_names_ttl >= s.routing.cluster_names_ttl
            &&& t.routing.cluster_names_ttl == PERSISTENT_TTL || t.routing.cluster_names_ttl
                == s.routing.cluster_names_ttl
            &&& t == State {
                routing: RoutingState {
                    clusters: t.routing.clusters,
                    cluster_names: t.routing.cluster_names,
                    cluster_names_ttl: t.routing.cluster_names_ttl,
                    ..s.routing
                },
                ..s
            }
            &&& s.cluster(name) is Some <==> taken
            &&& taken ==> s.cluster(name) == Some(s.routing.clusters[name].value)
        }),
{
}

} // verus!
