//! The device as a tree of endpoints and clusters, and the resolution of
//! paths against it.

use vstd::prelude::*;
use crate::codec::{
    after_field, field, lemma_field_round_trip, lemma_tags_from, prepend_opt, push_opt, FieldCursor,
    FromTLV, ToTLV,
};
use crate::error::Error;
use crate::objects::{Cluster, ClusterView};
use crate::path::{ClusterId, EndptId, GenericPath};
use crate::status::IMStatusCode;
use crate::tlv::{ElementView, TLVElement, TagType, ValueView};
use crate::writer::{group_writer, TLVWriter};

verus! {

broadcast use group_writer;

/// The most endpoints that a node holds.
pub const ENDPTS_PER_ACC: usize = 3;

/// The most clusters that an endpoint holds.
pub const CLUSTERS_PER_ENDPT: usize = 9;

/// The kind of device that an endpoint is, and the revision of that kind.
#[derive(Clone, Copy, Debug, PartialEq, Eq, Structural)]
pub struct DeviceType {
    pub dtype: u16,
    pub drev: u16,
}

impl DeviceType {
    /// The members of the structure that is written for the value.
    pub open spec fn fields(self) -> Seq<ElementView> {
        let s = Seq::<ElementView>::empty();
        let s = push_opt(s, <u16 as ToTLV>::encoded(self.dtype, TagType::Context(0)));
        push_opt(s, <u16 as ToTLV>::encoded(self.drev, TagType::Context(1)))
    }

    /// What the members of a structure decode to, read in order.
    pub open spec fn from_fields(items: Seq<ElementView>) -> Result<DeviceType, Error> {
        let p = 0int;
        let dtype = field::<u16>(items, p, 0);
        let p = after_field(items, p, 0);
        let drev = field::<u16>(items, p, 1);
        match (dtype, drev) {
            (Ok(dtype), Ok(drev)) => Ok(DeviceType { dtype, drev }),
            (Err(err), _) => Err(err),
            (_, Err(err)) => Err(err),
        }
    }
}

impl ToTLV for DeviceType {
    type Model = DeviceType;

    open spec fn model(&self) -> DeviceType {
        *self
    }

    open spec fn present(m: DeviceType) -> bool {
        true
    }

    open spec fn encoded(m: DeviceType, tag: TagType) -> Option<ElementView> {
        Some(ElementView { tag, value: ValueView::Struct(m.fields()) })
    }

    fn to_tlv(&self, tw: &mut TLVWriter, tag: TagType) -> (r: Result<(), Error>) {
        let _ = tw.start_struct(tag);
        let _ = self.dtype.to_tlv(tw, TagType::Context(0));
        let _ = self.drev.to_tlv(tw, TagType::Context(1));
        tw.end_container()
    }

    proof fn lemma_encoded(m: DeviceType, tag: TagType) {
    }
}

impl<'a> FromTLV<'a> for DeviceType {
    open spec fn decoded(e: ElementView) -> Result<DeviceType, Error> {
        match e.value {
            ValueView::Struct(items) => DeviceType::from_fields(items),
            _ => Err(Error::TLVTypeMismatch),
        }
    }

    open spec fn absent() -> Result<DeviceType, Error> {
        Err(Error::TLVNotFound)
    }

    open spec fn accepted(m: DeviceType) -> bool {
        true
    }

    fn from_tlv(e: &'a TLVElement) -> (r: Result<Self, Error>) {
        let mut c = FieldCursor::new(e.struct_members()?);
        let dtype = c.field::<u16>(0)?;
        let drev = c.field::<u16>(1)?;
        Ok(DeviceType { dtype, drev })
    }

    fn tlv_not_found() -> (r: Result<Self, Error>) {
        Err(Error::TLVNotFound)
    }

    proof fn lemma_round_trip(m: DeviceType, tag: TagType) {
        let o0 = <u16 as ToTLV>::encoded(m.dtype, TagType::Context(0));
        let o1 = <u16 as ToTLV>::encoded(m.drev, TagType::Context(1));
        let r2 = Seq::<ElementView>::empty();
        let r1 = prepend_opt(o1, r2);
        lemma_tags_from::<u16>(m.drev, 1, r2);
        let r0 = prepend_opt(o0, r1);
        lemma_tags_from::<u16>(m.dtype, 0, r1);
        let items = r0;
        let s0 = Seq::<ElementView>::empty();
        assert(items =~= s0 + r0);
        lemma_field_round_trip::<u16>(items, s0, m.dtype, 0, r1);
        let s1 = push_opt(s0, o0);
        lemma_field_round_trip::<u16>(items, s1, m.drev, 1, r2);
        assert(items =~= m.fields());
    }
}

/// Mathematical model of an endpoint.
pub struct EndpointView {
    pub dev_type: DeviceType,
    pub clusters: Seq<ClusterView>,
}

/// The index of the first cluster from `from` on that has the identifier `id`.
pub open spec fn first_cluster(clusters: Seq<ClusterView>, id: ClusterId, from: int) -> Option<int>
    decreases clusters.len() - from,
{
    if from < 0 || from >= clusters.len() {
        None
    } else if clusters[from].id == id {
        Some(from)
    } else {
        first_cluster(clusters, id, from + 1)
    }
}

impl EndpointView {
    /// The cluster at `i`, with the path that names it.
    pub open spec fn cluster_at(self, path: GenericPath, i: int) -> (GenericPath, ClusterView) {
        (
            GenericPath { endpoint: path.endpoint, cluster: Some(self.clusters[i].id), leaf: path.leaf },
            self.clusters[i],
        )
    }

    /// The clusters of the endpoint that `path` names, each with its
    /// resolved path: the one cluster that the path gives, which has to
    /// exist, or with a wildcard every cluster in order.
    pub open spec fn cluster_matches(self, path: GenericPath) -> Result<
        Seq<(GenericPath, ClusterView)>,
        IMStatusCode,
    > {
        match path.cluster {
            Some(id) => match first_cluster(self.clusters, id, 0) {
                Some(i) => Ok(seq![self.cluster_at(path, i)]),
                None => Err(IMStatusCode::UnsupportedCluster),
            },
            None => Ok(Seq::new(self.clusters.len(), |i: int| self.cluster_at(path, i))),
        }
    }
}

/// A cluster that a path names, with the path resolved to it.
#[derive(Clone, Copy)]
pub struct ClusterMatch<'a> {
    pub path: GenericPath,
    pub cluster: &'a Cluster,
}

/// An endpoint that a path names, with the path resolved to it.
#[derive(Clone, Copy)]
pub struct EndpointMatch<'a> {
    pub path: GenericPath,
    pub endpoint: &'a Endpoint,
}

/// The models of cluster matches, in order.
pub open spec fn cluster_hits(found: Seq<ClusterMatch<'_>>) -> Seq<(GenericPath, ClusterView)> {
    Seq::new(found.len(), |i: int| (found[i].path, found[i].cluster@))
}

/// The models of endpoint matches, in order.
pub open spec fn endpoint_hits(found: Seq<EndpointMatch<'_>>) -> Seq<(GenericPath, EndpointView)> {
    Seq::new(found.len(), |i: int| (found[i].path, found[i].endpoint@))
}

/// One endpoint of a node: a device of some type with its clusters.
pub struct Endpoint {
    dev_type: DeviceType,
    clusters: Vec<Cluster>,
}

impl View for Endpoint {
    type V = EndpointView;

    closed spec fn view(&self) -> EndpointView {
        EndpointView {
            dev_type: self.dev_type,
            clusters: Seq::new(self.clusters@.len(), |i: int| self.clusters@[i]@),
        }
    }
}

impl Endpoint {
    pub fn new(dev_type: DeviceType) -> (e: Endpoint)
        ensures
            e@ == (EndpointView { dev_type, clusters: Seq::empty() }),
    {
        let e = Endpoint { dev_type, clusters: Vec::new() };
        assert(e@.clusters =~= Seq::empty());
        e
    }

    pub fn get_dev_type(&self) -> (d: DeviceType)
        ensures
            d == self@.dev_type,
    {
        self.dev_type
    }

    /// Adds a cluster after those that the endpoint has, if there is room.
    pub fn add_cluster(&mut self, cluster: Cluster) -> (r: Result<(), Error>)
        ensures
            old(self)@.clusters.len() < CLUSTERS_PER_ENDPT ==> r is Ok && final(self)@ == (EndpointView {
                dev_type: old(self)@.dev_type,
                clusters: old(self)@.clusters.push(cluster@),
            }),
            old(self)@.clusters.len() >= CLUSTERS_PER_ENDPT ==> r == Err::<(), Error>(Error::NoSpace)
                && final(self)@ == old(self)@,
    {
        if self.clusters.len() >= CLUSTERS_PER_ENDPT {
            return Err(Error::NoSpace);
        }
        self.clusters.push(cluster);
        assert(self@.clusters =~= old(self)@.clusters.push(cluster@));
        Ok(())
    }

    /// The index of the first cluster with the identifier `id`.
    pub fn get_cluster_index(&self, id: ClusterId) -> (r: Option<usize>)
        ensures
            match r {
                Some(i) => first_cluster(self@.clusters, id, 0) == Some(i as int) && i < self@.clusters.len(),
                None => first_cluster(self@.clusters, id, 0) is None,
            },
    {
        let mut i: usize = 0;
        while i < self.clusters.len()
            invariant
                i <= self.clusters.len(),
                first_cluster(self@.clusters, id, 0) == first_cluster(self@.clusters, id, i as int),
            decreases self.clusters.len() - i,
        {
            if self.clusters[i].id() == id {
                return Some(i);
            }
            i = i + 1;
        }
        None
    }

    /// The clusters that `path` names in this endpoint, each with its
    /// resolved path.
    pub fn clusters<'a>(&'a self, path: &GenericPath) -> (r: Result<Vec<ClusterMatch<'a>>, IMStatusCode>)
        ensures
            match r {
                Ok(found) => self@.cluster_matches(*path) == Ok::<
                    Seq<(GenericPath, ClusterView)>,
                    IMStatusCode,
                >(cluster_hits(found@)),
                Err(status) => self@.cluster_matches(*path) == Err::<
                    Seq<(GenericPath, ClusterView)>,
                    IMStatusCode,
                >(status),
            },
    {
        let mut found: Vec<ClusterMatch<'a>> = Vec::new();
        match path.cluster {
            Some(id) => match self.get_cluster_index(id) {
                Some(i) => {
                    found.push(
                        ClusterMatch {
                            path: GenericPath {
                                endpoint: path.endpoint,
                                cluster: Some(id),
                                leaf: path.leaf,
                            },
                            cluster: &self.clusters[i],
                        },
                    );
                    proof {
                        lemma_first_cluster(self@.clusters, id, 0);
                        assert(cluster_hits(found@) =~= seq![self@.cluster_at(*path, i as int)]);
                    }
                    Ok(found)
                },
                None => Err(IMStatusCode::UnsupportedCluster),
            },
            None => {
                let mut i: usize = 0;
                while i < self.clusters.len()
                    invariant
                        i <= self.clusters.len(),
                        found.len() == i,
                        forall|j: int|
                            0 <= j < i ==> (#[trigger] found@[j]).path == self@.cluster_at(*path, j).0
                                && found@[j].cluster@ == self@.cluster_at(*path, j).1,
                    decreases self.clusters.len() - i,
                {
                    let cluster = &self.clusters[i];
                    found.push(
                        ClusterMatch {
                            path: GenericPath {
                                endpoint: path.endpoint,
                                cluster: Some(cluster.id()),
                                leaf: path.leaf,
                            },
                            cluster,
                        },
                    );
                    i = i + 1;
                }
                assert(cluster_hits(found@) =~= Seq::new(
                    self@.clusters.len(),
                    |i: int| self@.cluster_at(*path, i),
                ));
                Ok(found)
            },
        }
    }
}

/// The first cluster with an identifier, where there is one, has it.
pub proof fn lemma_first_cluster(clusters: Seq<ClusterView>, id: ClusterId, from: int)
    requires
        0 <= from,
    ensures
        first_cluster(clusters, id, from) matches Some(i) ==> from <= i < clusters.len() && clusters[i].id
            == id,
    decreases clusters.len() - from,
{
    if from < clusters.len() && clusters[from].id != id {
        lemma_first_cluster(clusters, id, from + 1);
    }
}

/// Mathematical model of a node.
pub struct NodeView {
    pub endpoints: Seq<EndpointView>,
}

impl NodeView {
    /// A node holds no more endpoints than it has room for.
    pub open spec fn wf(self) -> bool {
        self.endpoints.len() <= ENDPTS_PER_ACC
    }

    /// `path` with the endpoint at `i` in place of its own.
    pub open spec fn resolved(path: GenericPath, i: int) -> GenericPath {
        GenericPath { endpoint: Some(i as u16), cluster: path.cluster, leaf: path.leaf }
    }

    /// The endpoints that `path` names, each with its resolved path: the
    /// one endpoint that the path gives, which has to exist, or with a
    /// wildcard every endpoint in order.
    pub open spec fn endpoint_matches(self, path: GenericPath) -> Result<
        Seq<(GenericPath, EndpointView)>,
        IMStatusCode,
    > {
        match path.endpoint {
            Some(e) => if e < self.endpoints.len() {
                Ok(seq![(NodeView::resolved(path, e as int), self.endpoints[e as int])])
            } else {
                Err(IMStatusCode::UnsupportedEndpoint)
            },
            None => Ok(
                Seq::new(
                    self.endpoints.len(),
                    |i: int| (NodeView::resolved(path, i), self.endpoints[i]),
                ),
            ),
        }
    }

    /// The clusters that `path` names in the endpoint at `i`; none where
    /// the endpoint lacks the cluster that the path gives.
    pub open spec fn clusters_of(self, path: GenericPath, i: int) -> Seq<(GenericPath, ClusterView)> {
        match self.endpoints[i].cluster_matches(NodeView::resolved(path, i)) {
            Ok(found) => found,
            Err(_) => Seq::empty(),
        }
    }

    /// The clusters that `path` names in the first `n` endpoints, in order.
    pub open spec fn clusters_upto(self, path: GenericPath, n: int) -> Seq<(GenericPath, ClusterView)>
        decreases n,
    {
        if n <= 0 {
            Seq::empty()
        } else {
            self.clusters_upto(path, n - 1) + self.clusters_of(path, n - 1)
        }
    }

    /// The clusters that `path` names, each with its resolved path. Where
    /// the path gives the endpoint, the endpoint has to exist and to have
    /// the cluster that the path gives. With a wildcard for the endpoint,
    /// the matching clusters of every endpoint are named in order, and an
    /// endpoint without the cluster adds nothing.
    pub open spec fn cluster_matches(self, path: GenericPath) -> Result<
        Seq<(GenericPath, ClusterView)>,
        IMStatusCode,
    > {
        match path.endpoint {
            Some(e) => if e < self.endpoints.len() {
                self.endpoints[e as int].cluster_matches(NodeView::resolved(path, e as int))
            } else {
                Err(IMStatusCode::UnsupportedEndpoint)
            },
            None => Ok(self.clusters_upto(path, self.endpoints.len() as int)),
        }
    }
}

/// The device as a tree: its endpoints, each identified by its position.
pub struct Node {
    endpoints: Vec<Endpoint>,
}

impl View for Node {
    type V = NodeView;

    closed spec fn view(&self) -> NodeView {
        NodeView { endpoints: Seq::new(self.endpoints@.len(), |i: int| self.endpoints@[i]@) }
    }
}

impl Node {
    pub fn new() -> (n: Node)
        ensures
            n@.endpoints.len() == 0,
            n@.wf(),
    {
        Node { endpoints: Vec::new() }
    }

    /// The number of endpoints.
    pub fn endpoint_count(&self) -> (n: usize)
        ensures
            n == self@.endpoints.len(),
    {
        self.endpoints.len()
    }

    /// Adds an endpoint after those that the node has, if there is room,
    /// and gives the identifier under which it is found.
    pub fn add_endpoint(&mut self, endpoint: Endpoint) -> (r: Result<EndptId, Error>)
        requires
            old(self)@.wf(),
        ensures
            final(self)@.wf(),
            old(self)@.endpoints.len() < ENDPTS_PER_ACC ==> r == Ok::<EndptId, Error>(
                old(self)@.endpoints.len() as u16,
            ) && final(self)@.endpoints == old(self)@.endpoints.push(endpoint@),
            old(self)@.endpoints.len() >= ENDPTS_PER_ACC ==> r == Err::<EndptId, Error>(Error::NoSpace)
                && final(self)@ == old(self)@,
    {
        if self.endpoints.len() >= ENDPTS_PER_ACC {
            return Err(Error::NoSpace);
        }
        let index = self.endpoints.len();
        self.endpoints.push(endpoint);
        assert(self@.endpoints =~= old(self)@.endpoints.push(endpoint@));
        Ok(index as u16)
    }

    /// The endpoints that `path` names, each with its resolved path.
    pub fn endpoints<'a>(&'a self, path: &GenericPath) -> (r: Result<
        Vec<EndpointMatch<'a>>,
        IMStatusCode,
    >)
        requires
            self@.wf(),
        ensures
            match r {
                Ok(found) => self@.endpoint_matches(*path) == Ok::<
                    Seq<(GenericPath, EndpointView)>,
                    IMStatusCode,
                >(endpoint_hits(found@)),
                Err(status) => self@.endpoint_matches(*path) == Err::<
                    Seq<(GenericPath, EndpointView)>,
                    IMStatusCode,
                >(status),
            },
    {
        let mut found: Vec<EndpointMatch<'a>> = Vec::new();
        match path.endpoint {
            Some(e) => {
                if (e as usize) < self.endpoints.len() {
                    found.push(
                        EndpointMatch {
                            path: GenericPath {
                                endpoint: Some(e),
                                cluster: path.cluster,
                                leaf: path.leaf,
                            },
                            endpoint: &self.endpoints[e as usize],
                        },
                    );
                    assert(endpoint_hits(found@) =~= seq![
                        (NodeView::resolved(*path, e as int), self@.endpoints[e as int]),
                    ]);
                    Ok(found)
                } else {
                    Err(IMStatusCode::UnsupportedEndpoint)
                }
            },
            None => {
                let mut i: usize = 0;
                while i < self.endpoints.len()
                    invariant
                        i <= self.endpoints.len(),
                        self.endpoints.len() <= ENDPTS_PER_ACC,
                        found.len() == i,
                        forall|j: int|
                            0 <= j < i ==> (#[trigger] found@[j]).path == NodeView::resolved(*path, j)
                                && found@[j].endpoint@ == self@.endpoints[j],
                    decreases self.endpoints.len() - i,
                {
                    found.push(
                        EndpointMatch {
                            path: GenericPath {
                                endpoint: Some(i as u16),
                                cluster: path.cluster,
                                leaf: path.leaf,
                            },
                            endpoint: &self.endpoints[i],
                        },
                    );
                    i = i + 1;
                }
                assert(endpoint_hits(found@) =~= Seq::new(
                    self@.endpoints.len(),
                    |i: int| (NodeView::resolved(*path, i), self@.endpoints[i]),
                ));
                Ok(found)
            },
        }
    }

    /// The clusters that `path` names, each with its resolved path.
    pub fn clusters<'a>(&'a self, path: &GenericPath) -> (r: Result<
        Vec<ClusterMatch<'a>>,
        IMStatusCode,
    >)
        requires
            self@.wf(),
        ensures
            match r {
                Ok(found) => self@.cluster_matches(*path) == Ok::<
                    Seq<(GenericPath, ClusterView)>,
                    IMStatusCode,
                >(cluster_hits(found@)),
                Err(status) => self@.cluster_matches(*path) == Err::<
                    Seq<(GenericPath, ClusterView)>,
                    IMStatusCode,
                >(status),
            },
    {
        match path.endpoint {
            Some(e) => {
                if (e as usize) < self.endpoints.len() {
                    let resolved = GenericPath {
                        endpoint: Some(e),
                        cluster: path.cluster,
                        leaf: path.leaf,
                    };
                    self.endpoints[e as usize].clusters(&resolved)
                } else {
                    Err(IMStatusCode::UnsupportedEndpoint)
                }
            },
            None => {
                let mut found: Vec<ClusterMatch<'a>> = Vec::new();
                let mut i: usize = 0;
                assert(cluster_hits(found@) =~= self@.clusters_upto(*path, 0));
                while i < self.endpoints.len()
                    invariant
                        i <= self.endpoints.len(),
                        self.endpoints.len() <= ENDPTS_PER_ACC,
                        cluster_hits(found@) == self@.clusters_upto(*path, i as int),
                    decreases self.endpoints.len() - i,
                {
                    let resolved = GenericPath {
                        endpoint: Some(i as u16),
                        cluster: path.cluster,
                        leaf: path.leaf,
                    };
                    let ghost before = cluster_hits(found@);
                    match self.endpoints[i].clusters(&resolved) {
                        Ok(more) => {
                            let mut j: usize = 0;
                            while j < more.len()
                                invariant
                                    j <= more.len(),
                                    cluster_hits(found@) == before + cluster_hits(more@).take(j as int),
                                decreases more.len() - j,
                            {
                                let ghost earlier = found@;
                                found.push(more[j]);
                                j = j + 1;
                                proof {
                                    let now = cluster_hits(found@);
                                    let want = before + cluster_hits(more@).take(j as int);
                                    assert(cluster_hits(earlier).len() == earlier.len());
                                    assert(cluster_hits(more@).len() == more@.len());
                                    assert(cluster_hits(more@).take(j - 1).len() == j - 1);
                                    assert(cluster_hits(more@).take(j as int).len() == j);
                                    assert(now.len() == want.len());
                                    assert forall|k: int| 0 <= k < now.len() implies now[k] == want[k] by {
                                        if k < earlier.len() {
                                            assert(now[k] == cluster_hits(earlier)[k]);
                                        } else {
                                            assert(now[k] == cluster_hits(more@)[j - 1]);
                                        }
                                    }
                                    assert(now =~= want);
                                }
                            }
                            assert(cluster_hits(more@).take(more.len() as int) =~= cluster_hits(more@));
                        },
                        Err(_) => {
                            assert(before + Seq::<(GenericPath, ClusterView)>::empty() =~= before);
                        },
                    }
                    i = i + 1;
                }
                Ok(found)
            },
        }
    }
}

/// Whether `resolved` names one endpoint and one cluster among those that
/// `request` names, with the leaf of the request.
pub open spec fn narrows(resolved: GenericPath, request: GenericPath) -> bool {
    &&& resolved.endpoint is Some
    &&& resolved.cluster is Some
    &&& resolved.leaf == request.leaf
    &&& request.endpoint is Some ==> resolved.endpoint == request.endpoint
    &&& request.cluster is Some ==> resolved.cluster == request.cluster
}

/// Every cluster that a path names in an endpoint comes with a path that
/// narrows the request to it.
pub proof fn lemma_endpoint_clusters_narrow(e: EndpointView, path: GenericPath)
    requires
        path.endpoint is Some,
    ensures
        e.cluster_matches(path) matches Ok(found) ==> forall|k: int|
            0 <= k < found.len() ==> narrows((#[trigger] found[k]).0, path) && found[k].0.cluster == Some(
                found[k].1.id,
            ),
{
    match path.cluster {
        Some(id) => {
            lemma_first_cluster(e.clusters, id, 0);
        },
        None => {},
    }
}

/// The clusters named in the first `n` endpoints under a wildcard for the
/// endpoint come with paths that narrow the request.
proof fn lemma_clusters_upto_narrow(node: NodeView, path: GenericPath, n: int)
    requires
        path.endpoint is None,
        0 <= n <= node.endpoints.len(),
    ensures
        forall|k: int|
            0 <= k < node.clusters_upto(path, n).len() ==> narrows(
                (#[trigger] node.clusters_upto(path, n)[k]).0,
                path,
            ),
    decreases n,
{
    if n > 0 {
        lemma_clusters_upto_narrow(node, path, n - 1);
        lemma_endpoint_clusters_narrow(node.endpoints[n - 1], NodeView::resolved(path, n - 1));
        let front = node.clusters_upto(path, n - 1);
        let more = node.clusters_of(path, n - 1);
        assert forall|k: int| 0 <= k < node.clusters_upto(path, n).len() implies narrows(
            (#[trigger] node.clusters_upto(path, n)[k]).0,
            path,
        ) by {
            if k < front.len() {
                assert(node.clusters_upto(path, n)[k] == front[k]);
            } else {
                assert(node.clusters_upto(path, n)[k] == more[k - front.len()]);
            }
        }
    }
}

/// Every path that a request resolves to names one endpoint and one
/// cluster among those that the request names, and keeps its leaf. So a
/// request that gives the leaf resolves to paths without wildcards.
pub proof fn lemma_cluster_matches_narrow(node: NodeView, path: GenericPath)
    ensures
        node.cluster_matches(path) matches Ok(found) ==> forall|k: int|
            0 <= k < found.len() ==> narrows((#[trigger] found[k]).0, path) && (path.leaf is Some
                ==> !found[k].0.wildcard()),
{
    match path.endpoint {
        Some(e) => {
            if e < node.endpoints.len() {
                lemma_endpoint_clusters_narrow(
                    node.endpoints[e as int],
                    NodeView::resolved(path, e as int),
                );
            }
        },
        None => {
            lemma_clusters_upto_narrow(node, path, node.endpoints.len() as int);
        },
    }
}

/// Where each of the first `n` endpoints has the cluster that the request
/// gives, the request names that cluster once for each of them, in order.
proof fn lemma_clusters_upto_one_each(node: NodeView, path: GenericPath, n: int)
    requires
        path.endpoint is None,
        path.cluster is Some,
        0 <= n <= node.endpoints.len(),
        forall|i: int|
            0 <= i < node.endpoints.len() ==> first_cluster(
                (#[trigger] node.endpoints[i]).clusters,
                path.cluster->0,
                0,
            ) is Some,
    ensures
        node.clusters_upto(path, n).len() == n,
        forall|i: int|
            0 <= i < n ==> (#[trigger] node.clusters_upto(path, n)[i]).0 == (GenericPath {
                endpoint: Some(i as u16),
                cluster: path.cluster,
                leaf: path.leaf,
            }),
    decreases n,
{
    if n > 0 {
        lemma_clusters_upto_one_each(node, path, n - 1);
        let front = node.clusters_upto(path, n - 1);
        let more = node.clusters_of(path, n - 1);
        assert(first_cluster(node.endpoints[n - 1].clusters, path.cluster->0, 0) is Some);
        lemma_first_cluster(node.endpoints[n - 1].clusters, path.cluster->0, 0);
        assert(more.len() == 1);
        assert forall|i: int| 0 <= i < n implies (#[trigger] node.clusters_upto(path, n)[i]).0 == (GenericPath {
            endpoint: Some(i as u16),
            cluster: path.cluster,
            leaf: path.leaf,
        }) by {
            if i < n - 1 {
                assert(node.clusters_upto(path, n)[i] == front[i]);
            } else {
                assert(node.clusters_upto(path, n)[i] == more[0]);
            }
        }
    }
}

/// A request with a wildcard for the endpoint and a given cluster, against
/// a node where every endpoint has that cluster, resolves to one path for
/// each endpoint, in order: the endpoint, the cluster, and the leaf asked for.
pub proof fn lemma_wildcard_endpoint_one_each(node: NodeView, path: GenericPath)
    requires
        path.endpoint is None,
        path.cluster is Some,
        forall|i: int|
            0 <= i < node.endpoints.len() ==> first_cluster(
                (#[trigger] node.endpoints[i]).clusters,
                path.cluster->0,
                0,
            ) is Some,
    ensures
        node.cluster_matches(path) matches Ok(found) && found.len() == node.endpoints.len() && forall|
            i: int,
        |
            0 <= i < found.len() ==> (#[trigger] found[i]).0 == (GenericPath {
                endpoint: Some(i as u16),
                cluster: path.cluster,
                leaf: path.leaf,
            }),
{
    lemma_clusters_upto_one_each(node, path, node.endpoints.len() as int);
}

} // verus!
