//! Models of the remote controller's objects, reduced to the fields the
//! reconciliation logic reads.  The controller's objects are loosely typed
//! JSON; the boundary layer extracts these fields and carries the full
//! object along for the response payload, so nothing here loses data.

use vstd::prelude::*;

verus! {

/// The fields of a remote network object that the reconciler reads: only
/// the authoritative identifier.
#[derive(Debug, Clone, PartialEq, Eq)]
pub struct NetworkConfig {
    /// The authoritative network identifier, absent when the remote object
    /// carries none or a non-string value.
    pub id: Option<String>,
}

/// Mathematical model of a [`NetworkConfig`].
#[verifier::ext_equal]
pub struct NetworkConfigView {
    pub id: Option<Seq<char>>,
}

impl View for NetworkConfig {
    type V = NetworkConfigView;

    open spec fn view(&self) -> NetworkConfigView {
        NetworkConfigView { id: self.id.deep_view() }
    }
}

impl DeepView for NetworkConfig {
    type V = NetworkConfigView;

    open spec fn deep_view(&self) -> NetworkConfigView {
        self.view()
    }
}

/// The fields of a remote member object that the reconciler reads.
#[derive(Debug, Clone, PartialEq, Eq)]
pub struct MemberConfig {
    /// The identifier of the network the member belongs to.
    pub nwid: Option<String>,
    /// The authoritative member (node) identifier.
    pub id: Option<String>,
    /// Client version components; absent or negative components count as zero.
    pub v_major: Option<i64>,
    pub v_minor: Option<i64>,
    pub v_rev: Option<i64>,
    /// Protocol version.
    pub v_proto: Option<i64>,
    /// Whether the controller authorizes the member on its network.
    pub authorized: Option<bool>,
}

/// Mathematical model of a [`MemberConfig`].
#[verifier::ext_equal]
pub struct MemberConfigView {
    pub nwid: Option<Seq<char>>,
    pub id: Option<Seq<char>>,
    pub v_major: Option<i64>,
    pub v_minor: Option<i64>,
    pub v_rev: Option<i64>,
    pub v_proto: Option<i64>,
    pub authorized: Option<bool>,
}

impl View for MemberConfig {
    type V = MemberConfigView;

    open spec fn view(&self) -> MemberConfigView {
        MemberConfigView {
            nwid: self.nwid.deep_view(),
            id: self.id.deep_view(),
            v_major: self.v_major,
            v_minor: self.v_minor,
            v_rev: self.v_rev,
            v_proto: self.v_proto,
            authorized: self.authorized,
        }
    }
}

impl DeepView for MemberConfig {
    type V = MemberConfigView;

    open spec fn deep_view(&self) -> MemberConfigView {
        self.view()
    }
}

/// One path of a remote peer object, reduced to what peer enrichment reads.
#[derive(Debug, Clone, PartialEq, Eq)]
pub struct PeerPath {
    /// Whether the controller marks this path as the preferred one.
    pub preferred: bool,
    /// The path's physical address, usually `ip/port`.
    pub address: Option<String>,
    /// Milliseconds timestamp of the last packet received on this path.
    pub last_receive: Option<i64>,
}

/// Mathematical model of a [`PeerPath`].
#[verifier::ext_equal]
pub struct PeerPathView {
    pub preferred: bool,
    pub address: Option<Seq<char>>,
    pub last_receive: Option<i64>,
}

impl View for PeerPath {
    type V = PeerPathView;

    open spec fn view(&self) -> PeerPathView {
        PeerPathView {
            preferred: self.preferred,
            address: self.address.deep_view(),
            last_receive: self.last_receive,
        }
    }
}

impl DeepView for PeerPath {
    type V = PeerPathView;

    open spec fn deep_view(&self) -> PeerPathView {
        self.view()
    }
}

/// The creation target identifier for a new network: by the controller's
/// convention, the node's own address followed by six underscores, which the
/// controller replaces with a random suffix when it mints the network.
pub open spec fn spec_creation_target_id(node_address: Seq<char>) -> Seq<char> {
    node_address + "______"@
}

/// Builds the identifier a network-creation request is addressed to, from
/// the controller node's own address.
pub fn creation_target_id(node_address: &str) -> (r: String)
    ensures
        r@ == spec_creation_target_id(node_address@),
{
    let mut id = String::from_str(node_address);
    id.append("______");
    id
}

/// The part of a remote peer object that peer enrichment reads: its paths,
/// in the order the controller reports them.
#[derive(Debug, Clone, PartialEq, Eq)]
pub struct Peer {
    pub paths: Vec<PeerPath>,
}

impl View for Peer {
    type V = Seq<PeerPathView>;

    open spec fn view(&self) -> Seq<PeerPathView> {
        self.paths.deep_view()
    }
}

impl DeepView for Peer {
    type V = Seq<PeerPathView>;

    open spec fn deep_view(&self) -> Seq<PeerPathView> {
        self.view()
    }
}

} // verus!
