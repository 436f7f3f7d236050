//! The member entity: its sidecar record, the combine and merge steps, the
//! derived fields including the formatted client version and the best-effort
//! peer enrichment, and the full read/write reconciliation pipelines.

use vstd::prelude::*;
use crate::merge::overlay_field;
use crate::merge::spec_overlay;
use crate::remote::MemberConfig;
use crate::remote::MemberConfigView;
use crate::remote::Peer;
use crate::remote::PeerPathView;
use crate::spec_clamp_component;
use crate::text::spec_before_slash;
use crate::text::spec_version_string;
use crate::text::strip_port_suffix;
use crate::text::version_string;

verus! {

/// A member as served to callers: the locally owned sidecar fields, the
/// derived fields, and the transient remote configuration.
#[derive(Debug, Clone, PartialEq, Eq)]
pub struct MemberRecord {
    /// Reconciliation timestamp in epoch milliseconds, reset on every
    /// reconciliation.
    pub clock: Option<i64>,
    /// Derived: the network the member belongs to, from the remote `nwid`.
    pub network_id: Option<String>,
    /// Derived: the member's node identifier, from the remote `id`.
    pub node_id: Option<String>,
    /// Locally owned visibility flag.
    pub hidden: Option<bool>,
    /// Locally owned display name.
    pub name: Option<String>,
    /// Locally owned description.
    pub description: Option<String>,
    /// The remote-authoritative configuration; transient, never persisted.
    pub config: Option<MemberConfig>,
    /// Derived: last-receive timestamp of the peer's preferred path.
    pub last_seen: Option<i64>,
    /// Derived: address of the peer's preferred path, `/port` suffix stripped.
    pub physical_address: Option<String>,
    /// Derived: `major.minor.rev`, from the remote version components.
    pub client_version: Option<String>,
    /// Derived: the remote protocol version.
    pub protocol_version: Option<i64>,
    /// Locally owned capability flag; carried through unchanged.
    pub supports_rule_engine: Option<bool>,
}

/// Mathematical model of a [`MemberRecord`].
#[verifier::ext_equal]
pub struct MemberRecordView {
    pub clock: Option<i64>,
    pub network_id: Option<Seq<char>>,
    pub node_id: Option<Seq<char>>,
    pub hidden: Option<bool>,
    pub name: Option<Seq<char>>,
    pub description: Option<Seq<char>>,
    pub config: Option<MemberConfigView>,
    pub last_seen: Option<i64>,
    pub physical_address: Option<Seq<char>>,
    pub client_version: Option<Seq<char>>,
    pub protocol_version: Option<i64>,
    pub supports_rule_engine: Option<bool>,
}

impl View for MemberRecord {
    type V = MemberRecordView;

    open spec fn view(&self) -> MemberRecordView {
        MemberRecordView {
            clock: self.clock,
            network_id: self.network_id.deep_view(),
            node_id: self.node_id.deep_view(),
            hidden: self.hidden,
            name: self.name.deep_view(),
            description: self.description.deep_view(),
            config: self.config.deep_view(),
            last_seen: self.last_seen,
            physical_address: self.physical_address.deep_view(),
            client_version: self.client_version.deep_view(),
            protocol_version: self.protocol_version,
            supports_rule_engine: self.supports_rule_engine,
        }
    }
}

impl DeepView for MemberRecord {
    type V = MemberRecordView;

    open spec fn deep_view(&self) -> MemberRecordView {
        self.view()
    }
}

/// The record a reconciliation starts from when no sidecar file exists yet.
pub open spec fn spec_default_member() -> MemberRecordView {
    MemberRecordView {
        clock: None,
        network_id: None,
        node_id: None,
        hidden: None,
        name: None,
        description: None,
        config: None,
        last_seen: None,
        physical_address: None,
        client_version: None,
        protocol_version: None,
        supports_rule_engine: None,
    }
}

impl Default for MemberRecord {
    /// The empty record: every field absent.
    fn default() -> (r: Self)
        ensures
            r@ == spec_default_member(),
    {
        MemberRecord {
            clock: None,
            network_id: None,
            node_id: None,
            hidden: None,
            name: None,
            description: None,
            config: None,
            last_seen: None,
            physical_address: None,
            client_version: None,
            protocol_version: None,
            supports_rule_engine: None,
        }
    }
}

/// Combine-for-read: the stored record is the base exactly when the remote
/// configuration carries an identifier to key it by; the configuration is
/// attached, and the identity fields are left for the finalize step.
pub open spec fn spec_combine_member(
    config: MemberConfigView,
    stored: Option<MemberRecordView>,
) -> MemberRecordView {
    let base = if config.id is Some && stored is Some {
        stored->0
    } else {
        spec_default_member()
    };
    MemberRecordView { config: Some(config), ..base }
}

/// Overlay-precedence merge of a submitted partial record over a stored one,
/// field by field: a submitted non-null field wins, an omitted one preserves
/// the stored value.
pub open spec fn spec_merge_member(
    submitted: MemberRecordView,
    stored: MemberRecordView,
) -> MemberRecordView {
    MemberRecordView {
        clock: spec_overlay(submitted.clock, stored.clock),
        network_id: spec_overlay(submitted.network_id, stored.network_id),
        node_id: spec_overlay(submitted.node_id, stored.node_id),
        hidden: spec_overlay(submitted.hidden, stored.hidden),
        name: spec_overlay(submitted.name, stored.name),
        description: spec_overlay(submitted.description, stored.description),
        config: spec_overlay(submitted.config, stored.config),
        last_seen: spec_overlay(submitted.last_seen, stored.last_seen),
        physical_address: spec_overlay(submitted.physical_address, stored.physical_address),
        client_version: spec_overlay(submitted.client_version, stored.client_version),
        protocol_version: spec_overlay(submitted.protocol_version, stored.protocol_version),
        supports_rule_engine: spec_overlay(
            submitted.supports_rule_engine,
            stored.supports_rule_engine,
        ),
    }
}

/// The formatted client version for a remote configuration: each component
/// defaults to zero when missing and clamps to zero when negative.
pub open spec fn spec_client_version(c: MemberConfigView) -> Seq<char> {
    spec_version_string(
        spec_clamp_component(c.v_major) as nat,
        spec_clamp_component(c.v_minor) as nat,
        spec_clamp_component(c.v_rev) as nat,
    )
}

/// Finalize, local part: the clock is reset to the present reconciliation
/// time; when a configuration is attached, the identity and version-derived
/// fields are recomputed from it.
pub open spec fn spec_refresh_member(r: MemberRecordView, now_ms: i64) -> MemberRecordView {
    match r.config {
        Some(c) => MemberRecordView {
            clock: Some(now_ms),
            network_id: c.nwid,
            node_id: c.id,
            client_version: Some(spec_client_version(c)),
            protocol_version: c.v_proto,
            ..r
        },
        None => MemberRecordView { clock: Some(now_ms), ..r },
    }
}

/// The first path the controller marks preferred, in report order.
pub open spec fn spec_first_preferred(ps: Seq<PeerPathView>) -> Option<PeerPathView>
    decreases ps.len(),
{
    if ps.len() == 0 {
        None
    } else if ps[0].preferred {
        Some(ps[0])
    } else {
        spec_first_preferred(ps.drop_first())
    }
}

/// Finalize, peer part: when a peer object was fetched and has a preferred
/// path, that path's address (with any `/port` suffix stripped) and
/// last-receive timestamp overwrite the record's; otherwise the record is
/// unchanged.  Fetching the peer is best-effort: a failed fetch is handed in
/// as no peer.
pub open spec fn spec_apply_peer(
    r: MemberRecordView,
    peer: Option<Seq<PeerPathView>>,
) -> MemberRecordView {
    match peer {
        Some(ps) => match spec_first_preferred(ps) {
            Some(p) => MemberRecordView {
                physical_address: match p.address {
                    Some(a) => Some(spec_before_slash(a)),
                    None => None,
                },
                last_seen: p.last_receive,
                ..r
            },
            None => r,
        },
        None => r,
    }
}

/// What is persisted to the sidecar file: the record with the transient
/// configuration stripped.
pub open spec fn spec_strip_member(r: MemberRecordView) -> MemberRecordView {
    MemberRecordView { config: None, ..r }
}

/// The whole read-path reconciliation, as one function of its inputs:
/// combine with the stored record, reset the clock, re-derive the identity
/// and version fields, and apply the best-effort peer enrichment.
pub open spec fn spec_reconcile_member_read(
    config: MemberConfigView,
    stored: Option<MemberRecordView>,
    peer: Option<Seq<PeerPathView>>,
    now_ms: i64,
) -> MemberRecordView {
    spec_apply_peer(spec_refresh_member(spec_combine_member(config, stored), now_ms), peer)
}

/// The whole write-path reconciliation: the submitted record is merged over
/// the stored one by overlay precedence, and the result reconciled against
/// the fresh remote configuration like a read.
pub open spec fn spec_reconcile_member_write(
    config: MemberConfigView,
    submitted: MemberRecordView,
    stored: Option<MemberRecordView>,
    peer: Option<Seq<PeerPathView>>,
    now_ms: i64,
) -> MemberRecordView {
    let base = match stored {
        Some(s) => s,
        None => spec_default_member(),
    };
    spec_reconcile_member_read(config, Some(spec_merge_member(submitted, base)), peer, now_ms)
}

fn clone_opt_string(s: &Option<String>) -> (r: Option<String>)
    ensures
        r == *s,
{
    match s {
        Some(v) => Some(v.clone()),
        None => None,
    }
}

/// Merges a submitted partial member over the stored one, field by field,
/// by overlay precedence.
pub fn merge_member(submitted: MemberRecord, stored: MemberRecord) -> (r: MemberRecord)
    ensures
        r@ == spec_merge_member(submitted@, stored@),
{
    let r = MemberRecord {
        clock: overlay_field(submitted.clock, stored.clock),
        network_id: overlay_field(submitted.network_id, stored.network_id),
        node_id: overlay_field(submitted.node_id, stored.node_id),
        hidden: overlay_field(submitted.hidden, stored.hidden),
        name: overlay_field(submitted.name, stored.name),
        description: overlay_field(submitted.description, stored.description),
        config: overlay_field(submitted.config, stored.config),
        last_seen: overlay_field(submitted.last_seen, stored.last_seen),
        physical_address: overlay_field(submitted.physical_address, stored.physical_address),
        client_version: overlay_field(submitted.client_version, stored.client_version),
        protocol_version: overlay_field(submitted.protocol_version, stored.protocol_version),
        supports_rule_engine: overlay_field(
            submitted.supports_rule_engine,
            stored.supports_rule_engine,
        ),
    };
    proof {
        assert(r@ =~= spec_merge_member(submitted@, stored@));
    }
    r
}

proof fn lemma_first_preferred_skip(ps: Seq<PeerPathView>, i: int)
    requires
        0 <= i <= ps.len(),
        forall|j: int| 0 <= j < i ==> !ps[j].preferred,
    ensures
        spec_first_preferred(ps) == spec_first_preferred(ps.subrange(i, ps.len() as int)),
    decreases i,
{
    if i == 0 {
        assert(ps.subrange(0, ps.len() as int) =~= ps);
    } else {
        let t = ps.drop_first();
        lemma_first_preferred_skip(t, i - 1);
        assert(t.subrange(i - 1, t.len() as int) =~= ps.subrange(i, ps.len() as int));
    }
}

impl MemberRecord {
    /// Combine-for-read: attaches the fresh remote configuration to the
    /// stored record, or to the empty record when the configuration carries
    /// no identifier or nothing was stored.
    pub fn combine_from_file(config: MemberConfig, stored: Option<MemberRecord>) -> (r:
        MemberRecord)
        ensures
            r@ == spec_combine_member(config@, stored.deep_view()),
    {
        let mut base = if config.id.is_some() {
            match stored {
                Some(s) => s,
                None => MemberRecord::default(),
            }
        } else {
            MemberRecord::default()
        };
        base.config = Some(config);
        proof {
            assert(base@ =~= spec_combine_member(config@, stored.deep_view()));
        }
        base
    }

    /// Finalize, local part: resets the clock to the present time and, when
    /// a configuration is attached, recomputes the identity and
    /// version-derived fields from it.
    pub fn refresh(&mut self, now_ms: i64)
        ensures
            final(self)@ == spec_refresh_member(old(self)@, now_ms),
    {
        self.clock = Some(now_ms);
        let derived = match &self.config {
            Some(c) => {
                let major = crate::clamp_component(c.v_major);
                let minor = crate::clamp_component(c.v_minor);
                let rev = crate::clamp_component(c.v_rev);
                Some(
                    (
                        clone_opt_string(&c.nwid),
                        clone_opt_string(&c.id),
                        version_string(major as u64, minor as u64, rev as u64),
                        c.v_proto,
                    ),
                )
            },
            None => None,
        };
        if let Some((nwid, id, version, proto)) = derived {
            self.network_id = nwid;
            self.node_id = id;
            self.client_version = Some(version);
            self.protocol_version = proto;
        }
        proof {
            assert(self@ =~= spec_refresh_member(old(self)@, now_ms));
        }
    }

    /// Finalize, peer part: applies the preferred path's address and
    /// last-receive timestamp, when a peer object with a preferred path was
    /// fetched; otherwise leaves the record unchanged.
    pub fn apply_peer(&mut self, peer: Option<&Peer>)
        ensures
            final(self)@ == spec_apply_peer(
                old(self)@,
                match peer {
                    Some(p) => Some(p@),
                    None => None,
                },
            ),
    {
        let p = match peer {
            Some(p) => p,
            None => {
                return ;
            },
        };
        let n = p.paths.len();
        let mut i: usize = 0;
        while i < n && !p.paths[i].preferred
            invariant
                i <= n,
                n == p.paths.len(),
                forall|j: int| 0 <= j < i ==> !p@[j].preferred,
            decreases n - i,
        {
            i += 1;
        }
        proof {
            lemma_first_preferred_skip(p@, i as int);
        }
        if i < n {
            let path = &p.paths[i];
            proof {
                assert(p@.subrange(i as int, n as int)[0] == p@[i as int]);
            }
            let new_address = match &path.address {
                Some(a) => Some(strip_port_suffix(a.as_str())),
                None => None,
            };
            self.physical_address = new_address;
            self.last_seen = path.last_receive;
            proof {
                assert(self@ =~= spec_apply_peer(old(self)@, Some(p@)));
            }
        } else {
            proof {
                assert(p@.subrange(i as int, n as int).len() == 0);
                assert(self@ =~= spec_apply_peer(old(self)@, Some(p@)));
            }
        }
    }

    /// Strips the transient configuration before the record is persisted to
    /// the sidecar file; everything else is unchanged.
    pub fn strip_for_persist(&mut self)
        ensures
            final(self)@ == spec_strip_member(old(self)@),
    {
        self.config = None;
        proof {
            assert(self@ =~= spec_strip_member(old(self)@));
        }
    }
}

/// Read-path reconciliation of one member, as a single function from plain
/// values: the caller fetches the remote configuration, reads the sidecar
/// record stored under the configuration's identifier, tries to fetch the
/// peer object for the node identifier, and takes the present time.
pub fn reconcile_member_read(
    config: MemberConfig,
    stored: Option<MemberRecord>,
    peer: Option<&Peer>,
    now_ms: i64,
) -> (r: MemberRecord)
    ensures
        r@ == spec_reconcile_member_read(
            config@,
            stored.deep_view(),
            match peer {
                Some(p) => Some(p@),
                None => None,
            },
            now_ms,
        ),
{
    let mut r = MemberRecord::combine_from_file(config, stored);
    r.refresh(now_ms);
    r.apply_peer(peer);
    r
}

/// Write-path reconciliation of one member: the submitted record is merged
/// over the stored one by overlay precedence, then reconciled against the
/// fresh remote configuration like a read.
pub fn reconcile_member_write(
    config: MemberConfig,
    submitted: MemberRecord,
    stored: Option<MemberRecord>,
    peer: Option<&Peer>,
    now_ms: i64,
) -> (r: MemberRecord)
    ensures
        r@ == spec_reconcile_member_write(
            config@,
            submitted@,
            stored.deep_view(),
            match peer {
                Some(p) => Some(p@),
                None => None,
            },
            now_ms,
        ),
{
    let base = match stored {
        Some(s) => s,
        None => MemberRecord::default(),
    };
    let merged = merge_member(submitted, base);
    reconcile_member_read(config, Some(merged), peer, now_ms)
}

/// Law: reconciling the same remote configuration twice, with the sidecar
/// record the first pass persisted and no intervening change, yields the
/// identical record except for the clock, which takes the later, strictly
/// greater time.
pub proof fn lemma_member_reconcile_idempotent(
    config: MemberConfigView,
    stored: Option<MemberRecordView>,
    peer: Option<Seq<PeerPathView>>,
    t1: i64,
    t2: i64,
)
    requires
        t1 < t2,
    ensures
        ({
            let r1 = spec_reconcile_member_read(config, stored, peer, t1);
            let r2 = spec_reconcile_member_read(config, Some(spec_strip_member(r1)), peer, t2);
            &&& r2 == (MemberRecordView { clock: Some(t2), ..r1 })
            &&& r1.clock == Some(t1)
            &&& r2.clock == Some(t2)
        }),
{
    let r1 = spec_reconcile_member_read(config, stored, peer, t1);
    let r2 = spec_reconcile_member_read(config, Some(spec_strip_member(r1)), peer, t2);
    assert(r2 =~= (MemberRecordView { clock: Some(t2), ..r1 }));
}

/// Law: overlay precedence holds through the whole write path for every
/// locally owned field: a field the client submitted with a value ends up
/// with that value, a field the client omitted keeps the stored one (or
/// stays absent when nothing was stored).
pub proof fn lemma_member_write_overlay_precedence(
    config: MemberConfigView,
    submitted: MemberRecordView,
    stored: Option<MemberRecordView>,
    peer: Option<Seq<PeerPathView>>,
    now_ms: i64,
)
    requires
        config.id is Some,
    ensures
        ({
            let base = match stored {
                Some(s) => s,
                None => spec_default_member(),
            };
            let r = spec_reconcile_member_write(config, submitted, stored, peer, now_ms);
            &&& r.hidden == spec_overlay(submitted.hidden, base.hidden)
            &&& r.name == spec_overlay(submitted.name, base.name)
            &&& r.description == spec_overlay(submitted.description, base.description)
            &&& r.supports_rule_engine == spec_overlay(
                submitted.supports_rule_engine,
                base.supports_rule_engine,
            )
        }),
{
}

/// Law: the identity fields of a reconciled member come from the remote
/// configuration alone, whatever the stored record or a client submission
/// held.
pub proof fn lemma_member_identity_from_config(
    config: MemberConfigView,
    stored: Option<MemberRecordView>,
    peer: Option<Seq<PeerPathView>>,
    now_ms: i64,
)
    ensures
        spec_reconcile_member_read(config, stored, peer, now_ms).node_id == config.id,
        spec_reconcile_member_read(config, stored, peer, now_ms).network_id == config.nwid,
{
}

} // verus!
