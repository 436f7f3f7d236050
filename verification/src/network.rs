//! The network entity: its sidecar record, the combine and merge steps, the
//! derived fields, and the full read/write reconciliation pipelines.

use vstd::prelude::*;
use crate::merge::overlay_field;
use crate::merge::spec_overlay;
use crate::remote::MemberConfig;
use crate::remote::MemberConfigView;
use crate::remote::NetworkConfig;
use crate::remote::NetworkConfigView;

verus! {

/// A network as served to callers: the locally owned sidecar fields, the
/// derived counters, and the transient remote configuration.
#[derive(Debug, Clone, PartialEq, Eq)]
pub struct NetworkRecord {
    /// Authoritative identifier, always re-derived from the remote
    /// configuration on reconciliation.
    pub id: Option<String>,
    /// Reconciliation timestamp in epoch milliseconds, reset on every
    /// reconciliation.
    pub clock: Option<i64>,
    /// The remote-authoritative configuration; transient, never persisted.
    pub config: Option<NetworkConfig>,
    /// Locally owned description.
    pub description: Option<String>,
    /// Locally owned rules source text.
    pub rules_source: Option<String>,
    /// Locally owned permissions object, carried as its JSON text.
    pub permissions: Option<String>,
    /// Locally owned owner identifier.
    pub owner_id: Option<String>,
    /// Unused by the current derivation logic; carried through unchanged.
    pub online_member_count: Option<u64>,
    /// Derived: members whose remote object reports them authorized.
    pub authorized_member_count: Option<u64>,
    /// Derived: all members fetched for the network.
    pub total_member_count: Option<u64>,
    /// Locally owned capabilities object, carried as its JSON text.
    pub capabilities_by_name: Option<String>,
    /// Locally owned tags object, carried as its JSON text.
    pub tags_by_name: Option<String>,
    /// Locally owned UI hints object, carried as its JSON text.
    pub ui: Option<String>,
}

/// Mathematical model of a [`NetworkRecord`].
#[verifier::ext_equal]
pub struct NetworkRecordView {
    pub id: Option<Seq<char>>,
    pub clock: Option<i64>,
    pub config: Option<NetworkConfigView>,
    pub description: Option<Seq<char>>,
    pub rules_source: Option<Seq<char>>,
    pub permissions: Option<Seq<char>>,
    pub owner_id: Option<Seq<char>>,
    pub online_member_count: Option<u64>,
    pub authorized_member_count: Option<u64>,
    pub total_member_count: Option<u64>,
    pub capabilities_by_name: Option<Seq<char>>,
    pub tags_by_name: Option<Seq<char>>,
    pub ui: Option<Seq<char>>,
}

impl View for NetworkRecord {
    type V = NetworkRecordView;

    open spec fn view(&self) -> NetworkRecordView {
        NetworkRecordView {
            id: self.id.deep_view(),
            clock: self.clock,
            config: self.config.deep_view(),
            description: self.description.deep_view(),
            rules_source: self.rules_source.deep_view(),
            permissions: self.permissions.deep_view(),
            owner_id: self.owner_id.deep_view(),
            online_member_count: self.online_member_count,
            authorized_member_count: self.authorized_member_count,
            total_member_count: self.total_member_count,
            capabilities_by_name: self.capabilities_by_name.deep_view(),
            tags_by_name: self.tags_by_name.deep_view(),
            ui: self.ui.deep_view(),
        }
    }
}

impl DeepView for NetworkRecord {
    type V = NetworkRecordView;

    open spec fn deep_view(&self) -> NetworkRecordView {
        self.view()
    }
}

/// The record a reconciliation starts from when no sidecar file exists yet.
pub open spec fn spec_default_network() -> NetworkRecordView {
    NetworkRecordView {
        id: None,
        clock: None,
        config: None,
        description: None,
        rules_source: None,
        permissions: None,
        owner_id: None,
        online_member_count: None,
        authorized_member_count: None,
        total_member_count: None,
        capabilities_by_name: None,
        tags_by_name: None,
        ui: None,
    }
}

impl Default for NetworkRecord {
    /// The empty record: every field absent.
    fn default() -> (r: Self)
        ensures
            r@ == spec_default_network(),
    {
        NetworkRecord {
            id: None,
            clock: None,
            config: None,
            description: None,
            rules_source: None,
            permissions: None,
            owner_id: None,
            online_member_count: None,
            authorized_member_count: None,
            total_member_count: None,
            capabilities_by_name: None,
            tags_by_name: None,
            ui: None,
        }
    }
}

/// Combine-for-read: the stored record is the base exactly when the remote
/// configuration carries an identifier to key it by; the identifier is taken
/// from the configuration and the configuration is attached.
pub open spec fn spec_combine_network(
    config: NetworkConfigView,
    stored: Option<NetworkRecordView>,
) -> NetworkRecordView {
    let base = if config.id is Some && stored is Some {
        stored->0
    } else {
        spec_default_network()
    };
    NetworkRecordView { id: config.id, config: Some(config), ..base }
}

/// Overlay-precedence merge of a submitted partial record over a stored one,
/// field by field: a submitted non-null field wins, an omitted one preserves
/// the stored value.
pub open spec fn spec_merge_network(
    submitted: NetworkRecordView,
    stored: NetworkRecordView,
) -> NetworkRecordView {
    NetworkRecordView {
        id: spec_overlay(submitted.id, stored.id),
        clock: spec_overlay(submitted.clock, stored.clock),
        config: spec_overlay(submitted.config, stored.config),
        description: spec_overlay(submitted.description, stored.description),
        rules_source: spec_overlay(submitted.rules_source, stored.rules_source),
        permissions: spec_overlay(submitted.permissions, stored.permissions),
        owner_id: spec_overlay(submitted.owner_id, stored.owner_id),
        online_member_count: spec_overlay(submitted.online_member_count, stored.online_member_count),
        authorized_member_count: spec_overlay(
            submitted.authorized_member_count,
            stored.authorized_member_count,
        ),
        total_member_count: spec_overlay(submitted.total_member_count, stored.total_member_count),
        capabilities_by_name: spec_overlay(
            submitted.capabilities_by_name,
            stored.capabilities_by_name,
        ),
        tags_by_name: spec_overlay(submitted.tags_by_name, stored.tags_by_name),
        ui: spec_overlay(submitted.ui, stored.ui),
    }
}

/// Finalize, local part: the clock is reset to the present reconciliation
/// time, and the identifier is re-derived from the attached configuration
/// when one is attached.
pub open spec fn spec_refresh_network(r: NetworkRecordView, now_ms: i64) -> NetworkRecordView {
    let id = if r.config is Some {
        r.config->0.id
    } else {
        r.id
    };
    NetworkRecordView { id, clock: Some(now_ms), ..r }
}

/// How many member objects report `authorized` as true.
pub open spec fn spec_count_authorized(ms: Seq<MemberConfigView>) -> int
    decreases ms.len(),
{
    if ms.len() == 0 {
        0
    } else {
        spec_count_authorized(ms.drop_last()) + if ms.last().authorized == Some(true) {
            1int
        } else {
            0int
        }
    }
}

/// Finalize, counting part: both counters recomputed from the live member
/// objects, whatever the stored record held.
pub open spec fn spec_apply_member_counts(
    r: NetworkRecordView,
    ms: Seq<MemberConfigView>,
) -> NetworkRecordView {
    NetworkRecordView {
        total_member_count: Some(ms.len() as u64),
        authorized_member_count: Some(spec_count_authorized(ms) as u64),
        ..r
    }
}

/// What is persisted to the sidecar file: the record with the transient
/// configuration stripped.
pub open spec fn spec_strip_network(r: NetworkRecordView) -> NetworkRecordView {
    NetworkRecordView { config: None, ..r }
}

/// The whole read-path reconciliation, as one function of its inputs:
/// combine with the stored record, reset the clock, re-derive the identity,
/// and recompute the member counters when the member set was fetched (the
/// caller fetches it exactly when the network has an identifier).
pub open spec fn spec_reconcile_network_read(
    config: NetworkConfigView,
    stored: Option<NetworkRecordView>,
    members: Option<Seq<MemberConfigView>>,
    now_ms: i64,
) -> NetworkRecordView {
    let refreshed = spec_refresh_network(spec_combine_network(config, stored), now_ms);
    match members {
        Some(ms) => spec_apply_member_counts(refreshed, ms),
        None => refreshed,
    }
}

/// The whole write-path reconciliation: the submitted record is merged over
/// the stored one by overlay precedence, and the result reconciled against
/// the fresh remote configuration like a read.
pub open spec fn spec_reconcile_network_write(
    config: NetworkConfigView,
    submitted: NetworkRecordView,
    stored: Option<NetworkRecordView>,
    members: Option<Seq<MemberConfigView>>,
    now_ms: i64,
) -> NetworkRecordView {
    let base = match stored {
        Some(s) => s,
        None => spec_default_network(),
    };
    spec_reconcile_network_read(
        config,
        Some(spec_merge_network(submitted, base)),
        members,
        now_ms,
    )
}

fn clone_opt_string(s: &Option<String>) -> (r: Option<String>)
    ensures
        r == *s,
{
    match s {
        Some(v) => Some(v.clone()),
        None => None,
    }
}

/// Merges a submitted partial network over the stored one, field by field,
/// by overlay precedence.
pub fn merge_network(submitted: NetworkRecord, stored: NetworkRecord) -> (r: NetworkRecord)
    ensures
        r@ == spec_merge_network(submitted@, stored@),
{
    let r = NetworkRecord {
        id: overlay_field(submitted.id, stored.id),
        clock: overlay_field(submitted.clock, stored.clock),
        config: overlay_field(submitted.config, stored.config),
        description: overlay_field(submitted.description, stored.description),
        rules_source: overlay_field(submitted.rules_source, stored.rules_source),
        permissions: overlay_field(submitted.permissions, stored.permissions),
        owner_id: overlay_field(submitted.owner_id, stored.owner_id),
        online_member_count: overlay_field(
            submitted.online_member_count,
            stored.online_member_count,
        ),
        authorized_member_count: overlay_field(
            submitted.authorized_member_count,
            stored.authorized_member_count,
        ),
        total_member_count: overlay_field(submitted.total_member_count, stored.total_member_count),
        capabilities_by_name: overlay_field(
            submitted.capabilities_by_name,
            stored.capabilities_by_name,
        ),
        tags_by_name: overlay_field(submitted.tags_by_name, stored.tags_by_name),
        ui: overlay_field(submitted.ui, stored.ui),
    };
    proof {
        assert(r@ =~= spec_merge_network(submitted@, stored@));
    }
    r
}

/// Counts the member objects whose remote `authorized` flag is true.
pub fn count_authorized(members: &Vec<MemberConfig>) -> (n: usize)
    ensures
        n == spec_count_authorized(members.deep_view()),
        n <= members.len(),
{
    let ghost all: Seq<MemberConfigView> = members.deep_view();
    let mut n: usize = 0;
    let mut i: usize = 0;
    while i < members.len()
        invariant
            i <= members.len(),
            n <= i,
            all == members.deep_view(),
            all.len() == members.len(),
            n == spec_count_authorized(all.subrange(0, i as int)),
        decreases members.len() - i,
    {
        let authorized = match &members[i].authorized {
            Some(b) => *b,
            None => false,
        };
        proof {
            assert(all.subrange(0, i + 1).drop_last() =~= all.subrange(0, i as int));
            assert(all.subrange(0, i + 1).last() == all[i as int]);
        }
        if authorized {
            n = n + 1;
        }
        i = i + 1;
    }
    proof {
        assert(all.subrange(0, members.len() as int) =~= all);
    }
    n
}

impl NetworkRecord {
    /// Combine-for-read: attaches the fresh remote configuration to the
    /// stored record, or to the empty record when the configuration carries
    /// no identifier or nothing was stored, and takes the identity from the
    /// configuration.
    pub fn combine_from_file(config: NetworkConfig, stored: Option<NetworkRecord>) -> (r:
        NetworkRecord)
        ensures
            r@ == spec_combine_network(config@, stored.deep_view()),
    {
        let mut base = if config.id.is_some() {
            match stored {
                Some(s) => s,
                None => NetworkRecord::default(),
            }
        } else {
            NetworkRecord::default()
        };
        base.id = clone_opt_string(&config.id);
        base.config = Some(config);
        proof {
            assert(base@ =~= spec_combine_network(config@, stored.deep_view()));
        }
        base
    }

    /// Finalize, local part: resets the clock to the present time and
    /// re-derives the identity from the attached configuration.
    pub fn refresh(&mut self, now_ms: i64)
        ensures
            final(self)@ == spec_refresh_network(old(self)@, now_ms),
    {
        self.clock = Some(now_ms);
        let new_id = match &self.config {
            Some(c) => Some(clone_opt_string(&c.id)),
            None => None,
        };
        if let Some(id) = new_id {
            self.id = id;
        }
        proof {
            assert(self@ =~= spec_refresh_network(old(self)@, now_ms));
        }
    }

    /// Finalize, counting part: recomputes both member counters from the
    /// live member objects, overwriting whatever the record held.
    pub fn apply_member_counts(&mut self, members: &Vec<MemberConfig>)
        ensures
            final(self)@ == spec_apply_member_counts(old(self)@, members.deep_view()),
    {
        let total = members.len();
        let authorized = count_authorized(members);
        self.total_member_count = Some(total as u64);
        self.authorized_member_count = Some(authorized as u64);
        proof {
            assert(self@ =~= spec_apply_member_counts(old(self)@, members.deep_view()));
        }
    }

    /// Strips the transient configuration before the record is persisted to
    /// the sidecar file; everything else is unchanged.
    pub fn strip_for_persist(&mut self)
        ensures
            final(self)@ == spec_strip_network(old(self)@),
    {
        self.config = None;
        proof {
            assert(self@ =~= spec_strip_network(old(self)@));
        }
    }
}

/// Read-path reconciliation of one network, as a single function from plain
/// values: the caller fetches the remote configuration, reads the sidecar
/// record stored under the configuration's identifier, fetches the member
/// objects when that identifier is present, and takes the present time.
pub fn reconcile_network_read(
    config: NetworkConfig,
    stored: Option<NetworkRecord>,
    members: Option<&Vec<MemberConfig>>,
    now_ms: i64,
) -> (r: NetworkRecord)
    ensures
        r@ == spec_reconcile_network_read(
            config@,
            stored.deep_view(),
            match members {
                Some(ms) => Some(ms.deep_view()),
                None => None,
            },
            now_ms,
        ),
{
    let mut r = NetworkRecord::combine_from_file(config, stored);
    r.refresh(now_ms);
    if let Some(ms) = members {
        r.apply_member_counts(ms);
    }
    r
}

/// Write-path reconciliation of one network: the submitted record is merged
/// over the stored one by overlay precedence, then reconciled against the
/// fresh remote configuration like a read.
pub fn reconcile_network_write(
    config: NetworkConfig,
    submitted: NetworkRecord,
    stored: Option<NetworkRecord>,
    members: Option<&Vec<MemberConfig>>,
    now_ms: i64,
) -> (r: NetworkRecord)
    ensures
        r@ == spec_reconcile_network_write(
            config@,
            submitted@,
            stored.deep_view(),
            match members {
                Some(ms) => Some(ms.deep_view()),
                None => None,
            },
            now_ms,
        ),
{
    let base = match stored {
        Some(s) => s,
        None => NetworkRecord::default(),
    };
    let merged = merge_network(submitted, base);
    reconcile_network_read(config, Some(merged), members, now_ms)
}

/// Law: reconciling the same remote configuration twice, with the sidecar
/// record the first pass persisted and no intervening change, yields the
/// identical record except for the clock, which takes the later, strictly
/// greater time.
pub proof fn lemma_network_reconcile_idempotent(
    config: NetworkConfigView,
    stored: Option<NetworkRecordView>,
    members: Option<Seq<MemberConfigView>>,
    t1: i64,
    t2: i64,
)
    requires
        t1 < t2,
    ensures
        ({
            let r1 = spec_reconcile_network_read(config, stored, members, t1);
            let r2 = spec_reconcile_network_read(
                config,
                Some(spec_strip_network(r1)),
                members,
                t2,
            );
            &&& r2 == (NetworkRecordView { clock: Some(t2), ..r1 })
            &&& r1.clock == Some(t1)
            &&& r2.clock == Some(t2)
        }),
{
    let r1 = spec_reconcile_network_read(config, stored, members, t1);
    let r2 = spec_reconcile_network_read(config, Some(spec_strip_network(r1)), members, t2);
    assert(r2 =~= (NetworkRecordView { clock: Some(t2), ..r1 }));
}

/// Law: the identity of a reconciled network comes from the remote
/// configuration alone, whatever identifier the stored record held.
pub proof fn lemma_network_identity_from_config(
    config: NetworkConfigView,
    stored: Option<NetworkRecordView>,
    members: Option<Seq<MemberConfigView>>,
    now_ms: i64,
)
    ensures
        spec_reconcile_network_read(config, stored, members, now_ms).id == config.id,
{
}

/// Law: overlay precedence holds through the whole write path for every
/// locally owned field: a field the client submitted with a value ends up
/// with that value, a field the client omitted keeps the stored one (or
/// stays absent when nothing was stored).
pub proof fn lemma_network_write_overlay_precedence(
    config: NetworkConfigView,
    submitted: NetworkRecordView,
    stored: Option<NetworkRecordView>,
    members: Option<Seq<MemberConfigView>>,
    now_ms: i64,
)
    requires
        config.id is Some,
    ensures
        ({
            let base = match stored {
                Some(s) => s,
                None => spec_default_network(),
            };
            let r = spec_reconcile_network_write(config, submitted, stored, members, now_ms);
            &&& r.description == spec_overlay(submitted.description, base.description)
            &&& r.rules_source == spec_overlay(submitted.rules_source, base.rules_source)
            &&& r.permissions == spec_overlay(submitted.permissions, base.permissions)
            &&& r.owner_id == spec_overlay(submitted.owner_id, base.owner_id)
            &&& r.capabilities_by_name == spec_overlay(
                submitted.capabilities_by_name,
                base.capabilities_by_name,
            )
            &&& r.tags_by_name == spec_overlay(submitted.tags_by_name, base.tags_by_name)
            &&& r.ui == spec_overlay(submitted.ui, base.ui)
        }),
{
}

/// Law: the identity of a reconciled network on the write path also comes
/// from the remote configuration alone, whatever identifier the client
/// submitted or the stored record held.
pub proof fn lemma_network_write_identity_from_config(
    config: NetworkConfigView,
    submitted: NetworkRecordView,
    stored: Option<NetworkRecordView>,
    members: Option<Seq<MemberConfigView>>,
    now_ms: i64,
)
    ensures
        spec_reconcile_network_write(config, submitted, stored, members, now_ms).id == config.id,
{
}

} // verus!
