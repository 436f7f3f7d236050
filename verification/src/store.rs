//! Canonical sidecar file paths.  The store owns one JSON file per entity:
//! network records under a root keyed by network id, member records under a
//! root keyed by network id then member id.  Identifiers that are not simple
//! path-safe tokens are rejected, so no identifier can escape the work
//! directory or name a parent of it.

use vstd::prelude::*;
use crate::text::is_path_safe;
use crate::text::spec_path_safe;

verus! {

/// The canonical path of a network's sidecar file.
pub open spec fn spec_network_file_path(work_dir: Seq<char>, network_id: Seq<char>) -> Seq<char> {
    work_dir + "/controller.d/network/"@ + network_id + ".ext.json"@
}

/// The canonical path of a member's sidecar file.
pub open spec fn spec_member_file_path(
    work_dir: Seq<char>,
    network_id: Seq<char>,
    member_id: Seq<char>,
) -> Seq<char> {
    work_dir + "/controller.d/network/"@ + network_id + "/member/"@ + member_id + ".ext.json"@
}

/// Builds the canonical path of a network's sidecar file under the work
/// directory, or nothing when the identifier is not a path-safe token.
pub fn network_file_path(work_dir: &str, network_id: &str) -> (r: Option<String>)
    ensures
        (r is Some) <==> spec_path_safe(network_id@),
        r matches Some(p) ==> p@ == spec_network_file_path(work_dir@, network_id@),
{
    if !is_path_safe(network_id) {
        return None;
    }
    let mut p = String::from_str(work_dir);
    p.append("/controller.d/network/");
    p.append(network_id);
    p.append(".ext.json");
    proof {
        assert(p@ =~= spec_network_file_path(work_dir@, network_id@));
    }
    Some(p)
}

/// Builds the canonical path of a member's sidecar file under the work
/// directory, or nothing when either identifier is not a path-safe token.
pub fn member_file_path(work_dir: &str, network_id: &str, member_id: &str) -> (r: Option<String>)
    ensures
        (r is Some) <==> (spec_path_safe(network_id@) && spec_path_safe(member_id@)),
        r matches Some(p) ==> p@ == spec_member_file_path(work_dir@, network_id@, member_id@),
{
    if !is_path_safe(network_id) {
        return None;
    }
    if !is_path_safe(member_id) {
        return None;
    }
    let mut p = String::from_str(work_dir);
    p.append("/controller.d/network/");
    p.append(network_id);
    p.append("/member/");
    p.append(member_id);
    p.append(".ext.json");
    proof {
        assert(p@ =~= spec_member_file_path(work_dir@, network_id@, member_id@));
    }
    Some(p)
}

} // verus!
