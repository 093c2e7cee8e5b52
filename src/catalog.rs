//! The operation catalog: a fixed, ordered table of API operations.
use vstd::prelude::*;

use crate::error::{is_unknown_operation, ClientError};
use crate::text::same_text;

verus! {

/// Metadata for one API operation.
#[derive(Clone, Copy, Debug)]
pub struct OperationDefinition {
    /// Stable operation identifier.
    pub operation_id: &'static str,
    /// Uppercase HTTP method (for example `GET`, `POST`).
    pub method: &'static str,
    /// Path template, possibly containing `{param}` placeholders.
    pub path_template: &'static str,
    /// Required path parameter names, as they appear in `path_template`.
    pub path_params: &'static [&'static str],
}

/// The default server URL of the API.
pub open spec fn default_server_url() -> Seq<char> {
    "https://api.iri.nersc.gov"@
}

/// The operation table, in the order in which the API document declares it.
pub open spec fn operation_catalog() -> Seq<OperationDefinition> {
    seq![
        OperationDefinition {
            operation_id: "getFacility",
            method: "GET",
            path_template: "/api/v1/facility",
            path_params: &[],
        },
        OperationDefinition {
            operation_id: "getSites",
            method: "GET",
            path_template: "/api/v1/facility/sites",
            path_params: &[],
        },
        OperationDefinition {
            operation_id: "getSite",
            method: "GET",
            path_template: "/api/v1/facility/sites/{site_id}",
            path_params: &["site_id"],
        },
        OperationDefinition {
            operation_id: "getResources",
            method: "GET",
            path_template: "/api/v1/status/resources",
            path_params: &[],
        },
        OperationDefinition {
            operation_id: "getResource",
            method: "GET",
            path_template: "/api/v1/status/resources/{resource_id}",
            path_params: &["resource_id"],
        },
        OperationDefinition {
            operation_id: "getIncidents",
            method: "GET",
            path_template: "/api/v1/status/incidents",
            path_params: &[],
        },
        OperationDefinition {
            operation_id: "getIncident",
            method: "GET",
            path_template: "/api/v1/status/incidents/{incident_id}",
            path_params: &["incident_id"],
        },
        OperationDefinition {
            operation_id: "getProjects",
            method: "GET",
            path_template: "/api/v1/account/projects",
            path_params: &[],
        },
        OperationDefinition {
            operation_id: "getProjectAllocation",
            method: "GET",
            path_template: "/api/v1/account/projects/{project_id}/allocations/{allocation_id}",
            path_params: &["project_id", "allocation_id"],
        },
        OperationDefinition {
            operation_id: "launchJob",
            method: "POST",
            path_template: "/api/v1/compute/job/{resource_id}",
            path_params: &["resource_id"],
        },
        OperationDefinition {
            operation_id: "cancelJob",
            method: "DELETE",
            path_template: "/api/v1/compute/job/{resource_id}/{job_id}",
            path_params: &["resource_id", "job_id"],
        },
    ]
}

/// Returns the default server URL of the API.
pub fn openapi_default_server_url() -> (r: &'static str)
    ensures
        r@ == default_server_url(),
{
    "https://api.iri.nersc.gov"
}

/// Returns every operation of the catalog, unchanged and in catalog order.
pub fn openapi_operations() -> (r: &'static [OperationDefinition])
    ensures
        r@ == operation_catalog(),
        r@.len() > 0,
{
    let r: &'static [OperationDefinition] = &[
        OperationDefinition {
            operation_id: "getFacility",
            method: "GET",
            path_template: "/api/v1/facility",
            path_params: &[],
        },
        OperationDefinition {
            operation_id: "getSites",
            method: "GET",
            path_template: "/api/v1/facility/sites",
            path_params: &[],
        },
        OperationDefinition {
            operation_id: "getSite",
            method: "GET",
            path_template: "/api/v1/facility/sites/{site_id}",
            path_params: &["site_id"],
        },
        OperationDefinition {
            operation_id: "getResources",
            method: "GET",
            path_template: "/api/v1/status/resources",
            path_params: &[],
        },
        OperationDefinition {
            operation_id: "getResource",
            method: "GET",
            path_template: "/api/v1/status/resources/{resource_id}",
            path_params: &["resource_id"],
        },
        OperationDefinition {
            operation_id: "getIncidents",
            method: "GET",
            path_template: "/api/v1/status/incidents",
            path_params: &[],
        },
        OperationDefinition {
            operation_id: "getIncident",
            method: "GET",
            path_template: "/api/v1/status/incidents/{incident_id}",
            path_params: &["incident_id"],
        },
        OperationDefinition {
            operation_id: "getProjects",
            method: "GET",
            path_template: "/api/v1/account/projects",
            path_params: &[],
        },
        OperationDefinition {
            operation_id: "getProjectAllocation",
            method: "GET",
            path_template: "/api/v1/account/projects/{project_id}/allocations/{allocation_id}",
            path_params: &["project_id", "allocation_id"],
        },
        OperationDefinition {
            operation_id: "launchJob",
            method: "POST",
            path_template: "/api/v1/compute/job/{resource_id}",
            path_params: &["resource_id"],
        },
        OperationDefinition {
            operation_id: "cancelJob",
            method: "DELETE",
            path_template: "/api/v1/compute/job/{resource_id}/{job_id}",
            path_params: &["resource_id", "job_id"],
        },
    ];
    assert(r@ =~= operation_catalog());
    r
}

/// The index of the first operation at or after `i` whose id is `id`.
pub open spec fn find_index_from(ops: Seq<OperationDefinition>, id: Seq<char>, i: int) -> Option<
    int,
>
    decreases ops.len() - i,
{
    if i < 0 || i >= ops.len() {
        None
    } else if ops[i].operation_id@ == id {
        Some(i)
    } else {
        find_index_from(ops, id, i + 1)
    }
}

/// The index of the first catalog operation whose id is `id`.
pub open spec fn catalog_index(id: Seq<char>) -> Option<int> {
    find_index_from(operation_catalog(), id, 0)
}

/// A found index lies in the searched range and names an operation with that id.
pub proof fn lemma_find_index_bounds(ops: Seq<OperationDefinition>, id: Seq<char>, i: int)
    ensures
        find_index_from(ops, id, i) matches Some(k) ==> i <= k < ops.len()
            && ops[k].operation_id@ == id,
    decreases ops.len() - i,
{
    if 0 <= i < ops.len() && ops[i].operation_id@ != id {
        lemma_find_index_bounds(ops, id, i + 1);
    }
}

/// Looks up an operation by exact id; the first match in catalog order wins.
pub fn find_operation(operation_id: &str) -> (r: Result<&'static OperationDefinition, ClientError>)
    ensures
        match catalog_index(operation_id@) {
            Some(k) => r matches Ok(op) && *op == operation_catalog()[k],
            None => r matches Err(e) && is_unknown_operation(e, operation_id@),
        },
{
    let ops = openapi_operations();
    let mut i: usize = 0;
    while i < ops.len()
        invariant
            ops@ == operation_catalog(),
            i <= ops@.len(),
            catalog_index(operation_id@) == find_index_from(ops@, operation_id@, i as int),
        decreases ops.len() - i,
    {
        if same_text(ops[i].operation_id, operation_id) {
            return Ok(&ops[i]);
        }
        i = i + 1;
    }
    Err(ClientError::UnknownOperation(operation_id.to_owned()))
}

} // verus!
