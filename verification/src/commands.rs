//! `alberto node *`, `tenant *`, `admin *`: which NodeManagerService request
//! each command sends, after the JSON flags have been checked.
use vstd::prelude::*;

use crate::cli::{AdminCmd, GrpcOpts, NodeCmd, TenantCmd};
use crate::json::{is_json, json_accepts};
use crate::text::{concat2, owned};

verus! {

/// A command line that cannot be sent.
pub enum CmdError {
    /// A flag that must hold JSON does not.
    InvalidJson { flag: String },
}

impl CmdError {
    /// The message shown to the user.
    pub fn describe(&self) -> (r: String)
        ensures
            r@ == match self {
                CmdError::InvalidJson { flag } => flag@ + " no es JSON valido"@,
            },
    {
        match self {
            CmdError::InvalidJson { flag } => concat2(flag.as_str(), " no es JSON valido"),
        }
    }
}

/// Checks that a flag holds JSON before it is sent to the server.
pub fn valid_json(s: &str, flag: &str) -> (r: Result<(), CmdError>)
    ensures
        r is Ok == json_accepts(s@),
        r matches Err(CmdError::InvalidJson { flag: f }) ==> f@ == flag@,
{
    if is_json(s) {
        Ok(())
    } else {
        Err(CmdError::InvalidJson { flag: owned(flag) })
    }
}

/// A request of NodeManagerService, field for field as the service takes it.
pub enum NmRequest {
    NodeGet { unique_id: String },
    Ids { ids: Vec<String>, node_type: String },
    ByType { tenant: String, node_type: String },
    ByPath { tenant: String, path: String },
    NodeChild { unique_id: String, secondary: bool },
    User { username: String, password: String },
    Datamerge { unique_id: String, data_json: String },
    DataUpdate { unique_id: String, data_json: String },
    BulkDatamerge { changes_json: String },
    Patch { envelope_path: String, path: Vec<String>, data_json: String },
    Get { node_path: String, path: Vec<String> },
    NodeByName { name: String },
    NodeCreate { parent_id: String, data_json: String, node_type: String },
    AddSecondaryParent { child_id: String, parent_id: String },
    RemoveSecondaryParent { child_id: String, parent_id: String },
    TenantGet { tenant: String },
    TenantCreate {
        tenant: String,
        title: String,
        description: String,
        dni: String,
        company_name: String,
        email: String,
    },
    DocLib { tenant: String },
    Home { tenant: String, node_type: String },
    Package { tenant: String, node_type: String },
    Folder {
        parent_id: String,
        data_json: String,
        name: String,
        title: String,
        description: String,
    },
    DefaultGroup { name: String, parent_id: String },
    DefaultColaboratorGroup { parent_id: String },
    DefaultConsumerGroup { parent_id: String },
    DefaultAdministratorGroup { parent_id: String },
    Indexs,
    DocLibsTypes,
}

/// The path under which NodeManagerService is reached.
pub const NM_SERVICE_PATH: &'static str = "/nodemanager.NodeManagerService/";

/// The method of NodeManagerService that a request calls: the one named
/// like its variant.
pub open spec fn nm_method_of(r: NmRequest) -> Seq<char> {
    match r {
        NmRequest::NodeGet { .. } => "NodeGet"@,
        NmRequest::Ids { .. } => "Ids"@,
        NmRequest::ByType { .. } => "ByType"@,
        NmRequest::ByPath { .. } => "ByPath"@,
        NmRequest::NodeChild { .. } => "NodeChild"@,
        NmRequest::User { .. } => "User"@,
        NmRequest::Datamerge { .. } => "Datamerge"@,
        NmRequest::DataUpdate { .. } => "DataUpdate"@,
        NmRequest::BulkDatamerge { .. } => "BulkDatamerge"@,
        NmRequest::Patch { .. } => "Patch"@,
        NmRequest::Get { .. } => "Get"@,
        NmRequest::NodeByName { .. } => "NodeByName"@,
        NmRequest::NodeCreate { .. } => "NodeCreate"@,
        NmRequest::AddSecondaryParent { .. } => "AddSecondaryParent"@,
        NmRequest::RemoveSecondaryParent { .. } => "RemoveSecondaryParent"@,
        NmRequest::TenantGet { .. } => "TenantGet"@,
        NmRequest::TenantCreate { .. } => "TenantCreate"@,
        NmRequest::DocLib { .. } => "DocLib"@,
        NmRequest::Home { .. } => "Home"@,
        NmRequest::Package { .. } => "Package"@,
        NmRequest::Folder { .. } => "Folder"@,
        NmRequest::DefaultGroup { .. } => "DefaultGroup"@,
        NmRequest::DefaultColaboratorGroup { .. } => "DefaultColaboratorGroup"@,
        NmRequest::DefaultConsumerGroup { .. } => "DefaultConsumerGroup"@,
        NmRequest::DefaultAdministratorGroup { .. } => "DefaultAdministratorGroup"@,
        NmRequest::Indexs => "Indexs"@,
        NmRequest::DocLibsTypes => "DocLibsTypes"@,
    }
}

impl NmRequest {
    /// The name of the method that the request calls.
    pub fn method_name(&self) -> (m: &'static str)
        ensures
            m@ == nm_method_of(*self),
    {
        match self {
            NmRequest::NodeGet { .. } => "NodeGet",
            NmRequest::Ids { .. } => "Ids",
            NmRequest::ByType { .. } => "ByType",
            NmRequest::ByPath { .. } => "ByPath",
            NmRequest::NodeChild { .. } => "NodeChild",
            NmRequest::User { .. } => "User",
            NmRequest::Datamerge { .. } => "Datamerge",
            NmRequest::DataUpdate { .. } => "DataUpdate",
            NmRequest::BulkDatamerge { .. } => "BulkDatamerge",
            NmRequest::Patch { .. } => "Patch",
            NmRequest::Get { .. } => "Get",
            NmRequest::NodeByName { .. } => "NodeByName",
            NmRequest::NodeCreate { .. } => "NodeCreate",
            NmRequest::AddSecondaryParent { .. } => "AddSecondaryParent",
            NmRequest::RemoveSecondaryParent { .. } => "RemoveSecondaryParent",
            NmRequest::TenantGet { .. } => "TenantGet",
            NmRequest::TenantCreate { .. } => "TenantCreate",
            NmRequest::DocLib { .. } => "DocLib",
            NmRequest::Home { .. } => "Home",
            NmRequest::Package { .. } => "Package",
            NmRequest::Folder { .. } => "Folder",
            NmRequest::DefaultGroup { .. } => "DefaultGroup",
            NmRequest::DefaultColaboratorGroup { .. } => "DefaultColaboratorGroup",
            NmRequest::DefaultConsumerGroup { .. } => "DefaultConsumerGroup",
            NmRequest::DefaultAdministratorGroup { .. } => "DefaultAdministratorGroup",
            NmRequest::Indexs => "Indexs",
            NmRequest::DocLibsTypes => "DocLibsTypes",
        }
    }

    /// The gRPC path of the method that the request calls.
    pub fn method_path(&self) -> (p: String)
        ensures
            p@ == NM_SERVICE_PATH@ + nm_method_of(*self),
    {
        concat2(NM_SERVICE_PATH, self.method_name())
    }
}

/// The connection options of a node command.
pub open spec fn node_grpc(cmd: NodeCmd) -> GrpcOpts {
    match cmd {
        NodeCmd::Get { grpc, .. } => grpc,
        NodeCmd::Ids { grpc, .. } => grpc,
        NodeCmd::ByType { grpc, .. } => grpc,
        NodeCmd::ByPath { grpc, .. } => grpc,
        NodeCmd::Children { grpc, .. } => grpc,
        NodeCmd::User { grpc, .. } => grpc,
        NodeCmd::Datamerge { grpc, .. } => grpc,
        NodeCmd::DataUpdate { grpc, .. } => grpc,
        NodeCmd::BulkDatamerge { grpc, .. } => grpc,
        NodeCmd::Patch { grpc, .. } => grpc,
        NodeCmd::GetIn { grpc, .. } => grpc,
        NodeCmd::ByName { grpc, .. } => grpc,
        NodeCmd::Create { grpc, .. } => grpc,
        NodeCmd::AddSecondary { grpc, .. } => grpc,
        NodeCmd::RemoveSecondary { grpc, .. } => grpc,
    }
}

/// The JSON flag of a node command, with its name, when it has one.
pub open spec fn node_json_flag(cmd: NodeCmd) -> Option<(Seq<char>, Seq<char>)> {
    match cmd {
        NodeCmd::Datamerge { data, .. } => Some((data@, "--data"@)),
        NodeCmd::DataUpdate { data, .. } => Some((data@, "--data"@)),
        NodeCmd::BulkDatamerge { changes, .. } => Some((changes@, "--changes"@)),
        NodeCmd::Patch { data, .. } => Some((data@, "--data"@)),
        NodeCmd::Create { data, .. } => Some((data@, "--data"@)),
        _ => None,
    }
}

/// The request that a node command sends.
pub open spec fn node_request_for(cmd: NodeCmd, req: NmRequest) -> bool {
    match cmd {
        NodeCmd::Get { id, .. } => req == NmRequest::NodeGet { unique_id: id },
        NodeCmd::Ids { ids, node_type, .. } => req == NmRequest::Ids { ids, node_type },
        NodeCmd::ByType { node_type, tenant, .. } => req == NmRequest::ByType { tenant, node_type },
        NodeCmd::ByPath { path, tenant, .. } => req == NmRequest::ByPath { tenant, path },
        NodeCmd::Children { id, secondary, .. } => req == NmRequest::NodeChild {
            unique_id: id,
            secondary,
        },
        NodeCmd::User { username, .. } => req matches NmRequest::User { username: u, password: p }
            && u == username && p@.len() == 0,
        NodeCmd::Datamerge { id, data, .. } => req == NmRequest::Datamerge {
            unique_id: id,
            data_json: data,
        },
        NodeCmd::DataUpdate { id, data, .. } => req == NmRequest::DataUpdate {
            unique_id: id,
            data_json: data,
        },
        NodeCmd::BulkDatamerge { changes, .. } => req == NmRequest::BulkDatamerge {
            changes_json: changes,
        },
        NodeCmd::Patch { envelope_path, path, data, .. } => req == NmRequest::Patch {
            envelope_path,
            path,
            data_json: data,
        },
        NodeCmd::GetIn { node_path, path, .. } => req == NmRequest::Get { node_path, path },
        NodeCmd::ByName { name, .. } => req == NmRequest::NodeByName { name },
        NodeCmd::Create { parent, node_type, data, .. } => req == NmRequest::NodeCreate {
            parent_id: parent,
            data_json: data,
            node_type,
        },
        NodeCmd::AddSecondary { child_id, parent_id, .. } => req
            == NmRequest::AddSecondaryParent { child_id, parent_id },
        NodeCmd::RemoveSecondary { child_id, parent_id, .. } => req
            == NmRequest::RemoveSecondaryParent { child_id, parent_id },
    }
}

/// What a command gives: the error for a JSON flag that does not parse, else
/// the request and the connection options.
pub open spec fn command_outcome(
    json_flag: Option<(Seq<char>, Seq<char>)>,
    grpc: GrpcOpts,
    matches_request: spec_fn(NmRequest) -> bool,
    r: Result<(NmRequest, GrpcOpts), CmdError>,
) -> bool {
    match json_flag {
        Some((value, flag)) if !json_accepts(value) => r matches Err(
            CmdError::InvalidJson { flag: f },
        ) && f@ == flag,
        _ => r matches Ok((req, g)) && matches_request(req) && g == grpc,
    }
}

/// Checks the JSON flags of a node command and builds its request.
pub fn node_request(cmd: NodeCmd) -> (r: Result<(NmRequest, GrpcOpts), CmdError>)
    ensures
        command_outcome(
            node_json_flag(cmd),
            node_grpc(cmd),
            |req: NmRequest| node_request_for(cmd, req),
            r,
        ),
{
    match cmd {
        NodeCmd::Get { id, grpc } => Ok((NmRequest::NodeGet { unique_id: id }, grpc)),
        NodeCmd::Ids { ids, node_type, grpc } => Ok((NmRequest::Ids { ids, node_type }, grpc)),
        NodeCmd::ByType { node_type, tenant, grpc } => Ok(
            (NmRequest::ByType { tenant, node_type }, grpc),
        ),
        NodeCmd::ByPath { path, tenant, grpc } => Ok((NmRequest::ByPath { tenant, path }, grpc)),
        NodeCmd::Children { id, secondary, grpc } => Ok(
            (NmRequest::NodeChild { unique_id: id, secondary }, grpc),
        ),
        NodeCmd::User { username, grpc } => Ok(
            (NmRequest::User { username, password: String::new() }, grpc),
        ),
        NodeCmd::Datamerge { id, data, grpc } => {
            valid_json(data.as_str(), "--data")?;
            Ok((NmRequest::Datamerge { unique_id: id, data_json: data }, grpc))
        },
        NodeCmd::DataUpdate { id, data, grpc } => {
            valid_json(data.as_str(), "--data")?;
            Ok((NmRequest::DataUpdate { unique_id: id, data_json: data }, grpc))
        },
        NodeCmd::BulkDatamerge { changes, grpc } => {
            valid_json(changes.as_str(), "--changes")?;
            Ok((NmRequest::BulkDatamerge { changes_json: changes }, grpc))
        },
        NodeCmd::Patch { envelope_path, path, data, grpc } => {
            valid_json(data.as_str(), "--data")?;
            Ok((NmRequest::Patch { envelope_path, path, data_json: data }, grpc))
        },
        NodeCmd::GetIn { node_path, path, grpc } => Ok((NmRequest::Get { node_path, path }, grpc)),
        NodeCmd::ByName { name, grpc } => Ok((NmRequest::NodeByName { name }, grpc)),
        NodeCmd::Create { parent, node_type, data, grpc } => {
            valid_json(data.as_str(), "--data")?;
            Ok((NmRequest::NodeCreate { parent_id: parent, data_json: data, node_type }, grpc))
        },
        NodeCmd::AddSecondary { child_id, parent_id, grpc } => Ok(
            (NmRequest::AddSecondaryParent { child_id, parent_id }, grpc),
        ),
        NodeCmd::RemoveSecondary { child_id, parent_id, grpc } => Ok(
            (NmRequest::RemoveSecondaryParent { child_id, parent_id }, grpc),
        ),
    }
}

/// The connection options of a tenant command.
pub open spec fn tenant_grpc(cmd: TenantCmd) -> GrpcOpts {
    match cmd {
        TenantCmd::Get { grpc, .. } => grpc,
        TenantCmd::Create { grpc, .. } => grpc,
        TenantCmd::Doclib { grpc, .. } => grpc,
        TenantCmd::Home { grpc, .. } => grpc,
        TenantCmd::Package { grpc, .. } => grpc,
    }
}

/// The request that a tenant command sends.
pub open spec fn tenant_request_for(cmd: TenantCmd, req: NmRequest) -> bool {
    match cmd {
        TenantCmd::Get { tenant, .. } => req == NmRequest::TenantGet { tenant },
        TenantCmd::Create { tenant, title, description, dni, company, email, .. } => req
            == NmRequest::TenantCreate {
            tenant,
            title,
            description,
            dni,
            company_name: company,
            email,
        },
        TenantCmd::Doclib { tenant, .. } => req == NmRequest::DocLib { tenant },
        TenantCmd::Home { tenant, node_type, .. } => req == NmRequest::Home { tenant, node_type },
        TenantCmd::Package { tenant, node_type, .. } => req == NmRequest::Package {
            tenant,
            node_type,
        },
    }
}

/// Builds the request of a tenant command (none of them carries JSON).
pub fn tenant_request(cmd: TenantCmd) -> (r: (NmRequest, GrpcOpts))
    ensures
        tenant_request_for(cmd, r.0),
        r.1 == tenant_grpc(cmd),
{
    match cmd {
        TenantCmd::Get { tenant, grpc } => (NmRequest::TenantGet { tenant }, grpc),
        TenantCmd::Create { tenant, title, description, dni, company, email, grpc } => (
            NmRequest::TenantCreate {
                tenant,
                title,
                description,
                dni,
                company_name: company,
                email,
            },
            grpc,
        ),
        TenantCmd::Doclib { tenant, grpc } => (NmRequest::DocLib { tenant }, grpc),
        TenantCmd::Home { tenant, node_type, grpc } => (NmRequest::Home { tenant, node_type }, grpc),
        TenantCmd::Package { tenant, node_type, grpc } => (
            NmRequest::Package { tenant, node_type },
            grpc,
        ),
    }
}

/// The connection options of an admin command.
pub open spec fn admin_grpc(cmd: AdminCmd) -> GrpcOpts {
    match cmd {
        AdminCmd::Folder { grpc, .. } => grpc,
        AdminCmd::DefaultGroup { grpc, .. } => grpc,
        AdminCmd::ColaboratorGroup { grpc, .. } => grpc,
        AdminCmd::ConsumerGroup { grpc, .. } => grpc,
        AdminCmd::AdministratorGroup { grpc, .. } => grpc,
        AdminCmd::Indexs { grpc } => grpc,
        AdminCmd::DoclibTypes { grpc } => grpc,
    }
}

/// The JSON flag of an admin command, with its name, when it has one.
pub open spec fn admin_json_flag(cmd: AdminCmd) -> Option<(Seq<char>, Seq<char>)> {
    match cmd {
        AdminCmd::Folder { data, .. } => Some((data@, "--data"@)),
        _ => None,
    }
}

/// The request that an admin command sends.
pub open spec fn admin_request_for(cmd: AdminCmd, req: NmRequest) -> bool {
    match cmd {
        AdminCmd::Folder { parent, name, title, description, data, .. } => req
            == NmRequest::Folder { parent_id: parent, data_json: data, name, title, description },
        AdminCmd::DefaultGroup { name, parent, .. } => req == NmRequest::DefaultGroup {
            name,
            parent_id: parent,
        },
        AdminCmd::ColaboratorGroup { parent, .. } => req == NmRequest::DefaultColaboratorGroup {
            parent_id: parent,
        },
        AdminCmd::ConsumerGroup { parent, .. } => req == NmRequest::DefaultConsumerGroup {
            parent_id: parent,
        },
        AdminCmd::AdministratorGroup { parent, .. } => req
            == NmRequest::DefaultAdministratorGroup { parent_id: parent },
        AdminCmd::Indexs { .. } => req == NmRequest::Indexs,
        AdminCmd::DoclibTypes { .. } => req == NmRequest::DocLibsTypes,
    }
}

/// Checks the JSON flag of an admin command and builds its request.
pub fn admin_request(cmd: AdminCmd) -> (r: Result<(NmRequest, GrpcOpts), CmdError>)
    ensures
        command_outcome(
            admin_json_flag(cmd),
            admin_grpc(cmd),
            |req: NmRequest| admin_request_for(cmd, req),
            r,
        ),
{
    match cmd {
        AdminCmd::Folder { parent, name, title, description, data, grpc } => {
            valid_json(data.as_str(), "--data")?;
            Ok(
                (
                    NmRequest::Folder {
                        parent_id: parent,
                        data_json: data,
                        name,
                        title,
                        description,
                    },
                    grpc,
                ),
            )
        },
        AdminCmd::DefaultGroup { name, parent, grpc } => Ok(
            (NmRequest::DefaultGroup { name, parent_id: parent }, grpc),
        ),
        AdminCmd::ColaboratorGroup { parent, grpc } => Ok(
            (NmRequest::DefaultColaboratorGroup { parent_id: parent }, grpc),
        ),
        AdminCmd::ConsumerGroup { parent, grpc } => Ok(
            (NmRequest::DefaultConsumerGroup { parent_id: parent }, grpc),
        ),
        AdminCmd::AdministratorGroup { parent, grpc } => Ok(
            (NmRequest::DefaultAdministratorGroup { parent_id: parent }, grpc),
        ),
        AdminCmd::Indexs { grpc } => Ok((NmRequest::Indexs, grpc)),
        AdminCmd::DoclibTypes { grpc } => Ok((NmRequest::DocLibsTypes, grpc)),
    }
}

/// Every argument of a node command reaches the request field that bears its
/// meaning: an id as `unique_id`, a child as `child_id` and a parent as
/// `parent_id`, a tenant as `tenant`, a type as `node_type`, JSON as
/// `data_json` or `changes_json`; `user` asks with an empty password.
pub proof fn law_node_request_forwards_arguments(cmd: NodeCmd, req: NmRequest)
    requires
        node_request_for(cmd, req),
    ensures
        cmd matches NodeCmd::Get { id, .. } ==> (req matches NmRequest::NodeGet { unique_id }
            && unique_id == id),
        cmd matches NodeCmd::Ids { ids, node_type, .. } ==> (req matches NmRequest::Ids {
            ids: i,
            node_type: t,
        } && i == ids && t == node_type),
        cmd matches NodeCmd::ByType { node_type, tenant, .. } ==> (req matches NmRequest::ByType {
            tenant: te,
            node_type: t,
        } && te == tenant && t == node_type),
        cmd matches NodeCmd::ByPath { path, tenant, .. } ==> (req matches NmRequest::ByPath {
            tenant: te,
            path: p,
        } && te == tenant && p == path),
        cmd matches NodeCmd::Children { id, secondary, .. } ==> (req matches NmRequest::NodeChild {
            unique_id,
            secondary: s,
        } && unique_id == id && s == secondary),
        cmd matches NodeCmd::User { username, .. } ==> (req matches NmRequest::User {
            username: u,
            password,
        } && u == username && password@.len() == 0),
        cmd matches NodeCmd::Datamerge { id, data, .. } ==> (req matches NmRequest::Datamerge {
            unique_id,
            data_json,
        } && unique_id == id && data_json == data),
        cmd matches NodeCmd::DataUpdate { id, data, .. } ==> (req matches NmRequest::DataUpdate {
            unique_id,
            data_json,
        } && unique_id == id && data_json == data),
        cmd matches NodeCmd::BulkDatamerge { changes, .. } ==> (req matches NmRequest::BulkDatamerge {
            changes_json,
        } && changes_json == changes),
        cmd matches NodeCmd::Patch { envelope_path, path, data, .. } ==> (req matches NmRequest::Patch {
            envelope_path: e,
            path: p,
            data_json,
        } && e == envelope_path && p == path && data_json == data),
        cmd matches NodeCmd::GetIn { node_path, path, .. } ==> (req matches NmRequest::Get {
            node_path: n,
            path: p,
        } && n == node_path && p == path),
        cmd matches NodeCmd::ByName { name, .. } ==> (req matches NmRequest::NodeByName { name: n }
            && n == name),
        cmd matches NodeCmd::Create { parent, node_type, data, .. } ==> (req matches NmRequest::NodeCreate {
            parent_id,
            data_json,
            node_type: t,
        } && parent_id == parent && data_json == data && t == node_type),
        cmd matches NodeCmd::AddSecondary { child_id, parent_id, .. } ==> (req matches NmRequest::AddSecondaryParent {
            child_id: c,
            parent_id: p,
        } && c == child_id && p == parent_id),
        cmd matches NodeCmd::RemoveSecondary { child_id, parent_id, .. } ==> (req matches NmRequest::RemoveSecondaryParent {
            child_id: c,
            parent_id: p,
        } && c == child_id && p == parent_id),
{
}

/// Every argument of a tenant command reaches the request field of the same
/// meaning: the tenant as `tenant`, the type as `node_type`, the company as
/// `company_name`, each other field under its own name.
pub proof fn law_tenant_request_forwards_arguments(cmd: TenantCmd, req: NmRequest)
    requires
        tenant_request_for(cmd, req),
    ensures
        cmd matches TenantCmd::Get { tenant, .. } ==> (req matches NmRequest::TenantGet { tenant: t }
            && t == tenant),
        cmd matches TenantCmd::Create { tenant, title, description, dni, company, email, .. } ==> (
        req matches NmRequest::TenantCreate {
            tenant: t,
            title: ti,
            description: d,
            dni: n,
            company_name,
            email: e,
        } && t == tenant && ti == title && d == description && n == dni && company_name == company
            && e == email),
        cmd matches TenantCmd::Doclib { tenant, .. } ==> (req matches NmRequest::DocLib { tenant: t }
            && t == tenant),
        cmd matches TenantCmd::Home { tenant, node_type, .. } ==> (req matches NmRequest::Home {
            tenant: t,
            node_type: ty,
        } && t == tenant && ty == node_type),
        cmd matches TenantCmd::Package { tenant, node_type, .. } ==> (req matches NmRequest::Package {
            tenant: t,
            node_type: ty,
        } && t == tenant && ty == node_type),
{
}

/// Every argument of an admin command reaches the request field of the same
/// meaning: the parent as `parent_id`, the JSON as `data_json`, each other
/// field under its own name.
pub proof fn law_admin_request_forwards_arguments(cmd: AdminCmd, req: NmRequest)
    requires
        admin_request_for(cmd, req),
    ensures
        cmd matches AdminCmd::Folder { parent, name, title, description, data, .. } ==> (
        req matches NmRequest::Folder {
            parent_id,
            data_json,
            name: n,
            title: t,
            description: d,
        } && parent_id == parent && data_json == data && n == name && t == title && d
            == description),
        cmd matches AdminCmd::DefaultGroup { name, parent, .. } ==> (req matches NmRequest::DefaultGroup {
            name: n,
            parent_id,
        } && n == name && parent_id == parent),
        cmd matches AdminCmd::ColaboratorGroup { parent, .. } ==> (
        req matches NmRequest::DefaultColaboratorGroup { parent_id } && parent_id == parent),
        cmd matches AdminCmd::ConsumerGroup { parent, .. } ==> (
        req matches NmRequest::DefaultConsumerGroup { parent_id } && parent_id == parent),
        cmd matches AdminCmd::AdministratorGroup { parent, .. } ==> (
        req matches NmRequest::DefaultAdministratorGroup { parent_id } && parent_id == parent),
        cmd is Indexs ==> req is Indexs,
        cmd is DoclibTypes ==> req is DocLibsTypes,
{
}

} // verus!
