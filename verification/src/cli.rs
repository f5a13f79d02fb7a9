//! The command line as plain data: what the user asked for, once parsed.
use vstd::prelude::*;

use crate::config::{effective_api_key, effective_endpoint, resolve, Config, ResolveError};
use crate::config::{chosen_name, profile_missing};
use crate::text::opt_chars;

verus! {

/// Output format for monadic replies.
#[derive(Clone, Copy, PartialEq, Eq, Structural, Debug)]
pub enum Output {
    /// Indented JSON (default).
    Pretty,
    /// Compact JSON on one line (for pipes).
    Json,
    /// `result_json` exactly as the server sent it.
    Raw,
    /// Table (only for results that are lists).
    Table,
}

/// A connection once flags, environment and profile are combined.
pub struct Conn {
    pub endpoint: String,
    pub api_key: String,
}

/// Connection options shared by every command that talks to the server.
#[derive(Clone)]
pub struct GrpcOpts {
    /// gRPC endpoint (default: the profile's, or `http://127.0.0.1:9090`).
    pub endpoint: Option<String>,
    /// API key (`x-api-key` metadata).
    pub api_key: Option<String>,
    /// Profile of `~/.config/alberto/config.toml`.
    pub profile: Option<String>,
    /// Output format.
    pub output: Output,
}

impl GrpcOpts {
    /// Combines these options with the configuration file's profiles.
    pub fn resolve(&self, cfg: &Config) -> (r: Result<Conn, ResolveError>)
        ensures
            ({
                let prof = opt_chars(self.profile);
                if profile_missing(cfg, prof) {
                    r matches Err(ResolveError::ProfileNotFound { name }) && Some(name@)
                        == chosen_name(cfg, prof)
                } else {
                    match effective_api_key(cfg, prof, opt_chars(self.api_key)) {
                        None => r matches Err(ResolveError::MissingApiKey),
                        Some(k) => r matches Ok(c) && c.endpoint@ == effective_endpoint(
                            cfg,
                            prof,
                            opt_chars(self.endpoint),
                        ) && c.api_key@ == k,
                    }
                }
            }),
    {
        let profile: Option<&str> = match &self.profile {
            Some(p) => Some(p.as_str()),
            None => None,
        };
        let endpoint = crate::text::clone_opt(&self.endpoint);
        let api_key = crate::text::clone_opt(&self.api_key);
        match resolve(cfg, profile, endpoint, api_key) {
            Ok((endpoint, api_key)) => Ok(Conn { endpoint, api_key }),
            Err(e) => Err(e),
        }
    }
}

/// Arguments of `alberto upload` (plain/assoc/signed variants).
pub struct UploadArgs {
    /// File to upload.
    pub file: String,
    /// Document type of the node (e.g. factura).
    pub node_type: String,
    /// Title of the node (default: the file name).
    pub title: Option<String>,
    /// Description.
    pub description: String,
    /// unique_id of the parent node (must exist).
    pub parent: String,
    /// Username that uploads (must exist).
    pub user: String,
    /// Tenant (informative; the effective one comes from the parent).
    pub tenant: String,
    /// Node metadata as JSON, e.g. '{"rut":"1-9"}'.
    pub data: String,
    /// unique_id to attach as secondary_parent (assoc variant).
    pub assoc: Option<String>,
    /// unique_id of the signed content to reference (signed variant).
    pub signed_ref: Option<String>,
    pub grpc: GrpcOpts,
    /// Total attempts on network failures or timeouts.
    pub retries: u32,
}

/// `alberto node *`.
pub enum NodeCmd {
    Get { id: String, grpc: GrpcOpts },
    Ids { ids: Vec<String>, node_type: String, grpc: GrpcOpts },
    ByType { node_type: String, tenant: String, grpc: GrpcOpts },
    ByPath { path: String, tenant: String, grpc: GrpcOpts },
    Children { id: String, secondary: bool, grpc: GrpcOpts },
    User { username: String, grpc: GrpcOpts },
    Datamerge { id: String, data: String, grpc: GrpcOpts },
    DataUpdate { id: String, data: String, grpc: GrpcOpts },
    BulkDatamerge { changes: String, grpc: GrpcOpts },
    Patch { envelope_path: String, path: Vec<String>, data: String, grpc: GrpcOpts },
    GetIn { node_path: String, path: Vec<String>, grpc: GrpcOpts },
    ByName { name: String, grpc: GrpcOpts },
    Create { parent: String, node_type: String, data: String, grpc: GrpcOpts },
    AddSecondary { child_id: String, parent_id: String, grpc: GrpcOpts },
    RemoveSecondary { child_id: String, parent_id: String, grpc: GrpcOpts },
}

/// `alberto tenant *`.
pub enum TenantCmd {
    Get { tenant: String, grpc: GrpcOpts },
    Create {
        tenant: String,
        title: String,
        description: String,
        dni: String,
        company: String,
        email: String,
        grpc: GrpcOpts,
    },
    Doclib { tenant: String, grpc: GrpcOpts },
    Home { tenant: String, node_type: String, grpc: GrpcOpts },
    Package { tenant: String, node_type: String, grpc: GrpcOpts },
}

/// `alberto admin *`.
pub enum AdminCmd {
    Folder {
        parent: String,
        name: String,
        title: String,
        description: String,
        data: String,
        grpc: GrpcOpts,
    },
    DefaultGroup { name: String, parent: String, grpc: GrpcOpts },
    ColaboratorGroup { parent: String, grpc: GrpcOpts },
    ConsumerGroup { parent: String, grpc: GrpcOpts },
    AdministratorGroup { parent: String, grpc: GrpcOpts },
    Indexs { grpc: GrpcOpts },
    DoclibTypes { grpc: GrpcOpts },
}

/// `alberto config *`.
pub enum ConfigCmd {
    /// Creates an example config if there is none.
    Init,
    /// Lists the configured profiles.
    List,
    /// Shows the effective values of a profile (API key masked).
    Show { profile: Option<String> },
}

} // verus!
