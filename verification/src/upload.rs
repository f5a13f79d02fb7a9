//! `alberto upload`: checks of the command line, the transfer metadata, and
//! the retry policy of the streaming upload (one idempotency key for every
//! attempt, so that a retry never duplicates the document).
use vstd::prelude::*;

use crate::cli::{Conn, GrpcOpts, UploadArgs};
use crate::commands::{valid_json, CmdError};
use crate::config::{or_empty, resolves_to, Config, ResolveError};
use crate::json::{json_accepts, json_quoted, json_quoted_of};
use crate::text::{concat2, concat3, decimal, decimal_text, opt_chars, owned, push_str};

verus! {

/// Size of each content chunk of the stream (64 KiB).
pub const CHUNK_SIZE: usize = 65536;

/// The first message of the stream: what the server needs to create the node.
pub struct TransferMeta {
    pub tenant: String,
    pub node_type: String,
    pub title: String,
    pub description: String,
    pub filename: String,
    pub parent_id: String,
    pub username: String,
    pub data_json: String,
    pub variant: String,
    pub assoc_id: String,
    pub ref_signed_id: String,
    /// Idempotency key: one per invocation, shared by all its attempts.
    pub client_ref: String,
}

/// Why an upload cannot start.
pub enum UploadError {
    /// `--assoc` and `--signed-ref` were both given.
    ExclusiveVariants,
    /// `--data` is not JSON.
    InvalidData(CmdError),
    /// The connection could not be resolved.
    Resolve(ResolveError),
    /// The path has no file name.
    InvalidPath,
}

impl UploadError {
    /// The message shown to the user; `config_path` is the profiles file.
    pub fn describe(&self, config_path: &str) -> (r: String)
        ensures
            r@ == match self {
                UploadError::ExclusiveVariants => "--assoc y --signed-ref son mutuamente excluyentes"@,
                UploadError::InvalidData(CmdError::InvalidJson { flag }) => flag@
                    + " no es JSON valido"@,
                UploadError::Resolve(e) => crate::config::describe_of(*e, config_path@),
                UploadError::InvalidPath => "ruta de archivo invalida"@,
            },
    {
        match self {
            UploadError::ExclusiveVariants => owned("--assoc y --signed-ref son mutuamente excluyentes"),
            UploadError::InvalidData(e) => e.describe(),
            UploadError::Resolve(e) => e.describe(config_path),
            UploadError::InvalidPath => owned("ruta de archivo invalida"),
        }
    }
}

/// `Path::file_name` of the path, as text: its last component, unless the
/// path ends in `..` or has none.
pub uninterp spec fn file_name_of(path: Seq<char>) -> Option<Seq<char>>;

/// Calls `std::path::Path::file_name` (lossily converted to text).
#[verifier::external_body]
fn file_name(path: &str) -> (r: Option<String>)
    ensures
        opt_chars(r) == file_name_of(path@),
{
    std::path::Path::new(path).file_name().map(|n| n.to_string_lossy().into_owned())
}

/// A lowercase hexadecimal digit.
pub open spec fn is_lower_hex(c: char) -> bool {
    ('0' <= c && c <= '9') || ('a' <= c && c <= 'f')
}

/// The hyphenated text of a random (version 4, RFC 4122 variant) UUID:
/// 32 lowercase hex digits in groups of 8-4-4-4-12, the version digit `4`
/// and a variant digit among `8`, `9`, `a`, `b`.
pub open spec fn is_uuid_v4_text(s: Seq<char>) -> bool {
    &&& s.len() == 36
    &&& forall|k: int|
        0 <= k < 36 ==> if k == 8 || k == 13 || k == 18 || k == 23 {
            #[trigger] s[k] == '-'
        } else {
            is_lower_hex(s[k])
        }
    &&& s[14] == '4'
    &&& (s[19] == '8' || s[19] == '9' || s[19] == 'a' || s[19] == 'b')
}

/// A fresh idempotency key: `uuid::Uuid::new_v4()` in its hyphenated form
/// (`Display` of `Uuid` writes lowercase hex with hyphens). Its random
/// digits are not stated; its shape is.
#[verifier::external_body]
fn new_client_ref() -> (r: String)
    ensures
        is_uuid_v4_text(r@),
{
    uuid::Uuid::new_v4().to_string()
}

/// The variant that the flags select: `assoc`, `signed` or `plain`.
pub open spec fn variant_of(a: UploadArgs) -> Seq<char> {
    if a.assoc is Some {
        "assoc"@
    } else if a.signed_ref is Some {
        "signed"@
    } else {
        "plain"@
    }
}

/// The flags `--assoc` and `--signed-ref` were both given.
pub open spec fn exclusive_violated(a: UploadArgs) -> bool {
    a.assoc is Some && a.signed_ref is Some
}

/// The metadata that an upload of `a` sends for the file name `filename`.
pub open spec fn meta_for(a: UploadArgs, filename: Seq<char>, m: TransferMeta) -> bool {
    &&& m.tenant == a.tenant
    &&& m.node_type == a.node_type
    &&& m.title@ == match a.title {
        Some(t) => t@,
        None => filename,
    }
    &&& m.description == a.description
    &&& m.filename@ == filename
    &&& m.parent_id == a.parent
    &&& m.username == a.user
    &&& m.data_json == a.data
    &&& m.variant@ == variant_of(a)
    &&& m.assoc_id@ == or_empty(a.assoc)
    &&& m.ref_signed_id@ == or_empty(a.signed_ref)
    &&& is_uuid_v4_text(m.client_ref@)
}

/// The metadata of an upload carries each argument in the field of the
/// same meaning: `--parent` as `parent_id`, `--user` as `username`, the
/// tenant, type, description and data as they were given, the file's name
/// as `filename`, and the title given, or else the file's name.
pub proof fn law_upload_meta_forwards_arguments(a: UploadArgs, filename: Seq<char>, m: TransferMeta)
    requires
        meta_for(a, filename, m),
    ensures
        m.parent_id == a.parent,
        m.username == a.user,
        m.tenant == a.tenant,
        m.node_type == a.node_type,
        m.description == a.description,
        m.data_json == a.data,
        m.filename@ == filename,
        a.title is None ==> m.title@ == filename,
        a.title matches Some(t) ==> m.title@ == t@,
        a.assoc matches Some(x) ==> m.assoc_id@ == x@,
        a.signed_ref matches Some(x) ==> m.ref_signed_id@ == x@,
        a.assoc is Some ==> m.variant@ == "assoc"@,
        a.assoc is None && a.signed_ref is Some ==> m.variant@ == "signed"@,
        a.assoc is None && a.signed_ref is None ==> m.variant@ == "plain"@,
{
}

/// Checks the flags of an upload before anything else is done.
pub fn check_upload_args(a: &UploadArgs) -> (r: Result<(), UploadError>)
    ensures
        exclusive_violated(*a) ==> r matches Err(UploadError::ExclusiveVariants),
        !exclusive_violated(*a) && !json_accepts(a.data@) ==> (r matches Err(
            UploadError::InvalidData(CmdError::InvalidJson { flag }),
        ) && flag@ == "--data"@),
        !exclusive_violated(*a) && json_accepts(a.data@) ==> r is Ok,
{
    if a.assoc.is_some() && a.signed_ref.is_some() {
        return Err(UploadError::ExclusiveVariants);
    }
    match valid_json(a.data.as_str(), "--data") {
        Ok(()) => Ok(()),
        Err(e) => Err(UploadError::InvalidData(e)),
    }
}

/// Everything an upload needs once the command line has been accepted.
pub struct UploadPlan {
    pub conn: Conn,
    pub meta: TransferMeta,
    pub retries: u32,
}

/// What a connection resolves to for these options.
pub open spec fn conn_resolves(cfg: &Config, grpc: GrpcOpts, r: Result<Conn, ResolveError>) -> bool {
    resolves_to(
        cfg,
        opt_chars(grpc.profile),
        opt_chars(grpc.endpoint),
        opt_chars(grpc.api_key),
        match r {
            Ok(c) => Ok((c.endpoint, c.api_key)),
            Err(e) => Err(e),
        },
    )
}

/// Checks the command line, resolves the connection and builds the metadata
/// of the upload, with a fresh idempotency key.
pub fn prepare_upload(a: UploadArgs, cfg: &Config) -> (r: Result<UploadPlan, UploadError>)
    ensures
        exclusive_violated(a) ==> r matches Err(UploadError::ExclusiveVariants),
        !exclusive_violated(a) && !json_accepts(a.data@) ==> r matches Err(
            UploadError::InvalidData(_),
        ),
        !exclusive_violated(a) && json_accepts(a.data@) ==> exists|c: Result<Conn, ResolveError>|
            #[trigger] conn_resolves(cfg, a.grpc, c) && match c {
                Err(e) => r == Err::<UploadPlan, UploadError>(UploadError::Resolve(e)),
                Ok(conn) => match file_name_of(a.file@) {
                    None => r matches Err(UploadError::InvalidPath),
                    Some(f) => r matches Ok(plan) && plan.conn == conn && meta_for(a, f, plan.meta)
                        && plan.retries == a.retries,
                },
            },
        r matches Ok(plan) ==> plan.meta.parent_id == a.parent && plan.meta.username == a.user
            && plan.meta.tenant == a.tenant && plan.meta.node_type == a.node_type
            && plan.meta.description == a.description && plan.meta.data_json == a.data,
{
    check_upload_args(&a)?;
    let c = a.grpc.resolve(cfg);
    assert(conn_resolves(cfg, a.grpc, c));
    let conn = match c {
        Ok(conn) => conn,
        Err(e) => {
            return Err(UploadError::Resolve(e));
        },
    };
    let filename = match file_name(a.file.as_str()) {
        Some(f) => f,
        None => {
            return Err(UploadError::InvalidPath);
        },
    };
    let variant = if a.assoc.is_some() {
        owned("assoc")
    } else if a.signed_ref.is_some() {
        owned("signed")
    } else {
        owned("plain")
    };
    let title = match a.title {
        Some(t) => t,
        None => filename.clone(),
    };
    let assoc_id = match a.assoc {
        Some(s) => s,
        None => String::new(),
    };
    let ref_signed_id = match a.signed_ref {
        Some(s) => s,
        None => String::new(),
    };
    let meta = TransferMeta {
        tenant: a.tenant,
        node_type: a.node_type,
        title,
        description: a.description,
        filename,
        parent_id: a.parent,
        username: a.user,
        data_json: a.data,
        variant,
        assoc_id,
        ref_signed_id,
        client_ref: new_client_ref(),
    };
    Ok(UploadPlan { conn, meta, retries: a.retries })
}

/// The summary printed for an upload reply: the compact JSON object of its
/// id, transfer id, status and whether it was a duplicate, keys in sorted
/// order, as `serde_json` writes such an object.
pub open spec fn transfer_summary_of(
    unique_id: Seq<char>,
    transfer_id: Seq<char>,
    status: Seq<char>,
    duplicated: bool,
) -> Seq<char> {
    "{\"duplicated\":"@ + (if duplicated {
        "true"@
    } else {
        "false"@
    }) + ",\"status\":"@ + json_quoted_of(status) + ",\"transfer_id\":"@ + json_quoted_of(
        transfer_id,
    ) + ",\"unique_id\":"@ + json_quoted_of(unique_id) + "}"@
}

/// Writes the summary of an upload reply.
pub fn transfer_summary(unique_id: &str, transfer_id: &str, status: &str, duplicated: bool) -> (r:
    String)
    ensures
        r@ == transfer_summary_of(unique_id@, transfer_id@, status@, duplicated),
{
    let mut r = concat2("{\"duplicated\":", if duplicated {
        "true"
    } else {
        "false"
    });
    push_str(&mut r, ",\"status\":");
    push_str(&mut r, json_quoted(status).as_str());
    push_str(&mut r, ",\"transfer_id\":");
    push_str(&mut r, json_quoted(transfer_id).as_str());
    push_str(&mut r, ",\"unique_id\":");
    push_str(&mut r, json_quoted(unique_id).as_str());
    push_str(&mut r, "}");
    r
}

/// The reply of the server to one attempt.
pub struct TransferReplyData {
    pub unique_id: String,
    pub transfer_id: String,
    pub status: String,
    pub result: String,
    pub duplicated: bool,
}

/// What a reply means: the summary is printed in both cases; only a
/// `completed` status is success, any other is a permanent business error.
pub enum ReplyOutcome {
    Done { summary: String },
    Failed { summary: String, error: String },
}

/// What to do after a failed attempt (network or timeout).
pub enum RetryStep {
    /// Log the failure, wait, and try again with the same metadata.
    Retry { log: String, wait_secs: u64 },
    /// Log the failure and stop: the attempts are used up.
    GiveUp { log: String, last_error: String },
}

/// The context given to the last error when the attempts are used up.
pub const EXHAUSTED: &'static str = "se agotaron los reintentos";

/// `b` is `a` after one call of `start_attempt`.
pub open spec fn attempt_started(a: UploadRetry, b: UploadRetry) -> bool {
    &&& a.attempts() < a.budget()
    &&& !a.replied()
    &&& b.attempts() == a.attempts() + 1
    &&& b.budget() == a.budget()
    &&& b.request() == a.request()
    &&& b.replied() == a.replied()
}

/// `b` is `a` after a reply was recorded with `on_reply`.
pub open spec fn reply_recorded(a: UploadRetry, b: UploadRetry) -> bool {
    &&& b.attempts() == a.attempts()
    &&& b.budget() == a.budget()
    &&& b.request() == a.request()
    &&& b.replied()
}

/// One step of an upload's run: an attempt starts, or a reply is recorded.
pub open spec fn run_step(a: UploadRetry, b: UploadRetry) -> bool {
    attempt_started(a, b) || reply_recorded(a, b)
}

/// The state of an upload across its attempts.
pub struct UploadRetry {
    attempts_made: u32,
    retries: u32,
    meta: TransferMeta,
    replied: bool,
}

impl UploadRetry {
    #[verifier::type_invariant]
    closed spec fn within_budget(self) -> bool {
        1 <= self.retries && self.attempts_made <= self.retries
    }

    /// Attempts started so far.
    pub closed spec fn attempts(self) -> nat {
        self.attempts_made as nat
    }

    /// Total attempts allowed.
    pub closed spec fn budget(self) -> nat {
        self.retries as nat
    }

    /// The metadata that every attempt sends.
    pub closed spec fn request(self) -> TransferMeta {
        self.meta
    }

    /// Whether the server has replied: the run is over.
    pub closed spec fn replied(self) -> bool {
        self.replied
    }

    /// A fresh state; `retries` must allow at least one attempt.
    pub fn new(meta: TransferMeta, retries: u32) -> (s: UploadRetry)
        requires
            retries >= 1,
        ensures
            s.attempts() == 0,
            s.budget() == retries,
            s.request() == meta,
            !s.replied(),
    {
        UploadRetry { attempts_made: 0, retries, meta, replied: false }
    }

    /// Whether another attempt may start: none after a reply, nor beyond the budget.
    pub fn can_attempt(&self) -> (b: bool)
        ensures
            b == (self.attempts() < self.budget() && !self.replied()),
            self.attempts() <= self.budget(),
    {
        proof {
            use_type_invariant(self);
        }
        self.attempts_made < self.retries && !self.replied
    }

    /// Starts the next attempt and returns its number (from 1).
    pub fn start_attempt(&mut self) -> (n: u32)
        requires
            old(self).attempts() < old(self).budget(),
            !old(self).replied(),
        ensures
            n == old(self).attempts() + 1,
            final(self).attempts() == n,
            final(self).budget() == old(self).budget(),
            final(self).request() == old(self).request(),
            attempt_started(*old(self), *final(self)),
    {
        proof {
            use_type_invariant(&*self);
        }
        self.attempts_made = self.attempts_made + 1;
        self.attempts_made
    }

    /// The metadata that every attempt sends.
    pub fn meta(&self) -> (m: &TransferMeta)
        ensures
            *m == self.request(),
    {
        &self.meta
    }

    /// Records the reply to an attempt, which ends the run, and interprets it.
    pub fn on_reply(&mut self, reply: &TransferReplyData) -> (r: ReplyOutcome)
        ensures
            reply_recorded(*old(self), *final(self)),
            ({
                let summary = transfer_summary_of(
                    reply.unique_id@,
                    reply.transfer_id@,
                    reply.status@,
                    reply.duplicated,
                );
                if reply.status@ == "completed"@ {
                    r matches ReplyOutcome::Done { summary: s } && s@ == summary
                } else {
                    r matches ReplyOutcome::Failed { summary: s, error } && s@ == summary && error@
                        == "upload fallo: "@ + reply.status@ + " ("@ + reply.result@ + ")"@
                }
            }),
    {
        proof {
            use_type_invariant(&*self);
        }
        self.replied = true;
        let summary = transfer_summary(
            reply.unique_id.as_str(),
            reply.transfer_id.as_str(),
            reply.status.as_str(),
            reply.duplicated,
        );
        let completed = owned("completed");
        if reply.status == completed {
            ReplyOutcome::Done { summary }
        } else {
            let mut error = concat3("upload fallo: ", reply.status.as_str(), " (");
            push_str(&mut error, reply.result.as_str());
            push_str(&mut error, ")");
            ReplyOutcome::Failed { summary, error }
        }
    }

    /// Decides what follows a failed attempt: wait as many seconds as the
    /// attempt's number and retry, unless it was the last attempt.
    pub fn on_failure(&self, message: &str) -> (r: RetryStep)
        ensures
            ({
                let log = "intento "@ + decimal(self.attempts()) + "/"@ + decimal(self.budget())
                    + " fallo: "@ + message@;
                if self.attempts() < self.budget() {
                    r matches RetryStep::Retry { log: l, wait_secs } && l@ == log && wait_secs
                        == self.attempts()
                } else {
                    r matches RetryStep::GiveUp { log: l, last_error } && l@ == log && last_error@
                        == message@
                }
            }),
    {
        proof {
            use_type_invariant(self);
        }
        let mut log = owned("intento ");
        let a = decimal_text(self.attempts_made as usize);
        push_str(&mut log, a.as_str());
        push_str(&mut log, "/");
        let t = decimal_text(self.retries as usize);
        push_str(&mut log, t.as_str());
        push_str(&mut log, " fallo: ");
        push_str(&mut log, message);
        if self.attempts_made < self.retries {
            RetryStep::Retry { log, wait_secs: self.attempts_made as u64 }
        } else {
            RetryStep::GiveUp { log, last_error: owned(message) }
        }
    }
}

/// In a run from a fresh state, a reply stays recorded and no attempt
/// follows it.
proof fn lemma_reply_ends_run(states: Seq<UploadRetry>, i: int, j: int)
    requires
        0 <= i <= j < states.len(),
        forall|k: int| 0 <= k < states.len() - 1 ==> run_step(#[trigger] states[k], states[k + 1]),
        states[i].replied(),
    ensures
        states[j].replied(),
    decreases j - i,
{
    if j > i {
        lemma_reply_ends_run(states, i, j - 1);
        assert(run_step(states[j - 1], states[j]));
    }
}

/// Attempts so far, budget and request along a run from a fresh state.
proof fn lemma_run_counts(states: Seq<UploadRetry>, i: int)
    requires
        0 <= i < states.len(),
        states[0].attempts() == 0,
        forall|k: int| 0 <= k < states.len() - 1 ==> run_step(#[trigger] states[k], states[k + 1]),
    ensures
        states[i].attempts() <= states[i].budget(),
        states[i].budget() == states[0].budget(),
        states[i].request() == states[0].request(),
    decreases i,
{
    if i > 0 {
        lemma_run_counts(states, i - 1);
        assert(run_step(states[i - 1], states[i]));
    }
}

/// However an upload's run goes (attempts started, a reply recorded), it
/// starts at most as many attempts as its budget, every attempt sends the
/// same metadata, and once the server has replied no attempt follows, so a
/// retry never sends the document again after it was received.
pub proof fn law_reply_ends_the_run(states: Seq<UploadRetry>)
    requires
        states.len() >= 1,
        states[0].attempts() == 0,
        forall|k: int| 0 <= k < states.len() - 1 ==> run_step(#[trigger] states[k], states[k + 1]),
    ensures
        forall|i: int| 0 <= i < states.len() ==> (#[trigger] states[i]).attempts() <= states[0].budget(),
        forall|i: int| 0 <= i < states.len() ==> (#[trigger] states[i]).request() == states[0].request(),
        forall|i: int, j: int|
            0 <= i <= j < states.len() - 1 && (#[trigger] states[i]).replied() ==> !attempt_started(
                #[trigger] states[j],
                states[j + 1],
            ),
{
    assert forall|i: int| 0 <= i < states.len() implies (#[trigger] states[i]).attempts()
        <= states[0].budget() && states[i].request() == states[0].request() by {
        lemma_run_counts(states, i);
    }
    assert forall|i: int, j: int|
        0 <= i <= j < states.len() - 1 && (#[trigger] states[i]).replied() implies !attempt_started(
        #[trigger] states[j],
        states[j + 1],
    ) by {
        lemma_reply_ends_run(states, i, j);
    }
}

/// Attempt `i` of a run that starts fresh and only starts attempts.
proof fn lemma_run_step(states: Seq<UploadRetry>, i: int)
    requires
        0 <= i < states.len(),
        states[0].attempts() == 0,
        forall|j: int| 0 <= j < states.len() - 1 ==> attempt_started(#[trigger] states[j], states[j + 1]),
    ensures
        states[i].attempts() == i,
        states[i].budget() == states[0].budget(),
        states[i].request() == states[0].request(),
    decreases i,
{
    if i > 0 {
        lemma_run_step(states, i - 1);
        assert(attempt_started(states[i - 1], states[i]));
    }
}

/// However an upload's retries go, it starts at most as many attempts as
/// its budget, and every attempt sends the same metadata (the same
/// `client_ref` among it), so the server can tell a retry from a new upload.
pub proof fn law_retries_bounded_same_request(states: Seq<UploadRetry>)
    requires
        states.len() >= 1,
        states[0].attempts() == 0,
        forall|j: int| 0 <= j < states.len() - 1 ==> attempt_started(#[trigger] states[j], states[j + 1]),
    ensures
        states.len() - 1 <= states[0].budget(),
        forall|i: int| 0 <= i < states.len() ==> (#[trigger] states[i]).request() == states[0].request(),
        forall|i: int| 0 <= i < states.len() ==> (#[trigger] states[i]).attempts() == i,
{
    assert forall|i: int| 0 <= i < states.len() implies (#[trigger] states[i]).request()
        == states[0].request() && states[i].attempts() == i by {
        lemma_run_step(states, i);
    }
    if states.len() >= 2 {
        let k = states.len() - 2;
        lemma_run_step(states, k);
        assert(attempt_started(states[k], states[k + 1]));
    }
}

} // verus!
