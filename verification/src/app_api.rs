//! What apps, their interface and the conductor hand to each other.

use crate::time::Duration;
use holochain_serialized_bytes::SerializedBytesError;
use vstd::prelude::*;

verus! {

/// The error of `holochain_serialized_bytes` for bytes that are not a request. It is carried
/// through unread.
#[verifier::external_type_specification]
#[verifier::external_body]
pub struct ExSerializedBytesError(SerializedBytesError);

/// The id under which an app is installed.
pub type InstalledAppId = String;

/// The hash of a DNA.
pub type DnaHash = Vec<u8>;

/// The public key of an agent.
pub type AgentPubKey = Vec<u8>;

/// A value in its wire encoding, which is passed on unread.
pub type Encoded = Vec<u8>;

/// A cell: a DNA, and the agent that runs it.
#[derive(Debug)]
pub struct CellId {
    /// The DNA.
    pub dna_hash: DnaHash,
    /// The agent.
    pub agent_pubkey: AgentPubKey,
}

/// A zome call in its wire encoding, with the signature of its caller.
#[derive(Debug)]
pub struct ZomeCallParamsSigned {
    /// The call.
    pub bytes: Encoded,
    /// The signature of the bytes.
    pub signature: Vec<u8>,
}

/// What an app presents to be let in.
#[derive(Debug)]
pub struct AppAuthentication {
    /// The token that shows that the app is allowed to connect.
    pub token: Vec<u8>,
    /// The app to which the interface is bound, if it is bound to one. This is never provided by
    /// the client.
    pub installed_app_id: Option<InstalledAppId>,
}

/// A request of an app.
#[derive(Debug)]
pub enum AppRequest {
    /// Describe the app.
    AppInfo,
    /// List the agents that are known in the app's spaces.
    AgentInfo {
        /// The spaces to list; all of the app's if there is no list.
        dna_hashes: Option<Vec<DnaHash>>,
    },
    /// Describe a peer.
    PeerMetaInfo {
        /// Where the peer is reached.
        url: String,
        /// The spaces in question; all of the app's if there is no list.
        dna_hashes: Option<Vec<DnaHash>>,
    },
    /// Call a zome function.
    CallZome(ZomeCallParamsSigned),
    /// Call a zome function and wait no longer than a deadline.
    CallZomeWithDeadline {
        /// The call.
        call: ZomeCallParamsSigned,
        /// How long the caller waits, in milliseconds.
        deadline_ms: u32,
    },
    /// Describe the countersigning session of a cell.
    GetCountersigningSessionState(CellId),
    /// Give up the countersigning session of a cell.
    AbandonCountersigningSession(CellId),
    /// Publish the countersigning session of a cell.
    PublishCountersigningSession(CellId),
    /// Create a clone cell.
    CreateCloneCell(Encoded),
    /// Disable a clone cell.
    DisableCloneCell(Encoded),
    /// Enable a clone cell.
    EnableCloneCell(Encoded),
    /// Dump the op timings of a DNA.
    DumpOpTimings {
        /// The DNA.
        dna_hash: DnaHash,
        /// Where to go on.
        cursor: Option<u64>,
        /// How many to dump.
        limit: Option<u32>,
    },
    /// Dump the network metrics of a DNA, or of all of the app's.
    DumpNetworkMetrics {
        /// The DNA.
        dna_hash: Option<DnaHash>,
        /// Whether to summarise the DHT too.
        include_dht_summary: bool,
    },
    /// Dump the network statistics.
    DumpNetworkStats,
    /// List the functions that the host offers to wasm.
    ListWasmHostFunctions,
    /// Provide the membrane proofs that the app has been waiting for.
    ProvideMemproofs(Encoded),
    /// Enable the app.
    EnableApp,
    /// Send a signal to agents.
    SendDirectSignal {
        /// The space in which to send.
        dna_hash: DnaHash,
        /// The agents.
        agents: Vec<AgentPubKey>,
        /// The signal.
        signal: Encoded,
    },
}

/// Why an app is disabled.
#[derive(Debug)]
pub enum DisabledAppReason {
    /// It has never been started.
    NeverStarted,
    /// It has not been started since its membrane proofs were provided.
    NotStartedAfterProvidingMemproofs,
    /// A user has disabled it.
    User,
    /// Something went wrong.
    Error(String),
}

/// The status of an app.
#[derive(Debug)]
pub enum AppStatus {
    /// The app is enabled.
    Enabled,
    /// The app is disabled.
    Disabled(DisabledAppReason),
    /// The app waits for its membrane proofs.
    AwaitingMemproofs,
}

/// The description of an app.
#[derive(Debug)]
pub struct AppInfo {
    /// The status of the app.
    pub status: AppStatus,
    /// The whole description.
    pub encoded: Encoded,
}

/// An error of the conductor.
#[derive(Debug)]
pub enum ConductorApiError {
    /// An error that the conductor reported, as it describes itself.
    Reported(String),
    /// Any other error.
    Other(String),
}

/// An error of the runtime that runs zomes, as it describes itself.
#[derive(Debug)]
pub struct RibosomeError {
    /// The description.
    pub description: String,
}

/// Bytes could not be turned into a value.
#[derive(Debug)]
pub enum SerializationError {
    /// They do not encode such a value.
    Bytes(SerializedBytesError),
}

impl From<SerializedBytesError> for SerializationError {
    fn from(error: SerializedBytesError) -> (e: Self) {
        SerializationError::Bytes(error)
    }
}

impl vstd::std_specs::convert::FromSpecImpl<SerializedBytesError> for SerializationError {
    open spec fn obeys_from_spec() -> bool {
        true
    }

    open spec fn from_spec(error: SerializedBytesError) -> Self {
        SerializationError::Bytes(error)
    }
}

/// A request could not be handled at all.
#[derive(Debug)]
pub enum InterfaceError {
    /// The conductor does not handle requests.
    RequestHandler(ConductorApiError),
}

/// An interface refused a zome call because it was running too many.
#[derive(Clone, Copy, Debug, PartialEq, Eq, Structural)]
pub struct ZomeCallRefusal {
    /// How many zome calls the interface was running.
    pub in_flight: usize,
    /// The limit.
    pub max_in_flight: usize,
}

/// An error as an app gets to see it.
#[derive(Debug)]
pub enum ExternalApiWireError {
    /// An error of the conductor.
    Conductor(ConductorApiError),
    /// The request could not be read.
    Deserialization(SerializationError),
    /// An error of the runtime that runs zomes.
    Ribosome(RibosomeError),
    /// The signature of a zome call is bad.
    ZomeCallAuthenticationFailed(String),
    /// The caller of a zome call may not make it.
    ZomeCallUnauthorized(String),
    /// A countersigning session could not be started.
    CountersigningSessionError(String),
    /// A zome call was not started.
    ZomeCallRefused(ZomeCallRefusal),
    /// A zome call was given up when its deadline had passed.
    ZomeCallDeadlineExceeded(Duration),
}

/// The response to a request.
#[derive(Debug)]
pub enum AppResponse {
    /// The request failed.
    Error(ExternalApiWireError),
    /// The description of the app, if it is installed.
    AppInfo(Option<AppInfo>),
    /// The agents, each in its wire encoding.
    AgentInfo(Vec<String>),
    /// The description of the peer.
    PeerMetaInfo(Encoded),
    /// The output of the zome function.
    ZomeCalled(Encoded),
    /// The state of the countersigning session.
    CountersigningSessionState(Encoded),
    /// The countersigning session was given up.
    CountersigningSessionAbandoned,
    /// The countersigning session is being published.
    PublishCountersigningSessionTriggered,
    /// The clone cell that was created.
    CloneCellCreated(Encoded),
    /// The clone cell was disabled.
    CloneCellDisabled,
    /// The clone cell that was enabled.
    CloneCellEnabled(Encoded),
    /// The op timings.
    OpTimingsDumped(Encoded),
    /// The network metrics.
    NetworkMetricsDumped(Encoded),
    /// The network statistics.
    NetworkStatsDumped(Encoded),
    /// The functions that the host offers to wasm.
    ListWasmHostFunctions(Vec<String>),
    /// The request was carried out.
    Completed,
}

/// A call that the conductor has to make.
#[derive(Debug)]
pub enum ConductorCall {
    /// Check a token.
    AuthenticateAppToken {
        /// The token.
        token: Vec<u8>,
        /// The app for which the token must be, if it must be for one.
        installed_app_id: Option<InstalledAppId>,
    },
    /// Describe an app.
    GetAppInfo {
        /// The app.
        app: InstalledAppId,
    },
    /// List the agents that are known in an app's spaces.
    GetAppAgentInfos {
        /// The app.
        app: InstalledAppId,
        /// The spaces.
        dna_hashes: Option<Vec<DnaHash>>,
    },
    /// Describe a peer.
    AppPeerMetaInfo {
        /// The app.
        app: InstalledAppId,
        /// Where the peer is reached.
        url: String,
        /// The spaces.
        dna_hashes: Option<Vec<DnaHash>>,
    },
    /// Call a zome function.
    HandleExternalZomeCall {
        /// The call.
        call: ZomeCallParamsSigned,
        /// How long to wait; `None` means as long as it takes.
        deadline: Option<Duration>,
    },
    /// Describe the countersigning session of a cell.
    GetCountersigningSessionState(CellId),
    /// Give up the countersigning session of a cell.
    AbandonCountersigningSession(CellId),
    /// Publish the countersigning session of a cell.
    PublishCountersigningSession(CellId),
    /// Create a clone cell.
    CreateCloneCell {
        /// The app.
        app: InstalledAppId,
        /// The request.
        payload: Encoded,
    },
    /// Disable a clone cell.
    DisableCloneCell {
        /// The app.
        app: InstalledAppId,
        /// The request.
        payload: Encoded,
    },
    /// Enable a clone cell.
    EnableCloneCell {
        /// The app.
        app: InstalledAppId,
        /// The request.
        payload: Encoded,
    },
    /// Dump the op timings of a DNA.
    DumpOpTimings {
        /// The app.
        app: InstalledAppId,
        /// The DNA.
        dna_hash: DnaHash,
        /// Where to go on.
        cursor: Option<u64>,
        /// How many to dump.
        limit: Option<u32>,
    },
    /// Dump network metrics.
    DumpNetworkMetrics {
        /// The app.
        app: InstalledAppId,
        /// The DNA.
        dna_hash: Option<DnaHash>,
        /// Whether to summarise the DHT too.
        include_dht_summary: bool,
    },
    /// Dump the network statistics.
    DumpNetworkStats {
        /// The app.
        app: InstalledAppId,
    },
    /// List the functions that the host offers to wasm.
    ListWasmHostFunctions,
    /// Provide membrane proofs.
    ProvideMemproofs {
        /// The app.
        app: InstalledAppId,
        /// The membrane proofs.
        memproofs: Encoded,
    },
    /// Enable an app.
    EnableApp {
        /// The app.
        app: InstalledAppId,
    },
    /// Send a signal to agents.
    SendDirectSignal {
        /// The app.
        app: InstalledAppId,
        /// The space in which to send.
        dna_hash: DnaHash,
        /// The agents.
        agents: Vec<AgentPubKey>,
        /// The signal.
        signal: Encoded,
    },
}

/// The outcome of a zome call that the runtime has carried out.
#[derive(Debug)]
pub enum ZomeCallResponse {
    /// The output of the function.
    Output(Encoded),
    /// The signature, which is bad, and the agent that it is said to be of.
    AuthenticationFailed(String, String),
    /// Why the call is not allowed, the secret that was presented, the zome and the function.
    Unauthorized(String, String, String, String),
    /// The network failed. No call of an app goes to the network.
    NetworkError(String),
    /// Why a countersigning session could not be started.
    CountersigningSession(String),
}

/// What came of a call.
#[derive(Debug)]
pub enum ConductorReply {
    /// The call failed.
    Failed(ConductorApiError),
    /// The call was made, and there is nothing to report.
    Done,
    /// The description of an app, if it is installed.
    AppInfo(Option<AppInfo>),
    /// Agents, each in its wire encoding or with the error that came of encoding it.
    AgentInfos(Vec<Result<String, ConductorApiError>>),
    /// A value that is passed on unread.
    Value(Encoded),
    /// Names of functions.
    Names(Vec<String>),
    /// The outcome of a zome call.
    ZomeCall(Result<ZomeCallResponse, RibosomeError>),
    /// The deadline passed before the zome call was through.
    DeadlineElapsed,
}

/// What a request waits for.
#[derive(Debug)]
pub enum PendingRequest {
    /// The description of the app.
    AppInfo,
    /// The agents.
    AgentInfo,
    /// The description of a peer.
    PeerMetaInfo,
    /// The outcome of the zome call that holds a slot.
    CallZome {
        /// The slot.
        ticket: u64,
        /// The deadline of the call.
        deadline: Option<Duration>,
    },
    /// The state of a countersigning session.
    CountersigningSessionState,
    /// A countersigning session to be given up.
    AbandonCountersigningSession,
    /// A countersigning session to be published.
    PublishCountersigningSession,
    /// A clone cell to be created.
    CreateCloneCell,
    /// A clone cell to be disabled.
    DisableCloneCell,
    /// A clone cell to be enabled.
    EnableCloneCell,
    /// The op timings.
    DumpOpTimings,
    /// The network metrics.
    DumpNetworkMetrics,
    /// The network statistics.
    DumpNetworkStats,
    /// The functions that the host offers to wasm.
    ListWasmHostFunctions,
    /// Membrane proofs to be provided.
    ProvideMemproofs,
    /// The status of an app that is to be enabled.
    StatusToEnable {
        /// The app.
        app: InstalledAppId,
    },
    /// An app to be enabled.
    EnableApp,
    /// A signal to be sent.
    SendDirectSignal,
}

/// A step on the way to a response.
#[derive(Debug)]
pub enum Step {
    /// The request is answered.
    Respond(AppResponse),
    /// The conductor has to make a call.
    Call {
        /// The call.
        call: ConductorCall,
        /// What the request then waits for.
        pending: PendingRequest,
    },
}

} // verus!
