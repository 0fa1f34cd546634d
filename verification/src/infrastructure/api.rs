//! REST API for veln: what the server decides about a request — which
//! endpoint it names, who presents it, what that role may do — and what it
//! answers about a VM. Reading requests and writing responses is left to the
//! HTTP layer.
//!
//! Authentication is by API key: `Authorization: Bearer <api-key>`, or the
//! `api_key` query parameter.
use crate::config::{key_validation, keys_view, ApiKey, ApiKeyView, Config};
use crate::domain::vm::{state_name, NetworkBackend, NetworkBackendView, VirtualMachine, VmView};
use crate::infrastructure::bhyve::BhyveRuntime;
use crate::infrastructure::zfs::ZfsRepository;
use crate::text::{
    chars_of, split, starts_with, string_of, text_eq, text_has_char, text_split,
    text_strip_prefix, views,
};
use vstd::prelude::*;

verus! {

/// API server state.
pub struct ApiServer {
    config: Config,
    zfs_repo: ZfsRepository,
    bhyve_runtime: BhyveRuntime,
}

/// Authentication context for requests.
pub struct AuthContext {
    pub api_key: String,
    pub key_info: ApiKey,
}

/// Why a request is not authenticated.
#[derive(Debug, Clone, Copy, PartialEq, Eq, Structural)]
pub enum AuthFailure {
    /// The `Authorization` header is not `Bearer <api-key>`.
    BadHeader,
    /// Neither the header nor the query parameter holds a key.
    MissingKey,
    /// The key is not accepted.
    InvalidKey,
}

/// What a request asks for.
pub enum Endpoint {
    /// CORS preflight (`OPTIONS`, any path).
    Preflight,
    /// `GET /api/health`, open to all.
    Health,
    /// `POST /api/login`, open to all.
    Login,
    /// `GET /api/info`.
    Info,
    /// `GET /api/vms`.
    ListVms,
    /// `GET /api/vms/{name}`.
    GetVm(String),
    /// `GET` or `POST` on `/api/vms/{name}/{action}`: the path after `/api/vms/`.
    VmAction(String),
    /// `POST /api/vms`.
    CreateVm,
    /// `DELETE /api/vms/{name}`.
    DeleteVm(String),
    /// Anything else.
    NotFound,
}

/// The model of an endpoint.
pub enum EndpointView {
    Preflight,
    Health,
    Login,
    Info,
    ListVms,
    GetVm(Seq<char>),
    VmAction(Seq<char>),
    CreateVm,
    DeleteVm(Seq<char>),
    NotFound,
}

impl View for Endpoint {
    type V = EndpointView;

    open spec fn view(&self) -> EndpointView {
        match self {
            Endpoint::Preflight => EndpointView::Preflight,
            Endpoint::Health => EndpointView::Health,
            Endpoint::Login => EndpointView::Login,
            Endpoint::Info => EndpointView::Info,
            Endpoint::ListVms => EndpointView::ListVms,
            Endpoint::GetVm(n) => EndpointView::GetVm(n@),
            Endpoint::VmAction(p) => EndpointView::VmAction(p@),
            Endpoint::CreateVm => EndpointView::CreateVm,
            Endpoint::DeleteVm(n) => EndpointView::DeleteVm(n@),
            Endpoint::NotFound => EndpointView::NotFound,
        }
    }
}

/// Whether an endpoint needs an API key: all do but the CORS preflight,
/// the health check and the login.
pub open spec fn needs_key(e: EndpointView) -> bool {
    !(e is Preflight || e is Health || e is Login)
}

impl Endpoint {
    /// Whether the endpoint needs an API key.
    pub fn requires_key(&self) -> (r: bool)
        ensures
            r == needs_key(self@),
    {
        match self {
            Endpoint::Preflight | Endpoint::Health | Endpoint::Login => false,
            _ => true,
        }
    }
}

/// The path prefix of a VM's resources.
pub open spec fn vms_prefix() -> Seq<char> {
    "/api/vms/"@
}

/// The endpoint of a request from its method and path. A path under
/// `/api/vms/` names a VM, or (with a further `/`) an action on a VM.
pub open spec fn endpoint_of(method: Seq<char>, url: Seq<char>) -> EndpointView {
    let rest = url.skip(vms_prefix().len() as int);
    if method == "OPTIONS"@ {
        EndpointView::Preflight
    } else if method == "GET"@ && url == "/api/health"@ {
        EndpointView::Health
    } else if method == "POST"@ && url == "/api/login"@ {
        EndpointView::Login
    } else if method == "GET"@ && url == "/api/info"@ {
        EndpointView::Info
    } else if method == "GET"@ && url == "/api/vms"@ {
        EndpointView::ListVms
    } else if method == "GET"@ && starts_with(url, vms_prefix()) {
        if rest.contains('/') {
            EndpointView::VmAction(rest)
        } else {
            EndpointView::GetVm(rest)
        }
    } else if method == "POST"@ && url == "/api/vms"@ {
        EndpointView::CreateVm
    } else if method == "POST"@ && starts_with(url, vms_prefix()) && rest.contains('/') {
        EndpointView::VmAction(rest)
    } else if method == "DELETE"@ && starts_with(url, vms_prefix()) && !rest.contains('/') {
        EndpointView::DeleteVm(rest)
    } else {
        EndpointView::NotFound
    }
}

/// The permissions of a role: admins read, create, delete, start and stop
/// VMs and read the system; operators read, start and stop VMs and read the
/// system; viewers read VMs and the system; any other role reads VMs.
pub open spec fn permissions_of(role: Seq<char>) -> Seq<Seq<char>> {
    if role == "admin"@ {
        seq![
            "vms:read"@,
            "vms:write"@,
            "vms:delete"@,
            "vms:start"@,
            "vms:stop"@,
            "system:read"@,
        ]
    } else if role == "operator"@ {
        seq!["vms:read"@, "vms:start"@, "vms:stop"@, "system:read"@]
    } else if role == "viewer"@ {
        seq!["vms:read"@, "system:read"@]
    } else {
        seq!["vms:read"@]
    }
}

/// The key a request presents: the token of an `Authorization: Bearer`
/// header, else the `api_key` query parameter; a header of another form is
/// refused, and a request with neither presents no key.
pub open spec fn presented_key(header: Option<Seq<char>>, param: Option<Seq<char>>) -> Result<
    Seq<char>,
    AuthFailure,
> {
    match header {
        Some(h) => if starts_with(h, "Bearer "@) {
            Ok(h.skip(7))
        } else {
            Err(AuthFailure::BadHeader)
        },
        None => match param {
            Some(k) => Ok(k),
            None => Err(AuthFailure::MissingKey),
        },
    }
}

/// Whether a role may run an action on a VM: starting, stopping and
/// destroying take an admin or an operator; other actions take any role.
pub open spec fn may_run(action: Seq<char>, role: Seq<char>) -> bool {
    let needs_operator = action == "start"@ || action == "stop"@ || action == "destroy"@;
    !needs_operator || role == "admin"@ || role == "operator"@
}

/// What the server does with an action on a VM.
#[derive(Debug, Clone, Copy, PartialEq, Eq, Structural)]
pub enum ActionDecision {
    /// The VM does not exist (answered 404 with a message).
    VmMissing,
    /// The role may not run the action (answered 403).
    Forbidden,
    /// Start the VM.
    Start,
    /// Stop the VM.
    Stop,
    /// No such action, or not by this method (answered 404).
    NotFound,
}

/// The decision on an action: the VM must exist, then the role must allow
/// the action; `start` and `stop` are run by `POST` only.
pub open spec fn action_decision(
    exists: bool,
    action: Seq<char>,
    role: Seq<char>,
    method: Seq<char>,
) -> ActionDecision {
    if !exists {
        ActionDecision::VmMissing
    } else if !may_run(action, role) {
        ActionDecision::Forbidden
    } else if action == "start"@ && method == "POST"@ {
        ActionDecision::Start
    } else if action == "stop"@ && method == "POST"@ {
        ActionDecision::Stop
    } else {
        ActionDecision::NotFound
    }
}

/// A VM action path `name/action` cut at its first slash.
pub open spec fn action_parts(path: Seq<char>) -> Option<(Seq<char>, Seq<char>)> {
    let p = split(path, '/');
    if p.len() >= 2 {
        Some((p[0], path.skip(p[0].len() as int + 1)))
    } else {
        None
    }
}

/// The network of a VM as the API shows it: `tap:<bridge>` or `vale:<switch>`.
pub open spec fn network_label(b: NetworkBackendView) -> Seq<char> {
    match b {
        NetworkBackendView::TapBridge { bridge } => "tap:"@ + bridge,
        NetworkBackendView::Vale { switch } => "vale:"@ + switch,
    }
}

/// VM information for API responses.
pub struct VmInfo {
    pub name: String,
    pub uuid: String,
    pub state: String,
    pub cpus: u8,
    pub memory_mb: u64,
    pub disk_gb: u64,
    pub network: String,
}

impl VmInfo {
    /// What the API shows of a VM.
    pub fn from_vm(vm: &VirtualMachine) -> (info: Self)
        ensures
            info.name@ == vm.name@,
            info.uuid@ == vm.uuid@,
            info.state@ == state_name(vm.state),
            info.cpus == vm.config.cpus,
            info.memory_mb == vm.config.memory_mb,
            info.disk_gb == vm.config.disk_gb,
            info.network@ == network_label(vm.config.network.backend@),
    {
        let network = match &vm.config.network.backend {
            NetworkBackend::TapBridge { bridge } => {
                let mut s = "tap:".to_owned();
                s.append(bridge.as_str());
                s
            },
            NetworkBackend::Vale { switch } => {
                let mut s = "vale:".to_owned();
                s.append(switch.as_str());
                s
            },
        };
        VmInfo {
            name: vm.name.clone(),
            uuid: vm.uuid.0.clone(),
            state: vm.state.to_string(),
            cpus: vm.config.cpus,
            memory_mb: vm.config.memory_mb,
            disk_gb: vm.config.disk_gb,
            network,
        }
    }
}

impl AuthFailure {
    /// The error message of the refusal (answered with status 401).
    pub fn message(&self) -> (m: String)
        ensures
            m@ == auth_failure_message(*self),
    {
        match self {
            AuthFailure::BadHeader => "Invalid Authorization header format. Use: Bearer <api-key>".to_owned(),
            AuthFailure::MissingKey => "Missing API key. Provide via Authorization header or api_key query parameter".to_owned(),
            AuthFailure::InvalidKey => "Invalid API key".to_owned(),
        }
    }
}

/// The error message of a refused authentication.
pub open spec fn auth_failure_message(f: AuthFailure) -> Seq<char> {
    match f {
        AuthFailure::BadHeader => "Invalid Authorization header format. Use: Bearer <api-key>"@,
        AuthFailure::MissingKey => "Missing API key. Provide via Authorization header or api_key query parameter"@,
        AuthFailure::InvalidKey => "Invalid API key"@,
    }
}

fn is_text(a: &str, b: &str) -> (r: bool)
    ensures
        r == (a@ == b@),
{
    text_eq(a, b)
}

impl ApiServer {
    /// The API server of a configuration and its repository; the bhyve
    /// runtime works on the configuration's pool and VM root.
    pub fn new(config: Config, zfs_repo: ZfsRepository) -> (s: Self)
        ensures
            s.config().zfs_pool@ == config.zfs_pool@,
            s.config().vm_root@ == config.vm_root@,
            s.config().api.auth_enabled == config.api.auth_enabled,
            s.config().api.keys@ == config.api.keys@,
            s.repo() == zfs_repo,
            s.runtime().pool() == config.zfs_pool@,
            s.runtime().vm_root() == config.vm_root@,
    {
        let bhyve_runtime = BhyveRuntime::new(config.zfs_pool.clone(), config.vm_root.clone());
        ApiServer { config, zfs_repo, bhyve_runtime }
    }

    /// The configuration.
    pub closed spec fn config(&self) -> Config {
        self.config
    }

    /// The bhyve runtime.
    pub closed spec fn runtime(&self) -> BhyveRuntime {
        self.bhyve_runtime
    }

    /// The configuration.
    pub fn config_ref(&self) -> (c: &Config)
        ensures
            *c == self.config(),
    {
        &self.config
    }

    /// The VM repository.
    pub closed spec fn repo(&self) -> ZfsRepository {
        self.zfs_repo
    }

    /// The VM repository.
    pub fn zfs_repo(&self) -> (r: &ZfsRepository)
        ensures
            *r == self.repo(),
    {
        &self.zfs_repo
    }

    /// The bhyve runtime.
    pub fn bhyve_runtime(&self) -> (r: &BhyveRuntime)
        ensures
            *r == self.runtime(),
    {
        &self.bhyve_runtime
    }

    /// Which endpoint a request names.
    pub fn classify(method: &str, url: &str) -> (e: Endpoint)
        ensures
            e@ == endpoint_of(method@, url@),
    {
        let get = is_text(method, "GET");
        let post = is_text(method, "POST");
        if is_text(method, "OPTIONS") {
            return Endpoint::Preflight;
        }
        if get && is_text(url, "/api/health") {
            return Endpoint::Health;
        }
        if post && is_text(url, "/api/login") {
            return Endpoint::Login;
        }
        if get && is_text(url, "/api/info") {
            return Endpoint::Info;
        }
        if get && is_text(url, "/api/vms") {
            return Endpoint::ListVms;
        }
        let under_vms = text_strip_prefix(url, "/api/vms/");
        proof {
            reveal_strlit("/api/vms/");
            reveal_strlit("/api/vms");
            reveal_strlit("GET");
            reveal_strlit("POST");
            reveal_strlit("DELETE");
            reveal_strlit("OPTIONS");
        }
        match under_vms {
            Some(rest) => {
                let nested = text_has_char(rest.as_str(), '/');
                if get {
                    if nested {
                        return Endpoint::VmAction(rest);
                    } else {
                        return Endpoint::GetVm(rest);
                    }
                }
                if post && nested {
                    return Endpoint::VmAction(rest);
                }
                if is_text(method, "DELETE") && !nested {
                    return Endpoint::DeleteVm(rest);
                }
                Endpoint::NotFound
            },
            None => {
                if post && is_text(url, "/api/vms") {
                    Endpoint::CreateVm
                } else {
                    Endpoint::NotFound
                }
            },
        }
    }

    /// The permissions granted to a role.
    pub fn get_permissions(&self, role: &str) -> (perms: Vec<String>)
        ensures
            views(perms@) == permissions_of(role@),
    {
        let mut v: Vec<String> = Vec::new();
        if is_text(role, "admin") {
            v.push("vms:read".to_owned());
            v.push("vms:write".to_owned());
            v.push("vms:delete".to_owned());
            v.push("vms:start".to_owned());
            v.push("vms:stop".to_owned());
            v.push("system:read".to_owned());
        } else if is_text(role, "operator") {
            v.push("vms:read".to_owned());
            v.push("vms:start".to_owned());
            v.push("vms:stop".to_owned());
            v.push("system:read".to_owned());
        } else if is_text(role, "viewer") {
            v.push("vms:read".to_owned());
            v.push("system:read".to_owned());
        } else {
            v.push("vms:read".to_owned());
        }
        assert(views(v@) =~= permissions_of(role@));
        v
    }

    /// Extract and validate the API key of a request from its
    /// `Authorization` header and `api_key` query parameter.
    pub fn authenticate(&self, auth_header: Option<&str>, api_key_param: Option<String>) -> (r:
        Result<AuthContext, AuthFailure>)
        ensures
            match presented_key(
                match auth_header {
                    Some(h) => Some(h@),
                    None => None,
                },
                crate::domain::vm::opt_view(api_key_param),
            ) {
                Err(f) => r == Err::<AuthContext, AuthFailure>(f),
                Ok(key) => match key_validation(
                    self.config().api.auth_enabled,
                    keys_view(self.config().api.keys@),
                    key,
                ) {
                    None => r == Err::<AuthContext, AuthFailure>(AuthFailure::InvalidKey),
                    Some(info) => r matches Ok(ctx) && ctx.api_key@ == key && ctx.key_info@
                        == info,
                },
            },
    {
        // Try Authorization header first
        let api_key = match auth_header {
            Some(h) => {
                match text_strip_prefix(h, "Bearer ") {
                    Some(token) => {
                        proof {
                            reveal_strlit("Bearer ");
                        }
                        token
                    },
                    None => {
                        return Err(AuthFailure::BadHeader);
                    },
                }
            },
            None => {
                // Try query parameter
                match api_key_param {
                    Some(k) => k,
                    None => {
                        return Err(AuthFailure::MissingKey);
                    },
                }
            },
        };
        // Validate the key
        match self.config.validate_api_key(api_key.as_str()) {
            Some(key_info) => Ok(AuthContext { api_key, key_info }),
            None => Err(AuthFailure::InvalidKey),
        }
    }

    /// Whether a request may create VMs: only admins may.
    pub fn may_create(auth: &AuthContext) -> (r: bool)
        ensures
            r == (auth.key_info.role@ == "admin"@),
    {
        is_text(auth.key_info.role.as_str(), "admin")
    }

    /// Whether a request may delete VMs: only admins may.
    pub fn may_delete(auth: &AuthContext) -> (r: bool)
        ensures
            r == (auth.key_info.role@ == "admin"@),
    {
        is_text(auth.key_info.role.as_str(), "admin")
    }

    /// Whether a role may run an action on a VM.
    pub fn may_run_action(action: &str, role: &str) -> (r: bool)
        ensures
            r == may_run(action@, role@),
    {
        let requires_admin = is_text(action, "start") || is_text(action, "stop") || is_text(
            action,
            "destroy",
        );
        !requires_admin || is_text(role, "admin") || is_text(role, "operator")
    }

    /// What to do with an action on a VM that does or does not exist,
    /// requested by a role with a method.
    pub fn decide_action(exists: bool, action: &str, role: &str, method: &str) -> (d:
        ActionDecision)
        ensures
            d == action_decision(exists, action@, role@, method@),
    {
        if !exists {
            ActionDecision::VmMissing
        } else if !Self::may_run_action(action, role) {
            ActionDecision::Forbidden
        } else if is_text(action, "start") && is_text(method, "POST") {
            ActionDecision::Start
        } else if is_text(action, "stop") && is_text(method, "POST") {
            ActionDecision::Stop
        } else {
            ActionDecision::NotFound
        }
    }

    /// Cut a VM action path `name/action` at its first slash.
    pub fn split_action_path(path: &str) -> (r: Option<(String, String)>)
        ensures
            match action_parts(path@) {
                None => r is None,
                Some((n, a)) => r matches Some((x, y)) && x@ == n && y@ == a,
            },
    {
        let parts = text_split(path, '/');
        if parts.len() < 2 {
            return None;
        }
        assert(views(parts@)[0] == parts@[0]@);
        let name = parts[0].clone();
        let v = chars_of(path);
        let k = chars_of(name.as_str()).len();
        proof {
            crate::text::lemma_split_by_pieces(path@, crate::text::char_sep('/'));
            crate::text::lemma_split_first_piece(path@, '/');
        }
        let action = string_of(v.as_slice().split_at(k + 1).1);
        Some((name, action))
    }
}

// ---------------------------------------------------------------------------
// Laws
// ---------------------------------------------------------------------------
/// The network label names the backend's kind and then its switch or
/// bridge: a VALE VM is shown as `vale:<switch>`, a TAP VM as
/// `tap:<bridge>`. Two VMs get the same label only when they have the same
/// backend, so a VALE VM is never shown as a TAP one or the other way round.
pub proof fn lemma_network_label_names_backend(b: NetworkBackendView, c: NetworkBackendView)
    ensures
        b is Vale ==> network_label(b).len() == 5 + b->switch.len() && network_label(b)[0] == 'v'
            && network_label(b)[1] == 'a' && network_label(b)[2] == 'l' && network_label(b)[3]
            == 'e' && network_label(b)[4] == ':' && network_label(b).skip(5) == b->switch,
        b is TapBridge ==> network_label(b).len() == 4 + b->bridge.len() && network_label(b)[0]
            == 't' && network_label(b)[1] == 'a' && network_label(b)[2] == 'p'
            && network_label(b)[3] == ':' && network_label(b).skip(4) == b->bridge,
        network_label(b) == network_label(c) ==> b == c,
{
    reveal_strlit("vale:");
    reveal_strlit("tap:");
    assert(("vale:"@ + b->switch).skip(5) =~= b->switch);
    assert(("tap:"@ + b->bridge).skip(4) =~= b->bridge);
    assert(("vale:"@ + c->switch).skip(5) =~= c->switch);
    assert(("tap:"@ + c->bridge).skip(4) =~= c->bridge);
    if network_label(b) == network_label(c) {
        assert(network_label(b)[0] == network_label(c)[0]);
    }
}

/// The roles are ordered: whatever a viewer may, an operator may; whatever
/// an operator may, an admin may; every role reads VMs; only an admin
/// creates and deletes VMs.
pub proof fn lemma_role_hierarchy(role: Seq<char>, p: Seq<char>)
    ensures
        permissions_of("viewer"@).contains(p) ==> permissions_of("operator"@).contains(p),
        permissions_of("operator"@).contains(p) ==> permissions_of("admin"@).contains(p),
        permissions_of(role).contains("vms:read"@),
        (permissions_of(role).contains("vms:write"@) || permissions_of(role).contains(
            "vms:delete"@,
        )) ==> role == "admin"@,
{
    reveal_strlit("admin");
    reveal_strlit("operator");
    reveal_strlit("viewer");
    reveal_strlit("vms:read");
    reveal_strlit("vms:write");
    reveal_strlit("vms:delete");
    reveal_strlit("vms:start");
    reveal_strlit("vms:stop");
    reveal_strlit("system:read");
    assert("viewer"@.len() != "admin"@.len());
    assert("viewer"@.len() != "operator"@.len());
    assert("operator"@.len() != "admin"@.len());
    let viewer = permissions_of("viewer"@);
    assert(viewer == seq!["vms:read"@, "system:read"@]);
    let operator = permissions_of("operator"@);
    let admin = permissions_of("admin"@);
    if viewer.contains(p) {
        let i = choose|i: int| 0 <= i < viewer.len() && viewer[i] == p;
        if i == 0 {
            assert(operator[0] == p);
        } else {
            assert(operator[3] == p);
        }
    }
    if operator.contains(p) {
        let i = choose|i: int| 0 <= i < operator.len() && operator[i] == p;
        if i == 0 {
            assert(admin[0] == p);
        } else if i == 1 {
            assert(admin[3] == p);
        } else if i == 2 {
            assert(admin[4] == p);
        } else {
            assert(admin[5] == p);
        }
    }
    assert(permissions_of(role)[0] == "vms:read"@);
    if role != "admin"@ {
        let perms = permissions_of(role);
        assert forall|i: int| 0 <= i < perms.len() implies perms[i] != "vms:write"@ && perms[i]
            != "vms:delete"@ by {
            assert(perms[i].len() != "vms:write"@.len() || perms[i][4] != "vms:write"@[4]);
            assert(perms[i].len() != "vms:delete"@.len() || perms[i][4] != "vms:delete"@[4]);
        }
    }
}

/// A request that presents a configured key (or any key with authentication
/// off) is authenticated as that key's holder; with authentication on, a
/// request whose key is not configured is refused.
pub proof fn lemma_only_configured_keys(
    auth_enabled: bool,
    keys: Map<Seq<char>, ApiKeyView>,
    key: Seq<char>,
)
    ensures
        auth_enabled && !keys.contains_key(key) ==> key_validation(auth_enabled, keys, key) is None,
        auth_enabled && keys.contains_key(key) ==> key_validation(auth_enabled, keys, key) == Some(
            keys[key],
        ),
        !auth_enabled ==> (key_validation(auth_enabled, keys, key) matches Some(v) && v.role
            == "admin"@),
{
}

/// What the server does for a role matches the permissions it reports for
/// that role: it starts (stops) an existing VM on `POST .../start`
/// (`.../stop`) exactly for the roles that hold `vms:start` (`vms:stop`),
/// and creates and deletes VMs exactly for the roles that hold `vms:write`
/// and `vms:delete`.
pub proof fn lemma_decisions_follow_permissions(role: Seq<char>, method: Seq<char>)
    ensures
        (action_decision(true, "start"@, role, method) == ActionDecision::Start) == (method
            == "POST"@ && permissions_of(role).contains("vms:start"@)),
        (action_decision(true, "stop"@, role, method) == ActionDecision::Stop) == (method
            == "POST"@ && permissions_of(role).contains("vms:stop"@)),
        (role == "admin"@) == permissions_of(role).contains("vms:write"@),
        (role == "admin"@) == permissions_of(role).contains("vms:delete"@),
{
    reveal_strlit("admin");
    reveal_strlit("operator");
    reveal_strlit("viewer");
    reveal_strlit("vms:read");
    reveal_strlit("vms:write");
    reveal_strlit("vms:delete");
    reveal_strlit("vms:start");
    reveal_strlit("vms:stop");
    reveal_strlit("system:read");
    reveal_strlit("start");
    reveal_strlit("stop");
    reveal_strlit("destroy");
    lemma_role_hierarchy(role, "vms:start"@);
    let perms = permissions_of(role);
    assert("start"@.len() != "stop"@.len());
    if role == "admin"@ {
        assert(perms[1] == "vms:write"@ && perms[2] == "vms:delete"@);
        assert(perms[3] == "vms:start"@ && perms[4] == "vms:stop"@);
    } else if role == "operator"@ {
        assert(perms[1] == "vms:start"@ && perms[2] == "vms:stop"@);
    } else {
        assert forall|i: int| 0 <= i < perms.len() implies perms[i] != "vms:start"@ && perms[i]
            != "vms:stop"@ by {
            assert(perms[i].len() != "vms:start"@.len() || perms[i][4] != "vms:start"@[4]);
            assert(perms[i].len() != "vms:stop"@.len() || perms[i][4] != "vms:stop"@[4]);
        }
    }
}

} // verus!
