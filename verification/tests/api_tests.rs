use veln::config::{ApiConfig, ApiKey, Config};
use veln::domain::vm::VirtualMachine;
use veln::infrastructure::api::{ActionDecision, ApiServer, AuthFailure, Endpoint, VmInfo};
use veln::infrastructure::zfs::ZfsRepository;

fn server(auth_enabled: bool) -> ApiServer {
    let mut api = ApiConfig::new(auth_enabled);
    api.add_key("k-admin".to_string(), ApiKey::new("Admin", "admin"));
    api.add_key("k-view".to_string(), ApiKey::new("Viewer", "viewer"));
    let config = Config { zfs_pool: "zroot".to_string(), vm_root: "veln".to_string(), api };
    let repo = ZfsRepository::new(&config);
    ApiServer::new(config, repo)
}

#[test]
fn routing() {
    assert!(matches!(ApiServer::classify("OPTIONS", "/anything"), Endpoint::Preflight));
    assert!(matches!(ApiServer::classify("GET", "/api/health"), Endpoint::Health));
    assert!(matches!(ApiServer::classify("POST", "/api/login"), Endpoint::Login));
    assert!(matches!(ApiServer::classify("GET", "/api/info"), Endpoint::Info));
    assert!(matches!(ApiServer::classify("GET", "/api/vms"), Endpoint::ListVms));
    assert!(matches!(ApiServer::classify("POST", "/api/vms"), Endpoint::CreateVm));
    assert!(matches!(ApiServer::classify("GET", "/api/vms/web"), Endpoint::GetVm(ref n) if n == "web"));
    assert!(matches!(ApiServer::classify("GET", "/api/vms/web/start"), Endpoint::VmAction(ref p) if p == "web/start"));
    assert!(matches!(ApiServer::classify("POST", "/api/vms/web/stop"), Endpoint::VmAction(ref p) if p == "web/stop"));
    assert!(matches!(ApiServer::classify("DELETE", "/api/vms/web"), Endpoint::DeleteVm(ref n) if n == "web"));
    assert!(matches!(ApiServer::classify("PUT", "/api/vms"), Endpoint::NotFound));
    assert!(matches!(ApiServer::classify("GET", "/api/other"), Endpoint::NotFound));
}

#[test]
fn permissions_by_role() {
    let s = server(true);
    assert_eq!(
        s.get_permissions("admin"),
        vec!["vms:read", "vms:write", "vms:delete", "vms:start", "vms:stop", "system:read"]
    );
    assert_eq!(s.get_permissions("operator"), vec!["vms:read", "vms:start", "vms:stop", "system:read"]);
    assert_eq!(s.get_permissions("viewer"), vec!["vms:read", "system:read"]);
    assert_eq!(s.get_permissions("guest"), vec!["vms:read"]);
}

#[test]
fn authentication() {
    let s = server(true);
    let ctx = s.authenticate(Some("Bearer k-admin"), None).ok().unwrap();
    assert_eq!(ctx.api_key, "k-admin");
    assert_eq!(ctx.key_info.role, "admin");
    let ctx = s.authenticate(None, Some("k-view".to_string())).ok().unwrap();
    assert_eq!(ctx.key_info.name, "Viewer");
    assert!(matches!(s.authenticate(Some("Basic abc"), None), Err(AuthFailure::BadHeader)));
    assert!(matches!(s.authenticate(None, None), Err(AuthFailure::MissingKey)));
    assert!(matches!(s.authenticate(Some("Bearer nope"), None), Err(AuthFailure::InvalidKey)));
    // The header wins over the query parameter.
    assert!(matches!(s.authenticate(Some("Bearer nope"), Some("k-admin".to_string())), Err(AuthFailure::InvalidKey)));
    assert_eq!(AuthFailure::InvalidKey.message(), "Invalid API key");
}

#[test]
fn authentication_disabled_makes_anonymous_admin() {
    let s = server(false);
    let ctx = s.authenticate(Some("Bearer anything"), None).ok().unwrap();
    assert_eq!(ctx.key_info.name, "anonymous");
    assert_eq!(ctx.key_info.role, "admin");
    let info = s.config_ref().validate_api_key("whatever").unwrap();
    assert_eq!(info.role, "admin");
}

#[test]
fn validate_api_key_with_auth() {
    let s = server(true);
    assert!(s.config_ref().validate_api_key("k-none").is_none());
    assert_eq!(s.config_ref().validate_api_key("k-view").unwrap().name, "Viewer");
}

#[test]
fn action_rules() {
    assert_eq!(
        ApiServer::split_action_path("web/start"),
        Some(("web".to_string(), "start".to_string()))
    );
    assert_eq!(
        ApiServer::split_action_path("web/a/b"),
        Some(("web".to_string(), "a/b".to_string()))
    );
    assert_eq!(ApiServer::split_action_path("web"), None);
    assert!(ApiServer::may_run_action("start", "operator"));
    assert!(ApiServer::may_run_action("stop", "admin"));
    assert!(!ApiServer::may_run_action("destroy", "viewer"));
    assert!(ApiServer::may_run_action("status", "viewer"));
}

#[test]
fn vm_info() {
    let vm = VirtualMachine::defined("web".to_string(), 2, 1024, 20);
    let info = VmInfo::from_vm(&vm);
    assert_eq!(info.name, "web");
    assert_eq!(info.state, "stopped");
    assert_eq!(info.network, "tap:bridge0");
    assert_eq!(info.uuid, vm.uuid.0);
    assert_eq!((info.cpus, info.memory_mb, info.disk_gb), (2, 1024, 20));
}

#[test]
fn action_decisions() {
    assert_eq!(ApiServer::decide_action(false, "start", "admin", "POST"), ActionDecision::VmMissing);
    assert_eq!(ApiServer::decide_action(true, "start", "viewer", "POST"), ActionDecision::Forbidden);
    assert_eq!(ApiServer::decide_action(true, "destroy", "viewer", "POST"), ActionDecision::Forbidden);
    assert_eq!(ApiServer::decide_action(true, "start", "operator", "POST"), ActionDecision::Start);
    assert_eq!(ApiServer::decide_action(true, "stop", "admin", "POST"), ActionDecision::Stop);
    assert_eq!(ApiServer::decide_action(true, "start", "admin", "GET"), ActionDecision::NotFound);
    assert_eq!(ApiServer::decide_action(true, "destroy", "admin", "POST"), ActionDecision::NotFound);
    assert_eq!(ApiServer::decide_action(true, "console", "viewer", "GET"), ActionDecision::NotFound);
}

#[test]
fn decisions_match_reported_permissions() {
    let s = server(true);
    for role in ["admin", "operator", "viewer", "guest"] {
        let perms = s.get_permissions(role);
        let has = |p: &str| perms.iter().any(|x| x == p);
        assert_eq!(ApiServer::decide_action(true, "start", role, "POST") == ActionDecision::Start, has("vms:start"));
        assert_eq!(ApiServer::decide_action(true, "stop", role, "POST") == ActionDecision::Stop, has("vms:stop"));
        assert_eq!(role == "admin", has("vms:write"));
        assert_eq!(role == "admin", has("vms:delete"));
    }
}

#[test]
fn endpoints_that_need_a_key() {
    assert!(!ApiServer::classify("OPTIONS", "/anything").requires_key());
    assert!(!ApiServer::classify("GET", "/api/health").requires_key());
    assert!(!ApiServer::classify("POST", "/api/login").requires_key());
    assert!(ApiServer::classify("GET", "/api/info").requires_key());
    assert!(ApiServer::classify("GET", "/api/vms").requires_key());
    assert!(ApiServer::classify("POST", "/api/vms").requires_key());
    assert!(ApiServer::classify("GET", "/nope").requires_key());
}
