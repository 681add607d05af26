use std::sync::Arc;

use rootless_android::runtime::{
    init_minimal_services, ActivityManagerStub, MinimalService, PackageManagerStub, RuntimeError,
    ServiceRegistry, StubService,
};

#[test]
fn test_service_registry_creation() {
    let registry = ServiceRegistry::<ActivityManagerStub>::new();
    assert_eq!(registry.service_count(), 0);
    assert!(registry.list_services().is_empty());
}

#[test]
fn test_activity_manager_stub_creation() {
    let am = ActivityManagerStub::new();
    assert_eq!(am.service_name(), "activity");
    assert_eq!(am.interface_descriptor(), "android.app.IActivityManager");
}

#[test]
fn test_register_service() {
    let mut registry = ServiceRegistry::new();
    let service = Arc::new(ActivityManagerStub::new());

    registry.register(service).expect("Failed to register service");

    assert_eq!(registry.service_count(), 1);
    assert!(registry.has_service("activity"));
    assert!(registry.get_service("activity").is_some());
}

#[test]
fn test_duplicate_registration_fails() {
    let mut registry = ServiceRegistry::new();
    let service1 = Arc::new(ActivityManagerStub::new());
    let service2 = Arc::new(ActivityManagerStub::new());

    registry.register(service1).expect("First registration should succeed");
    let result = registry.register(service2);

    assert!(result.is_err());
    match result.unwrap_err() {
        RuntimeError::ServiceAlreadyRegistered(name) => {
            assert_eq!(name, "activity");
        }
        _ => panic!("Expected ServiceAlreadyRegistered error"),
    }
}

#[test]
fn test_service_not_found() {
    let registry = ServiceRegistry::<PackageManagerStub>::new();
    assert!(!registry.has_service("nonexistent"));
    assert!(registry.get_service("nonexistent").is_none());
}

#[test]
fn test_init_minimal_services() {
    let registry = init_minimal_services().expect("Failed to init services");

    assert_eq!(registry.service_count(), 2);
    assert!(registry.has_service("activity"));
    assert!(registry.has_service("package"));
}

#[test]
fn test_activity_manager_check_permission() {
    let am = ActivityManagerStub::new();

    let result = am.handle_call("checkPermission", &[]).expect("checkPermission should succeed");

    assert!(!result.is_empty(), "checkPermission should return a response");
}

#[test]
fn test_unimplemented_method_returns_empty() {
    let am = ActivityManagerStub::new();

    let result = am.handle_call("unknownMethod", &[]).expect("Unknown method should not fail");

    assert!(result.is_empty());
}

#[test]
fn test_package_manager_stub() {
    let pm = PackageManagerStub::new();
    assert_eq!(pm.service_name(), "package");
    assert_eq!(pm.interface_descriptor(), "android.content.pm.IPackageManager");
}

#[test]
fn test_list_services() {
    let registry = init_minimal_services().expect("Failed to init");
    let services = registry.list_services();

    assert_eq!(services.len(), 2);
    assert!(services.contains(&"activity".to_string()));
    assert!(services.contains(&"package".to_string()));
}

#[test]
fn permission_is_granted_as_the_number_one() {
    let am = ActivityManagerStub::new();
    assert_eq!(am.handle_call("checkPermission", &[]).unwrap(), vec![1, 0, 0, 0]);
    assert_eq!(am.handle_call("getAppOpsService", &[9, 9]).unwrap(), Vec::<u8>::new());
    assert_eq!(am.handle_call("checkpermission", &[]).unwrap(), Vec::<u8>::new());
    let pm = PackageManagerStub::new();
    assert_eq!(pm.handle_call("checkPermission", &[]).unwrap(), Vec::<u8>::new());
}

#[test]
fn services_are_listed_in_the_order_of_registration() {
    let registry = init_minimal_services().unwrap();
    assert_eq!(registry.list_services(), vec!["activity".to_string(), "package".to_string()]);
    let found = registry.get_service("package").unwrap();
    assert_eq!(found.service_name(), "package");
    assert_eq!(found.interface_descriptor(), "android.content.pm.IPackageManager");
    let found = registry.get_service("activity").unwrap();
    assert_eq!(found.handle_call("checkPermission", &[]).unwrap(), vec![1, 0, 0, 0]);
    assert!(registry.get_service("window").is_none());
}

#[test]
fn a_refused_registration_changes_nothing() {
    let mut registry = ServiceRegistry::new();
    registry.register(Arc::new(MinimalService::Package(PackageManagerStub::new()))).unwrap();
    registry.register(Arc::new(MinimalService::Activity(ActivityManagerStub::new()))).unwrap();
    let again = registry.register(Arc::new(MinimalService::Package(PackageManagerStub::default())));
    assert_eq!(again, Err(RuntimeError::ServiceAlreadyRegistered("package".to_string())));
    assert_eq!(registry.service_count(), 2);
    assert_eq!(registry.list_services(), vec!["package".to_string(), "activity".to_string()]);
}

#[test]
fn runtime_errors_have_their_texts() {
    assert_eq!(
        RuntimeError::ServiceNotFound("window".to_string()).to_string(),
        "Service not found: window"
    );
    assert_eq!(
        RuntimeError::ServiceAlreadyRegistered("activity".to_string()).to_string(),
        "Service already registered: activity"
    );
    assert_eq!(RuntimeError::InvalidRequest("x".to_string()).to_string(), "Invalid request: x");
    assert_eq!(RuntimeError::NotImplemented("y".to_string()).to_string(), "Not implemented: y");
}

#[test]
fn minimal_services_stand_under_their_names() {
    let registry = init_minimal_services().unwrap();
    let activity = registry.get_service("activity").unwrap();
    assert_eq!(activity.service_name(), "activity");
    assert_eq!(activity.interface_descriptor(), "android.app.IActivityManager");
    assert!(matches!(*activity, MinimalService::Activity(_)));
    let package = registry.get_service("package").unwrap();
    assert_eq!(package.service_name(), "package");
    assert_eq!(package.interface_descriptor(), "android.content.pm.IPackageManager");
    assert!(matches!(*package, MinimalService::Package(_)));
    // the handle leads to the registered stub itself
    let stub = Arc::new(ActivityManagerStub::new());
    let mut own = ServiceRegistry::new();
    own.register(stub.clone()).unwrap();
    assert!(Arc::ptr_eq(&own.get_service("activity").unwrap(), &stub));
    // no name is listed twice
    let names = registry.list_services();
    assert!(names.iter().all(|name| names.iter().filter(|other| *other == name).count() == 1));
}
