//! Stand-ins for the system services that applications look up.
//!
//! A stub answers every call with a harmless reply, so that an application
//! that asks for a service it cannot live without does not crash. The
//! registry finds a stub by the name of its service.

use std::sync::Arc;
use vstd::prelude::*;
use vstd::string::StringExecFns;

use crate::text::same_text;

verus! {

/// What can go wrong in the registry and in a stub.
#[derive(Debug, Clone, PartialEq, Eq)]
pub enum RuntimeError {
    ServiceNotFound(String),
    ServiceAlreadyRegistered(String),
    InvalidRequest(String),
    NotImplemented(String),
}

/// The text of a failure.
pub open spec fn error_text(error: RuntimeError) -> Seq<char> {
    match error {
        RuntimeError::ServiceNotFound(name) => "Service not found: "@ + name@,
        RuntimeError::ServiceAlreadyRegistered(name) => "Service already registered: "@ + name@,
        RuntimeError::InvalidRequest(message) => "Invalid request: "@ + message@,
        RuntimeError::NotImplemented(feature) => "Not implemented: "@ + feature@,
    }
}

impl RuntimeError {
    /// The text to show for the failure.
    pub fn to_string(&self) -> (r: String)
        ensures
            r@ == error_text(*self),
    {
        let mut out;
        match self {
            RuntimeError::ServiceNotFound(name) => {
                out = String::from_str("Service not found: ");
                out.append(name.as_str());
            },
            RuntimeError::ServiceAlreadyRegistered(name) => {
                out = String::from_str("Service already registered: ");
                out.append(name.as_str());
            },
            RuntimeError::InvalidRequest(message) => {
                out = String::from_str("Invalid request: ");
                out.append(message.as_str());
            },
            RuntimeError::NotImplemented(feature) => {
                out = String::from_str("Not implemented: ");
                out.append(feature.as_str());
            },
        }
        out
    }
}

/// A stand-in for a system service.
pub trait StubService {
    /// The name under which the service is looked up.
    spec fn name(&self) -> Seq<char>;

    /// The descriptor of the interface that the service speaks.
    spec fn descriptor(&self) -> Seq<char>;

    /// The name under which the service is looked up, such as `activity`.
    fn service_name(&self) -> (r: &str)
        ensures
            r@ == self.name(),
    ;

    /// The descriptor of the interface that the service speaks.
    fn interface_descriptor(&self) -> (r: &str)
        ensures
            r@ == self.descriptor(),
    ;

    /// Answers a call of `method`. Unless a stub knows better, the answer is
    /// an empty success.
    fn handle_call(&self, method: &str, args: &[u8]) -> (r: Result<Vec<u8>, RuntimeError>)
        default_ensures
            r matches Ok(reply) && reply@ == Seq::<u8>::empty(),
    {
        Ok(Vec::new())
    }
}

/// The stand-in for the activity manager. It grants every permission.
#[derive(Debug)]
pub struct ActivityManagerStub {
    name: String,
}

/// The reply that grants a permission: the number one in four bytes, the
/// lowest first.
pub open spec fn permission_granted() -> Seq<u8> {
    seq![1u8, 0u8, 0u8, 0u8]
}

impl ActivityManagerStub {
    pub fn new() -> (stub: ActivityManagerStub)
        ensures
            stub.name() == "activity"@,
    {
        ActivityManagerStub { name: String::from_str("activity") }
    }
}

impl Default for ActivityManagerStub {
    fn default() -> (stub: ActivityManagerStub)
        ensures
            stub.name() == "activity"@,
    {
        ActivityManagerStub::new()
    }
}

impl StubService for ActivityManagerStub {
    closed spec fn name(&self) -> Seq<char> {
        self.name@
    }

    open spec fn descriptor(&self) -> Seq<char> {
        "android.app.IActivityManager"@
    }

    fn service_name(&self) -> (r: &str) {
        self.name.as_str()
    }

    fn interface_descriptor(&self) -> (r: &str) {
        "android.app.IActivityManager"
    }

    /// A permission check is answered with the grant, every other call with
    /// an empty success.
    fn handle_call(&self, method: &str, args: &[u8]) -> (r: Result<Vec<u8>, RuntimeError>)
        ensures
            r matches Ok(reply) && reply@ == (if method@ == "checkPermission"@ {
                permission_granted()
            } else {
                Seq::<u8>::empty()
            }),
    {
        if same_text(method, "checkPermission") {
            let mut reply: Vec<u8> = Vec::new();
            reply.push(1);
            reply.push(0);
            reply.push(0);
            reply.push(0);
            assert(reply@ =~= permission_granted());
            Ok(reply)
        } else {
            Ok(Vec::new())
        }
    }
}

/// The stand-in for the package manager.
#[derive(Debug)]
pub struct PackageManagerStub {
    name: String,
}

impl PackageManagerStub {
    pub fn new() -> (stub: PackageManagerStub)
        ensures
            stub.name() == "package"@,
    {
        PackageManagerStub { name: String::from_str("package") }
    }
}

impl Default for PackageManagerStub {
    fn default() -> (stub: PackageManagerStub)
        ensures
            stub.name() == "package"@,
    {
        PackageManagerStub::new()
    }
}

impl StubService for PackageManagerStub {
    closed spec fn name(&self) -> Seq<char> {
        self.name@
    }

    open spec fn descriptor(&self) -> Seq<char> {
        "android.content.pm.IPackageManager"@
    }

    fn service_name(&self) -> (r: &str) {
        self.name.as_str()
    }

    fn interface_descriptor(&self) -> (r: &str) {
        "android.content.pm.IPackageManager"
    }
}

/// One of the stand-ins that every application expects.
#[derive(Debug)]
pub enum MinimalService {
    Activity(ActivityManagerStub),
    Package(PackageManagerStub),
}

impl StubService for MinimalService {
    open spec fn name(&self) -> Seq<char> {
        match self {
            MinimalService::Activity(stub) => stub.name(),
            MinimalService::Package(stub) => stub.name(),
        }
    }

    open spec fn descriptor(&self) -> Seq<char> {
        match self {
            MinimalService::Activity(stub) => stub.descriptor(),
            MinimalService::Package(stub) => stub.descriptor(),
        }
    }

    fn service_name(&self) -> (r: &str) {
        match self {
            MinimalService::Activity(stub) => stub.service_name(),
            MinimalService::Package(stub) => stub.service_name(),
        }
    }

    fn interface_descriptor(&self) -> (r: &str) {
        match self {
            MinimalService::Activity(stub) => stub.interface_descriptor(),
            MinimalService::Package(stub) => stub.interface_descriptor(),
        }
    }

    /// The call is answered by the stand-in that this is.
    fn handle_call(&self, method: &str, args: &[u8]) -> (r: Result<Vec<u8>, RuntimeError>)
        ensures
            r matches Ok(reply) && reply@ == (if *self is Activity && method@
                == "checkPermission"@ {
                permission_granted()
            } else {
                Seq::<u8>::empty()
            }),
    {
        match self {
            MinimalService::Activity(stub) => stub.handle_call(method, args),
            MinimalService::Package(stub) => stub.handle_call(method, args),
        }
    }
}

/// One more pointer to the same service.
fn share<S>(service: &Arc<S>) -> (shared: Arc<S>)
    ensures
        shared == *service,
{
    Arc::clone(service)
}

/// The stubs of a sandbox, found by the name of their service. No two stubs
/// of a registry have the same name.
pub struct ServiceRegistry<S: StubService> {
    services: Vec<Arc<S>>,
}

impl<S: StubService> ServiceRegistry<S> {
    /// The registered services, in the order of registration.
    pub closed spec fn entries(&self) -> Seq<Arc<S>> {
        self.services@
    }

    /// The names of the registered services, in the order of registration:
    /// each entry stands under the name of its service.
    pub open spec fn names(&self) -> Seq<Seq<char>> {
        Seq::new(self.entries().len(), |i: int| self.entries()[i].name())
    }

    /// No name occurs twice.
    pub open spec fn distinct(&self) -> bool {
        forall|i: int, j: int|
            0 <= i < j < self.names().len() ==> self.names()[i] != self.names()[j]
    }

    /// Where the service `name` stands in the registry, if it is registered.
    pub open spec fn index_of(&self, name: Seq<char>) -> int {
        self.names().index_of(name)
    }

    #[verifier::type_invariant]
    spec fn well_formed(&self) -> bool {
        forall|i: int, j: int|
            0 <= i < j < self.services@.len() ==> self.services@[i].name()
                != self.services@[j].name()
    }

    /// An empty registry.
    pub fn new() -> (registry: Self)
        ensures
            registry.names() == Seq::<Seq<char>>::empty(),
            registry.entries() == Seq::<Arc<S>>::empty(),
            registry.distinct(),
    {
        let registry = ServiceRegistry { services: Vec::new() };
        assert(registry.names() =~= Seq::<Seq<char>>::empty());
        assert(registry.entries() =~= Seq::<Arc<S>>::empty());
        registry
    }

    fn position(&self, name: &str) -> (r: Option<usize>)
        ensures
            self.distinct(),
            r is Some <==> self.names().contains(name@),
            r matches Some(i) ==> i < self.names().len() && self.names()[i as int] == name@
                && i == self.index_of(name@),
    {
        proof {
            use_type_invariant(self);
        }
        let mut i: usize = 0;
        while i < self.services.len()
            invariant
                i <= self.services.len(),
                self.distinct(),
                forall|j: int| 0 <= j < i ==> self.names()[j] != name@,
            decreases self.services.len() - i,
        {
            if same_text(self.services[i].service_name(), name) {
                proof {
                    assert(self.names()[i as int] == name@);
                    assert(self.names().contains(name@));
                    let j = self.index_of(name@);
                    assert(0 <= j < self.names().len() && self.names()[j] == name@);
                    assert(j == i);
                }
                return Some(i);
            }
            i += 1;
        }
        None
    }

    /// Registers a stub under the name of its service. A second stub of the
    /// same name is refused, and the registry stays as it is.
    pub fn register(&mut self, service: Arc<S>) -> (r: Result<(), RuntimeError>)
        ensures
            r is Err <==> old(self).names().contains(service.name()),
            r is Ok ==> final(self).names() == old(self).names().push(service.name())
                && final(self).entries() == old(self).entries().push(service),
            r is Err ==> final(self).names() == old(self).names(),
            r is Err ==> final(self).entries() == old(self).entries(),
            r matches Err(e) ==> e matches RuntimeError::ServiceAlreadyRegistered(name) && name@
                == service.name(),
            old(self).distinct(),
            final(self).distinct(),
    {
        let name = String::from_str(service.service_name());
        if self.position(name.as_str()).is_some() {
            return Err(RuntimeError::ServiceAlreadyRegistered(name));
        }
        let ghost before = self.names();
        let mut taken = ServiceRegistry { services: Vec::new() };
        core::mem::swap(self, &mut taken);
        let mut services = taken.services;
        let ghost entries = services@;
        assert(before =~= Seq::new(entries.len(), |i: int| entries[i].name()));
        services.push(service);
        assert forall|i: int, j: int| 0 <= i < j < services@.len() implies services@[i].name()
            != services@[j].name() by {
            if j == entries.len() {
                assert(before[i] == entries[i].name());
                assert(before.contains(before[i]));
            } else {
                assert(before[i] != before[j]);
            }
        }
        *self = ServiceRegistry { services };
        assert(self.names() =~= before.push(service.name()));
        Ok(())
    }

    /// The stub of the service `name`, if one is registered: the entry that
    /// stands under that name, of which there is one at most.
    pub fn get_service(&self, name: &str) -> (r: Option<Arc<S>>)
        ensures
            self.distinct(),
            r is Some <==> self.names().contains(name@),
            r matches Some(service) ==> service.name() == name@ && 0 <= self.index_of(name@)
                < self.entries().len() && service == self.entries()[self.index_of(name@)],
    {
        match self.position(name) {
            Some(i) => {
                let service = share(&self.services[i]);
                assert(self.entries()[i as int] == service);
                Some(service)
            },
            None => None,
        }
    }

    /// The number of registered services, which is the number of their
    /// names.
    pub fn service_count(&self) -> (r: usize)
        ensures
            self.distinct(),
            r == self.names().len(),
    {
        proof {
            use_type_invariant(self);
        }
        self.services.len()
    }

    /// Whether a stub is registered for the service `name`.
    pub fn has_service(&self, name: &str) -> (r: bool)
        ensures
            self.distinct(),
            r == self.names().contains(name@),
    {
        self.position(name).is_some()
    }

    /// The names of the registered services, in the order of registration.
    /// No name is listed twice.
    pub fn list_services(&self) -> (r: Vec<String>)
        ensures
            self.distinct(),
            r.deep_view() == self.names(),
            r.deep_view().no_duplicates(),
    {
        proof {
            use_type_invariant(self);
        }
        let mut names: Vec<String> = Vec::new();
        let mut i: usize = 0;
        while i < self.services.len()
            invariant
                i <= self.services.len(),
                names.len() == i,
                forall|j: int| 0 <= j < i ==> names[j]@ == self.names()[j],
            decreases self.services.len() - i,
        {
            names.push(String::from_str(self.services[i].service_name()));
            i += 1;
        }
        assert(names.deep_view() =~= self.names());
        names
    }
}

impl<S: StubService> Default for ServiceRegistry<S> {
    fn default() -> (registry: Self)
        ensures
            registry.names() == Seq::<Seq<char>>::empty(),
            registry.entries() == Seq::<Arc<S>>::empty(),
    {
        ServiceRegistry::new()
    }
}

/// What the registry of every sandbox holds: the stand-in for the activity
/// manager under `activity`, and behind it the stand-in for the package
/// manager under `package`.
pub open spec fn minimal_services(registry: ServiceRegistry<MinimalService>) -> bool {
    &&& registry.entries().len() == 2
    &&& registry.names() == seq!["activity"@, "package"@]
    &&& *registry.entries()[0] is Activity
    &&& *registry.entries()[1] is Package
    &&& registry.entries()[0].descriptor() == "android.app.IActivityManager"@
    &&& registry.entries()[1].descriptor() == "android.content.pm.IPackageManager"@
    &&& registry.index_of("activity"@) == 0
    &&& registry.index_of("package"@) == 1
}

/// The registry that every sandbox starts with: the stand-ins for the
/// activity manager and the package manager.
pub fn init_minimal_services() -> (r: Result<ServiceRegistry<MinimalService>, RuntimeError>)
    ensures
        r matches Ok(registry) && minimal_services(registry) && registry.distinct(),
{
    proof {
        reveal_strlit("activity");
        reveal_strlit("package");
    }
    let mut registry: ServiceRegistry<MinimalService> = ServiceRegistry::new();
    let activity = Arc::new(MinimalService::Activity(ActivityManagerStub::new()));
    assert(!registry.names().contains(activity.name()));
    match registry.register(activity) {
        Ok(()) => {},
        Err(error) => {
            return Err(error);
        },
    }
    let package = Arc::new(MinimalService::Package(PackageManagerStub::new()));
    assert(registry.names() =~= seq!["activity"@]);
    assert("activity"@.len() != "package"@.len());
    assert(!registry.names().contains(package.name()));
    match registry.register(package) {
        Ok(()) => {},
        Err(error) => {
            return Err(error);
        },
    }
    assert(registry.names() =~= seq!["activity"@, "package"@]);
    assert(registry.names()[0] == "activity"@ && registry.names()[1] == "package"@);
    assert(registry.names().contains("activity"@));
    assert(registry.names().contains("package"@));
    Ok(registry)
}

} // verus!
