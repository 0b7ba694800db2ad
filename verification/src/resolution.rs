//! The order in which a name is looked up.
//!
//! A name is sought first among the declarations of the module that is being
//! compiled, then in each dependency module in the order in which the caller
//! supplied them. The first match wins: a module's own declaration shadows
//! those of its dependencies, and an earlier dependency shadows a later one.
use vstd::prelude::*;
use crate::error::{CompileError, CompileErrorKind, Location};

verus! {

/// The names that one module declares, in the order of their declaration.
#[derive(Clone, Debug, PartialEq, Eq)]
pub struct Declarations {
    pub names: Vec<Vec<u8>>,
}

impl View for Declarations {
    type V = Seq<Seq<u8>>;

    open spec fn view(&self) -> Seq<Seq<u8>> {
        Seq::new(self.names@.len(), |i: int| self.names@[i]@)
    }
}

/// Where a name was found.
#[derive(Clone, Copy, Debug, PartialEq, Eq, Structural)]
pub enum Resolution {
    /// Among the module's own declarations, at this index.
    Own { declaration: usize },
    /// In the dependency at index `module`, at index `declaration` there.
    Dependency { module: usize, declaration: usize },
    /// Nowhere.
    Unresolved,
}

/// The name surfaces of a list of dependencies, in the order supplied.
pub open spec fn surfaces(dependencies: Seq<Declarations>) -> Seq<Seq<Seq<u8>>> {
    Seq::new(dependencies.len(), |k: int| dependencies[k]@)
}

/// `name` is among `names`.
pub open spec fn declares(names: Seq<Seq<u8>>, name: Seq<u8>) -> bool {
    exists|i: int| 0 <= i < names.len() && names[i] == name
}

/// `i` is the first place in `names` at which `name` stands.
pub open spec fn first_at(names: Seq<Seq<u8>>, name: Seq<u8>, i: int) -> bool {
    &&& 0 <= i < names.len()
    &&& names[i] == name
    &&& forall|j: int| 0 <= j < i ==> names[j] != name
}

/// `resolution` is where the lookup of `name` ends: at the module's own first
/// declaration of it; else at the first declaration of it in the first
/// dependency that has one; else nowhere.
pub open spec fn resolves_to(
    own: Seq<Seq<u8>>,
    dependencies: Seq<Seq<Seq<u8>>>,
    name: Seq<u8>,
    resolution: Resolution,
) -> bool {
    match resolution {
        Resolution::Own { declaration } => first_at(own, name, declaration as int),
        Resolution::Dependency { module, declaration } => {
            &&& !declares(own, name)
            &&& 0 <= module < dependencies.len()
            &&& first_at(dependencies[module as int], name, declaration as int)
            &&& forall|k: int| 0 <= k < module ==> !declares(#[trigger] dependencies[k], name)
        },
        Resolution::Unresolved => {
            &&& !declares(own, name)
            &&& forall|k: int|
                0 <= k < dependencies.len() ==> !declares(#[trigger] dependencies[k], name)
        },
    }
}

/// Whether two names are the same, byte for byte.
pub fn same_name(a: &[u8], b: &[u8]) -> (result: bool)
    ensures
        result == (a@ == b@),
{
    if a.len() != b.len() {
        return false;
    }
    let mut i: usize = 0;
    while i < a.len()
        invariant
            a@.len() == b@.len(),
            0 <= i <= a@.len(),
            forall|j: int| 0 <= j < i ==> a@[j] == b@[j],
        decreases a@.len() - i,
    {
        if a[i] != b[i] {
            return false;
        }
        i += 1;
    }
    assert(a@ =~= b@);
    true
}

impl Declarations {
    /// The declarations `names`, in that order.
    pub fn new(names: Vec<Vec<u8>>) -> (result: Declarations)
        ensures
            result.names == names,
            result@.len() == names@.len(),
            forall|i: int| 0 <= i < names@.len() ==> result@[i] == names@[i]@,
    {
        Declarations { names }
    }

    /// The index of the first declaration of `name`, if there is one.
    pub fn position(&self, name: &[u8]) -> (result: Option<usize>)
        ensures
            match result {
                Some(i) => first_at(self@, name@, i as int),
                None => !declares(self@, name@),
            },
    {
        let mut i: usize = 0;
        while i < self.names.len()
            invariant
                0 <= i <= self.names@.len(),
                forall|j: int| 0 <= j < i ==> self@[j] != name@,
            decreases self.names@.len() - i,
        {
            if same_name(self.names[i].as_slice(), name) {
                return Some(i);
            }
            i += 1;
        }
        None
    }

    /// Whether `name` is declared.
    pub fn contains(&self, name: &[u8]) -> (result: bool)
        ensures
            result == declares(self@, name@),
    {
        self.position(name).is_some()
    }
}

/// A lookup has one answer.
pub proof fn lemma_resolution_unique(
    own: Seq<Seq<u8>>,
    dependencies: Seq<Seq<Seq<u8>>>,
    name: Seq<u8>,
    first: Resolution,
    second: Resolution,
)
    requires
        resolves_to(own, dependencies, name, first),
        resolves_to(own, dependencies, name, second),
    ensures
        first == second,
{
}

/// Looks `name` up: among the module's own declarations first, then in each
/// dependency in the order supplied. The first match wins.
pub fn resolve(own: &Declarations, dependencies: &Vec<Declarations>, name: &[u8]) -> (result:
    Resolution)
    ensures
        resolves_to(own@, surfaces(dependencies@), name@, result),
        forall|other: Resolution|
            resolves_to(own@, surfaces(dependencies@), name@, other) ==> other == result,
{
    let result = first_match(own, dependencies, name);
    proof {
        assert forall|other: Resolution|
            resolves_to(own@, surfaces(dependencies@), name@, other) implies other == result by {
            lemma_resolution_unique(own@, surfaces(dependencies@), name@, other, result);
        }
    }
    result
}

fn first_match(own: &Declarations, dependencies: &Vec<Declarations>, name: &[u8]) -> (result:
    Resolution)
    ensures
        resolves_to(own@, surfaces(dependencies@), name@, result),
{
    if let Some(declaration) = own.position(name) {
        return Resolution::Own { declaration };
    }
    let mut module: usize = 0;
    while module < dependencies.len()
        invariant
            0 <= module <= dependencies@.len(),
            !declares(own@, name@),
            forall|k: int|
                0 <= k < module ==> !declares(#[trigger] surfaces(dependencies@)[k], name@),
        decreases dependencies@.len() - module,
    {
        if let Some(declaration) = dependencies[module].position(name) {
            return Resolution::Dependency { module, declaration };
        }
        module += 1;
    }
    Resolution::Unresolved
}

/// Looks up a name that is used at `call_site`: where it is found, or the
/// error that names the place of its use when it is found nowhere.
pub fn resolve_at(
    own: &Declarations,
    dependencies: &Vec<Declarations>,
    name: &[u8],
    call_site: Location,
) -> (result: Result<Resolution, CompileError>)
    ensures
        match result {
            Ok(resolution) => resolution != Resolution::Unresolved && resolves_to(
                own@,
                surfaces(dependencies@),
                name@,
                resolution,
            ),
            Err(e) => e == (CompileError {
                kind: CompileErrorKind::UnresolvedName,
                location: Some(call_site),
            }) && resolves_to(own@, surfaces(dependencies@), name@, Resolution::Unresolved),
        },
        result is Err <==> resolves_to(
            own@,
            surfaces(dependencies@),
            name@,
            Resolution::Unresolved,
        ),
        forall|other: Resolution|
            resolves_to(own@, surfaces(dependencies@), name@, other) && other
                != Resolution::Unresolved ==> result == Ok::<Resolution, CompileError>(other),
{
    match resolve(own, dependencies, name) {
        Resolution::Unresolved => Err(
            CompileError { kind: CompileErrorKind::UnresolvedName, location: Some(call_site) },
        ),
        resolution => Ok(resolution),
    }
}

/// A name that the module declares itself resolves to the module's own
/// declaration, whatever its dependencies declare.
pub proof fn lemma_own_declaration_shadows(
    own: Seq<Seq<u8>>,
    dependencies: Seq<Seq<Seq<u8>>>,
    name: Seq<u8>,
    resolution: Resolution,
)
    requires
        declares(own, name),
        resolves_to(own, dependencies, name, resolution),
    ensures
        resolution matches Resolution::Own { declaration } && first_at(
            own,
            name,
            declaration as int,
        ),
{
}

/// Of two dependencies that declare the same name, the later one is never
/// the one that the name resolves to.
pub proof fn lemma_earlier_dependency_wins(
    own: Seq<Seq<u8>>,
    dependencies: Seq<Seq<Seq<u8>>>,
    name: Seq<u8>,
    earlier: int,
    later: int,
    resolution: Resolution,
)
    requires
        0 <= earlier < later < dependencies.len(),
        declares(dependencies[earlier], name),
        declares(dependencies[later], name),
        resolves_to(own, dependencies, name, resolution),
    ensures
        resolution != Resolution::Unresolved,
        resolution matches Resolution::Dependency { module, .. } ==> module <= earlier,
{
}

/// The order of the dependencies decides: where two dependencies declare a
/// name that the module does not, the name resolves to the one that comes
/// first, so that exchanging the two changes the module it resolves to.
pub proof fn lemma_order_decides(
    own: Seq<Seq<u8>>,
    a: Seq<Seq<u8>>,
    b: Seq<Seq<u8>>,
    name: Seq<u8>,
    a_first: Resolution,
    b_first: Resolution,
)
    requires
        !declares(own, name),
        declares(a, name),
        declares(b, name),
        resolves_to(own, seq![a, b], name, a_first),
        resolves_to(own, seq![b, a], name, b_first),
    ensures
        a_first matches Resolution::Dependency { module, declaration } && module == 0 && first_at(
            a,
            name,
            declaration as int,
        ),
        b_first matches Resolution::Dependency { module, declaration } && module == 0 && first_at(
            b,
            name,
            declaration as int,
        ),
{
}

} // verus!
