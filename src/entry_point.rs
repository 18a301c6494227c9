//! Reflection over entry points and over the whole module.
use vstd::prelude::*;
use crate::Error;
use crate::capability::{capability_name, requirement_of, CapabilityRequirement};
use crate::module::{
    find_first, first_match, Capability, ExecutionModel, Instruction, Key, Module, StorageClass,
};
use crate::types::{describes, ids_error, type_from_id, TypeDescriptor};

verus! {

/// What reflection finds of one entry point.
#[derive(Debug, PartialEq, Eq)]
pub struct EntryPointDescriptor {
    pub stage: ExecutionModel,
    pub name: String,
    /// The resolved interface types, for the stages whose interface is
    /// extracted (vertex inputs, fragment outputs); `None` for the others.
    pub interface: Option<Vec<TypeDescriptor>>,
}

/// The storage class whose variables make up a stage's interface.
pub open spec fn interface_class(stage: ExecutionModel) -> Option<StorageClass> {
    match stage {
        ExecutionModel::Vertex => Some(StorageClass::Input),
        ExecutionModel::Fragment => Some(StorageClass::Output),
        _ => None,
    }
}

/// Whether `ins` is a variable of class `class` listed in `interface`.
pub open spec fn is_interface_variable(
    ins: Instruction,
    interface: Seq<u32>,
    class: StorageClass,
) -> bool {
    match ins {
        Instruction::Variable { result_id, storage_class, .. } => storage_class == class
            && interface.contains(result_id),
        _ => false,
    }
}

/// The type ids of the interface variables of class `class`, in table order.
pub open spec fn interface_type_ids(
    m: Seq<Instruction>,
    interface: Seq<u32>,
    class: StorageClass,
) -> Seq<u32>
    decreases m.len(),
{
    if m.len() == 0 {
        Seq::empty()
    } else {
        let rest = interface_type_ids(m.drop_last(), interface, class);
        if is_interface_variable(m.last(), interface, class) {
            rest.push(m.last()->Variable_result_type_id)
        } else {
            rest
        }
    }
}

/// The first id of `interface` that no variable instruction of `m` declares.
pub open spec fn missing_variable(m: Seq<Instruction>, interface: Seq<u32>) -> Option<u32>
    decreases interface.len(),
{
    if interface.len() == 0 {
        None
    } else if first_match(m, Key::Variable(interface[0])).is_none() {
        Some(interface[0])
    } else {
        missing_variable(m, interface.drop_first())
    }
}

/// The error that reflecting the entry point `ins` meets, if any: for the
/// stages whose interface is extracted, first a listed id that declares no
/// variable, then the first interface type that fails to resolve.
pub open spec fn entry_point_error(m: Seq<Instruction>, ins: Instruction) -> Option<Error> {
    match ins {
        Instruction::EntryPoint { execution, interface, .. } => if execution is Kernel {
            Some(Error::UnsupportedConstruct)
        } else {
            match interface_class(execution) {
                Some(class) => match missing_variable(m, interface@) {
                    Some(id) => Some(Error::MalformedModule(id)),
                    None => ids_error(m, interface_type_ids(m, interface@, class), m.len()),
                },
                None => None,
            }
        },
        _ => None,
    }
}

/// Whether `ep` is what reflecting the entry point `ins` gives.
pub open spec fn describes_entry_point(
    m: Seq<Instruction>,
    ins: Instruction,
    ep: EntryPointDescriptor,
) -> bool {
    match ins {
        Instruction::EntryPoint { execution, name, interface, .. } => {
            &&& ep.stage == execution
            &&& ep.name@ == name@
            &&& match interface_class(execution) {
                Some(class) => match ep.interface {
                    Some(tys) => {
                        let ids = interface_type_ids(m, interface@, class);
                        &&& tys@.len() == ids.len()
                        &&& forall|k: int|
                            0 <= k < ids.len() ==> describes(
                                m,
                                ids[k],
                                #[trigger] tys@[k],
                                m.len(),
                            )
                    },
                    None => false,
                },
                None => ep.interface is None,
            }
        },
        _ => false,
    }
}

fn contains_id(v: &Vec<u32>, x: u32) -> (r: bool)
    ensures
        r == v@.contains(x),
{
    let mut i: usize = 0;
    while i < v.len()
        invariant
            i <= v@.len(),
            forall|j: int| 0 <= j < i ==> v@[j] != x,
        decreases v.len() - i,
    {
        if v[i] == x {
            return true;
        }
        i = i + 1;
    }
    false
}

fn find_missing_variable(doc: &Module, interface: &Vec<u32>) -> (r: Option<u32>)
    ensures
        r == missing_variable(doc@, interface@),
{
    let n = interface.len();
    let mut k: usize = 0;
    assert(interface@.subrange(0, n as int) =~= interface@);
    while k < n
        invariant
            n == interface@.len(),
            k <= n,
            missing_variable(doc@, interface@) == missing_variable(
                doc@,
                interface@.subrange(k as int, n as int),
            ),
        decreases n - k,
    {
        let ghost rest = interface@.subrange(k as int, n as int);
        assert(rest.drop_first() =~= interface@.subrange(k + 1, n as int));
        assert(rest[0] == interface@[k as int]);
        if find_first(doc, Key::Variable(interface[k])).is_none() {
            return Some(interface[k]);
        }
        k = k + 1;
    }
    assert(interface@.subrange(n as int, n as int).len() == 0);
    None
}

fn collect_interface_type_ids(doc: &Module, interface: &Vec<u32>, class: StorageClass) -> (r: Vec<
    u32,
>)
    ensures
        r@ == interface_type_ids(doc@, interface@, class),
{
    let n = doc.instructions.len();
    let mut ids: Vec<u32> = Vec::new();
    let mut i: usize = 0;
    while i < n
        invariant
            n == doc@.len(),
            i <= n,
            ids@ == interface_type_ids(doc@.subrange(0, i as int), interface@, class),
        decreases n - i,
    {
        assert(doc@.subrange(0, i + 1).drop_last() =~= doc@.subrange(0, i as int));
        match &doc.instructions[i] {
            Instruction::Variable { result_type_id, result_id, storage_class, .. } => {
                if *storage_class == class && contains_id(interface, *result_id) {
                    ids.push(*result_type_id);
                }
            },
            _ => {},
        }
        i = i + 1;
    }
    assert(doc@.subrange(0, n as int) =~= doc@);
    ids
}

fn resolve_interface(doc: &Module, ids: &Vec<u32>) -> (r: Result<Vec<TypeDescriptor>, Error>)
    ensures
        match r {
            Ok(tys) => {
                &&& ids_error(doc@, ids@, doc@.len()).is_none()
                &&& tys@.len() == ids@.len()
                &&& forall|k: int|
                    0 <= k < ids@.len() ==> describes(doc@, ids@[k], #[trigger] tys@[k], doc@.len())
            },
            Err(e) => ids_error(doc@, ids@, doc@.len()) == Some(e),
        },
{
    let n = ids.len();
    let mut tys: Vec<TypeDescriptor> = Vec::new();
    let mut k: usize = 0;
    assert(ids@.subrange(0, n as int) =~= ids@);
    while k < n
        invariant
            n == ids@.len(),
            k <= n,
            tys@.len() == k,
            ids_error(doc@, ids@, doc@.len()) == ids_error(
                doc@,
                ids@.subrange(k as int, n as int),
                doc@.len(),
            ),
            forall|j: int| 0 <= j < k ==> describes(doc@, ids@[j], #[trigger] tys@[j], doc@.len()),
        decreases n - k,
    {
        let ghost rest = ids@.subrange(k as int, n as int);
        assert(rest.drop_first() =~= ids@.subrange(k + 1, n as int));
        assert(rest[0] == ids@[k as int]);
        match type_from_id(doc, ids[k]) {
            Ok(t) => tys.push(t),
            Err(e) => return Err(e),
        }
        k = k + 1;
    }
    assert(ids@.subrange(n as int, n as int).len() == 0);
    Ok(tys)
}

/// Reflects the entry point declared by `instruction`: its stage, its name
/// and, for vertex and fragment stages, the types of its interface variables
/// in table order.
pub fn write_entry_point(doc: &Module, instruction: &Instruction) -> (r: Result<
    EntryPointDescriptor,
    Error,
>)
    requires
        instruction is EntryPoint,
    ensures
        match r {
            Ok(ep) => entry_point_error(doc@, *instruction).is_none() && describes_entry_point(
                doc@,
                *instruction,
                ep,
            ),
            Err(e) => entry_point_error(doc@, *instruction) == Some(e),
        },
{
    match instruction {
        Instruction::EntryPoint { execution, name, interface, .. } => {
            let class = match *execution {
                ExecutionModel::Vertex => StorageClass::Input,
                ExecutionModel::Fragment => StorageClass::Output,
                ExecutionModel::Kernel => return Err(Error::UnsupportedConstruct),
                _ => {
                    return Ok(
                        EntryPointDescriptor { stage: *execution, name: name.clone(), interface: None },
                    );
                },
            };
            match find_missing_variable(doc, interface) {
                Some(id) => return Err(Error::MalformedModule(id)),
                None => {},
            }
            let ids = collect_interface_type_ids(doc, interface, class);
            match resolve_interface(doc, &ids) {
                Ok(tys) => Ok(
                    EntryPointDescriptor {
                        stage: *execution,
                        name: name.clone(),
                        interface: Some(tys),
                    },
                ),
                Err(e) => Err(e),
            }
        },
        _ => Err(Error::UnsupportedConstruct),
    }
}

/// The capabilities that `m` declares, in table order, each with its requirement.
pub open spec fn declared_capabilities(m: Seq<Instruction>) -> Seq<
    (Capability, CapabilityRequirement),
>
    decreases m.len(),
{
    if m.len() == 0 {
        Seq::empty()
    } else {
        let rest = declared_capabilities(m.drop_last());
        match m.last() {
            Instruction::Capability(cap) => rest.push((cap, requirement_of(cap))),
            _ => rest,
        }
    }
}

/// The entry point instructions of `m`, in table order.
pub open spec fn entry_points_of(m: Seq<Instruction>) -> Seq<Instruction>
    decreases m.len(),
{
    if m.len() == 0 {
        Seq::empty()
    } else {
        let rest = entry_points_of(m.drop_last());
        if m.last() is EntryPoint {
            rest.push(m.last())
        } else {
            rest
        }
    }
}

/// The first error met while reflecting the entry points `eps` in order.
pub open spec fn entry_points_error(m: Seq<Instruction>, eps: Seq<Instruction>) -> Option<Error>
    decreases eps.len(),
{
    if eps.len() == 0 {
        None
    } else {
        match entry_point_error(m, eps[0]) {
            Some(e) => Some(e),
            None => entry_points_error(m, eps.drop_first()),
        }
    }
}

/// The error that the declared capabilities of `m` give: a module that
/// declares a capability the runtime never supports cannot be used.
pub open spec fn capabilities_error(m: Seq<Instruction>) -> Option<Error> {
    let caps = declared_capabilities(m);
    if exists|k: int| 0 <= k < caps.len() && (#[trigger] caps[k]).1 is Unsupported {
        Some(Error::UnsupportedConstruct)
    } else {
        None
    }
}

/// A fully resolved description of a module.
#[derive(Debug, PartialEq, Eq)]
pub struct Reflection {
    /// The declared capabilities, in table order, with what each asks of the host.
    pub capabilities: Vec<(Capability, CapabilityRequirement)>,
    /// One descriptor per entry point, in table order.
    pub entry_points: Vec<EntryPointDescriptor>,
}

/// Reflects over the whole module: its capabilities and its entry points.
/// Fails when it declares an unsupported capability, and otherwise with the
/// first entry point that fails.
pub fn reflect(doc: &Module) -> (r: Result<Reflection, Error>)
    ensures
        match r {
            Ok(refl) => {
                let eps = entry_points_of(doc@);
                &&& refl.capabilities@ == declared_capabilities(doc@)
                &&& capabilities_error(doc@).is_none()
                &&& entry_points_error(doc@, eps).is_none()
                &&& refl.entry_points@.len() == eps.len()
                &&& forall|k: int|
                    0 <= k < eps.len() ==> describes_entry_point(
                        doc@,
                        eps[k],
                        #[trigger] refl.entry_points@[k],
                    )
            },
            Err(e) => match capabilities_error(doc@) {
                Some(c) => e == c,
                None => entry_points_error(doc@, entry_points_of(doc@)) == Some(e),
            },
        },
{
    let n = doc.instructions.len();
    let mut capabilities: Vec<(Capability, CapabilityRequirement)> = Vec::new();
    let mut found: Vec<usize> = Vec::new();
    let mut i: usize = 0;
    while i < n
        invariant
            n == doc@.len(),
            i <= n,
            capabilities@ == declared_capabilities(doc@.subrange(0, i as int)),
            found@.len() == entry_points_of(doc@.subrange(0, i as int)).len(),
            forall|j: int|
                0 <= j < found@.len() ==> (#[trigger] found@[j]) < n && doc@[found@[j] as int]
                    == entry_points_of(doc@.subrange(0, i as int))[j],
        decreases n - i,
    {
        assert(doc@.subrange(0, i + 1).drop_last() =~= doc@.subrange(0, i as int));
        match &doc.instructions[i] {
            Instruction::Capability(cap) => {
                let req = capability_name(cap);
                capabilities.push((*cap, req));
            },
            Instruction::EntryPoint { .. } => {
                found.push(i);
            },
            _ => {},
        }
        i = i + 1;
    }
    assert(doc@.subrange(0, n as int) =~= doc@);
    let mut c: usize = 0;
    while c < capabilities.len()
        invariant
            capabilities@ == declared_capabilities(doc@),
            c <= capabilities@.len(),
            forall|j: int| 0 <= j < c ==> !((#[trigger] capabilities@[j]).1 is Unsupported),
        decreases capabilities.len() - c,
    {
        match capabilities[c].1 {
            CapabilityRequirement::Unsupported => return Err(Error::UnsupportedConstruct),
            _ => {},
        }
        c = c + 1;
    }
    assert(capabilities_error(doc@).is_none());
    let ghost eps = entry_points_of(doc@);
    let count = found.len();
    let mut entry_points: Vec<EntryPointDescriptor> = Vec::new();
    let mut k: usize = 0;
    assert(eps.subrange(0, count as int) =~= eps);
    while k < count
        invariant
            n == doc@.len(),
            eps == entry_points_of(doc@),
            capabilities@ == declared_capabilities(doc@),
            capabilities_error(doc@).is_none(),
            count == found@.len(),
            count == eps.len(),
            forall|j: int|
                0 <= j < count ==> (#[trigger] found@[j]) < n && doc@[found@[j] as int] == eps[j],
            k <= count,
            entry_points@.len() == k,
            entry_points_error(doc@, eps) == entry_points_error(
                doc@,
                eps.subrange(k as int, count as int),
            ),
            forall|j: int|
                0 <= j < k ==> describes_entry_point(doc@, eps[j], #[trigger] entry_points@[j]),
        decreases count - k,
    {
        let ghost rest = eps.subrange(k as int, count as int);
        assert(rest.drop_first() =~= eps.subrange(k + 1, count as int));
        assert(rest[0] == eps[k as int]);
        let at = found[k];
        assert(doc@[at as int] == eps[k as int]);
        assert(eps[k as int] is EntryPoint) by {
            lemma_entry_points_are_entry_points(doc@, k as int);
        }
        match write_entry_point(doc, &doc.instructions[at]) {
            Ok(ep) => entry_points.push(ep),
            Err(e) => return Err(e),
        }
        k = k + 1;
    }
    assert(eps.subrange(count as int, count as int).len() == 0);
    Ok(Reflection { capabilities, entry_points })
}

proof fn lemma_entry_points_are_entry_points(m: Seq<Instruction>, k: int)
    requires
        0 <= k < entry_points_of(m).len(),
    ensures
        entry_points_of(m)[k] is EntryPoint,
    decreases m.len(),
{
    if m.len() > 0 {
        let rest = entry_points_of(m.drop_last());
        if k < rest.len() {
            lemma_entry_points_are_entry_points(m.drop_last(), k);
        }
    }
}

} // verus!
