//! Resolution of type ids into structured type descriptors.
use vstd::prelude::*;
use vstd::arithmetic::div_mod::{
    lemma_fundamental_div_mod, lemma_mod_mod, lemma_mod_multiples_vanish, lemma_small_mod,
};
use crate::Error;
use crate::module::{AccessQualifier, Dim, find_first, first_match, key_matches, Instruction, Key, Module};
use crate::names::{member_name_from_id, member_name_of, name_from_id, name_of};

verus! {

/// The flags of an image type, carried verbatim.
#[derive(Clone, Copy, Debug, PartialEq, Eq, Structural)]
pub struct ImageDescriptor {
    pub sampled_type_id: u32,
    pub dim: Dim,
    pub depth: Option<bool>,
    pub arrayed: bool,
    pub multisampled: bool,
    pub sampled: Option<bool>,
    pub format: u32,
    pub access: Option<AccessQualifier>,
}

/// A resolved type.
#[derive(Debug, PartialEq, Eq)]
pub enum TypeDescriptor {
    Void,
    Bool,
    Int { width: u32, signed: bool },
    Float { width: u32 },
    /// A vector, or an array whose length is a constant.
    Array { element: Box<TypeDescriptor>, length: u64 },
    /// An array whose length is only known at run time.
    RuntimeArray { element: Box<TypeDescriptor> },
    Image(ImageDescriptor),
    Struct { name: String, members: Vec<Member> },
    Opaque,
}

/// One member of a struct descriptor.
#[derive(Debug, PartialEq, Eq)]
pub struct Member {
    pub name: String,
    pub ty: TypeDescriptor,
}

/// The number that little-endian 32-bit words spell, least significant first.
pub open spec fn words_value(words: Seq<u32>) -> nat
    decreases words.len(),
{
    if words.len() == 0 {
        0
    } else {
        (words[0] + 0x1_0000_0000 * words_value(words.drop_first())) as nat
    }
}

/// The length that a constant's words give an array: their value, kept to 64 bits.
pub open spec fn array_length_of(words: Seq<u32>) -> nat {
    words_value(words) % 0x1_0000_0000_0000_0000
}

/// The first error met while resolving `id` with at most `depth` nested
/// steps, or `None` when it resolves.
pub open spec fn type_error(m: Seq<Instruction>, id: u32, depth: nat) -> Option<Error>
    decreases depth, 0nat,
{
    match first_match(m, Key::TypeDef(id)) {
        None => Some(Error::MalformedModule(id)),
        Some(ins) => match ins {
            Instruction::TypeVector { component_id: inner, .. }
            | Instruction::TypeRuntimeArray { type_id: inner, .. }
            | Instruction::TypeSampledImage { image_type_id: inner, .. }
            | Instruction::TypePointer { type_id: inner, .. } => if depth == 0 {
                Some(Error::CyclicType(id))
            } else {
                type_error(m, inner, (depth - 1) as nat)
            },
            Instruction::TypeArray { type_id, length_id, .. } => if depth == 0 {
                Some(Error::CyclicType(id))
            } else {
                match type_error(m, type_id, (depth - 1) as nat) {
                    Some(e) => Some(e),
                    None => if first_match(m, Key::Constant(length_id)).is_none() {
                        Some(Error::MalformedModule(length_id))
                    } else {
                        None
                    },
                }
            },
            Instruction::TypeStruct { member_types, .. } => if depth == 0 {
                Some(Error::CyclicType(id))
            } else {
                ids_error(m, member_types@, (depth - 1) as nat)
            },
            _ => None,
        },
    }
}

/// The first error met while resolving the ids of `ids` in order.
pub open spec fn ids_error(m: Seq<Instruction>, ids: Seq<u32>, depth: nat) -> Option<Error>
    decreases depth, ids.len(),
{
    if ids.len() == 0 {
        None
    } else {
        match type_error(m, ids[0], depth) {
            Some(e) => Some(e),
            None => ids_error(m, ids.drop_first(), depth),
        }
    }
}

/// Whether `d` is what `id` resolves to with at most `depth` nested steps.
pub open spec fn describes(m: Seq<Instruction>, id: u32, d: TypeDescriptor, depth: nat) -> bool
    decreases depth,
{
    match first_match(m, Key::TypeDef(id)) {
        None => false,
        Some(ins) => match ins {
            Instruction::TypeVoid { .. } => d is Void,
            Instruction::TypeBool { .. } => d is Bool,
            Instruction::TypeInt { width, signedness, .. } => d == (TypeDescriptor::Int {
                width,
                signed: signedness,
            }),
            Instruction::TypeFloat { width, .. } => d == (TypeDescriptor::Float { width }),
            Instruction::TypeVector { component_id, count, .. } => depth > 0 && match d {
                TypeDescriptor::Array { element, length } => length == count && describes(
                    m,
                    component_id,
                    *element,
                    (depth - 1) as nat,
                ),
                _ => false,
            },
            Instruction::TypeArray { type_id, length_id, .. } => depth > 0 && match first_match(
                m,
                Key::Constant(length_id),
            ) {
                Some(Instruction::Constant { data, .. }) => match d {
                    TypeDescriptor::Array { element, length } => length == array_length_of(data@)
                        && describes(m, type_id, *element, (depth - 1) as nat),
                    _ => false,
                },
                _ => false,
            },
            Instruction::TypeRuntimeArray { type_id, .. } => depth > 0 && match d {
                TypeDescriptor::RuntimeArray { element } => describes(
                    m,
                    type_id,
                    *element,
                    (depth - 1) as nat,
                ),
                _ => false,
            },
            Instruction::TypeImage {
                sampled_type_id,
                dim,
                depth: image_depth,
                arrayed,
                ms,
                sampled,
                format,
                access,
                ..
            } => d == TypeDescriptor::Image(
                ImageDescriptor {
                    sampled_type_id,
                    dim,
                    depth: image_depth,
                    arrayed,
                    multisampled: ms,
                    sampled,
                    format,
                    access,
                },
            ),
            Instruction::TypeSampledImage { image_type_id: inner, .. }
            | Instruction::TypePointer { type_id: inner, .. } => depth > 0 && describes(
                m,
                inner,
                d,
                (depth - 1) as nat,
            ),
            Instruction::TypeStruct { member_types, .. } => depth > 0 && match d {
                TypeDescriptor::Struct { name, members } => {
                    &&& name@ == name_of(m, id)
                    &&& members@.len() == member_types@.len()
                    &&& forall|k: int|
                        0 <= k < members@.len() ==> {
                            &&& (#[trigger] members@[k]).name@ == member_name_of(m, id, #[verifier::truncate] (k as u32))
                            &&& describes(m, member_types@[k], members@[k].ty, (depth - 1) as nat)
                        }
                },
                _ => false,
            },
            Instruction::TypeOpaque { .. } => d is Opaque,
            _ => false,
        },
    }
}

/// Whether `r` is the outcome of resolving `id` with at most `depth` nested steps.
pub open spec fn resolved_at(
    m: Seq<Instruction>,
    id: u32,
    depth: nat,
    r: Result<TypeDescriptor, Error>,
) -> bool {
    match r {
        Ok(d) => type_error(m, id, depth).is_none() && describes(m, id, d, depth),
        Err(e) => type_error(m, id, depth) == Some(e),
    }
}

/// Whether `r` is the outcome of resolving `id` in the module `m`. The depth
/// bound is the table's length: a chain of distinct type ids is never longer,
/// so only a cyclic type graph runs out of it.
pub open spec fn resolved(m: Seq<Instruction>, id: u32, r: Result<TypeDescriptor, Error>) -> bool {
    resolved_at(m, id, m.len(), r)
}

proof fn lemma_length_step(v: nat, w: nat)
    requires
        w < 0x1_0000_0000,
    ensures
        ((v % 0x1_0000_0000_0000_0000) % 0x1_0000_0000) * 0x1_0000_0000 + w
            == (w + 0x1_0000_0000 * v) % 0x1_0000_0000_0000_0000,
        ((v % 0x1_0000_0000_0000_0000) % 0x1_0000_0000) * 0x1_0000_0000 + w
            < 0x1_0000_0000_0000_0000,
{
    let lo: int = 0x1_0000_0000;
    let full: int = 0x1_0000_0000_0000_0000;
    assert(full == lo * lo);
    lemma_mod_mod(v as int, lo, lo);
    let a0 = (v as int) % lo;
    let p = (v as int) / lo;
    lemma_fundamental_div_mod(v as int, lo);
    assert(0 <= a0 < lo);
    assert(a0 * lo + w < full) by (nonlinear_arith)
        requires
            0 <= a0 < lo,
            0 <= w < lo,
            full == lo * lo,
    ;
    assert(w + lo * v == full * p + (a0 * lo + w)) by (nonlinear_arith)
        requires
            v == lo * p + a0,
            full == lo * lo,
    ;
    lemma_mod_multiples_vanish(p, a0 * lo + w, full);
    lemma_small_mod((a0 * lo + w) as nat, full as nat);
}

/// The length that the words of a length constant spell.
pub fn array_length(data: &Vec<u32>) -> (r: u64)
    ensures
        r == array_length_of(data@),
{
    let n = data.len();
    let mut i: usize = n;
    let mut acc: u64 = 0;
    while i > 0
        invariant
            n == data@.len(),
            i <= n,
            acc == words_value(data@.subrange(i as int, n as int)) % 0x1_0000_0000_0000_0000,
        decreases i,
    {
        let ghost before = words_value(data@.subrange(i as int, n as int));
        i = i - 1;
        let w = data[i];
        proof {
            let s = data@.subrange(i as int, n as int);
            assert(s.drop_first() =~= data@.subrange(i + 1, n as int));
            assert(words_value(s) == w + 0x1_0000_0000 * before);
            lemma_length_step(before, w as nat);
        }
        acc = (acc % 0x1_0000_0000) * 0x1_0000_0000 + w as u64;
    }
    assert(data@.subrange(0, n as int) =~= data@);
    acc
}

fn resolve_at_depth(doc: &Module, id: u32, depth: usize) -> (r: Result<TypeDescriptor, Error>)
    ensures
        resolved_at(doc@, id, depth as nat, r),
    decreases depth,
{
    let i = match find_first(doc, Key::TypeDef(id)) {
        Some(i) => i,
        None => return Err(Error::MalformedModule(id)),
    };
    match &doc.instructions[i] {
        Instruction::TypeVoid { .. } => Ok(TypeDescriptor::Void),
        Instruction::TypeBool { .. } => Ok(TypeDescriptor::Bool),
        Instruction::TypeInt { width, signedness, .. } => Ok(
            TypeDescriptor::Int { width: *width, signed: *signedness },
        ),
        Instruction::TypeFloat { width, .. } => Ok(TypeDescriptor::Float { width: *width }),
        Instruction::TypeVector { component_id, count, .. } => {
            if depth == 0 {
                return Err(Error::CyclicType(id));
            }
            match resolve_at_depth(doc, *component_id, depth - 1) {
                Ok(t) => Ok(TypeDescriptor::Array { element: Box::new(t), length: *count as u64 }),
                Err(e) => Err(e),
            }
        },
        Instruction::TypeArray { type_id, length_id, .. } => {
            if depth == 0 {
                return Err(Error::CyclicType(id));
            }
            let t = match resolve_at_depth(doc, *type_id, depth - 1) {
                Ok(t) => t,
                Err(e) => return Err(e),
            };
            match find_first(doc, Key::Constant(*length_id)) {
                Some(c) => match &doc.instructions[c] {
                    Instruction::Constant { data, .. } => Ok(
                        TypeDescriptor::Array { element: Box::new(t), length: array_length(data) },
                    ),
                    _ => Err(Error::MalformedModule(*length_id)),
                },
                None => Err(Error::MalformedModule(*length_id)),
            }
        },
        Instruction::TypeRuntimeArray { type_id, .. } => {
            if depth == 0 {
                return Err(Error::CyclicType(id));
            }
            match resolve_at_depth(doc, *type_id, depth - 1) {
                Ok(t) => Ok(TypeDescriptor::RuntimeArray { element: Box::new(t) }),
                Err(e) => Err(e),
            }
        },
        Instruction::TypeImage {
            sampled_type_id,
            dim,
            depth: image_depth,
            arrayed,
            ms,
            sampled,
            format,
            access,
            ..
        } => Ok(
            TypeDescriptor::Image(
                ImageDescriptor {
                    sampled_type_id: *sampled_type_id,
                    dim: *dim,
                    depth: *image_depth,
                    arrayed: *arrayed,
                    multisampled: *ms,
                    sampled: *sampled,
                    format: *format,
                    access: *access,
                },
            ),
        ),
        Instruction::TypeSampledImage { image_type_id: inner, .. }
        | Instruction::TypePointer { type_id: inner, .. } => {
            if depth == 0 {
                return Err(Error::CyclicType(id));
            }
            resolve_at_depth(doc, *inner, depth - 1)
        },
        Instruction::TypeStruct { member_types, .. } => {
            if depth == 0 {
                return Err(Error::CyclicType(id));
            }
            let ghost m = doc@;
            let ghost d = (depth - 1) as nat;
            assert(first_match(m, Key::TypeDef(id)) == Some(m[i as int]));
            assert(m[i as int] is TypeStruct);
            assert(type_error(m, id, depth as nat) == ids_error(m, member_types@, d));
            let name = name_from_id(doc, id);
            let n = member_types.len();
            let mut members: Vec<Member> = Vec::new();
            let mut k: usize = 0;
            assert(member_types@.subrange(0, n as int) =~= member_types@);
            while k < n
                invariant
                    m == doc@,
                    d == depth - 1,
                    depth > 0,
                    i < m.len(),
                    first_match(m, Key::TypeDef(id)) == Some(m[i as int]),
                    m[i as int] is TypeStruct,
                    m[i as int]->TypeStruct_member_types == *member_types,
                    type_error(m, id, depth as nat) == ids_error(m, member_types@, d),
                    name@ == name_of(m, id),
                    n == member_types@.len(),
                    k <= n,
                    members@.len() == k,
                    ids_error(m, member_types@, d) == ids_error(
                        m,
                        member_types@.subrange(k as int, n as int),
                        d,
                    ),
                    forall|j: int|
                        0 <= j < k ==> {
                            &&& (#[trigger] members@[j]).name@ == member_name_of(m, id, #[verifier::truncate] (j as u32))
                            &&& describes(m, member_types@[j], members@[j].ty, d)
                        },
                decreases n - k,
            {
                let ghost rest = member_types@.subrange(k as int, n as int);
                assert(rest.drop_first() =~= member_types@.subrange(k + 1, n as int));
                assert(rest[0] == member_types@[k as int]);
                let t = match resolve_at_depth(doc, member_types[k], depth - 1) {
                    Ok(t) => t,
                    Err(e) => {
                        assert(ids_error(m, rest, d) == Some(e));
                        return Err(e);
                    },
                };
                let member_name = member_name_from_id(doc, id, #[verifier::truncate] (k as u32));
                members.push(Member { name: member_name, ty: t });
                k = k + 1;
            }
            assert(member_types@.subrange(n as int, n as int).len() == 0);
            assert(ids_error(m, member_types@, d).is_none());
            Ok(TypeDescriptor::Struct { name, members })
        },
        Instruction::TypeOpaque { .. } => Ok(TypeDescriptor::Opaque),
        _ => Err(Error::MalformedModule(id)),
    }
}

/// Resolves the type declared with result id `searched`.
pub fn type_from_id(doc: &Module, searched: u32) -> (r: Result<TypeDescriptor, Error>)
    ensures
        resolved(doc@, searched, r),
{
    resolve_at_depth(doc, searched, doc.instructions.len())
}

/// Resolving a list of ids fails exactly when one of them fails.
proof fn lemma_ids_error_none(m: Seq<Instruction>, ids: Seq<u32>, depth: nat)
    ensures
        ids_error(m, ids, depth).is_none() <==> forall|j: int|
            0 <= j < ids.len() ==> (#[trigger] type_error(m, ids[j], depth)).is_none(),
    decreases ids.len(),
{
    if ids.len() > 0 {
        lemma_ids_error_none(m, ids.drop_first(), depth);
        if ids_error(m, ids, depth).is_none() {
            assert forall|j: int| 0 <= j < ids.len() implies (#[trigger] type_error(
                m,
                ids[j],
                depth,
            )).is_none() by {
                if j > 0 {
                    assert(ids[j] == ids.drop_first()[j - 1]);
                }
            }
        } else if type_error(m, ids[0], depth).is_none() {
            let j = choose|j: int|
                0 <= j < ids.len() - 1 && (#[trigger] type_error(
                    m,
                    ids.drop_first()[j],
                    depth,
                )).is_some();
            assert(ids.drop_first()[j] == ids[j + 1]);
        }
    }
}

/// A type that resolves within `depth` nested steps resolves the same way
/// with one step more.
proof fn lemma_depth_monotone(m: Seq<Instruction>, id: u32, depth: nat)
    requires
        type_error(m, id, depth).is_none(),
    ensures
        type_error(m, id, depth + 1).is_none(),
        forall|d: TypeDescriptor| describes(m, id, d, depth) == #[trigger] describes(m, id, d, depth + 1),
    decreases depth,
{
    match first_match(m, Key::TypeDef(id)) {
        None => {},
        Some(ins) => match ins {
            Instruction::TypeVector { component_id: inner, .. }
            | Instruction::TypeRuntimeArray { type_id: inner, .. }
            | Instruction::TypeSampledImage { image_type_id: inner, .. }
            | Instruction::TypePointer { type_id: inner, .. }
            | Instruction::TypeArray { type_id: inner, .. } => {
                lemma_depth_monotone(m, inner, (depth - 1) as nat);
                assert forall|d: TypeDescriptor| describes(m, id, d, depth) == #[trigger] describes(
                    m,
                    id,
                    d,
                    depth + 1,
                ) by {
                    assert(describes(m, inner, d, (depth - 1) as nat) == describes(
                        m,
                        inner,
                        d,
                        depth,
                    ));
                    match d {
                        TypeDescriptor::Array { element, .. }
                        | TypeDescriptor::RuntimeArray { element } => {
                            assert(describes(m, inner, *element, (depth - 1) as nat) == describes(
                                m,
                                inner,
                                *element,
                                depth,
                            ));
                        },
                        _ => {},
                    }
                }
            },
            Instruction::TypeStruct { member_types, .. } => {
                let ids = member_types@;
                let k = (depth - 1) as nat;
                lemma_ids_error_none(m, ids, k);
                lemma_ids_error_none(m, ids, depth);
                assert forall|j: int| 0 <= j < ids.len() implies (#[trigger] type_error(
                    m,
                    ids[j],
                    depth,
                )).is_none() && forall|d: TypeDescriptor|
                    describes(m, ids[j], d, k) == #[trigger] describes(m, ids[j], d, depth) by {
                    assert(type_error(m, ids[j], k).is_none());
                    lemma_depth_monotone(m, ids[j], k);
                }
                assert forall|d: TypeDescriptor| describes(m, id, d, depth) == #[trigger] describes(
                    m,
                    id,
                    d,
                    depth + 1,
                ) by {
                    match d {
                        TypeDescriptor::Struct { name, members } => {
                            if members@.len() == ids.len() {
                                assert forall|j: int| 0 <= j < members@.len() implies describes(
                                    m,
                                    ids[j],
                                    (#[trigger] members@[j]).ty,
                                    k,
                                ) == describes(m, ids[j], members@[j].ty, depth) by {
                                    assert(type_error(m, ids[j], depth).is_none());
                                }
                            }
                        },
                        _ => {},
                    }
                }
            },
            _ => {},
        },
    }
}

/// Resolving a scalar type (void, bool, integer, float) always succeeds and
/// always gives the same descriptor: two resolutions of the same id agree.
pub proof fn lemma_scalar_resolution_is_stable(
    m: Seq<Instruction>,
    id: u32,
    r1: Result<TypeDescriptor, Error>,
    r2: Result<TypeDescriptor, Error>,
)
    requires
        first_match(m, Key::TypeDef(id)) matches Some(ins) && (ins is TypeVoid || ins is TypeBool
            || ins is TypeInt || ins is TypeFloat),
        resolved(m, id, r1),
        resolved(m, id, r2),
    ensures
        r1 is Ok,
        r1 == r2,
{
}

/// A vector type whose component type resolves resolves too, to an array
/// whose length is the vector's count and whose element is what the component
/// type resolves to.
pub proof fn lemma_vector_resolution(m: Seq<Instruction>, id: u32)
    requires
        first_match(m, Key::TypeDef(id)) matches Some(ins) && ins is TypeVector,
        type_error(m, first_match(m, Key::TypeDef(id))->0->TypeVector_component_id, m.len()).is_none(),
    ensures
        ({
            let ins = first_match(m, Key::TypeDef(id))->0;
            let c = ins->TypeVector_component_id;
            &&& type_error(m, id, m.len()).is_none()
            &&& forall|d: TypeDescriptor|
                #[trigger] describes(m, id, d, m.len()) <==> (d matches TypeDescriptor::Array {
                    element,
                    length,
                } && length == ins->count && describes(m, c, *element, m.len()))
        }),
{
    let ins = first_match(m, Key::TypeDef(id))->0;
    let c = ins->TypeVector_component_id;
    assert(inner_type_ids(m, id)[0] == c);
    lemma_inner_resolves_shallower(m, id, c);
    lemma_depth_monotone(m, c, (m.len() - 1) as nat);
}

/// A struct type whose member types all resolve resolves too, to its own
/// name and, in declaration order, one member per member type id, named by its
/// member name and holding what that id resolves to. Missing names fall back
/// to the placeholder.
pub proof fn lemma_struct_resolution(m: Seq<Instruction>, id: u32)
    requires
        first_match(m, Key::TypeDef(id)) matches Some(ins) && ins is TypeStruct,
        forall|k: int|
            0 <= k < first_match(m, Key::TypeDef(id))->0->TypeStruct_member_types@.len()
                ==> (#[trigger] type_error(
                m,
                first_match(m, Key::TypeDef(id))->0->TypeStruct_member_types@[k],
                m.len(),
            )).is_none(),
    ensures
        ({
            let ids = first_match(m, Key::TypeDef(id))->0->TypeStruct_member_types@;
            &&& type_error(m, id, m.len()).is_none()
            &&& forall|d: TypeDescriptor|
                #[trigger] describes(m, id, d, m.len()) <==> (d matches TypeDescriptor::Struct {
                    name,
                    members,
                } && name@ == name_of(m, id) && members@.len() == ids.len() && forall|k: int|
                    0 <= k < ids.len() ==> {
                        &&& (#[trigger] members@[k]).name@ == member_name_of(
                            m,
                            id,
                            #[verifier::truncate] (k as u32),
                        )
                        &&& describes(m, ids[k], members@[k].ty, m.len())
                    })
        }),
{
    let ids = first_match(m, Key::TypeDef(id))->0->TypeStruct_member_types@;
    let k = (m.len() - 1) as nat;
    assert forall|j: int| 0 <= j < ids.len() implies (#[trigger] type_error(
        m,
        ids[j],
        k,
    )).is_none() by {
        assert(type_error(m, ids[j], m.len()).is_none());
        assert(inner_type_ids(m, id)[j] == ids[j]);
        lemma_inner_resolves_shallower(m, id, ids[j]);
    }
    lemma_ids_error_none(m, ids, k);
    assert forall|j: int| 0 <= j < ids.len() implies (#[trigger] type_error(
        m,
        ids[j],
        m.len(),
    )).is_none() && forall|d: TypeDescriptor|
        describes(m, ids[j], d, k) == #[trigger] describes(m, ids[j], d, m.len()) by {
        assert(type_error(m, ids[j], k).is_none());
        lemma_depth_monotone(m, ids[j], k);
    }
    assert forall|d: TypeDescriptor| #[trigger] describes(m, id, d, m.len()) <==> (
    d matches TypeDescriptor::Struct { name, members } && name@ == name_of(m, id)
        && members@.len() == ids.len() && forall|j: int|
        0 <= j < ids.len() ==> {
            &&& (#[trigger] members@[j]).name@ == member_name_of(
                m,
                id,
                #[verifier::truncate] (j as u32),
            )
            &&& describes(m, ids[j], members@[j].ty, m.len())
        }) by {
        match d {
            TypeDescriptor::Struct { name, members } => {
                if members@.len() == ids.len() {
                    assert forall|j: int| 0 <= j < members@.len() implies describes(
                        m,
                        ids[j],
                        (#[trigger] members@[j]).ty,
                        k,
                    ) == describes(m, ids[j], members@[j].ty, m.len()) by {
                        assert(type_error(m, ids[j], m.len()).is_none());
                    }
                }
            },
            _ => {},
        }
    }
}

/// A pointer type whose pointee type resolves resolves to exactly what the
/// pointee type resolves to.
pub proof fn lemma_pointer_is_transparent(m: Seq<Instruction>, id: u32)
    requires
        first_match(m, Key::TypeDef(id)) matches Some(ins) && ins is TypePointer,
        type_error(m, first_match(m, Key::TypeDef(id))->0->TypePointer_type_id, m.len()).is_none(),
    ensures
        ({
            let pointee = first_match(m, Key::TypeDef(id))->0->TypePointer_type_id;
            &&& type_error(m, id, m.len()).is_none()
            &&& forall|d: TypeDescriptor|
                #[trigger] describes(m, id, d, m.len()) == describes(m, pointee, d, m.len())
        }),
{
    let pointee = first_match(m, Key::TypeDef(id))->0->TypePointer_type_id;
    assert(inner_type_ids(m, id)[0] == pointee);
    lemma_inner_resolves_shallower(m, id, pointee);
    lemma_depth_monotone(m, pointee, (m.len() - 1) as nat);
}

/// An id that no type instruction declares fails to resolve, with
/// `MalformedModule` naming it.
pub proof fn lemma_absent_type_is_malformed(
    m: Seq<Instruction>,
    id: u32,
    r: Result<TypeDescriptor, Error>,
)
    requires
        first_match(m, Key::TypeDef(id)).is_none(),
        resolved(m, id, r),
    ensures
        r == Err::<TypeDescriptor, Error>(Error::MalformedModule(id)),
{
}

/// The type ids that resolving `id` goes on to resolve.
pub open spec fn inner_type_ids(m: Seq<Instruction>, id: u32) -> Seq<u32> {
    match first_match(m, Key::TypeDef(id)) {
        Some(ins) => match ins {
            Instruction::TypeVector { component_id: inner, .. }
            | Instruction::TypeRuntimeArray { type_id: inner, .. }
            | Instruction::TypeSampledImage { image_type_id: inner, .. }
            | Instruction::TypePointer { type_id: inner, .. }
            | Instruction::TypeArray { type_id: inner, .. } => seq![inner],
            Instruction::TypeStruct { member_types, .. } => member_types@,
            _ => Seq::empty(),
        },
        None => Seq::empty(),
    }
}

/// Whether each id of `p` is among those that the one before it goes on to resolve.
pub open spec fn is_type_path(m: Seq<Instruction>, p: Seq<u32>) -> bool {
    &&& p.len() > 0
    &&& forall|k: int| 0 <= k < p.len() - 1 ==> inner_type_ids(m, #[trigger] p[k]).contains(p[k + 1])
}

/// Whether resolving `id` leads to a type id that leads back to itself.
pub open spec fn reaches_type_cycle(m: Seq<Instruction>, id: u32) -> bool {
    exists|p: Seq<u32>, i: int, j: int|
        #![trigger is_type_path(m, p), p[i], p[j]]
        is_type_path(m, p) && p[0] == id && 0 <= i < j < p.len() && p[i] == p[j]
}

spec fn declared_type_id(ins: Instruction) -> u32 {
    match ins {
        Instruction::TypeVoid { result_id }
        | Instruction::TypeBool { result_id }
        | Instruction::TypeInt { result_id, .. }
        | Instruction::TypeFloat { result_id, .. }
        | Instruction::TypeVector { result_id, .. }
        | Instruction::TypeArray { result_id, .. }
        | Instruction::TypeRuntimeArray { result_id, .. }
        | Instruction::TypeStruct { result_id, .. }
        | Instruction::TypeImage { result_id, .. }
        | Instruction::TypeSampledImage { result_id, .. }
        | Instruction::TypeOpaque { result_id, .. }
        | Instruction::TypePointer { result_id, .. } => result_id,
        _ => 0,
    }
}

proof fn lemma_first_match_is_in(s: Seq<Instruction>, key: Key) -> (i: int)
    requires
        first_match(s, key).is_some(),
    ensures
        0 <= i < s.len(),
        first_match(s, key) == Some(s[i]),
        key_matches(key, s[i]),
    decreases s.len(),
{
    if key_matches(key, s[0]) {
        0
    } else {
        let j = lemma_first_match_is_in(s.drop_first(), key);
        j + 1
    }
}

proof fn lemma_ids_error_some(m: Seq<Instruction>, ids: Seq<u32>, depth: nat) -> (j: int)
    requires
        ids_error(m, ids, depth).is_some(),
    ensures
        0 <= j < ids.len(),
        type_error(m, ids[j], depth) == ids_error(m, ids, depth),
    decreases ids.len(),
{
    if type_error(m, ids[0], depth).is_some() {
        0
    } else {
        let j = lemma_ids_error_some(m, ids.drop_first(), depth);
        j + 1
    }
}

/// Running out of depth at `depth` gives a chain of `depth + 1` declared type ids.
proof fn lemma_cyclic_path(m: Seq<Instruction>, id: u32, depth: nat) -> (p: Seq<u32>)
    requires
        type_error(m, id, depth) matches Some(Error::CyclicType(_)),
    ensures
        is_type_path(m, p),
        p[0] == id,
        p.len() == depth + 1,
        forall|k: int| 0 <= k < p.len() ==> first_match(m, Key::TypeDef(#[trigger] p[k])).is_some(),
    decreases depth,
{
    if depth == 0 {
        seq![id]
    } else {
        let ins = first_match(m, Key::TypeDef(id))->0;
        let d = (depth - 1) as nat;
        let inner = match ins {
            Instruction::TypeStruct { member_types, .. } => {
                let j = lemma_ids_error_some(m, member_types@, d);
                member_types@[j]
            },
            _ => inner_type_ids(m, id)[0],
        };
        assert(inner_type_ids(m, id).contains(inner));
        let rest = lemma_cyclic_path(m, inner, d);
        let p = seq![id] + rest;
        assert forall|k: int| 0 <= k < p.len() - 1 implies inner_type_ids(
            m,
            #[trigger] p[k],
        ).contains(p[k + 1]) by {
            if k > 0 {
                assert(p[k] == rest[k - 1]);
                assert(p[k + 1] == rest[k]);
            }
        }
        assert forall|k: int| 0 <= k < p.len() implies first_match(
            m,
            Key::TypeDef(#[trigger] p[k]),
        ).is_some() by {
            if k > 0 {
                assert(p[k] == rest[k - 1]);
            }
        }
        p
    }
}

/// Resolution reports `CyclicType` only where the type graph has a cycle:
/// the depth bound never rejects a type whose resolution comes to an end.
pub proof fn lemma_cyclic_only_on_cycles(m: Seq<Instruction>, id: u32)
    requires
        type_error(m, id, m.len()) matches Some(Error::CyclicType(_)),
    ensures
        reaches_type_cycle(m, id),
{
    let p = lemma_cyclic_path(m, id, m.len());
    let declared = m.map_values(|ins: Instruction| declared_type_id(ins));
    let all = declared.to_set();
    assert(p.to_set().subset_of(all)) by {
        assert forall|x: u32| p.to_set().contains(x) implies all.contains(x) by {
            let k = choose|k: int| 0 <= k < p.len() && p[k] == x;
            let i = lemma_first_match_is_in(m, Key::TypeDef(p[k]));
            assert(declared[i] == x);
        }
    }
    declared.lemma_cardinality_of_set();
    vstd::set_lib::lemma_len_subset(p.to_set(), all);
    if p.no_duplicates() {
        p.unique_seq_to_set();
        assert(false);
    }
    let (i, j) = choose|i: int, j: int| 0 <= i < p.len() && 0 <= j < p.len() && i != j && p[i] == p[j];
    if i < j {
        assert(is_type_path(m, p) && p[0] == id && 0 <= i < j < p.len() && p[i] == p[j]);
    } else {
        assert(is_type_path(m, p) && p[0] == id && 0 <= j < i < p.len() && p[j] == p[i]);
    }
}

/// A type that resolves within `depth` steps has each inner type resolve
/// within one step less.
proof fn lemma_inner_resolves(m: Seq<Instruction>, x: u32, c: u32, depth: nat)
    requires
        type_error(m, x, depth).is_none(),
        inner_type_ids(m, x).contains(c),
    ensures
        depth >= 1,
        type_error(m, c, (depth - 1) as nat).is_none(),
{
    let inner = inner_type_ids(m, x);
    let j = choose|j: int| 0 <= j < inner.len() && inner[j] == c;
    match first_match(m, Key::TypeDef(x))->0 {
        Instruction::TypeStruct { member_types, .. } => {
            lemma_ids_error_none(m, member_types@, (depth - 1) as nat);
            assert(member_types@[j] == c);
        },
        _ => {
            assert(inner[0] == c);
        },
    }
}

/// Along a path from a type that resolves within `depth` steps, the `k`-th id
/// resolves within `depth - k` steps.
proof fn lemma_path_resolves(m: Seq<Instruction>, p: Seq<u32>, depth: nat)
    requires
        is_type_path(m, p),
        type_error(m, p[0], depth).is_none(),
    ensures
        p.len() <= depth + 1,
        forall|k: int| 0 <= k < p.len() ==> (#[trigger] type_error(m, p[k], (depth - k) as nat)).is_none(),
    decreases p.len(),
{
    if p.len() > 1 {
        assert(inner_type_ids(m, p[0]).contains(p[1]));
        lemma_inner_resolves(m, p[0], p[1], depth);
        let q = p.drop_first();
        assert forall|k: int| 0 <= k < q.len() - 1 implies inner_type_ids(
            m,
            #[trigger] q[k],
        ).contains(q[k + 1]) by {
            assert(q[k] == p[k + 1]);
            assert(q[k + 1] == p[k + 2]);
        }
        lemma_path_resolves(m, q, (depth - 1) as nat);
        assert forall|k: int| 0 <= k < p.len() implies (#[trigger] type_error(
            m,
            p[k],
            (depth - k) as nat,
        )).is_none() by {
            if k > 0 {
                assert(p[k] == q[k - 1]);
                let d1 = (depth - 1) as nat;
                assert(type_error(m, q[k - 1], (d1 - (k - 1)) as nat).is_none());
                assert((d1 - (k - 1)) as nat == (depth - k) as nat);
            }
        }
    }
}

/// A type from which a path leads back to it does not resolve.
proof fn lemma_no_loop(m: Seq<Instruction>, q: Seq<u32>, depth: nat)
    requires
        is_type_path(m, q),
        q.len() >= 2,
        q[0] == q.last(),
    ensures
        type_error(m, q[0], depth).is_some(),
    decreases depth,
{
    if type_error(m, q[0], depth).is_none() {
        lemma_path_resolves(m, q, depth);
        let last = q.len() - 1;
        assert(type_error(m, q[last], (depth - last) as nat).is_none());
        lemma_no_loop(m, q, (depth - last) as nat);
    }
}

/// A path from a type that resolves never repeats an id.
proof fn lemma_path_no_repeat(m: Seq<Instruction>, p: Seq<u32>, depth: nat)
    requires
        is_type_path(m, p),
        type_error(m, p[0], depth).is_none(),
    ensures
        p.no_duplicates(),
{
    lemma_path_resolves(m, p, depth);
    assert forall|i: int, j: int| 0 <= i < p.len() && 0 <= j < p.len() && i != j implies p[i]
        != p[j] by {
        if p[i] == p[j] {
            let (a, b) = if i < j {
                (i, j)
            } else {
                (j, i)
            };
            let q = p.subrange(a, b + 1);
            assert forall|k: int| 0 <= k < q.len() - 1 implies inner_type_ids(
                m,
                #[trigger] q[k],
            ).contains(q[k + 1]) by {
                assert(q[k] == p[a + k]);
                assert(q[k + 1] == p[a + k + 1]);
            }
            assert(type_error(m, p[a], (depth - a) as nat).is_none());
            lemma_no_loop(m, q, (depth - a) as nat);
        }
    }
}

/// A type that resolves, and whose paths are all at most `k` long, resolves
/// within `k` steps.
proof fn lemma_resolves_shallow(m: Seq<Instruction>, x: u32, depth: nat, k: nat)
    requires
        type_error(m, x, depth).is_none(),
        forall|p: Seq<u32>| #[trigger] is_type_path(m, p) && p[0] == x ==> p.len() <= k,
    ensures
        type_error(m, x, k).is_none(),
    decreases k,
{
    assert(is_type_path(m, seq![x]));
    let inner = inner_type_ids(m, x);
    assert forall|j: int| 0 <= j < inner.len() implies (#[trigger] type_error(
        m,
        inner[j],
        (k - 1) as nat,
    )).is_none() by {
        let c = inner[j];
        assert(inner.contains(c));
        lemma_inner_resolves(m, x, c, depth);
        assert(is_type_path(m, seq![x, c]));
        assert forall|q: Seq<u32>| #[trigger] is_type_path(m, q) && q[0] == c implies q.len() <= k
            - 1 by {
            let p = seq![x] + q;
            assert forall|i: int| 0 <= i < p.len() - 1 implies inner_type_ids(
                m,
                #[trigger] p[i],
            ).contains(p[i + 1]) by {
                if i > 0 {
                    assert(p[i] == q[i - 1]);
                    assert(p[i + 1] == q[i]);
                }
            }
            assert(is_type_path(m, p) && p[0] == x);
        }
        lemma_resolves_shallow(m, c, (depth - 1) as nat, (k - 1) as nat);
    }
    match first_match(m, Key::TypeDef(x))->0 {
        Instruction::TypeStruct { member_types, .. } => {
            lemma_ids_error_none(m, member_types@, (k - 1) as nat);
        },
        _ => {
            if inner.len() > 0 {
                assert(type_error(m, inner[0], (k - 1) as nat).is_none());
            }
        },
    }
}

/// An inner type that resolves within the table's length resolves within
/// one step less: the outer type takes up one of the declared ids.
proof fn lemma_inner_resolves_shallower(m: Seq<Instruction>, v: u32, c: u32)
    requires
        first_match(m, Key::TypeDef(v)).is_some(),
        inner_type_ids(m, v).contains(c),
        type_error(m, c, m.len()).is_none(),
    ensures
        m.len() >= 1,
        type_error(m, c, (m.len() - 1) as nat).is_none(),
{
    let iv = lemma_first_match_is_in(m, Key::TypeDef(v));
    let declared = m.map_values(|ins: Instruction| declared_type_id(ins));
    let all = declared.to_set();
    assert(declared[iv] == v);
    declared.lemma_cardinality_of_set();
    assert forall|p: Seq<u32>| #[trigger] is_type_path(m, p) && p[0] == c implies p.len() <= m.len()
        - 1 by {
        lemma_path_resolves(m, p, m.len());
        lemma_path_no_repeat(m, p, m.len());
        assert forall|x: u32| p.to_set().insert(v).contains(x) implies all.contains(x) by {
            if x != v {
                let k = choose|k: int| 0 <= k < p.len() && p[k] == x;
                assert(type_error(m, p[k], (m.len() - k) as nat).is_none());
                let i = lemma_first_match_is_in(m, Key::TypeDef(p[k]));
                assert(declared[i] == x);
            }
        }
        if p.to_set().contains(v) {
            let j = choose|j: int| 0 <= j < p.len() && p[j] == v;
            let r = p.subrange(0, j + 1).push(c);
            assert forall|k: int| 0 <= k < r.len() - 1 implies inner_type_ids(
                m,
                #[trigger] r[k],
            ).contains(r[k + 1]) by {
                if k < j {
                    assert(r[k] == p[k]);
                    assert(r[k + 1] == p[k + 1]);
                } else {
                    assert(r[k] == v);
                    assert(r[k + 1] == c);
                }
            }
            lemma_no_loop(m, r, m.len());
        }
        vstd::set_lib::lemma_len_subset(p.to_set().insert(v), all);
        p.unique_seq_to_set();
    }
    lemma_resolves_shallow(m, c, m.len(), (m.len() - 1) as nat);
}

} // verus!
