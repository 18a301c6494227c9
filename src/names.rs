//! Human-readable names of ids and struct members.
use vstd::prelude::*;
use crate::module::{find_first, first_match, Instruction, Key, Module};

verus! {

/// The name given to an id or member that carries none.
pub open spec fn unnamed() -> Seq<char> {
    "__unnamed"@
}

/// The name that a name instruction found by `key` gives, or the placeholder
/// when there is none or it is empty.
pub open spec fn name_by(m: Seq<Instruction>, key: Key) -> Seq<char> {
    match first_match(m, key) {
        Some(Instruction::Name { name, .. }) if name@.len() > 0 => name@,
        Some(Instruction::MemberName { name, .. }) if name@.len() > 0 => name@,
        _ => unnamed(),
    }
}

/// The name of `id`.
pub open spec fn name_of(m: Seq<Instruction>, id: u32) -> Seq<char> {
    name_by(m, Key::Name(id))
}

/// The name of member `member` of the struct `id`.
pub open spec fn member_name_of(m: Seq<Instruction>, id: u32, member: u32) -> Seq<char> {
    name_by(m, Key::MemberName(id, member))
}

fn placeholder() -> (r: String)
    ensures
        r@ == unnamed(),
{
    "__unnamed".to_owned()
}

fn name_at(doc: &Module, found: Option<usize>, key: Key) -> (r: String)
    requires
        match found {
            Some(i) => i < doc@.len() && first_match(doc@, key) == Some(doc@[i as int]),
            None => first_match(doc@, key).is_none(),
        },
    ensures
        r@ == name_by(doc@, key),
{
    match found {
        Some(i) => match &doc.instructions[i] {
            Instruction::Name { name, .. } | Instruction::MemberName { name, .. } => {
                if name.as_str().is_empty() {
                    placeholder()
                } else {
                    name.clone()
                }
            },
            _ => placeholder(),
        },
        None => placeholder(),
    }
}

/// The name that the first name instruction for `searched` gives it.
pub fn name_from_id(doc: &Module, searched: u32) -> (r: String)
    ensures
        r@ == name_of(doc@, searched),
{
    let found = find_first(doc, Key::Name(searched));
    name_at(doc, found, Key::Name(searched))
}

/// The name that the first member name instruction for member
/// `searched_member` of the struct `searched` gives it.
pub fn member_name_from_id(doc: &Module, searched: u32, searched_member: u32) -> (r: String)
    ensures
        r@ == member_name_of(doc@, searched, searched_member),
{
    let key = Key::MemberName(searched, searched_member);
    let found = find_first(doc, key);
    name_at(doc, found, key)
}

} // verus!
