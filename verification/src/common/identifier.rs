use vstd::prelude::*;
use vstd::string::StringExecFns;
use crate::type_system::llc_type::{Type, TypeModel};

verus! {

/// What is known of an identifier's type.
#[derive(Debug, PartialEq, Eq)]
pub enum TypeState {
    Unchecked,
    Valid(Type),
    Invalid,
}

/// What a `TypeState` is.
pub enum TypeStateModel {
    Unchecked,
    Valid(TypeModel),
    Invalid,
}

impl View for TypeState {
    type V = TypeStateModel;

    open spec fn view(&self) -> TypeStateModel {
        match self {
            TypeState::Unchecked => TypeStateModel::Unchecked,
            TypeState::Valid(t) => TypeStateModel::Valid(t@),
            TypeState::Invalid => TypeStateModel::Invalid,
        }
    }
}

impl Clone for TypeState {
    fn clone(&self) -> (copy: TypeState)
        ensures
            copy@ == self@,
    {
        match self {
            TypeState::Unchecked => TypeState::Unchecked,
            TypeState::Valid(t) => TypeState::Valid(t.clone()),
            TypeState::Invalid => TypeState::Invalid,
        }
    }
}

/// One entry of the identifier table: a name, what is known of its type,
/// and the index of the node that declares it.
#[derive(Debug, PartialEq, Eq)]
pub struct Identifier {
    pub name: String,
    pub type_state: TypeState,
    pub declaration_idx: usize,
}

/// What an `Identifier` is.
pub struct IdentifierModel {
    pub name: Seq<char>,
    pub type_state: TypeStateModel,
    pub declaration_idx: usize,
}

impl View for Identifier {
    type V = IdentifierModel;

    open spec fn view(&self) -> IdentifierModel {
        IdentifierModel {
            name: self.name@,
            type_state: self.type_state@,
            declaration_idx: self.declaration_idx,
        }
    }
}

impl IdentifierModel {
    /// The entry that a name gets when it is first met: no type known yet,
    /// no declaration seen yet.
    pub open spec fn fresh(name: Seq<char>) -> IdentifierModel {
        IdentifierModel { name, type_state: TypeStateModel::Unchecked, declaration_idx: 0 }
    }
}

impl Identifier {
    /// A new entry for `name`, with its type unchecked.
    pub fn new(name: &str) -> (identifier: Self)
        ensures
            identifier@ == IdentifierModel::fresh(name@),
    {
        Identifier {
            name: String::from_str(name),
            type_state: TypeState::Unchecked,
            declaration_idx: 0,
        }
    }
}

/// The entries of a table, each by its model.
pub open spec fn identifier_models(table: Seq<Identifier>) -> Seq<IdentifierModel> {
    table.map_values(|entry: Identifier| entry@)
}

/// No name occurs twice in the table.
pub open spec fn names_distinct(table: Seq<IdentifierModel>) -> bool {
    forall|i: int, j: int|
        0 <= i < table.len() && 0 <= j < table.len() && #[trigger] table[i].name
            == #[trigger] table[j].name ==> i == j
}

/// The index of the first entry named `name` among the first `upto`
/// entries, if there is one.
pub open spec fn find_name(table: Seq<IdentifierModel>, name: Seq<char>, upto: nat) -> Option<nat>
    decreases upto,
{
    if upto == 0 || upto > table.len() {
        None
    } else {
        match find_name(table, name, (upto - 1) as nat) {
            Some(i) => Some(i),
            None => if table[upto - 1].name == name {
                Some((upto - 1) as nat)
            } else {
                None
            },
        }
    }
}

/// The index under which `name` is known after interning: that of its
/// entry if the table has one, else that of the entry appended for it.
pub open spec fn interned_index(table: Seq<IdentifierModel>, name: Seq<char>) -> nat {
    match find_name(table, name, table.len()) {
        Some(i) => i,
        None => table.len(),
    }
}

/// The table after interning `name`: unchanged if the name was known,
/// else with one fresh entry at its end.
pub open spec fn interned_table(table: Seq<IdentifierModel>, name: Seq<char>) -> Seq<
    IdentifierModel,
> {
    match find_name(table, name, table.len()) {
        Some(_) => table,
        None => table.push(IdentifierModel::fresh(name)),
    }
}

/// What `find_name` finds is an entry of that name, and the first one;
/// when it finds nothing, no entry has that name.
pub proof fn lemma_find_name(table: Seq<IdentifierModel>, name: Seq<char>, upto: nat)
    requires
        upto <= table.len(),
    ensures
        match find_name(table, name, upto) {
            Some(i) => i < upto && table[i as int].name == name && forall|k: int|
                0 <= k < i ==> table[k].name != name,
            None => forall|k: int| 0 <= k < upto ==> table[k].name != name,
        },
    decreases upto,
{
    if upto > 0 {
        lemma_find_name(table, name, (upto - 1) as nat);
    }
}

/// Interning keeps the names distinct, leaves the earlier entries where
/// they were, and gives an index at which the name stands.
pub proof fn lemma_intern_keeps_distinct(table: Seq<IdentifierModel>, name: Seq<char>)
    requires
        names_distinct(table),
    ensures
        names_distinct(interned_table(table, name)),
        interned_index(table, name) < interned_table(table, name).len(),
        interned_table(table, name)[interned_index(table, name) as int].name == name,
        table.len() <= interned_table(table, name).len() <= table.len() + 1,
        forall|k: int| 0 <= k < table.len() ==> interned_table(table, name)[k] == table[k],
{
    lemma_find_name(table, name, table.len());
}

/// Interning is idempotent: a name that was interned once is found again
/// under the same index, and the table does not grow a second time.
pub proof fn lemma_intern_idempotent(table: Seq<IdentifierModel>, name: Seq<char>)
    ensures
        interned_index(interned_table(table, name), name) == interned_index(table, name),
        interned_table(interned_table(table, name), name) == interned_table(table, name),
{
    lemma_find_name(table, name, table.len());
    let after = interned_table(table, name);
    lemma_find_name(after, name, after.len());
}

/// Looks `name` up among the entries and appends a fresh entry for it if
/// there is none. Returns the index under which the name is now known.
pub fn intern(identifiers: &mut Vec<Identifier>, name: &str) -> (index: usize)
    ensures
        index == interned_index(identifier_models(old(identifiers)@), name@),
        identifier_models(final(identifiers)@) == interned_table(
            identifier_models(old(identifiers)@),
            name@,
        ),
{
    let ghost table = identifier_models(identifiers@);
    let wanted = String::from_str(name);
    let mut i: usize = 0;
    while i < identifiers.len()
        invariant
            i <= identifiers.len(),
            *identifiers == *old(identifiers),
            table == identifier_models(identifiers@),
            wanted@ == name@,
            find_name(table, name@, i as nat) is None,
        decreases identifiers.len() - i,
    {
        let found = identifiers[i].name == wanted;
        assert(table[i as int].name == identifiers@[i as int].name@);
        if found {
            proof {
                lemma_find_name(table, name@, i as nat);
                lemma_find_name(table, name@, table.len());
            }
            return i;
        }
        i += 1;
    }
    proof {
        lemma_find_name(table, name@, table.len());
    }
    identifiers.push(Identifier::new(name));
    assert(identifier_models(identifiers@) =~= table.push(IdentifierModel::fresh(name@)));
    i
}

} // verus!
