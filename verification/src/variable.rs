//! Named simulation variables and the registry that hands out their identifiers.

use vstd::prelude::*;
use vstd::string::*;

verus! {

/// The identifier of a named variable of the simulator.
///
/// An identifier is the position of the variable's name in the registry that
/// issued it. Two identifiers of one registry are equal exactly when they stand
/// for the same name.
#[derive(Clone, Copy, PartialEq, Eq, Structural, Debug, Hash)]
pub struct VariableIdentifier {
    pub index: usize,
}

/// The registry of variable names, handed to every constructor that needs an
/// identifier.
pub struct InitContext {
    names: Vec<String>,
}

/// Whether no name stands twice in `names`.
pub open spec fn distinct_names(names: Seq<Seq<char>>) -> bool {
    forall|i: int, j: int| 0 <= i < j < names.len() ==> names[i] != names[j]
}

/// The names after `name` has been registered: unchanged where it was known,
/// else with `name` at the end.
pub open spec fn register(names: Seq<Seq<char>>, name: Seq<char>) -> Seq<Seq<char>> {
    if names.contains(name) {
        names
    } else {
        names.push(name)
    }
}

/// The names after each of `new_names` has been registered, first to last.
pub open spec fn register_all(names: Seq<Seq<char>>, new_names: Seq<Seq<char>>) -> Seq<Seq<char>>
    decreases new_names.len(),
{
    if new_names.len() == 0 {
        names
    } else {
        register(register_all(names, new_names.drop_last()), new_names.last())
    }
}

/// Whether `id` is the identifier that a registry holding `names` gives to `name`.
pub open spec fn names_resolve(names: Seq<Seq<char>>, name: Seq<char>, id: VariableIdentifier) -> bool {
    id.index < names.len() && names[id.index as int] == name
}

impl View for InitContext {
    type V = Seq<Seq<char>>;

    /// The registered names, in the order in which they were registered.
    closed spec fn view(&self) -> Seq<Seq<char>> {
        Seq::new(self.names@.len(), |i: int| self.names@[i]@)
    }
}

impl InitContext {
    /// The invariant of a registry: no name is registered twice.
    pub open spec fn wf(&self) -> bool {
        distinct_names(self@)
    }

    /// A registry that knows no name.
    pub fn new() -> (context: InitContext)
        ensures
            context.wf(),
            context@ == Seq::<Seq<char>>::empty(),
    {
        let context = InitContext { names: Vec::new() };
        assert(context@ =~= Seq::<Seq<char>>::empty());
        context
    }

    /// The number of registered names.
    pub fn len(&self) -> (count: usize)
        ensures
            count == self@.len(),
    {
        self.names.len()
    }

    /// The name that `id` stands for, if this registry has issued `id`.
    pub fn name(&self, id: &VariableIdentifier) -> (name: Option<&str>)
        ensures
            id.index < self@.len() ==> name.is_some() && name.unwrap()@ == self@[id.index as int],
            id.index >= self@.len() ==> name.is_none(),
    {
        if id.index < self.names.len() {
            Some(self.names[id.index].as_str())
        } else {
            None
        }
    }

    /// The identifier of `name`, if the name is registered.
    pub fn find(&self, name: &str) -> (found: Option<VariableIdentifier>)
        ensures
            match found {
                Some(id) => names_resolve(self@, name@, id)
                    && forall|j: int| 0 <= j < id.index ==> self@[j] != name@,
                None => !self@.contains(name@),
            },
    {
        let wanted = String::from_str(name);
        let mut i: usize = 0;
        while i < self.names.len()
            invariant
                i <= self.names@.len(),
                wanted@ == name@,
                forall|j: int| 0 <= j < i ==> self@[j] != name@,
            decreases self.names@.len() - i,
        {
            if self.names[i] == wanted {
                return Some(VariableIdentifier { index: i });
            }
            i += 1;
        }
        None
    }

    /// The identifier of `name`; a name not seen before is registered first.
    pub fn get_identifier(&mut self, name: String) -> (id: VariableIdentifier)
        requires
            old(self).wf(),
        ensures
            final(self).wf(),
            final(self)@ == register(old(self)@, name@),
            names_resolve(final(self)@, name@, id),
    {
        match self.find(name.as_str()) {
            Some(id) => id,
            None => {
                let index = self.names.len();
                self.names.push(name);
                assert(self@ =~= old(self)@.push(name@));
                VariableIdentifier { index }
            },
        }
    }
}

/// Registering a row of one name is registering that name.
pub proof fn lemma_register_all_one(names: Seq<Seq<char>>, name: Seq<char>)
    ensures
        register_all(names, seq![name]) == register(names, name),
{
    reveal_with_fuel(register_all, 2);
    assert(seq![name].drop_last() =~= Seq::<Seq<char>>::empty());
}

/// Registering more names leaves every identifier with its name.
pub proof fn lemma_register_all_keeps(
    names: Seq<Seq<char>>,
    new_names: Seq<Seq<char>>,
    name: Seq<char>,
    id: VariableIdentifier,
)
    requires
        names_resolve(names, name, id),
    ensures
        names_resolve(register_all(names, new_names), name, id),
    decreases new_names.len(),
{
    if new_names.len() > 0 {
        lemma_register_all_keeps(names, new_names.drop_last(), name, id);
    }
}

/// Registering two rows of names one after the other is registering the rows
/// joined.
pub proof fn lemma_register_all_joined(
    names: Seq<Seq<char>>,
    first: Seq<Seq<char>>,
    second: Seq<Seq<char>>,
)
    ensures
        register_all(register_all(names, first), second) == register_all(names, first + second),
    decreases second.len(),
{
    if second.len() == 0 {
        assert(first + second =~= first);
    } else {
        lemma_register_all_joined(names, first, second.drop_last());
        assert((first + second).drop_last() =~= first + second.drop_last());
        assert((first + second).last() == second.last());
    }
}

/// Names that are all new are registered one after the other at the end.
pub proof fn lemma_register_all_fresh(names: Seq<Seq<char>>, new_names: Seq<Seq<char>>)
    requires
        distinct_names(new_names),
        forall|i: int| 0 <= i < new_names.len() ==> !names.contains(#[trigger] new_names[i]),
    ensures
        register_all(names, new_names) == names + new_names,
    decreases new_names.len(),
{
    if new_names.len() == 0 {
        assert(names + new_names =~= names);
    } else {
        let front = new_names.drop_last();
        let last = new_names.last();
        assert forall|i: int| 0 <= i < front.len() implies !names.contains(#[trigger] front[i]) by {
            assert(front[i] == new_names[i]);
        }
        lemma_register_all_fresh(names, front);
        assert(!(names + front).contains(last)) by {
            if (names + front).contains(last) {
                let at = choose|at: int| 0 <= at < (names + front).len() && (names + front)[at] == last;
                if at < names.len() {
                    assert(names[at] == last);
                    assert(names.contains(new_names[new_names.len() - 1]));
                } else {
                    assert(new_names[at - names.len()] == new_names[new_names.len() - 1]);
                }
            }
        }
        assert((names + front).push(last) =~= names + new_names);
    }
}

/// Names that are all known leave the registry as it is.
pub proof fn lemma_register_all_known(names: Seq<Seq<char>>, new_names: Seq<Seq<char>>)
    requires
        forall|i: int| 0 <= i < new_names.len() ==> names.contains(#[trigger] new_names[i]),
    ensures
        register_all(names, new_names) == names,
    decreases new_names.len(),
{
    if new_names.len() > 0 {
        let front = new_names.drop_last();
        assert forall|i: int| 0 <= i < front.len() implies names.contains(#[trigger] front[i]) by {
            assert(front[i] == new_names[i]);
        }
        lemma_register_all_known(names, front);
        assert(names.contains(new_names[new_names.len() - 1]));
    }
}

/// In a registry without repeated names an identifier stands for one name,
/// and a name has one identifier.
pub proof fn lemma_identifier_tells_name(
    names: Seq<Seq<char>>,
    name_a: Seq<char>,
    id_a: VariableIdentifier,
    name_b: Seq<char>,
    id_b: VariableIdentifier,
)
    requires
        distinct_names(names),
        names_resolve(names, name_a, id_a),
        names_resolve(names, name_b, id_b),
    ensures
        id_a == id_b <==> name_a == name_b,
{
}

} // verus!
