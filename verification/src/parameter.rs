//! The table of named values that a machine reads in one frame.

use vstd::prelude::*;

verus! {

/// A value that a machine reads by name.
#[derive(Copy, Clone, Debug, PartialEq, Eq, Structural)]
pub enum Parameter {
    /// A share of a pose in millionths.
    Weight(u32),
    /// Whether a transition may begin.
    Rule(bool),
    /// Which input of a node is chosen.
    Index(u32),
}

/// One line of the table.
pub struct ParameterEntry {
    pub name: String,
    pub value: Parameter,
}

/// The values of a list of entries by name. Where a name occurs more than
/// once, the entry written last counts.
pub open spec fn values_of(entries: Seq<ParameterEntry>) -> Map<Seq<char>, Parameter>
    decreases entries.len(),
{
    if entries.len() == 0 {
        Map::empty()
    } else {
        values_of(entries.drop_last()).insert(entries.last().name@, entries.last().value)
    }
}

/// Whether `name` is set to a rule that holds.
pub open spec fn rule_holds(values: Map<Seq<char>, Parameter>, name: Seq<char>) -> bool {
    values.contains_key(name) && values[name] == Parameter::Rule(true)
}

/// The weight set under `name`; nothing where the name is not set or is
/// set to another kind of value.
pub open spec fn weight_of(values: Map<Seq<char>, Parameter>, name: Seq<char>) -> u32 {
    if values.contains_key(name) {
        match values[name] {
            Parameter::Weight(w) => w,
            _ => 0,
        }
    } else {
        0
    }
}

/// The index set under `name`, if the name is set to one.
pub open spec fn index_of(values: Map<Seq<char>, Parameter>, name: Seq<char>) -> Option<u32> {
    if values.contains_key(name) {
        match values[name] {
            Parameter::Index(i) => Some(i),
            _ => None,
        }
    } else {
        None
    }
}

/// The table. It is written anew in every frame and keeps nothing from one
/// frame to the next.
pub struct ParameterTable {
    pub entries: Vec<ParameterEntry>,
}

impl View for ParameterTable {
    type V = Map<Seq<char>, Parameter>;

    open spec fn view(&self) -> Map<Seq<char>, Parameter> {
        values_of(self.entries@)
    }
}

impl ParameterTable {
    /// A table in which no name is set.
    pub fn new() -> (table: ParameterTable)
        ensures
            table@ == Map::<Seq<char>, Parameter>::empty(),
    {
        ParameterTable { entries: Vec::new() }
    }

    /// Sets `name` to `value`, whatever it was set to before.
    pub fn set(&mut self, name: &str, value: Parameter)
        ensures
            final(self)@ == old(self)@.insert(name@, value),
    {
        self.entries.push(ParameterEntry { name: String::from_str(name), value });
        assert(self.entries@.drop_last() =~= old(self).entries@);
    }

    /// The value set under `name`, if there is one.
    pub fn get(&self, name: &str) -> (value: Option<Parameter>)
        ensures
            value == (if self@.contains_key(name@) {
                Some(self@[name@])
            } else {
                None
            }),
    {
        let wanted = String::from_str(name);
        let mut i: usize = self.entries.len();
        while i > 0
            invariant
                i <= self.entries@.len(),
                wanted@ == name@,
                forall|k: int| i <= k < self.entries@.len() ==> self.entries@[k].name@ != name@,
            decreases i,
        {
            i -= 1;
            if self.entries[i].name == wanted {
                proof {
                    lemma_values_of_last_match(self.entries@, i as int, name@);
                }
                return Some(self.entries[i].value);
            }
        }
        proof {
            lemma_values_of_no_match(self.entries@, name@);
        }
        None
    }

    /// Tells whether `name` is set to a rule that holds.
    pub fn rule(&self, name: &str) -> (holds: bool)
        ensures
            holds == rule_holds(self@, name@),
    {
        match self.get(name) {
            Some(Parameter::Rule(b)) => b,
            _ => false,
        }
    }

    /// The weight set under `name`, or nothing.
    pub fn weight(&self, name: &str) -> (weight: u32)
        ensures
            weight == weight_of(self@, name@),
    {
        match self.get(name) {
            Some(Parameter::Weight(w)) => w,
            _ => 0,
        }
    }

    /// The index set under `name`, if there is one.
    pub fn index(&self, name: &str) -> (index: Option<u32>)
        ensures
            index == index_of(self@, name@),
    {
        match self.get(name) {
            Some(Parameter::Index(i)) => Some(i),
            _ => None,
        }
    }
}

/// A name that no entry has is not set.
pub proof fn lemma_values_of_no_match(entries: Seq<ParameterEntry>, name: Seq<char>)
    requires
        forall|k: int| 0 <= k < entries.len() ==> entries[k].name@ != name,
    ensures
        !values_of(entries).contains_key(name),
    decreases entries.len(),
{
    if entries.len() > 0 {
        lemma_values_of_no_match(entries.drop_last(), name);
    }
}

/// A name is set to the value of the last entry that has it.
pub proof fn lemma_values_of_last_match(entries: Seq<ParameterEntry>, at: int, name: Seq<char>)
    requires
        0 <= at < entries.len(),
        entries[at].name@ == name,
        forall|k: int| at < k < entries.len() ==> entries[k].name@ != name,
    ensures
        values_of(entries).contains_key(name),
        values_of(entries)[name] == entries[at].value,
    decreases entries.len(),
{
    if at < entries.len() - 1 {
        lemma_values_of_last_match(entries.drop_last(), at, name);
    }
}

} // verus!
