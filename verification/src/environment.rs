//! The variable store: named values that the replacement shell inherits.

use vstd::prelude::*;

verus! {

/// The variable that names the selected profile.
pub const AWS_DEFAULT_PROFILE: &'static str = "AWS_PROFILE";

/// The variable that names the selected region.
pub const AWS_DEFAULT_REGION: &'static str = "AWS_DEFAULT_REGION";

/// One assignment of a value to a name.
pub struct EnvironmentVariable {
    pub name: String,
    pub value: String,
}

/// The assignments made so far, oldest first. Where a name was assigned more
/// than once, the latest assignment is the one that counts.
pub struct Environment {
    pub assignments: Vec<EnvironmentVariable>,
}

/// The variables that a run of assignments leaves set.
pub open spec fn bindings(log: Seq<EnvironmentVariable>) -> Map<Seq<char>, Seq<char>>
    decreases log.len(),
{
    if log.len() == 0 {
        Map::empty()
    } else {
        bindings(log.drop_last()).insert(log.last().name@, log.last().value@)
    }
}

/// What reading `key` gives: its value, or the empty string where it is unset.
pub open spec fn value_or_empty(vars: Map<Seq<char>, Seq<char>>, key: Seq<char>) -> Seq<char> {
    if vars.contains_key(key) {
        vars[key]
    } else {
        Seq::empty()
    }
}

impl View for Environment {
    type V = Map<Seq<char>, Seq<char>>;

    open spec fn view(&self) -> Map<Seq<char>, Seq<char>> {
        bindings(self.assignments@)
    }
}

impl Environment {
    /// A store in which nothing is set.
    pub fn new() -> (env: Environment)
        ensures
            env@ == Map::<Seq<char>, Seq<char>>::empty(),
    {
        Environment { assignments: Vec::new() }
    }

    /// Sets `key` to `value`; every other variable keeps what it had.
    pub fn set(&mut self, key: &str, value: &str)
        ensures
            final(self)@ == old(self)@.insert(key@, value@),
    {
        let entry = EnvironmentVariable { name: key.to_owned(), value: value.to_owned() };
        self.assignments.push(entry);
        assert(self.assignments@.drop_last() =~= old(self).assignments@);
    }

    /// The value of `key`, or `None` where it is unset.
    pub fn get(&self, key: &str) -> (found: Option<String>)
        ensures
            match found {
                Some(value) => self@.contains_key(key@) && value@ == self@[key@],
                None => !self@.contains_key(key@),
            },
    {
        let wanted = key.to_owned();
        let mut i: usize = self.assignments.len();
        assert(self.assignments@.take(i as int) =~= self.assignments@);
        while i > 0
            invariant
                i <= self.assignments.len(),
                wanted@ == key@,
                self@.contains_key(key@) == bindings(self.assignments@.take(i as int)).contains_key(
                    key@,
                ),
                self@.contains_key(key@) ==> self@[key@] == bindings(
                    self.assignments@.take(i as int),
                )[key@],
            decreases i,
        {
            assert(self.assignments@.take(i as int).drop_last() =~= self.assignments@.take(
                i as int - 1,
            ));
            i = i - 1;
            if self.assignments[i].name == wanted {
                return Some(self.assignments[i].value.clone());
            }
        }
        None
    }

    /// The value of `key`, or the empty string where it is unset.
    pub fn default_env(&self, key: &str) -> (value: String)
        ensures
            value@ == value_or_empty(self@, key@),
    {
        match self.get(key) {
            Some(value) => value,
            None => String::new(),
        }
    }

    /// Makes `profile` the selected profile.
    pub fn select_profile(&mut self, profile: &str)
        ensures
            final(self)@ == old(self)@.insert(AWS_DEFAULT_PROFILE@, profile@),
    {
        self.set(AWS_DEFAULT_PROFILE, profile);
    }

    /// Makes `region` the selected region.
    pub fn select_region(&mut self, region: &str)
        ensures
            final(self)@ == old(self)@.insert(AWS_DEFAULT_REGION@, region@),
    {
        self.set(AWS_DEFAULT_REGION, region);
    }
}

/// A value that was set is the value that is read back, whatever the store
/// held before, and the variables of other names read as they did.
pub proof fn set_then_read(
    vars: Map<Seq<char>, Seq<char>>,
    key: Seq<char>,
    value: Seq<char>,
    other: Seq<char>,
)
    ensures
        value_or_empty(vars.insert(key, value), key) == value,
        other != key ==> value_or_empty(vars.insert(key, value), other) == value_or_empty(
            vars,
            other,
        ),
{
}

/// Reading a variable that is not set gives the empty string.
pub proof fn unset_reads_empty(vars: Map<Seq<char>, Seq<char>>, key: Seq<char>)
    requires
        !vars.contains_key(key),
    ensures
        value_or_empty(vars, key) == Seq::<char>::empty(),
{
}

} // verus!
