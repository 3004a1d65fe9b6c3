//! The environment that placeholders are resolved against: variable names
//! with their values, handed in by the caller.

use vstd::prelude::*;
use vstd::string::*;

verus! {

/// The value under the first entry of `vars` that is named `name`.
spec fn first_value(vars: Seq<(String, String)>, name: Seq<char>) -> Option<Seq<char>>
    decreases vars.len(),
{
    if vars.len() == 0 {
        None
    } else if vars[0].0@ == name {
        Some(vars[0].1@)
    } else {
        first_value(vars.drop_first(), name)
    }
}

/// A set of environment variables. Its view maps each name that is set to
/// its value.
pub struct Environment {
    vars: Vec<(String, String)>,
}

impl View for Environment {
    type V = Map<Seq<char>, Seq<char>>;

    closed spec fn view(&self) -> Map<Seq<char>, Seq<char>> {
        Map::new(
            |name: Seq<char>| first_value(self.vars@, name) is Some,
            |name: Seq<char>| first_value(self.vars@, name)->0,
        )
    }
}

impl Environment {
    /// An environment in which no variable is set.
    pub fn new() -> (env: Environment)
        ensures
            env@ == Map::<Seq<char>, Seq<char>>::empty(),
    {
        let env = Environment { vars: Vec::new() };
        assert(env@ =~= Map::<Seq<char>, Seq<char>>::empty());
        env
    }

    /// Sets the variable `name` to `value`, in place of any value it had.
    pub fn set(&mut self, name: &str, value: &str)
        ensures
            final(self)@ == old(self)@.insert(name@, value@),
    {
        self.vars.insert(0, (name.to_owned(), value.to_owned()));
        assert(self.vars@.drop_first() =~= old(self).vars@);
        assert(self@ =~= old(self)@.insert(name@, value@));
    }

    /// The value of the variable `name`, if it is set.
    pub fn get(&self, name: &str) -> (value: Option<&str>)
        ensures
            match value {
                Some(v) => self@.contains_key(name@) && self@[name@] == v@,
                None => !self@.contains_key(name@),
            },
    {
        let wanted = name.to_owned();
        let n: usize = self.vars.len();
        let mut i: usize = 0;
        assert(self.vars@.skip(0) =~= self.vars@);
        while i < n
            invariant
                n == self.vars@.len(),
                i <= n,
                wanted@ == name@,
                first_value(self.vars@, name@) == first_value(self.vars@.skip(i as int), name@),
            decreases n - i,
        {
            assert(self.vars@.skip(i as int).drop_first() =~= self.vars@.skip(i + 1));
            if self.vars[i].0 == wanted {
                return Some(self.vars[i].1.as_str());
            }
            i = i + 1;
        }
        None
    }
}

} // verus!
