//! A snapshot of named configuration variables, such as the variables of a
//! process environment.

use vstd::prelude::*;

verus! {

/// The value that `vars` gives `name`: that of the latest entry with this
/// name, if there is one.
pub open spec fn lookup(vars: Seq<(Seq<char>, Seq<char>)>, name: Seq<char>) -> Option<Seq<char>>
    decreases vars.len(),
{
    if vars.len() == 0 {
        None
    } else if vars.last().0 == name {
        Some(vars.last().1)
    } else {
        lookup(vars.drop_last(), name)
    }
}

/// Named variables with their values. Setting a name again overrides its
/// earlier value.
pub struct Environment {
    vars: Vec<(String, String)>,
}

impl View for Environment {
    type V = Seq<(Seq<char>, Seq<char>)>;

    /// The entries in the order in which they were set, each as name and value.
    closed spec fn view(&self) -> Seq<(Seq<char>, Seq<char>)> {
        Seq::new(self.vars@.len(), |i: int| (self.vars@[i].0@, self.vars@[i].1@))
    }
}

impl Environment {
    /// An environment in which no variable is set.
    pub fn new() -> (env: Environment)
        ensures
            env@ == Seq::<(Seq<char>, Seq<char>)>::empty(),
    {
        let env = Environment { vars: Vec::new() };
        assert(env@ =~= Seq::<(Seq<char>, Seq<char>)>::empty());
        env
    }

    /// Sets the variable `name` to `value`.
    pub fn set(&mut self, name: &str, value: &str)
        ensures
            final(self)@ == old(self)@.push((name@, value@)),
            lookup(final(self)@, name@) == Some(value@),
            forall|other: Seq<char>|
                other != name@ ==> lookup(final(self)@, other) == lookup(old(self)@, other),
    {
        self.vars.push((String::from_str(name), String::from_str(value)));
        assert(self@ =~= old(self)@.push((name@, value@)));
        assert(self@.drop_last() =~= old(self)@);
    }

    /// The value of the variable `name`, if it is set.
    pub fn var(&self, name: &str) -> (value: Option<String>)
        ensures
            match lookup(self@, name@) {
                Some(v) => value matches Some(s) && s@ == v,
                None => value is None,
            },
    {
        let wanted = String::from_str(name);
        let mut i: usize = self.vars.len();
        assert(self@.subrange(0, i as int) =~= self@);
        while i > 0
            invariant
                i <= self.vars@.len(),
                wanted@ == name@,
                lookup(self@, name@) == lookup(self@.subrange(0, i as int), name@),
            decreases i,
        {
            let ghost upto = self@.subrange(0, i as int);
            i = i - 1;
            assert(upto.last() == self@[i as int]);
            assert(upto.drop_last() =~= self@.subrange(0, i as int));
            if self.vars[i].0 == wanted {
                return Some(self.vars[i].1.clone());
            }
        }
        None
    }
}

} // verus!
