//! An immutable snapshot of the process environment.
//!
//! Resolution logic never reads global process state; the embedding program
//! captures the environment once into an [`Env`] value and hands it in, so
//! every lookup is a pure function of that snapshot.

use vstd::prelude::*;

verus! {

/// The view of an environment snapshot: name/value pairs in capture order.
pub type EnvSeq = Seq<(Seq<char>, Seq<char>)>;

/// The value of the first entry named `name`, if any entry is.
///
/// A variable is "set" exactly when such an entry exists; an entry whose
/// value is the empty string is still set.
pub open spec fn lookup_from(env: EnvSeq, i: int, name: Seq<char>) -> Option<Seq<char>>
    decreases env.len() - i,
{
    if i < 0 || i >= env.len() {
        None
    } else if env[i].0 == name {
        Some(env[i].1)
    } else {
        lookup_from(env, i + 1, name)
    }
}

pub open spec fn lookup(env: EnvSeq, name: Seq<char>) -> Option<Seq<char>> {
    lookup_from(env, 0, name)
}

/// An immutable set of named environment variables.
pub struct Env {
    entries: Vec<(String, String)>,
}

impl View for Env {
    type V = EnvSeq;

    closed spec fn view(&self) -> EnvSeq {
        self.entries@.map_values(|p: (String, String)| (p.0@, p.1@))
    }
}

impl Env {
    /// An empty snapshot: no variable is set.
    pub fn new() -> (r: Env)
        ensures
            r@ == Seq::<(Seq<char>, Seq<char>)>::empty(),
    {
        let e = Env { entries: Vec::new() };
        proof {
            assert(e@ =~= Seq::<(Seq<char>, Seq<char>)>::empty());
        }
        e
    }

    /// Records one variable. An earlier entry of the same name shadows it.
    pub fn push(&mut self, name: String, value: String)
        ensures
            final(self)@ == old(self)@.push((name@, value@)),
    {
        self.entries.push((name, value));
        proof {
            assert(self@ =~= old(self)@.push((name@, value@)));
        }
    }

    /// The value of `name` in this snapshot, or `None` when it is not set.
    pub fn get(&self, name: &str) -> (r: Option<String>)
        ensures
            match r {
                Some(v) => lookup(self@, name@) == Some(v@),
                None => lookup(self@, name@) is None,
            },
    {
        let wanted = String::from_str(name);
        let n = self.entries.len();
        let mut i: usize = 0;
        while i < n
            invariant
                n == self.entries.len(),
                0 <= i <= n,
                wanted@ == name@,
                lookup_from(self@, i as int, name@) == lookup(self@, name@),
            decreases n - i,
        {
            proof {
                assert(self@[i as int] == (self.entries@[i as int].0@, self.entries@[
                    i as int
                ].1@));
            }
            if self.entries[i].0 == wanted {
                return Some(self.entries[i].1.clone());
            }
            i += 1;
        }
        None
    }
}

} // verus!
