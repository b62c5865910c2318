//! The variables of the environment, as the program found them when it
//! started: a list of names with their values.

use vstd::prelude::*;

use crate::utils::text::same_text;

verus! {

#[derive(Debug)]
pub enum Error {
    /// The environment holds no variable of this name.
    MissingEnv(String),
}

/// The value of the first variable named `name`, if there is one.
pub open spec fn env_value(vars: Seq<(String, String)>, name: Seq<char>) -> Option<Seq<char>>
    decreases vars.len(),
{
    if vars.len() == 0 {
        None
    } else if vars[0].0@ == name {
        Some(vars[0].1@)
    } else {
        env_value(vars.drop_first(), name)
    }
}

/// Looking a name up from position `from` on gives what looking it up in the
/// whole list gives, where no earlier variable has that name.
proof fn lemma_env_value_skip(vars: Seq<(String, String)>, name: Seq<char>, from: int)
    requires
        0 <= from <= vars.len(),
        forall|k: int| 0 <= k < from ==> (#[trigger] vars[k]).0@ != name,
    ensures
        env_value(vars, name) == env_value(vars.skip(from), name),
    decreases from,
{
    if from == 0 {
        assert(vars.skip(0) =~= vars);
    } else {
        lemma_env_value_skip(vars, name, from - 1);
        let rest = vars.skip(from - 1);
        assert(rest[0] == vars[from - 1]);
        assert(rest.drop_first() =~= vars.skip(from));
    }
}

/// The value of the variable named `name`.
pub fn get_env(vars: &Vec<(String, String)>, name: &str) -> (res: Result<String, Error>)
    ensures
        match res {
            Ok(value) => env_value(vars@, name@) == Some(value@),
            Err(Error::MissingEnv(missing)) => env_value(vars@, name@) is None && missing@
                == name@,
        },
{
    let n = vars.len();
    let mut i: usize = 0;
    while i < n
        invariant
            i <= n,
            n == vars@.len(),
            forall|k: int| 0 <= k < i ==> (#[trigger] vars@[k]).0@ != name@,
        decreases n - i,
    {
        if same_text(vars[i].0.as_str(), name) {
            proof {
                lemma_env_value_skip(vars@, name@, i as int);
            }
            return Ok(vars[i].1.clone());
        }
        i += 1;
    }
    proof {
        lemma_env_value_skip(vars@, name@, n as int);
    }
    Err(Error::MissingEnv(name.to_owned()))
}

} // verus!
