//! Which processes to terminate when a port is taken.

use vstd::prelude::*;

verus! {

/// Whether the process at `index` of a listing runs under the name `target`.
/// A process whose name could not be read runs under none.
pub open spec fn runs_as(names: Seq<Option<String>>, index: int, target: Seq<char>) -> bool {
    &&& 0 <= index < names.len()
    &&& names[index] matches Some(name)
    &&& name@ == target
}

/// What became of the request to terminate one process.
#[derive(Clone, Copy, Debug, PartialEq, Eq, Structural)]
pub enum KillOutcome {
    /// The request was delivered.
    Delivered,
    /// The process was gone before the request reached it.
    Vanished,
    /// The request was refused or could not be made.
    Failed,
}

impl KillOutcome {
    /// Whether the supervisor has to give up after this outcome. A process
    /// that is gone already is as good as terminated.
    pub open spec fn fatal(self) -> bool {
        self == KillOutcome::Failed
    }

    /// Tells whether the supervisor has to give up after this outcome.
    pub fn is_fatal(&self) -> (fatal: bool)
        ensures
            fatal == self.fatal(),
    {
        match self {
            KillOutcome::Failed => true,
            _ => false,
        }
    }
}

/// Picks the processes to terminate from a listing of process names. An
/// entry is `None` where the name of that process could not be read, and the
/// whole listing is `None` where the processes could not be listed. The
/// result holds the positions of the processes that run under exactly
/// `target_name`, each once and in rising order.
pub fn process_kill(listing: &Option<Vec<Option<String>>>, target_name: &String) -> (found: Vec<
    usize,
>)
    ensures
        listing is None ==> found@.len() == 0,
        listing matches Some(names) ==> {
            &&& forall|k: int|
                0 <= k < found@.len() ==> runs_as(names@, #[trigger] found@[k] as int, target_name@)
            &&& forall|i: int| #[trigger]
                runs_as(names@, i, target_name@) ==> found@.contains(i as usize)
            &&& forall|j: int, k: int| 0 <= j < k < found@.len() ==> found@[j] < found@[k]
        },
{
    let mut found: Vec<usize> = Vec::new();
    match listing {
        None => {},
        Some(names) => {
            let mut i: usize = 0;
            while i < names.len()
                invariant
                    i <= names.len(),
                    forall|k: int|
                        0 <= k < found@.len() ==> runs_as(
                            names@,
                            #[trigger] found@[k] as int,
                            target_name@,
                        ) && found@[k] < i,
                    forall|n: int| #[trigger]
                        runs_as(names@, n, target_name@) && n < i ==> found@.contains(n as usize),
                    forall|j: int, k: int| 0 <= j < k < found@.len() ==> found@[j] < found@[k],
                decreases names.len() - i,
            {
                let ghost before = found@;
                let hit = match &names[i] {
                    Some(name) => *name == *target_name,
                    None => false,
                };
                if hit {
                    found.push(i);
                    assert(found@[before.len() as int] == i);
                    assert forall|n: int| #[trigger]
                        runs_as(names@, n, target_name@) && n < i + 1 implies found@.contains(
                        n as usize,
                    ) by {
                        if n < i {
                            let k = choose|k: int| 0 <= k < before.len() && before[k] == n as usize;
                            assert(found@[k] == n as usize);
                        }
                    }
                }
                i += 1;
            }
        },
    }
    found
}

} // verus!
