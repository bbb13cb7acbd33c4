//! The resource guard: the record of every process bound to the cleanup
//! group that the operating system destroys together with the application.

use vstd::prelude::*;

verus! {

/// The processes registered with the operating system's job or group object.
///
/// A guard only ever grows: a process once assigned stays tracked until the
/// guard itself is dropped.
#[derive(Debug)]
pub struct JobObject {
    members: Vec<u32>,
}

impl JobObject {
    /// The identifiers of all processes assigned so far.
    pub closed spec fn view(&self) -> Set<u32> {
        self.members@.to_set()
    }

    /// A guard that tracks nothing yet, where the platform could create one.
    ///
    /// `created` says whether the operating system handed out the underlying
    /// object; without it there is no guard, which callers tolerate.
    pub fn new(created: bool) -> (guard: Option<Self>)
        ensures
            guard is Some <==> created,
            created ==> guard.unwrap()@ == Set::<u32>::empty(),
    {
        if created {
            let job = JobObject { members: Vec::new() };
            assert(job.members@.to_set() =~= Set::<u32>::empty());
            Some(job)
        } else {
            None
        }
    }

    /// Whether `pid` has been assigned to this guard.
    pub fn tracks(&self, pid: u32) -> (found: bool)
        ensures
            found == self@.contains(pid),
    {
        let mut i: usize = 0;
        while i < self.members.len()
            invariant
                i <= self.members.len(),
                forall|j: int| 0 <= j < i ==> self.members@[j] != pid,
            decreases self.members.len() - i,
        {
            if self.members[i] == pid {
                assert(self.members@.contains(pid));
                return true;
            }
            i += 1;
        }
        assert(!self.members@.contains(pid));
        false
    }

    /// Binds `pid` to the guard. Assigning a tracked process again changes
    /// nothing.
    pub fn assign(&mut self, pid: u32)
        ensures
            final(self)@ == old(self)@.insert(pid),
    {
        if !self.tracks(pid) {
            let ghost before = self.members@;
            self.members.push(pid);
            assert(self.members@.to_set() =~= before.to_set().insert(pid)) by {
                assert forall|x: u32| self.members@.contains(x) <==> (before.contains(x) || x == pid) by {
                    if before.contains(x) {
                        let k = choose|k: int| 0 <= k < before.len() && before[k] == x;
                        assert(self.members@[k] == x);
                    }
                    if x == pid {
                        assert(self.members@[before.len() as int] == pid);
                    }
                }
            }
        } else {
            assert(self@.insert(pid) =~= self@);
        }
    }
}

} // verus!
