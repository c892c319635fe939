//! The agent registry: an allow-list of principals that only its
//! administrator may change.

use crate::principal::same_address;
use soroban_sdk::Address;
use vstd::prelude::*;

verus! {

/// Why the registry rejects a call.
#[derive(Clone, Copy, Debug, PartialEq, Eq, PartialOrd, Ord, Structural)]
pub enum Error {
    /// The registry already has an administrator.
    AlreadyInitialized,
    /// The registry has no administrator yet.
    NotInitialized,
    /// The caller is not the administrator, or the agent is not on the list.
    Unauthorized,
}

impl Error {
    /// The number under which the error is reported.
    pub open spec fn number(self) -> u32 {
        match self {
            Error::AlreadyInitialized => 1,
            Error::NotInitialized => 2,
            Error::Unauthorized => 3,
        }
    }

    /// The number under which the error is reported.
    pub fn code(&self) -> (code: u32)
        ensures
            code == self.number(),
    {
        match self {
            Error::AlreadyInitialized => 1,
            Error::NotInitialized => 2,
            Error::Unauthorized => 3,
        }
    }
}

/// Taking one element out of a sequence leaves every other value where it
/// was: in the sequence or out of it.
proof fn removal_keeps_the_others<T>(s: Seq<T>, i: int, other: T)
    requires
        0 <= i < s.len(),
        s[i] != other,
    ensures
        s.remove(i).contains(other) == s.contains(other),
{
    if s.contains(other) {
        let j = choose|j: int| 0 <= j < s.len() && s[j] == other;
        if j < i {
            assert(s.remove(i)[j] == other);
        } else {
            assert(s.remove(i)[j - 1] == other);
        }
    }
    if s.remove(i).contains(other) {
        let j = choose|j: int| 0 <= j < s.remove(i).len() && s.remove(i)[j] == other;
        if j < i {
            assert(s[j] == other);
        } else {
            assert(s[j + 1] == other);
        }
    }
}

/// An allow-list of agents with the administrator who may change it.
pub struct AgentRegistry {
    admin: Option<Address>,
    agents: Vec<Address>,
}

impl AgentRegistry {
    /// The administrator, once the registry is initialized.
    pub closed spec fn admin(&self) -> Option<Address> {
        self.admin
    }

    /// The agents on the allow-list.
    pub closed spec fn agents(&self) -> Set<Address> {
        self.agents@.to_set()
    }

    /// Why a change requested by `caller` is rejected, if it is: the
    /// registry has no administrator, or the caller is not the administrator.
    pub open spec fn refusal(&self, caller: Address) -> Option<Error> {
        match self.admin() {
            None => Some(Error::NotInitialized),
            Some(admin) => if admin == caller {
                None
            } else {
                Some(Error::Unauthorized)
            },
        }
    }

    /// A registry without administrator and without agents.
    pub fn new() -> (registry: Self)
        ensures
            registry.admin() is None,
            registry.agents() == Set::<Address>::empty(),
    {
        AgentRegistry { admin: None, agents: Vec::new() }
    }

    /// The registry with the given administrator and the given agents on the
    /// allow-list.
    pub fn restore(admin: Option<Address>, agents: Vec<Address>) -> (registry: Self)
        ensures
            registry.admin() == admin,
            registry.agents() == agents@.to_set(),
    {
        AgentRegistry { admin, agents }
    }

    /// Makes `admin` the administrator. Rejected with `AlreadyInitialized`
    /// where the registry has one.
    pub fn init(&mut self, admin: Address) -> (result: Result<(), Error>)
        ensures
            match result {
                Ok(_) => {
                    &&& old(self).admin() is None
                    &&& final(self).admin() == Some(admin)
                    &&& final(self).agents() == old(self).agents()
                },
                Err(error) => {
                    &&& error == Error::AlreadyInitialized
                    &&& old(self).admin() is Some
                    &&& *final(self) == *old(self)
                },
            },
    {
        if self.admin.is_some() {
            return Err(Error::AlreadyInitialized);
        }
        self.admin = Some(admin);
        Ok(())
    }

    /// Checks that `caller` is the administrator, as every change requires.
    fn check_admin(&self, caller: &Address) -> (result: Result<(), Error>)
        ensures
            match result {
                Ok(_) => self.refusal(*caller) is None,
                Err(error) => self.refusal(*caller) == Some(error),
            },
    {
        match &self.admin {
            None => Err(Error::NotInitialized),
            Some(admin) => if same_address(admin, caller) {
                Ok(())
            } else {
                Err(Error::Unauthorized)
            },
        }
    }

    /// Puts `agent` on the allow-list, on behalf of `caller`.
    pub fn register(&mut self, caller: &Address, agent: Address) -> (result: Result<(), Error>)
        ensures
            match result {
                Ok(_) => {
                    &&& old(self).refusal(*caller) is None
                    &&& final(self).admin() == old(self).admin()
                    &&& final(self).agents() == old(self).agents().insert(agent)
                },
                Err(error) => {
                    &&& old(self).refusal(*caller) == Some(error)
                    &&& *final(self) == *old(self)
                },
            },
    {
        match self.check_admin(caller) {
            Ok(_) => {},
            Err(error) => {
                return Err(error);
            },
        }
        if !self.is_authorized(&agent) {
            self.agents.push(agent);
            proof {
                old(self).agents@.lemma_push_to_set_commute(agent);
            }
        }
        Ok(())
    }

    /// Takes `agent` off the allow-list, on behalf of `caller`.
    pub fn revoke(&mut self, caller: &Address, agent: Address) -> (result: Result<(), Error>)
        ensures
            match result {
                Ok(_) => {
                    &&& old(self).refusal(*caller) is None
                    &&& final(self).admin() == old(self).admin()
                    &&& final(self).agents() == old(self).agents().remove(agent)
                },
                Err(error) => {
                    &&& old(self).refusal(*caller) == Some(error)
                    &&& *final(self) == *old(self)
                },
            },
    {
        match self.check_admin(caller) {
            Ok(_) => {},
            Err(error) => {
                return Err(error);
            },
        }
        let mut i: usize = 0;
        while i < self.agents.len()
            invariant
                i <= self.agents@.len(),
                self.admin == old(self).admin,
                forall|j: int| 0 <= j < i ==> self.agents@[j] != agent,
                forall|other: Address|
                    other != agent ==> self.agents@.contains(other) == old(self).agents@.contains(
                        other,
                    ),
            decreases self.agents@.len() - i,
        {
            if same_address(&self.agents[i], &agent) {
                let ghost before = self.agents@;
                self.agents.remove(i);
                proof {
                    assert forall|other: Address| other != agent implies self.agents@.contains(
                        other,
                    ) == before.contains(other) by {
                        removal_keeps_the_others(before, i as int, other);
                    }
                }
            } else {
                i += 1;
            }
        }
        Ok(())
    }

    /// Whether `agent` is on the allow-list.
    pub fn is_authorized(&self, agent: &Address) -> (authorized: bool)
        ensures
            authorized == self.agents().contains(*agent),
    {
        let mut i: usize = 0;
        while i < self.agents.len()
            invariant
                i <= self.agents@.len(),
                forall|j: int| 0 <= j < i ==> self.agents@[j] != *agent,
            decreases self.agents@.len() - i,
        {
            if same_address(&self.agents[i], agent) {
                return true;
            }
            i += 1;
        }
        false
    }

    /// Passes where `agent` is on the allow-list, and is rejected with
    /// `Unauthorized` where it is not.
    pub fn require_authorized(&self, agent: &Address) -> (result: Result<(), Error>)
        ensures
            match result {
                Ok(_) => self.agents().contains(*agent),
                Err(error) => error == Error::Unauthorized && !self.agents().contains(*agent),
            },
    {
        if self.is_authorized(agent) {
            Ok(())
        } else {
            Err(Error::Unauthorized)
        }
    }
}

} // verus!
