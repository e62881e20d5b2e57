//! The admin registry: the one identity that may attest payments.

use vstd::prelude::*;
use crate::auth::Authorization;
use crate::errors::CallError;
use crate::errors::ContractError;
use crate::identity::Identity;

verus! {

/// The current admin: unset until `initialize`, set ever after.
#[derive(Debug)]
pub struct AdminRegistry {
    admin: Option<Identity>,
}

impl View for AdminRegistry {
    type V = Option<Seq<char>>;

    closed spec fn view(&self) -> Option<Seq<char>> {
        match self.admin {
            Some(admin) => Some(admin@),
            None => None,
        }
    }
}

impl AdminRegistry {
    /// The registry with no admin set.
    pub fn new() -> (registry: AdminRegistry)
        ensures
            registry@ is None,
    {
        AdminRegistry { admin: None }
    }

    /// The registry whose admin is `admin`, or that has none.
    pub fn with_admin(admin: Option<Identity>) -> (registry: AdminRegistry)
        ensures
            (match admin {
                Some(a) => registry@ == Some(a@),
                None => registry@ is None,
            }),
    {
        AdminRegistry { admin }
    }

    /// Whether an admin is set.
    pub fn is_initialized(&self) -> (set: bool)
        ensures
            set == self@ is Some,
    {
        self.admin.is_some()
    }

    /// Sets the first admin. Succeeds once in the registry's lifetime.
    pub fn initialize(&mut self, admin: Identity) -> (res: Result<(), ContractError>)
        ensures
            old(self)@ is Some ==> res == Err::<(), ContractError>(ContractError::AlreadyInitialized)
                && final(self)@ == old(self)@,
            old(self)@ is None ==> res == Ok::<(), ContractError>(()) && final(self)@ == Some(
                admin@,
            ),
    {
        if self.admin.is_some() {
            return Err(ContractError::AlreadyInitialized);
        }
        self.admin = Some(admin);
        Ok(())
    }

    /// The admin, if one is set.
    pub fn current_admin(&self) -> (res: Result<Identity, ContractError>)
        ensures
            (match res {
                Ok(admin) => self@ == Some(admin@),
                Err(e) => self@ is None && e == ContractError::NotInitialized,
            }),
    {
        match &self.admin {
            Some(admin) => Ok(admin.clone()),
            None => Err(ContractError::NotInitialized),
        }
    }

    /// Replaces the admin by `new_admin`, who must stand behind the call:
    /// the incoming admin consents to its installation. The outgoing admin
    /// is not asked.
    pub fn rotate(&mut self, auth: &Authorization, new_admin: Identity) -> (res: Result<
        (),
        CallError,
    >)
        ensures
            old(self)@ is None ==> res == Err::<(), CallError>(
                CallError::Contract(ContractError::NotInitialized),
            ) && final(self)@ == old(self)@,
            old(self)@ is Some && !auth@.contains(new_admin@) ==> res == Err::<(), CallError>(
                CallError::Unauthorized,
            ) && final(self)@ == old(self)@,
            old(self)@ is Some && auth@.contains(new_admin@) ==> res == Ok::<(), CallError>(())
                && final(self)@ == Some(new_admin@),
    {
        if self.admin.is_none() {
            return Err(CallError::Contract(ContractError::NotInitialized));
        }
        if !auth.includes(&new_admin) {
            return Err(CallError::Unauthorized);
        }
        self.admin = Some(new_admin);
        Ok(())
    }
}

} // verus!
