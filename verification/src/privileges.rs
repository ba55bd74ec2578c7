//! Privilege gating: an ordered level per role, looked up through a
//! store the caller supplies, and a pure comparison that never blocks
//! on anything while a lock is held.

use vstd::prelude::*;
use vstd::string::*;

verus! {

/// Where privilege levels come from. Implementations may consult a
/// database; the comparison itself never does.
pub trait PrivilegeStore {
    /// The privilege level recorded for a role, or an error when the
    /// role is unknown.
    fn get_privilege_level(&self, role: &str) -> Result<i32, String>;
}

/// The pure access decision: both levels already looked up, no I/O.
/// Access is granted exactly when the requester's level reaches the
/// accessed role's level.
pub fn privilege_decision(
    dir_name: &str,
    user_name: &str,
    required: Result<i32, String>,
    actual: Result<i32, String>,
) -> (r: Result<(), String>)
    ensures
        match required {
            Err(_) => r matches Err(m) && m@ == "The role "@ + dir_name@ + " does not exist"@,
            Ok(req) => match actual {
                Err(_) => r matches Err(m) && m@ == "The role "@ + user_name@
                    + " does not exist"@,
                Ok(act) => {
                    if act < req {
                        r matches Err(m) && m@ == "Your token role is '"@ + user_name@
                            + "', but you tried to access '"@ + dir_name@ + "'"@
                    } else {
                        r is Ok
                    }
                },
            },
        },
{
    let req = match required {
        Ok(level) => level,
        Err(_) => {
            let mut m = "The role ".to_owned();
            m.append(dir_name);
            m.append(" does not exist");
            return Err(m);
        },
    };
    let act = match actual {
        Ok(level) => level,
        Err(_) => {
            let mut m = "The role ".to_owned();
            m.append(user_name);
            m.append(" does not exist");
            return Err(m);
        },
    };
    if act < req {
        let mut m = "Your token role is '".to_owned();
        m.append(user_name);
        m.append("', but you tried to access '");
        m.append(dir_name);
        m.append("'");
        proof {
            assert(m@ =~= "Your token role is '"@ + user_name@ + "', but you tried to access '"@
                + dir_name@ + "'"@);
        }
        return Err(m);
    }
    Ok(())
}

/// Looks both roles up in the store and applies the pure decision.
pub struct PrivilegeService<T: PrivilegeStore> {
    store: T,
}

impl<T: PrivilegeStore> PrivilegeService<T> {
    pub fn new(store: T) -> (r: PrivilegeService<T>) {
        PrivilegeService { store }
    }

    /// Whether `user_name` may access `dir_name`'s namespace. Which
    /// branch comes back depends on what the store returns; the
    /// decision applied to the two lookups is `privilege_decision`,
    /// exactly, so whatever they returned, a refusal carries one of
    /// its three message forms over these two names.
    pub fn check_privilege_status(&self, dir_name: &str, user_name: &str) -> (r: Result<
        (),
        String,
    >)
        ensures
            match r {
                Ok(_) => true,
                Err(m) => {
                    ||| m@ == "The role "@ + dir_name@ + " does not exist"@
                    ||| m@ == "The role "@ + user_name@ + " does not exist"@
                    ||| m@ == "Your token role is '"@ + user_name@
                        + "', but you tried to access '"@ + dir_name@ + "'"@
                },
            },
    {
        let required = self.store.get_privilege_level(dir_name);
        let actual = self.store.get_privilege_level(user_name);
        privilege_decision(dir_name, user_name, required, actual)
    }
}

} // verus!
