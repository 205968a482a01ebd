use vstd::prelude::*;
use vstd::string::StringExecFns;

verus! {

/// Who a request is made for.
#[derive(Clone, Debug, PartialEq, Eq)]
pub struct UserInfo {
    pub identity: String,
    pub name: String,
}

impl UserInfo {
    /// The user as shown in logs: `identity (name)`.
    pub fn describe(&self) -> (r: String)
        ensures
            r@ == self.identity@ + seq![' ', '('] + self.name@ + seq![')'],
    {
        proof {
            reveal_strlit(" (");
            reveal_strlit(")");
        }
        let mut r = self.identity.clone();
        r.append(" (");
        r.append(self.name.as_str());
        r.append(")");
        r
    }
}

} // verus!
