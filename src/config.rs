//! Account credentials, and the cookie they make.
use vstd::prelude::*;

verus! {

/// The three cookie values of a signed-in account.
#[derive(Debug, Clone)]
pub struct ExConfig {
    pub ipb_pass_hash: String,
    pub ipb_member_id: String,
    pub igneous: String,
}

/// The cookie header value for these credentials.
pub open spec fn cookie_spec(pass_hash: Seq<char>, member_id: Seq<char>, igneous: Seq<char>) -> Seq<char> {
    "ipb_pass_hash="@ + pass_hash + ";ipb_member_id="@ + member_id + ";igneous="@ + igneous
        + ";nw=1"@
}

impl ExConfig {
    /// The cookie header value sent with every request.
    pub fn cookie_value(&self) -> (r: String)
        ensures
            r@ == cookie_spec(self.ipb_pass_hash@, self.ipb_member_id@, self.igneous@),
    {
        let mut cookie = String::from_str("ipb_pass_hash=");
        cookie.append(self.ipb_pass_hash.as_str());
        cookie.append(";ipb_member_id=");
        cookie.append(self.ipb_member_id.as_str());
        cookie.append(";igneous=");
        cookie.append(self.igneous.as_str());
        cookie.append(";nw=1");
        cookie
    }
}

} // verus!
