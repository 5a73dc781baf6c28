//! What a plugin may reach outside its sandbox.
use crate::interface::copy_strings;
use vstd::prelude::*;

verus! {

/// The set of permissions granted to a plugin.
pub struct Permissions {
    /// The environment variables that the plugin may read, by their exact names.
    pub env: Vec<String>,
    /// The domains that the plugin may send requests to, by their exact names.
    pub http: Vec<String>,
    /// The prefixes of the remote state keys that the plugin may use.
    pub state: Vec<String>,
}

/// The grants of a plugin as texts.
pub ghost struct PermissionsView {
    pub env: Seq<Seq<char>>,
    pub http: Seq<Seq<char>>,
    pub state: Seq<Seq<char>>,
}

impl View for Permissions {
    type V = PermissionsView;

    open spec fn view(&self) -> PermissionsView {
        PermissionsView {
            env: crate::interface::texts(self.env@),
            http: crate::interface::texts(self.http@),
            state: crate::interface::texts(self.state@),
        }
    }
}

impl PermissionsView {
    /// An environment variable may be read where its name was granted.
    pub open spec fn allows_env(self, key: Seq<char>) -> bool {
        self.env.contains(key)
    }

    /// A domain may be sent to where its name was granted.
    pub open spec fn allows_domain(self, domain: Seq<char>) -> bool {
        self.http.contains(domain)
    }

    /// A remote state key may be used where it begins with a prefix that was granted.
    pub open spec fn allows_state(self, key: Seq<char>) -> bool {
        exists|i: int|
            0 <= i < self.state.len() && (#[trigger] self.state[i]).is_prefix_of(key)
    }
}

/// Calls `str::starts_with` with a string slice as the pattern: whether the characters of
/// `prefix` are the first characters of `text`.
#[verifier::external_body]
fn starts_with(text: &str, prefix: &str) -> (r: bool)
    ensures
        r == prefix@.is_prefix_of(text@),
{
    text.starts_with(prefix)
}

fn contains_text(list: &Vec<String>, text: &str) -> (found: bool)
    ensures
        found == crate::interface::texts(list@).contains(text@),
{
    let wanted: String = text.to_owned();
    let ghost all = crate::interface::texts(list@);
    for i in 0..list.len()
        invariant
            all == crate::interface::texts(list@),
            wanted@ == text@,
            forall|j: int| 0 <= j < i ==> #[trigger] all[j] != text@,
    {
        assert(all[i as int] == list@[i as int]@);
        if list[i] == wanted {
            return true;
        }
    }
    false
}

impl Permissions {
    /// Whether the environment variable named `key` may be read. Case-sensitive.
    pub fn allows_env(&self, key: &str) -> (allowed: bool)
        ensures
            allowed == self@.allows_env(key@),
    {
        contains_text(&self.env, key)
    }

    /// Whether a request may be sent to `domain`.
    pub fn allows_domain(&self, domain: &str) -> (allowed: bool)
        ensures
            allowed == self@.allows_domain(domain@),
    {
        contains_text(&self.http, domain)
    }

    /// Whether the remote state key `key` may be used.
    pub fn allows_state(&self, key: &str) -> (allowed: bool)
        ensures
            allowed == self@.allows_state(key@),
    {
        let ghost all = self@.state;
        for i in 0..self.state.len()
            invariant
                all == self@.state,
                forall|j: int| 0 <= j < i ==> !(#[trigger] all[j]).is_prefix_of(key@),
        {
            assert(all[i as int] == self.state@[i as int]@);
            if starts_with(key, self.state[i].as_str()) {
                return true;
            }
        }
        false
    }
}

impl Clone for Permissions {
    fn clone(&self) -> (copy: Self)
        ensures
            copy@ == self@,
    {
        Permissions {
            env: copy_strings(&self.env),
            http: copy_strings(&self.http),
            state: copy_strings(&self.state),
        }
    }
}

} // verus!
