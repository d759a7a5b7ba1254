use vstd::prelude::*;

use reqwest_cookie_store::CookieStore;

verus! {

#[verifier::external_type_specification]
#[verifier::external_body]
pub struct ExCookieStore(CookieStore);

/// The cookies a jar holds, keyed by (domain, path, name), with their values.
pub uninterp spec fn jar_cookies(jar: CookieStore) -> Map<(Seq<char>, Seq<char>, Seq<char>), Seq<char>>;

/// Relies on `CookieStore::clear`, which empties the store.
#[verifier::external_body]
fn clear_jar(jar: &mut CookieStore)
    ensures
        jar_cookies(*final(jar)).dom() == Set::<(Seq<char>, Seq<char>, Seq<char>)>::empty(),
{
    jar.clear()
}

/// Empties the cookie jar, ending whatever session it held.
pub fn clear_session(jar: &mut CookieStore)
    ensures
        jar_cookies(*final(jar)).dom() == Set::<(Seq<char>, Seq<char>, Seq<char>)>::empty(),
{
    clear_jar(jar);
}

/// A username and password, replaced only as a pair.
pub struct Credentials {
    username: String,
    password: String,
}

impl Credentials {
    /// The pair as mathematical strings.
    pub closed spec fn view(&self) -> (Seq<char>, Seq<char>) {
        (self.username@, self.password@)
    }

    pub fn new(username: String, password: String) -> (r: Credentials)
        ensures
            r@ == (username@, password@),
    {
        Credentials { username, password }
    }

    /// A copy of the current pair: both fields come from the same update.
    pub fn get_credentials(&self) -> (r: (String, String))
        ensures
            (r.0@, r.1@) == self@,
    {
        (self.username.clone(), self.password.clone())
    }

    pub fn username(&self) -> (r: &str)
        ensures
            r@ == self@.0,
    {
        self.username.as_str()
    }

    pub fn password(&self) -> (r: &str)
        ensures
            r@ == self@.1,
    {
        self.password.as_str()
    }

    /// Replaces both fields and empties the cookie jar, so that no session
    /// made under the old pair outlives it.
    pub fn set_credentials(&mut self, username: String, password: String, jar: &mut CookieStore)
        ensures
            final(self)@ == (username@, password@),
            jar_cookies(*final(jar)).dom() == Set::<(Seq<char>, Seq<char>, Seq<char>)>::empty(),
    {
        self.username = username;
        self.password = password;
        clear_session(jar);
    }
}

} // verus!
