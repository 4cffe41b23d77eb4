use vstd::prelude::*;

verus! {

/// The credentials a blocking Wi-Fi connection is started with; the
/// connection itself runs outside the library.
pub struct WifiSync {
    pub(crate) ssid: String,
    pub(crate) password: String,
}

impl WifiSync {
    /// The network name.
    pub closed spec fn spec_ssid(&self) -> Seq<char> {
        self.ssid@
    }

    /// The network password.
    pub closed spec fn spec_password(&self) -> Seq<char> {
        self.password@
    }

    /// Remembers the credentials to connect with.
    pub fn new(ssid: &str, password: &str) -> (w: Self)
        ensures
            w.spec_ssid() == ssid@,
            w.spec_password() == password@,
    {
        Self { ssid: ssid.to_owned(), password: password.to_owned() }
    }
}

} // verus!
