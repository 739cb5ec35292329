//! A candidate server installation rooted at a base directory.
//!
//! An installation is described by the two files it must contain: its
//! bundled ruby interpreter and its server script.  The paths are
//! computed here; whether they exist on disk is a filesystem question the
//! caller answers and hands in.

use vstd::prelude::*;

verus! {

/// A possible server installation under a base directory.
pub struct Installation {
    pub base: String,
}

impl Installation {
    /// Describe the installation rooted at `base`.
    pub fn new(base: &str) -> (r: Installation)
        ensures
            r.base@ == base@,
    {
        Installation { base: base.to_owned() }
    }

    /// The bundled ruby interpreter of this installation.
    pub fn ruby_path(&self) -> (r: String)
        ensures
            r@ == self.base@ + "/app/server/native/osx/ruby/bin/ruby"@,
    {
        let mut s = self.base.clone();
        s.append("/app/server/native/osx/ruby/bin/ruby");
        s
    }

    /// The server script of this installation.
    pub fn server_path(&self) -> (r: String)
        ensures
            r@ == self.base@ + "/app/server/bin/sonic-pi-server.rb"@,
    {
        let mut s = self.base.clone();
        s.append("/app/server/bin/sonic-pi-server.rb");
        s
    }

    /// Whether the installation is complete.  The caller probes the
    /// filesystem for [`Self::ruby_path`] and [`Self::server_path`] and
    /// reports each answer; the installation exists when both files do.
    pub fn exists_on_disk(&self, ruby_present: bool, server_present: bool) -> (r: bool)
        ensures
            r == (ruby_present && server_present),
    {
        ruby_present && server_present
    }
}

} // verus!
