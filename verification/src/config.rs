//! Targets and credentials of a session manager.

use crate::model::names;
use vstd::prelude::*;

verus! {

/// Hosts, user and key pair; the two keys are given by their paths.
#[derive(Debug)]
pub struct SshConfig {
    pub hosts: Vec<String>,
    pub username: String,
    pub public_key: String,
    pub private_key: String,
}

/// A configuration as plain text.
pub struct ConfigView {
    pub hosts: Seq<Seq<char>>,
    pub username: Seq<char>,
    pub public_key: Seq<char>,
    pub private_key: Seq<char>,
}

impl View for SshConfig {
    type V = ConfigView;

    open spec fn view(&self) -> ConfigView {
        ConfigView {
            hosts: names(self.hosts@),
            username: self.username@,
            public_key: self.public_key@,
            private_key: self.private_key@,
        }
    }
}

} // verus!
