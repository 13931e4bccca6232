use vstd::prelude::*;

use crate::error::Error;
use crate::keystore::{key_exists, key_generated, opt_str_view, AccessKeyView, KeyStore};

verus! {

/// The key-management actions of the administrative command line;
/// generating a new key pair is the only one.
pub enum KeyCommands {
    New { description: Option<String> },
}

/// The key-management subcommand: key creation happens here, out of band,
/// never over the HTTP surface.
pub struct Key {
    pub commands: KeyCommands,
}

impl Key {
    /// Runs the command against the store. Generating a new key returns
    /// the one-time access/secret pair to print for the operator — the
    /// only time the secret is ever exposed.
    pub fn run(&self, store: &mut KeyStore) -> (r: Result<(String, String), Error>)
        requires
            old(store).wf(),
            old(store)@.len() < u32::MAX,
        ensures
            final(store).wf(),
            self.commands matches KeyCommands::New { description } ==> {
                ||| (r matches Ok(ks) && key_generated(ks.0@) && key_generated(ks.1@)
                    && !key_exists(old(store)@, ks.0@) && final(store)@ == old(store)@.push(
                    AccessKeyView {
                        id: old(store)@.len() as u32,
                        access: ks.0@,
                        secret: ks.1@,
                        description: opt_str_view(description),
                        expired_at: None,
                    },
                ))
                ||| (r == Err::<(String, String), Error>(Error::Internal) && final(store)@ == old(
                    store,
                )@)
            },
    {
        match &self.commands {
            KeyCommands::New { description } => {
                let d = match description {
                    Some(s) => Some(s.clone()),
                    None => None,
                };
                store.create(d)
            },
        }
    }
}

} // verus!
