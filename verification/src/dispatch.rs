//! Dispatching a key of the keyboard layer to the command bound to it.

use vstd::prelude::*;
use vstd::string::*;
use crate::config::DispatchAction;
use crate::failure::CommandError;
use crate::ordered::{app_rows, folder_rows, search_rows};
use crate::settings::{dispatched, Config};

verus! {

/// The command that the dispatch key `key` is bound to.
pub fn run(key: &str, config: &Config) -> (action: Result<DispatchAction, CommandError>)
    ensures
        match action {
            Ok(found) => dispatched(
                search_rows(config.search),
                folder_rows(config.folders),
                app_rows(config.apps),
                key@,
            ) == Some(found@),
            Err(e) => dispatched(
                search_rows(config.search),
                folder_rows(config.folders),
                app_rows(config.apps),
                key@,
            ) is None && e is Unbound && e->Unbound_key@ == key@,
        },
{
    match config.dispatch_lookup(key) {
        Some(action) => Ok(action),
        None => Err(CommandError::Unbound { key: String::from_str(key) }),
    }
}

} // verus!
