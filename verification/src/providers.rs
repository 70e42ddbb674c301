//! Cleaning up dangling providers.
//!
//! A provider the UI marked for deletion may still be configured, and may
//! have a pro instance of the same name that must go first. Reading the
//! marker store and running the CLI are outside work; the plan — which
//! delete commands to run, in which order — is decided here.

use vstd::prelude::*;
use crate::commands::{DeleteProInstanceCommand, DeleteProviderCommand};
use crate::watcher::{has_id, ProInstance};

verus! {

/// The cleanup step for one dangling provider: the pro instance of the
/// same name is deleted first, where one exists, then the provider
/// itself.
pub struct CleanupStep {
    pub delete_instance: Option<DeleteProInstanceCommand>,
    pub delete_provider: DeleteProviderCommand,
}

/// Plans the cleanup of dangling providers: one step per dangling entry,
/// in order; a step deletes the matching pro instance exactly when the
/// current listing still has one under that name.
pub fn dangling_cleanup_plan(dangling: &Vec<String>, instances: &Vec<ProInstance>) -> (r: Vec<
    CleanupStep,
>)
    ensures
        r@.len() == dangling@.len(),
        forall|k: int|
            0 <= k < r@.len() ==> {
                &&& r@[k].delete_provider.provider_id@ == dangling@[k]@
                &&& match r@[k].delete_instance {
                    Some(cmd) => has_id(instances@, dangling@[k]@) && cmd.pro_id@
                        == dangling@[k]@,
                    None => !has_id(instances@, dangling@[k]@),
                }
            },
{
    let mut out: Vec<CleanupStep> = Vec::new();
    let mut k: usize = 0;
    while k < dangling.len()
        invariant
            0 <= k <= dangling@.len(),
            out@.len() == k,
            forall|j: int|
                0 <= j < k ==> {
                    &&& out@[j].delete_provider.provider_id@ == dangling@[j]@
                    &&& match out@[j].delete_instance {
                        Some(cmd) => has_id(instances@, dangling@[j]@) && cmd.pro_id@
                            == dangling@[j]@,
                        None => !has_id(instances@, dangling@[j]@),
                    }
                },
        decreases dangling@.len() - k,
    {
        let provider = &dangling[k];
        let delete_instance = if crate::watcher::contains_id(instances, provider) {
            Some(DeleteProInstanceCommand::new(provider.clone()))
        } else {
            None
        };
        let step = CleanupStep {
            delete_instance,
            delete_provider: DeleteProviderCommand::new(provider.clone()),
        };
        out.push(step);
        k = k + 1;
    }
    out
}

} // verus!
