//! The transfer: stage a local file at the device's staging directory,
//! copy it to each destination best-effort, then remove the staged
//! copy.
//!
//! Running the remote commands is input/output, so the transfer is a
//! state machine like the lookup's. A failed staging step ends the
//! whole transfer with `StageTransferFailed`; a failed copy or removal
//! changes nothing in the machine — the caller may log it — and the
//! removal command is issued whatever the copies did.

use vstd::prelude::*;

use crate::bytes::base_name;
use crate::bytes::base_name_spec;
use crate::bytes::views_of;
use crate::command::cp_cmd;
use crate::command::cp_cmd_spec;
use crate::command::push_cmd;
use crate::command::push_cmd_spec;
use crate::command::rm_cmd;
use crate::command::rm_cmd_spec;
use crate::error::Error;

verus! {

/// What the caller is asked to do next.
pub enum TransferAction {
    /// Run the remote command held here and hand back whether it
    /// succeeded through `on_result`.
    Run(Vec<u8>),
    /// The transfer is over.
    Done(Result<(), Error>),
}

/// Where the transfer stands.
pub enum TransferPhase {
    /// Waiting for the staging push's result.
    Staging,
    /// Waiting for the result of the copy to destination `idx`.
    Copying,
    /// Waiting for the staged file's removal.
    Cleanup,
    /// A `Done` action has been handed out.
    Finished,
}

/// The transfer's state between two actions.
pub struct Transfer {
    pub base: Vec<u8>,
    pub dests: Vec<Vec<u8>>,
    pub idx: usize,
    pub phase: TransferPhase,
}

impl Transfer {
    pub open spec fn wf(self) -> bool {
        self.phase is Copying ==> self.idx < self.dests@.len()
    }

    /// The action that either copies to destination `i` or, past the
    /// last destination, removes the staged file.
    pub open spec fn next_action_at(self, act: TransferAction, i: int) -> bool {
        if i < self.dests@.len() {
            act matches TransferAction::Run(c) && c@ == cp_cmd_spec(
                self.base@,
                views_of(self.dests@)[i],
            )
        } else {
            act matches TransferAction::Run(c) && c@ == rm_cmd_spec(self.base@)
        }
    }

    fn step_at(&mut self, i: usize) -> (act: TransferAction)
        requires
            i <= old(self).dests@.len(),
        ensures
            final(self).wf(),
            final(self).base@ == old(self).base@,
            final(self).dests@ == old(self).dests@,
            old(self).next_action_at(act, i as int),
            i < old(self).dests@.len() ==> final(self).phase is Copying && final(self).idx == i,
            i >= old(self).dests@.len() ==> final(self).phase is Cleanup,
    {
        if i < self.dests.len() {
            self.idx = i;
            self.phase = TransferPhase::Copying;
            proof {
                assert(views_of(self.dests@)[i as int] == self.dests@[i as int]@);
            }
            TransferAction::Run(cp_cmd(&self.base, &self.dests[i]))
        } else {
            self.phase = TransferPhase::Cleanup;
            TransferAction::Run(rm_cmd(&self.base))
        }
    }

    /// Takes whether the command last handed out succeeded and returns
    /// the next action.
    ///
    /// A failed staging ends the transfer with `StageTransferFailed`.
    /// After a successful staging the copies run in order; each copy's
    /// outcome, good or bad, leads to the next copy or, after the last,
    /// to the removal of the staged file. The removal's outcome, good
    /// or bad, ends the transfer with success.
    pub fn on_result(&mut self, ok: bool) -> (act: TransferAction)
        requires
            old(self).wf(),
            !(old(self).phase is Finished),
        ensures
            final(self).wf(),
            final(self).base@ == old(self).base@,
            final(self).dests@ == old(self).dests@,
            old(self).phase is Staging && !ok ==> final(self).phase is Finished && act
                == TransferAction::Done(Err(Error::StageTransferFailed)),
            old(self).phase is Staging && ok ==> old(self).next_action_at(act, 0)
                && (final(self).phase is Copying <==> 0 < old(self).dests@.len())
                && (final(self).phase is Copying ==> final(self).idx == 0)
                && (final(self).phase is Copying || final(self).phase is Cleanup),
            old(self).phase is Copying ==> old(self).next_action_at(act, old(self).idx + 1)
                && (final(self).phase is Copying <==> old(self).idx + 1 < old(self).dests@.len())
                && (final(self).phase is Copying ==> final(self).idx == old(self).idx + 1)
                && (final(self).phase is Copying || final(self).phase is Cleanup),
            old(self).phase is Cleanup ==> final(self).phase is Finished && act
                == TransferAction::Done(Ok(())),
    {
        match self.phase {
            TransferPhase::Staging => {
                if ok {
                    self.step_at(0)
                } else {
                    self.phase = TransferPhase::Finished;
                    TransferAction::Done(Err(Error::StageTransferFailed))
                }
            },
            TransferPhase::Copying => {
                let i = self.idx;
                let n = self.dests.len();
                proof {
                    assert(i < n);
                }
                self.step_at(i + 1)
            },
            TransferPhase::Cleanup => {
                self.phase = TransferPhase::Finished;
                TransferAction::Done(Ok(()))
            },
            TransferPhase::Finished => {
                proof {
                    assert(false);
                }
                TransferAction::Done(Ok(()))
            },
        }
    }
}

/// Starts the transfer of the local file at `file` to each directory in
/// `dest_paths`. The staging name on the device is the file's base
/// name; a path with an empty base name is rejected before any remote
/// command. The first action stages the file.
pub fn push(file: &Vec<u8>, dest_paths: Vec<Vec<u8>>) -> (r: Result<(Transfer, TransferAction), Error>)
    ensures
        base_name_spec(file@).len() == 0 ==> (r matches Err(e) && e == Error::ConfigurationError),
        base_name_spec(file@).len() > 0 ==> (r matches Ok(ta) && ta.0.wf() && ta.0.phase is Staging
            && ta.0.base@ == base_name_spec(file@) && ta.0.dests@ == dest_paths@ && (ta.1 matches
        TransferAction::Run(c) && c@ == push_cmd_spec(file@, base_name_spec(file@)))),
{
    let base = base_name(file);
    if base.len() == 0 {
        return Err(Error::ConfigurationError);
    }
    let cmd = push_cmd(file, &base);
    let st = Transfer { base, dests: dest_paths, idx: 0, phase: TransferPhase::Staging };
    Ok((st, TransferAction::Run(cmd)))
}

} // verus!
