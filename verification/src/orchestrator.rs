//! Driving one module through its states: select it, request its option
//! tables, parse them with a bounded number of retries, deselect it. The
//! driver is a pure state machine; the caller performs the commands it
//! hands out and reports each parse outcome back.
use vstd::prelude::*;

use crate::extract::Extraction;
use crate::protocol::{back_command, select_command, select_command_spec, show_options_command};
use crate::records::ModuleRecord;

verus! {

/// How many times a module's option tables are re-requested after parse
/// failures before the module is abandoned.
pub const DEFAULT_RETRY_BOUND: usize = 5;

/// Where one module stands in its select/query/parse/deselect cycle.
#[derive(Debug, Clone, Copy, PartialEq, Eq, Structural)]
pub enum DriveState {
    /// Discovered; nothing issued yet.
    Pending,
    /// Selected on the console.
    Selected,
    /// Its option tables have been requested.
    OptionsRequested,
    /// Its option tables parsed; the record is enriched.
    Parsed,
    /// Abandoned: the retry bound is exhausted. Terminal.
    Failed,
    /// Deselected after a successful parse. Terminal.
    Deselected,
}

/// The pure per-module state machine.
#[derive(Debug, Clone)]
pub struct ModuleDriver {
    pub name: String,
    pub state: DriveState,
    pub attempts: usize,
    pub bound: usize,
}

/// The state after `k` further failed parse rounds (request the tables,
/// fail to parse them) from the `Selected` state with `attempts`
/// failures already recorded.
pub open spec fn after_failures(attempts: int, bound: int, k: nat) -> DriveState
    decreases k
{
    if k == 0 {
        DriveState::Selected
    } else if attempts + 1 >= bound {
        DriveState::Failed
    } else {
        after_failures(attempts + 1, bound, (k - 1) as nat)
    }
}

/// Persistent parse failure exhausts the bound: as soon as the failed
/// rounds reach the remaining budget, the module stands in the terminal
/// `Failed` state.
pub proof fn lemma_retry_exhaustion(attempts: int, bound: int, k: nat)
    requires
        0 <= attempts < bound,
        k >= bound - attempts,
    ensures
        after_failures(attempts, bound, k) == DriveState::Failed,
    decreases k,
{
    if attempts + 1 >= bound {
    } else {
        lemma_retry_exhaustion(attempts + 1, bound, (k - 1) as nat);
    }
}

impl ModuleDriver {
    /// The driver's counters stand where the machine can still move.
    pub open spec fn wf(self) -> bool {
        &&& self.bound >= 1
        &&& self.attempts <= self.bound
        &&& (self.state == DriveState::Pending || self.state == DriveState::Selected
            || self.state == DriveState::OptionsRequested) ==> self.attempts < self.bound
    }

    /// A fresh driver for one discovered module.
    pub fn new(name: String, bound: usize) -> (d: Self)
        requires
            bound >= 1,
        ensures
            d.name == name,
            d.state == DriveState::Pending,
            d.attempts == 0,
            d.bound == bound,
            d.wf(),
    {
        ModuleDriver { name, state: DriveState::Pending, attempts: 0, bound }
    }

    /// Select the module: hands back the command to issue.
    pub fn begin_select(&mut self) -> (cmd: String)
        requires
            old(self).state == DriveState::Pending,
        ensures
            final(self).state == DriveState::Selected,
            final(self).name == old(self).name,
            final(self).attempts == old(self).attempts,
            final(self).bound == old(self).bound,
            old(self).wf() ==> final(self).wf(),
            cmd@ == select_command_spec(old(self).name@),
    {
        self.state = DriveState::Selected;
        select_command(self.name.as_str())
    }

    /// Request the option tables: hands back the command to issue.
    pub fn begin_options(&mut self) -> (cmd: &'static str)
        requires
            old(self).state == DriveState::Selected,
        ensures
            final(self).state == DriveState::OptionsRequested,
            final(self).name == old(self).name,
            final(self).attempts == old(self).attempts,
            final(self).bound == old(self).bound,
            old(self).wf() ==> final(self).wf(),
            cmd@ == "show options"@,
    {
        self.state = DriveState::OptionsRequested;
        show_options_command()
    }

    /// Record one parse outcome. Success parses the module; a failure
    /// within the budget falls back to `Selected` for the next request;
    /// the failure that exhausts the budget abandons the module.
    pub fn on_parse_result(&mut self, ok: bool)
        requires
            old(self).state == DriveState::OptionsRequested,
            old(self).wf(),
        ensures
            final(self).name == old(self).name,
            final(self).bound == old(self).bound,
            final(self).wf(),
            ok ==> final(self).state == DriveState::Parsed && final(self).attempts == old(
                self,
            ).attempts,
            !ok ==> final(self).attempts == old(self).attempts + 1 && final(self).state
                == after_failures(old(self).attempts as int, old(self).bound as int, 1),
    {
        proof {
            reveal_with_fuel(after_failures, 2);
        }
        if ok {
            self.state = DriveState::Parsed;
        } else {
            self.attempts = self.attempts + 1;
            if self.attempts >= self.bound {
                self.state = DriveState::Failed;
            } else {
                self.state = DriveState::Selected;
            }
        }
    }

    /// Deselect a parsed module: hands back the command to issue.
    pub fn finish(&mut self) -> (cmd: &'static str)
        requires
            old(self).state == DriveState::Parsed,
        ensures
            final(self).state == DriveState::Deselected,
            final(self).name == old(self).name,
            final(self).attempts == old(self).attempts,
            final(self).bound == old(self).bound,
            old(self).wf() ==> final(self).wf(),
            cmd@ == "back"@,
    {
        self.state = DriveState::Deselected;
        back_command()
    }

    /// No further command will move this module.
    pub fn is_terminal(&self) -> (b: bool)
        ensures
            b == (self.state == DriveState::Failed || self.state == DriveState::Deselected),
    {
        match self.state {
            DriveState::Failed => true,
            DriveState::Deselected => true,
            _ => false,
        }
    }
}

/// Enrich a record with everything one parsed blob said: the payload
/// name, both option tables, and the targets (absent when the blob
/// listed none). The name is untouched.
pub fn apply_extraction(rec: &mut ModuleRecord, x: Extraction)
    ensures
        final(rec).name == old(rec).name,
        final(rec).payload == x.payload,
        final(rec).options == x.options,
        final(rec).payload_options == x.payload_options,
        final(rec).target == if x.targets@.len() > 0 {
            Some(x.targets)
        } else {
            None::<Vec<String>>
        },
{
    rec.payload = x.payload;
    rec.options = x.options;
    rec.payload_options = x.payload_options;
    if x.targets.len() > 0 {
        rec.target = Some(x.targets);
    } else {
        rec.target = None;
    }
}

} // verus!
