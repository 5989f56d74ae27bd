//! The request/response discipline over the console. The console frames
//! nothing, so after the real command a deliberately invalid probe is
//! written; the console answers the probe with a stable error-stream
//! signature, and that signature's arrival marks the previous command's
//! output as complete. The stdout batches read meanwhile, each suffixed
//! with a space, joined with newlines, form the command's one blob.
use vstd::prelude::*;

use crate::text::{contains_pat, has_pat};

verus! {

/// The probe: a command the console always rejects.
pub open spec fn probe_command_spec() -> Seq<char> {
    "ping"@
}

/// The error-stream signature the console answers the probe with.
pub open spec fn probe_signature() -> Seq<char> {
    "ping: usage error:"@
}

/// The probe command line.
pub fn probe_command() -> (c: &'static str)
    ensures
        c@ == probe_command_spec(),
{
    "ping"
}

/// Does this error-stream batch carry the probe's signature, marking the
/// command's output as fully arrived?
pub fn response_complete(err_batch: &str) -> (b: bool)
    ensures
        b == contains_pat(err_batch@, probe_signature()),
{
    has_pat(err_batch, "ping: usage error:")
}

/// One aggregated blob: each stdout batch suffixed with a space, the
/// batches joined with newlines.
pub open spec fn aggregate_spec(batches: Seq<Seq<char>>) -> Seq<char>
    decreases batches.len()
{
    if batches.len() == 0 {
        Seq::empty()
    } else if batches.len() == 1 {
        batches[0] + " "@
    } else {
        aggregate_spec(batches.drop_last()) + "\n"@ + batches.last() + " "@
    }
}

/// Join the stdout batches a command produced into its one blob.
pub fn aggregate_batches(batches: &Vec<String>) -> (r: String)
    ensures
        r@ == aggregate_spec(batches.deep_view()),
{
    let mut out = String::new();
    let mut i: usize = 0;
    while i < batches.len()
        invariant
            0 <= i <= batches@.len(),
            batches.deep_view().len() == batches@.len(),
            out@ == aggregate_spec(batches.deep_view().take(i as int)),
        decreases batches@.len() - i,
    {
        if i > 0 {
            out.append("\n");
        }
        out.append(batches[i].as_str());
        out.append(" ");
        proof {
            let dv = batches.deep_view();
            assert(dv.take(i + 1).drop_last() =~~= dv.take(i as int));
            assert(dv.take(i + 1).last() == dv[i as int]);
            if i == 0 {
                assert(out@ =~= dv[0] + " "@);
                assert(aggregate_spec(dv.take(1)) == dv.take(1)[0] + " "@);
            } else {
                assert(out@ =~= aggregate_spec(dv.take(i as int)) + "\n"@ + dv[i as int] + " "@);
            }
        }
        i += 1;
    }
    proof {
        assert(batches.deep_view().take(batches@.len() as int) =~~= batches.deep_view());
    }
    out
}

/// The command selecting a module.
pub open spec fn select_command_spec(name: Seq<char>) -> Seq<char> {
    "use "@ + name
}

/// Build the command selecting a module.
pub fn select_command(name: &str) -> (c: String)
    ensures
        c@ == select_command_spec(name@),
{
    let mut out = String::from_str("use ");
    out.append(name);
    out
}

/// The command printing the selected module's option tables.
pub fn show_options_command() -> (c: &'static str)
    ensures
        c@ == "show options"@,
{
    "show options"
}

/// The command deselecting the current module.
pub fn back_command() -> (c: &'static str)
    ensures
        c@ == "back"@,
{
    "back"
}

/// The module categories a listing command can enumerate.
#[derive(Debug, Clone, Copy, PartialEq, Eq, Structural)]
pub enum ListingKind {
    Exploits,
    Payloads,
    Auxiliary,
}

/// The listing command of each category.
pub open spec fn listing_command_spec(kind: ListingKind) -> Seq<char> {
    match kind {
        ListingKind::Exploits => "show exploits"@,
        ListingKind::Payloads => "show payloads"@,
        ListingKind::Auxiliary => "show auxiliary"@,
    }
}

/// Build the listing command of a category.
pub fn listing_command(kind: ListingKind) -> (c: &'static str)
    ensures
        c@ == listing_command_spec(kind),
{
    match kind {
        ListingKind::Exploits => "show exploits",
        ListingKind::Payloads => "show payloads",
        ListingKind::Auxiliary => "show auxiliary",
    }
}

} // verus!
