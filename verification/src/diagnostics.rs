//! Rendering of module-alias-map diagnostics.
//!
//! The alias-map resolution itself is an external concern consumed elsewhere;
//! the bridge's only part is composing the warning the host logs when the
//! resolver reports diagnostics. The composition is verified here; the host
//! shell passes the returned message, if any, to its logger.

use vstd::prelude::*;
use vstd::string::StringExecFns;

verus! {

/// The warning text for a list of diagnostics: a header line, then one
/// indented line per diagnostic, in order.
pub open spec fn import_map_diagnostics_message(diagnostics: Seq<String>) -> Seq<char>
    decreases diagnostics.len(),
{
    if diagnostics.len() == 0 {
        "Import map diagnostics:"@
    } else {
        import_map_diagnostics_message(diagnostics.drop_last()) + "\n  - "@
            + diagnostics.last()@
    }
}

/// The warning to log for the resolver's diagnostics: `None` when there are
/// none (nothing is logged), otherwise the composed message — the header
/// followed by each diagnostic on its own indented line, in order.
pub fn print_import_map_diagnostics(diagnostics: &Vec<String>) -> (r: Option<String>)
    ensures
        diagnostics@.len() == 0 ==> r is None,
        diagnostics@.len() > 0 ==> (r matches Some(msg) && msg@ == import_map_diagnostics_message(
            diagnostics@,
        )),
{
    if diagnostics.len() == 0 {
        return None;
    }
    let mut msg = String::new();
    msg.append("Import map diagnostics:");
    let n = diagnostics.len();
    let mut i: usize = 0;
    while i < n
        invariant
            n == diagnostics@.len(),
            i <= n,
            msg@ == import_map_diagnostics_message(diagnostics@.take(i as int)),
        decreases n - i,
    {
        proof {
            assert(diagnostics@.take(i + 1).drop_last() =~= diagnostics@.take(i as int));
            assert(diagnostics@.take(i + 1).last() == diagnostics@[i as int]);
        }
        msg.append("\n  - ");
        msg.append(diagnostics[i].as_str());
        proof {
            assert(msg@ =~= import_map_diagnostics_message(diagnostics@.take(i + 1)));
        }
        i = i + 1;
    }
    proof {
        assert(diagnostics@.take(n as int) =~= diagnostics@);
    }
    Some(msg)
}

} // verus!
