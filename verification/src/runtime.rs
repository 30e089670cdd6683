//! The exported entry points and the failure hook.
//!
//! A [`Module`] is everything one loaded instance owns: the guarded cell
//! around the state singleton and the flag saying whether the failure
//! hook has been installed.  The host calls [`initialize`] first, then
//! [`hello`] any number of times; each call takes the guarded borrow for
//! its duration.  A re-entrant borrow is the one fault: the call does
//! not complete normally, and — once the hook is installed — exactly one
//! non-empty diagnostic goes to the error sink and nothing to the
//! informational one.

use vstd::prelude::*;
use vstd::string::StringSliceAdditionalSpecFns;
use vstd::utf8::encode_scalar;
use vstd::utf8::encode_utf8;
use crate::boundary::Host;
use crate::boundary::error;
use crate::state::StateCell;
use crate::state::hello_message;
use crate::state::init_message;

verus! {

/// The diagnostic the failure hook receives when the guard refuses a
/// re-entrant borrow of the module state.
pub open spec fn borrow_fault_message() -> Seq<u8> {
    "module state already borrowed".spec_bytes()
}

proof fn lemma_borrow_fault_message_nonempty()
    ensures
        borrow_fault_message().len() > 0,
{
    reveal_strlit("module state already borrowed");
    let chars = "module state already borrowed"@;
    assert(encode_utf8(chars) == encode_scalar(chars[0] as u32) + encode_utf8(chars.drop_first()));
    assert(encode_scalar(chars[0] as u32).len() >= 1);
}

/// Everything one loaded module instance owns: the guarded cell around
/// the state singleton, and whether the failure hook is installed.
pub struct Module {
    pub cell: StateCell,
    pub hook_installed: bool,
}

impl Module {
    /// A freshly loaded instance: state constructed, not borrowed, no
    /// failure hook installed yet.
    pub fn new() -> (m: Module)
        ensures
            !m.hook_installed,
            !m.cell.is_borrowed(),
    {
        Module { cell: StateCell::new(), hook_installed: false }
    }
}

/// The installed failure hook: routes a fault's diagnostic text through
/// the error sink, then lets the unwind proceed.  The informational sink
/// sees nothing.
pub fn report_fault(host: &mut Host, diagnostic: &str)
    ensures
        final(host).error_log() == old(host).error_log().push(diagnostic.spec_bytes()),
        final(host).info_log() == old(host).info_log(),
{
    error(host, diagnostic);
}

/// The initialization entry point.  It always installs the failure hook
/// — first, before anything that could fault — and then runs one-time
/// setup under the guarded borrow, emitting exactly one informational
/// message.  Calling it again re-runs setup and logs again.  If the
/// state is already borrowed, the call faults instead: the freshly
/// installed hook delivers exactly one non-empty diagnostic to the error
/// sink, and the informational sink sees nothing.
pub fn initialize(m: &mut Module, host: &mut Host) -> (ok: bool)
    ensures
        final(m).hook_installed,
        ok == !old(m).cell.is_borrowed(),
        final(m).cell.is_borrowed() == old(m).cell.is_borrowed(),
        ok ==> {
            &&& final(host).info_log() == old(host).info_log().push(init_message())
            &&& final(host).error_log() == old(host).error_log()
        },
        !ok ==> {
            &&& final(host).info_log() == old(host).info_log()
            &&& final(host).error_log() == old(host).error_log().push(borrow_fault_message())
            &&& borrow_fault_message().len() > 0
        },
{
    m.hook_installed = true;
    if m.cell.try_borrow() {
        m.cell.state().initialize(host);
        m.cell.release();
        true
    } else {
        report_fault(host, "module state already borrowed");
        proof {
            lemma_borrow_fault_message_nonempty();
        }
        false
    }
}

/// The example exported transform.  Under the guarded borrow it emits
/// exactly one informational message and returns the wrapping square of
/// its argument.  If the state is already borrowed, the call faults and
/// returns no value: with the hook installed, exactly one non-empty
/// diagnostic goes to the error sink; without it, the fault is silent.
/// Either way the informational sink sees nothing on a fault.
pub fn hello(m: &mut Module, host: &mut Host, arg: u32) -> (r: Option<u32>)
    ensures
        final(m).hook_installed == old(m).hook_installed,
        final(m).cell.is_borrowed() == old(m).cell.is_borrowed(),
        (r is Some) == !old(m).cell.is_borrowed(),
        r matches Some(v) ==> v as nat == (arg as nat * arg as nat) % 0x1_0000_0000,
        !old(m).cell.is_borrowed() ==> {
            &&& final(host).info_log() == old(host).info_log().push(hello_message())
            &&& final(host).error_log() == old(host).error_log()
        },
        old(m).cell.is_borrowed() ==> final(host).info_log() == old(host).info_log(),
        old(m).cell.is_borrowed() && old(m).hook_installed ==> {
            &&& final(host).error_log() == old(host).error_log().push(borrow_fault_message())
            &&& borrow_fault_message().len() > 0
        },
        old(m).cell.is_borrowed() && !old(m).hook_installed ==> final(host).error_log() == old(
            host,
        ).error_log(),
{
    if m.cell.try_borrow() {
        let r = m.cell.state().hello(host, arg);
        m.cell.release();
        Some(r)
    } else {
        if m.hook_installed {
            report_fault(host, "module state already borrowed");
            proof {
                lemma_borrow_fault_message_nonempty();
            }
        }
        None
    }
}

} // verus!
