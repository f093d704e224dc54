//! Terminal echo: how the local modes of a terminal must change so that echo
//! is on or off, with every other mode left alone.
//!
//! The modes are the word of flag bits that the terminal driver reports;
//! `echo` is the flag, or set of flags, that stands for echo in it.
//! [`ECHO_FLAG`] is the one that terminals use.

use vstd::prelude::*;

verus! {

/// The echo flag among the local modes of a terminal.
pub const ECHO_FLAG: u64 = 0x8;

/// Whether all of `echo` is set in `modes`.
pub open spec fn echo_is_on(modes: u64, echo: u64) -> bool {
    modes & echo == echo
}

/// `modes` with `echo` set or cleared.
pub open spec fn with_echo(modes: u64, echo: u64, enable: bool) -> u64 {
    if enable {
        modes | echo
    } else {
        modes & !echo
    }
}

/// The modes to hand to the driver so that echo is as `enable` asks, or
/// `None` where it is so already.
pub open spec fn echo_change(modes: u64, echo: u64, enable: bool) -> Option<u64> {
    if echo_is_on(modes, echo) == enable {
        None
    } else {
        Some(with_echo(modes, echo, enable))
    }
}

/// The modes in force once a change, if there is one, has been applied.
pub open spec fn applied(modes: u64, change: Option<u64>) -> u64 {
    match change {
        Some(new_modes) => new_modes,
        None => modes,
    }
}

/// The flag `nix::sys::termios::LocalFlags::ECHO` as a word of bits. It is
/// taken to be [`ECHO_FLAG`]: the terminal library builds for Linux, Android,
/// the BSD family and Apple's systems, and the flag has that value on each.
#[verifier::external_body]
fn echo_flag() -> (echo: u64)
    ensures
        echo == ECHO_FLAG,
{
    nix::sys::termios::LocalFlags::ECHO.bits() as u64
}

/// Works out the change that switches echo on or off in `modes`, where
/// `echo` is the echo flag.
pub fn terminal_echo_change_with(modes: u64, echo: u64, enable: bool) -> (change: Option<u64>)
    ensures
        change == echo_change(modes, echo, enable),
{
    let enabled: bool = modes & echo == echo;
    if enabled == enable {
        None
    } else if enable {
        Some(modes | echo)
    } else {
        Some(modes & !echo)
    }
}

/// Works out the change that switches echo on or off in `modes`, with the
/// echo flag of terminals: `None` where echo is already as asked, and
/// otherwise the modes with that one flag set or cleared.
pub fn terminal_echo_change(modes: u64, enable: bool) -> (change: Option<u64>)
    ensures
        change == echo_change(modes, ECHO_FLAG, enable),
{
    terminal_echo_change_with(modes, echo_flag(), enable)
}

/// Setting or clearing echo touches no bit outside the echo flag, and where
/// a change is due it differs from the modes it replaces.
pub proof fn lemma_only_echo_changes(modes: u64, echo: u64, enable: bool)
    ensures
        with_echo(modes, echo, enable) & !echo == modes & !echo,
        echo_change(modes, echo, enable) matches Some(new_modes) ==> new_modes != modes
            || echo == 0,
{
    assert((modes | echo) & !echo == modes & !echo) by (bit_vector);
    assert((modes & !echo) & !echo == modes & !echo) by (bit_vector);
    assert(modes | echo == modes ==> modes & echo == echo) by (bit_vector);
    assert(modes & !echo == modes && modes & echo == echo ==> echo == 0) by (bit_vector);
}

/// After setting echo it is on; after clearing a flag that is not empty it
/// is off.
pub proof fn lemma_echo_as_asked(modes: u64, echo: u64, enable: bool)
    ensures
        enable ==> echo_is_on(with_echo(modes, echo, enable), echo),
        !enable && echo != 0 ==> !echo_is_on(with_echo(modes, echo, enable), echo),
{
    assert((modes | echo) & echo == echo) by (bit_vector);
    assert(echo != 0 ==> (modes & !echo) & echo != echo) by (bit_vector);
}

/// Where echo was on, switching it off and later on again leaves the modes
/// exactly as they were found.
pub proof fn lemma_echo_restored(modes: u64, echo: u64)
    requires
        echo_is_on(modes, echo),
    ensures
        ({
            let silenced = applied(modes, echo_change(modes, echo, false));
            applied(silenced, echo_change(silenced, echo, true)) == modes
        }),
{
    assert(modes & echo == echo ==> (modes & !echo) | echo == modes) by (bit_vector);
    assert((modes & !echo) & echo == echo ==> modes & !echo == modes) by (bit_vector);
}

} // verus!
