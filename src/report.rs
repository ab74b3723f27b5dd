//! The text of each action that writes to the host channel or the display sink.

use vstd::prelude::*;
use crate::harness::Action;
use vstd::string::StringSliceAdditionalSpecFns;

verus! {

/// Decimal digits of `n`, most significant first, with no leading zeros.
pub open spec fn decimal(n: nat) -> Seq<u8>
    decreases n,
{
    if n < 10 {
        seq![(48 + n) as u8]
    } else {
        decimal(n / 10) + seq![(48 + n % 10) as u8]
    }
}

/// `Running {n} tests` and a newline.
pub open spec fn announce_line(n: nat) -> Seq<u8> {
    "Running ".spec_bytes() + decimal(n) + " tests\n".spec_bytes()
}

/// A case's name followed by `...` and a tab, with no newline.
pub open spec fn begin_text(name: Seq<u8>) -> Seq<u8> {
    name + "...\t".spec_bytes()
}

/// The pass marker `[ok]` and a newline.
pub open spec fn ok_line() -> Seq<u8> {
    "[ok]\n".spec_bytes()
}

/// The fail marker `[failed]` and a blank line, then `Error: ` with the
/// diagnostic and a blank line.
pub open spec fn failed_text(diag: Seq<u8>) -> Seq<u8> {
    "[failed]\n\n".spec_bytes()
        + "Error: ".spec_bytes() + diag + "\n\n".spec_bytes()
}

/// The greeting line.
pub open spec fn greeting_line() -> Seq<u8> {
    "Hello, world!\n".spec_bytes()
}

/// What `a` writes to the host channel, where `names[i]` is the name of case
/// `i` and `diag` the rendered fault; empty for actions that write nothing there.
pub open spec fn host_text(a: Action, names: Seq<Seq<u8>>, diag: Seq<u8>) -> Seq<u8> {
    match a {
        Action::Announce(n) => announce_line(n as nat),
        Action::Begin(i) => begin_text(names[i as int]),
        Action::Passed => ok_line(),
        Action::Failed => failed_text(diag),
        _ => Seq::empty(),
    }
}

/// What `a` writes to the display sink; empty for actions that write nothing there.
pub open spec fn display_text(a: Action, diag: Seq<u8>) -> Seq<u8> {
    match a {
        Action::Greet => greeting_line(),
        Action::ShowFault => diag + "\n".spec_bytes(),
        _ => Seq::empty(),
    }
}

fn append_bytes(out: &mut Vec<u8>, s: &[u8])
    ensures
        final(out)@ == old(out)@ + s@,
{
    let mut i: usize = 0;
    while i < s.len()
        invariant
            i <= s@.len(),
            out@ == old(out)@ + s@.take(i as int),
        decreases s@.len() - i,
    {
        out.push(s[i]);
        i = i + 1;
        assert(s@.take(i as int) =~= s@.take(i - 1) + seq![s@[i - 1]]);
    }
    assert(s@.take(i as int) =~= s@);
}

/// Decimal digits of `n`.
pub fn decimal_bytes(n: usize) -> (r: Vec<u8>)
    ensures
        r@ == decimal(n as nat),
    decreases n,
{
    let d: u8 = (n % 10) as u8;
    if n < 10 {
        vec![48 + d]
    } else {
        let mut r = decimal_bytes(n / 10);
        r.push(48 + d);
        r
    }
}

/// The bytes `a` writes to the host channel; empty for actions that write
/// nothing there.
pub fn render_host(a: Action, names: &Vec<Vec<u8>>, diag: &[u8]) -> (r: Vec<u8>)
    requires
        a is Begin ==> a->Begin_0 < names@.len(),
    ensures
        r@ == host_text(a, names@.map_values(|v: Vec<u8>| v@), diag@),
{
    let mut r: Vec<u8> = Vec::new();
    match a {
        Action::Announce(n) => {
            append_bytes(&mut r, "Running ".as_bytes());
            let digits = decimal_bytes(n);
            append_bytes(&mut r, digits.as_slice());
            append_bytes(&mut r, " tests\n".as_bytes());
            assert(r@ =~= announce_line(n as nat));
        },
        Action::Begin(i) => {
            append_bytes(&mut r, names[i].as_slice());
            append_bytes(&mut r, "...\t".as_bytes());
            assert(r@ =~= begin_text(names@[i as int]@));
        },
        Action::Passed => {
            append_bytes(&mut r, "[ok]\n".as_bytes());
            assert(r@ =~= ok_line());
        },
        Action::Failed => {
            append_bytes(&mut r, "[failed]\n\n".as_bytes());
            append_bytes(&mut r, "Error: ".as_bytes());
            append_bytes(&mut r, diag);
            append_bytes(&mut r, "\n\n".as_bytes());
            assert(r@ =~= failed_text(diag@));
        },
        _ => {
            assert(r@ =~= Seq::<u8>::empty());
        },
    }
    r
}

/// The bytes `a` writes to the display sink; empty for actions that write
/// nothing there.
pub fn render_display(a: Action, diag: &[u8]) -> (r: Vec<u8>)
    ensures
        r@ == display_text(a, diag@),
{
    let mut r: Vec<u8> = Vec::new();
    match a {
        Action::Greet => {
            append_bytes(
                &mut r,
                "Hello, world!\n".as_bytes(),
            );
            assert(r@ =~= greeting_line());
        },
        Action::ShowFault => {
            append_bytes(&mut r, diag);
            append_bytes(&mut r, "\n".as_bytes());
            assert(r@ =~= diag@ + "\n".spec_bytes());
        },
        _ => {
            assert(r@ =~= Seq::<u8>::empty());
        },
    }
    r
}

} // verus!
