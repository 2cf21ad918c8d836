//! The three states of a client and the one way between them.

use vstd::prelude::*;

verus! {

/// Which kind of backend a client is bound to, if any.
#[derive(Copy, Clone, Debug, PartialEq, Eq, Hash, Structural)]
pub enum Mode {
    /// No backend yet: every call answers with its neutral default.
    Unbound,
    /// Bound to a relay-based session service.
    Relay,
    /// Bound to a direct socket link.
    Socket,
}

/// The calls that take a client by `&mut`.
#[derive(Copy, Clone, Debug, PartialEq, Eq, Hash, Structural)]
pub enum Operation {
    BindRelay,
    BindSocket,
    Update,
    Recv,
    RecvRaw,
}

/// The mode of a client after one call, given its mode before. Only a bind
/// moves a client, and only one that is unbound.
pub open spec fn mode_after(mode: Mode, op: Operation) -> Mode {
    match mode {
        Mode::Unbound => match op {
            Operation::BindRelay => Mode::Relay,
            Operation::BindSocket => Mode::Socket,
            _ => Mode::Unbound,
        },
        bound => bound,
    }
}

/// The mode of a client after a run of calls, the first of `ops` first.
pub open spec fn mode_after_all(mode: Mode, ops: Seq<Operation>) -> Mode
    decreases ops.len(),
{
    if ops.len() == 0 {
        mode
    } else {
        mode_after(mode_after_all(mode, ops.drop_last()), ops.last())
    }
}

/// A client that is bound stays bound to the same kind of backend, whatever
/// is called on it and however often.
pub proof fn bound_mode_is_final(mode: Mode, ops: Seq<Operation>)
    requires
        mode != Mode::Unbound,
    ensures
        mode_after_all(mode, ops) == mode,
    decreases ops.len(),
{
    if ops.len() > 0 {
        bound_mode_is_final(mode, ops.drop_last());
    }
}

/// A client leaves the unbound mode at its first bind, and the kind of that
/// bind is its mode ever after.
pub proof fn first_bind_decides(ops: Seq<Operation>, later: Seq<Operation>, bind: Operation)
    requires
        bind == Operation::BindRelay || bind == Operation::BindSocket,
        forall|i: int|
            0 <= i < ops.len() ==> ops[i] != Operation::BindRelay && ops[i]
                != Operation::BindSocket,
    ensures
        mode_after_all(Mode::Unbound, ops) == Mode::Unbound,
        mode_after_all(Mode::Unbound, ops.push(bind) + later) == mode_after(Mode::Unbound, bind),
    decreases later.len(),
{
    unbound_until_bind(ops);
    if later.len() == 0 {
        assert(ops.push(bind).drop_last() == ops);
    } else {
        first_bind_decides(ops, later.drop_last(), bind);
        assert((ops.push(bind) + later).drop_last() == ops.push(bind) + later.drop_last());
    }
}

/// Calls other than a bind leave an unbound client unbound.
proof fn unbound_until_bind(ops: Seq<Operation>)
    requires
        forall|i: int|
            0 <= i < ops.len() ==> ops[i] != Operation::BindRelay && ops[i]
                != Operation::BindSocket,
    ensures
        mode_after_all(Mode::Unbound, ops) == Mode::Unbound,
    decreases ops.len(),
{
    if ops.len() > 0 {
        unbound_until_bind(ops.drop_last());
    }
}

} // verus!
