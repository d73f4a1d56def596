//! Choosing the port of the dev server: the first free one of a range, or
//! a fixed port that replaces the range.
//!
//! Whether a port is free is for the caller to find out; the scan takes
//! that test as a function and decides which ports to ask about and which
//! one to take.

use vstd::prelude::*;
use std::ops::Range;

verus! {

/// The first port of the default scan.
pub const DEFAULT_RANGE_START: u16 = 21012;

/// The end of the default scan; this port is not part of it.
pub const DEFAULT_RANGE_END: u16 = 22022;

/// The first port `p` with `start <= p < end` that `free` holds of.
pub open spec fn first_free(free: spec_fn(u16) -> bool, start: int, end: int) -> Option<u16>
    decreases end - start,
{
    if start >= end || start < 0 || start > u16::MAX {
        None
    } else if free(start as u16) {
        Some(start as u16)
    } else {
        first_free(free, start + 1, end)
    }
}

/// The port that is chosen: a fixed port stands for the range that holds
/// it alone; without one the range is scanned from its start.
pub open spec fn chosen_port(
    free: spec_fn(u16) -> bool,
    fixed: Option<u16>,
    start: int,
    end: int,
) -> Option<u16> {
    match fixed {
        Some(port) => if free(port) {
            Some(port)
        } else {
            None
        },
        None => first_free(free, start, end),
    }
}

/// Every answer that `probe` can give about a port in `start..end` is the
/// one that `free` gives.
pub open spec fn answers_as<F: Fn(u16) -> bool>(
    probe: F,
    free: spec_fn(u16) -> bool,
    start: int,
    end: int,
) -> bool {
    forall|port: u16, answer: bool|
        start <= port < end && #[trigger] probe.ensures((port,), answer) ==> answer == free(port)
}

/// What `first_free` returns is in the range and free, and nothing before
/// it in the range is free; it returns nothing only if no port of the
/// range is free.
pub proof fn first_free_is_first(free: spec_fn(u16) -> bool, start: int, end: int)
    requires
        0 <= start,
        end <= u16::MAX + 1,
    ensures
        match first_free(free, start, end) {
            Some(port) => start <= port < end && free(port) && forall|q: u16|
                start <= q < port ==> !#[trigger] free(q),
            None => forall|q: u16| start <= q < end ==> !#[trigger] free(q),
        },
    decreases end - start,
{
    if start < end && !free(start as u16) {
        first_free_is_first(free, start + 1, end);
    }
}

/// A port that is free while nothing before it in the range is, is the
/// one that `first_free` returns.
pub proof fn first_free_finds(free: spec_fn(u16) -> bool, start: int, end: int, port: u16)
    requires
        0 <= start <= port < end,
        free(port),
        forall|q: u16| start <= q < port ==> !#[trigger] free(q),
    ensures
        first_free(free, start, end) == Some(port),
    decreases port - start,
{
    if start < port {
        assert(!free(start as u16));
        first_free_finds(free, start + 1, end, port);
    }
}

/// Where no port of the range is free, `first_free` returns nothing.
pub proof fn first_free_none(free: spec_fn(u16) -> bool, start: int, end: int)
    requires
        0 <= start,
        end <= u16::MAX + 1,
        forall|q: u16| start <= q < end ==> !#[trigger] free(q),
    ensures
        first_free(free, start, end) is None,
    decreases end - start,
{
    if start < end {
        assert(!free(start as u16));
        first_free_none(free, start + 1, end);
    }
}

/// An empty range has no free port.
pub proof fn empty_range_has_no_port(free: spec_fn(u16) -> bool, port: u16)
    ensures
        first_free(free, port as int, port as int) is None,
        chosen_port(free, None, port as int, port as int) is None,
{
}

/// In a range with exactly one free port, that port is chosen.
pub proof fn only_free_port_is_chosen(free: spec_fn(u16) -> bool, start: u16, end: u16, port: u16)
    requires
        start <= port < end,
        forall|q: u16| start <= q < end ==> (#[trigger] free(q) <==> q == port),
    ensures
        first_free(free, start as int, end as int) == Some(port),
        chosen_port(free, None, start as int, end as int) == Some(port),
{
    first_free_finds(free, start as int, end as int, port);
}

/// A fixed port that is taken gives no port, whatever the range holds.
pub proof fn taken_fixed_port_gives_none(
    free: spec_fn(u16) -> bool,
    port: u16,
    start: int,
    end: int,
)
    requires
        !free(port),
    ensures
        chosen_port(free, Some(port), start, end) is None,
{
}

/// Whether a port is free: it is only if it can be bound for both address
/// families. The IPv6 bind is tried first, and the IPv4 bind only if that
/// one succeeded.
pub fn is_port_free<V6: Fn(u16) -> bool, V4: Fn(u16) -> bool>(
    port: u16,
    binds_ipv6: V6,
    binds_ipv4: V4,
) -> (free: bool)
    requires
        binds_ipv6.requires((port,)),
        binds_ipv4.requires((port,)),
    ensures
        free ==> binds_ipv6.ensures((port,), true) && binds_ipv4.ensures((port,), true),
        !free ==> binds_ipv6.ensures((port,), false) || binds_ipv4.ensures((port,), false),
{
    binds_ipv6(port) && binds_ipv4(port)
}

/// Scans `range` from its start and returns the first port that
/// `is_port_free` accepts. Ports after the one returned are not asked
/// about.
pub fn find_free_port<F: Fn(u16) -> bool>(range: Range<u16>, is_port_free: F) -> (port: Option<
    u16,
>)
    requires
        forall|p: u16| range.start <= p < range.end ==> #[trigger] is_port_free.requires((p,)),
    ensures
        match port {
            Some(p) => range.start <= p < range.end && is_port_free.ensures((p,), true)
                && forall|q: u16|
                range.start <= q < p ==> #[trigger] is_port_free.ensures((q,), false),
            None => forall|q: u16|
                range.start <= q < range.end ==> #[trigger] is_port_free.ensures((q,), false),
        },
        forall|free: spec_fn(u16) -> bool| #[trigger]
            answers_as(is_port_free, free, range.start as int, range.end as int) ==> port
                == first_free(free, range.start as int, range.end as int),
{
    let mut candidate: u16 = range.start;
    while candidate < range.end
        invariant
            range.start <= candidate,
            candidate <= range.end || range.end < range.start,
            forall|p: u16| range.start <= p < range.end ==> #[trigger] is_port_free.requires((p,)),
            forall|q: u16|
                range.start <= q < candidate ==> #[trigger] is_port_free.ensures((q,), false),
        decreases range.end - candidate,
    {
        if is_port_free(candidate) {
            proof {
                assert forall|free: spec_fn(u16) -> bool| #[trigger]
                    answers_as(
                        is_port_free,
                        free,
                        range.start as int,
                        range.end as int,
                    ) implies Some(candidate) == first_free(
                    free,
                    range.start as int,
                    range.end as int,
                ) by {
                    assert(is_port_free.ensures((candidate,), true));
                    assert forall|q: u16| range.start <= q < candidate implies !#[trigger] free(
                        q,
                    ) by {
                        assert(is_port_free.ensures((q,), false));
                    }
                    first_free_finds(free, range.start as int, range.end as int, candidate);
                }
            }
            return Some(candidate);
        }
        candidate += 1;
    }
    proof {
        assert forall|free: spec_fn(u16) -> bool| #[trigger]
            answers_as(is_port_free, free, range.start as int, range.end as int) implies first_free(
            free,
            range.start as int,
            range.end as int,
        ) is None by {
            assert forall|q: u16| range.start <= q < range.end implies !#[trigger] free(q) by {
                assert(is_port_free.ensures((q,), false));
            }
            first_free_none(free, range.start as int, range.end as int);
        }
    }
    None
}

/// Chooses the port of the dev server. A fixed port replaces the range:
/// it is taken if it is free and nothing else is tried. Without a fixed
/// port the range is scanned.
pub fn select_port<F: Fn(u16) -> bool>(fixed: Option<u16>, range: Range<u16>, is_port_free: F) -> (port:
    Option<u16>)
    requires
        forall|p: u16| #[trigger] is_port_free.requires((p,)),
    ensures
        match fixed {
            Some(wanted) => match port {
                Some(p) => p == wanted && is_port_free.ensures((wanted,), true),
                None => is_port_free.ensures((wanted,), false),
            },
            None => match port {
                Some(p) => range.start <= p < range.end && is_port_free.ensures((p,), true)
                    && forall|q: u16|
                    range.start <= q < p ==> #[trigger] is_port_free.ensures((q,), false),
                None => forall|q: u16|
                    range.start <= q < range.end ==> #[trigger] is_port_free.ensures(
                        (q,),
                        false,
                    ),
            },
        },
        forall|free: spec_fn(u16) -> bool| #[trigger]
            answers_as(is_port_free, free, 0, u16::MAX + 1) ==> port == chosen_port(
                free,
                fixed,
                range.start as int,
                range.end as int,
            ),
{
    match fixed {
        Some(wanted) => {
            if is_port_free(wanted) {
                Some(wanted)
            } else {
                None
            }
        },
        None => {
            let port = find_free_port(range, is_port_free);
            proof {
                assert forall|free: spec_fn(u16) -> bool| #[trigger]
                    answers_as(is_port_free, free, 0, u16::MAX + 1) implies port == first_free(
                    free,
                    range.start as int,
                    range.end as int,
                ) by {
                    assert(answers_as(is_port_free, free, range.start as int, range.end as int));
                }
            }
            port
        },
    }
}

} // verus!
