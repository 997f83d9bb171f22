//! The command line of the application.

use vstd::prelude::*;
use vstd::string::*;

use crate::address::ServerAddr;
use crate::text::{parse_port, same_text};

verus! {

/// The texts of the arguments.
pub open spec fn texts(args: Seq<String>) -> Seq<Seq<char>> {
    args.map_values(|arg: String| arg@)
}

/// The argument at `i` is `flag`, and a value stands behind it.
pub open spec fn is_flag(args: Seq<Seq<char>>, i: int, flag: Seq<char>) -> bool {
    0 <= i && i + 1 < args.len() && args[i] == flag
}

/// Where the argument behind the one at `i` stands: a flag takes its value along.
pub open spec fn next_arg(args: Seq<Seq<char>>, i: int) -> int {
    if is_flag(args, i, "--host"@) || is_flag(args, i, "--port"@) {
        i + 2
    } else {
        i + 1
    }
}

/// The host that the arguments from `i` on name last, if any.
pub open spec fn host_arg(args: Seq<Seq<char>>, i: int) -> Option<Seq<char>>
    decreases args.len() - i,
{
    if i >= args.len() {
        None
    } else {
        match host_arg(args, next_arg(args, i)) {
            Some(host) => Some(host),
            None => if is_flag(args, i, "--host"@) {
                Some(args[i + 1])
            } else {
                None
            },
        }
    }
}

/// The port that the arguments from `i` on name last, if any. A value that is no
/// port does not count.
pub open spec fn port_arg(args: Seq<Seq<char>>, i: int) -> Option<u16>
    decreases args.len() - i,
{
    if i >= args.len() {
        None
    } else {
        match port_arg(args, next_arg(args, i)) {
            Some(port) => Some(port),
            None => if is_flag(args, i, "--port"@) {
                crate::text::parsed_port(args[i + 1])
            } else {
                None
            },
        }
    }
}

/// The address once the arguments from `i` on have had their say: what they name
/// takes precedence, what they do not name stays.
pub open spec fn overridden(
    addr: (Seq<char>, u16),
    args: Seq<Seq<char>>,
    i: int,
) -> (Seq<char>, u16) {
    (
        match host_arg(args, i) {
            Some(host) => host,
            None => addr.0,
        },
        match port_arg(args, i) {
            Some(port) => port,
            None => addr.1,
        },
    )
}

proof fn lemma_flags_differ()
    ensures
        "--host"@ != "--port"@,
{
    reveal_strlit("--host");
    reveal_strlit("--port");
    assert("--host"@[2] != "--port"@[2]);
}

/// The address `addr` once the command line has had its say. The first argument is
/// the name of the program. A flag without a value is passed over.
pub fn apply_args(addr: ServerAddr, args: &Vec<String>) -> (result: ServerAddr)
    ensures
        result@ == overridden(addr@, texts(args@), 1),
{
    let ghost all = texts(args@);
    let mut host = addr.host;
    let mut port: u16 = addr.port;
    let mut i: usize = 1;
    while i < args.len()
        invariant
            1 <= i,
            all == texts(args@),
            overridden((host@, port), all, i as int) == overridden(addr@, all, 1),
        decreases args.len() - i,
    {
        proof {
            lemma_flags_differ();
        }
        assert(all[i as int] == args@[i as int]@);
        if same_text(args[i].as_str(), "--host") && i + 1 < args.len() {
            assert(is_flag(all, i as int, "--host"@));
            assert(all[i + 1] == args@[i + 1]@);
            host = args[i + 1].clone();
            i += 2;
        } else if same_text(args[i].as_str(), "--port") && i + 1 < args.len() {
            assert(is_flag(all, i as int, "--port"@));
            assert(all[i + 1] == args@[i + 1]@);
            if let Some(p) = parse_port(args[i + 1].as_str()) {
                port = p;
            }
            i += 2;
        } else {
            i += 1;
        }
    }
    ServerAddr { host, port }
}

/// The command line takes precedence over what was saved: each part of the address
/// is the same for any two saved addresses, or it stays in both as it was.
pub proof fn command_line_takes_precedence(
    args: Seq<Seq<char>>,
    a: (Seq<char>, u16),
    b: (Seq<char>, u16),
)
    ensures
        if host_arg(args, 1) is Some {
            overridden(a, args, 1).0 == overridden(b, args, 1).0
        } else {
            overridden(a, args, 1).0 == a.0 && overridden(b, args, 1).0 == b.0
        },
        if port_arg(args, 1) is Some {
            overridden(a, args, 1).1 == overridden(b, args, 1).1
        } else {
            overridden(a, args, 1).1 == a.1 && overridden(b, args, 1).1 == b.1
        },
{
}

proof fn lemma_no_flag(args: Seq<Seq<char>>, i: int)
    requires
        1 <= i,
        forall|j: int| i <= j < args.len() ==> #[trigger] args[j] != "--host"@ && args[j]
            != "--port"@,
    ensures
        host_arg(args, i) is None,
        port_arg(args, i) is None,
    decreases args.len() - i,
{
    if i < args.len() {
        lemma_no_flag(args, i + 1);
    }
}

/// Without a flag behind the name of the program, the address stays as it is.
pub proof fn no_flag_changes_nothing(addr: (Seq<char>, u16), args: Seq<Seq<char>>)
    requires
        forall|j: int| 1 <= j < args.len() ==> #[trigger] args[j] != "--host"@ && args[j]
            != "--port"@,
    ensures
        overridden(addr, args, 1) == addr,
{
    lemma_no_flag(args, 1);
}

/// A command line that gives both flags, in either order, fixes the address, whatever
/// was saved, whatever the host is and in whatever way the port is written.
pub proof fn both_flags_fix_the_address(
    addr: (Seq<char>, u16),
    program: Seq<char>,
    host: Seq<char>,
    port_text: Seq<char>,
    port: u16,
)
    requires
        crate::text::parsed_port(port_text) == Some(port),
    ensures
        overridden(addr, seq![program, "--host"@, host, "--port"@, port_text], 1) == (host, port),
        overridden(addr, seq![program, "--port"@, port_text, "--host"@, host], 1) == (host, port),
{
    let host_first = seq![program, "--host"@, host, "--port"@, port_text];
    let port_first = seq![program, "--port"@, port_text, "--host"@, host];
    lemma_flags_differ();
    reveal_with_fuel(host_arg, 4);
    reveal_with_fuel(port_arg, 4);
    assert(next_arg(host_first, 1) == 3);
    assert(next_arg(host_first, 3) == 5);
    assert(next_arg(port_first, 1) == 3);
    assert(next_arg(port_first, 3) == 5);
}

/// What the arguments name from some place on depends on nothing in front of it.
proof fn lemma_same_tail(a: Seq<Seq<char>>, i: int, b: Seq<Seq<char>>, j: int)
    requires
        0 <= i <= a.len(),
        0 <= j <= b.len(),
        a.skip(i) == b.skip(j),
    ensures
        host_arg(a, i) == host_arg(b, j),
        port_arg(a, i) == port_arg(b, j),
    decreases a.len() - i,
{
    assert(a.skip(i).len() == a.len() - i);
    assert(b.skip(j).len() == b.len() - j);
    if i < a.len() {
        assert(a[i] == a.skip(i)[0] && b[j] == b.skip(j)[0]);
        if i + 1 < a.len() {
            assert(a[i + 1] == a.skip(i)[1] && b[j + 1] == b.skip(j)[1]);
        }
        let width = next_arg(a, i) - i;
        assert(next_arg(b, j) == j + width);
        assert(a.skip(i + width) =~= a.skip(i).skip(width));
        assert(b.skip(j + width) =~= b.skip(j).skip(width));
        lemma_same_tail(a, i + width, b, j + width);
    }
}

/// A command line that begins with `--host` and a value does what the rest of it does to an
/// address that has this host, whatever the rest is.
pub proof fn host_flag_sets_the_host(
    addr: (Seq<char>, u16),
    program: Seq<char>,
    host: Seq<char>,
    rest: Seq<Seq<char>>,
)
    ensures
        overridden(addr, seq![program, "--host"@, host] + rest, 1) == overridden(
            (host, addr.1),
            seq![program] + rest,
            1,
        ),
{
    let args = seq![program, "--host"@, host] + rest;
    let short = seq![program] + rest;
    lemma_flags_differ();
    assert(args[1] == "--host"@ && args[2] == host);
    assert(args.skip(3) =~= rest);
    assert(short.skip(1) =~= rest);
    lemma_same_tail(args, 3, short, 1);
    assert(next_arg(args, 1) == 3);
}

/// A command line that begins with `--port` and a value does what the rest of it does to an
/// address that has this port, or, where the value is no port, to the address as it is.
pub proof fn port_flag_sets_the_port(
    addr: (Seq<char>, u16),
    program: Seq<char>,
    text: Seq<char>,
    rest: Seq<Seq<char>>,
)
    ensures
        crate::text::parsed_port(text) matches Some(port) ==> overridden(
            addr,
            seq![program, "--port"@, text] + rest,
            1,
        ) == overridden((addr.0, port), seq![program] + rest, 1),
        crate::text::parsed_port(text) is None ==> overridden(
            addr,
            seq![program, "--port"@, text] + rest,
            1,
        ) == overridden(addr, seq![program] + rest, 1),
{
    let args = seq![program, "--port"@, text] + rest;
    let short = seq![program] + rest;
    lemma_flags_differ();
    assert(args[1] == "--port"@ && args[2] == text);
    assert(args.skip(3) =~= rest);
    assert(short.skip(1) =~= rest);
    lemma_same_tail(args, 3, short, 1);
    assert(next_arg(args, 1) == 3);
}

/// Any other first argument, and a flag that nothing follows, is passed over: the command
/// line does what it does without it.
pub proof fn other_arguments_are_passed_over(
    addr: (Seq<char>, u16),
    program: Seq<char>,
    word: Seq<char>,
    rest: Seq<Seq<char>>,
)
    requires
        (word != "--host"@ && word != "--port"@) || rest.len() == 0,
    ensures
        overridden(addr, seq![program, word] + rest, 1) == overridden(
            addr,
            seq![program] + rest,
            1,
        ),
{
    let args = seq![program, word] + rest;
    let short = seq![program] + rest;
    assert(args[1] == word);
    assert(args.skip(2) =~= rest);
    assert(short.skip(1) =~= rest);
    lemma_same_tail(args, 2, short, 1);
    assert(next_arg(args, 1) == 2);
}

/// Without arguments behind the name of the program, or without even that, the address stays
/// as it is.
pub proof fn no_argument_changes_nothing(addr: (Seq<char>, u16), program: Seq<char>)
    ensures
        overridden(addr, seq![program], 1) == addr,
        overridden(addr, seq![], 1) == addr,
{
}

/// A port alone is enough, and leaves the host; so is a host alone.
pub proof fn one_flag_is_enough(
    addr: (Seq<char>, u16),
    program: Seq<char>,
    text: Seq<char>,
    port: u16,
)
    requires
        crate::text::parsed_port(text) == Some(port),
    ensures
        overridden(addr, seq![program, "--port"@, text], 1) == (addr.0, port),
        overridden(addr, seq![program, "--host"@, text], 1) == (text, addr.1),
{
    assert(seq![program, "--port"@, text] + Seq::empty() =~= seq![program, "--port"@, text]);
    assert(seq![program, "--host"@, text] + Seq::empty() =~= seq![program, "--host"@, text]);
    assert(seq![program] + Seq::empty() =~= seq![program]);
    port_flag_sets_the_port(addr, program, text, Seq::empty());
    host_flag_sets_the_host(addr, program, text, Seq::empty());
    no_argument_changes_nothing((addr.0, port), program);
    no_argument_changes_nothing((text, addr.1), program);
}

/// The texts of the arguments, one for one.
pub proof fn arguments_are_read_one_for_one(args: Seq<String>)
    ensures
        texts(args).len() == args.len(),
        forall|i: int| 0 <= i < args.len() ==> #[trigger] texts(args)[i] == args[i]@,
{
}

proof fn lemma_scanned(
    args: Seq<Seq<char>>,
    starts: Seq<int>,
    j: int,
    k: int,
)
    requires
        0 <= j <= k < starts.len(),
        forall|n: int| 0 <= n < starts.len() ==> 1 <= #[trigger] starts[n] < args.len(),
        forall|n: int|
            0 <= n < starts.len() ==> (if n + 1 < starts.len() {
                starts[n + 1]
            } else {
                args.len() as int
            }) == (#[trigger] starts[n]) + (if (args[starts[n]] == "--host"@ || args[starts[n]]
                == "--port"@) && starts[n] + 1 < args.len() {
                2int
            } else {
                1int
            }),
    ensures
        (forall|n: int|
            k < n < starts.len() ==> !(args[#[trigger] starts[n]] == "--host"@ && starts[n] + 1
                < args.len())) && args[starts[k]] == "--host"@ && starts[k] + 1 < args.len()
            ==> host_arg(args, starts[j]) == Some(args[starts[k] + 1]),
        (forall|n: int|
            k < n < starts.len() ==> !(args[#[trigger] starts[n]] == "--port"@ && starts[n] + 1
                < args.len() && crate::text::parsed_port(args[starts[n] + 1]) is Some))
            && args[starts[k]] == "--port"@ && starts[k] + 1 < args.len()
            && crate::text::parsed_port(args[starts[k] + 1]) is Some ==> port_arg(args, starts[j])
            == crate::text::parsed_port(args[starts[k] + 1]),
    decreases k - j,
{
    lemma_flags_differ();
    let at = starts[j];
    if j == k {
        lemma_nothing_later(args, starts, k + 1);
        if k + 1 < starts.len() {
            assert(starts[k + 1] == next_arg(args, at));
        }
    } else {
        lemma_scanned(args, starts, j + 1, k);
        assert(starts[j + 1] == next_arg(args, at));
    }
}

proof fn lemma_nothing_later(args: Seq<Seq<char>>, starts: Seq<int>, j: int)
    requires
        0 < j <= starts.len(),
        forall|n: int| 0 <= n < starts.len() ==> 1 <= #[trigger] starts[n] < args.len(),
        forall|n: int|
            0 <= n < starts.len() ==> (if n + 1 < starts.len() {
                starts[n + 1]
            } else {
                args.len() as int
            }) == (#[trigger] starts[n]) + (if (args[starts[n]] == "--host"@ || args[starts[n]]
                == "--port"@) && starts[n] + 1 < args.len() {
                2int
            } else {
                1int
            }),
    ensures
        (forall|n: int|
            j <= n < starts.len() ==> !(args[#[trigger] starts[n]] == "--host"@ && starts[n] + 1
                < args.len())) ==> host_arg(
            args,
            next_arg(args, starts[j - 1]),
        ) is None,
        (forall|n: int|
            j <= n < starts.len() ==> !(args[#[trigger] starts[n]] == "--port"@ && starts[n] + 1
                < args.len() && crate::text::parsed_port(args[starts[n] + 1]) is Some))
            ==> port_arg(args, next_arg(args, starts[j - 1])) is None,
    decreases starts.len() - j,
{
    lemma_flags_differ();
    let before = starts[j - 1];
    if j < starts.len() {
        lemma_nothing_later(args, starts, j + 1);
        assert(starts[j] == next_arg(args, before));
        assert(starts[(j + 1) - 1] == starts[j]);
    } else {
        assert(next_arg(args, before) == args.len());
    }
}

/// Whatever the other arguments are and however many: the last `--host` with a value names
/// the host, and the last `--port` with a value that is a port names the port. `starts` are
/// the places where arguments begin: behind the name of the program, and then each behind
/// the one before it, where a flag takes its value along.
pub proof fn last_flag_counts(
    addr: (Seq<char>, u16),
    args: Seq<Seq<char>>,
    starts: Seq<int>,
    k: int,
)
    requires
        0 <= k < starts.len(),
        starts[0] == 1,
        forall|n: int| 0 <= n < starts.len() ==> 1 <= #[trigger] starts[n] < args.len(),
        forall|n: int|
            0 <= n < starts.len() ==> (if n + 1 < starts.len() {
                starts[n + 1]
            } else {
                args.len() as int
            }) == (#[trigger] starts[n]) + (if (args[starts[n]] == "--host"@ || args[starts[n]]
                == "--port"@) && starts[n] + 1 < args.len() {
                2int
            } else {
                1int
            }),
    ensures
        args[starts[k]] == "--host"@ && starts[k] + 1 < args.len() && (forall|n: int|
            k < n < starts.len() ==> !(args[#[trigger] starts[n]] == "--host"@ && starts[n] + 1
                < args.len())) ==> overridden(addr, args, 1).0 == args[starts[k] + 1],
        args[starts[k]] == "--port"@ && starts[k] + 1 < args.len() && (forall|n: int|
            k < n < starts.len() ==> !(args[#[trigger] starts[n]] == "--port"@ && starts[n] + 1
                < args.len() && crate::text::parsed_port(args[starts[n] + 1]) is Some))
            && crate::text::parsed_port(args[starts[k] + 1]) is Some ==> Some(
            overridden(addr, args, 1).1,
        ) == crate::text::parsed_port(args[starts[k] + 1]),
{
    lemma_scanned(args, starts, 0, k);
}

} // verus!
