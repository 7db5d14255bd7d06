//! What the watcher hands to the operating system to start a child.
use crate::ports::PortPair;
use vstd::prelude::*;

verus! {

/// The decimal digits of `n`, most significant first, without leading zeros.
pub open spec fn decimal(n: nat) -> Seq<char>
    decreases n,
{
    if n < 10 {
        seq![digit_char(n)]
    } else {
        decimal(n / 10).push(digit_char(n % 10))
    }
}

/// The ASCII character of a single decimal digit.
pub open spec fn digit_char(d: nat) -> char {
    if d < 10 {
        (('0' as u8) + d) as char
    } else {
        '?'
    }
}

fn digit_str(d: u16) -> (r: &'static str)
    requires
        d < 10,
    ensures
        r@ == seq![digit_char(d as nat)],
{
    proof {
        reveal_strlit("0");
        reveal_strlit("1");
        reveal_strlit("2");
        reveal_strlit("3");
        reveal_strlit("4");
        reveal_strlit("5");
        reveal_strlit("6");
        reveal_strlit("7");
        reveal_strlit("8");
        reveal_strlit("9");
    }
    match d {
        0 => "0",
        1 => "1",
        2 => "2",
        3 => "3",
        4 => "4",
        5 => "5",
        6 => "6",
        7 => "7",
        8 => "8",
        _ => "9",
    }
}

/// Renders `n` in decimal, as the child reads a port number from its environment.
pub fn decimal_string(n: u16) -> (r: String)
    ensures
        r@ == decimal(n as nat),
    decreases n,
{
    if n < 10 {
        String::from_str(digit_str(n))
    } else {
        let mut s = decimal_string(n / 10);
        s.append(digit_str(n % 10));
        s
    }
}


/// The program that runs the supervised project with hot reloading.
pub const CHILD_PROGRAM: &'static str = "dexterous_developer_cli";

/// The environment a child is started with. Its names are the child's own,
/// so they are swapped against the watcher's: the child transmits on the
/// watcher's back port and receives on the watcher's forward port. A child
/// started in UI-only mode also finds the marker that restricts it to its
/// interactive surface.
pub open spec fn child_env(ports: PortPair, ui_only: bool) -> Seq<(Seq<char>, Seq<char>)> {
    let ports_env = seq![
        ("TX_PORT"@, decimal(ports.back as nat)),
        ("RX_PORT"@, decimal(ports.forward as nat)),
    ];
    if ui_only {
        ports_env.push(("ONLY_UI"@, "true"@))
    } else {
        ports_env
    }
}

/// Everything needed to start one child: program, arguments, environment
/// (name and value pairs, in order) and working directory.
pub struct LaunchPlan {
    pub program: String,
    pub args: Vec<String>,
    pub env: Vec<(String, String)>,
    pub working_dir: String,
}

impl LaunchPlan {
    /// The launch of the child for a cycle on `ports`, in `working_dir`,
    /// restricted to its UI when `ui_only` holds.
    pub fn new(working_dir: String, ports: PortPair, ui_only: bool) -> (r: LaunchPlan)
        ensures
            r.program@ == CHILD_PROGRAM@,
            r.args.deep_view() == seq!["run"@],
            r.env.deep_view() == child_env(ports, ui_only),
            r.working_dir@ == working_dir@,
    {
        let mut args: Vec<String> = Vec::new();
        args.push(String::from_str("run"));
        let mut env: Vec<(String, String)> = Vec::new();
        env.push((String::from_str("TX_PORT"), decimal_string(ports.back)));
        env.push((String::from_str("RX_PORT"), decimal_string(ports.forward)));
        if ui_only {
            env.push((String::from_str("ONLY_UI"), String::from_str("true")));
        }
        proof {
            assert(args.deep_view() =~= seq!["run"@]);
            assert(env.deep_view() =~= child_env(ports, ui_only));
        }
        LaunchPlan { program: String::from_str(CHILD_PROGRAM), args, env, working_dir }
    }
}

} // verus!
