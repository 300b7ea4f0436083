use vstd::prelude::*;

verus! {

pub open spec fn digit_char(d: nat) -> char {
    if d == 0 {
        '0'
    } else if d == 1 {
        '1'
    } else if d == 2 {
        '2'
    } else if d == 3 {
        '3'
    } else if d == 4 {
        '4'
    } else if d == 5 {
        '5'
    } else if d == 6 {
        '6'
    } else if d == 7 {
        '7'
    } else if d == 8 {
        '8'
    } else {
        '9'
    }
}

/// The decimal digits of `n`, without leading zeros.
pub open spec fn decimal(n: nat) -> Seq<char>
    decreases n,
{
    if n < 10 {
        seq![digit_char(n)]
    } else {
        decimal(n / 10).push(digit_char(n % 10))
    }
}

fn digit_str(d: u32) -> (r: &'static str)
    requires
        d < 10,
    ensures
        r@ == seq![digit_char(d as nat)],
{
    proof {
        reveal_strlit("0");
        reveal_strlit("1");
        reveal_strlit("2");
        reveal_strlit("3");
        reveal_strlit("4");
        reveal_strlit("5");
        reveal_strlit("6");
        reveal_strlit("7");
        reveal_strlit("8");
        reveal_strlit("9");
    }
    let r = if d == 0 {
        "0"
    } else if d == 1 {
        "1"
    } else if d == 2 {
        "2"
    } else if d == 3 {
        "3"
    } else if d == 4 {
        "4"
    } else if d == 5 {
        "5"
    } else if d == 6 {
        "6"
    } else if d == 7 {
        "7"
    } else if d == 8 {
        "8"
    } else {
        "9"
    };
    assert(r@ =~= seq![digit_char(d as nat)]);
    r
}

/// `n` in decimal.
pub fn decimal_string(n: u32) -> (r: String)
    ensures
        r@ == decimal(n as nat),
    decreases n,
{
    if n < 10 {
        String::from_str(digit_str(n))
    } else {
        let mut s = decimal_string(n / 10);
        s.append(digit_str(n % 10));
        s
    }
}

/// One line of a `uid_map` or `gid_map` file: `inside outside 1`, mapping a
/// single id.
pub open spec fn id_map_spec(inside: u32, outside: u32) -> Seq<char> {
    decimal(inside as nat) + " "@ + decimal(outside as nat) + " 1\n"@
}

/// The map line that makes `outside` appear as `inside` in the user
/// namespace.
pub fn id_map_line(inside: u32, outside: u32) -> (r: String)
    ensures
        r@ == id_map_spec(inside, outside),
{
    let mut r = decimal_string(inside);
    r.append(" ");
    let o = decimal_string(outside);
    r.append(o.as_str());
    r.append(" 1\n");
    r
}

/// What the supervisor does while it waits for the child's output.
#[derive(Debug, Clone, Copy, PartialEq, Eq, Structural)]
pub enum WaitAction {
    /// Wait for output, at most this many milliseconds (`None`: no bound).
    Poll(Option<u64>),
    /// The deadline has passed: kill the child.
    Kill,
}

/// The supervisor's decision after `elapsed_ms` of a run with the given
/// deadline: kill once the deadline is reached, else wait no longer than
/// what is left of it.
pub fn deadline_step(elapsed_ms: u64, deadline_ms: Option<u64>) -> (r: WaitAction)
    ensures
        deadline_ms is None ==> r == WaitAction::Poll(None),
        deadline_ms is Some && elapsed_ms >= deadline_ms->0 ==> r == WaitAction::Kill,
        deadline_ms is Some && elapsed_ms < deadline_ms->0 ==> r == WaitAction::Poll(
            Some((deadline_ms->0 - elapsed_ms) as u64),
        ),
{
    match deadline_ms {
        None => WaitAction::Poll(None),
        Some(d) => if elapsed_ms >= d {
            WaitAction::Kill
        } else {
            WaitAction::Poll(Some(d - elapsed_ms))
        },
    }
}

} // verus!
