//! Small helpers shared by the front-end shells: the single-instance
//! decision, decimal rendering for error messages, the division of a
//! cancellable sleep into short steps, and the prefix of a NUL-terminated
//! UTF-16 buffer.

use vstd::prelude::*;
use vstd::string::*;

verus! {

/// Identifier of the global named mutex whose presence marks a live instance.
pub const APP_MUTEX_NAME: &'static str = "Global\\8e22f9ab-0f7f-4f01-8dc2-6047b74a2a99";

/// Length of one short slice of a cancellable sleep, in milliseconds.
pub const SLEEP_STEP_MS: u64 = 10;

/// Decides whether this process may run, from the outcome of creating the
/// single-instance mutex: `created` says a valid handle came back,
/// `already_exists` that another process holds the mutex already.
pub fn check_instance(created: bool, already_exists: bool) -> (r: Result<(), String>)
    ensures
        r is Ok <==> created && !already_exists,
        r is Err ==> r->Err_0@ == "Already running."@,
{
    if created && !already_exists {
        Ok(())
    } else {
        Err(String::from_str("Already running."))
    }
}

/// The character for one decimal digit.
pub open spec fn dec_digit(d: nat) -> char
    recommends
        d < 10,
{
    if d == 0 {
        '0'
    } else if d == 1 {
        '1'
    } else if d == 2 {
        '2'
    } else if d == 3 {
        '3'
    } else if d == 4 {
        '4'
    } else if d == 5 {
        '5'
    } else if d == 6 {
        '6'
    } else if d == 7 {
        '7'
    } else if d == 8 {
        '8'
    } else {
        '9'
    }
}

/// The decimal rendering of a number, most significant digit first,
/// without leading zeros (a single zero for zero itself).
pub open spec fn dec_seq(n: nat) -> Seq<char>
    decreases n,
{
    if n < 10 {
        seq![dec_digit(n)]
    } else {
        dec_seq(n / 10).push(dec_digit(n % 10))
    }
}

fn dec_digit_str(d: u32) -> (r: &'static str)
    requires
        d < 10,
    ensures
        r@.len() == 1,
        r@[0] == dec_digit(d as nat),
{
    proof {
        reveal_strlit("0");
        reveal_strlit("1");
        reveal_strlit("2");
        reveal_strlit("3");
        reveal_strlit("4");
        reveal_strlit("5");
        reveal_strlit("6");
        reveal_strlit("7");
        reveal_strlit("8");
        reveal_strlit("9");
    }
    match d {
        0 => "0",
        1 => "1",
        2 => "2",
        3 => "3",
        4 => "4",
        5 => "5",
        6 => "6",
        7 => "7",
        8 => "8",
        _ => "9",
    }
}

/// Renders a number in decimal.
pub fn dec_u32(n: u32) -> (s: String)
    ensures
        s@ == dec_seq(n as nat),
    decreases n,
{
    if n < 10 {
        let s = String::from_str(dec_digit_str(n));
        proof {
            assert(s@ =~= dec_seq(n as nat));
        }
        s
    } else {
        let mut s = dec_u32(n / 10);
        s.append(dec_digit_str(n % 10));
        proof {
            assert(s@ =~= dec_seq(n as nat));
        }
        s
    }
}

/// How a cancellable sleep divides a duration into short slices: the number
/// of full [`SLEEP_STEP_MS`] steps and the length of the final partial step.
pub fn sleep_plan(duration_ms: u64) -> (r: (u64, u64))
    ensures
        r.0 == duration_ms / SLEEP_STEP_MS,
        r.1 == duration_ms % SLEEP_STEP_MS,
        r.0 * SLEEP_STEP_MS + r.1 == duration_ms,
        r.1 < SLEEP_STEP_MS,
{
    (duration_ms / SLEEP_STEP_MS, duration_ms % SLEEP_STEP_MS)
}

/// Index of the first NUL in a UTF-16 buffer, or the buffer's length when
/// none occurs: the prefix a NUL-terminated decode reads.
pub fn utf16_nul_index(s: &[u16]) -> (i: usize)
    ensures
        i <= s@.len(),
        forall|j: int| 0 <= j < i ==> s@[j] != 0,
        i < s@.len() ==> s@[i as int] == 0,
{
    let mut i: usize = 0;
    while i < s.len()
        invariant
            i <= s@.len(),
            forall|j: int| 0 <= j < i ==> s@[j] != 0,
        decreases s@.len() - i,
    {
        if s[i] == 0 {
            return i;
        }
        i = i + 1;
    }
    i
}

} // verus!
