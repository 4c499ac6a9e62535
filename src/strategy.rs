//! The ordered fallback strategies of the frame-extraction tool. Each one is
//! a fixed argument list that differs in whether the probe and analyse limits
//! are raised and in where, if at all, the seek offset stands relative to the
//! input.

use vstd::prelude::*;

verus! {

/// How many strategies are tried, in order, before a request gives up.
pub const STRATEGY_COUNT: usize = 4;

/// The views of a sequence of strings.
pub open spec fn views(v: Seq<String>) -> Seq<Seq<char>> {
    v.map_values(|s: String| s@)
}

/// The arguments that every strategy ends with: one frame, scaled to a width
/// of 320, high JPEG quality, overwriting `destination`.
pub open spec fn output_args(destination: Seq<char>) -> Seq<Seq<char>> {
    seq![
        "-vframes"@,
        "1"@,
        "-vf"@,
        "scale=320:-1"@,
        "-q:v"@,
        "2"@,
        "-y"@,
        destination,
    ]
}

/// The arguments of strategy `k` (counted from 0) for reading `source` and
/// writing `destination`:
/// - 0: input first, then a seek of 100 ms;
/// - 1: raised probe and analyse limits, input, then a seek of 100 ms;
/// - 2: a seek of 0.1 s before the input, raised limits;
/// - 3: raised limits, no seek at all.
pub open spec fn strategy_args_of(k: int, source: Seq<char>, destination: Seq<char>) -> Seq<
    Seq<char>,
> {
    let head = if k == 0 {
        seq!["-i"@, source, "-ss"@, "00:00:00.100"@]
    } else if k == 1 {
        seq![
            "-analyzeduration"@,
            "100M"@,
            "-probesize"@,
            "100M"@,
            "-i"@,
            source,
            "-ss"@,
            "00:00:00.100"@,
        ]
    } else if k == 2 {
        seq![
            "-ss"@,
            "0.1"@,
            "-analyzeduration"@,
            "100M"@,
            "-probesize"@,
            "100M"@,
            "-i"@,
            source,
        ]
    } else {
        seq!["-analyzeduration"@, "100M"@, "-probesize"@, "100M"@, "-i"@, source]
    };
    head + output_args(destination)
}

fn push_arg(args: &mut Vec<String>, a: &str)
    ensures
        views(final(args)@) == views(old(args)@).push(a@),
{
    args.push(String::from_str(a));
    assert(views(final(args)@) =~= views(old(args)@).push(a@));
}

/// The argument list of strategy `strategy` (counted from 0).
pub fn strategy_args(strategy: usize, source: &str, destination: &str) -> (r: Vec<String>)
    requires
        strategy < STRATEGY_COUNT,
    ensures
        views(r@) == strategy_args_of(strategy as int, source@, destination@),
{
    let mut args: Vec<String> = Vec::new();
    assert(views(args@) =~= Seq::<Seq<char>>::empty());
    if strategy == 2 {
        push_arg(&mut args, "-ss");
        push_arg(&mut args, "0.1");
    }
    if strategy != 0 {
        push_arg(&mut args, "-analyzeduration");
        push_arg(&mut args, "100M");
        push_arg(&mut args, "-probesize");
        push_arg(&mut args, "100M");
    }
    push_arg(&mut args, "-i");
    push_arg(&mut args, source);
    if strategy < 2 {
        push_arg(&mut args, "-ss");
        push_arg(&mut args, "00:00:00.100");
    }
    push_arg(&mut args, "-vframes");
    push_arg(&mut args, "1");
    push_arg(&mut args, "-vf");
    push_arg(&mut args, "scale=320:-1");
    push_arg(&mut args, "-q:v");
    push_arg(&mut args, "2");
    push_arg(&mut args, "-y");
    push_arg(&mut args, destination);
    assert(views(args@) =~= strategy_args_of(strategy as int, source@, destination@));
    args
}

} // verus!
