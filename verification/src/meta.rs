use vstd::prelude::*;

use crate::text::{contains_seq, lemma_contains_inside, str_contains};

verus! {

/// The log filter for a verbosity: `-2` and below logs errors only, each step
/// up logs more, and `4` and above logs everything.
pub open spec fn rust_log_spec(verbosity: i8) -> Seq<char> {
    if verbosity <= -2 {
        "error,lickbot2=error"@
    } else if verbosity == -1 {
        "warn,lickbot2=warn"@
    } else if verbosity == 0 {
        "warn,lickbot2=info"@
    } else if verbosity == 1 {
        "warn,lickbot2=debug"@
    } else if verbosity == 2 {
        "info,lickbot2=trace"@
    } else if verbosity == 3 {
        "debug,lickbot2=trace"@
    } else {
        "trace,lickbot2=trace"@
    }
}

/// The log filter for a verbosity, as `rust_log_spec` says.
pub fn get_rust_log(verbosity: i8) -> (r: &'static str)
    ensures
        r@ == rust_log_spec(verbosity),
{
    if verbosity <= -2 {
        "error,lickbot2=error"
    } else if verbosity == -1 {
        "warn,lickbot2=warn"
    } else if verbosity == 0 {
        "warn,lickbot2=info"
    } else if verbosity == 1 {
        "warn,lickbot2=debug"
    } else if verbosity == 2 {
        "info,lickbot2=trace"
    } else if verbosity == 3 {
        "debug,lickbot2=trace"
    } else {
        "trace,lickbot2=trace"
    }
}

/// Server chat that the bot does not echo: the replies to its own particle commands.
pub open spec fn is_suppressed_chat_spec(message: Seq<char>) -> bool {
    contains_seq(message, "The particle was not visible for anybody"@) || contains_seq(
        message,
        "Displaying particle minecraft:dust"@,
    )
}

/// Whether a chat message of the server is one that the bot does not echo.
pub fn is_suppressed_chat(message: &str) -> (r: bool)
    ensures
        r == is_suppressed_chat_spec(message@),
{
    str_contains(message, "The particle was not visible for anybody") || str_contains(
        message,
        "Displaying particle minecraft:dust",
    )
}

/// The build's details that the version texts show.
pub struct BuildInfo<'a> {
    pub name: &'a str,
    pub version: &'a str,
    pub commit: &'a str,
    pub clean: bool,
    pub branch: &'a str,
    pub time: &'a str,
    pub rust: &'a str,
}

/// `+` for a build from a tree with changes not committed, else nothing.
pub open spec fn dirty_mark(clean: bool) -> Seq<char> {
    if clean {
        Seq::empty()
    } else {
        "+"@
    }
}

/// `{name} v{version}`.
pub fn short_version(info: &BuildInfo) -> (r: String)
    ensures
        r@ == info.name@ + " v"@ + info.version@,
{
    let mut s = String::from_str(info.name);
    s.append(" v");
    s.append(info.version);
    s
}

fn push_dirty_mark(s: &mut String, clean: bool)
    ensures
        final(s)@ == old(s)@ + dirty_mark(clean),
{
    if !clean {
        s.append("+");
    } else {
        proof {
            assert(old(s)@ + Seq::<char>::empty() =~= old(s)@);
        }
    }
}

/// `{name} v{version} ({commit}{dirty} on {branch} @ {time} with {rust})`.
pub fn single_line_version(info: &BuildInfo) -> (r: String)
    ensures
        r@ == info.name@ + " v"@ + info.version@ + " ("@ + info.commit@ + dirty_mark(info.clean)
            + " on "@ + info.branch@ + " @ "@ + info.time@ + " with "@ + info.rust@ + ")"@,
{
    let mut s = String::from_str(info.name);
    s.append(" v");
    s.append(info.version);
    s.append(" (");
    s.append(info.commit);
    push_dirty_mark(&mut s, info.clean);
    s.append(" on ");
    s.append(info.branch);
    s.append(" @ ");
    s.append(info.time);
    s.append(" with ");
    s.append(info.rust);
    s.append(")");
    s
}

/// The version text of the command line help:
/// `v{version}\n\n{commit}{dirty} on {branch},\ncompiled @ {time}\nwith {rust}`.
pub fn version_clap(info: &BuildInfo) -> (r: String)
    ensures
        r@ == "v"@ + info.version@ + "\n\n"@ + info.commit@ + dirty_mark(info.clean) + " on "@
            + info.branch@ + ",\ncompiled @ "@ + info.time@ + "\nwith "@ + info.rust@,
{
    let mut s = String::from_str("v");
    s.append(info.version);
    s.append("\n\n");
    s.append(info.commit);
    push_dirty_mark(&mut s, info.clean);
    s.append(" on ");
    s.append(info.branch);
    s.append(",\ncompiled @ ");
    s.append(info.time);
    s.append("\nwith ");
    s.append(info.rust);
    s
}

} // verus!

verus! {

/// Server chat is not echoed whenever either particle reply stands anywhere in
/// it, with any text before or after.
pub proof fn lemma_suppressed_anywhere(a: Seq<char>, b: Seq<char>)
    ensures
        is_suppressed_chat_spec(a + "The particle was not visible for anybody"@ + b),
        is_suppressed_chat_spec(a + "Displaying particle minecraft:dust"@ + b),
{
    lemma_contains_inside(a, "The particle was not visible for anybody"@, b);
    lemma_contains_inside(a, "Displaying particle minecraft:dust"@, b);
}

} // verus!
