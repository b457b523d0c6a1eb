use vstd::prelude::*;

use crate::number::{
    int_decimal, is_float_literal, is_float_literal_str, nat_decimal, parse_i32, parse_i32_spec,
    push_i32_decimal, push_nat_decimal,
};
use crate::text::{lemma_words_nonempty_entries, split_whitespace, str_eq, str_views, words};

verus! {

/// The command word of `input`: its first word, or the empty string when it has none.
pub open spec fn command_word(input: Seq<char>) -> Seq<char> {
    if words(input).len() == 0 {
        Seq::empty()
    } else {
        words(input)[0]
    }
}

/// The arguments of `input`: its words after the first.
pub open spec fn command_args(input: Seq<char>) -> Seq<Seq<char>> {
    if words(input).len() == 0 {
        Seq::empty()
    } else {
        words(input).drop_first()
    }
}

/// Splits a command line into its command word and its arguments, at whitespace.
pub fn tokenize<'a>(input: &'a str) -> (r: (&'a str, Vec<&'a str>))
    ensures
        r.0@ == command_word(input@),
        str_views(r.1@) == command_args(input@),
{
    let mut tokens = split_whitespace(input);
    if tokens.len() == 0 {
        proof {
            reveal_strlit("");
        }
        ("", tokens)
    } else {
        let ghost before = tokens@;
        let cmd = tokens.remove(0);
        assert(str_views(tokens@) =~= str_views(before).drop_first());
        (cmd, tokens)
    }
}

/// Whether `s` is a number, in the sense of `f64::from_str` accepting it.
pub fn is_number(s: &str) -> (r: bool)
    ensures
        r == is_float_literal(s@),
{
    is_float_literal_str(s)
}

/// What a chat command asks for.
pub enum Command<'a> {
    /// The input holds no word: the bot asks for a command.
    Empty,
    /// `goto`, with its arguments.
    Goto(Vec<&'a str>),
    /// `stop`, with its arguments, which it ignores.
    Stop(Vec<&'a str>),
    /// Any other command word.
    Unknown(&'a str),
}

/// Reads a command line (the chat message after its `!`): an input of
/// whitespace only is `Empty`; otherwise its first word picks the command and
/// the other words are the arguments.
pub fn parse_command<'a>(input: &'a str) -> (r: Command<'a>)
    ensures
        r is Empty <==> words(input@).len() == 0,
        r matches Command::Goto(args) ==> command_word(input@) == "goto"@ && str_views(args@)
            == command_args(input@),
        r matches Command::Stop(args) ==> command_word(input@) == "stop"@ && str_views(args@)
            == command_args(input@),
        r matches Command::Unknown(c) ==> c@ == command_word(input@) && c@ != "goto"@ && c@
            != "stop"@,
        words(input@).len() > 0 && command_word(input@) == "goto"@ ==> r is Goto,
        words(input@).len() > 0 && command_word(input@) == "stop"@ ==> r is Stop,
{
    let (cmd, args) = tokenize(input);
    if args.len() == 0 && cmd.unicode_len() == 0 {
        proof {
            if words(input@).len() > 0 {
                lemma_words_nonempty_entries(input@, 0);
            }
        }
        return Command::Empty;
    }
    proof {
        reveal_strlit("goto");
        reveal_strlit("stop");
        assert(str_views(args@).len() == args@.len());
        assert("goto"@[0] != "stop"@[0]);
    }
    assert(words(input@).len() > 0);
    if str_eq(cmd, "goto") {
        Command::Goto(args)
    } else if str_eq(cmd, "stop") {
        Command::Stop(args)
    } else {
        Command::Unknown(cmd)
    }
}

} // verus!

verus! {

/// The place that `goto` heads for.
pub enum GotoTarget<'a> {
    /// The player who sent the command.
    Sender,
    /// The player of this name.
    Player(&'a str),
    /// The height `y`.
    Y(i32),
    /// The column at `x`, `z`.
    XZ(i32, i32),
    /// The block at `x`, `y`, `z`.
    Block(i32, i32, i32),
    /// None: the arguments do not fit any form, and the usage is shown.
    Usage,
}

/// The arguments of `goto` on which it does not fail: wherever the arguments
/// are all numbers and so are read as coordinates, each must be an integer
/// that fits in an `i32`.
pub open spec fn goto_numbers_fit(a: Seq<Seq<char>>) -> bool {
    &&& a.len() == 1 && is_float_literal(a[0]) ==> parse_i32_spec(a[0]) is Some
    &&& a.len() == 2 && is_float_literal(a[0]) && is_float_literal(a[1]) ==> parse_i32_spec(a[0]) is Some
        && parse_i32_spec(a[1]) is Some
    &&& a.len() == 3 && is_float_literal(a[0]) && is_float_literal(a[1]) && is_float_literal(a[2])
        ==> parse_i32_spec(a[0]) is Some && parse_i32_spec(a[1]) is Some && parse_i32_spec(a[2]) is Some
}

/// Whether the arguments of `goto` are ones it accepts without failing, as
/// `goto_numbers_fit` says.
pub fn goto_args_fit(args: &Vec<&str>) -> (r: bool)
    ensures
        r == goto_numbers_fit(str_views(args@)),
{
    let ghost a = str_views(args@);
    let n = args.len();
    if n == 0 || n > 3 {
        return true;
    }
    let mut all_numbers = true;
    let mut all_fit = true;
    let mut i: usize = 0;
    while i < n
        invariant
            n == args@.len(),
            1 <= n <= 3,
            a == str_views(args@),
            i <= n,
            all_numbers == forall|k: int| 0 <= k < i ==> is_float_literal(#[trigger] a[k]),
            all_fit == forall|k: int| 0 <= k < i ==> parse_i32_spec(#[trigger] a[k]) is Some,
        decreases n - i,
    {
        assert(a[i as int] == args@[i as int]@);
        if !is_number(args[i]) {
            all_numbers = false;
        }
        if parse_i32(args[i]).is_none() {
            all_fit = false;
        }
        i = i + 1;
    }
    !all_numbers || all_fit
}

/// Reads the arguments of `goto`: none is the sender; one that is not a number
/// is a player's name; one, two or three numbers are `y`, `x z` or `x y z`;
/// anything else is `Usage`.
pub fn parse_goto_args<'a>(args: &Vec<&'a str>) -> (r: GotoTarget<'a>)
    requires
        goto_numbers_fit(str_views(args@)),
    ensures
        ({
            let a = str_views(args@);
            &&& r is Sender <==> a.len() == 0
            &&& a.len() == 1 && !is_float_literal(a[0]) ==> (r matches GotoTarget::Player(p) && p@ == a[0])
            &&& a.len() == 1 && is_float_literal(a[0]) ==> r == GotoTarget::Y(parse_i32_spec(a[0])->0)
            &&& a.len() == 2 && is_float_literal(a[0]) && is_float_literal(a[1]) ==> r == GotoTarget::XZ(
                parse_i32_spec(a[0])->0,
                parse_i32_spec(a[1])->0,
            )
            &&& a.len() == 3 && is_float_literal(a[0]) && is_float_literal(a[1]) && is_float_literal(a[2])
                ==> r == GotoTarget::Block(
                parse_i32_spec(a[0])->0,
                parse_i32_spec(a[1])->0,
                parse_i32_spec(a[2])->0,
            )
            &&& r is Usage <==> (a.len() == 2 && !(is_float_literal(a[0]) && is_float_literal(a[1])))
                || (a.len() == 3 && !(is_float_literal(a[0]) && is_float_literal(a[1])
                && is_float_literal(a[2]))) || a.len() > 3
        }),
{
    let ghost a = str_views(args@);
    let n = args.len();
    if n == 0 {
        return GotoTarget::Sender;
    }
    assert(a[0] == args@[0]@);
    if n == 1 {
        if !is_number(args[0]) {
            return GotoTarget::Player(args[0]);
        }
        match parse_i32(args[0]) {
            Some(y) => return GotoTarget::Y(y),
            None => return GotoTarget::Usage,
        }
    }
    assert(a[1] == args@[1]@);
    if n == 2 {
        if is_number(args[0]) && is_number(args[1]) {
            match (parse_i32(args[0]), parse_i32(args[1])) {
                (Some(x), Some(z)) => return GotoTarget::XZ(x, z),
                _ => return GotoTarget::Usage,
            }
        }
        return GotoTarget::Usage;
    }
    if n == 3 {
        assert(a[2] == args@[2]@);
        if is_number(args[0]) && is_number(args[1]) && is_number(args[2]) {
            match (parse_i32(args[0]), parse_i32(args[1]), parse_i32(args[2])) {
                (Some(x), Some(y), Some(z)) => return GotoTarget::Block(x, y, z),
                _ => return GotoTarget::Usage,
            }
        }
    }
    GotoTarget::Usage
}

/// The player whom `pvp` attacks.
pub enum PvpTarget<'a> {
    /// The player who sent the command.
    Sender,
    /// The player of this name.
    Player(&'a str),
    /// None: more than one argument, and the usage is shown.
    Usage,
}

/// Reads the arguments of `pvp`: none is the sender, one is a player's name,
/// more is `Usage`.
pub fn parse_pvp_args<'a>(args: &Vec<&'a str>) -> (r: PvpTarget<'a>)
    ensures
        r is Sender <==> args@.len() == 0,
        r matches PvpTarget::Player(p) ==> args@.len() == 1 && p == args@[0],
        args@.len() == 1 ==> r == PvpTarget::Player(args@[0]),
        r is Usage <==> args@.len() > 1,
{
    match args.len() {
        0 => PvpTarget::Sender,
        1 => PvpTarget::Player(args[0]),
        _ => PvpTarget::Usage,
    }
}

/// The command in a chat message, if the bot is to run one: the message has a
/// known sender, the sender is the owner when there is one, and the content
/// starts with `!`, which is cut off.
pub fn chat_command<'a>(sender: Option<&str>, content: &'a str, owner: Option<&str>) -> (r: Option<
    &'a str,
>)
    ensures
        r is Some <==> (sender is Some && (owner is Some ==> sender->0@ == owner->0@)
            && content@.len() > 0 && content@[0] == '!'),
        r matches Some(c) ==> c@ == content@.skip(1),
{
    let username = match sender {
        Some(u) => u,
        None => return None,
    };
    if let Some(o) = owner {
        if !str_eq(username, o) {
            return None;
        }
    }
    let n = content.unicode_len();
    if n == 0 || content.get_char(0) != '!' {
        return None;
    }
    let rest = content.substring_char(1, n);
    assert(rest@ =~= content@.skip(1));
    Some(rest)
}

} // verus!

verus! {

/// The reply to an input with no command.
pub const EMPTY_COMMAND_REPLY: &'static str = "Please enter a command";

/// The reply when the sender of a command cannot be found among the entities.
pub const NO_SENDER_REPLY: &'static str = "Couldn't determine sender";

/// The reply to `goto` arguments of no known form.
pub const GOTO_USAGE_REPLY: &'static str = "expected: !goto <player> | !goto <x> <z> | !goto <x> <y> <z>";

/// The reply to `pvp` arguments of no known form.
pub const PVP_USAGE_REPLY: &'static str = "expected: !pvp <player>";

/// The reply when the bot attacks the sender.
pub const ATTACKING_SENDER_REPLY: &'static str = "Attacking you";

/// The reply to `stop`.
pub const STOP_REPLY: &'static str = "Stopping";

/// `Unknown command: {cmd}`.
pub fn unknown_command_reply(cmd: &str) -> (r: String)
    ensures
        r@ == "Unknown command: "@ + cmd@,
{
    let mut s = String::from_str("Unknown command: ");
    s.append(cmd);
    s
}

/// `Player {name} not found`.
pub fn player_not_found_reply(name: &str) -> (r: String)
    ensures
        r@ == "Player "@ + name@ + " not found"@,
{
    let mut s = String::from_str("Player ");
    s.append(name);
    s.append(" not found");
    s
}

/// `Attacking {name}`.
pub fn attacking_player_reply(name: &str) -> (r: String)
    ensures
        r@ == "Attacking "@ + name@,
{
    let mut s = String::from_str("Attacking ");
    s.append(name);
    s
}

/// `Going to your position: x={x} y={y} y={z}` (the last label reads `y`,
/// as the bot writes it).
pub fn goto_sender_reply(x: i32, y: i32, z: i32) -> (r: String)
    ensures
        r@ == "Going to your position: x="@ + int_decimal(x as int) + " y="@ + int_decimal(y as int)
            + " y="@ + int_decimal(z as int),
{
    let mut s = String::from_str("Going to your position: x=");
    push_i32_decimal(&mut s, x);
    s.append(" y=");
    push_i32_decimal(&mut s, y);
    s.append(" y=");
    push_i32_decimal(&mut s, z);
    s
}

/// `Going to {name}'s position: x={x} y={y} z={z}`.
pub fn goto_player_reply(name: &str, x: i32, y: i32, z: i32) -> (r: String)
    ensures
        r@ == "Going to "@ + name@ + "'s position: x="@ + int_decimal(x as int) + " y="@
            + int_decimal(y as int) + " z="@ + int_decimal(z as int),
{
    let mut s = String::from_str("Going to ");
    s.append(name);
    s.append("'s position: x=");
    push_i32_decimal(&mut s, x);
    s.append(" y=");
    push_i32_decimal(&mut s, y);
    s.append(" z=");
    push_i32_decimal(&mut s, z);
    s
}

/// `true` or `false`, as `Display` writes a `bool`.
pub open spec fn bool_text(b: bool) -> Seq<char> {
    if b {
        "true"@
    } else {
        "false"@
    }
}

/// `is_path_partial: {partial}, path.len: {path_len}, queued_path.len: {queued}`,
/// where `queued` is the length of the queued path, or `n/a` when there is none.
pub fn pathfinder_state_reply(partial: bool, path_len: usize, queued_len: Option<usize>) -> (r:
    String)
    ensures
        r@ == "is_path_partial: "@ + bool_text(partial) + ", path.len: "@ + nat_decimal(
            path_len as nat,
        ) + ", queued_path.len: "@ + match queued_len {
            Some(q) => nat_decimal(q as nat),
            None => "n/a"@,
        },
{
    let mut s = String::from_str("is_path_partial: ");
    if partial {
        s.append("true");
    } else {
        s.append("false");
    }
    s.append(", path.len: ");
    push_nat_decimal(&mut s, path_len as u64);
    s.append(", queued_path.len: ");
    match queued_len {
        Some(q) => push_nat_decimal(&mut s, q as u64),
        None => s.append("n/a"),
    }
    s
}

/// `Going to y={y}`.
pub fn goto_y_reply(y: i32) -> (r: String)
    ensures
        r@ == "Going to y="@ + int_decimal(y as int),
{
    let mut s = String::from_str("Going to y=");
    push_i32_decimal(&mut s, y);
    s
}

/// `Going to x={x} z={z}`.
pub fn goto_xz_reply(x: i32, z: i32) -> (r: String)
    ensures
        r@ == "Going to x="@ + int_decimal(x as int) + " z="@ + int_decimal(z as int),
{
    let mut s = String::from_str("Going to x=");
    push_i32_decimal(&mut s, x);
    s.append(" z=");
    push_i32_decimal(&mut s, z);
    s
}

/// `Going to x={x} y={y} z={z}`.
pub fn goto_block_reply(x: i32, y: i32, z: i32) -> (r: String)
    ensures
        r@ == "Going to x="@ + int_decimal(x as int) + " y="@ + int_decimal(y as int) + " z="@
            + int_decimal(z as int),
{
    let mut s = String::from_str("Going to x=");
    push_i32_decimal(&mut s, x);
    s.append(" y=");
    push_i32_decimal(&mut s, y);
    s.append(" z=");
    push_i32_decimal(&mut s, z);
    s
}

} // verus!
