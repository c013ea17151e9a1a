//! Calling the script's lifecycle hooks in an embedded Lua state.
//!
//! Each hook is looked up under the global `loom` table. The chunk that calls
//! it evaluates to `true` when the hook was there and ran, to `false` when the
//! script does not define it, and raises when the hook raises.
use crate::lifecycle::{Hook, HookOutcome};
use vstd::prelude::*;

verus! {

#[verifier::external_type_specification]
#[verifier::external_body]
pub struct ExLua(mlua::Lua);

#[verifier::external_type_specification]
#[verifier::external_body]
pub struct ExLuaError(mlua::Error);

/// The digit `d` as a character.
pub open spec fn digit_char(d: nat) -> char {
    if d == 0 {
        '0'
    } else if d == 1 {
        '1'
    } else if d == 2 {
        '2'
    } else if d == 3 {
        '3'
    } else if d == 4 {
        '4'
    } else if d == 5 {
        '5'
    } else if d == 6 {
        '6'
    } else if d == 7 {
        '7'
    } else if d == 8 {
        '8'
    } else {
        '9'
    }
}

/// `n` written in decimal, without leading zeros.
pub open spec fn decimal(n: nat) -> Seq<char>
    decreases n,
{
    if n < 10 {
        seq![digit_char(n)]
    } else {
        decimal(n / 10).push(digit_char(n % 10))
    }
}

/// The name under `loom` by which the script defines a hook.
pub open spec fn hook_name(h: Hook) -> Seq<char> {
    match h {
        Hook::Init => "init"@,
        Hook::Tick => "tick"@,
        Hook::Frame => "frame"@,
        Hook::Shutdown => "shutdown"@,
    }
}

/// The argument list of a hook call: the frame hook gets the delta in
/// seconds, as Lua's float division of the nanoseconds; the others nothing.
pub open spec fn hook_args(h: Hook, delta_nanos: nat) -> Seq<char> {
    match h {
        Hook::Frame => decimal(delta_nanos) + " / 1000000000"@,
        _ => Seq::empty(),
    }
}

/// The Lua chunk that calls a hook if the script defines it.
pub open spec fn hook_chunk(h: Hook, delta_nanos: nat) -> Seq<char> {
    "if loom and loom."@ + hook_name(h) + " then loom."@ + hook_name(h) + "("@ + hook_args(
        h,
        delta_nanos,
    ) + ") return true end return false"@
}

/// How a hook call's result reads: `true` means it ran, `false` that the
/// script lacks it, an error that it raised.
pub open spec fn outcome_spec(result: Result<bool, String>) -> HookOutcome {
    match result {
        Ok(true) => HookOutcome::Completed,
        Ok(false) => HookOutcome::Absent,
        Err(m) => HookOutcome::Failed(m),
    }
}

fn digit_text(d: u64) -> (r: &'static str)
    requires
        d < 10,
    ensures
        r@ == seq![digit_char(d as nat)],
{
    proof {
        reveal_strlit("0");
        reveal_strlit("1");
        reveal_strlit("2");
        reveal_strlit("3");
        reveal_strlit("4");
        reveal_strlit("5");
        reveal_strlit("6");
        reveal_strlit("7");
        reveal_strlit("8");
        reveal_strlit("9");
    }
    match d {
        0 => "0",
        1 => "1",
        2 => "2",
        3 => "3",
        4 => "4",
        5 => "5",
        6 => "6",
        7 => "7",
        8 => "8",
        _ => "9",
    }
}

/// Appends `n` in decimal.
pub fn push_decimal(out: &mut String, n: u64)
    ensures
        final(out)@ == old(out)@ + decimal(n as nat),
    decreases n,
{
    if n >= 10 {
        push_decimal(out, n / 10);
    }
    out.append(digit_text(n % 10));
    proof {
        if n >= 10 {
            assert(old(out)@ + decimal(n as nat) =~= old(out)@ + decimal((n / 10) as nat) + seq![
                digit_char((n % 10) as nat),
            ]);
        } else {
            assert(n % 10 == n);
        }
    }
}

fn hook_text(h: Hook) -> (r: &'static str)
    ensures
        r@ == hook_name(h),
{
    match h {
        Hook::Init => "init",
        Hook::Tick => "tick",
        Hook::Frame => "frame",
        Hook::Shutdown => "shutdown",
    }
}

/// The Lua chunk that calls `hook`, with `delta_nanos` as the frame hook's
/// argument.
pub fn hook_chunk_text(hook: Hook, delta_nanos: u64) -> (r: String)
    ensures
        r@ == hook_chunk(hook, delta_nanos as nat),
{
    let name = hook_text(hook);
    let mut code = String::from_str("if loom and loom.");
    code.append(name);
    code.append(" then loom.");
    code.append(name);
    code.append("(");
    let ghost before_args = code@;
    if hook == Hook::Frame {
        push_decimal(&mut code, delta_nanos);
        code.append(" / 1000000000");
    }
    assert(code@ =~= before_args + hook_args(hook, delta_nanos as nat));
    code.append(") return true end return false");
    code
}

/// Reads a hook call's result into its outcome.
pub fn outcome_of(result: Result<bool, String>) -> (r: HookOutcome)
    ensures
        r == outcome_spec(result),
{
    match result {
        Ok(true) => HookOutcome::Completed,
        Ok(false) => HookOutcome::Absent,
        Err(m) => HookOutcome::Failed(m),
    }
}

/// Relies on mlua's `Lua::load` and `Chunk::eval::<bool>`: runs `code` in
/// `lua` and reads its first result as a Lua truth value (`nil` and `false`
/// read as false). What comes back depends on the script loaded in `lua`, so
/// nothing is stated of it.
#[verifier::external_body]
fn eval_truth(lua: &mlua::Lua, code: &str) -> Result<bool, mlua::Error> {
    lua.load(code).eval::<bool>()
}

/// Relies on the `Display` impl of `mlua::Error` for its message.
#[verifier::external_body]
fn error_message(e: &mlua::Error) -> String {
    e.to_string()
}

/// Calls `hook` in `lua`, handing the frame hook `delta_nanos` as seconds.
/// An error the hook raises is caught and returned as `Failed` with its
/// message; a hook that the script lacks gives `Absent`.
pub fn call_hook(lua: &mlua::Lua, hook: Hook, delta_nanos: u64) -> HookOutcome {
    let code = hook_chunk_text(hook, delta_nanos);
    let result = match eval_truth(lua, code.as_str()) {
        Ok(b) => Ok(b),
        Err(e) => Err(error_message(&e)),
    };
    outcome_of(result)
}

} // verus!
