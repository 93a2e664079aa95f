//! Package-option utilities: the named-address map grammar, directory
//! defaulting, bytecode-version resolution, and the entry points that wrap
//! a typed command outcome into the common envelope.

use vstd::prelude::*;
use crate::cli_error::CliError;
use crate::json::{hex_char_of, hex_char_of_exec, json_string};
use crate::result::{render_failure, spec_render_result, CliPayload, CliResult, CliTypedResult,
    ResultWrapper};
use crate::text::{chars_to_string, split_chars, split_on, str_chars, trim, trim_chars};

verus! {

/// Error message for parsing a map.
pub open spec fn parse_map_syntax_msg() -> Seq<char> {
    "Invalid syntax for map. Example: Name=Value,Name2=Value"@
}

/// The `=`-separated parts of one pair, with Rust's terminator semantics:
/// one trailing empty part is dropped.
pub open spec fn eq_parts(p: Seq<char>) -> Seq<Seq<char>> {
    let w = split_on(p, '=');
    if w.last().len() == 0 {
        w.drop_last()
    } else {
        w
    }
}

/// Whether one `name=value` pair is well formed: exactly two parts, both
/// non-empty once trimmed.
pub open spec fn pair_ok(p: Seq<char>) -> bool {
    let w = eq_parts(p);
    w.len() == 2 && trim(w[0]).len() > 0 && trim(w[1]).len() > 0
}

/// The trimmed (name, value) of a well-formed pair.
pub open spec fn pair_of(p: Seq<char>) -> (Seq<char>, Seq<char>) {
    let w = eq_parts(p);
    (trim(w[0]), trim(w[1]))
}

/// Whether a whole inline map is well formed: empty, or every
/// comma-separated pair well formed.
pub open spec fn map_syntax_ok(s: Seq<char>) -> bool {
    s.len() == 0 || forall|i: int|
        0 <= i < split_on(s, ',').len() ==> pair_ok(#[trigger] split_on(s, ',')[i])
}

/// The parsed pairs of a well-formed inline map, in textual order.
pub open spec fn map_pairs(s: Seq<char>) -> Seq<(Seq<char>, Seq<char>)> {
    if s.len() == 0 {
        Seq::<(Seq<char>, Seq<char>)>::empty()
    } else {
        split_on(s, ',').map_values(|p: Seq<char>| pair_of(p))
    }
}

/// Parses an inline map of values.
///
/// Example: `Name=Value,Name2=Value`. The empty string is valid and
/// yields no pairs. Parsing is all-or-nothing: one malformed pair rejects
/// the whole input with the fixed syntax message.
pub fn parse_map(s: &str) -> (r: Result<Vec<(String, String)>, CliError>)
    ensures
        r is Ok <==> map_syntax_ok(s@),
        r is Ok ==> r->Ok_0@.len() == map_pairs(s@).len(),
        r is Ok ==> forall|i: int|
            0 <= i < map_pairs(s@).len() ==> (#[trigger] r->Ok_0@[i]).0@ == map_pairs(s@)[i].0
                && r->Ok_0@[i].1@ == map_pairs(s@)[i].1,
        r is Err ==> r->Err_0 is CommandArgumentError && r->Err_0.spec_message()
            == parse_map_syntax_msg(),
{
    let chars = str_chars(s);
    if chars.len() == 0 {
        return Ok(Vec::new());
    }
    let pieces = split_chars(&chars, ',');
    let ghost pv = split_on(s@, ',');
    let mut out: Vec<(String, String)> = Vec::new();
    let mut i: usize = 0;
    while i < pieces.len()
        invariant
            0 <= i <= pieces@.len(),
            s@ == chars@,
            s@.len() > 0,
            pieces.deep_view() == pv,
            pv == split_on(s@, ','),
            out@.len() == i,
            forall|k: int| 0 <= k < i ==> pair_ok(#[trigger] pv[k]),
            forall|k: int|
                0 <= k < i ==> (#[trigger] out@[k]).0@ == pair_of(pv[k]).0 && out@[k].1@ == pair_of(
                    pv[k],
                ).1,
        decreases pieces@.len() - i,
    {
        let parts = split_chars(&pieces[i], '=');
        let ghost w = split_on(pv[i as int], '=');
        proof {
            crate::text::lemma_char_vec_deep_view(pieces@);
            assert(pv[i as int] == pieces@[i as int]@);
            crate::text::lemma_split_nonempty(pv[i as int], '=');
            assert(parts.deep_view() == w);
            crate::text::lemma_char_vec_deep_view(parts@);
            assert(parts@.len() == w.len());
        }
        let n = parts.len();
        let eq_len: usize = if parts[n - 1].len() == 0 {
            n - 1
        } else {
            n
        };
        proof {
            assert(eq_parts(pv[i as int]).len() == eq_len);
        }
        if eq_len != 2 {
            proof {
                assert(!pair_ok(pv[i as int]));
                assert(!map_syntax_ok(s@));
            }
            return Err(CliError::CommandArgumentError(
                "Invalid syntax for map. Example: Name=Value,Name2=Value".to_owned(),
            ));
        }
        let first = trim_chars(&parts[0]);
        let second = trim_chars(&parts[1]);
        proof {
            assert(eq_parts(pv[i as int])[0] == w[0]);
            assert(eq_parts(pv[i as int])[1] == w[1]);
            assert(w[0] == parts@[0]@);
            assert(w[1] == parts@[1]@);
            assert(first@ == trim(eq_parts(pv[i as int])[0]));
            assert(second@ == trim(eq_parts(pv[i as int])[1]));
        }
        if first.len() == 0 || second.len() == 0 {
            proof {
                assert(!pair_ok(pv[i as int]));
                assert(!map_syntax_ok(s@));
            }
            return Err(CliError::CommandArgumentError(
                "Invalid syntax for map. Example: Name=Value,Name2=Value".to_owned(),
            ));
        }
        proof {
            assert(pair_ok(pv[i as int]));
        }
        out.push((chars_to_string(&first), chars_to_string(&second)));
        i = i + 1;
    }
    proof {
        assert(map_syntax_ok(s@));
        assert(map_pairs(s@) == pv.map_values(|p: Seq<char>| pair_of(p)));
    }
    Ok(out)
}

/// Uses the given directory when present; otherwise falls back to the
/// current working directory as the caller observed it, failing with an
/// unexpected-error kind when that could not be determined.
pub fn dir_default_to_current(maybe_dir: Option<String>, current_dir: Option<String>) -> (r: Result<
    String,
    CliError,
>)
    ensures
        maybe_dir is Some ==> r is Ok && r->Ok_0 == maybe_dir->0,
        maybe_dir is None && current_dir is Some ==> r is Ok && r->Ok_0 == current_dir->0,
        maybe_dir is None && current_dir is None ==> r is Err && r->Err_0 is UnexpectedError
            && r->Err_0.spec_message() == "Failed to get current directory"@,
{
    match maybe_dir {
        Some(dir) => Ok(dir),
        None => match current_dir {
            Some(dir) => Ok(dir),
            None => Err(CliError::UnexpectedError("Failed to get current directory".to_owned())),
        },
    }
}

/// Activates logging for the duration of a command.
///
/// Initialization is idempotent and safe to invoke repeatedly; the
/// concrete logging backend is not part of this library, so there is
/// nothing to set up here.
pub fn start_logger() {
}

/// The decimal rendering of `n`.
pub open spec fn dec_str(n: nat) -> Seq<char>
    decreases n,
{
    if n < 10 {
        seq![hex_char_of(n as u8)]
    } else {
        dec_str(n / 10) + seq![hex_char_of((n % 10) as u8)]
    }
}

/// Appends the decimal rendering of `n` to `out`.
fn push_dec(out: &mut String, n: u32)
    ensures
        final(out)@ == old(out)@ + dec_str(n as nat),
    decreases n,
{
    if n < 10 {
        out.push(hex_char_of_exec(n as u8));
        proof {
            assert(old(out)@.push(hex_char_of(n as u8)) =~= old(out)@ + dec_str(n as nat));
        }
    } else {
        push_dec(out, n / 10);
        out.push(hex_char_of_exec((n % 10) as u8));
        proof {
            assert((old(out)@ + dec_str((n / 10) as nat)).push(hex_char_of((n % 10) as u8)) =~= old(
                out,
            )@ + dec_str(n as nat));
        }
    }
}

/// The decimal rendering of `n` as a string.
pub fn u32_to_dec_string(n: u32) -> (r: String)
    ensures
        r@ == dec_str(n as nat),
{
    let mut out = String::new();
    push_dec(&mut out, n);
    proof {
        assert(Seq::<char>::empty() + dec_str(n as nat) =~= dec_str(n as nat));
    }
    out
}

/// What the process-wide bytecode-version setting becomes.
///
/// An explicit version always wins and is rendered in decimal; with no
/// explicit version and no prior setting the process-wide default `5`
/// applies; an existing setting is otherwise left untouched (`None`:
/// nothing to write).
pub fn bytecode_version_setting(version: Option<u32>, existing: Option<String>) -> (r: Option<
    String,
>)
    ensures
        version is Some ==> r is Some && r->0@ == dec_str(version->0 as nat),
        version is None && existing is None ==> r is Some && r->0@ == "5"@,
        version is None && existing is Some ==> r is None,
{
    match version {
        Some(v) => Some(u32_to_dec_string(v)),
        None => match existing {
            Some(_) => None,
            None => Some("5".to_owned()),
        },
    }
}

/// Wraps a typed command outcome in the common envelope and renders it:
/// the envelope string lands on the side that mirrors the outcome.
///
/// The command name is accepted for interface uniformity; it feeds
/// telemetry, which has no backend here, and never the rendering.
pub fn to_common_result(_command: &str, elapsed_ms: u64, result: CliTypedResult) -> (r: CliResult)
    ensures
        r is Ok <==> result is Ok,
        r is Ok ==> r->Ok_0@ == spec_render_result(&result),
        r is Err ==> r->Err_0@ == spec_render_result(&result),
{
    let is_err = result.is_err();
    let wrapper = ResultWrapper::new(result, elapsed_ms);
    let rendered = wrapper.render();
    if is_err {
        Err(rendered)
    } else {
        Ok(rendered)
    }
}

/// Converts any successful outcome to the fixed literal `Success` before
/// wrapping, for callers that only care about pass or fail.
pub fn to_common_success_result(command: &str, elapsed_ms: u64, result: CliTypedResult) -> (r:
    CliResult)
    ensures
        r is Ok <==> result is Ok,
        r is Ok ==> r->Ok_0@ == "{\n  \"Result\": "@ + json_string("Success"@) + "\n}"@,
        r is Err ==> r->Err_0@ == render_failure(&result->Err_0),
{
    match result {
        Ok(_) => to_common_result(command, elapsed_ms, Ok(CliPayload::Text("Success".to_owned()))),
        Err(e) => to_common_result(command, elapsed_ms, Err(e)),
    }
}

} // verus!
