//! The common result envelope: every command's outcome is wrapped exactly
//! once, rendered as a JSON-shaped string, and mapped to a process exit
//! code.

use vstd::prelude::*;
use crate::cli_error::CliError;
use crate::json::{json_string, push_json_string};

verus! {

/// A successful command payload: a list of identifiers or a single text.
#[derive(Debug)]
pub enum CliPayload {
    Strings(Vec<String>),
    Text(String),
}

/// The typed outcome of a command's `execute`.
pub type CliTypedResult = Result<CliPayload, CliError>;

/// The rendered outcome handed to the process boundary: the envelope
/// string, on the `Ok` side for success and the `Err` side for failure.
pub type CliResult = Result<String, String>;

/// The envelope produced exactly once per command execution: the typed
/// payload or failure, plus the elapsed wall-clock milliseconds.
pub enum ResultWrapper {
    Success(CliPayload, u64),
    Failure(CliError, u64),
}

/// The body of a rendered string list: each item escaped, quoted and
/// indented, separated by comma and newline.
pub open spec fn items_body(v: Seq<Seq<char>>) -> Seq<char>
    decreases v.len(),
{
    if v.len() == 0 {
        Seq::<char>::empty()
    } else if v.len() == 1 {
        "    "@ + json_string(v[0])
    } else {
        items_body(v.drop_last()) + ",\n"@ + "    "@ + json_string(v.last())
    }
}

/// A rendered JSON list of strings.
pub open spec fn render_string_list(v: Seq<Seq<char>>) -> Seq<char> {
    if v.len() == 0 {
        "[]"@
    } else {
        "[\n"@ + items_body(v) + "\n  ]"@
    }
}

impl CliPayload {
    /// The JSON rendering of this payload.
    pub open spec fn spec_render(&self) -> Seq<char> {
        match self {
            CliPayload::Strings(v) => render_string_list(v.deep_view()),
            CliPayload::Text(s) => json_string(s@),
        }
    }
}

/// The success envelope around a rendered payload.
pub open spec fn render_success(p: &CliPayload) -> Seq<char> {
    "{\n  \"Result\": "@ + p.spec_render() + "\n}"@
}

/// The failure envelope: the error's stable kind name and its message.
pub open spec fn render_failure(e: &CliError) -> Seq<char> {
    "{\n  \"Error\": {\n    \"kind\": "@ + json_string(e.spec_kind()) + ",\n    \"message\": "@
        + json_string(e.spec_message()) + "\n  }\n}"@
}

/// The envelope rendering of a typed command outcome.
pub open spec fn spec_render_result(res: &CliTypedResult) -> Seq<char> {
    match res {
        Ok(p) => render_success(p),
        Err(e) => render_failure(e),
    }
}

/// Appending one item to a list body extends it by a separator (when the
/// list was not empty) and the indented, quoted item.
pub proof fn lemma_items_push(v: Seq<Seq<char>>, x: Seq<char>)
    ensures
        v.len() == 0 ==> items_body(v.push(x)) == "    "@ + json_string(x),
        v.len() > 0 ==> items_body(v.push(x)) == items_body(v) + ",\n"@ + "    "@ + json_string(x),
{
    assert(v.push(x).drop_last() =~= v);
    assert(v.push(x).last() == x);
    if v.len() == 0 {
        assert(v.push(x)[0] == x);
    }
}

/// Appends the rendered JSON list of the strings in `v` to `out`.
fn push_string_list(out: &mut String, v: &Vec<String>)
    ensures
        final(out)@ == old(out)@ + render_string_list(v.deep_view()),
{
    if v.len() == 0 {
        out.push_str("[]");
        proof {
            assert(v.deep_view().len() == 0);
        }
        return ;
    }
    let ghost base = out@;
    out.push_str("[\n");
    let mut i: usize = 0;
    proof {
        assert(v.deep_view().subrange(0, 0) =~= Seq::<Seq<char>>::empty());
        assert(out@ =~= base + "[\n"@ + items_body(v.deep_view().subrange(0, 0)));
    }
    while i < v.len()
        invariant
            i <= v@.len(),
            v@.len() == v.deep_view().len(),
            v@.len() > 0,
            out@ == base + "[\n"@ + items_body(v.deep_view().subrange(0, i as int)),
        decreases v@.len() - i,
    {
        if i > 0 {
            out.push_str(",\n");
        }
        out.push_str("    ");
        push_json_string(out, v[i].as_str());
        proof {
            let w = v.deep_view();
            assert(w.subrange(0, i + 1) =~= w.subrange(0, i as int).push(w[i as int]));
            lemma_items_push(w.subrange(0, i as int), w[i as int]);
            assert(w[i as int] == v@[i as int]@);
            assert(out@ =~= base + "[\n"@ + items_body(w.subrange(0, i + 1)));
        }
        i = i + 1;
    }
    out.push_str("\n  ]");
    proof {
        assert(v.deep_view().subrange(0, v@.len() as int) =~= v.deep_view());
        assert(out@ =~= base + render_string_list(v.deep_view()));
    }
}

impl ResultWrapper {
    /// Wraps a typed outcome together with its elapsed duration.
    pub fn new(result: CliTypedResult, elapsed_ms: u64) -> (r: ResultWrapper)
        ensures
            result is Ok ==> r == ResultWrapper::Success(result->Ok_0, elapsed_ms),
            result is Err ==> r == ResultWrapper::Failure(result->Err_0, elapsed_ms),
    {
        match result {
            Ok(p) => ResultWrapper::Success(p, elapsed_ms),
            Err(e) => ResultWrapper::Failure(e, elapsed_ms),
        }
    }

    /// The elapsed wall-clock milliseconds recorded in the envelope.
    pub fn elapsed_ms(&self) -> (r: u64)
        ensures
            match self {
                ResultWrapper::Success(_, ms) => r == ms,
                ResultWrapper::Failure(_, ms) => r == ms,
            },
    {
        match self {
            ResultWrapper::Success(_, ms) => *ms,
            ResultWrapper::Failure(_, ms) => *ms,
        }
    }

    /// The JSON rendering of this envelope. The elapsed duration is
    /// carried for telemetry, not rendered.
    pub open spec fn spec_render(&self) -> Seq<char> {
        match self {
            ResultWrapper::Success(p, _) => render_success(p),
            ResultWrapper::Failure(e, _) => render_failure(e),
        }
    }

    /// Renders the envelope as its JSON-shaped string.
    pub fn render(&self) -> (r: String)
        ensures
            r@ == self.spec_render(),
    {
        let mut out = String::new();
        match self {
            ResultWrapper::Success(p, _) => {
                out.push_str("{\n  \"Result\": ");
                match p {
                    CliPayload::Strings(v) => push_string_list(&mut out, v),
                    CliPayload::Text(s) => push_json_string(&mut out, s.as_str()),
                }
                out.push_str("\n}");
                proof {
                    assert(out@ =~= render_success(p));
                }
            },
            ResultWrapper::Failure(e, _) => {
                out.push_str("{\n  \"Error\": {\n    \"kind\": ");
                push_json_string(&mut out, e.to_str());
                out.push_str(",\n    \"message\": ");
                push_json_string(&mut out, e.message());
                out.push_str("\n  }\n}");
                proof {
                    assert(out@ =~= render_failure(e));
                }
            },
        }
        out
    }
}

/// Whether `r` is the rendered wrap of the typed outcome `res`: same
/// side, and the envelope rendering of `res` as its string.
pub open spec fn wraps_outcome(r: CliResult, res: CliTypedResult) -> bool {
    &&& (r is Ok <==> res is Ok)
    &&& (r is Ok ==> r->Ok_0@ == spec_render_result(&res))
    &&& (r is Err ==> r->Err_0@ == spec_render_result(&res))
}

/// Whether `r` is the rendered wrap of `res` with any success collapsed
/// to the fixed literal `Success`.
pub open spec fn wraps_success_outcome(r: CliResult, res: CliTypedResult) -> bool {
    &&& (r is Ok <==> res is Ok)
    &&& (r is Ok ==> r->Ok_0@ == "{\n  \"Result\": "@ + json_string("Success"@) + "\n}"@)
    &&& (r is Err ==> r->Err_0@ == render_failure(&res->Err_0))
}

/// The exit code the process reports for a rendered outcome: 0 for
/// success, 1 for failure.
pub fn cli_exit_code(r: &CliResult) -> (c: i32)
    ensures
        r is Ok ==> c == 0,
        r is Err ==> c == 1,
{
    match r {
        Ok(_) => 0,
        Err(_) => 1,
    }
}

} // verus!
