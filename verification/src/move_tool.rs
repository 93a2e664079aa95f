//! The user-facing commands: package compilation, bytecode disassembly,
//! the interactive dispatcher, and the placeholder for variants that are
//! not implemented yet.

use vstd::prelude::*;
use crate::artifacts::{BuildOptions, IncludedArtifactsArgs};
use crate::cli_command::CliCommand;
use crate::cli_error::CliError;
use crate::move_package_dir::MovePackageDir;
use crate::paths::{extension_of, file_extension, with_extension, with_extension_spec};
use crate::result::{CliPayload, CliTypedResult};
use crate::text::{chars_to_string, split_chars, split_on, str_chars};

verus! {

/// Compiles a package and returns the associated module ids.
pub struct CompilePackage {
    /// Save the package metadata in the package's build directory.
    pub save_metadata: bool,
    pub included_artifacts_args: IncludedArtifactsArgs,
    pub move_options: MovePackageDir,
}

impl CompilePackage {
    /// The build configuration this invocation hands to the external
    /// builder: the artifact policy applied to the resolved options, with
    /// the output directory carried into the install dir.
    pub fn resolved_build_options(&self) -> (r: BuildOptions)
        ensures
            r.with_srcs == self.included_artifacts_args.included_artifacts.spec_flags().0,
            r.with_abis == self.included_artifacts_args.included_artifacts.spec_flags().1,
            r.with_source_maps == self.included_artifacts_args.included_artifacts.spec_flags().2,
            r.with_error_map,
            r.install_dir == self.move_options.output_dir,
            r.skip_fetch_latest_git_deps == self.move_options.skip_fetch_latest_git_deps,
            self.move_options.bytecode_version is Some ==> r.bytecode_version
                == self.move_options.bytecode_version,
            self.move_options.bytecode_version is None ==> r.bytecode_version == Some(5u32),
            r.named_addresses@.len() == self.move_options.named_addresses@.len(),
            forall|j: int|
                0 <= j < r.named_addresses@.len() ==> (#[trigger] r.named_addresses@[j]).0@
                    == self.move_options.named_addresses@[j].0@ && r.named_addresses@[j].1@
                    == self.move_options.named_addresses@[j].1.account_address@,
    {
        let named = self.move_options.named_addresses();
        let version = self.move_options.bytecode_version_or_detault();
        let mut opts = self.included_artifacts_args.included_artifacts.build_options(
            self.move_options.skip_fetch_latest_git_deps,
            named,
            version,
        );
        opts.install_dir = match &self.move_options.output_dir {
            Some(d) => Some(d.clone()),
            None => None,
        };
        opts
    }

    /// Maps the external builder's outcome into the command's typed
    /// result: the module ids pass through as the payload, a builder
    /// failure becomes a compilation error carrying its message.
    pub fn compile_result(outcome: Result<Vec<String>, String>) -> (r: CliTypedResult)
        ensures
            r is Ok <==> outcome is Ok,
            outcome is Ok ==> r->Ok_0 is Strings && r->Ok_0->Strings_0 == outcome->Ok_0,
            outcome is Err ==> r->Err_0 is MoveCompilationError && r->Err_0.spec_message()
                == outcome->Err_0@,
    {
        match outcome {
            Ok(ids) => Ok(CliPayload::Strings(ids)),
            Err(msg) => Err(CliError::MoveCompilationError(msg)),
        }
    }
}

/// The printing options honored by the external disassembler.
pub struct DisassemblerOptions {
    pub print_code: bool,
    pub only_externally_visible: bool,
    pub print_basic_blocks: bool,
    pub print_locals: bool,
}

/// The verdict on a bytecode path before anything is read: disassembly
/// starts only on a file with the bytecode extension; anything else is an
/// unrecoverable input mistake that ends the process at once.
pub enum BytecodePathCheck {
    /// The path carries the bytecode extension `mv`: proceed to read it.
    Proceed,
    /// The path has no extension at all.
    MissingExtension,
    /// The path carries some other extension, reported for the
    /// diagnostic printed before the process exits with code 1.
    WrongExtension(String),
}

/// Disassemble the Move bytecode pointed to.
pub struct Disassemble {
    /// Skip printing of private functions.
    pub skip_private: bool,
    /// Do not print the disassembled bytecodes of each function.
    pub skip_code: bool,
    /// Do not print locals of each function.
    pub skip_locals: bool,
    /// Do not print the basic blocks of each function.
    pub skip_basic_blocks: bool,
    /// Treat input file as a script (default is to treat file as a module).
    pub is_script: bool,
    /// The path to the bytecode file to disassemble, say `file.mv`; a
    /// source map `file.mvsm` and the source `file.move` may reside
    /// beside it.
    pub bytecode_file_path: String,
    /// Optional path to a coverage file, to print trace information in
    /// the disassembled output.
    pub code_coverage_path: Option<String>,
}

impl Disassemble {
    /// The printing options these flags select.
    pub fn disassembler_options(&self) -> (r: DisassemblerOptions)
        ensures
            r.print_code == !self.skip_code,
            r.only_externally_visible == self.skip_private,
            r.print_basic_blocks == !self.skip_basic_blocks,
            r.print_locals == !self.skip_locals,
    {
        DisassemblerOptions {
            print_code: !self.skip_code,
            only_externally_visible: self.skip_private,
            print_basic_blocks: !self.skip_basic_blocks,
            print_locals: !self.skip_locals,
        }
    }

    /// Checks the bytecode path's extension before anything is read or
    /// deserialized.
    pub fn check_bytecode_path(&self) -> (r: BytecodePathCheck)
        ensures
            r is MissingExtension <==> extension_of(self.bytecode_file_path@) is None,
            r is Proceed <==> extension_of(self.bytecode_file_path@) == Some("mv"@),
            r is WrongExtension ==> extension_of(self.bytecode_file_path@) is Some
                && r->WrongExtension_0@ == extension_of(self.bytecode_file_path@)->0
                && extension_of(self.bytecode_file_path@)->0 != "mv"@,
    {
        match file_extension(self.bytecode_file_path.as_str()) {
            None => BytecodePathCheck::MissingExtension,
            Some(ext) => {
                let chars = str_chars(ext.as_str());
                if crate::text::chars_eq_str(&chars, "mv") {
                    BytecodePathCheck::Proceed
                } else {
                    BytecodePathCheck::WrongExtension(ext)
                }
            },
        }
    }

    /// The path of the Move source expected beside the bytecode file.
    pub fn source_code_path(&self) -> (r: String)
        ensures
            r@ == with_extension_spec(self.bytecode_file_path@, "move"@),
    {
        with_extension(self.bytecode_file_path.as_str(), "move")
    }

    /// The path of the source map expected beside the bytecode file.
    pub fn source_map_path(&self) -> (r: String)
        ensures
            r@ == with_extension_spec(self.bytecode_file_path@, "mvsm"@),
    {
        with_extension(self.bytecode_file_path.as_str(), "mvsm")
    }
}

/// Start a explorer.
pub struct Interactive {
    /// Where the request file is looked for.
    pub order_path: Option<String>,
    /// Configured but not wired to any output in the current design.
    pub output_path: Option<String>,
}

/// What the interactive dispatcher does next, given one observation of
/// the request file.
pub enum DispatcherAction {
    /// No request file: sleep the poll interval and look again.
    Wait,
    /// The sentinel was read: the loop terminates with the dispatcher's
    /// own exit payload.
    Terminate,
    /// Dispatch these tokens as a fresh top-level invocation, print the
    /// rendered outcome, and delete the request file.
    Dispatch(Vec<String>),
}

impl Interactive {
    /// The path polled for request files, the fixed well-known directory
    /// unless configured.
    pub fn effective_order_path(&self) -> (r: String)
        ensures
            self.order_path is Some ==> r@ == self.order_path->0@,
            self.order_path is None ==> r@ == "/workspace/order/"@,
    {
        match &self.order_path {
            Some(p) => p.clone(),
            None => "/workspace/order/".to_owned(),
        }
    }

    /// The dispatcher's own result when the sentinel ends the loop.
    pub fn exit_payload() -> (r: Vec<String>)
        ensures
            r@.len() == 1,
            r@[0]@ == "Exit"@,
    {
        let mut v: Vec<String> = Vec::new();
        v.push("Exit".to_owned());
        v
    }

    /// One decision of the polling loop, from one observation of the
    /// request file: absent means wait, the sentinel `exit` terminates,
    /// and any other content is split on commas into an argument list
    /// with an empty program-name token injected at the front.
    pub fn interactive_step(content: Option<&str>) -> (r: DispatcherAction)
        ensures
            r is Wait <==> content is None,
            r is Terminate <==> content is Some && content->0@ == "exit"@,
            content is Some && content->0@ != "exit"@ ==> r is Dispatch && {
                let toks = split_on(content->0@, ',');
                &&& r->Dispatch_0@.len() == toks.len() + 1
                &&& r->Dispatch_0@[0]@ == Seq::<char>::empty()
                &&& forall|i: int|
                    0 <= i < toks.len() ==> (#[trigger] r->Dispatch_0@[i + 1])@ == toks[i]
            },
    {
        let s = match content {
            None => {
                return DispatcherAction::Wait;
            },
            Some(s) => s,
        };
        let chars = str_chars(s);
        if crate::text::chars_eq_str(&chars, "exit") {
            return DispatcherAction::Terminate;
        }
        let pieces = split_chars(&chars, ',');
        let mut tokens: Vec<String> = Vec::new();
        tokens.push(String::new());
        let mut i: usize = 0;
        while i < pieces.len()
            invariant
                0 <= i <= pieces@.len(),
                pieces.deep_view() == split_on(chars@, ','),
                tokens@.len() == i + 1,
                tokens@[0]@ == Seq::<char>::empty(),
                forall|k: int|
                    0 <= k < i ==> (#[trigger] tokens@[k + 1])@ == split_on(chars@, ',')[k],
            decreases pieces@.len() - i,
        {
            proof {
                crate::text::lemma_char_vec_deep_view(pieces@);
            }
            tokens.push(chars_to_string(&pieces[i]));
            i = i + 1;
        }
        DispatcherAction::Dispatch(tokens)
    }
}

/// Placeholder for command variants that exist on the surface but are
/// not implemented yet.
pub struct TODO {}

impl CliCommand for TODO {
    fn command_name(&self) -> (r: &'static str)
        ensures
            r@ == "TODO"@,
    {
        "TODO"
    }

    /// A distinct not-supported-yet failure, so that a dispatcher running
    /// this variant degrades to a printed message instead of aborting.
    fn execute(self) -> (r: CliTypedResult)
        ensures
            r is Err && r->Err_0 is NotSupportedError,
    {
        Err(CliError::NotSupportedError("not implemented yet".to_owned()))
    }
}

} // verus!
