//! Classification of one raw build instruction into a typed instruction,
//! or a per-instruction failure.
use vstd::prelude::*;
use vstd::string::*;
use crate::dest::{Dest, DestV, parse_dest};
use crate::text::{str_eq_ci, eq_ignore_ascii_case};

verus! {

/// The execution-runtime category of the produced image.  `Wasi` is the
/// implicit default when no `KIND` directive appears.
#[derive(Clone, Copy, Debug, PartialEq, Eq, Structural)]
pub enum Kind {
    App,
    Wasi,
}

/// One source argument of a copy-like instruction, together with what the
/// local filesystem said of it when the document was decoded.
#[derive(Debug, Clone)]
pub struct SourceFile {
    pub path: String,
    /// The path exists on the local filesystem.
    pub present: bool,
    /// The path names a directory.
    pub is_dir: bool,
}

#[verifier::ext_equal]
pub ghost struct SourceFileV {
    pub path: Seq<char>,
    pub present: bool,
    pub is_dir: bool,
}

impl DeepView for SourceFile {
    type V = SourceFileV;

    open spec fn deep_view(&self) -> SourceFileV {
        SourceFileV { path: self.path@, present: self.present, is_dir: self.is_dir }
    }
}

/// One component of a breakable argument string: a piece of text, or an
/// interspersed comment.
#[derive(Debug, Clone)]
pub enum RawArg {
    Text(String),
    Comment,
}

#[verifier::ext_equal]
pub ghost enum RawArgV {
    Text(Seq<char>),
    Comment,
}

impl DeepView for RawArg {
    type V = RawArgV;

    open spec fn deep_view(&self) -> RawArgV {
        match self {
            RawArg::Text(s) => RawArgV::Text(s@),
            RawArg::Comment => RawArgV::Comment,
        }
    }
}

/// The argument of an exec-command-like instruction: shell form or
/// exec-array form.
#[derive(Debug, Clone)]
pub enum RawCmdExpr {
    ShellForm(Vec<RawArg>),
    ExecForm(Vec<String>),
}

#[verifier::ext_equal]
pub ghost enum RawCmdExprV {
    ShellForm(Seq<RawArgV>),
    ExecForm(Seq<Seq<char>>),
}

impl DeepView for RawCmdExpr {
    type V = RawCmdExprV;

    open spec fn deep_view(&self) -> RawCmdExprV {
        match self {
            RawCmdExpr::ShellForm(args) => RawCmdExprV::ShellForm(args.deep_view()),
            RawCmdExpr::ExecForm(elems) => RawCmdExprV::ExecForm(elems.deep_view()),
        }
    }
}

/// One raw instruction node of the decoded document, as the translator
/// reads it: its kind tag and its raw argument tokens.
#[derive(Debug, Clone)]
pub enum RawInstruction {
    /// A copy-like instruction: source arguments and one destination.
    CopyLike { sources: Vec<SourceFile>, destination: String },
    /// An exec-command-like instruction.
    CmdLike(RawCmdExpr),
    /// A miscellaneous directive with a name and raw arguments.
    Misc { name: String, arguments: Vec<RawArg> },
    /// Any other directive, carried only for diagnostics.
    Unsupported(String),
}

#[verifier::ext_equal]
pub ghost enum RawInstructionV {
    CopyLike { sources: Seq<SourceFileV>, destination: Seq<char> },
    CmdLike(RawCmdExprV),
    Misc { name: Seq<char>, arguments: Seq<RawArgV> },
    Unsupported(Seq<char>),
}

impl DeepView for RawInstruction {
    type V = RawInstructionV;

    open spec fn deep_view(&self) -> RawInstructionV {
        match self {
            RawInstruction::CopyLike { sources, destination } => RawInstructionV::CopyLike {
                sources: sources.deep_view(),
                destination: destination@,
            },
            RawInstruction::CmdLike(e) => RawInstructionV::CmdLike(e.deep_view()),
            RawInstruction::Misc { name, arguments } => RawInstructionV::Misc {
                name: name@,
                arguments: arguments.deep_view(),
            },
            RawInstruction::Unsupported(s) => RawInstructionV::Unsupported(s@),
        }
    }
}

/// One accepted file transfer: the source path and the structured
/// destination.
#[derive(Debug, Clone)]
pub struct CopyStep {
    pub source: String,
    pub dest: Dest,
}

#[verifier::ext_equal]
pub ghost struct CopyStepV {
    pub source: Seq<char>,
    pub dest: DestV,
}

impl DeepView for CopyStep {
    type V = CopyStepV;

    open spec fn deep_view(&self) -> CopyStepV {
        CopyStepV { source: self.source@, dest: self.dest.deep_view() }
    }
}

/// A classified instruction: the closed set of variants the assembler
/// consumes.
#[derive(Debug, Clone)]
pub enum Instruction {
    FileCopy(CopyStep),
    Cmd(Dest),
    Kind(Kind),
}

#[verifier::ext_equal]
pub ghost enum InstructionV {
    FileCopy(CopyStepV),
    Cmd(DestV),
    Kind(Kind),
}

impl DeepView for Instruction {
    type V = InstructionV;

    open spec fn deep_view(&self) -> InstructionV {
        match self {
            Instruction::FileCopy(c) => InstructionV::FileCopy(c.deep_view()),
            Instruction::Cmd(d) => InstructionV::Cmd(d.deep_view()),
            Instruction::Kind(k) => InstructionV::Kind(*k),
        }
    }
}

/// Why one instruction was rejected; each variant carries the offending
/// content for diagnostics.  These failures are recoverable: the assembler
/// skips the instruction and goes on.
#[derive(Debug, Clone)]
pub enum InsError {
    /// A copy-like instruction without any source argument.
    CopyMissingSource,
    /// The copy source path does not exist on the local filesystem.
    CopySourceMissing(String),
    /// The copy source path names a directory; only single files transfer.
    CopySourceIsDir(String),
    /// An exec-command-like instruction without a first token.
    CmdMissingArgument,
    /// The command's destination carries no file-name component.
    CmdWithoutFileName(String),
    /// A directive the translator does not recognise.
    Unsupported(String),
}

#[verifier::ext_equal]
pub ghost enum InsErrorV {
    CopyMissingSource,
    CopySourceMissing(Seq<char>),
    CopySourceIsDir(Seq<char>),
    CmdMissingArgument,
    CmdWithoutFileName(Seq<char>),
    Unsupported(Seq<char>),
}

impl DeepView for InsError {
    type V = InsErrorV;

    open spec fn deep_view(&self) -> InsErrorV {
        match self {
            InsError::CopyMissingSource => InsErrorV::CopyMissingSource,
            InsError::CopySourceMissing(s) => InsErrorV::CopySourceMissing(s@),
            InsError::CopySourceIsDir(s) => InsErrorV::CopySourceIsDir(s@),
            InsError::CmdMissingArgument => InsErrorV::CmdMissingArgument,
            InsError::CmdWithoutFileName(s) => InsErrorV::CmdWithoutFileName(s@),
            InsError::Unsupported(s) => InsErrorV::Unsupported(s@),
        }
    }
}

/// The destination recorded for a transfer: when the destination path
/// itself names no file, the file name of the source path stands in.
pub open spec fn copy_dest(src: Seq<char>, dst: Seq<char>) -> DestV {
    let d = parse_dest(dst);
    if d.file_name is None {
        DestV { directory: d.directory, file_name: parse_dest(src).file_name }
    } else {
        d
    }
}

/// Classification of a copy-like instruction: the first source must be
/// given, exist, and not be a directory.
pub open spec fn classify_copy(sources: Seq<SourceFileV>, destination: Seq<char>) -> Result<
    InstructionV,
    InsErrorV,
> {
    if sources.len() == 0 {
        Err(InsErrorV::CopyMissingSource)
    } else {
        let s = sources[0];
        if !s.present {
            Err(InsErrorV::CopySourceMissing(s.path))
        } else if s.is_dir {
            Err(InsErrorV::CopySourceIsDir(s.path))
        } else {
            Ok(
                InstructionV::FileCopy(
                    CopyStepV { source: s.path, dest: copy_dest(s.path, destination) },
                ),
            )
        }
    }
}

/// Classification of a command's first token: it must resolve to a file.
pub open spec fn classify_cmd_token(tok: Seq<char>) -> Result<InstructionV, InsErrorV> {
    let d = parse_dest(tok);
    if d.file_name is None {
        Err(InsErrorV::CmdWithoutFileName(tok))
    } else {
        Ok(InstructionV::Cmd(d))
    }
}

/// Classification of an exec-command-like instruction, shell or exec form:
/// the first token must be a piece of text naming a file.
pub open spec fn classify_cmd(e: RawCmdExprV) -> Result<InstructionV, InsErrorV> {
    match e {
        RawCmdExprV::ShellForm(args) => {
            if args.len() == 0 {
                Err(InsErrorV::CmdMissingArgument)
            } else {
                match args[0] {
                    RawArgV::Text(t) => classify_cmd_token(t),
                    RawArgV::Comment => Err(InsErrorV::CmdMissingArgument),
                }
            }
        },
        RawCmdExprV::ExecForm(elems) => {
            if elems.len() == 0 {
                Err(InsErrorV::CmdMissingArgument)
            } else {
                classify_cmd_token(elems[0])
            }
        },
    }
}

/// Classification of a miscellaneous directive: only one literally named
/// `KIND` (up to ASCII case) is understood; its argument selects `App`
/// when it equals `APP` (up to ASCII case), and `Wasi` otherwise or when
/// absent or malformed.
pub open spec fn classify_misc(name: Seq<char>, arguments: Seq<RawArgV>) -> Result<
    InstructionV,
    InsErrorV,
> {
    if !str_eq_ci(name, "KIND"@) {
        Err(InsErrorV::Unsupported(name))
    } else if arguments.len() > 0 && (arguments[0] matches RawArgV::Text(t) && str_eq_ci(
        t,
        "APP"@,
    )) {
        Ok(InstructionV::Kind(Kind::App))
    } else {
        Ok(InstructionV::Kind(Kind::Wasi))
    }
}

/// What one raw instruction classifies to: the typed instruction, or the
/// reason it is rejected.
pub open spec fn classify(r: RawInstructionV) -> Result<InstructionV, InsErrorV> {
    match r {
        RawInstructionV::CopyLike { sources, destination } => classify_copy(sources, destination),
        RawInstructionV::CmdLike(e) => classify_cmd(e),
        RawInstructionV::Misc { name, arguments } => classify_misc(name, arguments),
        RawInstructionV::Unsupported(s) => Err(InsErrorV::Unsupported(s)),
    }
}

/// A command whose first token resolves to a destination without a
/// file-name component is rejected, whichever form the command takes.
pub proof fn lemma_cmd_needs_file_name(e: RawCmdExprV, t: Seq<char>)
    requires
        (e matches RawCmdExprV::ShellForm(args) && args.len() > 0 && args[0] == RawArgV::Text(t))
            || (e matches RawCmdExprV::ExecForm(elems) && elems.len() > 0 && elems[0] == t),
        parse_dest(t).file_name is None,
    ensures
        classify(RawInstructionV::CmdLike(e)) == Err::<InstructionV, InsErrorV>(
            InsErrorV::CmdWithoutFileName(t),
        ),
{
}

/// A copy whose source path names a directory is rejected, even though
/// the path exists.
pub proof fn lemma_directory_source_rejected(sources: Seq<SourceFileV>, destination: Seq<char>)
    requires
        sources.len() > 0,
        sources[0].present,
        sources[0].is_dir,
    ensures
        classify(RawInstructionV::CopyLike { sources, destination }) == Err::<
            InstructionV,
            InsErrorV,
        >(InsErrorV::CopySourceIsDir(sources[0].path)),
{
}

/// Classify a command token, checking that it names a file.
fn parse_cmd_token(tok: &String) -> (res: Result<Instruction, InsError>)
    ensures
        res matches Ok(i) ==> classify_cmd_token(tok@) == Ok::<InstructionV, InsErrorV>(
            i.deep_view(),
        ),
        res matches Err(e) ==> classify_cmd_token(tok@) == Err::<InstructionV, InsErrorV>(
            e.deep_view(),
        ),
{
    let d = Dest::from_path(tok.as_str());
    if d.file_name.is_none() {
        Err(InsError::CmdWithoutFileName(tok.clone()))
    } else {
        Ok(Instruction::Cmd(d))
    }
}

/// Map one raw instruction node to exactly one typed instruction, or fail
/// with the reason: exactly as [`classify`] states.
pub fn parse_ins(r: &RawInstruction) -> (res: Result<Instruction, InsError>)
    ensures
        res matches Ok(i) ==> classify(r.deep_view()) == Ok::<InstructionV, InsErrorV>(
            i.deep_view(),
        ),
        res matches Err(e) ==> classify(r.deep_view()) == Err::<InstructionV, InsErrorV>(
            e.deep_view(),
        ),
{
    match r {
        RawInstruction::CopyLike { sources, destination } => {
            if sources.len() == 0 {
                Err(InsError::CopyMissingSource)
            } else {
                let s = &sources[0];
                if !s.present {
                    Err(InsError::CopySourceMissing(s.path.clone()))
                } else if s.is_dir {
                    Err(InsError::CopySourceIsDir(s.path.clone()))
                } else {
                    let d = Dest::from_path(destination.as_str());
                    let dest = if d.file_name.is_none() {
                        let sd = Dest::from_path(s.path.as_str());
                        Dest { directory: d.directory, file_name: sd.file_name }
                    } else {
                        d
                    };
                    let step = CopyStep { source: s.path.clone(), dest };
                    proof {
                        assert(step.dest.deep_view() =~= copy_dest(s.path@, destination@));
                    }
                    Ok(Instruction::FileCopy(step))
                }
            }
        },
        RawInstruction::CmdLike(e) => match e {
            RawCmdExpr::ShellForm(args) => {
                if args.len() == 0 {
                    Err(InsError::CmdMissingArgument)
                } else {
                    match &args[0] {
                        RawArg::Text(t) => parse_cmd_token(t),
                        RawArg::Comment => Err(InsError::CmdMissingArgument),
                    }
                }
            },
            RawCmdExpr::ExecForm(elems) => {
                if elems.len() == 0 {
                    Err(InsError::CmdMissingArgument)
                } else {
                    parse_cmd_token(&elems[0])
                }
            },
        },
        RawInstruction::Misc { name, arguments } => {
            if !eq_ignore_ascii_case(name.as_str(), "KIND") {
                Err(InsError::Unsupported(name.clone()))
            } else if arguments.len() > 0 {
                match &arguments[0] {
                    RawArg::Text(t) => {
                        if eq_ignore_ascii_case(t.as_str(), "APP") {
                            Ok(Instruction::Kind(Kind::App))
                        } else {
                            Ok(Instruction::Kind(Kind::Wasi))
                        }
                    },
                    RawArg::Comment => Ok(Instruction::Kind(Kind::Wasi)),
                }
            } else {
                Ok(Instruction::Kind(Kind::Wasi))
            }
        },
        RawInstruction::Unsupported(s) => Err(InsError::Unsupported(s.clone())),
    }
}

} // verus!
