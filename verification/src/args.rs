//! The command line: `program [width [height [path]]]`, or `-h` / `--help`.
//!
//! The first token is the program's name. Each of the three values that is
//! not given takes its default, and the caller is told so by a warning. The
//! warnings and the usage text are returned, not printed.

use vstd::prelude::*;
use crate::failure::Failure;
use crate::text::{decimal_u32, eq_ignoring_case, parse_u32, same_ignoring_case};

verus! {

/// The width of the image where none is given.
pub const DEFAULT_WIDTH: u32 = 3840;

/// The height of the image where none is given.
pub const DEFAULT_HEIGHT: u32 = 2160;

/// The path of the image file where none is given.
pub const DEFAULT_PATH: &'static str = "mandelbrot.png";

/// The warning for a width that is not given.
pub const WIDTH_WARNING: &'static str = "Warning: missing argument 1: width, using default: 3840";

/// The warning for a height that is not given.
pub const HEIGHT_WARNING: &'static str =
    "Warning: missing argument 2: height, using default: 2160";

/// The warning for a path that is not given.
pub const PATH_WARNING: &'static str =
    "Warning: missing argument 3: path, using default: mandelbrot.png";

/// The usage text.
pub const HELP: &'static str = r#"mdbrot
A simple program that generates an image of 
a Mandelbrot set using Rust OpenCL bindings.

USAGE:
    mdbrot [FLAGS] [width [height [imgpath]]]

FLAGS:
    -h, --help
            Prints help information

If no options are passed the defaults are:
    width=3840 
    height=2160
    pathname=`mandelbrot.png`
"#;

/// One resolved value of the command line.
#[derive(Debug)]
pub enum Arg {
    Width(u32),
    Height(u32),
    Path(String),
}

/// What an `Arg` stands for.
pub enum ArgView {
    Width(u32),
    Height(u32),
    Path(Seq<char>),
}

impl View for Arg {
    type V = ArgView;

    open spec fn view(&self) -> ArgView {
        match self {
            Arg::Width(w) => ArgView::Width(*w),
            Arg::Height(h) => ArgView::Height(*h),
            Arg::Path(p) => ArgView::Path(p@),
        }
    }
}

/// A command line that asks for an image.
#[derive(Debug)]
pub struct Parsed {
    /// The width, the height and the path, in this order.
    pub args: Vec<Arg>,
    /// One warning for each value that took its default, in the same order.
    pub warnings: Vec<String>,
}

/// What a `Parsed` stands for.
pub struct ParsedView {
    pub args: Seq<ArgView>,
    pub warnings: Seq<Seq<char>>,
}

impl View for Parsed {
    type V = ParsedView;

    open spec fn view(&self) -> ParsedView {
        ParsedView {
            args: self.args@.map_values(|a: Arg| a@),
            warnings: self.warnings@.map_values(|w: String| w@),
        }
    }
}

/// What a command line asks for.
#[derive(Debug)]
pub enum Invocation {
    /// The usage text is to be shown, and nothing else done.
    Help(String),
    /// An image is to be computed.
    Run(Parsed),
}

/// The tokens of a command line as plain text.
pub open spec fn tokens_of(args: Seq<String>) -> Seq<Seq<char>> {
    args.map_values(|s: String| s@)
}

/// The width that the tokens give: the second token read as a number, or the
/// default where there is none.
pub open spec fn width_of(tokens: Seq<Seq<char>>) -> Option<u32> {
    if tokens.len() > 1 {
        decimal_u32(tokens[1])
    } else {
        Some(3840u32)
    }
}

/// The height that the tokens give: the third token read as a number, or the
/// default where there is none.
pub open spec fn height_of(tokens: Seq<Seq<char>>) -> Option<u32> {
    if tokens.len() > 2 {
        decimal_u32(tokens[2])
    } else {
        Some(2160u32)
    }
}

/// The path that the tokens give: the fourth token, or the default where
/// there is none.
pub open spec fn path_of(tokens: Seq<Seq<char>>) -> Seq<char> {
    if tokens.len() > 3 {
        tokens[3]
    } else {
        DEFAULT_PATH@
    }
}

/// The warnings for a command line of `count` tokens.
pub open spec fn warnings_for(count: nat) -> Seq<Seq<char>> {
    if count <= 1 {
        seq![WIDTH_WARNING@, HEIGHT_WARNING@, PATH_WARNING@]
    } else if count == 2 {
        seq![HEIGHT_WARNING@, PATH_WARNING@]
    } else if count == 3 {
        seq![PATH_WARNING@]
    } else {
        Seq::empty()
    }
}

/// What the tokens resolve to. The width is read before the height, so a
/// command line with both unreadable fails on the width.
pub open spec fn resolved(tokens: Seq<Seq<char>>) -> Result<ParsedView, Failure> {
    match (width_of(tokens), height_of(tokens)) {
        (None, _) => Err(Failure::BadWidth),
        (Some(_), None) => Err(Failure::BadHeight),
        (Some(w), Some(h)) => Ok(
            ParsedView {
                args: seq![ArgView::Width(w), ArgView::Height(h), ArgView::Path(path_of(tokens))],
                warnings: warnings_for(tokens.len()),
            },
        ),
    }
}

/// Whether `token` is `-h` or `--help` in any mix of cases.
pub open spec fn is_help_flag(token: Seq<char>) -> bool {
    same_ignoring_case(token, seq!['-', 'h']) || same_ignoring_case(
        token,
        seq!['-', '-', 'h', 'e', 'l', 'p'],
    )
}

/// Whether the command line asks for the usage text: the program's name and
/// the help flag, nothing more.
pub open spec fn wants_help(tokens: Seq<Seq<char>>) -> bool {
    tokens.len() == 2 && is_help_flag(tokens[1])
}

/// Whether `r` is what the tokens resolve to.
pub open spec fn is_resolution(tokens: Seq<Seq<char>>, r: Result<Parsed, Failure>) -> bool {
    match r {
        Ok(p) => resolved(tokens) == Ok::<ParsedView, Failure>(p@),
        Err(e) => resolved(tokens) == Err::<ParsedView, Failure>(e),
    }
}

impl Arg {
    /// Resolves the width, the height and the path from the tokens of a
    /// command line, of which the first is the program's name.
    pub fn parse(sargs: Vec<String>) -> (r: Result<Parsed, Failure>)
        ensures
            is_resolution(tokens_of(sargs@), r),
    {
        let ghost tokens = tokens_of(sargs@);
        let mut args: Vec<Arg> = Vec::new();
        let mut warnings: Vec<String> = Vec::new();
        let count: usize = sargs.len();
        if count > 1 {
            assert(tokens[1] == sargs@[1]@);
            match parse_u32(sargs[1].as_str()) {
                Some(w) => args.push(Arg::Width(w)),
                None => {
                    return Err(Failure::BadWidth);
                },
            }
        } else {
            args.push(Arg::Width(DEFAULT_WIDTH));
            warnings.push(WIDTH_WARNING.to_owned());
        }
        if count > 2 {
            assert(tokens[2] == sargs@[2]@);
            match parse_u32(sargs[2].as_str()) {
                Some(h) => args.push(Arg::Height(h)),
                None => {
                    return Err(Failure::BadHeight);
                },
            }
        } else {
            args.push(Arg::Height(DEFAULT_HEIGHT));
            warnings.push(HEIGHT_WARNING.to_owned());
        }
        if count > 3 {
            assert(tokens[3] == sargs@[3]@);
            args.push(Arg::Path(sargs[3].clone()));
        } else {
            args.push(Arg::Path(DEFAULT_PATH.to_owned()));
            warnings.push(PATH_WARNING.to_owned());
        }
        let parsed = Parsed { args, warnings };
        proof {
            let want = resolved(tokens)->Ok_0;
            assert(parsed@.args =~= want.args);
            assert(parsed@.warnings =~= want.warnings);
        }
        Ok(parsed)
    }

    /// The width, if this is one.
    pub fn width(&self) -> (w: Option<u32>)
        ensures
            w == (match self@ {
                ArgView::Width(x) => Some(x),
                _ => None,
            }),
    {
        if let Arg::Width(w) = self {
            Some(*w)
        } else {
            None
        }
    }

    /// The height, if this is one.
    pub fn height(&self) -> (h: Option<u32>)
        ensures
            h == (match self@ {
                ArgView::Height(x) => Some(x),
                _ => None,
            }),
    {
        if let Arg::Height(h) = self {
            Some(*h)
        } else {
            None
        }
    }

    /// The path, if this is one.
    pub fn path(&self) -> (p: Option<String>)
        ensures
            match self@ {
                ArgView::Path(x) => p is Some && p->0@ == x,
                _ => p is None,
            },
    {
        if let Arg::Path(p) = self {
            Some(p.clone())
        } else {
            None
        }
    }
}

/// Decides what a command line asks for. The usage text is asked for by the
/// help flag alone; any other command line is resolved by `Arg::parse`.
pub fn parse_args(args: Vec<String>) -> (r: Result<Invocation, Failure>)
    ensures
        wants_help(tokens_of(args@)) ==> r is Ok && r->Ok_0 is Help && r->Ok_0->Help_0@ == HELP@,
        !wants_help(tokens_of(args@)) ==> match r {
            Ok(Invocation::Run(p)) => resolved(tokens_of(args@)) == Ok::<ParsedView, Failure>(p@),
            Ok(Invocation::Help(_)) => false,
            Err(e) => resolved(tokens_of(args@)) == Err::<ParsedView, Failure>(e),
        },
{
    if args.len() == 2 {
        assert(tokens_of(args@)[1] == args@[1]@);
        proof {
            reveal_strlit("-h");
            reveal_strlit("--help");
            assert("-h"@ =~= seq!['-', 'h']);
            assert("--help"@ =~= seq!['-', '-', 'h', 'e', 'l', 'p']);
        }
        let flag: &str = args[1].as_str();
        if eq_ignoring_case(flag, "-h") || eq_ignoring_case(flag, "--help") {
            return Ok(Invocation::Help(help()));
        }
    }
    match Arg::parse(args) {
        Ok(parsed) => Ok(Invocation::Run(parsed)),
        Err(e) => Err(e),
    }
}

/// The usage text.
pub fn help() -> (text: String)
    ensures
        text@ == HELP@,
{
    HELP.to_owned()
}

} // verus!
