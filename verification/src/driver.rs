//! Parse preprocessed C source text into an abstract syntax tree.

use vstd::prelude::*;
use vstd::string::{StringExecFns, StringSliceAdditionalSpecFns};
use vstd::utf8::encode_utf8;
use crate::ast::TranslationUnit;
use crate::env::Env;
use crate::loc;
use crate::loc::{Location, loc_matches, sp_resolve};
use crate::parser::{sp_expected_list, sp_parse, translation_unit};

verus! {

/// C language flavors.
#[derive(Copy, Clone, PartialEq, Eq, Structural, Debug)]
pub enum Flavor {
    /// Strict standard C11.
    StdC11,
    /// Standard C11 with GNU extensions.
    GnuC11,
    /// Standard C11 with Clang extensions.
    ClangC11,
}

/// Parser configuration.
#[derive(Clone, Debug)]
pub struct Config {
    /// Command used to invoke the C preprocessor.
    pub cpp_command: String,
    /// Options to pass to the preprocessor program.
    pub cpp_options: Vec<String>,
    /// Language flavor to parse.
    pub flavor: Flavor,
}

impl Config {
    /// Use `gcc` as a preprocessor and enable GNU extensions.
    pub fn with_gcc() -> (r: Config)
        ensures
            r.cpp_command@ == "gcc"@,
            r.cpp_options@.len() == 1,
            r.cpp_options@[0]@ == "-E"@,
            r.flavor == Flavor::GnuC11,
    {
        let mut opts: Vec<String> = Vec::new();
        opts.push(String::from_str("-E"));
        Config { cpp_command: String::from_str("gcc"), cpp_options: opts, flavor: Flavor::GnuC11 }
    }

    /// Use `clang` as a preprocessor and enable Clang extensions.
    pub fn with_clang() -> (r: Config)
        ensures
            r.cpp_command@ == "clang"@,
            r.cpp_options@.len() == 1,
            r.cpp_options@[0]@ == "-E"@,
            r.flavor == Flavor::ClangC11,
    {
        let mut opts: Vec<String> = Vec::new();
        opts.push(String::from_str("-E"));
        Config { cpp_command: String::from_str("clang"), cpp_options: opts, flavor: Flavor::ClangC11 }
    }

    /// The default configuration for a platform: Clang on macOS,
    /// GCC elsewhere.  The caller names the platform; the function
    /// itself is pure.
    pub fn for_platform(macos: bool) -> (r: Config)
        ensures
            r.flavor == if macos { Flavor::ClangC11 } else { Flavor::GnuC11 },
            r.cpp_command@ == if macos { "clang"@ } else { "gcc"@ },
    {
        if macos {
            Self::with_clang()
        } else {
            Self::with_gcc()
        }
    }
}

impl Default for Config {
    /// The GCC configuration; a platform-aware caller can pick
    /// `Config::for_platform` instead.
    fn default() -> (r: Config)
        ensures
            r.flavor == Flavor::GnuC11,
            r.cpp_command@ == "gcc"@,
    {
        Config::with_gcc()
    }
}

/// Result of a successful parse.
#[derive(Debug)]
pub struct Parse {
    /// Preprocessed source text.
    pub source: String,
    /// Root of the abstract syntax tree.
    pub unit: TranslationUnit,
}

/// Error type returned from parsing a file: either the external
/// preprocessor failed, or the preprocessed text did not parse.
#[derive(Debug)]
pub enum Error {
    /// The preprocessor could not run, exited with an error, or
    /// produced undecodable output; the message carries its
    /// diagnostic text.
    PreprocessorError(String),
    SyntaxError(SyntaxError),
}

impl From<SyntaxError> for Error {
    fn from(e: SyntaxError) -> (r: Error) {
        Error::SyntaxError(e)
    }
}

impl vstd::std_specs::convert::FromSpecImpl<SyntaxError> for Error {
    open spec fn obeys_from_spec() -> bool {
        true
    }

    open spec fn from_spec(e: SyntaxError) -> Error {
        Error::SyntaxError(e)
    }
}

/// Number of newlines in the first `k` bytes.
pub open spec fn sp_nl_count(bytes: Seq<u8>, k: int) -> int
    decreases k,
{
    if k <= 0 {
        0
    } else {
        sp_nl_count(bytes, k - 1) + if k - 1 < bytes.len() && bytes[k - 1] == 10 {
            1int
        } else {
            0int
        }
    }
}

/// The naive (marker-blind) one-based line number of an offset.
pub open spec fn sp_naive_line(bytes: Seq<u8>, off: int) -> int {
    let c = sp_nl_count(bytes, if off <= bytes.len() { off } else { bytes.len() as int });
    if c < usize::MAX as int {
        1 + c
    } else {
        c
    }
}

/// Start of the line containing `pos`: the position after the last
/// newline before it.
pub open spec fn sp_line_start(bytes: Seq<u8>, pos: int) -> int
    decreases pos,
{
    if pos <= 0 {
        0
    } else if pos - 1 < bytes.len() && bytes[pos - 1] == 10 {
        pos
    } else {
        sp_line_start(bytes, pos - 1)
    }
}

/// The naive one-based column of an offset: bytes since the last
/// newline, not reset by line markers.
pub open spec fn sp_naive_col(bytes: Seq<u8>, off: int) -> int {
    let c = if off <= bytes.len() {
        off
    } else {
        bytes.len() as int
    };
    let d = c - sp_line_start(bytes, c);
    if d < usize::MAX as int {
        1 + d
    } else {
        d
    }
}

fn naive_line(src: &Vec<u8>, off: usize) -> (r: usize)
    ensures
        r as int == sp_naive_line(src@, off as int),
{
    let n = src.len();
    let c = if off <= n {
        off
    } else {
        n
    };
    let mut count: usize = 0;
    let mut k: usize = 0;
    while k < c
        invariant
            k <= c <= n,
            n == src@.len(),
            count as int == sp_nl_count(src@, k as int),
            count <= k,
        decreases c - k,
    {
        if src[k] == 10 {
            count += 1;
        }
        proof {
            assert(sp_nl_count(src@, k + 1) == sp_nl_count(src@, k as int) + if (k as int)
                < src@.len() && src@[k as int] == 10 {
                1int
            } else {
                0int
            });
        }
        k += 1;
    }
    if count < usize::MAX {
        count + 1
    } else {
        count
    }
}

fn line_start(src: &Vec<u8>, pos: usize) -> (r: usize)
    requires
        pos <= src@.len(),
    ensures
        r as int == sp_line_start(src@, pos as int),
        r <= pos,
    decreases pos,
{
    if pos == 0 {
        0
    } else if src[pos - 1] == 10 {
        pos
    } else {
        line_start(src, pos - 1)
    }
}

fn naive_col(src: &Vec<u8>, off: usize) -> (r: usize)
    ensures
        r as int == sp_naive_col(src@, off as int),
{
    let n = src.len();
    let c = if off <= n {
        off
    } else {
        n
    };
    let ls = line_start(src, c);
    let d = c - ls;
    if d < usize::MAX {
        d + 1
    } else {
        d
    }
}

/// Syntax error during parsing.
#[derive(Debug)]
pub struct SyntaxError {
    /// Preprocessed source text.
    pub source: String,
    /// Line number in the preprocessed source, by naive counting.
    pub line: usize,
    /// Column number in the preprocessed source.
    pub column: usize,
    /// Byte position in the preprocessed source.
    pub offset: usize,
    /// Descriptions of the tokens expected at the error location,
    /// deduplicated and sorted.
    pub expected: Vec<String>,
}

/// The rendering of the first `k` expected-token descriptions:
/// each quoted, separated by commas.
pub open spec fn sp_render(l: Seq<String>, k: int) -> Seq<char>
    decreases k,
{
    if k <= 0 {
        Seq::empty()
    } else {
        sp_render(l, k - 1) + (if k > 1 {
            ", "@
        } else {
            Seq::<char>::empty()
        }) + "'"@ + l[k - 1]@ + "'"@
    }
}

impl SyntaxError {
    /// The quoted, comma-separated list of expected tokens, in the
    /// stored sorted order.
    pub fn format_expected(&self) -> (r: String)
        ensures
            r@ == sp_render(self.expected@, self.expected@.len() as int),
    {
        let mut out = String::new();
        proof {
            assert(out@ =~= sp_render(self.expected@, 0));
        }
        let n = self.expected.len();
        let mut i: usize = 0;
        while i < n
            invariant
                i <= n,
                n == self.expected@.len(),
                out@ == sp_render(self.expected@, i as int),
            decreases n - i,
        {
            if i > 0 {
                out.append(", ");
            }
            out.append("'");
            out.append(self.expected[i].as_str());
            out.append("'");
            proof {
                assert(out@ =~= sp_render(self.expected@, i + 1));
            }
            i += 1;
        }
        out
    }

    /// The resolved original-file location of the error offset, and
    /// the include chain, from the line markers of the stored text.
    pub fn get_location(&self) -> (r: (Location, Vec<Location>))
        ensures
            ({
                let (m, chain) = sp_resolve(encode_utf8(self.source@), self.offset as int);
                loc_matches(r.0, m, encode_utf8(self.source@)) && r.1@.len() == chain.len()
                    && forall|k: int|
                    0 <= k < r.1@.len() ==> loc_matches(
                        r.1@[k],
                        chain.view_seq()[k],
                        encode_utf8(self.source@),
                    )
            }),
    {
        loc::get_location_for_offset(self.source.as_str(), self.offset)
    }
}

/// Parse preprocessed text under a configuration's flavor.  The
/// result is exactly the mathematical parse of the text's bytes and
/// the flavor: a syntax tree, or a syntax error carrying the text,
/// the failure offset with its naive line and column, and the sorted
/// expected-token descriptions.
pub fn parse_preprocessed(config: &Config, source: String) -> (r: Result<Parse, SyntaxError>)
    ensures
        ({
            let b = encode_utf8(source@);
            match r {
                Ok(p) => sp_parse(b, config.flavor) == Ok::<TranslationUnit, (int, u64)>(p.unit)
                    && p.source@ == source@,
                Err(e) => match sp_parse(b, config.flavor) {
                    Ok(_) => false,
                    Err((o, m)) => e.offset as int == o && e.source@ == source@ && e.line as int
                        == sp_naive_line(b, o) && e.column as int == sp_naive_col(b, o)
                        && e.expected@.map_values(|s: String| s@) == sp_expected_list(m, 48),
                },
            }
        }),
{
    let bytes = vstd::slice::slice_to_vec(source.as_str().as_bytes());
    let mut env = match config.flavor {
        Flavor::StdC11 => Env::with_core(),
        Flavor::GnuC11 => Env::with_gnu(),
        Flavor::ClangC11 => Env::with_clang(),
    };
    match translation_unit(&bytes, &mut env) {
        Ok(unit) => Ok(Parse { source, unit }),
        Err(e) => {
            let line = naive_line(&bytes, e.off);
            let column = naive_col(&bytes, e.off);
            let expected = crate::parser::expected_list(e.mask);
            Err(SyntaxError { source, line, column, offset: e.off, expected })
        },
    }
}

} // verus!
