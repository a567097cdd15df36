//! The token shapes a parse produces, their specification-level models,
//! and the structured syntax errors of a failed parse.

use vstd::prelude::*;

verus! {

/// An argument reference inside a placeholder.
///
///  - `{}` carries [`VarName::Next`]: no explicit reference, the consumer
///    takes the next positional argument.
///  - `{1}` carries [`VarName::Index`]: an explicit positional reference.
///  - `{foo}` carries [`VarName::Ident`]: an explicit named reference.
///
/// `Ident` only ever holds a string of the identifier lexical class, so it
/// is never empty; the empty case is `Next`.
#[derive(Debug, Eq, PartialEq)]
pub enum VarName {
    Next,
    Index(usize),
    Ident(String),
}

/// Specification-level model of a [`VarName`]: the name as a `Seq<char>`.
pub enum VarNameV {
    Next,
    Index(usize),
    Ident(Seq<char>),
}

impl View for VarName {
    type V = VarNameV;

    open spec fn view(&self) -> VarNameV {
        match self {
            VarName::Next => VarNameV::Next,
            VarName::Index(n) => VarNameV::Index(*n),
            VarName::Ident(s) => VarNameV::Ident(s@),
        }
    }
}

impl DeepView for VarName {
    type V = VarNameV;

    open spec fn deep_view(&self) -> VarNameV {
        self.view()
    }
}

/// A width or precision value: either a literal constant, or dynamic — the
/// value of another argument, resolved at substitution time by the consumer.
#[derive(Debug, Eq, PartialEq)]
pub enum Param {
    Const(usize),
    Dynamic(VarName),
}

/// Specification-level model of a [`Param`].
pub enum ParamV {
    Const(usize),
    Dynamic(VarNameV),
}

impl View for Param {
    type V = ParamV;

    open spec fn view(&self) -> ParamV {
        match self {
            Param::Const(n) => ParamV::Const(*n),
            Param::Dynamic(v) => ParamV::Dynamic(v@),
        }
    }
}

impl DeepView for Param {
    type V = ParamV;

    open spec fn deep_view(&self) -> ParamV {
        self.view()
    }
}

/// An alignment directive. When the input gives none, the default is `Left`.
#[derive(Clone, Copy, Debug, Eq, PartialEq)]
pub enum Align {
    Left,
    Center,
    Right,
}

/// The padding directive of a placeholder. The two variants come from two
/// mutually exclusive sub-grammars; a placeholder carries at most one of
/// them (the `Option<Padding>` on [`Token::Variable`] enforces that).
#[derive(Debug, Eq, PartialEq)]
pub enum Padding {
    /// The `0<width>` shorthand: zero-fill, implicitly right-aligned. The
    /// width of this form is always a literal.
    ZeroPadding { width: usize },
    /// An explicit fill character (space when absent) with an alignment and
    /// a width that may itself be constant or dynamic.
    TextPadding { ch: char, align: Align, width: Param },
}

/// Specification-level model of a [`Padding`].
pub enum PaddingV {
    ZeroPadding { width: usize },
    TextPadding { ch: char, align: Align, width: ParamV },
}

impl View for Padding {
    type V = PaddingV;

    open spec fn view(&self) -> PaddingV {
        match self {
            Padding::ZeroPadding { width } => PaddingV::ZeroPadding { width: *width },
            Padding::TextPadding { ch, align, width } => PaddingV::TextPadding {
                ch: *ch,
                align: *align,
                width: width@,
            },
        }
    }
}

impl DeepView for Padding {
    type V = PaddingV;

    open spec fn deep_view(&self) -> PaddingV {
        self.view()
    }
}

/// The trailing type specifier of a format spec; absence means `Display`.
#[derive(Clone, Copy, Debug, Eq, PartialEq)]
pub enum Style {
    Display,
    Debug,
    LowerHex,
    UpperHex,
    Binary,
    Octal,
}

/// One parsed unit of an interpolation string.
#[derive(Debug, Eq, PartialEq)]
pub enum Token {
    /// A run of literal text. Double braces (`{{` and `}}`) have already
    /// been unescaped to single braces. Never empty.
    Text(String),
    /// A variable placeholder.
    Variable {
        /// The argument reference: empty, an index, or an identifier.
        name: VarName,
        /// The padding/fill/alignment directive, if any.
        padding: Option<Padding>,
        /// The precision directive, if any.
        precision: Option<Param>,
        /// The type specifier.
        style: Style,
        /// Whether the alternate form flag (`#`) is present.
        pretty: bool,
        /// Whether the forced-sign flag (`+`) is present.
        sign: bool,
    },
}

/// Specification-level model of the directives a format spec carries: what
/// stands between the `:` of a placeholder and its closing `}`.
pub struct FormatSpecV {
    pub padding: Option<PaddingV>,
    pub precision: Option<ParamV>,
    pub style: Style,
    pub pretty: bool,
    pub sign: bool,
}

/// Specification-level model of a [`Token`]: text as a `Seq<char>`.
pub enum TokenV {
    Text(Seq<char>),
    Variable {
        name: VarNameV,
        padding: Option<PaddingV>,
        precision: Option<ParamV>,
        style: Style,
        pretty: bool,
        sign: bool,
    },
}

impl View for Token {
    type V = TokenV;

    open spec fn view(&self) -> TokenV {
        match self {
            Token::Text(s) => TokenV::Text(s@),
            Token::Variable { name, padding, precision, style, pretty, sign } => {
                TokenV::Variable {
                    name: name@,
                    padding: match padding {
                        Option::Some(p) => Option::Some(p@),
                        Option::None => Option::None,
                    },
                    precision: match precision {
                        Option::Some(p) => Option::Some(p@),
                        Option::None => Option::None,
                    },
                    style: *style,
                    pretty: *pretty,
                    sign: *sign,
                }
            },
        }
    }
}

impl DeepView for Token {
    type V = TokenV;

    open spec fn deep_view(&self) -> TokenV {
        self.view()
    }
}

/// What kind of input would have let the parse continue at the offending
/// position. Diagnostic data for a renderer; the parser states nothing of it
/// beyond what [`crate::parser::parse`]'s contract pins down.
#[derive(Clone, Copy, Debug, Eq, PartialEq)]
pub enum Expected {
    /// A literal character, an escaped brace, or an opening `{`.
    TokenStart,
    /// A closing `}` ending the placeholder.
    CloseBrace,
}

/// Classification of one syntax error.
#[derive(Clone, Copy, Debug, Eq, PartialEq)]
pub enum ErrorKind {
    /// The input at the span does not match any accepted alternative.
    UnexpectedToken,
    /// The grammar required more characters than remained.
    UnexpectedEof,
    /// An opening `{` was never closed before the input ended; `open` is
    /// the offset of that `{`.
    Unclosed { open: usize },
}

/// One structured syntax error: the offending span (character offsets into
/// the input), its classification, and what was expected there. Rendering a
/// human-readable report from this is the caller's business.
#[derive(Clone, Copy, Debug, Eq, PartialEq)]
pub struct ParseError {
    /// Start of the offending span, inclusive.
    pub start: usize,
    /// End of the offending span, exclusive.
    pub end: usize,
    /// Classification of the failure.
    pub kind: ErrorKind,
    /// What would have been accepted at `start`.
    pub expected: Expected,
}

} // verus!
