//! The script language used by script mappings: source spans, errors with
//! source snippets, the lexer and the recursive-descent parser.
//!
//! The grammar, top down: a program is a list of statements; a statement is
//! a `let`, an assignment, an `if` with optional `else`, a `while`, a block,
//! or an expression statement; expressions combine `||`, `&&`, equality,
//! comparison, sum, product and unary operators over numbers, booleans,
//! strings, variables, calls and parenthesized expressions.

use vstd::prelude::*;
use vstd::string::StringExecFns;
use vstd::string::StringSliceAdditionalSpecFns;

use crate::control_msg::string_from_utf8;

verus! {

/// A region of script source, in 1-based lines and columns.
#[derive(Debug, Clone, Copy, PartialEq, Eq, Structural)]
pub struct SourceSpan {
    pub start_line: usize,
    pub start_col: usize,
    pub end_line: usize,
    pub end_col: usize,
}

/// The decimal digits of a number, as ASCII bytes.
pub open spec fn spec_dec_digits(n: int) -> Seq<u8>
    decreases n,
{
    if n < 10 {
        seq![(48 + if n < 0 {
            0int
        } else {
            n
        }) as u8]
    } else {
        spec_dec_digits(n / 10) + seq![(48 + n % 10) as u8]
    }
}

/// Writes a number in decimal.
pub fn dec_digits(n: u64) -> (r: Vec<u8>)
    ensures
        r@ == spec_dec_digits(n as int),
    decreases n,
{
    if n < 10 {
        let mut v: Vec<u8> = Vec::new();
        v.push(48 + (n as u8));
        proof {
            assert(v@ =~= spec_dec_digits(n as int));
        }
        v
    } else {
        let mut v = dec_digits(n / 10);
        v.push(48 + ((n % 10) as u8));
        proof {
            assert(v@ =~= spec_dec_digits(n as int));
        }
        v
    }
}

/// The decimal form of a signed number, with a leading minus sign when it is
/// negative.
pub open spec fn spec_i64_dec(n: int) -> Seq<u8> {
    if n < 0 {
        seq![0x2Du8] + spec_dec_digits(-n)
    } else {
        spec_dec_digits(n)
    }
}

/// Writes a signed number in decimal.
pub fn i64_dec(n: i64) -> (r: Vec<u8>)
    ensures
        r@ == spec_i64_dec(n as int),
{
    if n < 0 {
        let mag: u64 = if n == i64::MIN {
            0x8000000000000000u64
        } else {
            (-n) as u64
        };
        let mut v: Vec<u8> = Vec::new();
        v.push(0x2D);
        let mut digits = dec_digits(mag);
        v.append(&mut digits);
        proof {
            assert(v@ =~= spec_i64_dec(n as int));
        }
        v
    } else {
        dec_digits(n as u64)
    }
}

fn dec_string(n: u64) -> String {
    let digits = dec_digits(n);
    match string_from_utf8(digits) {
        Some(s) => s,
        None => String::new(),
    }
}

/// A failure while parsing or running a script, annotated with the source
/// region it happened in and the source lines of that region.
#[derive(Debug, Clone)]
pub struct ScriptError {
    pub message: String,
    pub span: SourceSpan,
    pub outer_span: Option<SourceSpan>,
    pub snippet_lines: Vec<String>,
}

fn snippet_of(span: SourceSpan, source: &str) -> Vec<String> {
    let bytes = source.as_bytes();
    let n = bytes.len();
    let mut lines: Vec<String> = Vec::new();
    let mut line_no: usize = 1;
    let mut i: usize = 0;
    let mut cur: Vec<u8> = Vec::new();
    while i < n
        invariant
            i <= n,
            n == bytes@.len(),
        decreases n - i,
    {
        let b = *vstd::slice::slice_index_get(bytes, i);
        if b == 0x0A {
            if line_no >= span.start_line && line_no <= span.end_line {
                let mut taken: Vec<u8> = Vec::new();
                core::mem::swap(&mut taken, &mut cur);
                match string_from_utf8(taken) {
                    Some(s) => lines.push(s),
                    None => lines.push(String::new()),
                }
            } else {
                cur.clear();
            }
            if line_no < usize::MAX {
                line_no = line_no + 1;
            }
        } else {
            cur.push(b);
        }
        i = i + 1;
    }
    if line_no >= span.start_line && line_no <= span.end_line {
        match string_from_utf8(cur) {
            Some(s) => lines.push(s),
            None => lines.push(String::new()),
        }
    }
    lines
}

impl ScriptError {
    /// An error at a span, carrying the source lines the span covers.
    pub fn from_span(span: SourceSpan, source: &str, message: String) -> (r: ScriptError)
        ensures
            r.span == span,
            r.message@ == message@,
            r.outer_span is None,
    {
        let snippet_lines = snippet_of(span, source);
        ScriptError { message, span, outer_span: None, snippet_lines }
    }

    /// The same error reported at an enclosing span; the snippet follows the
    /// outer region.
    pub fn with_outer_span(self, span: SourceSpan, source: &str) -> (r: ScriptError)
        ensures
            r.span == self.span,
            r.message@ == self.message@,
            r.outer_span == Some(span),
    {
        let snippet_lines = snippet_of(span, source);
        ScriptError { message: self.message, span: self.span, outer_span: Some(span), snippet_lines }
    }

    /// Renders the error as text: the message, the region, and the source
    /// lines it covers.
    pub fn render(&self) -> String {
        let mut out: String = "error: ".to_owned();
        out.append(self.message.as_str());
        out.append("\n --> line ");
        let display_span = match self.outer_span {
            Some(s) => s,
            None => self.span,
        };
        let l1 = dec_string(display_span.start_line as u64);
        out.append(l1.as_str());
        out.append(", column ");
        let c1 = dec_string(display_span.start_col as u64);
        out.append(c1.as_str());
        out.append(" to line ");
        let l2 = dec_string(display_span.end_line as u64);
        out.append(l2.as_str());
        out.append(", column ");
        let c2 = dec_string(display_span.end_col as u64);
        out.append(c2.as_str());
        out.append("\n");
        let n = self.snippet_lines.len();
        let mut i: usize = 0;
        while i < n
            invariant
                n == self.snippet_lines@.len(),
        decreases n - i,
        {
            out.append(" | ");
            out.append(self.snippet_lines[i].as_str());
            out.append("\n");
            i = i + 1;
        }
        out
    }
}

/// One token of script source.
#[derive(Debug, Clone)]
pub enum TokenKind {
    Int(i64),
    Str(Vec<u8>),
    Ident(Vec<u8>),
    True,
    False,
    KwLet,
    KwIf,
    KwElse,
    KwWhile,
    Plus,
    Minus,
    Star,
    Slash,
    Percent,
    Not,
    AndAnd,
    OrOr,
    EqEq,
    NotEq,
    Lt,
    Le,
    Gt,
    Ge,
    Assign,
    Semi,
    Comma,
    LParen,
    RParen,
    LBrace,
    RBrace,
}

/// A token and where it stands in the source.
#[derive(Debug, Clone)]
pub struct Token {
    pub kind: TokenKind,
    pub span: SourceSpan,
}

fn is_ident_byte(b: u8) -> (r: bool)
    ensures
        r == (b == 0x5F || (0x41 <= b && b <= 0x5A) || (0x61 <= b && b <= 0x7A) || (0x30 <= b && b
            <= 0x39)),
{
    b == 0x5F || (0x41 <= b && b <= 0x5A) || (0x61 <= b && b <= 0x7A) || (0x30 <= b && b <= 0x39)
}

struct Lexer {
    bytes: Vec<u8>,
    pos: usize,
    line: usize,
    col: usize,
}

impl Lexer {
    spec fn wf(&self) -> bool {
        self.pos <= self.bytes@.len()
    }

    fn peek(&self) -> (r: Option<u8>)
        requires
            self.wf(),
        ensures
            match r {
                Some(b) => self.pos < self.bytes@.len() && b == self.bytes@[self.pos as int],
                None => self.pos == self.bytes@.len(),
            },
    {
        if self.pos < self.bytes.len() {
            Some(self.bytes[self.pos])
        } else {
            None
        }
    }

    fn bump(&mut self)
        requires
            old(self).wf(),
            old(self).pos < old(self).bytes@.len(),
        ensures
            final(self).wf(),
            final(self).bytes == old(self).bytes,
            final(self).pos == old(self).pos + 1,
    {
        let n = self.bytes.len();
        let b = self.bytes[self.pos];
        self.pos = self.pos + 1;
        if b == 0x0A {
            if self.line < usize::MAX {
                self.line = self.line + 1;
            }
            self.col = 1;
        } else {
            if self.col < usize::MAX {
                self.col = self.col + 1;
            }
        }
    }

    fn here(&self) -> (r: (usize, usize))
    {
        (self.line, self.col)
    }
}

fn span_at(sl: usize, sc: usize, el: usize, ec: usize) -> (r: SourceSpan)
    ensures
        r.start_line == sl && r.start_col == sc && r.end_line == el && r.end_col == ec,
{
    SourceSpan { start_line: sl, start_col: sc, end_line: el, end_col: ec }
}

/// Cuts script source into tokens. Fails on an unknown character, an
/// unterminated string, a bare `&` or `|`, or a numeric literal that does
/// not fit 64 bits.
fn lex(source: &str) -> (r: Result<Vec<Token>, ScriptError>) {
    let bytes = source.as_bytes_vec();
    let total = bytes.len();
    let mut lx = Lexer { bytes, pos: 0, line: 1, col: 1 };
    let mut tokens: Vec<Token> = Vec::new();
    loop
        invariant
            lx.wf(),
            lx.bytes@.len() == total,
        decreases total - lx.pos + 1,
    {
        let ghost pos0 = lx.pos;
        let b = match lx.peek() {
            Some(b) => b,
            None => { return Ok(tokens); },
        };
        if b == 0x20 || b == 0x09 || b == 0x0D || b == 0x0A {
            lx.bump();
            continue ;
        }
        let (sl, sc) = lx.here();
        if b >= 0x30 && b <= 0x39 {
            // number
            lx.bump();
            let mut val: i64 = (b - 0x30) as i64;
            let mut overflow = false;
            loop
                invariant
                    lx.wf(),
                    lx.bytes@.len() == total,
                    pos0 < lx.pos,
                    0 <= val,
                decreases total - lx.pos,
            {
                let d = match lx.peek() {
                    Some(d) => d,
                    None => { break ; },
                };
                if !(d >= 0x30 && d <= 0x39) {
                    break ;
                }
                let digit = (d - 0x30) as i64;
                if val > (0x7FFFFFFFFFFFFFFF - digit) / 10 {
                    overflow = true;
                    val = 0;
                } else {
                    val = val * 10 + digit;
                }
                lx.bump();
            }
            let (el, ec) = lx.here();
            let span = span_at(sl, sc, el, ec);
            if overflow {
                return Err(ScriptError::from_span(
                    span,
                    source,
                    "number literal does not fit 64 bits".to_owned(),
                ));
            }
            tokens.push(Token { kind: TokenKind::Int(val), span });
        } else if is_ident_byte(b) {
            // identifier or keyword
            lx.bump();
            let mut name: Vec<u8> = Vec::new();
            name.push(b);
            loop
                invariant
                    lx.wf(),
                    lx.bytes@.len() == total,
                    pos0 < lx.pos,
                decreases total - lx.pos,
            {
                let d = match lx.peek() {
                    Some(d) => d,
                    None => { break ; },
                };
                if !is_ident_byte(d) {
                    break ;
                }
                name.push(d);
                lx.bump();
            }
            let (el, ec) = lx.here();
            let span = span_at(sl, sc, el, ec);
            let kind = if bytes_is(&name, "let") {
                TokenKind::KwLet
            } else if bytes_is(&name, "if") {
                TokenKind::KwIf
            } else if bytes_is(&name, "else") {
                TokenKind::KwElse
            } else if bytes_is(&name, "while") {
                TokenKind::KwWhile
            } else if bytes_is(&name, "true") {
                TokenKind::True
            } else if bytes_is(&name, "false") {
                TokenKind::False
            } else {
                TokenKind::Ident(name)
            };
            tokens.push(Token { kind, span });
        } else if b == 0x22 {
            // string literal with \n, \t, \", \\ escapes
            lx.bump();
            let mut text: Vec<u8> = Vec::new();
            let mut closed = false;
            loop
                invariant
                    lx.wf(),
                    lx.bytes@.len() == total,
                    pos0 < lx.pos,
                decreases total - lx.pos,
            {
                let d = match lx.peek() {
                    Some(d) => d,
                    None => { break ; },
                };
                if d == 0x22 {
                    lx.bump();
                    closed = true;
                    break ;
                }
                if d == 0x5C {
                    lx.bump();
                    let e = match lx.peek() {
                        Some(e) => e,
                        None => { break ; },
                    };
                    if e == 0x6E {
                        text.push(0x0A);
                    } else if e == 0x74 {
                        text.push(0x09);
                    } else if e == 0x22 {
                        text.push(0x22);
                    } else if e == 0x5C {
                        text.push(0x5C);
                    } else {
                        text.push(0x5C);
                        text.push(e);
                    }
                    lx.bump();
                } else {
                    text.push(d);
                    lx.bump();
                }
            }
            let (el, ec) = lx.here();
            let span = span_at(sl, sc, el, ec);
            if !closed {
                return Err(ScriptError::from_span(
                    span,
                    source,
                    "unterminated string literal".to_owned(),
                ));
            }
            tokens.push(Token { kind: TokenKind::Str(text), span });
        } else {
            // operators and punctuation
            lx.bump();
            let two = lx.peek();
            let kind = if b == 0x26 {
                match two {
                    Some(0x26) => {
                        lx.bump();
                        TokenKind::AndAnd
                    },
                    _ => {
                        let (el, ec) = lx.here();
                        return Err(ScriptError::from_span(
                            span_at(sl, sc, el, ec),
                            source,
                            "a single & is not an operator".to_owned(),
                        ));
                    },
                }
            } else if b == 0x7C {
                match two {
                    Some(0x7C) => {
                        lx.bump();
                        TokenKind::OrOr
                    },
                    _ => {
                        let (el, ec) = lx.here();
                        return Err(ScriptError::from_span(
                            span_at(sl, sc, el, ec),
                            source,
                            "a single | is not an operator".to_owned(),
                        ));
                    },
                }
            } else if b == 0x3D {
                match two {
                    Some(0x3D) => {
                        lx.bump();
                        TokenKind::EqEq
                    },
                    _ => TokenKind::Assign,
                }
            } else if b == 0x21 {
                match two {
                    Some(0x3D) => {
                        lx.bump();
                        TokenKind::NotEq
                    },
                    _ => TokenKind::Not,
                }
            } else if b == 0x3C {
                match two {
                    Some(0x3D) => {
                        lx.bump();
                        TokenKind::Le
                    },
                    _ => TokenKind::Lt,
                }
            } else if b == 0x3E {
                match two {
                    Some(0x3D) => {
                        lx.bump();
                        TokenKind::Ge
                    },
                    _ => TokenKind::Gt,
                }
            } else if b == 0x2B {
                TokenKind::Plus
            } else if b == 0x2D {
                TokenKind::Minus
            } else if b == 0x2A {
                TokenKind::Star
            } else if b == 0x2F {
                TokenKind::Slash
            } else if b == 0x25 {
                TokenKind::Percent
            } else if b == 0x3B {
                TokenKind::Semi
            } else if b == 0x2C {
                TokenKind::Comma
            } else if b == 0x28 {
                TokenKind::LParen
            } else if b == 0x29 {
                TokenKind::RParen
            } else if b == 0x7B {
                TokenKind::LBrace
            } else if b == 0x7D {
                TokenKind::RBrace
            } else {
                let (el, ec) = lx.here();
                return Err(ScriptError::from_span(
                    span_at(sl, sc, el, ec),
                    source,
                    "unknown character in script".to_owned(),
                ));
            };
            let (el, ec) = lx.here();
            tokens.push(Token { kind, span: span_at(sl, sc, el, ec) });
        }
        proof {
            assert(lx.pos > pos0);
        }
    }
}

fn bytes_is(b: &Vec<u8>, s: &str) -> (r: bool)
    ensures
        r == (b@ == s.spec_bytes()),
{
    let sb = s.as_bytes();
    if b.len() != sb.len() {
        proof {
            assert(b@ != s.spec_bytes());
        }
        return false;
    }
    let n = b.len();
    let mut i: usize = 0;
    while i < n
        invariant
            0 <= i <= n,
            n == b@.len() == sb@.len(),
            sb@ == s.spec_bytes(),
            forall|k: int| 0 <= k < i ==> b@[k] == sb@[k],
        decreases n - i,
    {
        if b[i] != *vstd::slice::slice_index_get(sb, i) {
            return false;
        }
        i = i + 1;
    }
    proof {
        assert(b@ =~= s.spec_bytes());
    }
    true
}

/// A unary operator.
#[derive(Debug, Clone, Copy, PartialEq, Eq, Structural)]
pub enum UnaryOp {
    Plus,
    Minus,
    Not,
}

/// A binary operator.
#[derive(Debug, Clone, Copy, PartialEq, Eq, Structural)]
pub enum BinOp {
    Add,
    Sub,
    Mul,
    Div,
    Mod,
    And,
    Or,
    Eq,
    Neq,
    Lt,
    Le,
    Gt,
    Ge,
}

/// An expression. Names and string values are UTF-8 bytes.
#[derive(Debug)]
pub enum Expr {
    Number { value: i64, span: SourceSpan },
    Str { value: Vec<u8>, span: SourceSpan },
    Bool { value: bool, span: SourceSpan },
    Var { name: Vec<u8>, span: SourceSpan },
    Unary { op: UnaryOp, rhs: Box<Expr>, span: SourceSpan },
    Binary { lhs: Box<Expr>, op: BinOp, rhs: Box<Expr>, span: SourceSpan },
    Call { name: Vec<u8>, args: Vec<Expr>, span: SourceSpan },
}

impl Expr {
    /// The source region of the expression.
    pub open spec fn spec_span(&self) -> SourceSpan {
        match self {
            Expr::Number { span, .. } => *span,
            Expr::Str { span, .. } => *span,
            Expr::Bool { span, .. } => *span,
            Expr::Var { span, .. } => *span,
            Expr::Unary { span, .. } => *span,
            Expr::Binary { span, .. } => *span,
            Expr::Call { span, .. } => *span,
        }
    }

    #[verifier::when_used_as_spec(spec_span)]
    pub fn span(&self) -> (r: SourceSpan)
        ensures
            r == self.spec_span(),
    {
        match self {
            Expr::Number { span, .. } => *span,
            Expr::Str { span, .. } => *span,
            Expr::Bool { span, .. } => *span,
            Expr::Var { span, .. } => *span,
            Expr::Unary { span, .. } => *span,
            Expr::Binary { span, .. } => *span,
            Expr::Call { span, .. } => *span,
        }
    }
}

/// A statement.
#[derive(Debug)]
pub enum Stmt {
    Let { name: Vec<u8>, expr: Expr, span: SourceSpan },
    Assign { name: Vec<u8>, expr: Expr, span: SourceSpan },
    Expr { expr: Expr, span: SourceSpan },
    Block { stmts: Vec<Stmt>, span: SourceSpan },
    If { condition: Expr, then_block: Box<Stmt>, else_block: Option<Box<Stmt>>, span: SourceSpan },
    While { condition: Expr, body: Box<Stmt>, span: SourceSpan },
    Error { span: SourceSpan },
}

/// A parsed program. Parsing stops at the first error, so `errors` holds at
/// most one entry and `stmts` is what parsed before it.
#[derive(Debug)]
pub struct Program {
    pub stmts: Vec<Stmt>,
    pub errors: Vec<ScriptError>,
}

fn span_join(a: SourceSpan, b: SourceSpan) -> (r: SourceSpan)
    ensures
        r == spec_span_join(a, b),
{
    SourceSpan {
        start_line: a.start_line,
        start_col: a.start_col,
        end_line: b.end_line,
        end_col: b.end_col,
    }
}

fn peek_kind<'a>(tokens: &'a Vec<Token>, pos: usize) -> (r: Option<&'a TokenKind>)
    ensures
        match r {
            Some(k) => pos < tokens@.len() && *k == tokens@[pos as int].kind,
            None => pos >= tokens@.len(),
        },
{
    if pos < tokens.len() {
        Some(&tokens[pos].kind)
    } else {
        None
    }
}

fn token_span(tokens: &Vec<Token>, pos: usize) -> (r: SourceSpan)
    ensures
        r == spec_token_span(tokens@, pos as int),
{
    if pos < tokens.len() {
        tokens[pos].span
    } else if tokens.len() > 0 {
        tokens[tokens.len() - 1].span
    } else {
        SourceSpan { start_line: 1, start_col: 1, end_line: 1, end_col: 1 }
    }
}


fn copy_bytes(v: &Vec<u8>) -> (r: Vec<u8>)
    ensures
        r@ == v@,
{
    let mut r: Vec<u8> = Vec::new();
    let n = v.len();
    let mut i: usize = 0;
    while i < n
        invariant
            i <= n,
            n == v@.len(),
            r@ == v@.take(i as int),
        decreases n - i,
    {
        r.push(v[i]);
        proof {
            assert(r@ =~= v@.take(i as int + 1));
        }
        i = i + 1;
    }
    proof {
        assert(v@.take(n as int) =~= v@);
    }
    r
}

fn parse_atom(source: &str, tokens: &Vec<Token>, pos: usize) -> (r: Result<
    (Expr, usize),
    ScriptError,
>)
    requires
        pos <= tokens@.len(),
        tokens@.len() <= 0x10000000,
    ensures
        r matches Ok((_, p)) ==> pos < p <= tokens@.len(),
    decreases tokens@.len() - pos, 0int,
{
    let t = match peek_kind(tokens, pos) {
        Some(t) => t,
        None => {
            return Err(ScriptError::from_span(
                token_span(tokens, pos),
                source,
                "expected an expression".to_owned(),
            ));
        },
    };
    let span = token_span(tokens, pos);
    match t {
        TokenKind::Int(v) => Ok((Expr::Number { value: *v, span }, pos + 1)),
        TokenKind::Str(sv) => Ok((Expr::Str { value: copy_bytes(sv), span }, pos + 1)),
        TokenKind::True => Ok((Expr::Bool { value: true, span }, pos + 1)),
        TokenKind::False => Ok((Expr::Bool { value: false, span }, pos + 1)),
        TokenKind::LParen => {
            let (inner, p) = parse_expr(source, tokens, pos + 1)?;
            match peek_kind(tokens, p) {
                Some(TokenKind::RParen) => Ok((inner, p + 1)),
                _ => Err(ScriptError::from_span(
                    token_span(tokens, p),
                    source,
                    "expected a closing parenthesis".to_owned(),
                )),
            }
        },
        TokenKind::Ident(name) => {
            let name = copy_bytes(name);
            match peek_kind(tokens, pos + 1) {
                Some(TokenKind::LParen) => {
                    // call
                    let mut args: Vec<Expr> = Vec::new();
                    let mut p = pos + 2;
                    match peek_kind(tokens, p) {
                        Some(TokenKind::RParen) => {
                            let end = token_span(tokens, p);
                            return Ok((Expr::Call { name, args, span: span_join(span, end) }, p + 1));
                        },
                        _ => {},
                    }
                    loop
                        invariant
                            pos + 2 <= p <= tokens@.len(),
                            tokens@.len() <= 0x10000000,
                        decreases tokens@.len() - p,
                    {
                        let (arg, p2) = parse_expr(source, tokens, p)?;
                        args.push(arg);
                        p = p2;
                        match peek_kind(tokens, p) {
                            Some(TokenKind::Comma) => {
                                if p + 1 >= tokens.len() {
                                    return Err(ScriptError::from_span(
                                        token_span(tokens, p),
                                        source,
                                        "expected an argument after the comma".to_owned(),
                                    ));
                                }
                                p = p + 1;
                            },
                            Some(TokenKind::RParen) => {
                                let end = token_span(tokens, p);
                                return Ok((Expr::Call { name, args, span: span_join(span, end) }, p + 1));
                            },
                            _ => {
                                return Err(ScriptError::from_span(
                                    token_span(tokens, p),
                                    source,
                                    "expected , or ) in the argument list".to_owned(),
                                ));
                            },
                        }
                    }
                },
                _ => Ok((Expr::Var { name, span }, pos + 1)),
            }
        },
        _ => Err(ScriptError::from_span(
            span,
            source,
            "expected a number, string, boolean, name or parenthesis".to_owned(),
        )),
    }
}

fn parse_unary(source: &str, tokens: &Vec<Token>, pos: usize) -> (r: Result<
    (Expr, usize),
    ScriptError,
>)
    requires
        pos <= tokens@.len(),
        tokens@.len() <= 0x10000000,
    ensures
        r matches Ok((_, p)) ==> pos < p <= tokens@.len(),
    decreases tokens@.len() - pos, 1int,
{
    let op = match peek_kind(tokens, pos) {
        Some(TokenKind::Plus) => Some(UnaryOp::Plus),
        Some(TokenKind::Minus) => Some(UnaryOp::Minus),
        Some(TokenKind::Not) => Some(UnaryOp::Not),
        _ => None,
    };
    match op {
        Some(op) => {
            let span = token_span(tokens, pos);
            let (rhs, p) = parse_atom(source, tokens, pos + 1)?;
            proof {
                lemma_expr_view_span(rhs);
            }
            let full = span_join(span, rhs.span());
            Ok((Expr::Unary { op, rhs: Box::new(rhs), span: full }, p))
        },
        None => parse_atom(source, tokens, pos),
    }
}

fn parse_product(source: &str, tokens: &Vec<Token>, pos: usize) -> (r: Result<
    (Expr, usize),
    ScriptError,
>)
    requires
        pos <= tokens@.len(),
        tokens@.len() <= 0x10000000,
    ensures
        r matches Ok((_, p)) ==> pos < p <= tokens@.len(),
    decreases tokens@.len() - pos, 2int,
{
    let (mut lhs, mut p) = parse_unary(source, tokens, pos)?;
    loop
        invariant
            pos < p <= tokens@.len(),
            tokens@.len() <= 0x10000000,
        decreases tokens@.len() - p,
    {
        let op = match peek_kind(tokens, p) {
            Some(TokenKind::Star) => BinOp::Mul,
            Some(TokenKind::Slash) => BinOp::Div,
            Some(TokenKind::Percent) => BinOp::Mod,
            _ => { return Ok((lhs, p)); },
        };
        let (rhs, p2) = parse_unary(source, tokens, p + 1)?;
        proof {
            lemma_expr_view_span(lhs);
            lemma_expr_view_span(rhs);
        }
        let span = span_join(lhs.span(), rhs.span());
        lhs = Expr::Binary { lhs: Box::new(lhs), op, rhs: Box::new(rhs), span };
        p = p2;
    }
}

fn parse_sum(source: &str, tokens: &Vec<Token>, pos: usize) -> (r: Result<
    (Expr, usize),
    ScriptError,
>)
    requires
        pos <= tokens@.len(),
        tokens@.len() <= 0x10000000,
    ensures
        r matches Ok((_, p)) ==> pos < p <= tokens@.len(),
    decreases tokens@.len() - pos, 3int,
{
    let (mut lhs, mut p) = parse_product(source, tokens, pos)?;
    loop
        invariant
            pos < p <= tokens@.len(),
            tokens@.len() <= 0x10000000,
        decreases tokens@.len() - p,
    {
        let op = match peek_kind(tokens, p) {
            Some(TokenKind::Plus) => BinOp::Add,
            Some(TokenKind::Minus) => BinOp::Sub,
            _ => { return Ok((lhs, p)); },
        };
        let (rhs, p2) = parse_product(source, tokens, p + 1)?;
        proof {
            lemma_expr_view_span(lhs);
            lemma_expr_view_span(rhs);
        }
        let span = span_join(lhs.span(), rhs.span());
        lhs = Expr::Binary { lhs: Box::new(lhs), op, rhs: Box::new(rhs), span };
        p = p2;
    }
}

fn parse_comparison(source: &str, tokens: &Vec<Token>, pos: usize) -> (r: Result<
    (Expr, usize),
    ScriptError,
>)
    requires
        pos <= tokens@.len(),
        tokens@.len() <= 0x10000000,
    ensures
        r matches Ok((_, p)) ==> pos < p <= tokens@.len(),
    decreases tokens@.len() - pos, 4int,
{
    let (mut lhs, mut p) = parse_sum(source, tokens, pos)?;
    loop
        invariant
            pos < p <= tokens@.len(),
            tokens@.len() <= 0x10000000,
        decreases tokens@.len() - p,
    {
        let op = match peek_kind(tokens, p) {
            Some(TokenKind::Lt) => BinOp::Lt,
            Some(TokenKind::Le) => BinOp::Le,
            Some(TokenKind::Gt) => BinOp::Gt,
            Some(TokenKind::Ge) => BinOp::Ge,
            _ => { return Ok((lhs, p)); },
        };
        let (rhs, p2) = parse_sum(source, tokens, p + 1)?;
        proof {
            lemma_expr_view_span(lhs);
            lemma_expr_view_span(rhs);
        }
        let span = span_join(lhs.span(), rhs.span());
        lhs = Expr::Binary { lhs: Box::new(lhs), op, rhs: Box::new(rhs), span };
        p = p2;
    }
}

fn parse_equality(source: &str, tokens: &Vec<Token>, pos: usize) -> (r: Result<
    (Expr, usize),
    ScriptError,
>)
    requires
        pos <= tokens@.len(),
        tokens@.len() <= 0x10000000,
    ensures
        r matches Ok((_, p)) ==> pos < p <= tokens@.len(),
    decreases tokens@.len() - pos, 5int,
{
    let (mut lhs, mut p) = parse_comparison(source, tokens, pos)?;
    loop
        invariant
            pos < p <= tokens@.len(),
            tokens@.len() <= 0x10000000,
        decreases tokens@.len() - p,
    {
        let op = match peek_kind(tokens, p) {
            Some(TokenKind::EqEq) => BinOp::Eq,
            Some(TokenKind::NotEq) => BinOp::Neq,
            _ => { return Ok((lhs, p)); },
        };
        let (rhs, p2) = parse_comparison(source, tokens, p + 1)?;
        proof {
            lemma_expr_view_span(lhs);
            lemma_expr_view_span(rhs);
        }
        let span = span_join(lhs.span(), rhs.span());
        lhs = Expr::Binary { lhs: Box::new(lhs), op, rhs: Box::new(rhs), span };
        p = p2;
    }
}

fn parse_and(source: &str, tokens: &Vec<Token>, pos: usize) -> (r: Result<
    (Expr, usize),
    ScriptError,
>)
    requires
        pos <= tokens@.len(),
        tokens@.len() <= 0x10000000,
    ensures
        r matches Ok((_, p)) ==> pos < p <= tokens@.len(),
    decreases tokens@.len() - pos, 6int,
{
    let (mut lhs, mut p) = parse_equality(source, tokens, pos)?;
    loop
        invariant
            pos < p <= tokens@.len(),
            tokens@.len() <= 0x10000000,
        decreases tokens@.len() - p,
    {
        match peek_kind(tokens, p) {
            Some(TokenKind::AndAnd) => {},
            _ => { return Ok((lhs, p)); },
        }
        let (rhs, p2) = parse_equality(source, tokens, p + 1)?;
        proof {
            lemma_expr_view_span(lhs);
            lemma_expr_view_span(rhs);
        }
        let span = span_join(lhs.span(), rhs.span());
        lhs = Expr::Binary { lhs: Box::new(lhs), op: BinOp::And, rhs: Box::new(rhs), span };
        p = p2;
    }
}

fn parse_expr(source: &str, tokens: &Vec<Token>, pos: usize) -> (r: Result<
    (Expr, usize),
    ScriptError,
>)
    requires
        pos <= tokens@.len(),
        tokens@.len() <= 0x10000000,
    ensures
        r matches Ok((_, p)) ==> pos < p <= tokens@.len(),
    decreases tokens@.len() - pos, 7int,
{
    let (mut lhs, mut p) = parse_and(source, tokens, pos)?;
    loop
        invariant
            pos < p <= tokens@.len(),
            tokens@.len() <= 0x10000000,
        decreases tokens@.len() - p,
    {
        match peek_kind(tokens, p) {
            Some(TokenKind::OrOr) => {},
            _ => { return Ok((lhs, p)); },
        }
        let (rhs, p2) = parse_and(source, tokens, p + 1)?;
        proof {
            lemma_expr_view_span(lhs);
            lemma_expr_view_span(rhs);
        }
        let span = span_join(lhs.span(), rhs.span());
        lhs = Expr::Binary { lhs: Box::new(lhs), op: BinOp::Or, rhs: Box::new(rhs), span };
        p = p2;
    }
}

fn parse_block(source: &str, tokens: &Vec<Token>, pos: usize) -> (r: Result<
    (Stmt, usize),
    ScriptError,
>)
    requires
        pos <= tokens@.len(),
        tokens@.len() <= 0x10000000,
    ensures
        r matches Ok((_, p)) ==> pos < p <= tokens@.len(),
    decreases tokens@.len() - pos, 8int,
{
    let open_span = token_span(tokens, pos);
    match peek_kind(tokens, pos) {
        Some(TokenKind::LBrace) => {},
        _ => {
            return Err(ScriptError::from_span(open_span, source, "expected a block".to_owned()));
        },
    }
    let mut stmts: Vec<Stmt> = Vec::new();
    let mut p = pos + 1;
    loop
        invariant
            pos < p <= tokens@.len(),
            tokens@.len() <= 0x10000000,
        decreases tokens@.len() - p,
    {
        match peek_kind(tokens, p) {
            Some(TokenKind::RBrace) => {
                let end = token_span(tokens, p);
                return Ok((Stmt::Block { stmts, span: span_join(open_span, end) }, p + 1));
            },
            None => {
                return Err(ScriptError::from_span(
                    token_span(tokens, p),
                    source,
                    "expected a closing brace".to_owned(),
                ));
            },
            _ => {},
        }
        let (stmt, p2) = parse_stmt(source, tokens, p)?;
        stmts.push(stmt);
        p = p2;
    }
}

fn parse_stmt(source: &str, tokens: &Vec<Token>, pos: usize) -> (r: Result<
    (Stmt, usize),
    ScriptError,
>)
    requires
        pos <= tokens@.len(),
        tokens@.len() <= 0x10000000,
    ensures
        r matches Ok((_, p)) ==> pos < p <= tokens@.len(),
    decreases tokens@.len() - pos, 9int,
{
    let start = token_span(tokens, pos);
    match peek_kind(tokens, pos) {
        Some(TokenKind::KwLet) => {
            let name = match peek_kind(tokens, pos + 1) {
                Some(TokenKind::Ident(name)) => copy_bytes(name),
                _ => {
                    return Err(ScriptError::from_span(
                        token_span(tokens, pos + 1),
                        source,
                        "expected a name after let".to_owned(),
                    ));
                },
            };
            match peek_kind(tokens, pos + 2) {
                Some(TokenKind::Assign) => {},
                _ => {
                    return Err(ScriptError::from_span(
                        token_span(tokens, pos + 2),
                        source,
                        "expected = after the name".to_owned(),
                    ));
                },
            }
            let (expr, p) = parse_expr(source, tokens, pos + 3)?;
            match peek_kind(tokens, p) {
                Some(TokenKind::Semi) => {
                    let span = span_join(start, token_span(tokens, p));
                    Ok((Stmt::Let { name, expr, span }, p + 1))
                },
                _ => Err(ScriptError::from_span(
                    token_span(tokens, p),
                    source,
                    "expected ; after the let statement".to_owned(),
                )),
            }
        },
        Some(TokenKind::KwWhile) => {
            let (condition, p) = parse_expr(source, tokens, pos + 1)?;
            let (body, p2) = parse_block(source, tokens, p)?;
            let span = span_join(start, token_span(tokens, p2 - 1));
            Ok((Stmt::While { condition, body: Box::new(body), span }, p2))
        },
        Some(TokenKind::KwIf) => {
            let (condition, p) = parse_expr(source, tokens, pos + 1)?;
            let (then_block, p2) = parse_block(source, tokens, p)?;
            match peek_kind(tokens, p2) {
                Some(TokenKind::KwElse) => {
                    let (else_block, p3) = parse_block(source, tokens, p2 + 1)?;
                    let span = span_join(start, token_span(tokens, p3 - 1));
                    Ok((
                        Stmt::If {
                            condition,
                            then_block: Box::new(then_block),
                            else_block: Some(Box::new(else_block)),
                            span,
                        },
                        p3,
                    ))
                },
                _ => {
                    let span = span_join(start, token_span(tokens, p2 - 1));
                    Ok((
                        Stmt::If {
                            condition,
                            then_block: Box::new(then_block),
                            else_block: None,
                            span,
                        },
                        p2,
                    ))
                },
            }
        },
        Some(TokenKind::LBrace) => parse_block(source, tokens, pos),
        Some(TokenKind::Ident(name)) => {
            // assignment or expression statement
            let is_assign = match peek_kind(tokens, pos + 1) {
                Some(TokenKind::Assign) => true,
                _ => false,
            };
            if is_assign {
                let name = copy_bytes(name);
                let (expr, p) = parse_expr(source, tokens, pos + 2)?;
                match peek_kind(tokens, p) {
                    Some(TokenKind::Semi) => {
                        let span = span_join(start, token_span(tokens, p));
                        Ok((Stmt::Assign { name, expr, span }, p + 1))
                    },
                    _ => Err(ScriptError::from_span(
                        token_span(tokens, p),
                        source,
                        "expected ; after the assignment".to_owned(),
                    )),
                }
            } else {
                let (expr, p) = parse_expr(source, tokens, pos)?;
                match peek_kind(tokens, p) {
                    Some(TokenKind::Semi) => {
                        let span = span_join(start, token_span(tokens, p));
                        Ok((Stmt::Expr { expr, span }, p + 1))
                    },
                    _ => Err(ScriptError::from_span(
                        token_span(tokens, p),
                        source,
                        "expected ; after the expression".to_owned(),
                    )),
                }
            }
        },
        _ => {
            let (expr, p) = parse_expr(source, tokens, pos)?;
            match peek_kind(tokens, p) {
                Some(TokenKind::Semi) => {
                    let span = span_join(start, token_span(tokens, p));
                    Ok((Stmt::Expr { expr, span }, p + 1))
                },
                _ => Err(ScriptError::from_span(
                    token_span(tokens, p),
                    source,
                    "expected ; after the expression".to_owned(),
                )),
            }
        },
    }
}

/// A parsed script, ready to evaluate.
#[derive(Debug)]
pub struct ScriptAST {
    pub program: Program,
    pub script: String,
    pub empty: bool,
}

impl ScriptAST {
    /// Parses a script. An empty (or all-whitespace) script is accepted and
    /// evaluates to nothing; a malformed script is rejected with a rendered
    /// parse error.
    pub fn new(script: &str) -> (r: Result<ScriptAST, String>)
        ensures
            r matches Ok(ast) ==> ast.script@ == script@ && ast.program.errors@.len() == 0,
    {
        let tokens = match lex(script) {
            Ok(t) => t,
            Err(e) => { return Err(e.render()); },
        };
        let total = tokens.len();
        if total > 0x10000000 {
            return Err("script too long".to_owned());
        }
        if total == 0 {
            return Ok(
                ScriptAST {
                    program: Program { stmts: Vec::new(), errors: Vec::new() },
                    script: script.to_owned(),
                    empty: true,
                },
            );
        }
        let mut stmts: Vec<Stmt> = Vec::new();
        let mut p: usize = 0;
        while p < total
            invariant
                p <= total,
                total == tokens@.len(),
                tokens@.len() <= 0x10000000,
            decreases total - p,
        {
            match parse_stmt(script, &tokens, p) {
                Ok((stmt, p2)) => {
                    stmts.push(stmt);
                    p = p2;
                },
                Err(e) => { return Err(e.render()); },
            }
        }
        Ok(
            ScriptAST {
                program: Program { stmts, errors: Vec::new() },
                script: script.to_owned(),
                empty: false,
            },
        )
    }
}



/// The mathematical shape of an expression: names and string values as
/// byte sequences.
pub enum ExprV {
    Number { value: i64, span: SourceSpan },
    Str { value: Seq<u8>, span: SourceSpan },
    Bool { value: bool, span: SourceSpan },
    Var { name: Seq<u8>, span: SourceSpan },
    Unary { op: UnaryOp, rhs: Box<ExprV>, span: SourceSpan },
    Binary { lhs: Box<ExprV>, op: BinOp, rhs: Box<ExprV>, span: SourceSpan },
    Call { name: Seq<u8>, args: Seq<ExprV>, span: SourceSpan },
}

/// The mathematical shape of a statement.
pub enum StmtV {
    Let { name: Seq<u8>, expr: ExprV, span: SourceSpan },
    Assign { name: Seq<u8>, expr: ExprV, span: SourceSpan },
    Expr { expr: ExprV, span: SourceSpan },
    Block { stmts: Seq<StmtV>, span: SourceSpan },
    If { condition: ExprV, then_block: Box<StmtV>, else_block: Option<Box<StmtV>>, span: SourceSpan },
    While { condition: ExprV, body: Box<StmtV>, span: SourceSpan },
    Error { span: SourceSpan },
}

/// The shape of an expression tree.
pub open spec fn spec_expr_view(e: Expr) -> ExprV
    decreases e, 1int,
{
    match e {
        Expr::Number { value, span } => ExprV::Number { value, span },
        Expr::Str { value, span } => ExprV::Str { value: value@, span },
        Expr::Bool { value, span } => ExprV::Bool { value, span },
        Expr::Var { name, span } => ExprV::Var { name: name@, span },
        Expr::Unary { op, rhs, span } => ExprV::Unary {
            op,
            rhs: Box::new(spec_expr_view(*rhs)),
            span,
        },
        Expr::Binary { lhs, op, rhs, span } => ExprV::Binary {
            lhs: Box::new(spec_expr_view(*lhs)),
            op,
            rhs: Box::new(spec_expr_view(*rhs)),
            span,
        },
        Expr::Call { name, args, span } => ExprV::Call {
            name: name@,
            args: spec_args_view(args),
            span,
        },
    }
}

/// The shapes of the arguments of a call, from the vector that holds them.
pub open spec fn spec_args_view(v: Vec<Expr>) -> Seq<ExprV>
    decreases v, 0int,
{
    Seq::new(
        v@.len(),
        |i: int|
            if 0 <= i < v@.len() {
                spec_expr_view(v@[i])
            } else {
                vstd::pervasive::arbitrary()
            },
    )
}

/// The two spellings of an expression list's shape agree.
proof fn lemma_args_view_is(v: Vec<Expr>)
    ensures
        spec_args_view(v) == spec_exprs_view(v@),
{
    assert(spec_args_view(v) =~= spec_exprs_view(v@));
}

/// The shapes of a list of expressions.
pub open spec fn spec_exprs_view(s: Seq<Expr>) -> Seq<ExprV> {
    Seq::new(s.len(), |i: int| spec_expr_view(s[i]))
}

/// The shape of a statement tree.
pub open spec fn spec_block_view(v: Vec<Stmt>) -> Seq<StmtV>
    decreases v, 0int,
{
    Seq::new(
        v@.len(),
        |i: int|
            if 0 <= i < v@.len() {
                spec_stmt_view(v@[i])
            } else {
                vstd::pervasive::arbitrary()
            },
    )
}

/// The two spellings of a statement list's shape agree.
proof fn lemma_block_view_is(v: Vec<Stmt>)
    ensures
        spec_block_view(v) == spec_stmts_view(v@),
{
    assert(spec_block_view(v) =~= spec_stmts_view(v@));
}

pub open spec fn spec_stmt_view(s: Stmt) -> StmtV
    decreases s, 1int,
{
    match s {
        Stmt::Let { name, expr, span } => StmtV::Let { name: name@, expr: spec_expr_view(expr), span },
        Stmt::Assign { name, expr, span } => StmtV::Assign {
            name: name@,
            expr: spec_expr_view(expr),
            span,
        },
        Stmt::Expr { expr, span } => StmtV::Expr { expr: spec_expr_view(expr), span },
        Stmt::Block { stmts, span } => StmtV::Block { stmts: spec_block_view(stmts), span },
        Stmt::If { condition, then_block, else_block, span } => StmtV::If {
            condition: spec_expr_view(condition),
            then_block: Box::new(spec_stmt_view(*then_block)),
            else_block: match else_block {
                Some(b) => Some(Box::new(spec_stmt_view(*b))),
                None => None,
            },
            span,
        },
        Stmt::While { condition, body, span } => StmtV::While {
            condition: spec_expr_view(condition),
            body: Box::new(spec_stmt_view(*body)),
            span,
        },
        Stmt::Error { span } => StmtV::Error { span },
    }
}

/// The shapes of a list of statements.
pub open spec fn spec_stmts_view(s: Seq<Stmt>) -> Seq<StmtV> {
    Seq::new(s.len(), |i: int| spec_stmt_view(s[i]))
}

/// The source region of an expression shape.
pub open spec fn spec_v_span(e: ExprV) -> SourceSpan {
    match e {
        ExprV::Number { span, .. } => span,
        ExprV::Str { span, .. } => span,
        ExprV::Bool { span, .. } => span,
        ExprV::Var { span, .. } => span,
        ExprV::Unary { span, .. } => span,
        ExprV::Binary { span, .. } => span,
        ExprV::Call { span, .. } => span,
    }
}

proof fn lemma_expr_view_span(e: Expr)
    ensures
        spec_v_span(spec_expr_view(e)) == e.spec_span(),
{
}

/// The region of the token at `pos`, or of the last token once the input
/// is spent, or the very first source position for an empty input.
pub open spec fn spec_token_span(tokens: Seq<Token>, pos: int) -> SourceSpan {
    if 0 <= pos < tokens.len() {
        tokens[pos].span
    } else if tokens.len() > 0 {
        tokens[tokens.len() - 1].span
    } else {
        SourceSpan { start_line: 1, start_col: 1, end_line: 1, end_col: 1 }
    }
}

/// The region from the start of `a` to the end of `b`.
pub open spec fn spec_span_join(a: SourceSpan, b: SourceSpan) -> SourceSpan {
    SourceSpan {
        start_line: a.start_line,
        start_col: a.start_col,
        end_line: b.end_line,
        end_col: b.end_col,
    }
}

/// What the grammar accepts as a call argument list from `p` on: a
/// comma-separated list of expressions closed by a parenthesis, and where
/// parsing continues. The position guards make the recursion well-founded;
/// the parser never moves backward, so they never fire on its results.
pub open spec fn spec_parse_args(tokens: Seq<Token>, p: int) -> Option<(Seq<ExprV>, int)>
    decreases tokens.len() - p, 14int,
{
    if p < 0 || p > tokens.len() {
        None
    } else {
        match spec_parse_expr(tokens, p) {
            None => None,
            Some((arg, p2)) => if p2 <= p || p2 > tokens.len() {
                None
            } else if p2 < tokens.len() && (tokens[p2].kind matches TokenKind::Comma) {
                if p2 + 1 >= tokens.len() {
                    None
                } else {
                    match spec_parse_args(tokens, p2 + 1) {
                        None => None,
                        Some((rest, end)) => Some((seq![arg] + rest, end)),
                    }
                }
            } else if p2 < tokens.len() && (tokens[p2].kind matches TokenKind::RParen) {
                Some((seq![arg], p2 + 1))
            } else {
                None
            },
        }
    }
}

/// What the grammar accepts as an atom at `pos`: a literal, a name, a
/// call, or a parenthesized expression.
pub open spec fn spec_parse_atom(tokens: Seq<Token>, pos: int) -> Option<(ExprV, int)>
    decreases tokens.len() - pos, 0int,
{
    if pos < 0 || pos >= tokens.len() {
        None
    } else {
        let span = spec_token_span(tokens, pos);
        match tokens[pos].kind {
            TokenKind::Int(v) => Some((ExprV::Number { value: v, span }, pos + 1)),
            TokenKind::Str(sv) => Some((ExprV::Str { value: sv@, span }, pos + 1)),
            TokenKind::True => Some((ExprV::Bool { value: true, span }, pos + 1)),
            TokenKind::False => Some((ExprV::Bool { value: false, span }, pos + 1)),
            TokenKind::LParen => match spec_parse_expr(tokens, pos + 1) {
                Some((inner, p)) => if 0 <= p < tokens.len() && (tokens[p].kind matches TokenKind::RParen) {
                    Some((inner, p + 1))
                } else {
                    None
                },
                None => None,
            },
            TokenKind::Ident(name) => if pos + 1 < tokens.len() && (tokens[pos + 1].kind matches TokenKind::LParen) {
                if pos + 2 < tokens.len() && (tokens[pos + 2].kind matches TokenKind::RParen) {
                    Some(
                        (
                            ExprV::Call {
                                name: name@,
                                args: Seq::empty(),
                                span: spec_span_join(span, spec_token_span(tokens, pos + 2)),
                            },
                            pos + 3,
                        ),
                    )
                } else {
                    match spec_parse_args(tokens, pos + 2) {
                        Some((args, end)) => Some(
                            (
                                ExprV::Call {
                                    name: name@,
                                    args,
                                    span: spec_span_join(span, spec_token_span(tokens, end - 1)),
                                },
                                end,
                            ),
                        ),
                        None => None,
                    }
                }
            } else {
                Some((ExprV::Var { name: name@, span }, pos + 1))
            },
            _ => None,
        }
    }
}

/// What the grammar accepts as a possibly sign- or not-prefixed atom.
pub open spec fn spec_parse_unary(tokens: Seq<Token>, pos: int) -> Option<(ExprV, int)>
    decreases tokens.len() - pos, 1int,
{
    if 0 <= pos < tokens.len() && ((tokens[pos].kind matches TokenKind::Plus)
        || (tokens[pos].kind matches TokenKind::Minus) || (tokens[pos].kind matches TokenKind::Not)) {
        let op = if (tokens[pos].kind matches TokenKind::Plus) {
            UnaryOp::Plus
        } else if (tokens[pos].kind matches TokenKind::Minus) {
            UnaryOp::Minus
        } else {
            UnaryOp::Not
        };
        match spec_parse_atom(tokens, pos + 1) {
            Some((rhs, p)) => Some(
                (
                    ExprV::Unary {
                        op,
                        rhs: Box::new(rhs),
                        span: spec_span_join(spec_token_span(tokens, pos), spec_v_span(rhs)),
                    },
                    p,
                ),
            ),
            None => None,
        }
    } else {
        spec_parse_atom(tokens, pos)
    }
}

/// The operator a product continues with at `p`, if any.
pub open spec fn spec_product_op(tokens: Seq<Token>, p: int) -> Option<BinOp> {
    if 0 <= p < tokens.len() {
        match tokens[p].kind {
            TokenKind::Star => Some(BinOp::Mul),
            TokenKind::Slash => Some(BinOp::Div),
            TokenKind::Percent => Some(BinOp::Mod),
            _ => None,
        }
    } else {
        None
    }
}

/// Folds further factors onto a parsed left operand, left-associatively.
pub open spec fn spec_parse_product_rest(tokens: Seq<Token>, lhs: ExprV, p: int) -> Option<
    (ExprV, int),
>
    decreases tokens.len() - p, 2int,
{
    if p < 0 || p > tokens.len() {
        None
    } else {
        match spec_product_op(tokens, p) {
            None => Some((lhs, p)),
            Some(op) => match spec_parse_unary(tokens, p + 1) {
                None => None,
                Some((rhs, p2)) => if p2 <= p || p2 > tokens.len() {
                    None
                } else {
                    spec_parse_product_rest(
                        tokens,
                        ExprV::Binary {
                            lhs: Box::new(lhs),
                            op,
                            rhs: Box::new(rhs),
                            span: spec_span_join(spec_v_span(lhs), spec_v_span(rhs)),
                        },
                        p2,
                    )
                },
            },
        }
    }
}

/// What the grammar accepts as a product at `pos`.
pub open spec fn spec_parse_product(tokens: Seq<Token>, pos: int) -> Option<(ExprV, int)>
    decreases tokens.len() - pos, 3int,
{
    match spec_parse_unary(tokens, pos) {
        None => None,
        Some((lhs, p)) => if p <= pos || p > tokens.len() {
            None
        } else {
            spec_parse_product_rest(tokens, lhs, p)
        },
    }
}

/// The operator a sum continues with at `p`, if any.
pub open spec fn spec_sum_op(tokens: Seq<Token>, p: int) -> Option<BinOp> {
    if 0 <= p < tokens.len() {
        match tokens[p].kind {
            TokenKind::Plus => Some(BinOp::Add),
            TokenKind::Minus => Some(BinOp::Sub),
            _ => None,
        }
    } else {
        None
    }
}

/// Folds further summands onto a parsed left operand, left-associatively.
pub open spec fn spec_parse_sum_rest(tokens: Seq<Token>, lhs: ExprV, p: int) -> Option<
    (ExprV, int),
>
    decreases tokens.len() - p, 4int,
{
    if p < 0 || p > tokens.len() {
        None
    } else {
        match spec_sum_op(tokens, p) {
            None => Some((lhs, p)),
            Some(op) => match spec_parse_product(tokens, p + 1) {
                None => None,
                Some((rhs, p2)) => if p2 <= p || p2 > tokens.len() {
                    None
                } else {
                    spec_parse_sum_rest(
                        tokens,
                        ExprV::Binary {
                            lhs: Box::new(lhs),
                            op,
                            rhs: Box::new(rhs),
                            span: spec_span_join(spec_v_span(lhs), spec_v_span(rhs)),
                        },
                        p2,
                    )
                },
            },
        }
    }
}

/// What the grammar accepts as a sum at `pos`.
pub open spec fn spec_parse_sum(tokens: Seq<Token>, pos: int) -> Option<(ExprV, int)>
    decreases tokens.len() - pos, 5int,
{
    match spec_parse_product(tokens, pos) {
        None => None,
        Some((lhs, p)) => if p <= pos || p > tokens.len() {
            None
        } else {
            spec_parse_sum_rest(tokens, lhs, p)
        },
    }
}

/// The operator a comparison continues with at `p`, if any.
pub open spec fn spec_cmp_op(tokens: Seq<Token>, p: int) -> Option<BinOp> {
    if 0 <= p < tokens.len() {
        match tokens[p].kind {
            TokenKind::Lt => Some(BinOp::Lt),
            TokenKind::Le => Some(BinOp::Le),
            TokenKind::Gt => Some(BinOp::Gt),
            TokenKind::Ge => Some(BinOp::Ge),
            _ => None,
        }
    } else {
        None
    }
}

/// Folds further compared sums onto a parsed left operand.
pub open spec fn spec_parse_comparison_rest(tokens: Seq<Token>, lhs: ExprV, p: int) -> Option<
    (ExprV, int),
>
    decreases tokens.len() - p, 6int,
{
    if p < 0 || p > tokens.len() {
        None
    } else {
        match spec_cmp_op(tokens, p) {
            None => Some((lhs, p)),
            Some(op) => match spec_parse_sum(tokens, p + 1) {
                None => None,
                Some((rhs, p2)) => if p2 <= p || p2 > tokens.len() {
                    None
                } else {
                    spec_parse_comparison_rest(
                        tokens,
                        ExprV::Binary {
                            lhs: Box::new(lhs),
                            op,
                            rhs: Box::new(rhs),
                            span: spec_span_join(spec_v_span(lhs), spec_v_span(rhs)),
                        },
                        p2,
                    )
                },
            },
        }
    }
}

/// What the grammar accepts as a comparison at `pos`.
pub open spec fn spec_parse_comparison(tokens: Seq<Token>, pos: int) -> Option<(ExprV, int)>
    decreases tokens.len() - pos, 7int,
{
    match spec_parse_sum(tokens, pos) {
        None => None,
        Some((lhs, p)) => if p <= pos || p > tokens.len() {
            None
        } else {
            spec_parse_comparison_rest(tokens, lhs, p)
        },
    }
}

/// The operator an equality continues with at `p`, if any.
pub open spec fn spec_eq_op(tokens: Seq<Token>, p: int) -> Option<BinOp> {
    if 0 <= p < tokens.len() {
        match tokens[p].kind {
            TokenKind::EqEq => Some(BinOp::Eq),
            TokenKind::NotEq => Some(BinOp::Neq),
            _ => None,
        }
    } else {
        None
    }
}

/// Folds further equated comparisons onto a parsed left operand.
pub open spec fn spec_parse_equality_rest(tokens: Seq<Token>, lhs: ExprV, p: int) -> Option<
    (ExprV, int),
>
    decreases tokens.len() - p, 8int,
{
    if p < 0 || p > tokens.len() {
        None
    } else {
        match spec_eq_op(tokens, p) {
            None => Some((lhs, p)),
            Some(op) => match spec_parse_comparison(tokens, p + 1) {
                None => None,
                Some((rhs, p2)) => if p2 <= p || p2 > tokens.len() {
                    None
                } else {
                    spec_parse_equality_rest(
                        tokens,
                        ExprV::Binary {
                            lhs: Box::new(lhs),
                            op,
                            rhs: Box::new(rhs),
                            span: spec_span_join(spec_v_span(lhs), spec_v_span(rhs)),
                        },
                        p2,
                    )
                },
            },
        }
    }
}

/// What the grammar accepts as an equality at `pos`.
pub open spec fn spec_parse_equality(tokens: Seq<Token>, pos: int) -> Option<(ExprV, int)>
    decreases tokens.len() - pos, 9int,
{
    match spec_parse_comparison(tokens, pos) {
        None => None,
        Some((lhs, p)) => if p <= pos || p > tokens.len() {
            None
        } else {
            spec_parse_equality_rest(tokens, lhs, p)
        },
    }
}

/// Folds further conjuncts onto a parsed left operand.
pub open spec fn spec_parse_and_rest(tokens: Seq<Token>, lhs: ExprV, p: int) -> Option<
    (ExprV, int),
>
    decreases tokens.len() - p, 10int,
{
    if p < 0 || p > tokens.len() {
        None
    } else if 0 <= p < tokens.len() && (tokens[p].kind matches TokenKind::AndAnd) {
        match spec_parse_equality(tokens, p + 1) {
            None => None,
            Some((rhs, p2)) => if p2 <= p || p2 > tokens.len() {
                None
            } else {
                spec_parse_and_rest(
                    tokens,
                    ExprV::Binary {
                        lhs: Box::new(lhs),
                        op: BinOp::And,
                        rhs: Box::new(rhs),
                        span: spec_span_join(spec_v_span(lhs), spec_v_span(rhs)),
                    },
                    p2,
                )
            },
        }
    } else {
        Some((lhs, p))
    }
}

/// What the grammar accepts as a conjunction at `pos`.
pub open spec fn spec_parse_and(tokens: Seq<Token>, pos: int) -> Option<(ExprV, int)>
    decreases tokens.len() - pos, 11int,
{
    match spec_parse_equality(tokens, pos) {
        None => None,
        Some((lhs, p)) => if p <= pos || p > tokens.len() {
            None
        } else {
            spec_parse_and_rest(tokens, lhs, p)
        },
    }
}

/// Folds further disjuncts onto a parsed left operand.
pub open spec fn spec_parse_or_rest(tokens: Seq<Token>, lhs: ExprV, p: int) -> Option<
    (ExprV, int),
>
    decreases tokens.len() - p, 12int,
{
    if p < 0 || p > tokens.len() {
        None
    } else if 0 <= p < tokens.len() && (tokens[p].kind matches TokenKind::OrOr) {
        match spec_parse_and(tokens, p + 1) {
            None => None,
            Some((rhs, p2)) => if p2 <= p || p2 > tokens.len() {
                None
            } else {
                spec_parse_or_rest(
                    tokens,
                    ExprV::Binary {
                        lhs: Box::new(lhs),
                        op: BinOp::Or,
                        rhs: Box::new(rhs),
                        span: spec_span_join(spec_v_span(lhs), spec_v_span(rhs)),
                    },
                    p2,
                )
            },
        }
    } else {
        Some((lhs, p))
    }
}

/// What the grammar accepts as an expression at `pos`: the disjunction
/// grammar over the whole operator tower, with the exact tree shape, the
/// spans included, that parsing builds.
pub open spec fn spec_parse_expr(tokens: Seq<Token>, pos: int) -> Option<(ExprV, int)>
    decreases tokens.len() - pos, 13int,
{
    match spec_parse_and(tokens, pos) {
        None => None,
        Some((lhs, p)) => if p <= pos || p > tokens.len() {
            None
        } else {
            spec_parse_or_rest(tokens, lhs, p)
        },
    }
}

/// What the grammar accepts as the inside of a block from `p` on: a list
/// of statements closed by a brace, and the position after the brace.
pub open spec fn spec_parse_block_rest(tokens: Seq<Token>, p: int) -> Option<(Seq<StmtV>, int)>
    decreases tokens.len() - p, 17int,
{
    if p < 0 || p > tokens.len() {
        None
    } else if p < tokens.len() && (tokens[p].kind matches TokenKind::RBrace) {
        Some((Seq::<StmtV>::empty(), p + 1))
    } else if p >= tokens.len() {
        None
    } else {
        match spec_parse_stmt(tokens, p) {
            None => None,
            Some((sv, p2)) => if p2 <= p || p2 > tokens.len() {
                None
            } else {
                match spec_parse_block_rest(tokens, p2) {
                    None => None,
                    Some((rest, end)) => Some((seq![sv] + rest, end)),
                }
            },
        }
    }
}

/// What the grammar accepts as a block at `pos`.
pub open spec fn spec_parse_block(tokens: Seq<Token>, pos: int) -> Option<(StmtV, int)>
    decreases tokens.len() - pos, 15int,
{
    if !(0 <= pos < tokens.len() && (tokens[pos].kind matches TokenKind::LBrace)) {
        None
    } else {
        match spec_parse_block_rest(tokens, pos + 1) {
            None => None,
            Some((stmts, end)) => Some(
                (
                    StmtV::Block {
                        stmts,
                        span: spec_span_join(
                            spec_token_span(tokens, pos),
                            spec_token_span(tokens, end - 1),
                        ),
                    },
                    end,
                ),
            ),
        }
    }
}

/// What the grammar accepts as a statement at `pos`: a `let`, a `while`,
/// an `if` with optional `else`, a block, an assignment, or an expression
/// statement, each with its exact shape and spans.
pub open spec fn spec_parse_stmt(tokens: Seq<Token>, pos: int) -> Option<(StmtV, int)>
    decreases tokens.len() - pos, 16int,
{
    if !(0 <= pos <= tokens.len()) {
        None
    } else {
        let start = spec_token_span(tokens, pos);
        if pos < tokens.len() && (tokens[pos].kind matches TokenKind::KwLet) {
            if pos + 1 < tokens.len() && (tokens[pos + 1].kind matches TokenKind::Ident(_)) && pos + 2
                < tokens.len() && (tokens[pos + 2].kind matches TokenKind::Assign) {
                match spec_parse_expr(tokens, pos + 3) {
                    None => None,
                    Some((ev, p)) => if p < tokens.len() && (tokens[p].kind matches
                        TokenKind::Semi) {
                        Some(
                            (
                                StmtV::Let {
                                    name: tokens[pos + 1].kind->Ident_0@,
                                    expr: ev,
                                    span: spec_span_join(start, spec_token_span(tokens, p)),
                                },
                                p + 1,
                            ),
                        )
                    } else {
                        None
                    },
                }
            } else {
                None
            }
        } else if pos < tokens.len() && (tokens[pos].kind matches TokenKind::KwWhile) {
            match spec_parse_expr(tokens, pos + 1) {
                None => None,
                Some((cond, p)) => if p <= pos || p > tokens.len() {
                    None
                } else {
                    match spec_parse_block(tokens, p) {
                        None => None,
                        Some((body, p2)) => Some(
                            (
                                StmtV::While {
                                    condition: cond,
                                    body: Box::new(body),
                                    span: spec_span_join(
                                        start,
                                        spec_token_span(tokens, p2 - 1),
                                    ),
                                },
                                p2,
                            ),
                        ),
                    }
                },
            }
        } else if pos < tokens.len() && (tokens[pos].kind matches TokenKind::KwIf) {
            match spec_parse_expr(tokens, pos + 1) {
                None => None,
                Some((cond, p)) => if p <= pos || p > tokens.len() {
                    None
                } else {
                    match spec_parse_block(tokens, p) {
                        None => None,
                        Some((thenb, p2)) => if p2 <= p || p2 > tokens.len() {
                            None
                        } else if p2 < tokens.len() && (tokens[p2].kind matches
                            TokenKind::KwElse) {
                            match spec_parse_block(tokens, p2 + 1) {
                                None => None,
                                Some((elseb, p3)) => Some(
                                    (
                                        StmtV::If {
                                            condition: cond,
                                            then_block: Box::new(thenb),
                                            else_block: Some(Box::new(elseb)),
                                            span: spec_span_join(
                                                start,
                                                spec_token_span(tokens, p3 - 1),
                                            ),
                                        },
                                        p3,
                                    ),
                                ),
                            }
                        } else {
                            Some(
                                (
                                    StmtV::If {
                                        condition: cond,
                                        then_block: Box::new(thenb),
                                        else_block: None,
                                        span: spec_span_join(
                                            start,
                                            spec_token_span(tokens, p2 - 1),
                                        ),
                                    },
                                    p2,
                                ),
                            )
                        },
                    }
                },
            }
        } else if pos < tokens.len() && (tokens[pos].kind matches TokenKind::LBrace) {
            spec_parse_block(tokens, pos)
        } else if pos < tokens.len() && (tokens[pos].kind matches TokenKind::Ident(_)) && pos + 1
            < tokens.len() && (tokens[pos + 1].kind matches TokenKind::Assign) {
            match spec_parse_expr(tokens, pos + 2) {
                None => None,
                Some((ev, p)) => if p < tokens.len() && (tokens[p].kind matches TokenKind::Semi) {
                    Some(
                        (
                            StmtV::Assign {
                                name: tokens[pos].kind->Ident_0@,
                                expr: ev,
                                span: spec_span_join(start, spec_token_span(tokens, p)),
                            },
                            p + 1,
                        ),
                    )
                } else {
                    None
                },
            }
        } else {
            match spec_parse_expr(tokens, pos) {
                None => None,
                Some((ev, p)) => if p < tokens.len() && (tokens[p].kind matches TokenKind::Semi) {
                    Some(
                        (
                            StmtV::Expr {
                                expr: ev,
                                span: spec_span_join(start, spec_token_span(tokens, p)),
                            },
                            p + 1,
                        ),
                    )
                } else {
                    None
                },
            }
        }
    }
}

/// What the grammar accepts as a whole program from `pos` on: statements
/// until the input is spent.
pub open spec fn spec_parse_program(tokens: Seq<Token>, pos: int) -> Option<Seq<StmtV>>
    decreases tokens.len() - pos, 18int,
{
    if pos < 0 || pos > tokens.len() {
        None
    } else if pos == tokens.len() {
        Some(Seq::<StmtV>::empty())
    } else {
        match spec_parse_stmt(tokens, pos) {
            None => None,
            Some((sv, p)) => if p <= pos || p > tokens.len() {
                None
            } else {
                match spec_parse_program(tokens, p) {
                    None => None,
                    Some(rest) => Some(seq![sv] + rest),
                }
            },
        }
    }
}
} // verus!
