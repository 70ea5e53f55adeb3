use vstd::prelude::*;

verus! {

/// One lexical token, carrying the exact source substring (its lexeme) that
/// produced it. The variant set is the closed vocabulary of the scanner:
/// punctuators, assignment operators, reserved words, and a catch-all
/// `Unknown` for any character the dispatch does not recognize.
#[derive(PartialEq, Debug)]
pub enum Token<'a> {
    // Punctuators
    Lparen(&'a str),         // (
    Rparen(&'a str),         // )
    Lbrack(&'a str),         // [
    Rbrack(&'a str),         // ]
    Lbrace(&'a str),         // {
    Rbrace(&'a str),         // }
    Colon(&'a str),          // :
    Semicolon(&'a str),      // ;
    Period(&'a str),         // .
    Conditional(&'a str),    // ?
    Inc(&'a str),            // ++
    Dec(&'a str),            // --
    Arrow(&'a str),          // =>
    // Assignment operators
    Assign(&'a str),         // =
    AssignBitOr(&'a str),    // |=
    AssignBitXor(&'a str),   // ^=
    AssignBitAnd(&'a str),   // &=
    AssignShl(&'a str),      // <<=
    AssignSar(&'a str),      // >>=
    AssignShr(&'a str),      // >>>=
    AssignAdd(&'a str),      // +=
    AssignSub(&'a str),      // -=
    AssignMul(&'a str),      // *=
    AssignDiv(&'a str),      // /=
    AssignMod(&'a str),      // %=
    // Reserved words
    Await(&'a str),
    Break(&'a str),
    Case(&'a str),
    Catch(&'a str),
    Class(&'a str),
    Const(&'a str),
    Continue(&'a str),
    Debugger(&'a str),
    Default(&'a str),
    Delete(&'a str),
    Do(&'a str),
    Else(&'a str),
    Export(&'a str),
    Extends(&'a str),
    False(&'a str),
    Finally(&'a str),
    For(&'a str),
    Function(&'a str),
    If(&'a str),
    Import(&'a str),
    In(&'a str),
    Instanceof(&'a str),
    Let(&'a str),
    New(&'a str),
    Null(&'a str),
    Return(&'a str),
    Super(&'a str),
    Switch(&'a str),
    This(&'a str),
    Throw(&'a str),
    True(&'a str),
    Try(&'a str),
    Typeof(&'a str),
    Var(&'a str),
    Void(&'a str),
    While(&'a str),
    With(&'a str),
    Yield(&'a str),
    // When none other matches
    Unknown(&'a str),
}

/// The tag of a token: which variant it is, with the lexeme stripped off.
/// Contracts use it to state which token the scanner's dispatch must pick,
/// independently of the lexeme the token carries.
#[derive(PartialEq, Eq, Structural, Debug, Clone, Copy)]
pub enum TokenKind {
    Lparen,
    Rparen,
    Lbrack,
    Rbrack,
    Lbrace,
    Rbrace,
    Colon,
    Semicolon,
    Period,
    Conditional,
    Inc,
    Dec,
    Arrow,
    Assign,
    AssignBitOr,
    AssignBitXor,
    AssignBitAnd,
    AssignShl,
    AssignSar,
    AssignShr,
    AssignAdd,
    AssignSub,
    AssignMul,
    AssignDiv,
    AssignMod,
    Await,
    Break,
    Case,
    Catch,
    Class,
    Const,
    Continue,
    Debugger,
    Default,
    Delete,
    Do,
    Else,
    Export,
    Extends,
    False,
    Finally,
    For,
    Function,
    If,
    Import,
    In,
    Instanceof,
    Let,
    New,
    Null,
    Return,
    Super,
    Switch,
    This,
    Throw,
    True,
    Try,
    Typeof,
    Var,
    Void,
    While,
    With,
    Yield,
    Unknown,
}

impl<'a> Token<'a> {
    /// The tag of this token.
    pub open spec fn kind(self) -> TokenKind {
        match self {
            Token::Lparen(_) => TokenKind::Lparen,
            Token::Rparen(_) => TokenKind::Rparen,
            Token::Lbrack(_) => TokenKind::Lbrack,
            Token::Rbrack(_) => TokenKind::Rbrack,
            Token::Lbrace(_) => TokenKind::Lbrace,
            Token::Rbrace(_) => TokenKind::Rbrace,
            Token::Colon(_) => TokenKind::Colon,
            Token::Semicolon(_) => TokenKind::Semicolon,
            Token::Period(_) => TokenKind::Period,
            Token::Conditional(_) => TokenKind::Conditional,
            Token::Inc(_) => TokenKind::Inc,
            Token::Dec(_) => TokenKind::Dec,
            Token::Arrow(_) => TokenKind::Arrow,
            Token::Assign(_) => TokenKind::Assign,
            Token::AssignBitOr(_) => TokenKind::AssignBitOr,
            Token::AssignBitXor(_) => TokenKind::AssignBitXor,
            Token::AssignBitAnd(_) => TokenKind::AssignBitAnd,
            Token::AssignShl(_) => TokenKind::AssignShl,
            Token::AssignSar(_) => TokenKind::AssignSar,
            Token::AssignShr(_) => TokenKind::AssignShr,
            Token::AssignAdd(_) => TokenKind::AssignAdd,
            Token::AssignSub(_) => TokenKind::AssignSub,
            Token::AssignMul(_) => TokenKind::AssignMul,
            Token::AssignDiv(_) => TokenKind::AssignDiv,
            Token::AssignMod(_) => TokenKind::AssignMod,
            Token::Await(_) => TokenKind::Await,
            Token::Break(_) => TokenKind::Break,
            Token::Case(_) => TokenKind::Case,
            Token::Catch(_) => TokenKind::Catch,
            Token::Class(_) => TokenKind::Class,
            Token::Const(_) => TokenKind::Const,
            Token::Continue(_) => TokenKind::Continue,
            Token::Debugger(_) => TokenKind::Debugger,
            Token::Default(_) => TokenKind::Default,
            Token::Delete(_) => TokenKind::Delete,
            Token::Do(_) => TokenKind::Do,
            Token::Else(_) => TokenKind::Else,
            Token::Export(_) => TokenKind::Export,
            Token::Extends(_) => TokenKind::Extends,
            Token::False(_) => TokenKind::False,
            Token::Finally(_) => TokenKind::Finally,
            Token::For(_) => TokenKind::For,
            Token::Function(_) => TokenKind::Function,
            Token::If(_) => TokenKind::If,
            Token::Import(_) => TokenKind::Import,
            Token::In(_) => TokenKind::In,
            Token::Instanceof(_) => TokenKind::Instanceof,
            Token::Let(_) => TokenKind::Let,
            Token::New(_) => TokenKind::New,
            Token::Null(_) => TokenKind::Null,
            Token::Return(_) => TokenKind::Return,
            Token::Super(_) => TokenKind::Super,
            Token::Switch(_) => TokenKind::Switch,
            Token::This(_) => TokenKind::This,
            Token::Throw(_) => TokenKind::Throw,
            Token::True(_) => TokenKind::True,
            Token::Try(_) => TokenKind::Try,
            Token::Typeof(_) => TokenKind::Typeof,
            Token::Var(_) => TokenKind::Var,
            Token::Void(_) => TokenKind::Void,
            Token::While(_) => TokenKind::While,
            Token::With(_) => TokenKind::With,
            Token::Yield(_) => TokenKind::Yield,
            Token::Unknown(_) => TokenKind::Unknown,
        }
    }

    /// The characters of the token's lexeme: the exact substring of the
    /// source that this token was derived from.
    pub open spec fn lexeme(self) -> Seq<char> {
        match self {
            Token::Lparen(s) => s@,
            Token::Rparen(s) => s@,
            Token::Lbrack(s) => s@,
            Token::Rbrack(s) => s@,
            Token::Lbrace(s) => s@,
            Token::Rbrace(s) => s@,
            Token::Colon(s) => s@,
            Token::Semicolon(s) => s@,
            Token::Period(s) => s@,
            Token::Conditional(s) => s@,
            Token::Inc(s) => s@,
            Token::Dec(s) => s@,
            Token::Arrow(s) => s@,
            Token::Assign(s) => s@,
            Token::AssignBitOr(s) => s@,
            Token::AssignBitXor(s) => s@,
            Token::AssignBitAnd(s) => s@,
            Token::AssignShl(s) => s@,
            Token::AssignSar(s) => s@,
            Token::AssignShr(s) => s@,
            Token::AssignAdd(s) => s@,
            Token::AssignSub(s) => s@,
            Token::AssignMul(s) => s@,
            Token::AssignDiv(s) => s@,
            Token::AssignMod(s) => s@,
            Token::Await(s) => s@,
            Token::Break(s) => s@,
            Token::Case(s) => s@,
            Token::Catch(s) => s@,
            Token::Class(s) => s@,
            Token::Const(s) => s@,
            Token::Continue(s) => s@,
            Token::Debugger(s) => s@,
            Token::Default(s) => s@,
            Token::Delete(s) => s@,
            Token::Do(s) => s@,
            Token::Else(s) => s@,
            Token::Export(s) => s@,
            Token::Extends(s) => s@,
            Token::False(s) => s@,
            Token::Finally(s) => s@,
            Token::For(s) => s@,
            Token::Function(s) => s@,
            Token::If(s) => s@,
            Token::Import(s) => s@,
            Token::In(s) => s@,
            Token::Instanceof(s) => s@,
            Token::Let(s) => s@,
            Token::New(s) => s@,
            Token::Null(s) => s@,
            Token::Return(s) => s@,
            Token::Super(s) => s@,
            Token::Switch(s) => s@,
            Token::This(s) => s@,
            Token::Throw(s) => s@,
            Token::True(s) => s@,
            Token::Try(s) => s@,
            Token::Typeof(s) => s@,
            Token::Var(s) => s@,
            Token::Void(s) => s@,
            Token::While(s) => s@,
            Token::With(s) => s@,
            Token::Yield(s) => s@,
            Token::Unknown(s) => s@,
        }
    }
}

} // verus!
