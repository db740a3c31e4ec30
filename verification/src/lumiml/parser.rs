//! The LumiML reader and parser.
use super::model::{
    attr_loop, children, debug_text, element, expected_ident_msg, ident_char, ident_end,
    kind_of_name, leaf, next_tok, page, parse_doc, peek, scan_string, skip, skip_from, start,
    step, syntax_at, tok_debug, unexpected_char_msg, Cursor, ElementKind, Failure, Tok, Tree,
    lemma_next_tok_bounds, lemma_skip_bounds, lemma_skip_idempotent,
};
use super::node::{attrs_unique, lemma_attrs_unique_intro, ElementType, LumiNode};
use crate::text::{
    char_is_alphanumeric, chars_of, keys_unique, same_text, string_of_range, string_push,
};
use crate::protocol::error::{decimal, push_decimal};
use vstd::prelude::*;

verus! {

/// Calls `format!("{:?}", ..)` on a string, which writes it quoted and
/// escaped as Rust's `Debug` formatting does; the result is named
/// `debug_text`.
#[verifier::external_body]
fn string_debug(s: &String) -> (r: String)
    ensures
        r@ == debug_text(s@),
{
    format!("{:?}", s)
}

/// Why a LumiML document could not be parsed.
#[derive(Debug)]
pub enum ParseError {
    SyntaxError { line: usize, col: usize, msg: String },
    UnexpectedEof,
}

impl View for ParseError {
    type V = Failure;

    open spec fn view(&self) -> Failure {
        match self {
            ParseError::SyntaxError { line, col, msg } => Failure::Syntax {
                line: *line as int,
                col: *col as int,
                msg: msg@,
            },
            ParseError::UnexpectedEof => Failure::Eof,
        }
    }
}

impl ParseError {
    /// The text that describes the error.
    pub open spec fn spec_message(&self) -> Seq<char> {
        match self {
            ParseError::SyntaxError { line, col, msg } => "Unexpected token at line "@ + decimal(
                *line as nat,
            ) + ", col "@ + decimal(*col as nat) + ": "@ + msg@,
            ParseError::UnexpectedEof => "Unexpected end of input"@,
        }
    }

    /// The text that describes the error.
    pub fn message(&self) -> (m: String)
        ensures
            m@ == self.spec_message(),
    {
        match self {
            ParseError::SyntaxError { line, col, msg } => {
                let mut m = String::from_str("Unexpected token at line ");
                push_decimal(&mut m, *line as u64);
                m.append(", col ");
                push_decimal(&mut m, *col as u64);
                m.append(": ");
                m.append(msg.as_str());
                m
            },
            ParseError::UnexpectedEof => String::from_str("Unexpected end of input"),
        }
    }
}

#[derive(Debug)]
enum Token {
    Identifier(String),
    StringLiteral(String),
    BraceOpen,
    BraceClose,
}

impl View for Token {
    type V = Tok;

    closed spec fn view(&self) -> Tok {
        match self {
            Token::Identifier(s) => Tok::Ident(s@),
            Token::StringLiteral(s) => Tok::Str(s@),
            Token::BraceOpen => Tok::Open,
            Token::BraceClose => Tok::Close,
        }
    }
}

spec fn token_outcome(r: Result<Option<Token>, ParseError>) -> Result<Option<Tok>, Failure> {
    match r {
        Ok(Some(t)) => Ok(Some(t@)),
        Ok(None) => Ok(None),
        Err(e) => Err(e@),
    }
}

pub open spec fn tree_outcome(r: Result<LumiNode, ParseError>) -> Result<Tree, Failure> {
    match r {
        Ok(n) => Ok(n@),
        Err(e) => Err(e@),
    }
}

fn is_ident_char(c: char) -> (r: bool)
    ensures
        r == ident_char(c),
{
    char_is_alphanumeric(c) || c == '_' || c == '-'
}

fn syntax_error(line: usize, col: usize, msg: String) -> (e: ParseError)
    ensures
        e@ == (Failure::Syntax { line: line as int, col: col as int, msg: msg@ }),
{
    ParseError::SyntaxError { line, col, msg }
}

/// A reading position in a text, with the line and column it reports.
#[derive(Clone, Copy)]
struct Scanner<'a> {
    input: &'a [char],
    pos: usize,
    line: usize,
    col: usize,
}

impl<'a> Scanner<'a> {
    spec fn cursor(&self) -> Cursor {
        Cursor { pos: self.pos as int, line: self.line as int, col: self.col as int }
    }

    spec fn wf(&self) -> bool {
        &&& self.pos <= self.input@.len()
        &&& self.input@.len() < usize::MAX
        &&& self.line <= self.pos + 1
        &&& self.col <= self.pos + 1
    }

    fn skip_whitespace_and_comments(&mut self)
        requires
            old(self).wf(),
        ensures
            final(self).wf(),
            final(self).input == old(self).input,
            final(self).cursor() == skip(old(self).input@, old(self).cursor()),
    {
        let ghost s = self.input@;
        let ghost target = skip(s, self.cursor());
        while self.pos < self.input.len()
            invariant
                target == skip(old(self).input@, old(self).cursor()),
                self.wf(),
                self.input == old(self).input,
                self.input@ == s,
                skip_from(s, self.cursor(), false) == target,
            decreases self.input@.len() - self.pos,
        {
            let c = self.input[self.pos];
            if c == ' ' || c == '\t' || c == '\r' {
                self.col = self.col + 1;
                self.pos = self.pos + 1;
            } else if c == '\n' {
                self.line = self.line + 1;
                self.col = 1;
                self.pos = self.pos + 1;
            } else if c == '/' && self.pos + 1 < self.input.len() && self.input[self.pos + 1]
                == '/' {
                let ghost p0 = self.pos;
                self.pos = self.pos + 1;
                while self.pos < self.input.len() && self.input[self.pos] != '\n'
                    invariant
                        self.pos > p0,
                        self.wf(),
                        self.input == old(self).input,
                        self.input@ == s,
                        skip_from(s, self.cursor(), true) == target,
                    decreases self.input@.len() - self.pos,
                {
                    self.pos = self.pos + 1;
                }
            } else {
                return;
            }
        }
    }

    fn next_token(&mut self) -> (r: Result<Option<Token>, ParseError>)
        requires
            old(self).wf(),
        ensures
            final(self).wf(),
            final(self).input == old(self).input,
            (token_outcome(r), final(self).cursor()) == next_tok(
                old(self).input@,
                old(self).cursor(),
            ),
    {
        let ghost s = self.input@;
        let ghost c = self.cursor();
        self.skip_whitespace_and_comments();
        if self.pos >= self.input.len() {
            return Ok(None);
        }
        let ch = self.input[self.pos];
        if ch == '{' {
            self.pos = self.pos + 1;
            self.col = self.col + 1;
            Ok(Some(Token::BraceOpen))
        } else if ch == '}' {
            self.pos = self.pos + 1;
            self.col = self.col + 1;
            Ok(Some(Token::BraceClose))
        } else if ch == '"' {
            self.pos = self.pos + 1;
            self.col = self.col + 1;
            let ghost target = next_tok(s, c);
            let mut result = String::new();
            let mut escaped = false;
            while self.pos < self.input.len()
                invariant
                    target == next_tok(old(self).input@, old(self).cursor()),
                    self.wf(),
                    self.input == old(self).input,
                    self.input@ == s,
                    scan_string(s, self.cursor(), result@, escaped) == target,
                decreases self.input@.len() - self.pos,
            {
                let c = self.input[self.pos];
                self.pos = self.pos + 1;
                self.col = self.col + 1;
                if escaped {
                    string_push(&mut result, c);
                    escaped = false;
                } else if c == '\\' {
                    escaped = true;
                } else if c == '"' {
                    return Ok(Some(Token::StringLiteral(result)));
                } else {
                    string_push(&mut result, c);
                }
            }
            Err(syntax_error(self.line, self.col, String::from_str("Unterminated string literal")))
        } else if is_ident_char(ch) {
            let start = self.pos;
            let ghost c0 = self.cursor();
            while self.pos < self.input.len() && is_ident_char(self.input[self.pos])
                invariant
                    self.wf(),
                    self.input == old(self).input,
                    self.input@ == s,
                    start <= self.pos,
                    self.line == c0.line,
                    self.col == c0.col + (self.pos - start),
                    ident_end(s, start as int) == ident_end(s, self.pos as int),
                decreases self.input@.len() - self.pos,
            {
                self.pos = self.pos + 1;
                self.col = self.col + 1;
            }
            Ok(Some(Token::Identifier(string_of_range(self.input, start, self.pos))))
        } else {
            let mut msg = String::from_str("Unexpected character '");
            string_push(&mut msg, ch);
            msg.append("'");
            Err(syntax_error(self.line, self.col, msg))
        }
    }

    fn peek_token(&self) -> (r: Result<Option<Token>, ParseError>)
        requires
            self.wf(),
        ensures
            token_outcome(r) == peek(self.input@, self.cursor()),
    {
        let mut clone = *self;
        clone.skip_whitespace_and_comments();
        clone.next_token()
    }
}


fn expected_identifier_message(t: &Token) -> (m: String)
    ensures
        m@ == expected_ident_msg(t@),
{
    let mut m = String::from_str("Expected element identifier, found ");
    let ghost head = m@;
    match t {
        Token::Identifier(v) => {
            m.append("Identifier(");
            let d = string_debug(v);
            m.append(d.as_str());
            m.append(")");
            assert(m@ =~= head + ("Identifier("@ + debug_text(v@) + ")"@));
        },
        Token::StringLiteral(v) => {
            m.append("StringLiteral(");
            let d = string_debug(v);
            m.append(d.as_str());
            m.append(")");
            assert(m@ =~= head + ("StringLiteral("@ + debug_text(v@) + ")"@));
        },
        Token::BraceOpen => {
            m.append("BraceOpen");
        },
        Token::BraceClose => {
            m.append("BraceClose");
        },
    }
    m
}

impl<'a> Scanner<'a> {
    #[verifier::loop_isolation(false)]
    fn parse_element(&mut self) -> (r: Result<LumiNode, ParseError>)
        requires
            old(self).wf(),
        ensures
            final(self).wf(),
            final(self).input == old(self).input,
            (tree_outcome(r), final(self).cursor()) == element(old(self).input@, old(self).cursor()),
            r is Ok ==> final(self).pos > old(self).pos,
            r matches Ok(n) ==> attrs_unique(n),
        decreases old(self).input@.len() - old(self).pos,
    {
        let ghost s = self.input@;
        let ghost c = self.cursor();
        self.skip_whitespace_and_comments();
        let ghost c1 = self.cursor();
        proof {
            lemma_skip_bounds(s, c);
        }
        let token = match self.next_token() {
            Err(e) => return Err(e),
            Ok(None) => return Err(ParseError::UnexpectedEof),
            Ok(Some(t)) => t,
        };
        let ghost c2 = self.cursor();
        proof {
            lemma_next_tok_bounds(s, c1);
        }
        let tag_name = match token {
            Token::Identifier(name) => name,
            other => {
                let msg = expected_identifier_message(&other);
                return Err(syntax_error(self.line, self.col, msg));
            },
        };
        let mut node = LumiNode::new(ElementType::from_str(tag_name.as_str()));
        self.skip_whitespace_and_comments();
        let ghost c3 = self.cursor();
        proof {
            lemma_skip_bounds(s, c2);
            lemma_skip_idempotent(s, c2);
        }
        match self.peek_token() {
            Err(e) => return Err(e),
            Ok(Some(Token::StringLiteral(val))) => {
                match self.next_token() {
                    Err(e) => return Err(e),
                    Ok(_) => {},
                }
                proof {
                    lemma_next_tok_bounds(s, c3);
                }
                node.set_attr(tag_name, val.clone());
                node.value = Some(val);
                assert(node@.children =~= leaf(kind_of_name(tag_name@)).children);
                return Ok(node);
            },
            _ => {},
        }
        match self.peek_token() {
            Err(e) => return Err(e),
            Ok(Some(Token::BraceOpen)) => {
                match self.next_token() {
                    Err(e) => return Err(e),
                    Ok(_) => {},
                }
                let ghost c4 = self.cursor();
                proof {
                    lemma_next_tok_bounds(s, c3);
                }
                let ghost node0 = node@;
                let ghost target = children(s, c4, Seq::empty());
                assert(node@.children =~= Seq::<Tree>::empty());
                loop
                    invariant
                        self.wf(),
                        self.input == old(self).input,
                        self.input@ == s,
                        c == old(self).cursor(),
                        self.pos > c.pos,
                        target == children(s, c4, Seq::empty()),
                        children(s, self.cursor(), node@.children) == target,
                        node@ == (Tree { children: node@.children, ..node0 }),
                        keys_unique(node.attributes@),
                        forall|i: int| 0 <= i < node.children@.len() ==> #[trigger] attrs_unique(node.children@[i]),
                    decreases self.input@.len() - self.pos,
                {
                    let ghost cur = self.cursor();
                    proof {
                        lemma_next_tok_bounds(s, cur);
                    }
                    match self.peek_token() {
                        Err(e) => return Err(e),
                        Ok(None) => {
                            proof {
                                lemma_attrs_unique_intro(node);
                            }
                            return Ok(node);
                        },
                        Ok(Some(Token::BraceClose)) => {
                            match self.next_token() {
                                Err(e) => return Err(e),
                                Ok(_) => {
                                    proof {
                                        lemma_attrs_unique_intro(node);
                                    }
                                    return Ok(node);
                                },
                            }
                        },
                        Ok(Some(_)) => {
                            let child = match self.parse_element() {
                                Err(e) => return Err(e),
                                Ok(ch) => ch,
                            };
                            let ghost kids = node@.children;
                            node.children.push(child);
                            assert(node@.children =~= kids.push(child@));
                        },
                    }
                }
            },
            _ => {},
        }
        let ghost node0 = node@;
        let ghost target = attr_loop(s, c3, node0);
        loop
            invariant
                self.wf(),
                self.input == old(self).input,
                self.input@ == s,
                c == old(self).cursor(),
                self.pos > c.pos,
                target == attr_loop(s, c3, node0),
                attr_loop(s, self.cursor(), node@) == target,
                keys_unique(node.attributes@),
                node.children@.len() == 0,
            decreases self.input@.len() - self.pos,
        {
            let ghost cur = self.cursor();
            proof {
                lemma_skip_bounds(s, cur);
            }
            self.skip_whitespace_and_comments();
            let ghost k1 = self.cursor();
            let next = match self.peek_token() {
                Err(e) => return Err(e),
                Ok(None) => {
                    proof {
                        lemma_attrs_unique_intro(node);
                    }
                    return Ok(node);
                },
                Ok(Some(t)) => t,
            };
            match next {
                Token::Identifier(name) => {
                    let mut clone = *self;
                    clone.skip_whitespace_and_comments();
                    let _ = clone.next_token();
                    clone.skip_whitespace_and_comments();
                    let is_pair = match clone.peek_token() {
                        Ok(Some(Token::StringLiteral(_))) => true,
                        _ => false,
                    };
                    if is_pair {
                        match self.next_token() {
                            Err(e) => return Err(e),
                            Ok(_) => {},
                        }
                        let ghost k2 = self.cursor();
                        self.skip_whitespace_and_comments();
                        let ghost k3 = self.cursor();
                        let r2 = self.next_token();
                        proof {
                            lemma_skip_idempotent(s, cur);
                            lemma_skip_bounds(s, cur);
                            lemma_next_tok_bounds(s, k1);
                            lemma_skip_bounds(s, k2);
                            lemma_next_tok_bounds(s, k3);
                        }
                        match r2 {
                            Err(e) => return Err(e),
                            Ok(Some(Token::StringLiteral(attr_val))) => {
                                node.set_attr(name, attr_val);
                            },
                            Ok(_) => {},
                        }
                    } else {
                        return Ok(node);
                    }
                },
                _ => return Ok(node),
            }
        }
    }

    #[verifier::loop_isolation(false)]
    fn parse_page(&mut self) -> (r: Result<LumiNode, ParseError>)
        requires
            old(self).wf(),
        ensures
            final(self).wf(),
            final(self).input == old(self).input,
            (tree_outcome(r), final(self).cursor()) == page(old(self).input@, old(self).cursor()),
            r matches Ok(n) ==> attrs_unique(n),
    {
        let ghost s = self.input@;
        let ghost c = self.cursor();
        self.skip_whitespace_and_comments();
        let token = match self.next_token() {
            Err(e) => return Err(e),
            Ok(None) => return Err(ParseError::UnexpectedEof),
            Ok(Some(t)) => t,
        };
        let is_page = match &token {
            Token::Identifier(name) => same_text(name.as_str(), "page"),
            _ => false,
        };
        if !is_page {
            return Err(
                syntax_error(self.line, self.col, String::from_str("Document must start with 'page'")),
            );
        }
        let mut page_node = LumiNode::new(ElementType::Page);
        self.skip_whitespace_and_comments();
        match self.next_token() {
            Err(e) => return Err(e),
            Ok(Some(Token::BraceOpen)) => {},
            Ok(_) => {
                return Err(
                    syntax_error(self.line, self.col, String::from_str("Expected '{' after 'page'")),
                );
            },
        }
        let ghost c4 = self.cursor();
        let ghost node0 = page_node@;
        let ghost target = children(s, c4, Seq::empty());
        assert(page_node@.children =~= Seq::<Tree>::empty());
        loop
            invariant
                self.wf(),
                self.input == old(self).input,
                self.input@ == s,
                target == children(s, c4, Seq::empty()),
                children(s, self.cursor(), page_node@.children) == target,
                page_node@ == (Tree { children: page_node@.children, ..node0 }),
                keys_unique(page_node.attributes@),
                forall|i: int| 0 <= i < page_node.children@.len() ==> #[trigger] attrs_unique(page_node.children@[i]),
            decreases self.input@.len() - self.pos,
        {
            match self.peek_token() {
                Err(e) => return Err(e),
                Ok(None) => {
                    proof {
                        lemma_attrs_unique_intro(page_node);
                    }
                    return Ok(page_node);
                },
                Ok(Some(Token::BraceClose)) => {
                    match self.next_token() {
                        Err(e) => return Err(e),
                        Ok(_) => {
                            proof {
                                lemma_attrs_unique_intro(page_node);
                            }
                            return Ok(page_node);
                        },
                    }
                },
                Ok(Some(_)) => {
                    let child = match self.parse_element() {
                        Err(e) => return Err(e),
                        Ok(ch) => ch,
                    };
                    let ghost kids = page_node@.children;
                    page_node.children.push(child);
                    assert(page_node@.children =~= kids.push(child@));
                },
            }
        }
    }
}

/// A LumiML parser over one document.
pub struct Parser {
    chars: Vec<char>,
    pos: usize,
    line: usize,
    col: usize,
}

impl Parser {
    /// The text being parsed.
    pub closed spec fn text(&self) -> Seq<char> {
        self.chars@
    }

    /// Where the parser stands in the text.
    pub closed spec fn cursor(&self) -> Cursor {
        Cursor { pos: self.pos as int, line: self.line as int, col: self.col as int }
    }

    pub closed spec fn wf(&self) -> bool {
        &&& self.pos <= self.chars@.len()
        &&& self.chars@.len() < usize::MAX
        &&& self.line <= self.pos + 1
        &&& self.col <= self.pos + 1
    }

    /// A parser at the start of `input`, on line 1, column 1.
    pub fn new(input: &str) -> (p: Parser)
        requires
            input@.len() < usize::MAX,
        ensures
            p.wf(),
            p.text() == input@,
            p.cursor() == start(),
    {
        Parser { chars: chars_of(input), pos: 0, line: 1, col: 1 }
    }

    /// Reads a page: the identifier `page`, `{`, and the page's elements.
    pub fn parse_page(&mut self) -> (r: Result<LumiNode, ParseError>)
        requires
            old(self).wf(),
        ensures
            final(self).wf(),
            final(self).text() == old(self).text(),
            (tree_outcome(r), final(self).cursor()) == page(old(self).text(), old(self).cursor()),
            r matches Ok(n) ==> attrs_unique(n),
    {
        let mut sc = Scanner { input: self.chars.as_slice(), pos: self.pos, line: self.line, col: self.col };
        let r = sc.parse_page();
        self.pos = sc.pos;
        self.line = sc.line;
        self.col = sc.col;
        r
    }
}

/// Parses a whole LumiML document.
pub fn parse(input: &str) -> (r: Result<LumiNode, ParseError>)
    requires
        input@.len() < usize::MAX,
    ensures
        tree_outcome(r) == parse_doc(input@),
        r matches Ok(n) ==> attrs_unique(n),
{
    let mut parser = Parser::new(input);
    parser.parse_page()
}

} // verus!
