//! The mathematical model of LumiML: element types, trees, tokens, errors,
//! and the grammar as functions from a character sequence and a cursor to
//! an outcome and the cursor where reading stopped.
use crate::text::alphanumeric;
use vstd::prelude::*;

verus! {

/// The kind of an element, as written by its tag name.
pub enum ElementKind {
    Page,
    Title,
    Heading,
    Paragraph,
    Button,
    Text,
    List,
    Item,
    Input,
    Form,
    Image,
    Container,
    Row,
    Column,
    Divider,
    CodeBlock,
    Badge,
    Custom(Seq<char>),
}

/// The kind that a tag name denotes: one of the built-in names, or a
/// custom element that keeps the name.
pub open spec fn kind_of_name(name: Seq<char>) -> ElementKind {
    if name == "page"@ {
        ElementKind::Page
    } else if name == "title"@ {
        ElementKind::Title
    } else if name == "heading"@ {
        ElementKind::Heading
    } else if name == "paragraph"@ {
        ElementKind::Paragraph
    } else if name == "button"@ {
        ElementKind::Button
    } else if name == "text"@ {
        ElementKind::Text
    } else if name == "list"@ {
        ElementKind::List
    } else if name == "item"@ {
        ElementKind::Item
    } else if name == "input"@ {
        ElementKind::Input
    } else if name == "form"@ {
        ElementKind::Form
    } else if name == "image"@ {
        ElementKind::Image
    } else if name == "container"@ {
        ElementKind::Container
    } else if name == "row"@ {
        ElementKind::Row
    } else if name == "column"@ {
        ElementKind::Column
    } else if name == "divider"@ {
        ElementKind::Divider
    } else if name == "codeblock"@ {
        ElementKind::CodeBlock
    } else if name == "badge"@ {
        ElementKind::Badge
    } else {
        ElementKind::Custom(name)
    }
}

/// The tag names that LumiML builds in.
pub open spec fn builtin_tag_names() -> Seq<Seq<char>> {
    seq![
        "page"@,
        "title"@,
        "heading"@,
        "paragraph"@,
        "button"@,
        "text"@,
        "list"@,
        "item"@,
        "input"@,
        "form"@,
        "image"@,
        "container"@,
        "row"@,
        "column"@,
        "divider"@,
        "codeblock"@,
        "badge"@
    ]
}

/// The built-in tag names are pairwise different.
proof fn lemma_builtin_names_distinct()
    ensures
        "title"@ != "page"@,
        "heading"@ != "page"@,
        "heading"@ != "title"@,
        "paragraph"@ != "page"@,
        "paragraph"@ != "title"@,
        "paragraph"@ != "heading"@,
        "button"@ != "page"@,
        "button"@ != "title"@,
        "button"@ != "heading"@,
        "button"@ != "paragraph"@,
        "text"@ != "page"@,
        "text"@ != "title"@,
        "text"@ != "heading"@,
        "text"@ != "paragraph"@,
        "text"@ != "button"@,
        "list"@ != "page"@,
        "list"@ != "title"@,
        "list"@ != "heading"@,
        "list"@ != "paragraph"@,
        "list"@ != "button"@,
        "list"@ != "text"@,
        "item"@ != "page"@,
        "item"@ != "title"@,
        "item"@ != "heading"@,
        "item"@ != "paragraph"@,
        "item"@ != "button"@,
        "item"@ != "text"@,
        "item"@ != "list"@,
        "input"@ != "page"@,
        "input"@ != "title"@,
        "input"@ != "heading"@,
        "input"@ != "paragraph"@,
        "input"@ != "button"@,
        "input"@ != "text"@,
        "input"@ != "list"@,
        "input"@ != "item"@,
        "form"@ != "page"@,
        "form"@ != "title"@,
        "form"@ != "heading"@,
        "form"@ != "paragraph"@,
        "form"@ != "button"@,
        "form"@ != "text"@,
        "form"@ != "list"@,
        "form"@ != "item"@,
        "form"@ != "input"@,
        "image"@ != "page"@,
        "image"@ != "title"@,
        "image"@ != "heading"@,
        "image"@ != "paragraph"@,
        "image"@ != "button"@,
        "image"@ != "text"@,
        "image"@ != "list"@,
        "image"@ != "item"@,
        "image"@ != "input"@,
        "image"@ != "form"@,
        "container"@ != "page"@,
        "container"@ != "title"@,
        "container"@ != "heading"@,
        "container"@ != "paragraph"@,
        "container"@ != "button"@,
        "container"@ != "text"@,
        "container"@ != "list"@,
        "container"@ != "item"@,
        "container"@ != "input"@,
        "container"@ != "form"@,
        "container"@ != "image"@,
        "row"@ != "page"@,
        "row"@ != "title"@,
        "row"@ != "heading"@,
        "row"@ != "paragraph"@,
        "row"@ != "button"@,
        "row"@ != "text"@,
        "row"@ != "list"@,
        "row"@ != "item"@,
        "row"@ != "input"@,
        "row"@ != "form"@,
        "row"@ != "image"@,
        "row"@ != "container"@,
        "column"@ != "page"@,
        "column"@ != "title"@,
        "column"@ != "heading"@,
        "column"@ != "paragraph"@,
        "column"@ != "button"@,
        "column"@ != "text"@,
        "column"@ != "list"@,
        "column"@ != "item"@,
        "column"@ != "input"@,
        "column"@ != "form"@,
        "column"@ != "image"@,
        "column"@ != "container"@,
        "column"@ != "row"@,
        "divider"@ != "page"@,
        "divider"@ != "title"@,
        "divider"@ != "heading"@,
        "divider"@ != "paragraph"@,
        "divider"@ != "button"@,
        "divider"@ != "text"@,
        "divider"@ != "list"@,
        "divider"@ != "item"@,
        "divider"@ != "input"@,
        "divider"@ != "form"@,
        "divider"@ != "image"@,
        "divider"@ != "container"@,
        "divider"@ != "row"@,
        "divider"@ != "column"@,
        "codeblock"@ != "page"@,
        "codeblock"@ != "title"@,
        "codeblock"@ != "heading"@,
        "codeblock"@ != "paragraph"@,
        "codeblock"@ != "button"@,
        "codeblock"@ != "text"@,
        "codeblock"@ != "list"@,
        "codeblock"@ != "item"@,
        "codeblock"@ != "input"@,
        "codeblock"@ != "form"@,
        "codeblock"@ != "image"@,
        "codeblock"@ != "container"@,
        "codeblock"@ != "row"@,
        "codeblock"@ != "column"@,
        "codeblock"@ != "divider"@,
        "badge"@ != "page"@,
        "badge"@ != "title"@,
        "badge"@ != "heading"@,
        "badge"@ != "paragraph"@,
        "badge"@ != "button"@,
        "badge"@ != "text"@,
        "badge"@ != "list"@,
        "badge"@ != "item"@,
        "badge"@ != "input"@,
        "badge"@ != "form"@,
        "badge"@ != "image"@,
        "badge"@ != "container"@,
        "badge"@ != "row"@,
        "badge"@ != "column"@,
        "badge"@ != "divider"@,
        "badge"@ != "codeblock"@,
{
    reveal_strlit("page");
    reveal_strlit("title");
    reveal_strlit("heading");
    reveal_strlit("paragraph");
    reveal_strlit("button");
    reveal_strlit("text");
    reveal_strlit("list");
    reveal_strlit("item");
    reveal_strlit("input");
    reveal_strlit("form");
    reveal_strlit("image");
    reveal_strlit("container");
    reveal_strlit("row");
    reveal_strlit("column");
    reveal_strlit("divider");
    reveal_strlit("codeblock");
    reveal_strlit("badge");
    assert("title"@.len() != "page"@.len());
    assert("heading"@.len() != "page"@.len());
    assert("heading"@.len() != "title"@.len());
    assert("paragraph"@.len() != "page"@.len());
    assert("paragraph"@.len() != "title"@.len());
    assert("paragraph"@.len() != "heading"@.len());
    assert("button"@.len() != "page"@.len());
    assert("button"@.len() != "title"@.len());
    assert("button"@.len() != "heading"@.len());
    assert("button"@.len() != "paragraph"@.len());
    assert("text"@[0] != "page"@[0]);
    assert("text"@.len() != "title"@.len());
    assert("text"@.len() != "heading"@.len());
    assert("text"@.len() != "paragraph"@.len());
    assert("text"@.len() != "button"@.len());
    assert("list"@[0] != "page"@[0]);
    assert("list"@.len() != "title"@.len());
    assert("list"@.len() != "heading"@.len());
    assert("list"@.len() != "paragraph"@.len());
    assert("list"@.len() != "button"@.len());
    assert("list"@[0] != "text"@[0]);
    assert("item"@[0] != "page"@[0]);
    assert("item"@.len() != "title"@.len());
    assert("item"@.len() != "heading"@.len());
    assert("item"@.len() != "paragraph"@.len());
    assert("item"@.len() != "button"@.len());
    assert("item"@[0] != "text"@[0]);
    assert("item"@[0] != "list"@[0]);
    assert("input"@.len() != "page"@.len());
    assert("input"@[0] != "title"@[0]);
    assert("input"@.len() != "heading"@.len());
    assert("input"@.len() != "paragraph"@.len());
    assert("input"@.len() != "button"@.len());
    assert("input"@.len() != "text"@.len());
    assert("input"@.len() != "list"@.len());
    assert("input"@.len() != "item"@.len());
    assert("form"@[0] != "page"@[0]);
    assert("form"@.len() != "title"@.len());
    assert("form"@.len() != "heading"@.len());
    assert("form"@.len() != "paragraph"@.len());
    assert("form"@.len() != "button"@.len());
    assert("form"@[0] != "text"@[0]);
    assert("form"@[0] != "list"@[0]);
    assert("form"@[0] != "item"@[0]);
    assert("form"@.len() != "input"@.len());
    assert("image"@.len() != "page"@.len());
    assert("image"@[0] != "title"@[0]);
    assert("image"@.len() != "heading"@.len());
    assert("image"@.len() != "paragraph"@.len());
    assert("image"@.len() != "button"@.len());
    assert("image"@.len() != "text"@.len());
    assert("image"@.len() != "list"@.len());
    assert("image"@.len() != "item"@.len());
    assert("image"@[1] != "input"@[1]);
    assert("image"@.len() != "form"@.len());
    assert("container"@.len() != "page"@.len());
    assert("container"@.len() != "title"@.len());
    assert("container"@.len() != "heading"@.len());
    assert("container"@[0] != "paragraph"@[0]);
    assert("container"@.len() != "button"@.len());
    assert("container"@.len() != "text"@.len());
    assert("container"@.len() != "list"@.len());
    assert("container"@.len() != "item"@.len());
    assert("container"@.len() != "input"@.len());
    assert("container"@.len() != "form"@.len());
    assert("container"@.len() != "image"@.len());
    assert("row"@.len() != "page"@.len());
    assert("row"@.len() != "title"@.len());
    assert("row"@.len() != "heading"@.len());
    assert("row"@.len() != "paragraph"@.len());
    assert("row"@.len() != "button"@.len());
    assert("row"@.len() != "text"@.len());
    assert("row"@.len() != "list"@.len());
    assert("row"@.len() != "item"@.len());
    assert("row"@.len() != "input"@.len());
    assert("row"@.len() != "form"@.len());
    assert("row"@.len() != "image"@.len());
    assert("row"@.len() != "container"@.len());
    assert("column"@.len() != "page"@.len());
    assert("column"@.len() != "title"@.len());
    assert("column"@.len() != "heading"@.len());
    assert("column"@.len() != "paragraph"@.len());
    assert("column"@[0] != "button"@[0]);
    assert("column"@.len() != "text"@.len());
    assert("column"@.len() != "list"@.len());
    assert("column"@.len() != "item"@.len());
    assert("column"@.len() != "input"@.len());
    assert("column"@.len() != "form"@.len());
    assert("column"@.len() != "image"@.len());
    assert("column"@.len() != "container"@.len());
    assert("column"@.len() != "row"@.len());
    assert("divider"@.len() != "page"@.len());
    assert("divider"@.len() != "title"@.len());
    assert("divider"@[0] != "heading"@[0]);
    assert("divider"@.len() != "paragraph"@.len());
    assert("divider"@.len() != "button"@.len());
    assert("divider"@.len() != "text"@.len());
    assert("divider"@.len() != "list"@.len());
    assert("divider"@.len() != "item"@.len());
    assert("divider"@.len() != "input"@.len());
    assert("divider"@.len() != "form"@.len());
    assert("divider"@.len() != "image"@.len());
    assert("divider"@.len() != "container"@.len());
    assert("divider"@.len() != "row"@.len());
    assert("divider"@.len() != "column"@.len());
    assert("codeblock"@.len() != "page"@.len());
    assert("codeblock"@.len() != "title"@.len());
    assert("codeblock"@.len() != "heading"@.len());
    assert("codeblock"@[0] != "paragraph"@[0]);
    assert("codeblock"@.len() != "button"@.len());
    assert("codeblock"@.len() != "text"@.len());
    assert("codeblock"@.len() != "list"@.len());
    assert("codeblock"@.len() != "item"@.len());
    assert("codeblock"@.len() != "input"@.len());
    assert("codeblock"@.len() != "form"@.len());
    assert("codeblock"@.len() != "image"@.len());
    assert("codeblock"@[2] != "container"@[2]);
    assert("codeblock"@.len() != "row"@.len());
    assert("codeblock"@.len() != "column"@.len());
    assert("codeblock"@.len() != "divider"@.len());
    assert("badge"@.len() != "page"@.len());
    assert("badge"@[0] != "title"@[0]);
    assert("badge"@.len() != "heading"@.len());
    assert("badge"@.len() != "paragraph"@.len());
    assert("badge"@.len() != "button"@.len());
    assert("badge"@.len() != "text"@.len());
    assert("badge"@.len() != "list"@.len());
    assert("badge"@.len() != "item"@.len());
    assert("badge"@[0] != "input"@[0]);
    assert("badge"@.len() != "form"@.len());
    assert("badge"@[0] != "image"@[0]);
    assert("badge"@.len() != "container"@.len());
    assert("badge"@.len() != "row"@.len());
    assert("badge"@.len() != "column"@.len());
    assert("badge"@.len() != "divider"@.len());
    assert("badge"@.len() != "codeblock"@.len());
}

/// Each built-in tag name denotes its own kind of element.
pub proof fn law_builtin_tags()
    ensures
        kind_of_name("page"@) == ElementKind::Page,
        kind_of_name("title"@) == ElementKind::Title,
        kind_of_name("heading"@) == ElementKind::Heading,
        kind_of_name("paragraph"@) == ElementKind::Paragraph,
        kind_of_name("button"@) == ElementKind::Button,
        kind_of_name("text"@) == ElementKind::Text,
        kind_of_name("list"@) == ElementKind::List,
        kind_of_name("item"@) == ElementKind::Item,
        kind_of_name("input"@) == ElementKind::Input,
        kind_of_name("form"@) == ElementKind::Form,
        kind_of_name("image"@) == ElementKind::Image,
        kind_of_name("container"@) == ElementKind::Container,
        kind_of_name("row"@) == ElementKind::Row,
        kind_of_name("column"@) == ElementKind::Column,
        kind_of_name("divider"@) == ElementKind::Divider,
        kind_of_name("codeblock"@) == ElementKind::CodeBlock,
        kind_of_name("badge"@) == ElementKind::Badge,
{
    reveal_strlit("page");
    reveal_strlit("title");
    reveal_strlit("heading");
    reveal_strlit("paragraph");
    reveal_strlit("button");
    reveal_strlit("text");
    reveal_strlit("list");
    reveal_strlit("item");
    reveal_strlit("input");
    reveal_strlit("form");
    reveal_strlit("image");
    reveal_strlit("container");
    reveal_strlit("row");
    reveal_strlit("column");
    reveal_strlit("divider");
    reveal_strlit("codeblock");
    reveal_strlit("badge");
    lemma_builtin_names_distinct();
}

/// A tag name gives a custom element exactly when it is not one of the
/// built-in names, and a custom element keeps the name it was written with.
pub proof fn law_custom_tags(name: Seq<char>)
    ensures
        (kind_of_name(name) is Custom) <==> !builtin_tag_names().contains(name),
        kind_of_name(name) is Custom ==> kind_of_name(name) == ElementKind::Custom(name),
{
    reveal_strlit("page");
    reveal_strlit("title");
    reveal_strlit("heading");
    reveal_strlit("paragraph");
    reveal_strlit("button");
    reveal_strlit("text");
    reveal_strlit("list");
    reveal_strlit("item");
    reveal_strlit("input");
    reveal_strlit("form");
    reveal_strlit("image");
    reveal_strlit("container");
    reveal_strlit("row");
    reveal_strlit("column");
    reveal_strlit("divider");
    reveal_strlit("codeblock");
    reveal_strlit("badge");
    if builtin_tag_names().contains(name) {
        let i = choose|i: int| 0 <= i < builtin_tag_names().len() && builtin_tag_names()[i] == name;
        assert(0 <= i < 17);
    } else {
        assert(builtin_tag_names()[0] == "page"@);
        assert(builtin_tag_names()[1] == "title"@);
        assert(builtin_tag_names()[2] == "heading"@);
        assert(builtin_tag_names()[3] == "paragraph"@);
        assert(builtin_tag_names()[4] == "button"@);
        assert(builtin_tag_names()[5] == "text"@);
        assert(builtin_tag_names()[6] == "list"@);
        assert(builtin_tag_names()[7] == "item"@);
        assert(builtin_tag_names()[8] == "input"@);
        assert(builtin_tag_names()[9] == "form"@);
        assert(builtin_tag_names()[10] == "image"@);
        assert(builtin_tag_names()[11] == "container"@);
        assert(builtin_tag_names()[12] == "row"@);
        assert(builtin_tag_names()[13] == "column"@);
        assert(builtin_tag_names()[14] == "divider"@);
        assert(builtin_tag_names()[15] == "codeblock"@);
        assert(builtin_tag_names()[16] == "badge"@);
    }
}

/// A document tree: the element's kind, its attributes, its text value and
/// its children in document order.
pub struct Tree {
    pub kind: ElementKind,
    pub attrs: Map<Seq<char>, Seq<char>>,
    pub value: Option<Seq<char>>,
    pub children: Seq<Tree>,
}

/// A fresh element of the given kind: no attributes, no value, no children.
pub open spec fn leaf(kind: ElementKind) -> Tree {
    Tree { kind, attrs: Map::empty(), value: None, children: Seq::empty() }
}

/// A position in the source: the index of the next character, and the
/// line and column that the reader reports there.
pub struct Cursor {
    pub pos: int,
    pub line: int,
    pub col: int,
}

/// A lexical token of LumiML.
pub enum Tok {
    Ident(Seq<char>),
    Str(Seq<char>),
    Open,
    Close,
}

/// A parse failure: a syntax error at a line and column with a message, or
/// input that ended where an element was required.
pub enum Failure {
    Syntax { line: int, col: int, msg: Seq<char> },
    Eof,
}

pub open spec fn syntax_at(c: Cursor, msg: Seq<char>) -> Failure {
    Failure::Syntax { line: c.line, col: c.col, msg }
}

/// The cursor one character further on the same line.
pub open spec fn step(c: Cursor) -> Cursor {
    Cursor { pos: c.pos + 1, line: c.line, col: c.col + 1 }
}

/// Characters that may appear in an identifier.
pub open spec fn ident_char(c: char) -> bool {
    alphanumeric(c) || c == '_' || c == '-'
}

/// Spaces, tabs and carriage returns advance the column; a newline starts
/// the next line at column 1; `//` starts a comment that runs to the end of
/// the line and moves neither the line nor the column. `in_comment` says
/// that the reader is inside such a comment.
pub open spec fn skip_from(s: Seq<char>, c: Cursor, in_comment: bool) -> Cursor
    decreases s.len() - c.pos, if in_comment { 1int } else { 0int },
{
    if in_comment {
        if 0 <= c.pos < s.len() && s[c.pos] != '\n' {
            skip_from(s, Cursor { pos: c.pos + 1, ..c }, true)
        } else {
            skip_from(s, c, false)
        }
    } else if 0 <= c.pos < s.len() {
        let ch = s[c.pos];
        if ch == ' ' || ch == '\t' || ch == '\r' {
            skip_from(s, step(c), false)
        } else if ch == '\n' {
            skip_from(s, Cursor { pos: c.pos + 1, line: c.line + 1, col: 1 }, false)
        } else if ch == '/' && c.pos + 1 < s.len() && s[c.pos + 1] == '/' {
            skip_from(s, Cursor { pos: c.pos + 1, ..c }, true)
        } else {
            c
        }
    } else {
        c
    }
}

/// The cursor after the blanks and comments that start at `c`.
pub open spec fn skip(s: Seq<char>, c: Cursor) -> Cursor {
    skip_from(s, c, false)
}

/// The end of the identifier that starts at `p`.
pub open spec fn ident_end(s: Seq<char>, p: int) -> int
    decreases s.len() - p,
{
    if 0 <= p < s.len() && ident_char(s[p]) {
        ident_end(s, p + 1)
    } else {
        p
    }
}

/// The rest of a string literal from `c`: `acc` holds the characters read
/// so far and `escaped` says that a backslash came just before. A backslash
/// takes the next character literally; a quote ends the literal.
pub open spec fn scan_string(s: Seq<char>, c: Cursor, acc: Seq<char>, escaped: bool) -> (
    Result<Option<Tok>, Failure>,
    Cursor,
)
    decreases s.len() - c.pos,
{
    if 0 <= c.pos < s.len() {
        let ch = s[c.pos];
        let next = step(c);
        if escaped {
            scan_string(s, next, acc.push(ch), false)
        } else if ch == '\\' {
            scan_string(s, next, acc, true)
        } else if ch == '"' {
            (Ok(Some(Tok::Str(acc))), next)
        } else {
            scan_string(s, next, acc.push(ch), false)
        }
    } else {
        (Err(syntax_at(c, "Unterminated string literal"@)), c)
    }
}

pub open spec fn unexpected_char_msg(ch: char) -> Seq<char> {
    "Unexpected character '"@.push(ch) + "'"@
}

/// The token that starts exactly at `c`, with no blanks skipped.
pub open spec fn scan(s: Seq<char>, c: Cursor) -> (Result<Option<Tok>, Failure>, Cursor) {
    if !(0 <= c.pos < s.len()) {
        (Ok(None), c)
    } else {
        let ch = s[c.pos];
        if ch == '{' {
            (Ok(Some(Tok::Open)), step(c))
        } else if ch == '}' {
            (Ok(Some(Tok::Close)), step(c))
        } else if ch == '"' {
            scan_string(s, step(c), Seq::empty(), false)
        } else if ident_char(ch) {
            let e = ident_end(s, c.pos);
            (
                Ok(Some(Tok::Ident(s.subrange(c.pos, e)))),
                Cursor { pos: e, line: c.line, col: c.col + (e - c.pos) },
            )
        } else {
            (Err(syntax_at(c, unexpected_char_msg(ch))), c)
        }
    }
}

/// Reading the next token: blanks and comments are skipped first.
pub open spec fn next_tok(s: Seq<char>, c: Cursor) -> (Result<Option<Tok>, Failure>, Cursor) {
    scan(s, skip(s, c))
}

/// Looking at the next token without moving.
pub open spec fn peek(s: Seq<char>, c: Cursor) -> Result<Option<Tok>, Failure> {
    next_tok(s, skip(s, c)).0
}

/// The text of a string as Rust's `Debug` formatting writes it: quoted,
/// with special characters escaped.
pub uninterp spec fn debug_text(s: Seq<char>) -> Seq<char>;

/// A token as Rust's derived `Debug` formatting writes it.
pub open spec fn tok_debug(t: Tok) -> Seq<char> {
    match t {
        Tok::Ident(v) => "Identifier("@ + debug_text(v) + ")"@,
        Tok::Str(v) => "StringLiteral("@ + debug_text(v) + ")"@,
        Tok::Open => "BraceOpen"@,
        Tok::Close => "BraceClose"@,
    }
}

pub open spec fn expected_ident_msg(t: Tok) -> Seq<char> {
    "Expected element identifier, found "@ + tok_debug(t)
}

/// The attribute pairs that follow an element's tag: a name followed by a
/// string literal is an attribute; anything else ends the element. A later
/// pair with the same name replaces an earlier one.
pub open spec fn attr_loop(s: Seq<char>, c: Cursor, node: Tree) -> (Result<Tree, Failure>, Cursor)
    decreases s.len() - c.pos,
{
    let c1 = skip(s, c);
    match peek(s, c1) {
        Err(e) => (Err(e), c1),
        Ok(Some(Tok::Ident(name))) => {
            let k2 = next_tok(s, skip(s, c1)).1;
            let k3 = skip(s, k2);
            if peek(s, k3) matches Ok(Some(Tok::Str(_))) {
                let (r1, c2) = next_tok(s, c1);
                if r1 is Err {
                    (Err(r1->Err_0), c2)
                } else {
                    let c3 = skip(s, c2);
                    let (r2, c4) = next_tok(s, c3);
                    proof {
                        lemma_skip_idempotent(s, c);
                        lemma_skip_bounds(s, c);
                        lemma_next_tok_bounds(s, c1);
                        lemma_skip_bounds(s, c2);
                        lemma_next_tok_bounds(s, c3);
                    }
                    match r2 {
                        Err(e) => (Err(e), c4),
                        Ok(Some(Tok::Str(v))) => attr_loop(
                            s,
                            c4,
                            Tree { attrs: node.attrs.insert(name, v), ..node },
                        ),
                        Ok(_) => attr_loop(s, c4, node),
                    }
                }
            } else {
                (Ok(node), c1)
            }
        },
        Ok(_) => (Ok(node), c1),
    }
}

/// The children of an element or page, read after its `{`: elements up to
/// the matching `}`, or up to the end of the input.
pub open spec fn children(s: Seq<char>, c: Cursor, acc: Seq<Tree>) -> (
    Result<Seq<Tree>, Failure>,
    Cursor,
)
    decreases s.len() - c.pos, 1int,
{
    match peek(s, c) {
        Err(e) => (Err(e), c),
        Ok(None) => (Ok(acc), c),
        Ok(Some(Tok::Close)) => {
            let (r, c2) = next_tok(s, c);
            match r {
                Err(e) => (Err(e), c2),
                Ok(_) => (Ok(acc), c2),
            }
        },
        Ok(Some(_)) => {
            let (r, c2) = element(s, c);
            match r {
                Err(e) => (Err(e), c2),
                Ok(n) => if c.pos < c2.pos <= s.len() {
                    children(s, c2, acc.push(n))
                } else {
                    (Ok(acc.push(n)), c2)
                },
            }
        },
    }
}

/// One element: a tag name, then either a string value, or `{` and
/// children, or attribute pairs. An element with a string value also
/// records that value as an attribute under its own tag name.
pub open spec fn element(s: Seq<char>, c: Cursor) -> (Result<Tree, Failure>, Cursor)
    decreases s.len() - c.pos, 0int,
{
    let c1 = skip(s, c);
    let (r, c2) = next_tok(s, c1);
    match r {
        Err(e) => (Err(e), c2),
        Ok(None) => (Err(Failure::Eof), c2),
        Ok(Some(Tok::Ident(name))) => {
            let node = leaf(kind_of_name(name));
            let c3 = skip(s, c2);
            match peek(s, c3) {
                Err(e) => (Err(e), c3),
                Ok(Some(Tok::Str(v))) => {
                    let (r2, c4) = next_tok(s, c3);
                    match r2 {
                        Err(e) => (Err(e), c4),
                        Ok(_) => (
                            Ok(Tree { value: Some(v), attrs: node.attrs.insert(name, v), ..node }),
                            c4,
                        ),
                    }
                },
                Ok(Some(Tok::Open)) => {
                    let (r2, c4) = next_tok(s, c3);
                    proof {
                        lemma_skip_bounds(s, c);
                        lemma_next_tok_bounds(s, c1);
                        lemma_skip_idempotent(s, c2);
                        lemma_skip_bounds(s, c2);
                        lemma_next_tok_bounds(s, c3);
                    }
                    match r2 {
                        Err(e) => (Err(e), c4),
                        Ok(_) => {
                            let (r3, c5) = children(s, c4, Seq::empty());
                            match r3 {
                                Err(e) => (Err(e), c5),
                                Ok(kids) => (Ok(Tree { children: kids, ..node }), c5),
                            }
                        },
                    }
                },
                Ok(_) => attr_loop(s, c3, node),
            }
        },
        Ok(Some(t)) => (Err(syntax_at(c2, expected_ident_msg(t))), c2),
    }
}

/// A document: the identifier `page`, then `{` and the page's children.
pub open spec fn page(s: Seq<char>, c: Cursor) -> (Result<Tree, Failure>, Cursor) {
    let c1 = skip(s, c);
    let (r, c2) = next_tok(s, c1);
    match r {
        Err(e) => (Err(e), c2),
        Ok(None) => (Err(Failure::Eof), c2),
        Ok(Some(Tok::Ident(name))) => if name == "page"@ {
            let c3 = skip(s, c2);
            let (r2, c4) = next_tok(s, c3);
            match r2 {
                Err(e) => (Err(e), c4),
                Ok(Some(Tok::Open)) => {
                    let (r3, c5) = children(s, c4, Seq::empty());
                    match r3 {
                        Err(e) => (Err(e), c5),
                        Ok(kids) => (Ok(Tree { children: kids, ..leaf(ElementKind::Page) }), c5),
                    }
                },
                Ok(_) => (Err(syntax_at(c4, "Expected '{' after 'page'"@)), c4),
            }
        } else {
            (Err(syntax_at(c2, "Document must start with 'page'"@)), c2)
        },
        Ok(Some(_)) => (Err(syntax_at(c2, "Document must start with 'page'"@)), c2),
    }
}

/// The start of a document: the first character, on line 1, column 1.
pub open spec fn start() -> Cursor {
    Cursor { pos: 0, line: 1, col: 1 }
}

/// What parsing a whole document gives.
pub open spec fn parse_doc(s: Seq<char>) -> Result<Tree, Failure> {
    page(s, start()).0
}

// ---------------------------------------------------------------------
// Facts about the reader.
// ---------------------------------------------------------------------
/// Skipping from a cursor never moves backwards, nor past the end of the text.
pub proof fn lemma_skip_from_bounds(s: Seq<char>, c: Cursor, in_comment: bool)
    ensures
        skip_from(s, c, in_comment).pos >= c.pos,
        c.pos <= s.len() ==> skip_from(s, c, in_comment).pos <= s.len(),
    decreases s.len() - c.pos, if in_comment { 1int } else { 0int },
{
    if in_comment {
        if 0 <= c.pos < s.len() && s[c.pos] != '\n' {
            lemma_skip_from_bounds(s, Cursor { pos: c.pos + 1, ..c }, true);
        } else {
            lemma_skip_from_bounds(s, c, false);
        }
    } else if 0 <= c.pos < s.len() {
        let ch = s[c.pos];
        if ch == ' ' || ch == '\t' || ch == '\r' {
            lemma_skip_from_bounds(s, step(c), false);
        } else if ch == '\n' {
            lemma_skip_from_bounds(s, Cursor { pos: c.pos + 1, line: c.line + 1, col: 1 }, false);
        } else if ch == '/' && c.pos + 1 < s.len() && s[c.pos + 1] == '/' {
            lemma_skip_from_bounds(s, Cursor { pos: c.pos + 1, ..c }, true);
        }
    }
}

/// Skipping never moves backwards, nor past the end of the text.
pub proof fn lemma_skip_bounds(s: Seq<char>, c: Cursor)
    ensures
        skip(s, c).pos >= c.pos,
        c.pos <= s.len() ==> skip(s, c).pos <= s.len(),
{
    lemma_skip_from_bounds(s, c, false);
}

/// Where skipping stops, there is nothing left to skip.
pub proof fn lemma_skip_from_stops(s: Seq<char>, c: Cursor, in_comment: bool)
    ensures
        skip_from(s, skip_from(s, c, in_comment), false) == skip_from(s, c, in_comment),
    decreases s.len() - c.pos, if in_comment { 1int } else { 0int },
{
    if in_comment {
        if 0 <= c.pos < s.len() && s[c.pos] != '\n' {
            lemma_skip_from_stops(s, Cursor { pos: c.pos + 1, ..c }, true);
        } else {
            lemma_skip_from_stops(s, c, false);
        }
    } else if 0 <= c.pos < s.len() {
        let ch = s[c.pos];
        if ch == ' ' || ch == '\t' || ch == '\r' {
            lemma_skip_from_stops(s, step(c), false);
        } else if ch == '\n' {
            lemma_skip_from_stops(s, Cursor { pos: c.pos + 1, line: c.line + 1, col: 1 }, false);
        } else if ch == '/' && c.pos + 1 < s.len() && s[c.pos + 1] == '/' {
            lemma_skip_from_stops(s, Cursor { pos: c.pos + 1, ..c }, true);
        }
    }
}

/// Skipping twice is skipping once.
pub proof fn lemma_skip_idempotent(s: Seq<char>, c: Cursor)
    ensures
        skip(s, skip(s, c)) == skip(s, c),
{
    lemma_skip_from_stops(s, c, false);
}

/// An identifier ends at or after its start, and not past the end of the text.
pub proof fn lemma_ident_end_bounds(s: Seq<char>, p: int)
    ensures
        ident_end(s, p) >= p,
        p <= s.len() ==> ident_end(s, p) <= s.len(),
    decreases s.len() - p,
{
    if 0 <= p < s.len() && ident_char(s[p]) {
        lemma_ident_end_bounds(s, p + 1);
    }
}

/// Reading a string never moves backwards, nor past the end of the text.
pub proof fn lemma_scan_string_bounds(s: Seq<char>, c: Cursor, acc: Seq<char>, escaped: bool)
    ensures
        scan_string(s, c, acc, escaped).1.pos >= c.pos,
        c.pos <= s.len() ==> scan_string(s, c, acc, escaped).1.pos <= s.len(),
    decreases s.len() - c.pos,
{
    if 0 <= c.pos < s.len() {
        let ch = s[c.pos];
        let next = step(c);
        if escaped {
            lemma_scan_string_bounds(s, next, acc.push(ch), false);
        } else if ch == '\\' {
            lemma_scan_string_bounds(s, next, acc, true);
        } else if ch == '"' {
        } else {
            lemma_scan_string_bounds(s, next, acc.push(ch), false);
        }
    }
}

/// A string literal whose text holds neither `"` nor a backslash reads back as
/// exactly that text, and reading it ends just after its closing quote.
pub proof fn law_plain_string_literal(s: Seq<char>, c: Cursor, acc: Seq<char>, text: Seq<char>)
    requires
        0 <= c.pos,
        c.pos + text.len() < s.len(),
        s.subrange(c.pos, c.pos + text.len()) == text,
        s[c.pos + text.len()] == '"',
        forall|i: int| 0 <= i < text.len() ==> #[trigger] text[i] != '"' && text[i] != '\\',
    ensures
        scan_string(s, c, acc, false).0 == Ok::<Option<Tok>, Failure>(Some(Tok::Str(acc + text))),
        scan_string(s, c, acc, false).1.pos == c.pos + text.len() + 1,
    decreases text.len(),
{
    if text.len() == 0 {
        assert(acc + text =~= acc);
    } else {
        assert(s[c.pos] == text[0]);
        let rest = text.drop_first();
        assert(s.subrange(c.pos + 1, c.pos + 1 + rest.len()) =~= rest);
        assert forall|i: int| 0 <= i < rest.len() implies #[trigger] rest[i] != '"' && rest[i]
            != '\\' by {
            assert(rest[i] == text[i + 1]);
        }
        law_plain_string_literal(s, step(c), acc.push(text[0]), rest);
        assert(acc.push(text[0]) + rest =~= acc + text);
    }
}

/// Reading a token never moves backwards nor past the end of the text,
/// and a token that is read moves the cursor forward.
pub proof fn lemma_next_tok_bounds(s: Seq<char>, c: Cursor)
    ensures
        next_tok(s, c).1.pos >= c.pos,
        c.pos <= s.len() ==> next_tok(s, c).1.pos <= s.len(),
        next_tok(s, c).0 matches Ok(Some(_)) ==> c.pos < next_tok(s, c).1.pos <= s.len(),
{
    lemma_skip_bounds(s, c);
    let c0 = skip(s, c);
    if 0 <= c0.pos < s.len() {
        let ch = s[c0.pos];
        if ch == '"' {
            lemma_scan_string_bounds(s, step(c0), Seq::empty(), false);
        } else if ident_char(ch) {
            lemma_ident_end_bounds(s, c0.pos + 1);
        }
    }
}

} // verus!
