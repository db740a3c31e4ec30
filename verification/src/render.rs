//! What the renderer reads from a page: an element's text and the target
//! of its links.
use crate::lumiml::model::{ElementKind, Tree};
use crate::lumiml::node::{ElementType, LumiNode};
use vstd::prelude::*;

verus! {

/// Rendering options; a clicked link leaves its target here.
#[derive(Debug)]
pub struct RenderOptions {
    pub pending_navigation: Option<String>,
}

impl Default for RenderOptions {
    /// No navigation pending.
    fn default() -> (r: Self)
        ensures
            r.pending_navigation is None,
    {
        RenderOptions { pending_navigation: None }
    }
}

/// The text an element shows: its own value when that is not empty, else
/// the first non-empty text among its children, in document order.
pub open spec fn text_of(t: Tree) -> Seq<char>
    decreases t, 0int,
{
    match t.value {
        Some(v) => if v.len() > 0 {
            v
        } else {
            first_text(t.children, 0)
        },
        None => first_text(t.children, 0),
    }
}

/// The first non-empty text among `kids[i..]`.
pub open spec fn first_text(kids: Seq<Tree>, i: int) -> Seq<char>
    decreases kids, kids.len() - i,
{
    if 0 <= i < kids.len() {
        let x = text_of(kids[i]);
        if x.len() > 0 {
            x
        } else {
            first_text(kids, i + 1)
        }
    } else {
        Seq::empty()
    }
}

/// Where an element leads: its own `goto` attribute, else the first
/// target among its children, in document order.
pub open spec fn goto_of(t: Tree) -> Option<Seq<char>>
    decreases t, 0int,
{
    if t.attrs.contains_key("goto"@) {
        Some(t.attrs["goto"@])
    } else {
        first_goto(t.children, 0)
    }
}

/// The first target among `kids[i..]`.
pub open spec fn first_goto(kids: Seq<Tree>, i: int) -> Option<Seq<char>>
    decreases kids, kids.len() - i,
{
    if 0 <= i < kids.len() {
        match goto_of(kids[i]) {
            Some(u) => Some(u),
            None => first_goto(kids, i + 1),
        }
    } else {
        None
    }
}

/// The text an element shows.
pub fn extract_text(node: &LumiNode) -> (r: String)
    ensures
        r@ == text_of(node@),
    decreases node,
{
    if let Some(val) = &node.value {
        if !val.as_str().is_empty() {
            return val.clone();
        }
    }
    let mut i: usize = 0;
    while i < node.children.len()
        invariant
            i <= node.children@.len(),
            text_of(node@) == first_text(node@.children, i as int),
        decreases node.children.len() - i,
    {
        let text = extract_text(&node.children[i]);
        if !text.as_str().is_empty() {
            return text;
        }
        i = i + 1;
    }
    String::new()
}

/// Where an element leads, if anywhere.
pub fn extract_goto(node: &LumiNode) -> (r: Option<String>)
    ensures
        match r {
            Some(u) => goto_of(node@) == Some(u@),
            None => goto_of(node@) is None,
        },
    decreases node,
{
    if let Some(url) = node.get_attr("goto") {
        return Some(String::from_str(url));
    }
    let mut i: usize = 0;
    while i < node.children.len()
        invariant
            i <= node.children@.len(),
            goto_of(node@) == first_goto(node@.children, i as int),
        decreases node.children.len() - i,
    {
        if let Some(url) = extract_goto(&node.children[i]) {
            return Some(url);
        }
        i = i + 1;
    }
    None
}

/// Whether an element is drawn by drawing its children in turn: pages,
/// lists, containers, rows and columns, and the elements that have no
/// drawing of their own (inputs, forms, images and custom elements). The
/// other elements draw their own text and not their children.
pub open spec fn shows_children(k: ElementKind) -> bool {
    match k {
        ElementKind::Page | ElementKind::List | ElementKind::Container | ElementKind::Row
        | ElementKind::Column | ElementKind::Input | ElementKind::Form | ElementKind::Image
        | ElementKind::Custom(_) => true,
        _ => false,
    }
}

/// Whether an element of this type is drawn by drawing its children.
pub fn draws_children(t: &ElementType) -> (b: bool)
    ensures
        b == shows_children(t@),
{
    match t {
        ElementType::Page | ElementType::List | ElementType::Container | ElementType::Row
        | ElementType::Column | ElementType::Input | ElementType::Form | ElementType::Image
        | ElementType::Custom(_) => true,
        _ => false,
    }
}

} // verus!
