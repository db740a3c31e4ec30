//! Element types and document nodes.
use super::model::{kind_of_name, leaf, ElementKind, Tree};
use crate::text::{
    chars_of, keys_unique, last_index_of, lemma_pairs_map_has_keys, lemma_pairs_map_update, pairs_map,
    same_text, string_of,
};
use vstd::prelude::*;
use vstd::std_specs::cmp::PartialEqSpecImpl;

verus! {

/// The type of a LumiML element.
#[derive(Debug, Clone)]
pub enum ElementType {
    Page,
    Title,
    Heading,
    Paragraph,
    Button,
    Text,
    List,
    Item,
    Input,
    Form,
    Image,
    Container,
    Row,
    Column,
    Divider,
    CodeBlock,
    Badge,
    Custom(String),
}

impl View for ElementType {
    type V = ElementKind;

    open spec fn view(&self) -> ElementKind {
        match self {
            ElementType::Page => ElementKind::Page,
            ElementType::Title => ElementKind::Title,
            ElementType::Heading => ElementKind::Heading,
            ElementType::Paragraph => ElementKind::Paragraph,
            ElementType::Button => ElementKind::Button,
            ElementType::Text => ElementKind::Text,
            ElementType::List => ElementKind::List,
            ElementType::Item => ElementKind::Item,
            ElementType::Input => ElementKind::Input,
            ElementType::Form => ElementKind::Form,
            ElementType::Image => ElementKind::Image,
            ElementType::Container => ElementKind::Container,
            ElementType::Row => ElementKind::Row,
            ElementType::Column => ElementKind::Column,
            ElementType::Divider => ElementKind::Divider,
            ElementType::CodeBlock => ElementKind::CodeBlock,
            ElementType::Badge => ElementKind::Badge,
            ElementType::Custom(s) => ElementKind::Custom(s@),
        }
    }
}

/// A number for each built-in kind; custom elements share the last one.
pub open spec fn kind_code(k: ElementKind) -> u8 {
    match k {
        ElementKind::Page => 0,
        ElementKind::Title => 1,
        ElementKind::Heading => 2,
        ElementKind::Paragraph => 3,
        ElementKind::Button => 4,
        ElementKind::Text => 5,
        ElementKind::List => 6,
        ElementKind::Item => 7,
        ElementKind::Input => 8,
        ElementKind::Form => 9,
        ElementKind::Image => 10,
        ElementKind::Container => 11,
        ElementKind::Row => 12,
        ElementKind::Column => 13,
        ElementKind::Divider => 14,
        ElementKind::CodeBlock => 15,
        ElementKind::Badge => 16,
        ElementKind::Custom(_) => 17,
    }
}

impl ElementType {
    fn builtin_code(&self) -> (r: u8)
        ensures
            r == kind_code(self@),
    {
        match self {
            ElementType::Page => 0,
            ElementType::Title => 1,
            ElementType::Heading => 2,
            ElementType::Paragraph => 3,
            ElementType::Button => 4,
            ElementType::Text => 5,
            ElementType::List => 6,
            ElementType::Item => 7,
            ElementType::Input => 8,
            ElementType::Form => 9,
            ElementType::Image => 10,
            ElementType::Container => 11,
            ElementType::Row => 12,
            ElementType::Column => 13,
            ElementType::Divider => 14,
            ElementType::CodeBlock => 15,
            ElementType::Badge => 16,
            ElementType::Custom(_) => 17,
        }
    }

    /// The element type that a tag name denotes: one of the built-in names,
    /// or a custom element that keeps the name.
    pub fn from_str(s: &str) -> (r: ElementType)
        ensures
            r@ == kind_of_name(s@),
    {
        if same_text(s, "page") {
            ElementType::Page
        } else if same_text(s, "title") {
            ElementType::Title
        } else if same_text(s, "heading") {
            ElementType::Heading
        } else if same_text(s, "paragraph") {
            ElementType::Paragraph
        } else if same_text(s, "button") {
            ElementType::Button
        } else if same_text(s, "text") {
            ElementType::Text
        } else if same_text(s, "list") {
            ElementType::List
        } else if same_text(s, "item") {
            ElementType::Item
        } else if same_text(s, "input") {
            ElementType::Input
        } else if same_text(s, "form") {
            ElementType::Form
        } else if same_text(s, "image") {
            ElementType::Image
        } else if same_text(s, "container") {
            ElementType::Container
        } else if same_text(s, "row") {
            ElementType::Row
        } else if same_text(s, "column") {
            ElementType::Column
        } else if same_text(s, "divider") {
            ElementType::Divider
        } else if same_text(s, "codeblock") {
            ElementType::CodeBlock
        } else if same_text(s, "badge") {
            ElementType::Badge
        } else {
            ElementType::Custom(string_of(&chars_of(s)))
        }
    }
}

impl ElementType {
    /// The same element type.
    fn duplicate(&self) -> (r: ElementType)
        ensures
            r == *self,
    {
        match self {
            ElementType::Page => ElementType::Page,
            ElementType::Title => ElementType::Title,
            ElementType::Heading => ElementType::Heading,
            ElementType::Paragraph => ElementType::Paragraph,
            ElementType::Button => ElementType::Button,
            ElementType::Text => ElementType::Text,
            ElementType::List => ElementType::List,
            ElementType::Item => ElementType::Item,
            ElementType::Input => ElementType::Input,
            ElementType::Form => ElementType::Form,
            ElementType::Image => ElementType::Image,
            ElementType::Container => ElementType::Container,
            ElementType::Row => ElementType::Row,
            ElementType::Column => ElementType::Column,
            ElementType::Divider => ElementType::Divider,
            ElementType::CodeBlock => ElementType::CodeBlock,
            ElementType::Badge => ElementType::Badge,
            ElementType::Custom(name) => ElementType::Custom(name.clone()),
        }
    }
}

impl PartialEq for ElementType {
    fn eq(&self, other: &Self) -> (r: bool) {
        match self {
            ElementType::Custom(a) => match other {
                ElementType::Custom(b) => same_text(a.as_str(), b.as_str()),
                _ => false,
            },
            _ => match other {
                ElementType::Custom(_) => false,
                _ => self.builtin_code() == other.builtin_code(),
            },
        }
    }
}

impl PartialEqSpecImpl for ElementType {
    open spec fn obeys_eq_spec() -> bool {
        true
    }

    open spec fn eq_spec(&self, other: &ElementType) -> bool {
        self@ == other@
    }
}

impl Eq for ElementType {

}

pub open spec fn opt_text(v: Option<String>) -> Option<Seq<char>> {
    match v {
        Some(s) => Some(s@),
        None => None,
    }
}

/// A node of a parsed LumiML document.
#[derive(Debug)]
pub struct LumiNode {
    pub element_type: ElementType,
    /// Name and value pairs, in the order they were read.
    pub attributes: Vec<(String, String)>,
    pub value: Option<String>,
    pub children: Vec<LumiNode>,
}

/// The tree that a node describes.
pub open spec fn tree_of(n: LumiNode) -> Tree
    decreases n,
{
    Tree {
        kind: n.element_type@,
        attrs: pairs_map(n.attributes@),
        value: opt_text(n.value),
        children: Seq::new(
            n.children@.len(),
            |i: int|
                if 0 <= i < n.children@.len() {
                    tree_of(n.children@[i])
                } else {
                    leaf(ElementKind::Page)
                },
        ),
    }
}

/// No node of the tree has two attributes of the same name.
pub open spec fn attrs_unique(n: LumiNode) -> bool
    decreases n, 0int,
{
    keys_unique(n.attributes@) && all_attrs_unique(n.children@, 0)
}

/// No node of the trees `kids[i..]` has two attributes of the same name.
pub open spec fn all_attrs_unique(kids: Seq<LumiNode>, i: int) -> bool
    decreases kids, kids.len() - i,
{
    if 0 <= i < kids.len() {
        attrs_unique(kids[i]) && all_attrs_unique(kids, i + 1)
    } else {
        true
    }
}

proof fn lemma_all_attrs_unique(kids: Seq<LumiNode>, i: int)
    requires
        0 <= i <= kids.len(),
        forall|j: int| i <= j < kids.len() ==> #[trigger] attrs_unique(kids[j]),
    ensures
        all_attrs_unique(kids, i),
    decreases kids.len() - i,
{
    if i < kids.len() {
        assert(attrs_unique(kids[i]));
        lemma_all_attrs_unique(kids, i + 1);
    }
}

/// A node whose own attribute names are distinct, and whose children have
/// distinct attribute names throughout, has them throughout.
pub proof fn lemma_attrs_unique_intro(n: LumiNode)
    requires
        keys_unique(n.attributes@),
        forall|i: int| 0 <= i < n.children@.len() ==> #[trigger] attrs_unique(n.children@[i]),
    ensures
        attrs_unique(n),
{
    lemma_all_attrs_unique(n.children@, 0);
}

impl Clone for LumiNode {
    /// The same tree; see `duplicate`.
    fn clone(&self) -> (r: Self)
        ensures
            r@ == self@,
            r.attributes@ == self.attributes@,
    {
        self.duplicate()
    }
}

impl View for LumiNode {
    type V = Tree;

    open spec fn view(&self) -> Tree {
        tree_of(*self)
    }
}

impl LumiNode {
    /// A copy of the whole tree: the same type, attributes, value and
    /// children.
    fn duplicate(&self) -> (r: LumiNode)
        ensures
            r@ == self@,
            r.element_type == self.element_type,
            r.attributes@ == self.attributes@,
            r.value == self.value,
            r.children@.len() == self.children@.len(),
        decreases self,
    {
        let mut attributes: Vec<(String, String)> = Vec::new();
        let mut i: usize = 0;
        while i < self.attributes.len()
            invariant
                i <= self.attributes@.len(),
                attributes@ == self.attributes@.take(i as int),
            decreases self.attributes.len() - i,
        {
            let (name, value) = &self.attributes[i];
            attributes.push((name.clone(), value.clone()));
            assert(attributes@ =~= self.attributes@.take(i + 1));
            i = i + 1;
        }
        let mut children: Vec<LumiNode> = Vec::new();
        let mut j: usize = 0;
        while j < self.children.len()
            invariant
                j <= self.children@.len(),
                children@.len() == j,
                forall|k: int| 0 <= k < j ==> #[trigger] children@[k]@ == self.children@[k]@,
            decreases self.children.len() - j,
        {
            let child = self.children[j].duplicate();
            children.push(child);
            j = j + 1;
        }
        assert(attributes@ =~= self.attributes@);
        let value = match &self.value {
            Some(v) => Some(v.clone()),
            None => None,
        };
        let r = LumiNode { element_type: self.element_type.duplicate(), attributes, value, children };
        assert forall|k: int| 0 <= k < r@.children.len() implies r@.children[k] == self@.children[k] by {
            assert(r.children@[k]@ == self.children@[k]@);
        }
        assert(r@.children =~= self@.children);
        r
    }

    /// A node of the given type with no attributes, value or children.
    pub fn new(element_type: ElementType) -> (r: LumiNode)
        ensures
            r@ == leaf(element_type@),
            r.attributes@.len() == 0,
            r.children@.len() == 0,
            attrs_unique(r),
    {
        let r = LumiNode {
            element_type,
            attributes: Vec::new(),
            value: None,
            children: Vec::new(),
        };
        assert(r@.children =~= Seq::<Tree>::empty());
        r
    }

    /// The value of the attribute `key`, if the node has one.
    pub fn get_attr(&self, key: &str) -> (r: Option<&str>)
        ensures
            match r {
                Some(v) => self@.attrs.contains_key(key@) && v@ == self@.attrs[key@],
                None => !self@.attrs.contains_key(key@),
            },
    {
        match last_index_of(&self.attributes, key) {
            Some(i) => Some(self.attributes[i].1.as_str()),
            None => None,
        }
    }

    /// Records the attribute `name` with `value`: an earlier pair of that
    /// name gets the new value in its place, else the pair goes last.
    pub fn set_attr(&mut self, name: String, value: String)
        ensures
            final(self)@ == (Tree { attrs: old(self)@.attrs.insert(name@, value@), ..old(self)@ }),
            old(self)@.attrs.contains_key(name@) ==> final(self).attributes@.len()
                == old(self).attributes@.len(),
            !old(self)@.attrs.contains_key(name@) ==> final(self).attributes@
                == old(self).attributes@.push((name, value)),
            keys_unique(old(self).attributes@) ==> keys_unique(final(self).attributes@),
            final(self).children == old(self).children,
    {
        let ghost old_attrs = self.attributes@;
        match last_index_of(&self.attributes, name.as_str()) {
            Some(i) => {
                let ghost p = (name, value);
                self.attributes.set(i, (name, value));
                proof {
                    lemma_pairs_map_update(old_attrs, i as int, p);
                    assert(self.attributes@ == old_attrs.update(i as int, p));
                }
            },
            None => {
                proof {
                    assert forall|j: int| 0 <= j < old_attrs.len() implies old_attrs[j].0@ != name@ by {
                        lemma_pairs_map_has_keys(old_attrs, j);
                    }
                }
                self.attributes.push((name, value));
                assert(self.attributes@.drop_last() =~= old_attrs);
            },
        }
        assert(self@.children =~= old(self)@.children);
    }
}

} // verus!
