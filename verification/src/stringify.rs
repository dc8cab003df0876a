//! Printing the widget tree as text, one node per line, indented by depth (for debugging).
use vstd::prelude::*;

use crate::strings::{decimal, push_decimal};

verus! {

/// What is printed of a node of the widget tree. Values are given as they are printed.
#[derive(Debug)]
pub enum NodeSummary {
    /// An element: its name, its attributes (the printed value of each, `None` for a value
    /// that has none to print), and its own value (`None` when it has no value, `Some(None)`
    /// when the value has nothing to print).
    Element { ident: String, attributes: Vec<(String, Option<String>)>, value: Option<Option<String>> },
    /// A for loop.
    For,
    /// One iteration of a for loop: its binding and index.
    Iteration { binding: String, index: usize },
    /// A control flow node.
    ControlFlow,
    /// An if branch and its condition.
    If { cond: bool },
    /// An else branch and its condition, if it has one.
    Else { cond: Option<bool> },
    /// A component.
    Component,
}

/// How a boolean prints.
pub open spec fn bool_text(b: bool) -> Seq<char> {
    if b {
        "true"@
    } else {
        "false"@
    }
}

/// `n` spaces.
pub open spec fn spaces(n: nat) -> Seq<char> {
    Seq::new(n, |i: int| ' ')
}

/// The attributes of an element as printed: each one with a value is printed as `key: value`,
/// with a comma and a space before it unless it is the first attribute of the list (whether or
/// not the first one was printed).
pub open spec fn attribute_list(attributes: Seq<(String, Option<String>)>) -> Seq<char>
    decreases attributes.len(),
{
    if attributes.len() == 0 {
        Seq::empty()
    } else {
        let i = attributes.len() - 1;
        let rest = attribute_list(attributes.drop_last());
        match attributes.last().1 {
            Some(v) => rest + (if i > 0 {
                ", "@
            } else {
                Seq::empty()
            }) + attributes.last().0@ + ": "@ + v@,
            None => rest,
        }
    }
}

/// The line printed for a node, without indentation or line end.
pub open spec fn describe(node: NodeSummary) -> Seq<char> {
    match node {
        NodeSummary::Element { ident, attributes, value } => ident@ + (if attributes@.len() > 0 {
            "["@ + attribute_list(attributes@) + "]"@
        } else {
            Seq::empty()
        }) + match value {
            Some(Some(v)) => " "@ + v@,
            _ => Seq::empty(),
        },
        NodeSummary::For => "<for>"@,
        NodeSummary::Iteration { binding, index } => "<iter binding = "@ + binding@ + ", index = "@
            + decimal(index as nat) + ">"@,
        NodeSummary::ControlFlow => "<control flow>"@,
        NodeSummary::If { cond } => "<if cond = "@ + bool_text(cond) + ">"@,
        NodeSummary::Else { cond } => match cond {
            Some(c) => "<else cond = "@ + bool_text(c) + ">"@,
            None => "<else>"@,
        },
        NodeSummary::Component => "<component>"@,
    }
}

/// Append how a boolean prints.
fn push_bool(out: &mut String, b: bool)
    ensures
        final(out)@ == old(out)@ + bool_text(b),
{
    if b {
        out.append("true");
    } else {
        out.append("false");
    }
}

/// Prints the widget tree: each visited node on a line of its own, indented four spaces for
/// each level of depth.
#[derive(Debug)]
pub struct Stringify {
    level: usize,
    indent: String,
    output: String,
}

impl Stringify {
    /// The depth of the next node.
    pub closed spec fn depth(&self) -> nat {
        self.level as nat
    }

    /// The text printed so far.
    pub closed spec fn text(&self) -> Seq<char> {
        self.output@
    }

    /// The indentation matches the depth.
    pub closed spec fn wf(&self) -> bool {
        self.level * 4 <= usize::MAX && self.indent@ == spaces(self.level as nat * 4)
    }

    /// Nothing printed, at the top of the tree.
    pub fn new() -> (r: Self)
        ensures
            r.wf(),
            r.depth() == 0,
            r.text() == Seq::<char>::empty(),
    {
        let r = Self { level: 0, indent: String::new(), output: String::new() };
        assert(r.indent@ =~= spaces(0));
        r
    }

    /// The text printed.
    pub fn finish(self) -> (r: String)
        ensures
            r@ == self.text(),
    {
        self.output
    }

    /// Print a node: the indentation, the node, and a line end.
    pub fn visit(&mut self, node: &NodeSummary)
        requires
            old(self).wf(),
        ensures
            final(self).wf(),
            final(self).depth() == old(self).depth(),
            final(self).text() == old(self).text() + spaces(old(self).depth() * 4) + describe(*node)
                + "\n"@,
    {
        let ghost start = self.output@;
        self.output.append(self.indent.as_str());
        let ghost after_indent = self.output@;
        match node {
            NodeSummary::Element { ident, attributes, value } => {
                self.output.append(ident.as_str());
                if attributes.len() > 0 {
                    self.output.append("[");
                    let ghost before_list = self.output@;
                    let mut i: usize = 0;
                    while i < attributes.len()
                        invariant
                            i <= attributes@.len(),
                            self.level == old(self).level,
                            self.indent == old(self).indent,
                            self.output@ == before_list + attribute_list(attributes@.take(i as int)),
                        decreases attributes@.len() - i,
                    {
                        proof {
                            assert(attributes@.take(i as int + 1).drop_last() =~= attributes@.take(
                                i as int,
                            ));
                        }
                        let (key, val) = &attributes[i];
                        match val {
                            Some(v) => {
                                if i > 0 {
                                    self.output.append(", ");
                                }
                                self.output.append(key.as_str());
                                self.output.append(": ");
                                self.output.append(v.as_str());
                                proof {
                                    let taken = attributes@.take(i as int + 1);
                                    assert(taken.last() == attributes@[i as int]);
                                    assert(self.output@ =~= before_list + attribute_list(taken));
                                }
                            },
                            None => {},
                        }
                        i = i + 1;
                    }
                    proof {
                        assert(attributes@.take(i as int) =~= attributes@);
                    }
                    self.output.append("]");
                }
                match value {
                    Some(Some(v)) => {
                        self.output.append(" ");
                        self.output.append(v.as_str());
                    },
                    _ => {},
                }
                proof {
                    assert(self.output@ =~= after_indent + describe(*node));
                }
            },
            NodeSummary::For => {
                self.output.append("<for>");
            },
            NodeSummary::Iteration { binding, index } => {
                self.output.append("<iter binding = ");
                self.output.append(binding.as_str());
                self.output.append(", index = ");
                push_decimal(&mut self.output, *index);
                self.output.append(">");
                proof {
                    assert(self.output@ =~= after_indent + describe(*node));
                }
            },
            NodeSummary::ControlFlow => {
                self.output.append("<control flow>");
            },
            NodeSummary::If { cond } => {
                self.output.append("<if cond = ");
                push_bool(&mut self.output, *cond);
                self.output.append(">");
                proof {
                    assert(self.output@ =~= after_indent + describe(*node));
                }
            },
            NodeSummary::Else { cond } => match cond {
                Some(c) => {
                    self.output.append("<else cond = ");
                    push_bool(&mut self.output, *c);
                    self.output.append(">");
                    proof {
                        assert(self.output@ =~= after_indent + describe(*node));
                    }
                },
                None => {
                    self.output.append("<else>");
                },
            },
            NodeSummary::Component => {
                self.output.append("<component>");
            },
        }
        self.output.append("\n");
        proof {
            assert(self.output@ =~= start + spaces(self.level as nat * 4) + describe(*node) + "\n"@);
        }
    }

    /// Go one level deeper: the nodes that follow are indented four more spaces.
    pub fn push(&mut self)
        requires
            old(self).wf(),
            (old(self).depth() + 1) * 4 <= usize::MAX,
        ensures
            final(self).wf(),
            final(self).depth() == old(self).depth() + 1,
            final(self).text() == old(self).text(),
    {
        self.level = self.level + 1;
        self.indent = indentation(self.level * 4);
    }

    /// Go one level up: the nodes that follow are indented four fewer spaces.
    pub fn pop(&mut self)
        requires
            old(self).wf(),
            old(self).depth() > 0,
        ensures
            final(self).wf(),
            final(self).depth() == old(self).depth() - 1,
            final(self).text() == old(self).text(),
    {
        self.level = self.level - 1;
        self.indent = indentation(self.level * 4);
    }
}

/// `n` spaces.
fn indentation(n: usize) -> (r: String)
    ensures
        r@ == spaces(n as nat),
{
    let mut s = String::new();
    let mut i: usize = 0;
    while i < n
        invariant
            i <= n,
            s@ == spaces(i as nat),
        decreases n - i,
    {
        s.append(" ");
        proof {
            reveal_strlit(" ");
            assert(s@ =~= spaces((i + 1) as nat));
        }
        i = i + 1;
    }
    s
}

} // verus!
