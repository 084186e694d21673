//! Renders a parsed tree into a one-line structural dump, mirroring its
//! nesting exactly, and its properties into a flat field list.
use vstd::prelude::*;
use vstd::string::StringExecFns;
use crate::text::{append_decimal, decimal};
use crate::tree::{Node, Properties, Tree};

verus! {

broadcast use vstd::std_specs::vec::axiom_vec_index_decreases;

/// Text of a boolean.
pub open spec fn bool_text(b: bool) -> Seq<char> {
    if b { "true"@ } else { "false"@ }
}

/// Text of an optional count: `Some(n)` or `None`.
pub open spec fn opt_count_text(n: Option<nat>) -> Seq<char> {
    match n {
        Some(v) => "Some("@ + decimal(v) + ")"@,
        None => "None"@,
    }
}

/// Text of an optional name: `Some("name")` or `None`.
pub open spec fn opt_name_text(n: Option<Seq<char>>) -> Seq<char> {
    match n {
        Some(v) => "Some(\""@ + v + "\")"@,
        None => "None"@,
    }
}

/// The structural dump of `node`: one labelled record per node, each child
/// rendered in place inside its parent.
pub open spec fn structure_text(node: Node) -> Seq<char>
    decreases node,
{
    match node {
        Node::Empty => "Empty"@,
        Node::Literal(t) => "Literal(\""@ + t@ + "\")"@,
        Node::Class(c) => "Class("@ + c@ + ")"@,
        Node::Look(l) => "Look("@ + l@ + ")"@,
        Node::Repetition { min, max, greedy, sub } =>
            "Repetition { min: "@ + decimal(min as nat)
                + ", max: "@ + opt_count_text(match max { Some(m) => Some(m as nat), None => None })
                + ", greedy: "@ + bool_text(greedy)
                + ", sub: "@ + structure_text(*sub) + " }"@,
        Node::Capture { index, name, sub } =>
            "Capture { index: "@ + decimal(index as nat)
                + ", name: "@ + opt_name_text(match name { Some(s) => Some(s@), None => None })
                + ", sub: "@ + structure_text(*sub) + " }"@,
        Node::Concat(children) => "Concat(["@ + list_text(children@) + "])"@,
        Node::Alternation(children) => "Alternation(["@ + list_text(children@) + "])"@,
    }
}

/// The dumps of `nodes`, in order, separated by `", "`.
pub open spec fn list_text(nodes: Seq<Node>) -> Seq<char>
    decreases nodes,
{
    if nodes.len() == 0 {
        Seq::empty()
    } else if nodes.len() == 1 {
        structure_text(nodes[0])
    } else {
        list_text(nodes.drop_last()) + ", "@ + structure_text(nodes.last())
    }
}

fn append_bool(out: &mut String, b: bool)
    ensures
        final(out)@ == old(out)@ + bool_text(b),
{
    if b {
        out.append("true");
    } else {
        out.append("false");
    }
}

fn append_opt_count(out: &mut String, n: Option<u64>)
    ensures
        final(out)@ == old(out)@ + opt_count_text(
            match n { Some(v) => Some(v as nat), None => None },
        ),
{
    match n {
        Some(v) => {
            out.append("Some(");
            append_decimal(out, v);
            out.append(")");
            assert(out@ =~= old(out)@ + ("Some("@ + decimal(v as nat) + ")"@));
        },
        None => {
            out.append("None");
        },
    }
}

fn append_structure(out: &mut String, node: &Node)
    ensures
        final(out)@ == old(out)@ + structure_text(*node),
    decreases node,
{
    let ghost start = out@;
    match node {
        Node::Empty => {
            out.append("Empty");
        },
        Node::Literal(t) => {
            out.append("Literal(\"");
            out.append(t.as_str());
            out.append("\")");
        },
        Node::Class(c) => {
            out.append("Class(");
            out.append(c.as_str());
            out.append(")");
        },
        Node::Look(l) => {
            out.append("Look(");
            out.append(l.as_str());
            out.append(")");
        },
        Node::Repetition { min, max, greedy, sub } => {
            out.append("Repetition { min: ");
            append_decimal(out, *min as u64);
            out.append(", max: ");
            append_opt_count(out, match max { Some(m) => Some(*m as u64), None => None });
            out.append(", greedy: ");
            append_bool(out, *greedy);
            out.append(", sub: ");
            append_structure(out, sub);
            out.append(" }");
        },
        Node::Capture { index, name, sub } => {
            out.append("Capture { index: ");
            append_decimal(out, *index as u64);
            out.append(", name: ");
            match name {
                Some(s) => {
                    out.append("Some(\"");
                    out.append(s.as_str());
                    out.append("\")");
                },
                None => {
                    out.append("None");
                },
            }
            out.append(", sub: ");
            append_structure(out, sub);
            out.append(" }");
        },
        Node::Concat(children) => {
            out.append("Concat([");
            append_list(out, children);
            out.append("])");
        },
        Node::Alternation(children) => {
            out.append("Alternation([");
            append_list(out, children);
            out.append("])");
        },
    }
    assert(out@ =~= start + structure_text(*node));
}

fn append_list(out: &mut String, children: &Vec<Node>)
    ensures
        final(out)@ == old(out)@ + list_text(children@),
    decreases children,
{
    let ghost start = out@;
    let mut i: usize = 0;
    while i < children.len()
        invariant
            i <= children.len(),
            out@ == start + list_text(children@.subrange(0, i as int)),
        decreases children.len() - i,
    {
        if i > 0 {
            out.append(", ");
        }
        proof {
            assert(decreases_to!(*children => children[i as int]));
        }
        append_structure(out, &children[i]);
        proof {
            let s = children@.subrange(0, i + 1);
            assert(s.drop_last() =~= children@.subrange(0, i as int));
            assert(s.last() == children@[i as int]);
        }
        i = i + 1;
    }
    assert(children@.subrange(0, children.len() as int) =~= children@);
}

/// Text of an upper bound on length: `Some(n)`, or `unbounded`.
pub open spec fn max_len_text(n: Option<nat>) -> Seq<char> {
    match n {
        Some(v) => "Some("@ + decimal(v) + ")"@,
        None => "unbounded"@,
    }
}

/// Views an optional `usize` as an optional natural number.
pub open spec fn opt_nat(n: Option<usize>) -> Option<nat> {
    match n {
        Some(v) => Some(v as nat),
        None => None,
    }
}

/// The length fields of the properties dump.
pub open spec fn lengths_text(p: Properties) -> Seq<char> {
    "minimum_len: "@ + opt_count_text(opt_nat(p.minimum_len))
        + ", maximum_len: "@ + max_len_text(opt_nat(p.maximum_len))
}

/// The look-around fields of the properties dump.
pub open spec fn looks_text(p: Properties) -> Seq<char> {
    ", look_set: "@ + p.look_set@
        + ", look_set_prefix: "@ + p.look_set_prefix@
        + ", look_set_suffix: "@ + p.look_set_suffix@
        + ", look_set_prefix_any: "@ + p.look_set_prefix_any@
        + ", look_set_suffix_any: "@ + p.look_set_suffix_any@
}

/// The remaining fields of the properties dump.
pub open spec fn facts_text(p: Properties) -> Seq<char> {
    ", utf8: "@ + bool_text(p.utf8)
        + ", explicit_captures_len: "@ + decimal(p.explicit_captures_len as nat)
        + ", static_explicit_captures_len: "@ + opt_count_text(opt_nat(p.static_explicit_captures_len))
        + ", literal: "@ + bool_text(p.literal)
        + ", alternation_literal: "@ + bool_text(p.alternation_literal)
}

/// The properties dump: every field of `p`, labelled, in a fixed order.
pub open spec fn properties_text(p: Properties) -> Seq<char> {
    "Properties { "@ + lengths_text(p) + looks_text(p) + facts_text(p) + " }"@
}

fn append_lengths(out: &mut String, p: &Properties)
    ensures
        final(out)@ == old(out)@ + lengths_text(*p),
{
    out.append("minimum_len: ");
    append_opt_count(out, to_u64(p.minimum_len));
    out.append(", maximum_len: ");
    match p.maximum_len {
        Some(v) => {
            out.append("Some(");
            append_decimal(out, v as u64);
            out.append(")");
        },
        None => {
            out.append("unbounded");
        },
    }
    assert(out@ =~= old(out)@ + lengths_text(*p));
}

fn append_looks(out: &mut String, p: &Properties)
    ensures
        final(out)@ == old(out)@ + looks_text(*p),
{
    out.append(", look_set: ");
    out.append(p.look_set.as_str());
    out.append(", look_set_prefix: ");
    out.append(p.look_set_prefix.as_str());
    out.append(", look_set_suffix: ");
    out.append(p.look_set_suffix.as_str());
    out.append(", look_set_prefix_any: ");
    out.append(p.look_set_prefix_any.as_str());
    out.append(", look_set_suffix_any: ");
    out.append(p.look_set_suffix_any.as_str());
    assert(out@ =~= old(out)@ + looks_text(*p));
}

fn append_facts(out: &mut String, p: &Properties)
    ensures
        final(out)@ == old(out)@ + facts_text(*p),
{
    out.append(", utf8: ");
    append_bool(out, p.utf8);
    out.append(", explicit_captures_len: ");
    append_decimal(out, p.explicit_captures_len as u64);
    out.append(", static_explicit_captures_len: ");
    append_opt_count(out, to_u64(p.static_explicit_captures_len));
    out.append(", literal: ");
    append_bool(out, p.literal);
    out.append(", alternation_literal: ");
    append_bool(out, p.alternation_literal);
    assert(out@ =~= old(out)@ + facts_text(*p));
}

fn to_u64(n: Option<usize>) -> (r: Option<u64>)
    ensures
        match r { Some(v) => Some(v as nat), None => None } == opt_nat(n),
{
    match n {
        Some(v) => Some(v as u64),
        None => None,
    }
}

/// Renders the structural dump of the tree rooted at `node`.
pub fn render_structure(node: &Node) -> (r: String)
    ensures
        r@ == structure_text(*node),
{
    let mut out = String::new();
    append_structure(&mut out, node);
    assert(out@ =~= structure_text(*node));
    out
}

/// Renders the flat properties dump of a whole tree.
pub fn render_properties(p: &Properties) -> (r: String)
    ensures
        r@ == properties_text(*p),
{
    let mut out = String::new();
    out.append("Properties { ");
    append_lengths(&mut out, p);
    append_looks(&mut out, p);
    append_facts(&mut out, p);
    out.append(" }");
    assert(out@ =~= properties_text(*p));
    out
}

/// Renders a parse outcome: the structural dump and the properties dump of a
/// tree, or, for a parse failure, its message in place of both.
pub fn render(parsed: &Result<Tree, String>) -> (r: (String, String))
    ensures
        match parsed {
            Ok(t) => r.0@ == structure_text(t.root) && r.1@ == properties_text(t.properties),
            Err(message) => r.0@ == message@ && r.1@ == message@,
        },
{
    match parsed {
        Ok(t) => (render_structure(&t.root), render_properties(&t.properties)),
        Err(message) => (message.clone(), message.clone()),
    }
}

} // verus!
