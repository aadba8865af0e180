use vstd::prelude::*;

use crate::render::{dec_digits, format_u64, format_i64, int_str};

verus! {

/// The contents of one YAML node, as the plain loader exposes them.
/// `Real` keeps the lexical form of the scalar so that no precision is
/// lost before a floating-point value is actually needed.
pub enum NodeData {
    Null,
    Boolean(bool),
    Integer(i64),
    Real(String),
    String(String),
    Array(Vec<Node>),
    Hash(Vec<(Node, Node)>),
    Alias(usize),
    BadValue,
}

/// A YAML node annotated with the line and column where it starts.
/// `line` is 1-indexed and `col` is 0-indexed, as the parser reports them.
pub struct Node {
    pub line: usize,
    pub col: usize,
    pub data: NodeData,
}

#[verifier::external_type_specification]
#[verifier::external_body]
pub struct ExMarkedYaml(saphyr::MarkedYaml);

/// What parsing a YAML text yields: the documents it holds, in order, or the
/// scanner's error message. Parsing is a function of the text alone.
pub uninterp spec fn yaml_parse_of(s: Seq<char>) -> Result<Vec<Node>, String>;

/// Converts the contents of saphyr's marked node, variant for variant,
/// moving each scalar value. Trusted as part of the parse call below;
/// nothing is filtered, reordered or computed.
#[verifier::external_body]
fn data_from_marked(y: &saphyr::MarkedYaml) -> (r: NodeData) {
    match &y.data {
        saphyr::YamlData::Null => NodeData::Null,
        saphyr::YamlData::Boolean(b) => NodeData::Boolean(*b),
        saphyr::YamlData::Integer(i) => NodeData::Integer(*i),
        saphyr::YamlData::Real(s) => NodeData::Real(s.clone()),
        saphyr::YamlData::String(s) => NodeData::String(s.clone()),
        saphyr::YamlData::Array(v) => NodeData::Array(v.iter().map(node_from_marked).collect()),
        saphyr::YamlData::Hash(h) => NodeData::Hash(
            h.iter().map(|(k, v)| (node_from_marked(k), node_from_marked(v))).collect(),
        ),
        saphyr::YamlData::Alias(a) => NodeData::Alias(*a),
        saphyr::YamlData::BadValue => NodeData::BadValue,
    }
}

/// Pairs the converted contents with the start marker's line and column.
/// Trusted as part of the parse call below.
#[verifier::external_body]
fn node_from_marked(y: &saphyr::MarkedYaml) -> (r: Node) {
    Node { line: y.span.start.line(), col: y.span.start.col(), data: data_from_marked(y) }
}

/// Relies on saphyr's `MarkedYaml::load_from_str`, which parses a YAML text
/// into its documents; the error case carries the scanner error's message.
/// The result depends on the text alone, which `yaml_parse_of` names.
#[verifier::external_body]
pub fn load_yaml_documents(s: &str) -> (r: Result<Vec<Node>, String>)
    ensures
        r == yaml_parse_of(s@),
{
    match saphyr::MarkedYaml::load_from_str(s) {
        Ok(docs) => Ok(docs.iter().map(node_from_marked).collect()),
        Err(e) => Err(format!("{}", e)),
    }
}

/// One escaped character, as a debug rendering of a string shows it.
pub open spec fn esc_char(c: char) -> Seq<char> {
    if c == '"' {
        seq!['\\', '"']
    } else if c == '\\' {
        seq!['\\', '\\']
    } else if c == '\n' {
        seq!['\\', 'n']
    } else if c == '\r' {
        seq!['\\', 'r']
    } else if c == '\t' {
        seq!['\\', 't']
    } else {
        seq![c]
    }
}

/// A string's characters with quotes, backslashes and the common control
/// characters escaped.
pub open spec fn escaped(s: Seq<char>) -> Seq<char>
    decreases s.len(),
{
    if s.len() == 0 {
        Seq::empty()
    } else {
        esc_char(s[0]) + escaped(s.skip(1))
    }
}

proof fn lemma_escaped_snoc(s: Seq<char>, c: char)
    ensures
        escaped(s.push(c)) == escaped(s) + esc_char(c),
    decreases s.len(),
{
    assert(s.push(c).len() == s.len() + 1);
    if s.len() == 0 {
        assert(s.push(c)[0] == c);
        assert(s.push(c).skip(1) =~= Seq::<char>::empty());
        assert(escaped(s.push(c)) == esc_char(c) + escaped(Seq::<char>::empty()));
        assert(escaped(s.push(c)) =~= escaped(s) + esc_char(c));
    } else {
        assert(s.push(c)[0] == s[0]);
        assert(s.push(c).skip(1) =~= s.skip(1).push(c));
        lemma_escaped_snoc(s.skip(1), c);
        assert(escaped(s.push(c)) == esc_char(s[0]) + escaped(s.skip(1).push(c)));
        assert(escaped(s.push(c)) =~= escaped(s) + esc_char(c));
    }
}

/// Relies on `String::push`: appends exactly the one character.
#[verifier::external_body]
pub fn push_char(s: &mut String, c: char)
    ensures
        final(s)@ == old(s)@.push(c),
{
    s.push(c);
}

/// Appends the escaped form of `t` to `out`.
pub fn push_escaped(out: &mut String, t: &str)
    ensures
        final(out)@ == old(out)@ + escaped(t@),
{
    proof {
        reveal_strlit("\\\"");
        reveal_strlit("\\\\");
        reveal_strlit("\\n");
        reveal_strlit("\\r");
        reveal_strlit("\\t");
    }
    let ghost base: Seq<char> = out@;
    let n = t.unicode_len();
    let mut i: usize = 0;
    proof {
        assert(t@.take(0) =~= Seq::<char>::empty());
        assert(out@ =~= base + escaped(t@.take(0)));
    }
    while i < n
        invariant
            n == t@.len(),
            i <= n,
            out@ == base + escaped(t@.take(i as int)),
        decreases n - i,
    {
        proof {
            reveal_strlit("\\\"");
            reveal_strlit("\\\\");
            reveal_strlit("\\n");
            reveal_strlit("\\r");
            reveal_strlit("\\t");
        }
        let c = t.get_char(i);
        if c == '"' {
            out.append("\\\"");
        } else if c == '\\' {
            out.append("\\\\");
        } else if c == '\n' {
            out.append("\\n");
        } else if c == '\r' {
            out.append("\\r");
        } else if c == '\t' {
            out.append("\\t");
        } else {
            push_char(out, c);
        }
        proof {
            lemma_escaped_snoc(t@.take(i as int), t@[i as int]);
            assert(t@.take(i + 1 as int) =~= t@.take(i as int).push(t@[i as int]));
            assert(out@ =~= base + escaped(t@.take(i + 1 as int)));
        }
        i = i + 1;
    }
    proof {
        assert(t@.take(n as int) =~= t@);
    }
}

/// The debug rendering of a node's data: scalars exactly as the parser's
/// debug output shows them, containers shortened to their kind.
pub open spec fn data_debug(d: NodeData) -> Seq<char> {
    match d {
        NodeData::Null => "Null"@,
        NodeData::Boolean(b) => if b { "Boolean(true)"@ } else { "Boolean(false)"@ },
        NodeData::Integer(i) => "Integer("@ + int_str(i as int) + ")"@,
        NodeData::Real(s) => "Real(\""@ + escaped(s@) + "\")"@,
        NodeData::String(s) => "String(\""@ + escaped(s@) + "\")"@,
        NodeData::Array(_) => "Array([..])"@,
        NodeData::Hash(_) => "Hash({..})"@,
        NodeData::Alias(a) => "Alias("@ + dec_digits(a as nat) + ")"@,
        NodeData::BadValue => "BadValue"@,
    }
}

/// Appends the debug rendering of `d` to `out`.
pub fn push_data_debug(out: &mut String, d: &NodeData)
    ensures
        final(out)@ == old(out)@ + data_debug(*d),
{
    proof {
        reveal_strlit("Null");
        reveal_strlit("Boolean(true)");
        reveal_strlit("Boolean(false)");
        reveal_strlit("Integer(");
        reveal_strlit("Real(\"");
        reveal_strlit("String(\"");
        reveal_strlit("\")");
        reveal_strlit(")");
        reveal_strlit("Array([..])");
        reveal_strlit("Hash({..})");
        reveal_strlit("Alias(");
        reveal_strlit("BadValue");
    }
    match d {
        NodeData::Null => {
            out.append("Null");
        },
        NodeData::Boolean(b) => {
            if *b {
                out.append("Boolean(true)");
            } else {
                out.append("Boolean(false)");
            }
        },
        NodeData::Integer(i) => {
            out.append("Integer(");
            let s = format_i64(*i);
            out.append(s.as_str());
            out.append(")");
        },
        NodeData::Real(s) => {
            out.append("Real(\"");
            push_escaped(out, s.as_str());
            out.append("\")");
        },
        NodeData::String(s) => {
            out.append("String(\"");
            push_escaped(out, s.as_str());
            out.append("\")");
        },
        NodeData::Array(_) => {
            out.append("Array([..])");
        },
        NodeData::Hash(_) => {
            out.append("Hash({..})");
        },
        NodeData::Alias(a) => {
            out.append("Alias(");
            let s = format_u64(*a as u64);
            out.append(s.as_str());
            out.append(")");
        },
        NodeData::BadValue => {
            out.append("BadValue");
        },
    }
    proof {
        assert(final(out)@ =~= old(out)@ + data_debug(*d));
    }
}

/// The plain rendering of a node's data used when quoting the offending
/// value itself: scalars in their natural form, strings quoted, containers
/// shortened to their kind.
pub open spec fn data_value_str(d: NodeData) -> Seq<char> {
    match d {
        NodeData::Null => "null"@,
        NodeData::Boolean(b) => if b { "true"@ } else { "false"@ },
        NodeData::Integer(i) => int_str(i as int),
        NodeData::Real(s) => s@,
        NodeData::String(s) => "\""@ + s@ + "\""@,
        _ => data_debug(d),
    }
}

/// Appends the plain rendering of `d` to `out`.
pub fn push_data_value(out: &mut String, d: &NodeData)
    ensures
        final(out)@ == old(out)@ + data_value_str(*d),
{
    proof {
        reveal_strlit("null");
        reveal_strlit("true");
        reveal_strlit("false");
        reveal_strlit("\"");
    }
    match d {
        NodeData::Null => {
            out.append("null");
        },
        NodeData::Boolean(b) => {
            if *b {
                out.append("true");
            } else {
                out.append("false");
            }
        },
        NodeData::Integer(i) => {
            let s = format_i64(*i);
            out.append(s.as_str());
        },
        NodeData::Real(s) => {
            out.append(s.as_str());
        },
        NodeData::String(s) => {
            out.append("\"");
            out.append(s.as_str());
            out.append("\"");
        },
        _ => {
            push_data_debug(out, d);
        },
    }
    proof {
        assert(final(out)@ =~= old(out)@ + data_value_str(*d));
    }
}

} // verus!
