//! The tree builder: from the flat token tape to the document tree.
//!
//! A value starts at a place of the tape and ends before a limit. A scalar
//! token is a scalar. An object token opens a container whose fields run up
//! to its end token, or up to a mixed-container marker, behind which the
//! bare values of the container follow. An array token opens a container of
//! bare values. A header token and the value behind it are a container of
//! two bare values. Among bare values, operator tokens and the marker are
//! passed over. A tape that does not fit this layout gives no tree.
use vstd::prelude::*;
use vstd::slice::slice_to_vec;
use crate::document::{
    Container, Document, Entry, Field, Node, Scalar, Value, view_fields, view_values,
};
use crate::tape::{read_tokens, Token, TokenKind, tokens_of, TokenView, view_tokens};
use crate::text::view_contents;

verus! {

/// Whether a token of this kind can be a key or a scalar value.
pub open spec fn is_scalar_kind(kind: TokenKind) -> bool {
    kind == TokenKind::Unquoted || kind == TokenKind::Quoted || kind == TokenKind::Parameter
        || kind == TokenKind::UndefinedParameter
}

/// Whether a token of this kind is passed over among bare values.
pub open spec fn is_passed_over(kind: TokenKind) -> bool {
    kind == TokenKind::Operator || kind == TokenKind::MixedContainer
}

/// The scalar that a token holds.
pub open spec fn scalar_node(token: TokenView) -> Node {
    Node::Scalar {
        bytes: match token.bytes {
            Some(b) => b,
            None => Seq::empty(),
        },
        text: token.text,
    }
}

/// A value read from the tape, and the place behind it.
pub struct ParsedValue {
    pub node: Node,
    pub next: int,
}

/// The fields read from the tape, and the place where they stop: the end of
/// their range, or a mixed-container marker.
pub struct ParsedFields {
    pub fields: Seq<Entry>,
    pub stop: int,
}

/// The value that starts at `at` and ends before `limit`.
pub open spec fn value_at(tokens: Seq<TokenView>, at: int, limit: int) -> Option<ParsedValue>
    decreases limit - at, 0int,
{
    if at < 0 || at >= limit || limit > tokens.len() {
        None
    } else if is_scalar_kind(tokens[at].kind) {
        Some(ParsedValue { node: scalar_node(tokens[at]), next: at + 1 })
    } else if tokens[at].kind == TokenKind::Header {
        match value_at(tokens, at + 1, limit) {
            Some(body) => Some(
                ParsedValue {
                    node: Node::Container {
                        fields: Seq::empty(),
                        values: seq![scalar_node(tokens[at]), body.node],
                    },
                    next: body.next,
                },
            ),
            None => None,
        }
    } else if tokens[at].kind == TokenKind::Array {
        match tokens[at].end {
            Some(end) => if at < end < limit {
                match values_from(tokens, at + 1, end as int) {
                    Some(values) => Some(
                        ParsedValue {
                            node: Node::Container { fields: Seq::empty(), values },
                            next: end + 1,
                        },
                    ),
                    None => None,
                }
            } else {
                None
            },
            None => None,
        }
    } else if tokens[at].kind == TokenKind::Object {
        match tokens[at].end {
            Some(end) => if at < end < limit {
                match fields_from(tokens, at + 1, end as int) {
                    Some(parsed) => if parsed.stop == end {
                        Some(
                            ParsedValue {
                                node: Node::Container {
                                    fields: parsed.fields,
                                    values: Seq::empty(),
                                },
                                next: end + 1,
                            },
                        )
                    } else if at < parsed.stop < end {
                        match values_from(tokens, parsed.stop + 1, end as int) {
                            Some(values) => Some(
                                ParsedValue {
                                    node: Node::Container { fields: parsed.fields, values },
                                    next: end + 1,
                                },
                            ),
                            None => None,
                        }
                    } else {
                        None
                    },
                    None => None,
                }
            } else {
                None
            },
            None => None,
        }
    } else {
        None
    }
}

/// The bare values from `at` up to `end`.
pub open spec fn values_from(tokens: Seq<TokenView>, at: int, end: int) -> Option<Seq<Node>>
    decreases end - at, 1int,
{
    if at < 0 || end > tokens.len() || at > end {
        None
    } else if at == end {
        Some(Seq::empty())
    } else if is_passed_over(tokens[at].kind) {
        values_from(tokens, at + 1, end)
    } else {
        match value_at(tokens, at, end) {
            Some(first) => if at < first.next <= end {
                match values_from(tokens, first.next, end) {
                    Some(rest) => Some(seq![first.node] + rest),
                    None => None,
                }
            } else {
                None
            },
            None => None,
        }
    }
}

/// Whether an operator token stands behind the key at `at`.
pub open spec fn has_operator(tokens: Seq<TokenView>, at: int, end: int) -> bool {
    at + 1 < end && tokens[at + 1].kind == TokenKind::Operator
}

/// The fields from `at` on: up to `end`, or up to a mixed-container marker.
pub open spec fn fields_from(tokens: Seq<TokenView>, at: int, end: int) -> Option<ParsedFields>
    decreases end - at, 1int,
{
    if at < 0 || end > tokens.len() || at > end {
        None
    } else if at == end {
        Some(ParsedFields { fields: Seq::empty(), stop: end })
    } else if tokens[at].kind == TokenKind::MixedContainer {
        Some(ParsedFields { fields: Seq::empty(), stop: at })
    } else if !is_scalar_kind(tokens[at].kind) {
        None
    } else {
        let value_place = if has_operator(tokens, at, end) {
            at + 2
        } else {
            at + 1
        };
        match value_at(tokens, value_place, end) {
            Some(value) => if at < value.next <= end {
                match fields_from(tokens, value.next, end) {
                    Some(rest) => Some(
                        ParsedFields {
                            fields: seq![
                                Entry {
                                    key: tokens[at].text,
                                    op: if has_operator(tokens, at, end) {
                                        tokens[at + 1].op
                                    } else {
                                        None
                                    },
                                    value: value.node,
                                },
                            ] + rest.fields,
                            stop: rest.stop,
                        },
                    ),
                    None => None,
                }
            } else {
                None
            },
            None => None,
        }
    }
}

/// The document that a tape holds: its top-level fields.
pub open spec fn document_of(tokens: Seq<TokenView>) -> Option<Seq<Entry>> {
    match fields_from(tokens, 0, tokens.len() as int) {
        Some(parsed) => Some(parsed.fields),
        None => None,
    }
}

fn is_scalar(kind: TokenKind) -> (yes: bool)
    ensures
        yes == is_scalar_kind(kind),
{
    kind == TokenKind::Unquoted || kind == TokenKind::Quoted || kind == TokenKind::Parameter
        || kind == TokenKind::UndefinedParameter
}

fn scalar_of(token: &Token) -> (value: Value)
    ensures
        value@ == scalar_node(token@),
{
    let bytes = match &token.bytes {
        Some(b) => slice_to_vec(b.as_slice()),
        None => Vec::new(),
    };
    Value::Scalar(Scalar { bytes, text: token.text.clone() })
}

fn container(fields: Vec<Field>, values: Vec<Value>) -> (value: Value)
    ensures
        value@ == (Node::Container {
            fields: view_fields(fields@),
            values: view_values(values@),
        }),
{
    Value::Container(Container { fields, values })
}

/// Builds the value that starts at `at` and ends before `limit`, and gives
/// the place behind it.
fn build_value(tokens: &Vec<Token>, at: usize, limit: usize) -> (parsed: Option<(Value, usize)>)
    ensures
        parsed is Some <==> value_at(view_tokens(tokens@), at as int, limit as int) is Some,
        parsed matches Some(p) ==> value_at(view_tokens(tokens@), at as int, limit as int)
            == Some(ParsedValue { node: p.0@, next: p.1 as int }),
    decreases limit - at, 0int,
{
    let ghost tape = view_tokens(tokens@);
    if at >= limit || limit > tokens.len() {
        return None;
    }
    let token = &tokens[at];
    assert(tape[at as int] == token@);
    if is_scalar(token.kind) {
        Some((scalar_of(token), at + 1))
    } else if token.kind == TokenKind::Header {
        match build_value(tokens, at + 1, limit) {
            Some((body, next)) => {
                let mut values: Vec<Value> = Vec::new();
                values.push(scalar_of(token));
                values.push(body);
                assert(view_values(values@) =~= seq![scalar_node(token@), body@]);
                assert(view_fields(Seq::<Field>::empty()) =~= Seq::<Entry>::empty());
                Some((container(Vec::new(), values), next))
            },
            None => None,
        }
    } else if token.kind == TokenKind::Array {
        match token.end {
            Some(end) => {
                if at < end && end < limit {
                    match build_values(tokens, at + 1, end) {
                        Some(values) => {
                            assert(view_fields(Seq::<Field>::empty()) =~= Seq::<Entry>::empty());
                            Some((container(Vec::new(), values), end + 1))
                        },
                        None => None,
                    }
                } else {
                    None
                }
            },
            None => None,
        }
    } else if token.kind == TokenKind::Object {
        match token.end {
            Some(end) => {
                if at < end && end < limit {
                    match build_fields(tokens, at + 1, end) {
                        Some((fields, stop)) => {
                            if stop == end {
                                assert(view_values(Seq::<Value>::empty()) =~= Seq::<Node>::empty());
                                Some((container(fields, Vec::new()), end + 1))
                            } else if at < stop && stop < end {
                                match build_values(tokens, stop + 1, end) {
                                    Some(values) => Some((container(fields, values), end + 1)),
                                    None => None,
                                }
                            } else {
                                None
                            }
                        },
                        None => None,
                    }
                } else {
                    None
                }
            },
            None => None,
        }
    } else {
        None
    }
}

/// Builds the bare values from `at` up to `end`.
fn build_values(tokens: &Vec<Token>, at: usize, end: usize) -> (parsed: Option<Vec<Value>>)
    ensures
        parsed is Some <==> values_from(view_tokens(tokens@), at as int, end as int) is Some,
        parsed matches Some(values) ==> values_from(view_tokens(tokens@), at as int, end as int)
            == Some(view_values(values@)),
    decreases end - at, 1int,
{
    let ghost tape = view_tokens(tokens@);
    if end > tokens.len() || at > end {
        return None;
    }
    let mut values: Vec<Value> = Vec::new();
    let mut cur: usize = at;
    assert(view_values(values@) =~= Seq::<Node>::empty());
    assert(values_from(tape, cur as int, end as int) matches Some(rest) ==> view_values(values@)
        + rest =~= rest);
    while cur < end
        invariant
            at <= cur <= end <= tokens.len(),
            tape == view_tokens(tokens@),
            values_from(tape, at as int, end as int) == match values_from(
                tape,
                cur as int,
                end as int,
            ) {
                Some(rest) => Some(view_values(values@) + rest),
                None => None,
            },
        decreases end - cur,
    {
        assert(tape[cur as int] == tokens@[cur as int]@);
        let kind = tokens[cur].kind;
        if kind == TokenKind::Operator || kind == TokenKind::MixedContainer {
            cur += 1;
        } else {
            match build_value(tokens, cur, end) {
                Some((value, next)) => {
                    if cur < next && next <= end {
                        let ghost before = view_values(values@);
                        values.push(value);
                        proof {
                            assert(view_values(values@) =~= before.push(value@));
                            match values_from(tape, next as int, end as int) {
                                Some(rest) => {
                                    assert(before + (seq![value@] + rest) =~= view_values(values@)
                                        + rest);
                                },
                                None => {},
                            }
                        }
                        cur = next;
                    } else {
                        return None;
                    }
                },
                None => {
                    return None;
                },
            }
        }
    }
    assert(view_values(values@) + Seq::<Node>::empty() =~= view_values(values@));
    Some(values)
}

/// Builds the fields from `at` on, up to `end` or up to a mixed-container
/// marker, and gives the place where they stop.
fn build_fields(tokens: &Vec<Token>, at: usize, end: usize) -> (parsed: Option<
    (Vec<Field>, usize),
>)
    ensures
        parsed is Some <==> fields_from(view_tokens(tokens@), at as int, end as int) is Some,
        parsed matches Some(p) ==> fields_from(view_tokens(tokens@), at as int, end as int)
            == Some(ParsedFields { fields: view_fields(p.0@), stop: p.1 as int }),
    decreases end - at, 1int,
{
    let ghost tape = view_tokens(tokens@);
    if end > tokens.len() || at > end {
        return None;
    }
    let mut fields: Vec<Field> = Vec::new();
    let mut cur: usize = at;
    assert(view_fields(fields@) =~= Seq::<Entry>::empty());
    assert(fields_from(tape, cur as int, end as int) matches Some(rest) ==> view_fields(fields@)
        + rest.fields =~= rest.fields);
    while cur < end
        invariant
            at <= cur <= end <= tokens.len(),
            tape == view_tokens(tokens@),
            fields_from(tape, at as int, end as int) == match fields_from(
                tape,
                cur as int,
                end as int,
            ) {
                Some(rest) => Some(
                    ParsedFields { fields: view_fields(fields@) + rest.fields, stop: rest.stop },
                ),
                None => None,
            },
        decreases end - cur,
    {
        assert(tape[cur as int] == tokens@[cur as int]@);
        let key = &tokens[cur];
        if key.kind == TokenKind::MixedContainer {
            assert(view_fields(fields@) + Seq::<Entry>::empty() =~= view_fields(fields@));
            return Some((fields, cur));
        }
        if !is_scalar(key.kind) {
            return None;
        }
        let with_operator = cur + 1 < end && tokens[cur + 1].kind == TokenKind::Operator;
        assert(with_operator == has_operator(tape, cur as int, end as int)) by {
            if cur + 1 < end {
                assert(tape[cur + 1] == tokens@[cur + 1]@);
            }
        }
        let value_place = if with_operator {
            cur + 2
        } else {
            cur + 1
        };
        let op = if with_operator {
            assert(tape[cur + 1] == tokens@[cur + 1]@);
            tokens[cur + 1].op
        } else {
            None
        };
        match build_value(tokens, value_place, end) {
            Some((value, next)) => {
                if cur < next && next <= end {
                    let ghost before = view_fields(fields@);
                    let field = Field { key: key.text.clone(), op, value };
                    fields.push(field);
                    proof {
                        assert(view_fields(fields@) =~= before.push(field@));
                        match fields_from(tape, next as int, end as int) {
                            Some(rest) => {
                                assert(before + (seq![field@] + rest.fields) =~= view_fields(
                                    fields@,
                                ) + rest.fields);
                            },
                            None => {},
                        }
                    }
                    cur = next;
                } else {
                    return None;
                }
            },
            None => {
                return None;
            },
        }
    }
    assert(view_fields(fields@) + Seq::<Entry>::empty() =~= view_fields(fields@));
    Some((fields, cur))
}

/// Builds the document that a tape holds.
pub fn build_document(tokens: &Vec<Token>) -> (document: Option<Document>)
    ensures
        document is Some <==> document_of(view_tokens(tokens@)) is Some,
        document matches Some(d) ==> document_of(view_tokens(tokens@)) == Some(d@),
{
    match build_fields(tokens, 0, tokens.len()) {
        Some((fields, _)) => Some(Document { fields }),
        None => None,
    }
}

/// The document that a file holds: the tree of the tape that the outside
/// parser makes of it, where it accepts the file and the tape fits.
pub open spec fn parsed_document(data: Seq<u8>) -> Option<Seq<Entry>> {
    match tokens_of(data) {
        Some(tokens) => document_of(tokens),
        None => None,
    }
}

/// Parses a file into its document.
pub fn parse_document(data: &[u8]) -> (document: Option<Document>)
    ensures
        document is Some <==> parsed_document(data@) is Some,
        document matches Some(d) ==> parsed_document(data@) == Some(d@),
{
    match read_tokens(data) {
        Some(tokens) => build_document(&tokens),
        None => None,
    }
}

/// The documents that a list of files holds, in order; a file that holds
/// none is passed over.
pub open spec fn parsed_documents(files: Seq<Seq<u8>>) -> Seq<Seq<Entry>>
    decreases files.len(),
{
    if files.len() == 0 {
        Seq::empty()
    } else {
        match parsed_document(files.last()) {
            Some(document) => parsed_documents(files.drop_last()).push(document),
            None => parsed_documents(files.drop_last()),
        }
    }
}

/// The models of a list of documents, in order.
pub open spec fn view_documents(documents: Seq<Document>) -> Seq<Seq<Entry>> {
    documents.map_values(|d: Document| d@)
}

/// Parses a list of files, each given by its content; a file that does not
/// parse is passed over.
pub fn parse_documents(files: &Vec<Vec<u8>>) -> (documents: Vec<Document>)
    ensures
        view_documents(documents@) == parsed_documents(view_contents(files@)),
{
    let ghost all = view_contents(files@);
    let mut documents: Vec<Document> = Vec::new();
    let mut i: usize = 0;
    assert(view_documents(documents@) =~= Seq::<Seq<Entry>>::empty());
    while i < files.len()
        invariant
            i <= files.len(),
            all == view_contents(files@),
            view_documents(documents@) == parsed_documents(all.take(i as int)),
        decreases files.len() - i,
    {
        assert(all.take(i + 1).drop_last() =~= all.take(i as int));
        assert(all.take(i + 1).last() == files@[i as int]@);
        match parse_document(files[i].as_slice()) {
            Some(document) => {
                let ghost before = view_documents(documents@);
                documents.push(document);
                assert(view_documents(documents@) =~= before.push(document@));
            },
            None => {},
        }
        i += 1;
    }
    assert(all.take(i as int) =~= all);
    documents
}

} // verus!
