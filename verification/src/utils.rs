//! Helpers for rendering conditions: the wording of condition keys, and the
//! markup of a condition tree.
use vstd::prelude::*;
use crate::sorting::{ascending_texts, drop_repeats, sort_texts, without_repeats};
use crate::text::{
    chars_of, line_bounds, lines_of, push_text, slice_string, string_of, text_eq, texts, uppercase,
    uppercase_of,
};

verus! {

/// The wording of a condition key: a fixed phrase for the keys that have
/// one, and the key itself otherwise.
pub open spec fn translated(key: Seq<char>) -> Seq<char> {
    if key == "OR"@ {
        "One of the following"@
    } else if key == "AND"@ {
        "All of the following"@
    } else if key == "NOT"@ {
        "None of the following"@
    } else if key == "has_dlc"@ {
        "Has DLC Enabled"@
    } else if key == "has_reform"@ {
        "Have reform"@
    } else if key == "culture_group"@ {
        "Culture Group"@
    } else if key == "primary_culture"@ {
        "Primary Culture"@
    } else if key == "technology_group"@ {
        "Technology Group"@
    } else {
        key
    }
}

/// Puts a condition key into words.
pub fn translate(key: &str) -> (wording: &str)
    ensures
        wording@ == translated(key@),
{
    if text_eq(key, "OR") {
        "One of the following"
    } else if text_eq(key, "AND") {
        "All of the following"
    } else if text_eq(key, "NOT") {
        "None of the following"
    } else if text_eq(key, "has_dlc") {
        "Has DLC Enabled"
    } else if text_eq(key, "has_reform") {
        "Have reform"
    } else if text_eq(key, "culture_group") {
        "Culture Group"
    } else if text_eq(key, "primary_culture") {
        "Primary Culture"
    } else if text_eq(key, "technology_group") {
        "Technology Group"
    } else {
        key
    }
}

/// A condition tree in the shape of JSON. A number holds its numeral.
#[derive(Debug, PartialEq, Eq)]
pub enum Json {
    Null,
    Bool(bool),
    Number(String),
    Text(String),
    Array(Vec<Json>),
    Object(Vec<Member>),
}

/// One member of a JSON object.
#[derive(Debug, PartialEq, Eq)]
pub struct Member {
    pub key: String,
    pub value: Json,
}

/// The mathematical model of a [`Json`] value.
pub enum JsonNode {
    Null,
    Bool(bool),
    Number(Seq<char>),
    Text(Seq<char>),
    Array(Seq<JsonNode>),
    Object(Seq<(Seq<char>, JsonNode)>),
}

impl View for Json {
    type V = JsonNode;

    open spec fn view(&self) -> JsonNode
        decreases self,
    {
        match self {
            Json::Null => JsonNode::Null,
            Json::Bool(b) => JsonNode::Bool(*b),
            Json::Number(n) => JsonNode::Number(n@),
            Json::Text(t) => JsonNode::Text(t@),
            Json::Array(items) => JsonNode::Array(view_items(items@)),
            Json::Object(members) => JsonNode::Object(view_members(members@)),
        }
    }
}

/// The models of a list of JSON values, in order.
pub open spec fn view_items(items: Seq<Json>) -> Seq<JsonNode>
    decreases items,
{
    Seq::new(
        items.len(),
        |i: int|
            if 0 <= i < items.len() {
                items[i].view()
            } else {
                arbitrary()
            },
    )
}

/// The models of a list of members, in order.
pub open spec fn view_members(members: Seq<Member>) -> Seq<(Seq<char>, JsonNode)>
    decreases members,
{
    Seq::new(
        members.len(),
        |i: int|
            if 0 <= i < members.len() {
                (members[i].key@, members[i].value.view())
            } else {
                arbitrary()
            },
    )
}

/// The markup of a condition tree. Text stands as it is, and so do `true`
/// and `false`; any other scalar is a list of one item. An array is a list
/// of its items. An object is a run of lists of one item each, which holds
/// the wording of a member's key and the markup of its value; a member whose
/// value is an array has one such list for each item of the array.
pub open spec fn html_of(node: JsonNode) -> Seq<char>
    decreases node, 0int,
{
    match node {
        JsonNode::Null => "<ul><li>"@ + "null"@ + "</li></ul>"@,
        JsonNode::Bool(b) => if b {
            "true"@
        } else {
            "false"@
        },
        JsonNode::Number(n) => if n == "true"@ || n == "false"@ {
            n
        } else {
            "<ul><li>"@ + n + "</li></ul>"@
        },
        JsonNode::Text(t) => t,
        JsonNode::Array(items) => "<ul>"@ + items_html(items) + "</ul>"@,
        JsonNode::Object(members) => members_html(members),
    }
}

/// The markup of the items of an array: each between `<li>` and `</li>`.
pub open spec fn items_html(items: Seq<JsonNode>) -> Seq<char>
    decreases items, 0int,
{
    if items.len() == 0 {
        Seq::empty()
    } else {
        items_html(items.drop_last()) + "<li>"@ + html_of(items.last()) + "</li>"@
    }
}

/// The markup of one value under the key `key`.
pub open spec fn line_html(key: Seq<char>, value: JsonNode) -> Seq<char>
    decreases value, 1int,
{
    "<ul><li>"@ + translated(key) + ": "@ + html_of(value) + "</li></ul>"@
}

/// The markup of each of `values` under the key `key`.
pub open spec fn lines_html(key: Seq<char>, values: Seq<JsonNode>) -> Seq<char>
    decreases values, 0int,
{
    if values.len() == 0 {
        Seq::empty()
    } else {
        lines_html(key, values.drop_last()) + line_html(key, values.last())
    }
}

/// The markup of the members of an object.
pub open spec fn members_html(members: Seq<(Seq<char>, JsonNode)>) -> Seq<char>
    decreases members, 0int,
{
    if members.len() == 0 {
        Seq::empty()
    } else {
        members_html(members.drop_last()) + match members.last().1 {
            JsonNode::Array(items) => lines_html(members.last().0, items),
            _ => line_html(members.last().0, members.last().1),
        }
    }
}

impl Json {
    /// The items of an array.
    pub fn as_array(&self) -> (items: Option<&Vec<Json>>)
        ensures
            items matches Some(list) ==> self@ == JsonNode::Array(view_items(list@))
                && decreases_to!(self => list@),
            items is None ==> !(self@ is Array),
    {
        match self {
            Json::Array(items) => Some(items),
            _ => None,
        }
    }

    /// The members of an object.
    pub fn as_object(&self) -> (members: Option<&Vec<Member>>)
        ensures
            members matches Some(list) ==> self@ == JsonNode::Object(view_members(list@))
                && decreases_to!(self => list@),
            members is None ==> !(self@ is Object),
    {
        match self {
            Json::Object(members) => Some(members),
            _ => None,
        }
    }
}

fn push_line(out: &mut Vec<char>, key: &str, value: &Json)
    ensures
        final(out)@ == old(out)@ + line_html(key@, value@),
    decreases value, 1int,
{
    push_text(out, "<ul><li>");
    push_text(out, translate(key));
    push_text(out, ": ");
    push_html(out, value);
    push_text(out, "</li></ul>");
    assert(out@ =~= old(out)@ + line_html(key@, value@));
}

/// Appends the markup of `value` to `out`.
fn push_html(out: &mut Vec<char>, value: &Json)
    ensures
        final(out)@ == old(out)@ + html_of(value@),
    decreases value, 0int,
{
    let ghost start = out@;
    match value {
        Json::Null => {
            push_text(out, "<ul><li>");
            push_text(out, "null");
            push_text(out, "</li></ul>");
            assert(out@ =~= start + html_of(value@));
        },
        Json::Bool(b) => {
            if *b {
                push_text(out, "true");
            } else {
                push_text(out, "false");
            }
        },
        Json::Number(n) => {
            if text_eq(n.as_str(), "true") || text_eq(n.as_str(), "false") {
                push_text(out, n.as_str());
            } else {
                push_text(out, "<ul><li>");
                push_text(out, n.as_str());
                push_text(out, "</li></ul>");
                assert(out@ =~= start + html_of(value@));
            }
        },
        Json::Text(t) => {
            push_text(out, t.as_str());
        },
        _ => {
            match value.as_array() {
                Some(items) => {
                    push_text(out, "<ul>");
                    let ghost nodes = view_items(items@);
                    let ghost opened = out@;
                    let mut i: usize = 0;
                    assert(out@ =~= opened + items_html(nodes.take(0)));
                    while i < items.len()
                        invariant
                            i <= items.len(),
                            nodes == view_items(items@),
                            decreases_to!(value => items@),
                            out@ == opened + items_html(nodes.take(i as int)),
                        decreases items.len() - i,
                    {
                        assert(nodes.take(i + 1).drop_last() =~= nodes.take(i as int));
                        assert(nodes.take(i + 1).last() == items@[i as int]@);
                        push_text(out, "<li>");
                        push_html(out, &items[i]);
                        push_text(out, "</li>");
                        assert(out@ =~= opened + items_html(nodes.take(i + 1)));
                        i += 1;
                    }
                    assert(nodes.take(i as int) =~= nodes);
                    push_text(out, "</ul>");
                    assert(out@ =~= start + html_of(value@));
                },
                None => {},
            }
            match value.as_object() {
                Some(members) => {
                    let ghost pairs = view_members(members@);
                    let mut i: usize = 0;
                    assert(out@ =~= start + members_html(pairs.take(0)));
                    while i < members.len()
                        invariant
                            i <= members.len(),
                            pairs == view_members(members@),
                            decreases_to!(value => members@),
                            out@ == start + members_html(pairs.take(i as int)),
                        decreases members.len() - i,
                    {
                        assert(pairs.take(i + 1).drop_last() =~= pairs.take(i as int));
                        assert(pairs.take(i + 1).last() == (
                            members@[i as int].key@,
                            members@[i as int].value@,
                        ));
                        let member = &members[i];
                        let ghost before = out@;
                        match member.value.as_array() {
                            Some(items) => {
                                let ghost nodes = view_items(items@);
                                let mut k: usize = 0;
                                assert(out@ =~= before + lines_html(member.key@, nodes.take(0)));
                                while k < items.len()
                                    invariant
                                        k <= items.len(),
                                        nodes == view_items(items@),
                                        decreases_to!(value => items@),
                                        out@ == before + lines_html(
                                            member.key@,
                                            nodes.take(k as int),
                                        ),
                                    decreases items.len() - k,
                                {
                                    assert(nodes.take(k + 1).drop_last() =~= nodes.take(k as int));
                                    assert(nodes.take(k + 1).last() == items@[k as int]@);
                                    push_line(out, member.key.as_str(), &items[k]);
                                    assert(out@ =~= before + lines_html(
                                        member.key@,
                                        nodes.take(k + 1),
                                    ));
                                    k += 1;
                                }
                                assert(nodes.take(k as int) =~= nodes);
                            },
                            None => {
                                push_line(out, member.key.as_str(), &member.value);
                            },
                        }
                        assert(out@ =~= start + members_html(pairs.take(i + 1)));
                        i += 1;
                    }
                    assert(pairs.take(i as int) =~= pairs);
                },
                None => {},
            }
        },
    }
}

/// Renders a condition tree as markup.
pub fn htmlify(value: &Json) -> (html: String)
    ensures
        html@ == html_of(value@),
{
    let mut out: Vec<char> = Vec::new();
    push_html(&mut out, value);
    assert(out@ =~= html_of(value@));
    string_of(&out)
}

/// The text with its first character in upper case.
pub open spec fn title_cased(text: Seq<char>) -> Seq<char> {
    if text.len() == 0 {
        Seq::empty()
    } else {
        uppercase_of(text.first()) + text.drop_first()
    }
}

/// Puts the first character of a text into upper case.
pub fn title_case(string: &str) -> (title: String)
    ensures
        title@ == title_cased(string@),
{
    let chars = chars_of(string);
    if chars.len() == 0 {
        return String::new();
    }
    let mut out = uppercase(chars[0]);
    let ghost head = out@;
    let mut i: usize = 1;
    assert(chars@.drop_first().take(0) =~= Seq::<char>::empty());
    while i < chars.len()
        invariant
            1 <= i <= chars.len(),
            out@ == head + chars@.drop_first().take(i - 1),
        decreases chars.len() - i,
    {
        out.push(chars[i]);
        assert(out@ =~= head + chars@.drop_first().take(i as int));
        i += 1;
    }
    assert(chars@.drop_first().take(i - 1) =~= chars@.drop_first());
    string_of(&out)
}

/// The lines of a list that are not empty, in order.
pub open spec fn filled(lines: Seq<Seq<char>>) -> Seq<Seq<char>>
    decreases lines.len(),
{
    if lines.len() == 0 {
        Seq::empty()
    } else if lines.last().len() > 0 {
        filled(lines.drop_last()).push(lines.last())
    } else {
        filled(lines.drop_last())
    }
}

/// The arguments with which the version control lists the files that
/// changed in `commit_range` under `path_prefix`.
pub fn git_log_arguments(commit_range: &str, path_prefix: &str) -> (arguments: Vec<String>)
    ensures
        texts(arguments@) == seq![
            "log"@,
            "--pretty=format:"@,
            "--name-only"@,
            commit_range@,
            path_prefix@,
        ],
{
    let mut arguments: Vec<String> = Vec::new();
    arguments.push("log".to_owned());
    arguments.push("--pretty=format:".to_owned());
    arguments.push("--name-only".to_owned());
    arguments.push(commit_range.to_owned());
    arguments.push(path_prefix.to_owned());
    assert(texts(arguments@) =~= seq![
        "log"@,
        "--pretty=format:"@,
        "--name-only"@,
        commit_range@,
        path_prefix@,
    ]);
    arguments
}

/// Reads the files that changed from what the version control printed: the
/// lines that are not empty, in ascending order, each once.
pub fn get_git_changed_files(output: &str) -> (files: Vec<String>)
    ensures
        exists|sorted: Seq<Seq<char>>|
            sorted.to_multiset() == filled(lines_of(output@)).to_multiset() && ascending_texts(
                sorted,
            ) && texts(files@) == without_repeats(sorted),
{
    let chars = chars_of(output);
    let bounds = line_bounds(&chars);
    let ghost lines = lines_of(chars@);
    let mut files: Vec<String> = Vec::new();
    let mut i: usize = 0;
    assert(texts(files@) =~= filled(lines.take(0)));
    while i < bounds.len()
        invariant
            i <= bounds.len(),
            bounds@.len() == lines.len(),
            forall|k: int|
                0 <= k < bounds@.len() ==> (#[trigger] bounds@[k]).0 <= bounds@[k].1
                    <= chars@.len() && chars@.subrange(
                    bounds@[k].0 as int,
                    bounds@[k].1 as int,
                ) == lines[k],
            texts(files@) == filled(lines.take(i as int)),
        decreases bounds.len() - i,
    {
        assert(lines.take(i + 1).drop_last() =~= lines.take(i as int));
        assert(lines.take(i + 1).last() == lines[i as int]);
        let (from, to) = bounds[i];
        if from < to {
            let ghost before = texts(files@);
            let line = slice_string(&chars, from, to);
            files.push(line);
            assert(texts(files@) =~= before.push(lines[i as int]));
        }
        i += 1;
    }
    assert(lines.take(i as int) =~= lines);
    sort_texts(&mut files);
    let ghost sorted = texts(files@);
    drop_repeats(&mut files);
    assert(sorted.to_multiset() == filled(lines_of(output@)).to_multiset() && ascending_texts(
        sorted,
    ) && texts(files@) == without_repeats(sorted));
    files
}

} // verus!
