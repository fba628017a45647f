//! The canonical text of `workflow.json`: the manifest as indented JSON
//! (two spaces per level, `": "` after each key, members in declaration
//! order) followed by one newline. Strings are escaped as JSON requires:
//! quote, backslash and the control characters below U+0020; every other
//! character is written as itself.

use vstd::prelude::*;

use crate::domain::schema::{Classification, Manifest, Step, StepView};
use crate::text::{decimal, hex_char, hex_digit, push_char, push_decimal};

verus! {

/// How one character of a string value is written.
pub open spec fn escape_char(c: char) -> Seq<char> {
    if c == '"' {
        seq!['\\', '"']
    } else if c == '\\' {
        seq!['\\', '\\']
    } else if c == '\n' {
        seq!['\\', 'n']
    } else if c == '\r' {
        seq!['\\', 'r']
    } else if c == '\t' {
        seq!['\\', 't']
    } else if c == '\x08' {
        seq!['\\', 'b']
    } else if c == '\x0c' {
        seq!['\\', 'f']
    } else if (c as u32) < 0x20 {
        seq!['\\', 'u', '0', '0', hex_digit((c as u32 / 16) as nat), hex_digit((c as u32 % 16) as nat)]
    } else {
        seq![c]
    }
}

/// The escaped body of a string value.
pub open spec fn escaped(s: Seq<char>) -> Seq<char>
    decreases s.len(),
{
    if s.len() == 0 {
        Seq::empty()
    } else {
        escaped(s.drop_last()) + escape_char(s.last())
    }
}

/// A JSON string value.
pub open spec fn json_string(s: Seq<char>) -> Seq<char> {
    seq!['"'] + escaped(s) + seq!['"']
}

/// The leading spaces of a line at nesting `level`.
pub open spec fn indent(level: nat) -> Seq<char> {
    Seq::new(2 * level, |_i: int| ' ')
}

/// The elements of a non-empty array, each on its own line at
/// `level + 1`.
pub open spec fn array_items(elems: Seq<Seq<char>>, level: nat) -> Seq<char>
    decreases elems.len(),
{
    if elems.len() == 0 {
        Seq::empty()
    } else {
        array_items(elems.drop_last(), level) + (if elems.len() == 1 {
            seq!['\n']
        } else {
            seq![',', '\n']
        }) + indent(level + 1) + elems.last()
    }
}

/// An array whose opening bracket stands at `level`: `[]` when empty.
pub open spec fn array_text(elems: Seq<Seq<char>>, level: nat) -> Seq<char> {
    if elems.len() == 0 {
        seq!['[', ']']
    } else {
        seq!['['] + array_items(elems, level) + seq!['\n'] + indent(level) + seq![']']
    }
}

/// One object member on its own line.
pub open spec fn member(level: nat, key: Seq<char>, value: Seq<char>) -> Seq<char> {
    indent(level) + seq!['"'] + key + seq!['"', ':', ' '] + value
}

/// The name a classification is written as.
pub open spec fn class_name(c: Classification) -> Seq<char> {
    match c {
        Classification::Click => "click"@,
        Classification::Type => "type"@,
        Classification::Wait => "wait"@,
        Classification::Assert => "assert"@,
    }
}

/// Each classification is written as its variant name in lowercase, as
/// `#[serde(rename_all = "lowercase")]` names it, so the four names are
/// distinct and each reads back as the classification it came from.
pub proof fn lemma_classifications_are_written_by_their_lowercase_names()
    ensures
        class_name(Classification::Click) == seq!['c', 'l', 'i', 'c', 'k'],
        class_name(Classification::Type) == seq!['t', 'y', 'p', 'e'],
        class_name(Classification::Wait) == seq!['w', 'a', 'i', 't'],
        class_name(Classification::Assert) == seq!['a', 's', 's', 'e', 'r', 't'],
        forall|a: Classification, b: Classification| #[trigger] class_name(a) == #[trigger] class_name(b) ==> a == b,
{
    reveal_strlit("click");
    reveal_strlit("type");
    reveal_strlit("wait");
    reveal_strlit("assert");
    assert(class_name(Classification::Click) =~= seq!['c', 'l', 'i', 'c', 'k']);
    assert(class_name(Classification::Type) =~= seq!['t', 'y', 'p', 'e']);
    assert(class_name(Classification::Wait) =~= seq!['w', 'a', 'i', 't']);
    assert(class_name(Classification::Assert) =~= seq!['a', 's', 's', 'e', 'r', 't']);
    assert forall|a: Classification, b: Classification| #[trigger] class_name(a) == #[trigger] class_name(b) implies a == b by {
        if a != b {
            assert(class_name(a).len() != class_name(b).len() || class_name(a)[0] != class_name(b)[0]
                || class_name(a)[1] != class_name(b)[1]);
        }
    }
}

/// The string values of a list, as array elements.
pub open spec fn string_elems(v: Seq<Seq<char>>) -> Seq<Seq<char>> {
    v.map_values(|s: Seq<char>| json_string(s))
}

/// One step as an object whose braces stand at `level`.
pub open spec fn step_text(step: StepView, level: nat) -> Seq<char> {
    seq!['{', '\n'] + member(level + 1, "id"@, json_string(step.id)) + seq![',', '\n'] + member(
        level + 1,
        "event_ids"@,
        array_text(string_elems(step.event_ids), level + 1),
    ) + seq![',', '\n'] + member(
        level + 1,
        "classification"@,
        seq!['"'] + class_name(step.classification) + seq!['"'],
    ) + seq![',', '\n'] + member(level + 1, "title"@, json_string(step.title)) + seq![',', '\n']
        + member(level + 1, "description"@, json_string(step.description)) + seq!['\n'] + indent(
        level,
    ) + seq!['}']
}

/// The steps of a manifest as array elements at `level`.
pub open spec fn step_elems(steps: Seq<Step>, level: nat) -> Seq<Seq<char>> {
    steps.map_values(|s: Step| step_text(s@, level))
}

/// The full text of `workflow.json` for a manifest.
pub open spec fn manifest_text(m: Manifest) -> Seq<char> {
    seq!['{', '\n'] + member(1, "schema_version"@, decimal(m.schema_version as nat)) + seq![
        ',',
        '\n',
    ] + member(1, "id"@, json_string(m.id@)) + seq![',', '\n'] + member(
        1,
        "name"@,
        json_string(m.name@),
    ) + seq![',', '\n'] + member(1, "created_at"@, json_string(m.created_at@)) + seq![',', '\n']
        + member(1, "steps"@, array_text(step_elems(m.steps@, 2), 1)) + seq!['\n', '}', '\n']
}

fn push_escaped_char(out: &mut String, c: char)
    ensures
        final(out)@ == old(out)@ + escape_char(c),
{
    let start = Ghost(out@);
    if c == '"' {
        push_char(out, '\\');
        push_char(out, '"');
    } else if c == '\\' {
        push_char(out, '\\');
        push_char(out, '\\');
    } else if c == '\n' {
        push_char(out, '\\');
        push_char(out, 'n');
    } else if c == '\r' {
        push_char(out, '\\');
        push_char(out, 'r');
    } else if c == '\t' {
        push_char(out, '\\');
        push_char(out, 't');
    } else if c == '\x08' {
        push_char(out, '\\');
        push_char(out, 'b');
    } else if c == '\x0c' {
        push_char(out, '\\');
        push_char(out, 'f');
    } else if (c as u32) < 0x20 {
        let code = c as u32;
        push_char(out, '\\');
        push_char(out, 'u');
        push_char(out, '0');
        push_char(out, '0');
        push_char(out, hex_char(code / 16));
        push_char(out, hex_char(code % 16));
    } else {
        push_char(out, c);
    }
    assert(out@ =~= start@ + escape_char(c));
}

/// Appends `s` as a JSON string value.
fn push_json_string(out: &mut String, s: &str)
    ensures
        final(out)@ == old(out)@ + json_string(s@),
{
    let ghost start = out@;
    push_char(out, '"');
    let n = s.unicode_len();
    let mut i: usize = 0;
    while i < n
        invariant
            n == s@.len(),
            0 <= i <= n,
            out@ == start + seq!['"'] + escaped(s@.take(i as int)),
        decreases n - i,
    {
        let c = s.get_char(i);
        push_escaped_char(out, c);
        assert(s@.take(i + 1).drop_last() =~= s@.take(i as int));
        i = i + 1;
    }
    assert(s@.take(n as int) =~= s@);
    push_char(out, '"');
    assert(out@ =~= start + json_string(s@));
}

fn push_indent(out: &mut String, level: usize)
    requires
        level <= 16,
    ensures
        final(out)@ == old(out)@ + indent(level as nat),
{
    let ghost start = out@;
    let mut k: usize = 0;
    while k < 2 * level
        invariant
            level <= 16,
            0 <= k <= 2 * level,
            out@ == start + Seq::new(k as nat, |_i: int| ' '),
        decreases 2 * level - k,
    {
        push_char(out, ' ');
        assert(out@ =~= start + Seq::new((k + 1) as nat, |_i: int| ' '));
        k = k + 1;
    }
    assert(out@ =~= start + indent(level as nat));
}

/// Appends the separator before array element `i` and its indent.
fn push_item_lead(out: &mut String, i: usize, level: usize)
    requires
        level <= 8,
    ensures
        final(out)@ == old(out)@ + (if i == 0 {
            seq!['\n']
        } else {
            seq![',', '\n']
        }) + indent(level as nat + 1),
{
    let ghost start = out@;
    if i > 0 {
        push_char(out, ',');
    }
    push_char(out, '\n');
    push_indent(out, level + 1);
    assert(out@ =~= start + (if i == 0 {
        seq!['\n']
    } else {
        seq![',', '\n']
    }) + indent(level as nat + 1));
}

/// Appends the closing line of a non-empty array or object.
fn push_close(out: &mut String, level: usize, bracket: char)
    requires
        level <= 8,
    ensures
        final(out)@ == old(out)@ + seq!['\n'] + indent(level as nat) + seq![bracket],
{
    let ghost start = out@;
    push_char(out, '\n');
    push_indent(out, level);
    push_char(out, bracket);
    assert(out@ =~= start + seq!['\n'] + indent(level as nat) + seq![bracket]);
}

fn push_string_array(out: &mut String, items: &Vec<String>, level: usize)
    requires
        level <= 8,
    ensures
        final(out)@ == old(out)@ + array_text(
            string_elems(crate::domain::schema::strings_view(items@)),
            level as nat,
        ),
{
    let ghost start = out@;
    let ghost elems = string_elems(crate::domain::schema::strings_view(items@));
    if items.len() == 0 {
        out.append("[]");
        proof {
            reveal_strlit("[]");
        }
        assert(out@ =~= start + array_text(elems, level as nat));
        return;
    }
    push_char(out, '[');
    let mut i: usize = 0;
    while i < items.len()
        invariant
            level <= 8,
            0 <= i <= items@.len(),
            elems == string_elems(crate::domain::schema::strings_view(items@)),
            elems.len() == items@.len(),
            out@ == start + seq!['['] + array_items(elems.take(i as int), level as nat),
        decreases items@.len() - i,
    {
        push_item_lead(out, i, level);
        push_json_string(out, items[i].as_str());
        proof {
            let t = elems.take(i + 1);
            assert(t.drop_last() =~= elems.take(i as int));
            assert(t.last() == json_string(items@[i as int]@));
        }
        i = i + 1;
    }
    assert(elems.take(items@.len() as int) =~= elems);
    push_close(out, level, ']');
    assert(out@ =~= start + array_text(elems, level as nat));
}

/// Appends `"key": ` on its own line at `level`.
fn push_key(out: &mut String, level: usize, key: &str)
    requires
        level <= 8,
    ensures
        final(out)@ == old(out)@ + indent(level as nat) + seq!['"'] + key@ + seq!['"', ':', ' '],
{
    let ghost start = out@;
    push_indent(out, level);
    push_char(out, '"');
    out.append(key);
    push_char(out, '"');
    push_char(out, ':');
    push_char(out, ' ');
    assert(out@ =~= start + indent(level as nat) + seq!['"'] + key@ + seq!['"', ':', ' ']);
}

fn push_member_end(out: &mut String)
    ensures
        final(out)@ == old(out)@ + seq![',', '\n'],
{
    let ghost start = out@;
    push_char(out, ',');
    push_char(out, '\n');
    assert(out@ =~= start + seq![',', '\n']);
}

fn class_name_of(c: Classification) -> (r: &'static str)
    ensures
        r@ == class_name(c),
{
    match c {
        Classification::Click => "click",
        Classification::Type => "type",
        Classification::Wait => "wait",
        Classification::Assert => "assert",
    }
}

/// Appends one member whose value is a string.
fn push_string_member(out: &mut String, level: usize, key: &str, value: &str)
    requires
        level <= 8,
    ensures
        final(out)@ == old(out)@ + member(level as nat, key@, json_string(value@)),
{
    let ghost start = out@;
    push_key(out, level, key);
    push_json_string(out, value);
    assert(out@ =~= start + member(level as nat, key@, json_string(value@)));
}

fn push_ids_member(out: &mut String, level: usize, ids: &Vec<String>)
    requires
        level <= 7,
    ensures
        final(out)@ == old(out)@ + member(
            level as nat,
            "event_ids"@,
            array_text(string_elems(crate::domain::schema::strings_view(ids@)), level as nat),
        ),
{
    let ghost start = out@;
    push_key(out, level, "event_ids");
    push_string_array(out, ids, level);
    assert(out@ =~= start + member(
        level as nat,
        "event_ids"@,
        array_text(string_elems(crate::domain::schema::strings_view(ids@)), level as nat),
    ));
}

fn push_class_member(out: &mut String, level: usize, c: Classification)
    requires
        level <= 8,
    ensures
        final(out)@ == old(out)@ + member(
            level as nat,
            "classification"@,
            seq!['"'] + class_name(c) + seq!['"'],
        ),
{
    let ghost start = out@;
    push_key(out, level, "classification");
    push_char(out, '"');
    out.append(class_name_of(c));
    push_char(out, '"');
    assert(out@ =~= start + member(
        level as nat,
        "classification"@,
        seq!['"'] + class_name(c) + seq!['"'],
    ));
}

fn push_step(out: &mut String, step: &Step, level: usize)
    requires
        level <= 6,
    ensures
        final(out)@ == old(out)@ + step_text(step@, level as nat),
{
    let ghost start = out@;
    let ghost sep = seq![',', '\n'];
    push_char(out, '{');
    push_char(out, '\n');
    let ghost mut acc = seq!['{', '\n'];
    assert(out@ =~= start + acc);
    push_string_member(out, level + 1, "id", step.id.as_str());
    proof {
        let piece = member(level as nat + 1, "id"@, json_string(step.id@));
        vstd::seq_lib::lemma_concat_associative(start, acc, piece);
        acc = acc + piece;
    }
    push_member_end(out);
    proof {
        vstd::seq_lib::lemma_concat_associative(start, acc, sep);
        acc = acc + sep;
    }
    push_ids_member(out, level + 1, &step.event_ids);
    proof {
        let piece = member(
            level as nat + 1,
            "event_ids"@,
            array_text(string_elems(step@.event_ids), level as nat + 1),
        );
        vstd::seq_lib::lemma_concat_associative(start, acc, piece);
        acc = acc + piece;
    }
    push_member_end(out);
    proof {
        vstd::seq_lib::lemma_concat_associative(start, acc, sep);
        acc = acc + sep;
    }
    push_class_member(out, level + 1, step.classification);
    proof {
        let piece = member(
            level as nat + 1,
            "classification"@,
            seq!['"'] + class_name(step.classification) + seq!['"'],
        );
        vstd::seq_lib::lemma_concat_associative(start, acc, piece);
        acc = acc + piece;
    }
    push_member_end(out);
    proof {
        vstd::seq_lib::lemma_concat_associative(start, acc, sep);
        acc = acc + sep;
    }
    push_string_member(out, level + 1, "title", step.title.as_str());
    proof {
        let piece = member(level as nat + 1, "title"@, json_string(step.title@));
        vstd::seq_lib::lemma_concat_associative(start, acc, piece);
        acc = acc + piece;
    }
    push_member_end(out);
    proof {
        vstd::seq_lib::lemma_concat_associative(start, acc, sep);
        acc = acc + sep;
    }
    push_string_member(out, level + 1, "description", step.description.as_str());
    proof {
        let piece = member(level as nat + 1, "description"@, json_string(step.description@));
        vstd::seq_lib::lemma_concat_associative(start, acc, piece);
        acc = acc + piece;
    }
    push_close(out, level, '}');
    proof {
        let piece = seq!['\n'] + indent(level as nat) + seq!['}'];
        vstd::seq_lib::lemma_concat_associative(start, acc, piece);
        assert(acc + piece == step_text(step@, level as nat));
    }
}

fn push_steps(out: &mut String, steps: &Vec<Step>, level: usize)
    requires
        level <= 4,
    ensures
        final(out)@ == old(out)@ + array_text(step_elems(steps@, level as nat + 1), level as nat),
{
    let ghost start = out@;
    let ghost elems = step_elems(steps@, level as nat + 1);
    if steps.len() == 0 {
        out.append("[]");
        proof {
            reveal_strlit("[]");
        }
        assert(out@ =~= start + array_text(elems, level as nat));
        return;
    }
    push_char(out, '[');
    let mut i: usize = 0;
    while i < steps.len()
        invariant
            level <= 4,
            0 <= i <= steps@.len(),
            elems == step_elems(steps@, level as nat + 1),
            elems.len() == steps@.len(),
            out@ == start + seq!['['] + array_items(elems.take(i as int), level as nat),
        decreases steps@.len() - i,
    {
        push_item_lead(out, i, level);
        push_step(out, &steps[i], level + 1);
        proof {
            let t = elems.take(i + 1);
            assert(t.drop_last() =~= elems.take(i as int));
            assert(t.last() == step_text(steps@[i as int]@, level as nat + 1));
        }
        i = i + 1;
    }
    assert(elems.take(steps@.len() as int) =~= elems);
    push_close(out, level, ']');
    assert(out@ =~= start + array_text(elems, level as nat));
}

fn push_version_member(out: &mut String, version: u32)
    ensures
        final(out)@ == old(out)@ + member(1, "schema_version"@, decimal(version as nat)),
{
    let ghost start = out@;
    push_key(out, 1, "schema_version");
    push_decimal(out, version as u64);
    assert(out@ =~= start + member(1, "schema_version"@, decimal(version as nat)));
}

fn push_steps_member(out: &mut String, steps: &Vec<Step>)
    ensures
        final(out)@ == old(out)@ + member(1, "steps"@, array_text(step_elems(steps@, 2), 1)),
{
    let ghost start = out@;
    push_key(out, 1, "steps");
    push_steps(out, steps, 1);
    assert(out@ =~= start + member(1, "steps"@, array_text(step_elems(steps@, 2), 1)));
}

/// The canonical contents of `workflow.json` for `manifest`.
pub fn manifest_json(manifest: &Manifest) -> (r: String)
    ensures
        r@ == manifest_text(*manifest),
{
    let mut out = String::new();
    let ghost start = out@;
    let ghost sep = seq![',', '\n'];
    push_char(&mut out, '{');
    push_char(&mut out, '\n');
    let ghost mut acc = seq!['{', '\n'];
    assert(out@ =~= start + acc);
    push_version_member(&mut out, manifest.schema_version);
    proof {
        let piece = member(1, "schema_version"@, decimal(manifest.schema_version as nat));
        vstd::seq_lib::lemma_concat_associative(start, acc, piece);
        acc = acc + piece;
    }
    push_member_end(&mut out);
    proof {
        vstd::seq_lib::lemma_concat_associative(start, acc, sep);
        acc = acc + sep;
    }
    push_string_member(&mut out, 1, "id", manifest.id.as_str());
    proof {
        let piece = member(1, "id"@, json_string(manifest.id@));
        vstd::seq_lib::lemma_concat_associative(start, acc, piece);
        acc = acc + piece;
    }
    push_member_end(&mut out);
    proof {
        vstd::seq_lib::lemma_concat_associative(start, acc, sep);
        acc = acc + sep;
    }
    push_string_member(&mut out, 1, "name", manifest.name.as_str());
    proof {
        let piece = member(1, "name"@, json_string(manifest.name@));
        vstd::seq_lib::lemma_concat_associative(start, acc, piece);
        acc = acc + piece;
    }
    push_member_end(&mut out);
    proof {
        vstd::seq_lib::lemma_concat_associative(start, acc, sep);
        acc = acc + sep;
    }
    push_string_member(&mut out, 1, "created_at", manifest.created_at.as_str());
    proof {
        let piece = member(1, "created_at"@, json_string(manifest.created_at@));
        vstd::seq_lib::lemma_concat_associative(start, acc, piece);
        acc = acc + piece;
    }
    push_member_end(&mut out);
    proof {
        vstd::seq_lib::lemma_concat_associative(start, acc, sep);
        acc = acc + sep;
    }
    push_steps_member(&mut out, &manifest.steps);
    proof {
        let piece = member(1, "steps"@, array_text(step_elems(manifest.steps@, 2), 1));
        vstd::seq_lib::lemma_concat_associative(start, acc, piece);
        acc = acc + piece;
    }
    push_close(&mut out, 0, '}');
    push_char(&mut out, '\n');
    proof {
        let piece = seq!['\n'] + indent(0) + seq!['}'];
        vstd::seq_lib::lemma_concat_associative(start, acc, piece);
        acc = acc + piece;
        assert(seq!['\n'] + indent(0) + seq!['}'] + seq!['\n'] =~= seq!['\n', '}', '\n']);
        vstd::seq_lib::lemma_concat_associative(start, acc, seq!['\n']);
        assert(start =~= Seq::<char>::empty());
        assert(acc + seq!['\n'] =~= manifest_text(*manifest));
    }
    out
}

} // verus!
