//! Skills: extensions the assistant can be told about.

use crate::text::{
    chars_of, find_str, find_text, is_text_le, lemma_le_total, lemma_le_transitive, push_str,
    slice_of, split_lines, starts_with_str, string_of, strip_char, stripped_of, text_le,
    text_lines, texts_of, trim, trimmed,
};
use vstd::seq_lib::to_multiset_insert;
use vstd::prelude::*;

verus! {

/// A skill found in the skills directory.
#[derive(Debug)]
pub struct Skill {
    pub name: String,
    pub description: String,
    /// Where the skill's description file lies, as shown to the assistant.
    pub location: String,
}

impl Clone for Skill {
    fn clone(&self) -> (r: Self)
        ensures
            r == *self,
    {
        Skill {
            name: self.name.clone(),
            description: self.description.clone(),
            location: self.location.clone(),
        }
    }
}

/// What stands for a character in XML text.
pub open spec fn escape_char(c: char) -> Seq<char> {
    if c == '&' {
        "&amp;"@
    } else if c == '<' {
        "&lt;"@
    } else if c == '>' {
        "&gt;"@
    } else if c == '"' {
        "&quot;"@
    } else if c == '\'' {
        "&apos;"@
    } else {
        seq![c]
    }
}

/// A text with every `&`, `<`, `>`, `"` and `'` replaced by its XML entity.
pub open spec fn escape_xml_spec(s: Seq<char>) -> Seq<char>
    decreases s.len(),
{
    if s.len() == 0 {
        Seq::empty()
    } else {
        escape_xml_spec(s.drop_last()) + escape_char(s.last())
    }
}

/// The XML element that describes one skill.
pub open spec fn skill_xml(skill: Skill) -> Seq<char> {
    "  <skill>\n"@ + "    <name>"@ + escape_xml_spec(skill.name@) + "</name>\n"@
        + "    <description>"@ + escape_xml_spec(skill.description@) + "</description>\n"@
        + "    <location>"@ + skill.location@ + "</location>\n"@ + "  </skill>\n"@
}

/// The XML elements of the first `n` skills, one after the other.
pub open spec fn skills_xml(skills: Seq<Skill>, n: nat) -> Seq<char>
    decreases n,
{
    if n == 0 || n > skills.len() {
        Seq::empty()
    } else {
        skills_xml(skills, (n - 1) as nat) + skill_xml(skills[n - 1])
    }
}

/// The list of skills as it is shown to the assistant: nothing for no
/// skills, else one element per skill inside `<available_skills>`.
pub open spec fn format_skills_spec(skills: Seq<Skill>) -> Seq<char> {
    if skills.len() == 0 {
        Seq::empty()
    } else {
        "<available_skills>\n"@ + skills_xml(skills, skills.len()) + "</available_skills>"@
    }
}

/// Replaces the characters that XML reserves by their entities.
pub fn escape_xml(s: &str) -> (r: String)
    ensures
        r@ == escape_xml_spec(s@),
{
    let raw = chars_of(s);
    let mut out: Vec<char> = Vec::new();
    let mut i: usize = 0;
    while i < raw.len()
        invariant
            i <= raw@.len(),
            out@ == escape_xml_spec(raw@.take(i as int)),
        decreases raw@.len() - i,
    {
        let c = raw[i];
        proof {
            let upto = raw@.take(i + 1);
            assert(upto.drop_last() == raw@.take(i as int));
            assert(upto.last() == c);
        }
        if c == '&' {
            push_str(&mut out, "&amp;");
        } else if c == '<' {
            push_str(&mut out, "&lt;");
        } else if c == '>' {
            push_str(&mut out, "&gt;");
        } else if c == '"' {
            push_str(&mut out, "&quot;");
        } else if c == '\'' {
            push_str(&mut out, "&apos;");
        } else {
            let ghost before = out@;
            out.push(c);
            assert(out@ == before + seq![c]);
        }
        i += 1;
    }
    assert(raw@.take(raw@.len() as int) == raw@);
    string_of(out.as_slice())
}

/// Writes the list of skills for the assistant.
pub fn format_skills_xml(skills: &[Skill]) -> (r: String)
    ensures
        r@ == format_skills_spec(skills@),
{
    if skills.len() == 0 {
        return String::new();
    }
    let mut out: Vec<char> = Vec::new();
    push_str(&mut out, "<available_skills>\n");
    let mut i: usize = 0;
    while i < skills.len()
        invariant
            i <= skills@.len(),
            out@ == "<available_skills>\n"@ + skills_xml(skills@, i as nat),
        decreases skills@.len() - i,
    {
        let skill = &skills[i];
        let ghost before = out@;
        push_str(&mut out, "  <skill>\n");
        push_str(&mut out, "    <name>");
        push_str(&mut out, escape_xml(skill.name.as_str()).as_str());
        push_str(&mut out, "</name>\n");
        push_str(&mut out, "    <description>");
        push_str(&mut out, escape_xml(skill.description.as_str()).as_str());
        push_str(&mut out, "</description>\n");
        push_str(&mut out, "    <location>");
        push_str(&mut out, skill.location.as_str());
        push_str(&mut out, "</location>\n");
        push_str(&mut out, "  </skill>\n");
        assert(out@ == before + skill_xml(*skill));
        i += 1;
    }
    push_str(&mut out, "</available_skills>");
    string_of(out.as_slice())
}

// ---------------------------------------------------------------------------
// Reading a skill file
// ---------------------------------------------------------------------------

/// What stands between the `---` at the start of a skill file and the next
/// `---`; `None` where the file does not start with `---` or has no second
/// one.
pub open spec fn front_matter(content: Seq<char>) -> Option<Seq<char>> {
    if "---"@.is_prefix_of(content) && find_text(content.skip(3), "---"@, 0) >= 0 {
        Some(content.skip(3).take(find_text(content.skip(3), "---"@, 0)))
    } else {
        None
    }
}

/// A value without the whitespace and the quotes around it.
pub open spec fn unquoted(value: Seq<char>) -> Seq<char> {
    strip_char(strip_char(trim(value), '"'), '\'')
}

/// The value that a line gives the field `key`: what follows the key on a
/// line that begins with it, whitespace before the key not counted.
pub open spec fn field_of(line: Seq<char>, key: Seq<char>) -> Option<Seq<char>> {
    if key.is_prefix_of(trim(line)) {
        Some(unquoted(trim(line).skip(key.len() as int)))
    } else {
        None
    }
}

/// The value of the field `key` among the first `n` lines: the last line
/// that gives it a value counts.
pub open spec fn last_field(lines: Seq<Seq<char>>, key: Seq<char>, n: nat) -> Option<Seq<char>>
    decreases n,
{
    if n == 0 || n > lines.len() {
        None
    } else {
        match field_of(lines[n - 1], key) {
            Some(value) => Some(value),
            None => last_field(lines, key, (n - 1) as nat),
        }
    }
}

/// The lines of the front matter of a skill file.
pub open spec fn header_lines(content: Seq<char>) -> Seq<Seq<char>> {
    match front_matter(content) {
        Some(header) => text_lines(header),
        None => Seq::empty(),
    }
}

/// The name of the skill that a file describes: the `name:` of its front
/// matter, or the name of its directory.
pub open spec fn skill_name(content: Seq<char>, dir_name: Seq<char>) -> Seq<char> {
    match last_field(header_lines(content), "name:"@, header_lines(content).len()) {
        Some(name) => name,
        None => dir_name,
    }
}

/// The description of the skill that a file describes: the `description:`
/// of its front matter, or a text made from the name of its directory.
pub open spec fn skill_description(content: Seq<char>, dir_name: Seq<char>) -> Seq<char> {
    match last_field(header_lines(content), "description:"@, header_lines(content).len()) {
        Some(description) => description,
        None => "Skill: "@ + dir_name,
    }
}

/// The value that a line gives the field `key`.
fn read_field(line: &[char], key: &str) -> (r: Option<Vec<char>>)
    ensures
        match r {
            Some(value) => field_of(line@, key@) == Some(value@),
            None => field_of(line@, key@) is None,
        },
{
    let t = trimmed(line);
    if !starts_with_str(t.as_slice(), key) {
        return None;
    }
    let k = chars_of(key);
    let rest = slice_of(t.as_slice(), k.len(), t.len());
    let value = trimmed(rest.as_slice());
    let bare = stripped_of(value.as_slice(), '"');
    Some(stripped_of(bare.as_slice(), '\''))
}

/// The value of the field `key` among `lines`.
fn read_last_field(lines: &Vec<Vec<char>>, key: &str) -> (r: Option<Vec<char>>)
    ensures
        match r {
            Some(value) => last_field(texts_of(lines@), key@, lines@.len()) == Some(value@),
            None => last_field(texts_of(lines@), key@, lines@.len()) is None,
        },
{
    let mut found: Option<Vec<char>> = None;
    let mut i: usize = 0;
    while i < lines.len()
        invariant
            i <= lines@.len(),
            match found {
                Some(value) => last_field(texts_of(lines@), key@, i as nat) == Some(value@),
                None => last_field(texts_of(lines@), key@, i as nat) is None,
            },
        decreases lines@.len() - i,
    {
        assert(texts_of(lines@)[i as int] == lines@[i as int]@);
        match read_field(lines[i].as_slice(), key) {
            Some(value) => {
                found = Some(value);
            },
            None => {},
        }
        i += 1;
    }
    found
}

/// Reads a skill from the text of its description file.
///
/// The file may begin with a front matter between two `---`, whose lines
/// `name: ...` and `description: ...` name and describe the skill. Where one
/// is missing, the name of the skill's directory stands in.
pub fn parse_skill(content: &str, dir_name: &str, location: &str) -> (r: Skill)
    ensures
        r.name@ == skill_name(content@, dir_name@),
        r.description@ == skill_description(content@, dir_name@),
        r.location@ == location@,
{
    let raw = chars_of(content);
    let mut lines: Vec<Vec<char>> = Vec::new();
    assert(texts_of(lines@) =~= Seq::<Seq<char>>::empty());
    if starts_with_str(raw.as_slice(), "---") {
        proof {
            reveal_strlit("---");
        }
        let rest = slice_of(raw.as_slice(), 3, raw.len());
        match find_str(rest.as_slice(), "---") {
            Some(end) => {
                let header = slice_of(rest.as_slice(), 0, end);
                lines = split_lines(header.as_slice());
            },
            None => {},
        }
    }
    assert(texts_of(lines@) == header_lines(content@));
    let name = match read_last_field(&lines, "name:") {
        Some(name) => string_of(name.as_slice()),
        None => dir_name.to_owned(),
    };
    let description = match read_last_field(&lines, "description:") {
        Some(description) => string_of(description.as_slice()),
        None => {
            let mut out: Vec<char> = Vec::new();
            push_str(&mut out, "Skill: ");
            push_str(&mut out, dir_name);
            string_of(out.as_slice())
        },
    };
    Skill { name, description, location: location.to_owned() }
}

// ---------------------------------------------------------------------------
// Order
// ---------------------------------------------------------------------------

/// Whether the skills stand in the order of their names.
pub open spec fn sorted_by_name(skills: Seq<Skill>) -> bool {
    forall|i: int, j: int|
        0 <= i < j < skills.len() ==> text_le(
            (#[trigger] skills[i]).name@,
            (#[trigger] skills[j]).name@,
        )
}

/// A sorted list stays sorted when a skill is put in after the skills that
/// do not come after it and before the skills that do.
proof fn lemma_insert_keeps_order(before: Seq<Skill>, at: int, skill: Skill)
    requires
        sorted_by_name(before),
        0 <= at <= before.len(),
        forall|k: int| 0 <= k < at ==> text_le((#[trigger] before[k]).name@, skill.name@),
        at < before.len() ==> !text_le(before[at].name@, skill.name@),
    ensures
        sorted_by_name(before.insert(at, skill)),
{
    let after = before.insert(at, skill);
    before.insert_ensures(at, skill);
    assert forall|i: int, j: int| 0 <= i < j < after.len() implies text_le(
        (#[trigger] after[i]).name@,
        (#[trigger] after[j]).name@,
    ) by {
        if j < at {
            assert(after[i] == before[i]);
            assert(after[j] == before[j]);
        } else if j == at {
            assert(after[i] == before[i]);
        } else if i == at {
            assert(after[j] == before[j - 1]);
            lemma_le_total(before[at].name@, skill.name@, 0);
            if j - 1 > at {
                lemma_le_transitive(skill.name@, before[at].name@, before[j - 1].name@, 0);
            }
        } else if i < at {
            assert(after[i] == before[i]);
            assert(after[j] == before[j - 1]);
        } else {
            assert(after[i] == before[i - 1]);
            assert(after[j] == before[j - 1]);
        }
    }
}

/// Puts `skill` into a sorted list at its place, after the skills of the
/// same name.
fn insert_sorted(out: &mut Vec<Skill>, skill: Skill)
    requires
        sorted_by_name(old(out)@),
    ensures
        sorted_by_name(final(out)@),
        final(out)@.to_multiset() == old(out)@.to_multiset().insert(skill),
{
    let name = chars_of(skill.name.as_str());
    let mut at: usize = 0;
    while at < out.len() && is_text_le(chars_of(out[at].name.as_str()).as_slice(), name.as_slice())
        invariant
            at <= out@.len(),
            name@ == skill.name@,
            forall|k: int| 0 <= k < at ==> text_le((#[trigger] out@[k]).name@, name@),
        decreases out@.len() - at,
    {
        at += 1;
    }
    proof {
        lemma_insert_keeps_order(out@, at as int, skill);
        to_multiset_insert(out@, at as int, skill);
    }
    out.insert(at, skill);
}

/// Puts skills in the order of their names.
pub fn sort_skills(skills: Vec<Skill>) -> (r: Vec<Skill>)
    ensures
        sorted_by_name(r@),
        r@.to_multiset() == skills@.to_multiset(),
{
    let mut out: Vec<Skill> = Vec::new();
    let ghost all = skills@;
    assert(out@ =~= all.take(0));
    for skill in it: skills
        invariant
            it.seq() == all,
            sorted_by_name(out@),
            out@.to_multiset() == all.take(it.index() as int).to_multiset(),
    {
        proof {
            let n = it.index() as int;
            assert(all.take(n + 1) == all.take(n).push(skill));
            all.take(n).to_multiset_ensures();
        }
        insert_sorted(&mut out, skill);
    }
    assert(all.take(all.len() as int) == all);
    out
}

} // verus!
