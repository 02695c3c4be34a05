use cica::skills::{escape_xml, format_skills_xml, parse_skill, sort_skills, Skill};
use cica::text::{is_text_le, stripped_of};

#[test]
fn test_escape_xml() {
    assert_eq!(escape_xml("hello"), "hello");
    assert_eq!(escape_xml("a < b"), "a &lt; b");
    assert_eq!(escape_xml("a & b"), "a &amp; b");
}

#[test]
fn escape_xml_covers_all_five_characters() {
    assert_eq!(escape_xml("<a href=\"x\">'&'</a>"), "&lt;a href=&quot;x&quot;&gt;&apos;&amp;&apos;&lt;/a&gt;");
    assert_eq!(escape_xml(""), "");
    assert_eq!(escape_xml("&amp;"), "&amp;amp;");
}

#[test]
fn skills_are_written_as_xml() {
    assert_eq!(format_skills_xml(&[]), "");
    let skills = vec![
        Skill {
            name: "mail".to_string(),
            description: "Read & send".to_string(),
            location: "/skills/mail/SKILL.md".to_string(),
        },
        Skill {
            name: "cal".to_string(),
            description: "Calendar".to_string(),
            location: "/skills/cal/SKILL.md".to_string(),
        },
    ];
    assert_eq!(
        format_skills_xml(&skills),
        "<available_skills>\n  <skill>\n    <name>mail</name>\n    <description>Read &amp; send</description>\n    <location>/skills/mail/SKILL.md</location>\n  </skill>\n  <skill>\n    <name>cal</name>\n    <description>Calendar</description>\n    <location>/skills/cal/SKILL.md</location>\n  </skill>\n</available_skills>"
    );
}

#[test]
fn skill_file_with_front_matter() {
    let content = "---\nname: \"mail\"\ndescription: 'Reads and sends mail'\nother: x\n---\n# Mail\nname: not this\n";
    let skill = parse_skill(content, "mail-dir", "/skills/mail-dir/SKILL.md");
    assert_eq!(skill.name, "mail");
    assert_eq!(skill.description, "Reads and sends mail");
    assert_eq!(skill.location, "/skills/mail-dir/SKILL.md");
}

#[test]
fn skill_file_without_front_matter_takes_the_directory_name() {
    let skill = parse_skill("# Just a title\nname: x\n", "weather", "/s/weather/SKILL.md");
    assert_eq!(skill.name, "weather");
    assert_eq!(skill.description, "Skill: weather");
    // A front matter that is never closed is none.
    let skill = parse_skill("---\nname: x\n", "weather", "l");
    assert_eq!(skill.name, "weather");
    let skill = parse_skill("", "weather", "l");
    assert_eq!(skill.description, "Skill: weather");
}

#[test]
fn skill_file_details() {
    // The last of two lines counts; whitespace and quotes around a value go.
    let skill = parse_skill(
        "---\r\n  name:  first \r\nname: \"'second'\"  \r\ndescription:\r\n---\r\n",
        "d",
        "l",
    );
    assert_eq!(skill.name, "second");
    assert_eq!(skill.description, "");
    // The markers need not stand on lines of their own.
    let skill = parse_skill("---name: inline---", "d", "l");
    assert_eq!(skill.name, "inline");
    let skill = parse_skill("------", "d", "l");
    assert_eq!(skill.name, "d");
    // A key must stand at the start of its line.
    let skill = parse_skill("---\nthe name: x\ndescription: \"a \"b\" c\"\n---", "d", "l");
    assert_eq!(skill.name, "d");
    assert_eq!(skill.description, "a \"b\" c");
}

#[test]
fn characters_are_stripped_from_both_ends() {
    let strip = |s: &str, c: char| -> String {
        stripped_of(&s.chars().collect::<Vec<char>>(), c).into_iter().collect()
    };
    for (s, c) in [("\"a\"", '"'), ("''a'b''", '\''), ("aaa", 'a'), ("", 'a'), ("abca", 'a'), ("xay", 'a')] {
        assert_eq!(strip(s, c), s.trim_matches(c), "{:?}", s);
    }
}

#[test]
fn texts_are_ordered_as_strings_are() {
    let words = ["", "a", "ab", "b", "B", "é", "z", "aa", "a b", "ab "];
    for a in words {
        for b in words {
            let x: Vec<char> = a.chars().collect();
            let y: Vec<char> = b.chars().collect();
            assert_eq!(is_text_le(&x, &y), a <= b, "{:?} {:?}", a, b);
        }
    }
}

#[test]
fn skills_are_sorted_by_name() {
    let skill = |name: &str, description: &str| Skill {
        name: name.to_string(),
        description: description.to_string(),
        location: String::new(),
    };
    let sorted = sort_skills(vec![
        skill("mail", "1"),
        skill("cal", "2"),
        skill("weather", "3"),
        skill("cal", "4"),
        skill("Zed", "5"),
        skill("", "6"),
    ]);
    let order: Vec<(&str, &str)> = sorted
        .iter()
        .map(|s| (s.name.as_str(), s.description.as_str()))
        .collect();
    assert_eq!(
        order,
        vec![("", "6"), ("Zed", "5"), ("cal", "2"), ("cal", "4"), ("mail", "1"), ("weather", "3")]
    );
    assert!(sort_skills(vec![]).is_empty());
}
